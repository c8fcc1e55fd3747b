//! YAML rendering of results, the default output: one member or item per
//! line, nested values indented by two spaces, items introduced by `- `,
//! and strings quoted only where plain YAML could misread them.

use vstd::prelude::*;
use crate::json::{Json, JsonV, json_pretty, to_json_pretty, items_view, lemma_items_view, lemma_members_view, members_view};
use crate::text::{is_ws, is_whitespace};

verus! {

/// A hexadecimal digit in lower case.
pub open spec fn hex_digit(n: int) -> char {
    if n < 10 {
        (('0' as int) + n) as char
    } else {
        (('a' as int) + n - 10) as char
    }
}

/// How a character is written inside a JSON string literal: `"` and `\`
/// behind a backslash, the control characters with a short escape as such,
/// the other control characters below U+0020 as `\u00xx` in lower-case hex,
/// and every other character as itself.
pub open spec fn escaped_char(c: char) -> Seq<char> {
    let u = c as int;
    if c == '"' {
        seq!['\\', '"']
    } else if c == '\\' {
        seq!['\\', '\\']
    } else if u == 0x08 {
        seq!['\\', 'b']
    } else if u == 0x09 {
        seq!['\\', 't']
    } else if u == 0x0A {
        seq!['\\', 'n']
    } else if u == 0x0C {
        seq!['\\', 'f']
    } else if u == 0x0D {
        seq!['\\', 'r']
    } else if u < 0x20 {
        seq!['\\', 'u', '0', '0', hex_digit(u / 16), hex_digit(u % 16)]
    } else {
        seq![c]
    }
}

/// The characters of a string, each escaped.
pub open spec fn escaped(s: Seq<char>) -> Seq<char>
    decreases s.len(),
{
    if s.len() == 0 {
        Seq::empty()
    } else {
        escaped(s.drop_last()) + escaped_char(s.last())
    }
}

/// The JSON string literal of a string: its escaped characters in double quotes.
pub open spec fn json_quoted(s: Seq<char>) -> Seq<char> {
    seq!['"'] + escaped(s) + seq!['"']
}

/// Quotes a string as a JSON string literal with `serde_json::to_string`
/// (which cannot fail for a string). The contract states serde_json's escape
/// table (`format_escaped_str` with the compact formatter).
#[verifier::external_body]
fn quote(s: &str) -> (r: String)
    ensures
        r@ == json_quoted(s@),
{
    serde_json::to_string(s).unwrap_or_default()
}

/// A character that may stand in a plain (unquoted) scalar: an ASCII letter
/// or digit, one of a few punctuation marks, or a character from U+00A0 on
/// that is not whitespace (the C1 controls U+0080 to U+009F are excluded).
pub open spec fn safe_char(c: char) -> bool {
    let u = c as int;
    ||| 0x30 <= u <= 0x39
    ||| 0x41 <= u <= 0x5A
    ||| 0x61 <= u <= 0x7A
    ||| c == ' ' || c == '-' || c == '_' || c == '.' || c == '/' || c == '(' || c == ')'
    ||| c == '@' || c == '+' || c == '&' || c == '\''
    ||| (u >= 0xA0 && !is_ws(c))
}

/// A character that may start a plain scalar: an ASCII letter, `/`, or a
/// character from U+00A0 on that is not whitespace.
pub open spec fn safe_first(c: char) -> bool {
    let u = c as int;
    ||| 0x41 <= u <= 0x5A
    ||| 0x61 <= u <= 0x7A
    ||| c == '/'
    ||| (u >= 0xA0 && !is_ws(c))
}

/// The words that YAML would read as null or as a boolean.
pub open spec fn reserved_words() -> Seq<Seq<char>> {
    seq![
        "null"@, "Null"@, "NULL"@, "true"@, "True"@, "TRUE"@, "false"@, "False"@, "FALSE"@,
        "yes"@, "Yes"@, "YES"@, "no"@, "No"@, "NO"@, "on"@, "On"@, "ON"@, "off"@, "Off"@,
        "OFF"@, "y"@, "Y"@, "n"@, "N"@,
    ]
}

/// A string can be written without quotes: it starts with a letter or `/`,
/// does not end with a space, holds only safe characters, and is not a word
/// that YAML reads as null or boolean.
pub open spec fn plain_ok(s: Seq<char>) -> bool {
    &&& s.len() > 0
    &&& safe_first(s[0])
    &&& s[s.len() - 1] != ' '
    &&& forall|i: int| 0 <= i < s.len() ==> safe_char(#[trigger] s[i])
    &&& !reserved_words().contains(s)
}

/// A string as it is written: plain when it can be, JSON-quoted otherwise.
pub open spec fn text_of(s: Seq<char>) -> Seq<char> {
    if plain_ok(s) {
        s
    } else {
        json_quoted(s)
    }
}

/// A character that gives YAML text a meaning of its own: a comment, a
/// mapping or flow indicator, a quote, an alias, anchor, tag, block or
/// directive marker, or an escape.
pub open spec fn yaml_special(c: char) -> bool {
    ||| c == '#' || c == ':' || c == ',' || c == '[' || c == ']' || c == '{' || c == '}'
    ||| c == '"' || c == '`' || c == '*' || c == '!' || c == '|' || c == '>' || c == '%'
    ||| c == '?' || c == '\\' || c == '~'
}

/// Escaping never shortens a string.
proof fn lemma_escaped_len(s: Seq<char>)
    ensures
        escaped(s).len() >= s.len(),
    decreases s.len(),
{
    if s.len() > 0 {
        lemma_escaped_len(s.drop_last());
    }
}

/// A string is written either as it is or as its JSON string literal, and
/// as it is only when YAML reads the plain text back as the same string: it
/// is not empty, does not end with a space, holds no character that YAML
/// gives a meaning to (so no ` #` comment and no `: ` mapping), no control
/// character (C0, DEL or C1) and no whitespace but the space, does not start
/// like a number, a sequence entry, a quote, an anchor or a reserved marker,
/// and is not a word that YAML reads as null or as a boolean.
pub proof fn lemma_plain_text_reads_back(s: Seq<char>)
    ensures
        text_of(s) == s || text_of(s) == json_quoted(s),
        text_of(s) == s ==> {
            &&& s.len() > 0
            &&& s[s.len() - 1] != ' '
            &&& forall|i: int| 0 <= i < s.len() ==> {
                &&& !yaml_special(#[trigger] s[i])
                &&& (s[i] as int) >= 0x20
                &&& !(0x7F <= (s[i] as int) && (s[i] as int) < 0xA0)
                &&& (is_ws(s[i]) ==> s[i] == ' ')
            }
            &&& !('0' <= s[0] && s[0] <= '9')
            &&& s[0] != '-' && s[0] != '.' && s[0] != '+' && s[0] != ' '
            &&& s[0] != '&' && s[0] != '@' && s[0] != '\''
            &&& !reserved_words().contains(s)
        },
{
    lemma_escaped_len(s);
    if !plain_ok(s) {
        assert(json_quoted(s).len() > s.len());
    }
}

/// The one-line rendering of a scalar or an empty container, if the value is one.
pub open spec fn inline_text(v: JsonV) -> Option<Seq<char>> {
    match v {
        JsonV::Null => Some("null"@),
        JsonV::Bool(b) => Some(if b { "true"@ } else { "false"@ }),
        JsonV::Number(n) => Some(n),
        JsonV::Str(s) => Some(text_of(s)),
        JsonV::Array(a) => if a.len() == 0 {
            Some("[]"@)
        } else {
            None
        },
        JsonV::Object(m) => if m.len() == 0 {
            Some("{}"@)
        } else {
            None
        },
    }
}

/// Lines indented by two spaces.
pub open spec fn indented(lines: Seq<Seq<char>>) -> Seq<Seq<char>> {
    lines.map_values(|l: Seq<char>| "  "@ + l)
}

/// The lines of a value.
pub open spec fn block(v: JsonV) -> Seq<Seq<char>>
    decreases v, 1int,
{
    match v {
        JsonV::Array(a) => if a.len() == 0 {
            seq!["[]"@]
        } else {
            items_lines(a)
        },
        JsonV::Object(m) => if m.len() == 0 {
            seq!["{}"@]
        } else {
            members_lines(m)
        },
        _ => seq![inline_text(v)->0],
    }
}

/// The lines of the members of an object: `key: value` for an inline value,
/// otherwise `key:` followed by the value's lines, indented.
pub open spec fn members_lines(m: Seq<(Seq<char>, JsonV)>) -> Seq<Seq<char>>
    decreases m, 0int,
{
    if m.len() == 0 {
        Seq::empty()
    } else {
        let (k, x) = m[m.len() - 1];
        let last = match inline_text(x) {
            Some(t) => seq![text_of(k) + ": "@ + t],
            None => seq![text_of(k) + ":"@] + indented(block(x)),
        };
        members_lines(m.subrange(0, m.len() - 1)) + last
    }
}

/// The lines of the items of an array: `- ` before the item's first line,
/// and its other lines indented.
pub open spec fn items_lines(a: Seq<JsonV>) -> Seq<Seq<char>>
    decreases a, 0int,
{
    if a.len() == 0 {
        Seq::empty()
    } else {
        let x = a[a.len() - 1];
        let b = block(x);
        let last = seq!["- "@ + b[0]] + indented(b.subrange(1, b.len() as int));
        items_lines(a.subrange(0, a.len() - 1)) + last
    }
}

/// Lines joined, each followed by a line feed.
pub open spec fn joined(lines: Seq<Seq<char>>) -> Seq<char>
    decreases lines.len(),
{
    if lines.len() == 0 {
        Seq::empty()
    } else {
        joined(lines.subrange(0, lines.len() - 1)) + lines[lines.len() - 1] + seq!['\n']
    }
}

/// The YAML text of a value.
pub open spec fn yaml_spec(v: JsonV) -> Seq<char> {
    joined(block(v))
}

/// A value's block is never empty.
pub proof fn lemma_block_not_empty(v: JsonV)
    ensures
        block(v).len() > 0,
    decreases v,
{
    match v {
        JsonV::Array(a) => if a.len() > 0 {
            lemma_items_lines_grow(a);
        },
        JsonV::Object(m) => if m.len() > 0 {
            lemma_members_lines_grow(m);
        },
        _ => {},
    }
}

proof fn lemma_items_lines_grow(a: Seq<JsonV>)
    requires
        a.len() > 0,
    ensures
        items_lines(a).len() > 0,
{
}

proof fn lemma_members_lines_grow(m: Seq<(Seq<char>, JsonV)>)
    requires
        m.len() > 0,
    ensures
        members_lines(m).len() > 0,
{
}

/// The views of strings.
pub open spec fn lines_view(v: Seq<String>) -> Seq<Seq<char>> {
    v.map_values(|s: String| s@)
}

fn concat2(a: &str, b: &str) -> (r: String)
    ensures
        r@ == a@ + b@,
{
    let mut s = String::from_str(a);
    s.append(b);
    s
}

/// Appends the lines of `src` to `dst`, each after `prefix`.
fn append_prefixed(dst: &mut Vec<String>, src: &Vec<String>, from: usize, prefix: &str)
    requires
        from <= src@.len(),
    ensures
        lines_view(final(dst)@) == lines_view(old(dst)@) + lines_view(src@).subrange(
            from as int,
            src@.len() as int,
        ).map_values(|l: Seq<char>| prefix@ + l),
{
    let ghost start = lines_view(dst@);
    let mut i = from;
    while i < src.len()
        invariant
            from <= i <= src@.len(),
            lines_view(dst@) == start + lines_view(src@).subrange(from as int, i as int).map_values(
                |l: Seq<char>| prefix@ + l,
            ),
        decreases src.len() - i,
    {
        let line = concat2(prefix, src[i].as_str());
        let ghost before = lines_view(dst@);
        assert(lines_view(src@)[i as int] == src@[i as int]@);
        dst.push(line);
        i = i + 1;
        proof {
            assert(lines_view(dst@) =~= before.push(line@));
            assert(lines_view(src@).subrange(from as int, i as int) =~= lines_view(src@).subrange(from as int, i - 1).push(src@[i - 1]@));
            assert(lines_view(dst@) =~= start + lines_view(src@).subrange(
                from as int,
                i as int,
            ).map_values(|l: Seq<char>| prefix@ + l));
        }
    }
}

/// Whether a string is one of the reserved words.
fn is_reserved(s: &str) -> (r: bool)
    ensures
        r == reserved_words().contains(s@),
{
    let words = vec![
        "null", "Null", "NULL", "true", "True", "TRUE", "false", "False", "FALSE", "yes", "Yes",
        "YES", "no", "No", "NO", "on", "On", "ON", "off", "Off", "OFF", "y", "Y", "n", "N",
    ];
    assert(words@.map_values(|w: &str| w@) =~= reserved_words());
    let mut i: usize = 0;
    while i < words.len()
        invariant
            i <= words@.len(),
            words@.map_values(|w: &str| w@) == reserved_words(),
            forall|k: int| 0 <= k < i ==> reserved_words()[k] != s@,
        decreases words.len() - i,
    {
        if crate::text::str_eq(words[i], s) {
            assert(reserved_words()[i as int] == s@);
            return true;
        }
        i = i + 1;
    }
    false
}

fn is_safe_char(c: char) -> (r: bool)
    ensures
        r == safe_char(c),
{
    let u = c as u32;
    (0x30 <= u && u <= 0x39) || (0x41 <= u && u <= 0x5A) || (0x61 <= u && u <= 0x7A) || c == ' '
        || c == '-' || c == '_' || c == '.' || c == '/' || c == '(' || c == ')' || c == '@' || c
        == '+' || c == '&' || c == '\'' || (u >= 0xA0 && !is_whitespace(c))
}

fn is_safe_first(c: char) -> (r: bool)
    ensures
        r == safe_first(c),
{
    let u = c as u32;
    (0x41 <= u && u <= 0x5A) || (0x61 <= u && u <= 0x7A) || c == '/' || (u >= 0xA0
        && !is_whitespace(c))
}

/// See [`plain_ok`].
fn is_plain(s: &str) -> (r: bool)
    ensures
        r == plain_ok(s@),
{
    let n = s.unicode_len();
    if n == 0 || !is_safe_first(s.get_char(0)) || s.get_char(n - 1) == ' ' {
        return false;
    }
    let mut i: usize = 0;
    while i < n
        invariant
            n == s@.len(),
            i <= n,
            forall|k: int| 0 <= k < i ==> safe_char(#[trigger] s@[k]),
        decreases n - i,
    {
        if !is_safe_char(s.get_char(i)) {
            return false;
        }
        i = i + 1;
    }
    !is_reserved(s)
}

/// See [`text_of`].
fn text(s: &str) -> (r: String)
    ensures
        r@ == text_of(s@),
{
    if is_plain(s) {
        String::from_str(s)
    } else {
        quote(s)
    }
}

/// See [`inline_text`].
fn inline(v: &Json) -> (r: Option<String>)
    ensures
        match r {
            Some(t) => inline_text(v@) == Some(t@),
            None => inline_text(v@) is None,
        },
{
    match v {
        Json::Null => Some(String::from_str("null")),
        Json::Bool(b) => Some(String::from_str(if *b { "true" } else { "false" })),
        Json::Number(n) => Some(String::from_str(n.text())),
        Json::Str(s) => Some(text(s.as_str())),
        Json::Array(a) => {
            proof {
                lemma_items_view(a@);
            }
            if a.len() == 0 {
                Some(String::from_str("[]"))
            } else {
                None
            }
        },
        Json::Object(m) => {
            proof {
                lemma_members_view(m@);
            }
            if m.len() == 0 {
                Some(String::from_str("{}"))
            } else {
                None
            }
        },
    }
}

/// The lines of a value (see [`block`]).
fn lines(v: &Json) -> (r: Vec<String>)
    ensures
        lines_view(r@) == block(v@),
    decreases *v,
{
    match inline(v) {
        Some(t) => {
            let mut r: Vec<String> = Vec::new();
            r.push(t);
            proof {
                assert(lines_view(r@) =~= block(v@));
            }
            return r;
        },
        None => {},
    }
    let mut out: Vec<String> = Vec::new();
    match v {
        Json::Object(m) => {
            let ghost mv = members_view(m@);
            proof {
                lemma_members_view(m@);
                assert(lines_view(out@) =~= members_lines(mv.subrange(0, 0)));
            }
            let mut i: usize = 0;
            while i < m.len()
                invariant
                    i <= m@.len(),
                    mv == members_view(m@),
                    mv.len() == m@.len(),
                    forall|j: int| 0 <= j < m@.len() ==> #[trigger] mv[j] == (m@[j].0@, m@[j].1@),
                    lines_view(out@) == members_lines(mv.subrange(0, i as int)),
                    *v == Json::Object(*m),
                decreases m.len() - i,
            {
                let ghost before = lines_view(out@);
                let key = text(m[i].0.as_str());
                let x = &m[i].1;
                assert(mv.subrange(0, i + 1).subrange(0, i as int) =~= mv.subrange(0, i as int));
                assert(mv.subrange(0, i + 1)[i as int] == mv[i as int]);
                match inline(x) {
                    Some(t) => {
                        let mut line = concat2(key.as_str(), ": ");
                        line.append(t.as_str());
                        out.push(line);
                        proof {
                            assert(lines_view(out@) =~= before + seq![text_of(mv[i as int].0) + ": "@ + t@]);
                        }
                    },
                    None => {
                        assert(decreases_to!(*v => m@[i as int].1)) by {
                            assert(decreases_to!(*v => (*v)->Object_0));
                            assert(decreases_to!(*m => m@));
                            assert(decreases_to!(m@ => m@[i as int]));
                        }
                        let inner = lines(x);
                        out.push(concat2(key.as_str(), ":"));
                        let ghost mid = lines_view(out@);
                        append_prefixed(&mut out, &inner, 0, "  ");
                        proof {
                            assert(lines_view(inner@).subrange(0, inner@.len() as int) =~= lines_view(inner@));
                            assert(lines_view(out@) =~= before + (seq![text_of(mv[i as int].0) + ":"@] + indented(block(mv[i as int].1))));
                        }
                    },
                }
                i = i + 1;
            }
            proof {
                assert(mv.subrange(0, mv.len() as int) =~= mv);
            }
        },
        Json::Array(a) => {
            let ghost av = items_view(a@);
            proof {
                lemma_items_view(a@);
                assert(lines_view(out@) =~= items_lines(av.subrange(0, 0)));
            }
            let mut i: usize = 0;
            while i < a.len()
                invariant
                    i <= a@.len(),
                    av == items_view(a@),
                    av.len() == a@.len(),
                    forall|j: int| 0 <= j < a@.len() ==> #[trigger] av[j] == a@[j]@,
                    lines_view(out@) == items_lines(av.subrange(0, i as int)),
                    *v == Json::Array(*a),
                decreases a.len() - i,
            {
                let ghost before = lines_view(out@);
                assert(av.subrange(0, i + 1).subrange(0, i as int) =~= av.subrange(0, i as int));
                assert(av.subrange(0, i + 1)[i as int] == av[i as int]);
                assert(decreases_to!(*v => a@[i as int])) by {
                    assert(decreases_to!(*v => (*v)->Array_0));
                    assert(decreases_to!(*a => a@));
                }
                let inner = lines(&a[i]);
                proof {
                    lemma_block_not_empty(av[i as int]);
                }
                out.push(concat2("- ", inner[0].as_str()));
                append_prefixed(&mut out, &inner, 1, "  ");
                proof {
                    let b = block(av[i as int]);
                    assert(lines_view(inner@)[0] == inner@[0]@);
                    assert(lines_view(out@) =~= before + (seq!["- "@ + b[0]] + indented(b.subrange(1, b.len() as int))));
                }
                i = i + 1;
            }
            proof {
                assert(av.subrange(0, av.len() as int) =~= av);
            }
        },
        _ => {},
    }
    out
}

/// The YAML rendering of a value: its lines (see [`block`]), each ended by
/// a line feed.
pub fn yaml(v: &Json) -> (r: String)
    ensures
        r@ == yaml_spec(v@),
{
    let ls = lines(v);
    let mut out = String::new();
    let mut i: usize = 0;
    assert(lines_view(ls@).subrange(0, 0) =~= Seq::<Seq<char>>::empty());
    while i < ls.len()
        invariant
            i <= ls@.len(),
            out@ == joined(lines_view(ls@).subrange(0, i as int)),
        decreases ls.len() - i,
    {
        out.append(ls[i].as_str());
        crate::text::push_char(&mut out, '\n');
        i = i + 1;
        proof {
            let s = lines_view(ls@).subrange(0, i as int);
            assert(s.subrange(0, s.len() - 1) =~= lines_view(ls@).subrange(0, i - 1));
        }
    }
    assert(lines_view(ls@).subrange(0, ls@.len() as int) =~= lines_view(ls@));
    out
}

/// A result as it is printed: pretty JSON followed by a line feed when
/// `json` is asked for, YAML otherwise.
pub fn render(v: &Json, json: bool) -> (r: String)
    ensures
        r@ == (if json {
            json_pretty(v@) + seq!['\n']
        } else {
            yaml_spec(v@)
        }),
{
    if json {
        let mut s = to_json_pretty(v);
        crate::text::push_char(&mut s, '\n');
        s
    } else {
        yaml(v)
    }
}

} // verus!
