//! Character-level helpers: Unicode whitespace, trimming, blank checks and
//! decimal rendering of integers.

use vstd::prelude::*;

verus! {

/// The Unicode `White_Space` property, as `char::is_whitespace` tests it.
pub open spec fn is_ws(c: char) -> bool {
    let u = c as u32;
    ||| 0x09 <= u <= 0x0D
    ||| u == 0x20
    ||| u == 0x85
    ||| u == 0xA0
    ||| u == 0x1680
    ||| 0x2000 <= u <= 0x200A
    ||| u == 0x2028
    ||| u == 0x2029
    ||| u == 0x202F
    ||| u == 0x205F
    ||| u == 0x3000
}

/// Every character of `s` is whitespace (an empty sequence is blank).
pub open spec fn is_blank(s: Seq<char>) -> bool {
    forall|i: int| 0 <= i < s.len() ==> is_ws(#[trigger] s[i])
}

/// `s` without its leading whitespace.
pub open spec fn trim_start(s: Seq<char>) -> Seq<char>
    decreases s.len(),
{
    if s.len() > 0 && is_ws(s[0]) {
        trim_start(s.subrange(1, s.len() as int))
    } else {
        s
    }
}

/// `s` without its trailing whitespace.
pub open spec fn trim_end(s: Seq<char>) -> Seq<char>
    decreases s.len(),
{
    if s.len() > 0 && is_ws(s[s.len() - 1]) {
        trim_end(s.subrange(0, s.len() - 1))
    } else {
        s
    }
}

/// `s` without leading and trailing whitespace, as `str::trim` gives it.
pub open spec fn trim(s: Seq<char>) -> Seq<char> {
    trim_end(trim_start(s))
}

/// The byte is ASCII whitespace, as `u8::is_ascii_whitespace` tests it:
/// space, tab, line feed, form feed or carriage return.
pub open spec fn is_ascii_ws(b: u8) -> bool {
    b == 0x20 || b == 0x09 || b == 0x0A || b == 0x0C || b == 0x0D
}

/// The decimal digit character for `d < 10`.
pub open spec fn digit(d: nat) -> char {
    if d == 0 { '0' }
    else if d == 1 { '1' }
    else if d == 2 { '2' }
    else if d == 3 { '3' }
    else if d == 4 { '4' }
    else if d == 5 { '5' }
    else if d == 6 { '6' }
    else if d == 7 { '7' }
    else if d == 8 { '8' }
    else { '9' }
}

/// The decimal representation of `n`, without sign or leading zeros.
pub open spec fn decimal(n: nat) -> Seq<char>
    decreases n,
{
    if n < 10 {
        seq![digit(n)]
    } else {
        decimal(n / 10).push(digit(n % 10))
    }
}

/// Whitespace test for one character, as `char::is_whitespace`.
pub fn is_whitespace(c: char) -> (r: bool)
    ensures
        r == is_ws(c),
{
    let u = c as u32;
    (0x09 <= u && u <= 0x0D) || u == 0x20 || u == 0x85 || u == 0xA0 || u == 0x1680 || (0x2000 <= u
        && u <= 0x200A) || u == 0x2028 || u == 0x2029 || u == 0x202F || u == 0x205F || u == 0x3000
}

/// ASCII whitespace test for one byte, as `u8::is_ascii_whitespace`.
pub fn is_ascii_whitespace(b: u8) -> (r: bool)
    ensures
        r == is_ascii_ws(b),
{
    b == 0x20 || b == 0x09 || b == 0x0A || b == 0x0C || b == 0x0D
}

/// Appends one character to a string (`String::push`).
#[verifier::external_body]
pub(crate) fn push_char(s: &mut String, c: char)
    ensures
        final(s)@ == old(s)@.push(c),
{
    s.push(c);
}

/// Dropping leading whitespace one character at a time does not change the result.
proof fn lemma_trim_start_skip(s: Seq<char>, i: int)
    requires
        0 <= i <= s.len(),
        forall|k: int| 0 <= k < i ==> is_ws(#[trigger] s[k]),
    ensures
        trim_start(s) == trim_start(s.subrange(i, s.len() as int)),
    decreases i,
{
    if i > 0 {
        let t = s.subrange(1, s.len() as int);
        assert forall|k: int| 0 <= k < i - 1 implies is_ws(#[trigger] t[k]) by {
            assert(t[k] == s[k + 1]);
        }
        lemma_trim_start_skip(t, i - 1);
        assert(t.subrange(i - 1, t.len() as int) =~= s.subrange(i, s.len() as int));
    } else {
        assert(s.subrange(0, s.len() as int) =~= s);
    }
}

/// Dropping trailing whitespace one character at a time does not change the result.
proof fn lemma_trim_end_skip(s: Seq<char>, j: int)
    requires
        0 <= j <= s.len(),
        forall|k: int| j <= k < s.len() ==> is_ws(#[trigger] s[k]),
    ensures
        trim_end(s) == trim_end(s.subrange(0, j)),
    decreases s.len() - j,
{
    if j < s.len() {
        let t = s.subrange(0, s.len() - 1);
        assert forall|k: int| j <= k < t.len() implies is_ws(#[trigger] t[k]) by {
            assert(t[k] == s[k]);
        }
        lemma_trim_end_skip(t, j);
        assert(t.subrange(0, j) =~= s.subrange(0, j));
    } else {
        assert(s.subrange(0, j) =~= s);
    }
}

/// A sequence with some non-whitespace character trims to one that starts
/// with a non-whitespace character.
proof fn lemma_trim_start_first(s: Seq<char>)
    requires
        !is_blank(s),
    ensures
        trim_start(s).len() > 0,
        !is_ws(trim_start(s)[0]),
    decreases s.len(),
{
    if is_ws(s[0]) {
        let t = s.subrange(1, s.len() as int);
        assert(!is_blank(t)) by {
            let i = choose|i: int| 0 <= i < s.len() && !is_ws(#[trigger] s[i]);
            assert(i > 0);
            assert(t[i - 1] == s[i]);
        }
        lemma_trim_start_first(t);
    }
}

/// Trimming a sequence that is not blank leaves a sequence that is not blank.
pub proof fn lemma_trim_not_blank(s: Seq<char>)
    requires
        !is_blank(s),
    ensures
        trim(s).len() > 0,
        !is_blank(trim(s)),
{
    lemma_trim_start_first(s);
    lemma_trim_end_keeps_first(trim_start(s));
}

/// Trimming the end of a sequence that starts with a non-whitespace character keeps it non-empty.
proof fn lemma_trim_end_keeps_first(s: Seq<char>)
    requires
        s.len() > 0,
        !is_ws(s[0]),
    ensures
        trim_end(s).len() > 0,
        trim_end(s)[0] == s[0],
    decreases s.len(),
{
    if is_ws(s[s.len() - 1]) {
        let t = s.subrange(0, s.len() - 1);
        assert(t.len() > 0);
        assert(t[0] == s[0]);
        lemma_trim_end_keeps_first(t);
    }
}

/// `str::trim`: the string without leading and trailing Unicode whitespace.
pub fn trimmed(s: &str) -> (r: String)
    ensures
        r@ == trim(s@),
{
    let n = s.unicode_len();
    let mut i: usize = 0;
    while i < n && is_whitespace(s.get_char(i))
        invariant
            n == s@.len(),
            i <= n,
            forall|k: int| 0 <= k < i ==> is_ws(#[trigger] s@[k]),
        decreases n - i,
    {
        i = i + 1;
    }
    proof {
        lemma_trim_start_skip(s@, i as int);
    }
    let ghost rest = s@.subrange(i as int, n as int);
    assert(trim_start(s@) == rest) by {
        if rest.len() > 0 {
            assert(rest[0] == s@[i as int]);
        }
    }
    let mut j: usize = n;
    while j > i && is_whitespace(s.get_char(j - 1))
        invariant
            n == s@.len(),
            i <= j <= n,
            forall|k: int| j <= k < n ==> is_ws(#[trigger] s@[k]),
        decreases j,
    {
        j = j - 1;
    }
    let ghost mid = s@.subrange(i as int, j as int);
    proof {
        assert forall|k: int| j - i <= k < rest.len() implies is_ws(#[trigger] rest[k]) by {
            assert(rest[k] == s@[i + k]);
        }
        lemma_trim_end_skip(rest, j - i);
        assert(rest.subrange(0, j - i) =~= mid);
        if mid.len() > 0 {
            assert(mid[mid.len() - 1] == s@[j - 1]);
        }
    }
    let sub = s.substring_char(i, j);
    String::from_str(sub)
}

/// The string is empty or made of whitespace only (`s.trim().is_empty()`).
pub fn is_blank_str(s: &str) -> (r: bool)
    ensures
        r == is_blank(s@),
{
    let n = s.unicode_len();
    let mut i: usize = 0;
    while i < n
        invariant
            n == s@.len(),
            i <= n,
            forall|k: int| 0 <= k < i ==> is_ws(#[trigger] s@[k]),
        decreases n - i,
    {
        if !is_whitespace(s.get_char(i)) {
            return false;
        }
        i = i + 1;
    }
    true
}

/// The one-character string of the decimal digit `d`.
fn digit_char(d: u64) -> (c: char)
    requires
        d < 10,
    ensures
        c == digit(d as nat),
{
    if d == 0 { '0' }
    else if d == 1 { '1' }
    else if d == 2 { '2' }
    else if d == 3 { '3' }
    else if d == 4 { '4' }
    else if d == 5 { '5' }
    else if d == 6 { '6' }
    else if d == 7 { '7' }
    else if d == 8 { '8' }
    else { '9' }
}

/// The decimal representation of `n`, as `n.to_string()` renders it.
pub fn decimal_string(n: u64) -> (r: String)
    ensures
        r@ == decimal(n as nat),
    decreases n,
{
    if n < 10 {
        let mut s = String::new();
        push_char(&mut s, digit_char(n));
        assert(s@ =~= seq![digit(n as nat)]);
        s
    } else {
        let mut s = decimal_string(n / 10);
        push_char(&mut s, digit_char(n % 10));
        s
    }
}


/// Lexicographic order of character sequences by code point: the order in
/// which Rust compares and sorts `String`s.
pub open spec fn lex_lt(a: Seq<char>, b: Seq<char>) -> bool
    decreases a.len(),
{
    if a.len() == 0 {
        b.len() > 0
    } else if b.len() == 0 {
        false
    } else if a[0] != b[0] {
        (a[0] as int) < (b[0] as int)
    } else {
        lex_lt(a.subrange(1, a.len() as int), b.subrange(1, b.len() as int))
    }
}

/// No sequence precedes itself.
pub proof fn lemma_lex_irreflexive(a: Seq<char>)
    ensures
        !lex_lt(a, a),
    decreases a.len(),
{
    if a.len() > 0 {
        lemma_lex_irreflexive(a.subrange(1, a.len() as int));
    }
}

/// The order is transitive.
pub proof fn lemma_lex_transitive(a: Seq<char>, b: Seq<char>, c: Seq<char>)
    requires
        lex_lt(a, b),
        lex_lt(b, c),
    ensures
        lex_lt(a, c),
    decreases a.len(),
{
    if a.len() > 0 && b.len() > 0 && c.len() > 0 && a[0] == b[0] && b[0] == c[0] {
        lemma_lex_transitive(
            a.subrange(1, a.len() as int),
            b.subrange(1, b.len() as int),
            c.subrange(1, c.len() as int),
        );
    }
}

/// Two different sequences are ordered one way or the other, never both.
pub proof fn lemma_lex_total(a: Seq<char>, b: Seq<char>)
    ensures
        a != b ==> (lex_lt(a, b) || lex_lt(b, a)),
        !(lex_lt(a, b) && lex_lt(b, a)),
    decreases a.len(),
{
    if a.len() > 0 && b.len() > 0 {
        let (ta, tb) = (a.subrange(1, a.len() as int), b.subrange(1, b.len() as int));
        lemma_lex_total(ta, tb);
        if a[0] == b[0] && a != b {
            assert(ta != tb) by {
                if ta == tb {
                    assert(a =~= seq![a[0]] + ta);
                    assert(b =~= seq![b[0]] + tb);
                }
            }
        }
        if a[0] != b[0] {
            assert((a[0] as int) != (b[0] as int));
        }
    } else if a.len() == 0 && b.len() == 0 {
        assert(a =~= b);
    }
}

/// Comparing from a common prefix on is comparing the whole.
proof fn lemma_lex_skip(a: Seq<char>, b: Seq<char>, i: int)
    requires
        0 <= i <= a.len(),
        i <= b.len(),
        forall|k: int| 0 <= k < i ==> a[k] == b[k],
    ensures
        lex_lt(a, b) == lex_lt(a.subrange(i, a.len() as int), b.subrange(i, b.len() as int)),
    decreases i,
{
    if i > 0 {
        let (ta, tb) = (a.subrange(1, a.len() as int), b.subrange(1, b.len() as int));
        assert forall|k: int| 0 <= k < i - 1 implies ta[k] == tb[k] by {
            assert(ta[k] == a[k + 1]);
            assert(tb[k] == b[k + 1]);
        }
        lemma_lex_skip(ta, tb, i - 1);
        assert(ta.subrange(i - 1, ta.len() as int) =~= a.subrange(i, a.len() as int));
        assert(tb.subrange(i - 1, tb.len() as int) =~= b.subrange(i, b.len() as int));
    } else {
        assert(a.subrange(0, a.len() as int) =~= a);
        assert(b.subrange(0, b.len() as int) =~= b);
    }
}

/// `a < b` in the order of Rust strings (see [`lex_lt`]).
pub fn str_lt(a: &str, b: &str) -> (r: bool)
    ensures
        r == lex_lt(a@, b@),
{
    let n = a.unicode_len();
    let m = b.unicode_len();
    let mut i: usize = 0;
    while i < n && i < m
        invariant
            n == a@.len(),
            m == b@.len(),
            i <= n,
            i <= m,
            forall|k: int| 0 <= k < i ==> a@[k] == b@[k],
        decreases n - i,
    {
        let (x, y) = (a.get_char(i), b.get_char(i));
        if x != y {
            proof {
                lemma_lex_skip(a@, b@, i as int);
                let (sa, sb) = (a@.subrange(i as int, n as int), b@.subrange(i as int, m as int));
                assert(sa[0] == x && sb[0] == y);
            }
            return (x as u32) < (y as u32);
        }
        i = i + 1;
    }
    proof {
        lemma_lex_skip(a@, b@, i as int);
    }
    i == n && i < m
}

/// Equality of string slices.
pub fn str_eq(a: &str, b: &str) -> (r: bool)
    ensures
        r == (a@ == b@),
{
    proof {
        lemma_lex_total(a@, b@);
        lemma_lex_irreflexive(a@);
    }
    !str_lt(a, b) && !str_lt(b, a)
}

} // verus!
