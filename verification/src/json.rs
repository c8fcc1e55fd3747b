//! A JSON document model: what the Apify API answers with, what the scraper
//! receives as input, and what the command prints.

use vstd::prelude::*;
use crate::text::decimal;


verus! {

/// `serde_json::Number`, carried inside a [`JsonNumber`] and never read by
/// verified code.
#[verifier::external_type_specification]
#[verifier::external_body]
pub struct ExSerdeNumber(serde_json::Number);

/// A JSON number: serde_json's number together with the text it displays as
/// (for instance `420` or `4.5`). Only this module makes one, from a parsed
/// document or from an unsigned integer, so the two always agree.
#[derive(Debug)]
pub struct JsonNumber {
    text: String,
    raw: serde_json::Number,
}

impl View for JsonNumber {
    type V = Seq<char>;

    closed spec fn view(&self) -> Seq<char> {
        self.text@
    }
}

impl JsonNumber {
    /// The JSON text of the number.
    pub fn text(&self) -> (r: &str)
        ensures
            r@ == self@,
    {
        self.text.as_str()
    }
}

/// The number for an unsigned integer, built with `serde_json::Number::from`;
/// its text is the one serde_json displays, which for an unsigned integer is
/// its decimal digits.
#[verifier::external_body]
fn number_of(n: u64) -> (r: JsonNumber)
    ensures
        r@ == decimal(n as nat),
{
    let raw = serde_json::Number::from(n);
    JsonNumber { text: raw.to_string(), raw }
}

/// A JSON value. A number is held with its JSON text, so that no floating
/// point is needed to read it. Object members keep the order in which they
/// were given; an object read by [`parse_str`] or [`parse_slice`] comes from
/// serde_json's map and so has its members sorted by name, each name once.
#[derive(Debug)]
pub enum Json {
    Null,
    Bool(bool),
    Number(JsonNumber),
    Str(String),
    Array(Vec<Json>),
    Object(Vec<(String, Json)>),
}

/// The mathematical content of a [`Json`] value.
pub enum JsonV {
    Null,
    Bool(bool),
    Number(Seq<char>),
    Str(Seq<char>),
    Array(Seq<JsonV>),
    Object(Seq<(Seq<char>, JsonV)>),
}

/// The views of a sequence of values.
pub open spec fn items_view(s: Seq<Json>) -> Seq<JsonV>
    decreases s, 1int,
{
    if s.len() == 0 {
        Seq::empty()
    } else {
        seq![s[0].view()] + items_view(s.subrange(1, s.len() as int))
    }
}

/// The views of a sequence of object members.
pub open spec fn members_view(s: Seq<(String, Json)>) -> Seq<(Seq<char>, JsonV)>
    decreases s, 1int,
{
    if s.len() == 0 {
        Seq::empty()
    } else {
        seq![(s[0].0@, s[0].1.view())] + members_view(s.subrange(1, s.len() as int))
    }
}

impl View for Json {
    type V = JsonV;

    open spec fn view(&self) -> JsonV
        decreases *self, 0int,
    {
        match *self {
            Json::Null => JsonV::Null,
            Json::Bool(b) => JsonV::Bool(b),
            Json::Number(n) => JsonV::Number(n@),
            Json::Str(s) => JsonV::Str(s@),
            Json::Array(v) => JsonV::Array(items_view(v@)),
            Json::Object(m) => JsonV::Object(members_view(m@)),
        }
    }
}


/// The value of the first member named `key`, if any.
pub open spec fn member(members: Seq<(Seq<char>, JsonV)>, key: Seq<char>) -> Option<JsonV>
    decreases members.len(),
{
    if members.len() == 0 {
        None
    } else if members[0].0 == key {
        Some(members[0].1)
    } else {
        member(members.subrange(1, members.len() as int), key)
    }
}

/// `value.get(key)`: the member named `key` when `value` is an object, otherwise nothing.
pub open spec fn get_spec(value: JsonV, key: Seq<char>) -> Option<JsonV> {
    match value {
        JsonV::Object(m) => member(m, key),
        _ => None,
    }
}

/// `value.as_str()`: the text of a string value.
pub open spec fn as_str_spec(value: JsonV) -> Option<Seq<char>> {
    match value {
        JsonV::Str(s) => Some(s),
        _ => None,
    }
}

/// `value.get(key).and_then(as_str)`.
pub open spec fn get_str_spec(value: JsonV, key: Seq<char>) -> Option<Seq<char>> {
    match get_spec(value, key) {
        Some(v) => as_str_spec(v),
        None => None,
    }
}

pub proof fn lemma_items_view(s: Seq<Json>)
    ensures
        items_view(s).len() == s.len(),
        forall|i: int| 0 <= i < s.len() ==> #[trigger] items_view(s)[i] == s[i].view(),
    decreases s.len(),
{
    if s.len() > 0 {
        let t = s.subrange(1, s.len() as int);
        lemma_items_view(t);
        assert(items_view(s) == seq![s[0].view()] + items_view(t));
        assert forall|i: int| 0 <= i < s.len() implies #[trigger] items_view(s)[i] == s[i].view() by {
            if i > 0 {
                assert(t[i - 1] == s[i]);
            }
        }
    }
}

/// Pushing a value extends the views by its view.
pub proof fn lemma_items_view_push(s: Seq<Json>, j: Json)
    ensures
        items_view(s.push(j)) == items_view(s).push(j@),
{
    lemma_items_view(s);
    lemma_items_view(s.push(j));
    assert(items_view(s.push(j)) =~= items_view(s).push(j@)) by {
        assert forall|i: int| 0 <= i < s.len() implies s.push(j)[i] == s[i] by {}
    }
}

pub proof fn lemma_members_view(s: Seq<(String, Json)>)
    ensures
        members_view(s).len() == s.len(),
        forall|i: int|
            0 <= i < s.len() ==> #[trigger] members_view(s)[i] == (s[i].0@, s[i].1.view()),
    decreases s.len(),
{
    if s.len() > 0 {
        let t = s.subrange(1, s.len() as int);
        lemma_members_view(t);
        assert(members_view(s) == seq![(s[0].0@, s[0].1.view())] + members_view(t));
        assert forall|i: int| 0 <= i < s.len() implies #[trigger] members_view(s)[i] == (
            s[i].0@,
            s[i].1.view(),
        ) by {
            if i > 0 {
                assert(t[i - 1] == s[i]);
            }
        }
    }
}

/// Looking up from position `i` gives the first match at or after `i`.
proof fn lemma_member_from(m: Seq<(Seq<char>, JsonV)>, key: Seq<char>, i: int)
    requires
        0 <= i <= m.len(),
        forall|k: int| 0 <= k < i ==> (#[trigger] m[k]).0 != key,
    ensures
        member(m, key) == member(m.subrange(i, m.len() as int), key),
    decreases i,
{
    if i > 0 {
        let t = m.subrange(1, m.len() as int);
        assert forall|k: int| 0 <= k < i - 1 implies (#[trigger] t[k]).0 != key by {
            assert(t[k] == m[k + 1]);
        }
        lemma_member_from(t, key, i - 1);
        assert(t.subrange(i - 1, t.len() as int) =~= m.subrange(i, m.len() as int));
    } else {
        assert(m.subrange(0, m.len() as int) =~= m);
    }
}

impl Json {
    /// `value.get(key)`: the member named `key` when this is an object.
    pub fn get(&self, key: &str) -> (r: Option<&Json>)
        ensures
            match r {
                Some(v) => get_spec(self@, key@) == Some(v@),
                None => get_spec(self@, key@) is None,
            },
    {
        match self {
            Json::Object(m) => {
                let k = String::from_str(key);
                let ghost mv = members_view(m@);
                proof {
                    lemma_members_view(m@);
                    assert(self@ == JsonV::Object(mv));
                }
                let mut i: usize = 0;
                while i < m.len()
                    invariant
                        i <= m.len(),
                        mv == members_view(m@),
                        mv.len() == m@.len(),
                        forall|j: int| 0 <= j < m@.len() ==> #[trigger] mv[j] == (m@[j].0@, m@[j].1@),
                        forall|j: int| 0 <= j < i ==> (#[trigger] mv[j]).0 != k@,
                        k@ == key@,
                        self@ == JsonV::Object(mv),
                    decreases m.len() - i,
                {
                    if m[i].0 == k {
                        proof {
                            lemma_member_from(mv, key@, i as int);
                            let sub = mv.subrange(i as int, mv.len() as int);
                            assert(sub[0] == mv[i as int]);
                            assert(member(sub, key@) == Some(sub[0].1));
                            assert(self@ == JsonV::Object(mv));
                        }
                        return Some(&m[i].1);
                    }
                    i = i + 1;
                }
                proof {
                    lemma_member_from(mv, key@, i as int);
                    assert(self@ == JsonV::Object(mv));
                }
                None
            },
            _ => None,
        }
    }

    /// `value.as_str()`: the text of a string value.
    pub fn as_str(&self) -> (r: Option<&str>)
        ensures
            match r {
                Some(s) => as_str_spec(self@) == Some(s@),
                None => as_str_spec(self@) is None,
            },
    {
        match self {
            Json::Str(s) => Some(s.as_str()),
            _ => None,
        }
    }

    /// `value.is_object()`.
    pub fn is_object(&self) -> (r: bool)
        ensures
            r == (self@ is Object),
    {
        match self {
            Json::Object(_) => true,
            _ => false,
        }
    }

    /// A string value holding `s`.
    pub fn string(s: &str) -> (r: Json)
        ensures
            r@ == JsonV::Str(s@),
    {
        Json::Str(String::from_str(s))
    }

    /// A number value for the unsigned integer `n`.
    pub fn number(n: u64) -> (r: Json)
        ensures
            r@ == JsonV::Number(decimal(n as nat)),
    {
        Json::Number(number_of(n))
    }

    /// An object with no members.
    pub fn empty_object() -> (r: Json)
        ensures
            r@ == JsonV::Object(Seq::empty()),
    {
        let v: Vec<(String, Json)> = Vec::new();
        let r = Json::Object(v);
        assert(members_view(Seq::<(String, Json)>::empty()) =~= Seq::empty());
        r
    }
}

/// Appends the member `key: value` to an object under construction.
pub fn push_member(members: &mut Vec<(String, Json)>, key: &str, value: Json)
    ensures
        members_view(final(members)@) == members_view(old(members)@).push((key@, value@)),
{
    proof {
        lemma_members_view(old(members)@);
    }
    members.push((String::from_str(key), value));
    proof {
        lemma_members_view(members@);
        assert(members_view(members@) =~= members_view(old(members)@).push((key@, value@)));
    }
}

/// Builds an object from its members.
pub fn object(members: Vec<(String, Json)>) -> (r: Json)
    ensures
        r@ == JsonV::Object(members_view(members@)),
{
    Json::Object(members)
}

/// What `serde_json::from_str::<serde_json::Value>` makes of a text: `None`
/// when the text is not one JSON document.
pub uninterp spec fn json_from_str(text: Seq<char>) -> Option<JsonV>;

/// What `serde_json::from_slice::<serde_json::Value>` makes of raw bytes:
/// `None` when they are not one UTF-8 JSON document.
pub uninterp spec fn json_from_slice(bytes: Seq<u8>) -> Option<JsonV>;

/// What `String::from_utf8_lossy` makes of raw bytes.
pub uninterp spec fn utf8_lossy(bytes: Seq<u8>) -> Seq<char>;

/// Parses a JSON text with `serde_json::from_str`. The contract claims only
/// that the result is a function of the text (named `json_from_str`); how
/// serde_json reads JSON is not stated. The serde_json value is carried over
/// member by member and numbers by their JSON text.
#[verifier::external_body]
pub fn parse_str(text: &str) -> (r: Option<Json>)
    ensures
        match r {
            Some(j) => json_from_str(text@) == Some(j@),
            None => json_from_str(text@) is None,
        },
{
    serde_json::from_str::<serde_json::Value>(text).ok().map(from_serde)
}

/// Parses raw bytes as JSON with `serde_json::from_slice`. The contract claims
/// only that the result is a function of the bytes (named `json_from_slice`).
#[verifier::external_body]
pub fn parse_slice(bytes: &[u8]) -> (r: Option<Json>)
    ensures
        match r {
            Some(j) => json_from_slice(bytes@) == Some(j@),
            None => json_from_slice(bytes@) is None,
        },
{
    serde_json::from_slice::<serde_json::Value>(bytes).ok().map(from_serde)
}

/// `serde_json::Value`, carried through [`from_serde`] and [`to_serde`] only.
#[verifier::external_type_specification]
#[verifier::external_body]
pub struct ExSerdeValue(serde_json::Value);

/// Carries a `serde_json::Value` over into a [`Json`], variant for variant;
/// a number is kept together with the text that `serde_json::Number`
/// displays. Only the two parsing wrappers above use it.
#[verifier::external_body]
fn from_serde(v: serde_json::Value) -> Json {
    match v {
        serde_json::Value::Null => Json::Null,
        serde_json::Value::Bool(b) => Json::Bool(b),
        serde_json::Value::Number(n) => Json::Number(JsonNumber { text: n.to_string(), raw: n }),
        serde_json::Value::String(s) => Json::Str(s),
        serde_json::Value::Array(a) => Json::Array(a.into_iter().map(from_serde).collect()),
        serde_json::Value::Object(m) => Json::Object(m.into_iter().map(|(k, x)| (k, from_serde(x))).collect()),
    }
}

/// Carries a [`Json`] over into a `serde_json::Value`, variant for variant;
/// a number goes back as the serde_json number it was made from, and an
/// object's members are inserted into serde_json's map in order. Only the two
/// writing wrappers below use it.
#[verifier::external_body]
fn to_serde(v: &Json) -> serde_json::Value {
    match v {
        Json::Null => serde_json::Value::Null,
        Json::Bool(b) => serde_json::Value::Bool(*b),
        Json::Number(n) => serde_json::Value::Number(n.raw.clone()),
        Json::Str(s) => serde_json::Value::String(s.clone()),
        Json::Array(a) => serde_json::Value::Array(a.iter().map(to_serde).collect()),
        Json::Object(m) => serde_json::Value::Object(m.iter().map(|(k, x)| (k.clone(), to_serde(x))).collect()),
    }
}

/// What `serde_json::to_string_pretty` makes of a value: pretty-printed JSON
/// with two-space indentation.
pub uninterp spec fn json_pretty(v: JsonV) -> Seq<char>;

/// What `serde_json::to_vec` makes of a value: compact JSON as UTF-8 bytes.
pub uninterp spec fn json_bytes(v: JsonV) -> Seq<u8>;

/// Writes a value as pretty-printed JSON with `serde_json::to_string_pretty`.
/// The contract names the result (`json_pretty`) as a function of the value;
/// the layout serde_json chooses is not stated. serde_json documents failure
/// only for maps whose keys are not strings, which a value never holds.
#[verifier::external_body]
pub fn to_json_pretty(v: &Json) -> (r: String)
    ensures
        r@ == json_pretty(v@),
{
    serde_json::to_string_pretty(&to_serde(v)).unwrap_or_default()
}

/// Writes a value as compact JSON bytes with `serde_json::to_vec`. The
/// contract names the result (`json_bytes`) as a function of the value.
#[verifier::external_body]
pub fn to_json_bytes(v: &Json) -> (r: Vec<u8>)
    ensures
        r@ == json_bytes(v@),
{
    serde_json::to_vec(&to_serde(v)).unwrap_or_default()
}

/// Decodes bytes as UTF-8 with `String::from_utf8_lossy`, replacing each
/// invalid sequence with U+FFFD. The contract states the documented fact that
/// valid UTF-8 decodes to its characters; for invalid input it names the
/// result (`utf8_lossy`) without stating where the replacements fall.
#[verifier::external_body]
pub fn lossy_utf8(bytes: &[u8]) -> (r: String)
    ensures
        r@ == utf8_lossy(bytes@),
        vstd::utf8::valid_utf8(bytes@) ==> r@ == vstd::utf8::decode_utf8(bytes@),
{
    String::from_utf8_lossy(bytes).into_owned()
}

} // verus!
