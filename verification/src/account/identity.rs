//! Reads the identity behind a token from Apify's `/v2/users/me` answer,
//! which nests the user under `data` (older answers are flat).

use vstd::prelude::*;
use crate::json::{Json, JsonV, get_spec, get_str_spec};
use crate::text::{is_blank, is_blank_str};

verus! {

/// The first of the named members that holds a string that is not blank.
pub open spec fn first_string_spec(v: JsonV, names: Seq<Seq<char>>) -> Option<Seq<char>>
    decreases names.len(),
{
    if names.len() == 0 {
        None
    } else {
        let rest = first_string_spec(v, names.subrange(1, names.len() as int));
        match get_str_spec(v, names[0]) {
            Some(s) => if !is_blank(s) {
                Some(s)
            } else {
                rest
            },
            None => rest,
        }
    }
}

/// The members that may name the user, most telling first.
pub open spec fn identity_keys() -> Seq<Seq<char>> {
    seq!["username"@, "user_name"@, "email"@, "name"@, "id"@]
}

/// The members that may hold the user id.
pub open spec fn id_keys() -> Seq<Seq<char>> {
    seq!["id"@, "userId"@, "user_id"@]
}

/// The first usable string among `keys`, looked for in the `data` object
/// first and then at the top level; empty when there is none.
pub open spec fn pick(me: JsonV, keys: Seq<Seq<char>>) -> Seq<char> {
    let nested = match get_spec(me, "data"@) {
        Some(d) => if d is Object {
            first_string_spec(d, keys)
        } else {
            None
        },
        None => None,
    };
    match nested {
        Some(s) => s,
        None => match first_string_spec(me, keys) {
            Some(s) => s,
            None => Seq::empty(),
        },
    }
}

/// The views of string slices.
pub open spec fn strs_view(names: Seq<&str>) -> Seq<Seq<char>> {
    names.map_values(|n: &str| n@)
}

/// The first of `names` under which `v` holds a string that is not blank.
fn first_string(v: &Json, names: &[&str]) -> (r: Option<String>)
    ensures
        match r {
            Some(s) => first_string_spec(v@, strs_view(names@)) == Some(s@),
            None => first_string_spec(v@, strs_view(names@)) is None,
        },
{
    let ghost all = strs_view(names@);
    assert(all.subrange(0, all.len() as int) =~= all);
    let mut i: usize = 0;
    while i < names.len()
        invariant
            i <= names@.len(),
            all == strs_view(names@),
            first_string_spec(v@, all) == first_string_spec(
                v@,
                all.subrange(i as int, all.len() as int),
            ),
        decreases names.len() - i,
    {
        let ghost tail = all.subrange(i as int, all.len() as int);
        assert(tail[0] == names@[i as int]@);
        assert(tail.subrange(1, tail.len() as int) =~= all.subrange(i + 1, all.len() as int));
        let found = match v.get(names[i]) {
            Some(x) => x.as_str(),
            None => None,
        };
        match found {
            Some(s) => {
                if !is_blank_str(s) {
                    return Some(String::from_str(s));
                }
            },
            None => {},
        }
        i = i + 1;
    }
    assert(all.subrange(i as int, all.len() as int).len() == 0);
    None
}

/// The keys as string slices.
fn keys_of(which_identity: bool) -> (r: Vec<&'static str>)
    ensures
        strs_view(r@) == if which_identity { identity_keys() } else { id_keys() },
{
    let r = if which_identity {
        vec!["username", "user_name", "email", "name", "id"]
    } else {
        vec!["id", "userId", "user_id"]
    };
    assert(strs_view(r@) =~= if which_identity { identity_keys() } else { id_keys() });
    r
}

/// [`pick`] for the given keys.
fn pick_of(me: &Json, which_identity: bool) -> (r: String)
    ensures
        r@ == pick(me@, if which_identity { identity_keys() } else { id_keys() }),
{
    let keys = keys_of(which_identity);
    match me.get("data") {
        Some(d) => {
            if d.is_object() {
                match first_string(d, keys.as_slice()) {
                    Some(s) => {
                        return s;
                    },
                    None => {},
                }
            }
        },
        None => {},
    }
    match first_string(me, keys.as_slice()) {
        Some(s) => s,
        None => String::new(),
    }
}

/// Who the token belongs to: the first non-blank of `username`, `user_name`,
/// `email`, `name`, `id`, taken from the `data` object when it has one and
/// from the top level otherwise; empty when none is there.
pub fn describe(me: &Json) -> (r: String)
    ensures
        r@ == pick(me@, identity_keys()),
{
    pick_of(me, true)
}

/// The user id: the first non-blank of `id`, `userId`, `user_id`, taken from
/// the `data` object when it has one and from the top level otherwise.
pub fn user_id(me: &Json) -> (r: String)
    ensures
        r@ == pick(me@, id_keys()),
{
    pick_of(me, false)
}

} // verus!
