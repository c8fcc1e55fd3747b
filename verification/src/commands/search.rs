//! `producthunt search <QUERY>`: the input the scraper actor gets.

use vstd::prelude::*;
use crate::account::given;
use crate::cli::SearchArgs;
use crate::commands::{ApiCall, CallKind, CallKindV};
use crate::json::{Json, JsonV, get_spec, member, members_view, object, push_member};
use crate::text::{decimal, is_blank, is_blank_str};

verus! {

/// The search input: `searchQuery`, `maxResults`, `sortBy`, and `timeFrame`
/// only when a time frame is given and not blank.
pub open spec fn input_spec(args: SearchArgs) -> JsonV {
    let base = seq![
        ("searchQuery"@, JsonV::Str(args.query@)),
        ("maxResults"@, JsonV::Number(decimal(args.max as nat))),
        ("sortBy"@, JsonV::Str(args.sort@)),
    ];
    JsonV::Object(
        match args.time_frame {
            Some(tf) => if given(Some(tf@)) {
                base.push(("timeFrame"@, JsonV::Str(tf@)))
            } else {
                base
            },
            None => base,
        },
    )
}

/// The search input holds exactly the arguments, whatever they are: the
/// query as `searchQuery`, `--max` as `maxResults` in decimal, `--sort` as
/// `sortBy`, and `timeFrame` exactly when a time frame is given that is not
/// blank; it holds no other member.
pub proof fn lemma_search_input_members(args: SearchArgs)
    ensures
        input_spec(args) is Object,
        get_spec(input_spec(args), "searchQuery"@) == Some(JsonV::Str(args.query@)),
        get_spec(input_spec(args), "maxResults"@) == Some(JsonV::Number(decimal(args.max as nat))),
        get_spec(input_spec(args), "sortBy"@) == Some(JsonV::Str(args.sort@)),
        get_spec(input_spec(args), "timeFrame"@) == (match args.time_frame {
            Some(tf) => if is_blank(tf@) {
                None
            } else {
                Some(JsonV::Str(tf@))
            },
            None => None,
        }),
        input_spec(args)->Object_0.len() == (if args.time_frame matches Some(tf) && !is_blank(tf@) {
            4int
        } else {
            3int
        }),
{
    reveal_strlit("searchQuery");
    reveal_strlit("maxResults");
    reveal_strlit("sortBy");
    reveal_strlit("timeFrame");
    reveal_with_fuel(member, 5);
    let m = input_spec(args)->Object_0;
    assert(m[0].0 == "searchQuery"@);
    assert(m[1].0 == "maxResults"@);
    assert(m[2].0 == "sortBy"@);
    assert(m.subrange(1, m.len() as int).subrange(1, m.len() - 1) =~= m.subrange(2, m.len() as int));
}

/// Builds the search call: the scraper input from the arguments, run as the
/// account the arguments select.
pub fn run(args: SearchArgs) -> (r: ApiCall)
    ensures
        r.account == args.account,
        r.api_key == args.api_key,
        r@.kind == CallKindV::Search(input_spec(args)),
{
    let ghost spec_input = input_spec(args);
    let ghost base = seq![
        ("searchQuery"@, JsonV::Str(args.query@)),
        ("maxResults"@, JsonV::Number(decimal(args.max as nat))),
        ("sortBy"@, JsonV::Str(args.sort@)),
    ];
    let SearchArgs { query, max, sort, time_frame, account, api_key } = args;
    let mut m: Vec<(String, Json)> = Vec::new();
    proof {
        assert(members_view(m@) =~= Seq::empty());
    }
    push_member(&mut m, "searchQuery", Json::Str(query));
    push_member(&mut m, "maxResults", Json::number(max as u64));
    push_member(&mut m, "sortBy", Json::Str(sort));
    assert(members_view(m@) =~= base);
    match time_frame {
        Some(tf) => {
            if !is_blank_str(tf.as_str()) {
                let ghost tv = tf@;
                push_member(&mut m, "timeFrame", Json::Str(tf));
                assert(members_view(m@) =~= base.push(("timeFrame"@, JsonV::Str(tv))));
            }
        },
        None => {},
    }
    let input = object(m);
    assert(input@ == spec_input);
    ApiCall { account, api_key, kind: CallKind::Search(input) }
}

} // verus!
