//! `producthunt scrape <URL>`: the input the scraper actor gets.

use vstd::prelude::*;
use crate::cli::ScrapeArgs;
use crate::commands::{ApiCall, CallKind, CallKindV};
use crate::json::{Json, JsonV, get_spec, member, members_view, object, push_member};
use crate::text::decimal;

verus! {

/// The scrape input: `dateUrl` and `maxResults`.
pub open spec fn input_spec(args: ScrapeArgs) -> JsonV {
    JsonV::Object(
        seq![
            ("dateUrl"@, JsonV::Str(args.url@)),
            ("maxResults"@, JsonV::Number(decimal(args.max as nat))),
        ],
    )
}

/// The scrape input holds exactly the arguments, whatever they are: the URL
/// as `dateUrl` and `--max` as `maxResults` in decimal, and nothing else.
pub proof fn lemma_scrape_input_members(args: ScrapeArgs)
    ensures
        input_spec(args) is Object,
        get_spec(input_spec(args), "dateUrl"@) == Some(JsonV::Str(args.url@)),
        get_spec(input_spec(args), "maxResults"@) == Some(JsonV::Number(decimal(args.max as nat))),
        input_spec(args)->Object_0.len() == 2,
{
    reveal_strlit("dateUrl");
    reveal_strlit("maxResults");
    reveal_with_fuel(member, 3);
    let m = input_spec(args)->Object_0;
    assert(m[0].0 == "dateUrl"@);
    assert(m.subrange(1, m.len() as int)[0] == m[1]);
}

/// Builds the scrape call: the scraper input from the arguments, run as the
/// account the arguments select.
pub fn run(args: ScrapeArgs) -> (r: ApiCall)
    ensures
        r.account == args.account,
        r.api_key == args.api_key,
        r@.kind == CallKindV::Scrape(input_spec(args)),
{
    let ghost spec_input = input_spec(args);
    let ScrapeArgs { url, max, account, api_key } = args;
    let mut m: Vec<(String, Json)> = Vec::new();
    proof {
        assert(members_view(m@) =~= Seq::empty());
    }
    push_member(&mut m, "dateUrl", Json::Str(url));
    push_member(&mut m, "maxResults", Json::number(max as u64));
    assert(members_view(m@) =~= seq![
            ("dateUrl"@, JsonV::Str(url@)),
            ("maxResults"@, JsonV::Number(decimal(max as nat))),
        ]);
    let input = object(m);
    ApiCall { account, api_key, kind: CallKind::Scrape(input) }
}

} // verus!
