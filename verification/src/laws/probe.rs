//! What holds of the probe: what is said of each answer.

use vstd::prelude::*;

use crate::probe::{
    call_name, info_text, kind_name, outcome_texts, ListOutcome, Listing, Probe, ServerInfo,
};
use crate::text::{decimal, owned_texts};

verus! {

/// A probe of either way begins with the tools and goes on with the resources;
/// only that through the gateway ends with the prompts.
pub proof fn law_order_of_lists()
    ensures
        Probe::Gateway.listings() == seq![Listing::Tools, Listing::Resources, Listing::Prompts],
        Probe::Direct.listings() == seq![Listing::Tools, Listing::Resources],
        Probe::Gateway.after(Listing::Tools) == Some(Listing::Resources),
        Probe::Gateway.after(Listing::Resources) == Some(Listing::Prompts),
        Probe::Gateway.after(Listing::Prompts) is None,
        Probe::Direct.after(Listing::Tools) == Some(Listing::Resources),
        Probe::Direct.after(Listing::Resources) is None,
        Probe::Direct.after(Listing::Prompts) is None,
{
}

/// A list that came is told with how many entries it has; of tools every name
/// is told too, in the order of the list.
pub proof fn law_list_is_told(listing: Listing, names: Vec<String>)
    ensures
        ({
            let told = outcome_texts(listing, ListOutcome::Listed(names));
            &&& told.len() == 2 + (if listing == Listing::Tools {
                names@.len() as int
            } else {
                0
            })
            &&& told[0] == "   ✅ "@ + call_name(listing) + " succeeded"@
            &&& told[1] == "   📦 "@ + kind_name(listing) + " available: "@ + decimal(names@.len())
            &&& listing == Listing::Tools ==> forall|i: int|
                0 <= i < names@.len() ==> told[i + 2] == "      - "@ + (#[trigger] names@[i])@
        }),
{
    let told = outcome_texts(listing, ListOutcome::Listed(names));
    if listing == Listing::Tools {
        assert forall|i: int| 0 <= i < names@.len() implies told[i + 2] == "      - "@ + (
        #[trigger] names@[i])@ by {
            assert(told[i + 2] == crate::probe::entries(owned_texts(names@))[i]);
        }
    }
}

/// A list that did not come is told in one line, with the whole reason where
/// there is one.
pub proof fn law_missing_list_is_told(listing: Listing, error: String)
    ensures
        outcome_texts(listing, ListOutcome::Failed(error)).len() == 1,
        outcome_texts(listing, ListOutcome::Failed(error))[0] == "   ⚠️  "@ + call_name(listing)
            + " error: "@ + error@,
        outcome_texts(listing, ListOutcome::TimedOut).len() == 1,
        outcome_texts(listing, ListOutcome::TimedOut)[0] == "   ⏱️  "@ + call_name(listing)
            + " timeout"@,
{
}

/// The lists are told apart by their names.
pub proof fn law_names_of_lists()
    ensures
        call_name(Listing::Tools) == "list_tools"@,
        call_name(Listing::Resources) == "list_resources"@,
        call_name(Listing::Prompts) == "list_prompts"@,
        kind_name(Listing::Tools) == "Tools"@,
        kind_name(Listing::Resources) == "Resources"@,
        kind_name(Listing::Prompts) == "Prompts"@,
{
}

/// A server that says who it is is told with its whole name and version.
pub proof fn law_server_is_told(info: ServerInfo)
    ensures
        info_text(Some(info)) == "   ✅ Server: "@ + info.name@ + " v"@ + info.version@,
        info_text(None) == "   ⚠️  No server info available"@,
{
}

/// The end of a probe tells its way, and the whole reason where it failed.
pub proof fn law_end_is_told(error: Seq<char>)
    ensures
        Probe::Gateway.summary_text(None) == "✅ "@ + "Gateway"@ + " connection SUCCESS\n"@,
        Probe::Direct.summary_text(None) == "✅ "@ + "Direct"@ + " connection SUCCESS\n"@,
        Probe::Gateway.summary_text(Some(error)) == "❌ "@ + "Gateway"@ + " connection FAILED: "@
            + error + "\n"@,
        Probe::Direct.summary_text(Some(error)) == "❌ "@ + "Direct"@ + " connection FAILED: "@
            + error + "\n"@,
{
}

} // verus!
