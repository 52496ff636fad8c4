//! The decisions of the built-in checks. Running the commands and the
//! database query is left to the caller, which hands over what came back.

use vstd::prelude::*;

use crate::emit::{status_of_text, Status};
use crate::json::{
    entry_lookup, entry_views, json_object, json_object_value, json_string, json_string_value,
    keys_distinct,
};

pub mod doob;
pub mod env;
pub mod handoff;
pub mod op;
pub mod ssh;

verus! {

/// What a finished process left behind.
#[derive(Debug, Clone)]
pub struct ProcessOutput {
    pub success: bool,
    pub stdout: Vec<u8>,
    pub stderr: Vec<u8>,
}

/// The output of a check that was skipped, with the reason.
pub open spec fn skip_json(reason: Seq<char>) -> serde_json::Value {
    json_object_value(skip_entries(reason))
}

/// The members of a skipped check's output.
pub open spec fn skip_entries(reason: Seq<char>) -> Seq<(Seq<char>, serde_json::Value)> {
    seq![("status"@, json_string_value("skip"@)), ("detail"@, json_string_value(reason))]
}

/// The output of a skipped check reads back as a skip with its reason:
/// its keys are distinct, its status is the text `skip`, which names
/// `Status::Skip`, and its detail is the reason. With the contract of
/// `check_result_from_step`, a skipped check that ran is reported as
/// skipped, with the reason as its detail.
pub proof fn lemma_skip_output_reads_back(reason: Seq<char>)
    ensures
        skip_json(reason) == json_object_value(skip_entries(reason)),
        keys_distinct(skip_entries(reason)),
        entry_lookup(skip_entries(reason), "status"@) == Some(json_string_value("skip"@)),
        entry_lookup(skip_entries(reason), "detail"@) == Some(json_string_value(reason)),
        status_of_text("skip"@) == Status::Skip,
{
    reveal_strlit("status");
    reveal_strlit("detail");
    reveal_strlit("skip");
    reveal_strlit("warn");
    let e = skip_entries(reason);
    assert("status"@ != "detail"@) by {
        assert("status"@[0] != "detail"@[0]);
    }
    assert("skip"@ != "warn"@) by {
        assert("skip"@[0] != "warn"@[0]);
    }
    assert(e[0].0 == "status"@);
    assert(e[1].0 == "detail"@);
    assert(entry_lookup(e, "status"@) == Some(json_string_value("skip"@)));
    assert(entry_lookup(e, "detail"@) == Some(json_string_value(reason)));
}

/// The reason given when a check is disabled.
pub open spec fn disabled_reason() -> Seq<char> {
    "disabled in config"@
}

/// The output of a check that the configuration disables.
pub fn disabled_output() -> (v: serde_json::Value)
    ensures
        v == skip_json(disabled_reason()),
{
    let mut entries: Vec<(String, serde_json::Value)> = Vec::new();
    entries.push(("status".to_owned(), json_string("skip".to_owned())));
    entries.push(("detail".to_owned(), json_string("disabled in config".to_owned())));
    proof {
        assert(entry_views(entries@) =~= seq![("status"@, json_string_value("skip"@)), ("detail"@, json_string_value(disabled_reason()))]);
    }
    json_object(entries)
}

/// Command-line arguments from text constants.
pub fn args_of(parts: &[&str]) -> (r: Vec<String>)
    ensures
        r@.len() == parts@.len(),
        forall|i: int| 0 <= i < parts@.len() ==> #[trigger] r@[i]@ == parts@[i]@,
{
    let mut r: Vec<String> = Vec::new();
    let n = parts.len();
    for i in 0..n
        invariant
            n == parts@.len(),
            r@.len() == i,
            forall|k: int| 0 <= k < i ==> #[trigger] r@[k]@ == parts@[k]@,
    {
        r.push(parts[i].to_owned());
    }
    r
}

} // verus!
