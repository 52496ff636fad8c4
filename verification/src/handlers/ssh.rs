//! `ssh::reachable`: does the configured host answer over SSH?

use vstd::prelude::*;

use super::{disabled_output, disabled_reason, skip_json, ProcessOutput};
use crate::json::{
    entry_lookup, keys_distinct, lemma_lookups, entry_views, json_bool, json_bool_value, json_object, json_object_value, json_string,
    json_string_value,
};
use crate::text::{output_text, process_text};

verus! {

/// The check's output when the configuration disables it, or nothing when
/// the host must be asked.
pub fn reachable_skipped(enabled: bool) -> (r: Option<serde_json::Value>)
    ensures
        enabled ==> r is None,
        !enabled ==> r == Some(skip_json(disabled_reason())),
{
    if enabled {
        None
    } else {
        Some(disabled_output())
    }
}

/// The arguments given to `ssh`: a three-second connection timeout, no
/// prompts, no host-key check, then the host and the command `exit`.
pub fn reachable_args(host: &str) -> (r: Vec<String>)
    ensures
        r@.len() == 8,
        r@[0]@ == "-o"@,
        r@[1]@ == "ConnectTimeout=3"@,
        r@[2]@ == "-o"@,
        r@[3]@ == "BatchMode=yes"@,
        r@[4]@ == "-o"@,
        r@[5]@ == "StrictHostKeyChecking=no"@,
        r@[6]@ == host@,
        r@[7]@ == "exit"@,
{
    super::args_of(&["-o", "ConnectTimeout=3", "-o", "BatchMode=yes", "-o", "StrictHostKeyChecking=no", host, "exit"])
}

/// The output of the check once `ssh` has run: a pass if it succeeded, a
/// warning with its error text if not; the host either way.
pub open spec fn reachable_json(host: Seq<char>, out_success: bool, stderr: Seq<u8>) -> serde_json::Value {
    if out_success {
        json_object_value(
            seq![
                ("status"@, json_string_value("pass"@)),
                ("reachable"@, json_bool_value(true)),
                ("host"@, json_string_value(host)),
            ],
        )
    } else {
        json_object_value(
            seq![
                ("status"@, json_string_value("warn"@)),
                ("reachable"@, json_bool_value(false)),
                ("host"@, json_string_value(host)),
                ("detail"@, json_string_value(output_text(stderr))),
            ],
        )
    }
}

/// Once `ssh` has run, the host is reported as reachable with `pass` exactly
/// when `ssh` succeeded, else as unreachable with `warn` and `ssh`'s error
/// text, trimmed; the host is named either way.
pub proof fn lemma_reachable_members(host: Seq<char>, out_success: bool, stderr: Seq<u8>)
    ensures
        exists|e: Seq<(Seq<char>, serde_json::Value)>|
            #![trigger json_object_value(e)]
            reachable_json(host, out_success, stderr) == json_object_value(e) && keys_distinct(e)
                && entry_lookup(e, "status"@) == Some(json_string_value(if out_success { "pass"@ } else { "warn"@ }))
                && entry_lookup(e, "reachable"@) == Some(json_bool_value(out_success))
                && entry_lookup(e, "host"@) == Some(json_string_value(host))
                && (!out_success ==> entry_lookup(e, "detail"@) == Some(json_string_value(output_text(stderr))))
                && e.len() == (if out_success { 3int } else { 4int }),
{
    reveal_strlit("status");
    reveal_strlit("reachable");
    reveal_strlit("host");
    reveal_strlit("detail");
    assert("status"@[0] == 's' && "reachable"@[0] == 'r' && "host"@[0] == 'h' && "detail"@[0] == 'd');
    let e = if out_success {
        seq![
            ("status"@, json_string_value("pass"@)),
            ("reachable"@, json_bool_value(true)),
            ("host"@, json_string_value(host)),
        ]
    } else {
        seq![
            ("status"@, json_string_value("warn"@)),
            ("reachable"@, json_bool_value(false)),
            ("host"@, json_string_value(host)),
            ("detail"@, json_string_value(output_text(stderr))),
        ]
    };
    assert(keys_distinct(e)) by {
        assert forall|i: int, j: int| 0 <= i < e.len() && 0 <= j < e.len() && i != j implies e[i].0 != e[j].0 by {
            assert(e[i].0[0] != e[j].0[0]);
        }
    }
    lemma_lookups(e);
    assert(e[0].0 == "status"@ && e[1].0 == "reachable"@ && e[2].0 == "host"@);
    assert(!out_success ==> e[3].0 == "detail"@);
    assert(reachable_json(host, out_success, stderr) == json_object_value(e));
}

/// The output of the check once `ssh` has run.
pub fn reachable_result(host: &str, out: &ProcessOutput) -> (v: serde_json::Value)
    ensures
        v == reachable_json(host@, out.success, out.stderr@),
{
    let mut entries: Vec<(String, serde_json::Value)> = Vec::new();
    if out.success {
        entries.push(("status".to_owned(), json_string("pass".to_owned())));
        entries.push(("reachable".to_owned(), json_bool(true)));
        entries.push(("host".to_owned(), json_string(host.to_owned())));
        proof {
            assert(entry_views(entries@) =~= seq![
                ("status"@, json_string_value("pass"@)),
                ("reachable"@, json_bool_value(true)),
                ("host"@, json_string_value(host@)),
            ]);
        }
    } else {
        entries.push(("status".to_owned(), json_string("warn".to_owned())));
        entries.push(("reachable".to_owned(), json_bool(false)));
        entries.push(("host".to_owned(), json_string(host.to_owned())));
        entries.push(("detail".to_owned(), json_string(process_text(out.stderr.as_slice()))));
        proof {
            assert(entry_views(entries@) =~= seq![
                ("status"@, json_string_value("warn"@)),
                ("reachable"@, json_bool_value(false)),
                ("host"@, json_string_value(host@)),
                ("detail"@, json_string_value(output_text(out.stderr@))),
            ]);
        }
    }
    json_object(entries)
}

} // verus!
