//! `op::auth_check`: is the 1Password CLI signed in?

use vstd::prelude::*;

use super::{disabled_output, disabled_reason, skip_json, ProcessOutput};
use crate::json::{
    entry_lookup, keys_distinct, lemma_lookups, entry_views, json_bool, json_bool_value, json_number, json_number_value, json_object,
    json_object_value, json_string, json_string_value, parse_json_list, parsed_json_list,
};
use crate::text::{output_text, process_text};

verus! {

/// The check's output when the configuration disables it, or nothing when
/// the CLI must be asked.
pub fn auth_check_skipped(enabled: bool) -> (r: Option<serde_json::Value>)
    ensures
        enabled ==> r is None,
        !enabled ==> r == Some(skip_json(disabled_reason())),
{
    if enabled {
        None
    } else {
        Some(disabled_output())
    }
}

/// The arguments given to `op`.
pub fn auth_check_args() -> (r: Vec<String>)
    ensures
        r@.len() == 3,
        r@[0]@ == "account"@,
        r@[1]@ == "list"@,
        r@[2]@ == "--format=json"@,
{
    super::args_of(&["account", "list", "--format=json"])
}

/// The number of accounts the CLI listed: the length of the JSON array it
/// printed, or none where it printed no array.
pub open spec fn account_count(stdout: Seq<u8>) -> nat {
    match parsed_json_list(stdout) {
        Some(items) => items.len(),
        None => 0,
    }
}

/// The output of the check once the CLI has run: a pass with the number of
/// accounts if it succeeded, a failure with its error text if not.
pub open spec fn auth_check_json(out_success: bool, stdout: Seq<u8>, stderr: Seq<u8>) -> serde_json::Value {
    if out_success {
        json_object_value(
            seq![
                ("status"@, json_string_value("pass"@)),
                ("authenticated"@, json_bool_value(true)),
                ("accounts"@, json_number_value(account_count(stdout) as u64)),
            ],
        )
    } else {
        json_object_value(
            seq![
                ("status"@, json_string_value("fail"@)),
                ("authenticated"@, json_bool_value(false)),
                ("detail"@, json_string_value(output_text(stderr))),
            ],
        )
    }
}

/// Once the CLI has run, a success is reported as `pass`, authenticated,
/// with the number of accounts in the JSON array the CLI printed (none where
/// it printed no array); a failure as `fail`, not authenticated, with the
/// CLI's error text, trimmed.
pub proof fn lemma_auth_check_members(out_success: bool, stdout: Seq<u8>, stderr: Seq<u8>)
    ensures
        exists|e: Seq<(Seq<char>, serde_json::Value)>|
            #![trigger json_object_value(e)]
            auth_check_json(out_success, stdout, stderr) == json_object_value(e) && keys_distinct(e) && e.len() == 3
                && entry_lookup(e, "status"@) == Some(json_string_value(if out_success { "pass"@ } else { "fail"@ }))
                && entry_lookup(e, "authenticated"@) == Some(json_bool_value(out_success))
                && (out_success ==> entry_lookup(e, "accounts"@) == Some(json_number_value(
                    match parsed_json_list(stdout) {
                        Some(items) => items.len() as u64,
                        None => 0u64,
                    },
                )))
                && (!out_success ==> entry_lookup(e, "detail"@) == Some(json_string_value(output_text(stderr)))),
{
    reveal_strlit("status");
    reveal_strlit("authenticated");
    reveal_strlit("accounts");
    reveal_strlit("detail");
    assert("status"@[0] == 's' && "authenticated"@[0] == 'a' && "accounts"@[0] == 'a' && "detail"@[0] == 'd');
    assert("authenticated"@[1] == 'u' && "accounts"@[1] == 'c');
    let e = if out_success {
        seq![
            ("status"@, json_string_value("pass"@)),
            ("authenticated"@, json_bool_value(true)),
            ("accounts"@, json_number_value(account_count(stdout) as u64)),
        ]
    } else {
        seq![
            ("status"@, json_string_value("fail"@)),
            ("authenticated"@, json_bool_value(false)),
            ("detail"@, json_string_value(output_text(stderr))),
        ]
    };
    assert(keys_distinct(e)) by {
        assert forall|i: int, j: int| 0 <= i < e.len() && 0 <= j < e.len() && i != j implies e[i].0 != e[j].0 by {
            assert(e[i].0[0] != e[j].0[0] || e[i].0[1] != e[j].0[1]);
        }
    }
    lemma_lookups(e);
    assert(e[0].0 == "status"@ && e[1].0 == "authenticated"@);
    assert(out_success ==> e[2].0 == "accounts"@);
    assert(!out_success ==> e[2].0 == "detail"@);
    assert(auth_check_json(out_success, stdout, stderr) == json_object_value(e));
}

/// The output of the check once the CLI has run.
pub fn auth_check_result(out: &ProcessOutput) -> (v: serde_json::Value)
    ensures
        v == auth_check_json(out.success, out.stdout@, out.stderr@),
{
    let mut entries: Vec<(String, serde_json::Value)> = Vec::new();
    if out.success {
        let count: usize = match parse_json_list(out.stdout.as_slice()) {
            Some(items) => items.len(),
            None => 0,
        };
        entries.push(("status".to_owned(), json_string("pass".to_owned())));
        entries.push(("authenticated".to_owned(), json_bool(true)));
        entries.push(("accounts".to_owned(), json_number(count as u64)));
        proof {
            assert(entry_views(entries@) =~= seq![
                ("status"@, json_string_value("pass"@)),
                ("authenticated"@, json_bool_value(true)),
                ("accounts"@, json_number_value(account_count(out.stdout@) as u64)),
            ]);
        }
    } else {
        entries.push(("status".to_owned(), json_string("fail".to_owned())));
        entries.push(("authenticated".to_owned(), json_bool(false)));
        entries.push(("detail".to_owned(), json_string(process_text(out.stderr.as_slice()))));
        proof {
            assert(entry_views(entries@) =~= seq![
                ("status"@, json_string_value("fail"@)),
                ("authenticated"@, json_bool_value(false)),
                ("detail"@, json_string_value(output_text(out.stderr@))),
            ]);
        }
    }
    json_object(entries)
}

} // verus!
