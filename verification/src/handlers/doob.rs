//! `doob::pending`: the pending todos that the `doob` CLI lists.

use vstd::prelude::*;

use super::ProcessOutput;
use crate::json::{
    entry_lookup, keys_distinct, lemma_lookups, entry_views, json_array, json_array_value, json_member, json_member_value, json_number,
    json_number_value, json_object, json_object_value, json_string, json_string_value, json_u64,
    json_u64_value, parse_json, parsed_json_value,
};
use crate::text::{decimal, decimal_text, output_text, process_text};

verus! {

/// The reason given when `doob` is not installed.
pub open spec fn missing_reason() -> Seq<char> {
    "doob not on PATH"@
}

/// `doob` can be run if `which doob` ran and succeeded.
pub fn pending_available(which: &Option<ProcessOutput>) -> (r: bool)
    ensures
        r == (which matches Some(o) && o.success),
{
    match which {
        Some(o) => o.success,
        None => false,
    }
}

/// An empty list of todos.
pub open spec fn no_todos_entries(status: Seq<char>, detail: Seq<char>) -> Seq<(Seq<char>, serde_json::Value)> {
    seq![
        ("status"@, json_string_value(status)),
        ("detail"@, json_string_value(detail)),
        ("todos"@, json_array_value(Seq::empty())),
        ("count"@, json_number_value(0)),
    ]
}

/// The output when `doob` is not installed: the check is skipped.
pub open spec fn missing_json() -> serde_json::Value {
    json_object_value(no_todos_entries("skip"@, missing_reason()))
}

/// An object of a status, a detail and no todos.
fn no_todos(status: &str, detail: String) -> (v: serde_json::Value)
    ensures
        v == json_object_value(no_todos_entries(status@, detail@)),
{
    let mut entries: Vec<(String, serde_json::Value)> = Vec::new();
    entries.push(("status".to_owned(), json_string(status.to_owned())));
    entries.push(("detail".to_owned(), json_string(detail)));
    entries.push(("todos".to_owned(), json_array(Vec::new())));
    entries.push(("count".to_owned(), json_number(0)));
    proof {
        assert(entry_views(entries@) =~= no_todos_entries(status@, detail@));
    }
    json_object(entries)
}

/// The output when `doob` is not installed.
pub fn pending_missing() -> (v: serde_json::Value)
    ensures
        v == missing_json(),
{
    no_todos("skip", "doob not on PATH".to_owned())
}

/// The arguments given to `doob`.
pub fn pending_args() -> (r: Vec<String>)
    ensures
        r@.len() == 5,
        r@[0]@ == "todo"@,
        r@[1]@ == "list"@,
        r@[2]@ == "--status"@,
        r@[3]@ == "pending"@,
        r@[4]@ == "--json"@,
{
    super::args_of(&["todo", "list", "--status", "pending", "--json"])
}

/// What `doob` printed, read as JSON; an empty list where it is no JSON.
pub open spec fn listing(stdout: Seq<u8>) -> serde_json::Value {
    match parsed_json_value(stdout) {
        Some(v) => v,
        None => json_object_value(
            seq![("todos"@, json_array_value(Seq::empty())), ("count"@, json_number_value(0))],
        ),
    }
}

/// The count a listing gives, or zero.
pub open spec fn listed_count(v: serde_json::Value) -> u64 {
    match json_member_value(v, "count"@) {
        Some(c) => match json_u64_value(c) {
            Some(n) => n,
            None => 0,
        },
        None => 0,
    }
}

/// The todos a listing gives, or an empty array.
pub open spec fn listed_todos(v: serde_json::Value) -> serde_json::Value {
    match json_member_value(v, "todos"@) {
        Some(t) => t,
        None => json_array_value(Seq::empty()),
    }
}

/// The output once `doob` has run: a warning with its error text if it
/// failed, else its todos and count, with "N pending" as the detail.
pub open spec fn pending_json(out_success: bool, stdout: Seq<u8>, stderr: Seq<u8>) -> serde_json::Value {
    if !out_success {
        json_object_value(no_todos_entries("warn"@, output_text(stderr)))
    } else {
        let l = listing(stdout);
        json_object_value(
            seq![
                ("todos"@, listed_todos(l)),
                ("count"@, json_number_value(listed_count(l))),
                ("detail"@, json_string_value(decimal(listed_count(l) as nat) + " pending"@)),
            ],
        )
    }
}

/// Once `doob` has run: a failure is reported as `warn` with `doob`'s error
/// text, trimmed, and no todos; a success reports the todos and the count
/// that `doob` listed (none and zero where it printed no JSON), and the detail
/// is that count in decimal followed by ` pending`.
pub proof fn lemma_pending_members(out_success: bool, stdout: Seq<u8>, stderr: Seq<u8>)
    ensures
        exists|e: Seq<(Seq<char>, serde_json::Value)>|
            #![trigger json_object_value(e)]
            pending_json(out_success, stdout, stderr) == json_object_value(e) && keys_distinct(e)
                && (!out_success ==> {
                    &&& entry_lookup(e, "status"@) == Some(json_string_value("warn"@))
                    &&& entry_lookup(e, "detail"@) == Some(json_string_value(output_text(stderr)))
                    &&& entry_lookup(e, "todos"@) == Some(json_array_value(Seq::empty()))
                    &&& entry_lookup(e, "count"@) == Some(json_number_value(0))
                })
                && (out_success ==> {
                    &&& entry_lookup(e, "status"@) is None
                    &&& entry_lookup(e, "todos"@) == Some(listed_todos(listing(stdout)))
                    &&& entry_lookup(e, "count"@) == Some(json_number_value(listed_count(listing(stdout))))
                    &&& entry_lookup(e, "detail"@) == Some(json_string_value(
                        decimal(listed_count(listing(stdout)) as nat) + " pending"@,
                    ))
                }),
{
    reveal_strlit("status");
    reveal_strlit("detail");
    reveal_strlit("todos");
    reveal_strlit("count");
    assert("status"@[0] == 's' && "detail"@[0] == 'd' && "todos"@[0] == 't' && "count"@[0] == 'c');
    let l = listing(stdout);
    let e = if out_success {
        seq![
            ("todos"@, listed_todos(l)),
            ("count"@, json_number_value(listed_count(l))),
            ("detail"@, json_string_value(decimal(listed_count(l) as nat) + " pending"@)),
        ]
    } else {
        no_todos_entries("warn"@, output_text(stderr))
    };
    assert(keys_distinct(e)) by {
        assert forall|i: int, j: int| 0 <= i < e.len() && 0 <= j < e.len() && i != j implies e[i].0 != e[j].0 by {
            assert(e[i].0[0] != e[j].0[0]);
        }
    }
    lemma_lookups(e);
    if out_success {
        assert(e[0].0 == "todos"@ && e[1].0 == "count"@ && e[2].0 == "detail"@);
        assert forall|i: int| 0 <= i < e.len() implies e[i].0 != "status"@ by {
            assert(e[i].0[0] != "status"@[0]);
        }
        crate::json::lemma_lookup_absent(e, "status"@);
    } else {
        assert(e[0].0 == "status"@ && e[1].0 == "detail"@ && e[2].0 == "todos"@ && e[3].0 == "count"@);
    }
    assert(pending_json(out_success, stdout, stderr) == json_object_value(e));
}

/// The output once `doob` has run.
pub fn pending_result(out: &ProcessOutput) -> (v: serde_json::Value)
    ensures
        v == pending_json(out.success, out.stdout@, out.stderr@),
{
    if !out.success {
        return no_todos("warn", process_text(out.stderr.as_slice()));
    }
    let parsed = match parse_json(out.stdout.as_slice()) {
        Some(v) => v,
        None => {
            let mut empty: Vec<(String, serde_json::Value)> = Vec::new();
            empty.push(("todos".to_owned(), json_array(Vec::new())));
            empty.push(("count".to_owned(), json_number(0)));
            proof {
                assert(entry_views(empty@) =~= seq![
                    ("todos"@, json_array_value(Seq::empty())),
                    ("count"@, json_number_value(0)),
                ]);
            }
            json_object(empty)
        },
    };
    let count: u64 = match json_member(&parsed, "count") {
        Some(c) => match json_u64(&c) {
            Some(n) => n,
            None => 0,
        },
        None => 0,
    };
    let todos = match json_member(&parsed, "todos") {
        Some(t) => t,
        None => json_array(Vec::new()),
    };
    let mut detail = decimal_text(count);
    detail.append(" pending");
    let mut entries: Vec<(String, serde_json::Value)> = Vec::new();
    entries.push(("todos".to_owned(), todos));
    entries.push(("count".to_owned(), json_number(count)));
    entries.push(("detail".to_owned(), json_string(detail)));
    proof {
        assert(entry_views(entries@) =~= seq![
            ("todos"@, listed_todos(listing(out.stdout@))),
            ("count"@, json_number_value(listed_count(listing(out.stdout@)))),
            ("detail"@, json_string_value(decimal(listed_count(listing(out.stdout@)) as nat) + " pending"@)),
        ]);
    }
    json_object(entries)
}

} // verus!
