//! `handoff::pending`: the open items of the handoff database.

use vstd::prelude::*;

use crate::json::{
    entry_lookup, keys_distinct, lemma_lookup_at,
    entry_views, json_array, json_array_value, json_member, json_member_value, json_number,
    json_number_value, json_object, json_object_value, json_opt_string, json_opt_string_value,
    json_string, json_string_value, json_text, json_text_value,
};
use crate::text::opt_view;

verus! {

/// The query for open items of one project, by priority and id.
pub open spec fn project_query() -> Seq<char> {
    "SELECT project, id, name, priority, status FROM items WHERE status <> 'done' AND project = ?1 ORDER BY priority, id"@
}

/// The query for open items of all projects, by priority, project and id.
pub open spec fn all_projects_query() -> Seq<char> {
    "SELECT project, id, name, priority, status FROM items WHERE status <> 'done' ORDER BY priority, project, id"@
}

/// The project named under `args.project` in a check's input, if any.
pub open spec fn project_filter_value(input: serde_json::Value) -> Option<Seq<char>> {
    match json_member_value(input, "args"@) {
        Some(args) => match json_member_value(args, "project"@) {
            Some(p) => json_text_value(p),
            None => None,
        },
        None => None,
    }
}

/// The project named under `args.project` in a check's input.
pub fn project_filter(input: &serde_json::Value) -> (r: Option<String>)
    ensures
        opt_view(r) == project_filter_value(*input),
{
    match json_member(input, "args") {
        Some(args) => match json_member(&args, "project") {
            Some(p) => json_text(&p),
            None => None,
        },
        None => None,
    }
}

/// The query to run and its parameters: with a project, its open items
/// and the project as the one parameter; without, all open items.
pub fn pending_query(project: Option<String>) -> (r: (String, Vec<String>))
    ensures
        match project {
            Some(p) => r.0@ == project_query() && r.1@.len() == 1 && r.1@[0]@ == p@,
            None => r.0@ == all_projects_query() && r.1@.len() == 0,
        },
{
    match project {
        Some(p) => {
            let mut params: Vec<String> = Vec::new();
            params.push(p);
            (
                "SELECT project, id, name, priority, status FROM items WHERE status <> 'done' AND project = ?1 ORDER BY priority, id".to_owned(),
                params,
            )
        },
        None => (
            "SELECT project, id, name, priority, status FROM items WHERE status <> 'done' ORDER BY priority, project, id".to_owned(),
            Vec::new(),
        ),
    }
}

/// One row of the query.
#[derive(Debug, Clone)]
pub struct HandoffRow {
    pub project: String,
    pub id: String,
    pub name: Option<String>,
    pub priority: Option<String>,
    pub status: String,
}

/// The JSON object of one row.
pub open spec fn row_json(row: HandoffRow) -> serde_json::Value {
    json_object_value(
        seq![
            ("project"@, json_string_value(row.project@)),
            ("id"@, json_string_value(row.id@)),
            ("name"@, json_opt_string_value(opt_view(row.name))),
            ("priority"@, json_opt_string_value(opt_view(row.priority))),
            ("status"@, json_string_value(row.status@)),
        ],
    )
}

/// The check's output: the rows as objects, in order, and how many there are.
pub open spec fn pending_json(rows: Seq<HandoffRow>) -> serde_json::Value {
    json_object_value(
        seq![
            ("items"@, json_array_value(rows.map_values(|r: HandoffRow| row_json(r)))),
            ("count"@, json_number_value(rows.len() as u64)),
        ],
    )
}

/// The object of a row has exactly the members `project`, `id`, `name`,
/// `priority` and `status`, holding the row's values (`null` for an absent
/// name or priority).
pub proof fn lemma_row_json_members(row: HandoffRow)
    ensures
        exists|e: Seq<(Seq<char>, serde_json::Value)>|
            #![trigger json_object_value(e)]
            row_json(row) == json_object_value(e) && keys_distinct(e) && e.len() == 5
                && entry_lookup(e, "project"@) == Some(json_string_value(row.project@))
                && entry_lookup(e, "id"@) == Some(json_string_value(row.id@))
                && entry_lookup(e, "name"@) == Some(json_opt_string_value(opt_view(row.name)))
                && entry_lookup(e, "priority"@) == Some(json_opt_string_value(opt_view(row.priority)))
                && entry_lookup(e, "status"@) == Some(json_string_value(row.status@)),
{
    reveal_strlit("project");
    reveal_strlit("id");
    reveal_strlit("name");
    reveal_strlit("priority");
    reveal_strlit("status");
    let e = seq![
        ("project"@, json_string_value(row.project@)),
        ("id"@, json_string_value(row.id@)),
        ("name"@, json_opt_string_value(opt_view(row.name))),
        ("priority"@, json_opt_string_value(opt_view(row.priority))),
        ("status"@, json_string_value(row.status@)),
    ];
    assert("project"@[0] == 'p' && "project"@[2] == 'o');
    assert("priority"@[0] == 'p' && "priority"@[2] == 'i');
    assert("id"@[0] == 'i' && "name"@[0] == 'n' && "status"@[0] == 's');
    assert(keys_distinct(e)) by {
        assert forall|i: int, j: int| 0 <= i < e.len() && 0 <= j < e.len() && i != j implies e[i].0 != e[j].0 by {
            if e[i].0[0] == e[j].0[0] {
                assert(e[i].0[2] != e[j].0[2]);
            }
        }
    }
    lemma_lookup_at(e, 0);
    lemma_lookup_at(e, 1);
    lemma_lookup_at(e, 2);
    lemma_lookup_at(e, 3);
    lemma_lookup_at(e, 4);
    assert(row_json(row) == json_object_value(e));
}

/// The check's output has the members `items` and `count`: an array whose
/// k-th object is the k-th row's, in the order the query returned them, and
/// the number of rows.
pub proof fn lemma_pending_json_members(rows: Seq<HandoffRow>)
    ensures
        exists|e: Seq<(Seq<char>, serde_json::Value)>, items: Seq<serde_json::Value>|
            #![trigger json_object_value(e), json_array_value(items)]
            pending_json(rows) == json_object_value(e) && keys_distinct(e) && e.len() == 2
                && entry_lookup(e, "items"@) == Some(json_array_value(items))
                && entry_lookup(e, "count"@) == Some(json_number_value(rows.len() as u64))
                && items.len() == rows.len()
                && (forall|k: int| 0 <= k < rows.len() ==> #[trigger] items[k] == row_json(rows[k])),
{
    reveal_strlit("items");
    reveal_strlit("count");
    let items = rows.map_values(|r: HandoffRow| row_json(r));
    let e = seq![("items"@, json_array_value(items)), ("count"@, json_number_value(rows.len() as u64))];
    assert("items"@[0] == 'i' && "count"@[0] == 'c');
    assert(keys_distinct(e)) by {
        assert forall|i: int, j: int| 0 <= i < e.len() && 0 <= j < e.len() && i != j implies e[i].0 != e[j].0 by {
            assert(e[i].0[0] != e[j].0[0]);
        }
    }
    lemma_lookup_at(e, 0);
    lemma_lookup_at(e, 1);
    assert(pending_json(rows) == json_object_value(e));
}

/// The JSON object of one row.
fn row_to_json(row: &HandoffRow) -> (v: serde_json::Value)
    ensures
        v == row_json(*row),
{
    let mut entries: Vec<(String, serde_json::Value)> = Vec::new();
    entries.push(("project".to_owned(), json_string(row.project.clone())));
    entries.push(("id".to_owned(), json_string(row.id.clone())));
    entries.push(("name".to_owned(), json_opt_string(row.name.clone())));
    entries.push(("priority".to_owned(), json_opt_string(row.priority.clone())));
    entries.push(("status".to_owned(), json_string(row.status.clone())));
    proof {
        assert(entry_views(entries@) =~= seq![
            ("project"@, json_string_value(row.project@)),
            ("id"@, json_string_value(row.id@)),
            ("name"@, json_opt_string_value(opt_view(row.name))),
            ("priority"@, json_opt_string_value(opt_view(row.priority))),
            ("status"@, json_string_value(row.status@)),
        ]);
    }
    json_object(entries)
}

/// The check's output for the rows the query returned.
pub fn pending_result(rows: &[HandoffRow]) -> (v: serde_json::Value)
    ensures
        v == pending_json(rows@),
{
    let mut items: Vec<serde_json::Value> = Vec::new();
    let n = rows.len();
    for i in 0..n
        invariant
            n == rows@.len(),
            items@ == rows@.take(i as int).map_values(|r: HandoffRow| row_json(r)),
    {
        items.push(row_to_json(&rows[i]));
        proof {
            assert(rows@.take(i + 1) =~= rows@.take(i as int).push(rows@[i as int]));
        }
    }
    proof {
        assert(rows@.take(n as int) =~= rows@);
    }
    let mut entries: Vec<(String, serde_json::Value)> = Vec::new();
    entries.push(("items".to_owned(), json_array(items)));
    entries.push(("count".to_owned(), json_number(n as u64)));
    proof {
        assert(entry_views(entries@) =~= seq![
            ("items"@, json_array_value(rows@.map_values(|r: HandoffRow| row_json(r)))),
            ("count"@, json_number_value(rows@.len() as u64)),
        ]);
    }
    json_object(entries)
}

} // verus!
