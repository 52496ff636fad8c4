//! Environment checks: `detect_shell`, `check_tools` and `check_pwd`.

use vstd::prelude::*;

use super::ProcessOutput;
use crate::json::{
    entry_lookup, keys_distinct, lemma_lookups, entry_views, json_array, json_array_value, json_items, json_items_value, json_member,
    json_member_value, json_object, json_object_value, json_opt_string, json_opt_string_value,
    json_string, json_string_value, json_text, json_text_value,
};
use crate::text::{opt_view, output_text, process_text};

verus! {

/// The shells looked for, in order of preference.
pub fn shell_candidates() -> (r: Vec<String>)
    ensures
        r@.len() == shell_candidate_count(),
        forall|i: int| 0 <= i < r@.len() ==> #[trigger] r@[i]@ == shell_candidate_name(i),
{
    super::args_of(&["nu", "zsh", "bash"])
}

/// The name of the shell looked for at `index`, in order of preference.
pub open spec fn shell_candidate_name(index: int) -> Seq<char> {
    if index == 0 {
        "nu"@
    } else if index == 1 {
        "zsh"@
    } else {
        "bash"@
    }
}

/// The number of shells looked for.
pub open spec fn shell_candidate_count() -> int {
    3
}

/// One step of the search for a shell.
pub enum ShellSearch {
    /// Ask `which` for the candidate at this index, with this name.
    Probe(usize, String),
    /// This candidate was found at this path.
    Found(String, String),
    /// No candidate was found.
    Exhausted,
}

/// The first step of the search: probe the first candidate.
pub fn shell_search_start() -> (r: ShellSearch)
    ensures
        r matches ShellSearch::Probe(i, name) && i == 0 && name@ == shell_candidate_name(0),
{
    ShellSearch::Probe(0, "nu".to_owned())
}

/// Decides the search after `which` was asked for the candidate at `index`:
/// the candidate is found where `which` ran, succeeded and printed a path;
/// otherwise the next candidate is probed, and after the last the search
/// ends with none. An index past the last candidate ends the search.
pub fn shell_search_step(index: usize, which: &Option<ProcessOutput>) -> (r: ShellSearch)
    ensures
        index >= shell_candidate_count() ==> r is Exhausted,
        index < shell_candidate_count() ==> match which {
            Some(o) if found_path(o.success, o.stdout@) is Some => r matches ShellSearch::Found(shell, path)
                && shell@ == shell_candidate_name(index as int) && path@ == found_path(o.success, o.stdout@)->0,
            _ => if index + 1 < shell_candidate_count() {
                r matches ShellSearch::Probe(i, name) && i == index + 1 && name@ == shell_candidate_name(index + 1)
            } else {
                r is Exhausted
            },
        },
{
    let candidates = shell_candidates();
    if index >= candidates.len() {
        return ShellSearch::Exhausted;
    }
    let hit = match which {
        Some(o) => which_path(o),
        None => None,
    };
    match hit {
        Some(path) => ShellSearch::Found(candidates[index].clone(), path),
        None => if index + 1 < candidates.len() {
            ShellSearch::Probe(index + 1, candidates[index + 1].clone())
        } else {
            ShellSearch::Exhausted
        },
    }
}

/// Where `which` found a program: what it printed, if it succeeded and
/// printed something.
pub open spec fn found_path(out_success: bool, stdout: Seq<u8>) -> Option<Seq<char>> {
    if out_success && output_text(stdout).len() > 0 {
        Some(output_text(stdout))
    } else {
        None
    }
}

/// Where `which` found a program.
pub fn which_path(out: &ProcessOutput) -> (r: Option<String>)
    ensures
        opt_view(r) == found_path(out.success, out.stdout@),
{
    if out.success {
        let p = process_text(out.stdout.as_slice());
        if p.as_str().unicode_len() > 0 {
            Some(p)
        } else {
            None
        }
    } else {
        None
    }
}

/// The shell report: the first candidate found, with its path; where none
/// was found, the value of `SHELL` for both.
pub open spec fn shell_json(shell_env: Seq<char>, found: Option<(Seq<char>, Seq<char>)>) -> serde_json::Value {
    json_object_value(
        seq![
            ("shell"@, json_string_value(if found is Some { (found->0).0 } else { shell_env })),
            ("path"@, json_string_value(if found is Some { (found->0).1 } else { shell_env })),
            ("SHELL"@, json_string_value(shell_env)),
        ],
    )
}

/// A found candidate and its path, by their views.
pub open spec fn found_view(found: Option<(String, String)>) -> Option<(Seq<char>, Seq<char>)> {
    match found {
        Some(f) => Some((f.0@, f.1@)),
        None => None,
    }
}

/// The shell report, given the value of `SHELL` and the first candidate
/// that `which` found, with its path.
pub fn detect_shell_result(shell_env: String, found: Option<(String, String)>) -> (v: serde_json::Value)
    ensures
        v == shell_json(shell_env@, found_view(found)),
{
    let ghost found_v = found_view(found);
    let (shell, path) = match found {
        Some(f) => f,
        None => (shell_env.clone(), shell_env.clone()),
    };
    let mut entries: Vec<(String, serde_json::Value)> = Vec::new();
    entries.push(("shell".to_owned(), json_string(shell)));
    entries.push(("path".to_owned(), json_string(path)));
    entries.push(("SHELL".to_owned(), json_string(shell_env)));
    proof {
        assert(entry_views(entries@) =~= seq![
            ("shell"@, json_string_value(if found_v is Some { (found_v->0).0 } else { shell_env@ })),
            ("path"@, json_string_value(if found_v is Some { (found_v->0).1 } else { shell_env@ })),
            ("SHELL"@, json_string_value(shell_env@)),
        ]);
    }
    json_object(entries)
}

/// The texts among a list of JSON values, in order.
pub open spec fn texts_of(items: Seq<serde_json::Value>) -> Seq<Seq<char>>
    decreases items.len(),
{
    if items.len() == 0 {
        Seq::empty()
    } else {
        match json_text_value(items.last()) {
            Some(t) => texts_of(items.drop_last()).push(t),
            None => texts_of(items.drop_last()),
        }
    }
}

/// The tools named under `args.tools` in a check's input: the strings of
/// that array, in order; none where there is no such array.
pub open spec fn requested_tools_value(input: serde_json::Value) -> Seq<Seq<char>> {
    match json_member_value(input, "args"@) {
        Some(args) => match json_member_value(args, "tools"@) {
            Some(tools) => match json_items_value(tools) {
                Some(items) => texts_of(items),
                None => Seq::empty(),
            },
            None => Seq::empty(),
        },
        None => Seq::empty(),
    }
}

/// The views of a list of strings.
pub open spec fn strings_view(v: Seq<String>) -> Seq<Seq<char>> {
    v.map_values(|s: String| s@)
}

/// The tools named under `args.tools` in a check's input.
pub fn requested_tools(input: &serde_json::Value) -> (r: Vec<String>)
    ensures
        strings_view(r@) == requested_tools_value(*input),
{
    let mut r: Vec<String> = Vec::new();
    let items = match json_member(input, "args") {
        Some(args) => match json_member(&args, "tools") {
            Some(tools) => json_items(&tools),
            None => None,
        },
        None => None,
    };
    match items {
        Some(items) => {
            let n = items.len();
            for i in 0..n
                invariant
                    n == items@.len(),
                    strings_view(r@) == texts_of(items@.take(i as int)),
            {
                let ghost before = r@;
                match json_text(&items[i]) {
                    Some(t) => {
                        r.push(t);
                        proof {
                            assert(strings_view(r@) =~= strings_view(before).push(r@.last()@));
                        }
                    },
                    None => {},
                }
                proof {
                    assert(items@.take(i + 1).drop_last() =~= items@.take(i as int));
                }
            }
            proof {
                assert(items@.take(n as int) =~= items@);
            }
        },
        None => {},
    }
    r
}

/// One tool's report: a pass with where `which` found it, or a warning with
/// an empty path where `which` did not run or did not succeed.
pub open spec fn tool_json(name: Seq<char>, which_ran: bool, out_success: bool, stdout: Seq<u8>) -> serde_json::Value {
    let found = which_ran && out_success;
    json_object_value(
        seq![
            ("name"@, json_string_value(name)),
            ("status"@, json_string_value(if found { "pass"@ } else { "warn"@ })),
            ("path"@, json_string_value(if found { output_text(stdout) } else { Seq::empty() })),
        ],
    )
}

/// A tool is reported as `pass`, with the path `which` printed (trimmed),
/// exactly when `which` ran and succeeded; otherwise as `warn` with an empty
/// path. The tool is named either way.
pub proof fn lemma_tool_members(name: Seq<char>, which_ran: bool, out_success: bool, stdout: Seq<u8>)
    ensures
        exists|e: Seq<(Seq<char>, serde_json::Value)>|
            #![trigger json_object_value(e)]
            tool_json(name, which_ran, out_success, stdout) == json_object_value(e) && keys_distinct(e) && e.len() == 3
                && entry_lookup(e, "name"@) == Some(json_string_value(name))
                && entry_lookup(e, "status"@) == Some(json_string_value(
                    if which_ran && out_success { "pass"@ } else { "warn"@ },
                ))
                && entry_lookup(e, "path"@) == Some(json_string_value(
                    if which_ran && out_success { output_text(stdout) } else { Seq::empty() },
                )),
{
    reveal_strlit("name");
    reveal_strlit("status");
    reveal_strlit("path");
    assert("name"@[0] == 'n' && "status"@[0] == 's' && "path"@[0] == 'p');
    let found = which_ran && out_success;
    let e = seq![
        ("name"@, json_string_value(name)),
        ("status"@, json_string_value(if found { "pass"@ } else { "warn"@ })),
        ("path"@, json_string_value(if found { output_text(stdout) } else { Seq::empty() })),
    ];
    assert(keys_distinct(e)) by {
        assert forall|i: int, j: int| 0 <= i < e.len() && 0 <= j < e.len() && i != j implies e[i].0 != e[j].0 by {
            assert(e[i].0[0] != e[j].0[0]);
        }
    }
    lemma_lookups(e);
    assert(e[0].0 == "name"@ && e[1].0 == "status"@ && e[2].0 == "path"@);
    assert(tool_json(name, which_ran, out_success, stdout) == json_object_value(e));
}

/// The shell report names the shell found and its path, or, where none was
/// found, the value of `SHELL` for both; `SHELL` holds that value always.
pub proof fn lemma_shell_members(shell_env: Seq<char>, found: Option<(Seq<char>, Seq<char>)>)
    ensures
        exists|e: Seq<(Seq<char>, serde_json::Value)>|
            #![trigger json_object_value(e)]
            shell_json(shell_env, found) == json_object_value(e) && keys_distinct(e) && e.len() == 3
                && entry_lookup(e, "SHELL"@) == Some(json_string_value(shell_env))
                && (found is None ==> entry_lookup(e, "shell"@) == Some(json_string_value(shell_env))
                    && entry_lookup(e, "path"@) == Some(json_string_value(shell_env)))
                && (found matches Some(f) ==> entry_lookup(e, "shell"@) == Some(json_string_value(f.0))
                    && entry_lookup(e, "path"@) == Some(json_string_value(f.1))),
{
    let shell = if found is Some { (found->0).0 } else { shell_env };
    let path = if found is Some { (found->0).1 } else { shell_env };
    let e = seq![
        ("shell"@, json_string_value(shell)),
        ("path"@, json_string_value(path)),
        ("SHELL"@, json_string_value(shell_env)),
    ];
    assert(shell_json(shell_env, found) == json_object_value(e));
    reveal_strlit("shell");
    reveal_strlit("path");
    reveal_strlit("SHELL");
    assert("shell"@[0] == 's' && "path"@[0] == 'p' && "SHELL"@[0] == 'S');
    assert(keys_distinct(e)) by {
        assert forall|i: int, j: int| 0 <= i < e.len() && 0 <= j < e.len() && i != j implies e[i].0 != e[j].0 by {
            assert(e[i].0[0] != e[j].0[0]);
        }
    }
    lemma_lookups(e);
    assert(e[0].0 == "shell"@ && e[1].0 == "path"@ && e[2].0 == "SHELL"@);
}

/// One tool's report, given what `which` left behind, if it ran.
pub fn tool_result(name: String, which: &Option<ProcessOutput>) -> (v: serde_json::Value)
    ensures
        v == match which {
            Some(o) => tool_json(name@, true, o.success, o.stdout@),
            None => tool_json(name@, false, false, Seq::empty()),
        },
{
    let (status, location) = match which {
        Some(o) => if o.success {
            ("pass".to_owned(), process_text(o.stdout.as_slice()))
        } else {
            ("warn".to_owned(), String::new())
        },
        None => ("warn".to_owned(), String::new()),
    };
    let ghost status_v = status@;
    let ghost location_v = location@;
    let mut entries: Vec<(String, serde_json::Value)> = Vec::new();
    entries.push(("name".to_owned(), json_string(name)));
    entries.push(("status".to_owned(), json_string(status)));
    entries.push(("path".to_owned(), json_string(location)));
    proof {
        assert(entry_views(entries@) =~= seq![
            ("name"@, json_string_value(name@)),
            ("status"@, json_string_value(status_v)),
            ("path"@, json_string_value(location_v)),
        ]);
    }
    json_object(entries)
}

/// The tools report: one entry per tool, in order.
pub fn tools_result(entries_in: Vec<serde_json::Value>) -> (v: serde_json::Value)
    ensures
        v == json_object_value(seq![("tools"@, json_array_value(entries_in@))]),
{
    let ghost items = entries_in@;
    let mut entries: Vec<(String, serde_json::Value)> = Vec::new();
    entries.push(("tools".to_owned(), json_array(entries_in)));
    proof {
        assert(entry_views(entries@) =~= seq![("tools"@, json_array_value(items))]);
    }
    json_object(entries)
}

/// The directory under which workspaces are recognised.
pub open spec fn dev_dir(home: Seq<char>) -> Seq<char> {
    home + "/dev"@
}

/// The first position from `i` on that does not hold a `/`.
pub open spec fn skip_slashes(s: Seq<char>, i: int) -> int
    decreases s.len() - i,
{
    if 0 <= i < s.len() && s[i] == '/' {
        skip_slashes(s, i + 1)
    } else {
        i
    }
}

/// The first position from `i` on that holds a `/`, or the end.
pub open spec fn component_end(s: Seq<char>, i: int) -> int
    decreases s.len() - i,
{
    if 0 <= i < s.len() && s[i] != '/' {
        component_end(s, i + 1)
    } else {
        i
    }
}

/// `prefix` begins `s`.
pub open spec fn begins_with(s: Seq<char>, prefix: Seq<char>) -> bool {
    prefix.len() <= s.len() && s.subrange(0, prefix.len() as int) == prefix
}

/// Workspace and project of a working directory: below `home/dev`, after
/// any slashes, the first path component is the workspace and everything
/// after the next slash is the project.
pub open spec fn location_of(cwd: Seq<char>, home: Seq<char>) -> (Option<Seq<char>>, Option<Seq<char>>) {
    let dev = dev_dir(home);
    if begins_with(cwd, dev) {
        let start = skip_slashes(cwd, dev.len() as int);
        let end = component_end(cwd, start);
        if end < cwd.len() {
            (Some(cwd.subrange(start, end)), Some(cwd.subrange(end + 1, cwd.len() as int)))
        } else if start < end {
            (Some(cwd.subrange(start, end)), None)
        } else {
            (None, None)
        }
    } else {
        (None, None)
    }
}

/// The component that starts at `i` ends where its first slash is.
proof fn lemma_component_end_at(s: Seq<char>, i: int, j: int)
    requires
        0 <= i <= j <= s.len(),
        forall|k: int| i <= k < j ==> s[k] != '/',
        j == s.len() || s[j] == '/',
    ensures
        component_end(s, i) == j,
    decreases j - i,
{
    if i < j {
        lemma_component_end_at(s, i + 1, j);
    }
}

/// A directory `ws` right below `home/dev` is workspace `ws` with no
/// project; anything below it, after one more slash, is the project.
pub proof fn lemma_location_of_workspace(home: Seq<char>, ws: Seq<char>, proj: Seq<char>)
    requires
        ws.len() > 0,
        forall|k: int| 0 <= k < ws.len() ==> ws[k] != '/',
    ensures
        location_of(dev_dir(home) + "/"@ + ws + "/"@ + proj, home) == (Some(ws), Some(proj)),
        location_of(dev_dir(home) + "/"@ + ws, home) == (Some(ws), None::<Seq<char>>),
{
    reveal_strlit("/");
    let dev = dev_dir(home);
    let d = dev.len() as int;
    let full = dev + "/"@ + ws + "/"@ + proj;
    let short = dev + "/"@ + ws;
    assert(full.subrange(0, d) =~= dev);
    assert(short.subrange(0, d) =~= dev);
    assert(full[d] == '/');
    assert(short[d] == '/');
    assert(full[d + 1] == ws[0]);
    assert(short[d + 1] == ws[0]);
    assert(skip_slashes(full, d + 1) == d + 1);
    assert(skip_slashes(full, d) == d + 1);
    assert(skip_slashes(short, d + 1) == d + 1);
    assert(skip_slashes(short, d) == d + 1);
    let end = d + 1 + ws.len();
    assert forall|k: int| d + 1 <= k < end implies full[k] != '/' by {
        assert(full[k] == ws[k - d - 1]);
    }
    assert(full[end] == '/');
    lemma_component_end_at(full, d + 1, end);
    assert forall|k: int| d + 1 <= k < end implies short[k] != '/' by {
        assert(short[k] == ws[k - d - 1]);
    }
    lemma_component_end_at(short, d + 1, end);
    assert(full.subrange(d + 1, end) =~= ws);
    assert(full.subrange(end + 1, full.len() as int) =~= proj);
    assert(short.subrange(d + 1, end) =~= ws);
}

/// Workspace and project of the working directory `cwd`.
pub fn workspace_and_project(cwd: &str, home: &str) -> (r: (Option<String>, Option<String>))
    ensures
        (opt_view(r.0), opt_view(r.1)) == location_of(cwd@, home@),
{
    let mut dev = home.to_owned();
    dev.append("/dev");
    let n = cwd.unicode_len();
    let d = dev.as_str().unicode_len();
    if d > n {
        return (None, None);
    }
    let head = cwd.substring_char(0, d).to_owned();
    if !(head == dev) {
        return (None, None);
    }
    let mut start = d;
    while start < n && cwd.get_char(start) == '/'
        invariant
            d <= start <= n,
            n == cwd@.len(),
            skip_slashes(cwd@, start as int) == skip_slashes(cwd@, d as int),
        decreases n - start,
    {
        start = start + 1;
    }
    let mut end = start;
    while end < n && cwd.get_char(end) != '/'
        invariant
            start <= end <= n,
            n == cwd@.len(),
            component_end(cwd@, end as int) == component_end(cwd@, start as int),
        decreases n - end,
    {
        end = end + 1;
    }
    if end < n {
        let ws = cwd.substring_char(start, end).to_owned();
        let proj = cwd.substring_char(end + 1, n).to_owned();
        (Some(ws), Some(proj))
    } else if start < end {
        (Some(cwd.substring_char(start, end).to_owned()), None)
    } else {
        (None, None)
    }
}

/// The working-directory report: the directory, and its workspace and
/// project, each `null` where there is none.
pub open spec fn pwd_json(cwd: Seq<char>, home: Seq<char>) -> serde_json::Value {
    json_object_value(
        seq![
            ("cwd"@, json_string_value(cwd)),
            ("workspace"@, json_opt_string_value(location_of(cwd, home).0)),
            ("project"@, json_opt_string_value(location_of(cwd, home).1)),
        ],
    )
}

/// The working-directory report.
pub fn pwd_result(cwd: String, home: &str) -> (v: serde_json::Value)
    ensures
        v == pwd_json(cwd@, home@),
{
    let (workspace, project) = workspace_and_project(cwd.as_str(), home);
    let ghost cwd_v = cwd@;
    let mut entries: Vec<(String, serde_json::Value)> = Vec::new();
    entries.push(("cwd".to_owned(), json_string(cwd)));
    entries.push(("workspace".to_owned(), json_opt_string(workspace)));
    entries.push(("project".to_owned(), json_opt_string(project)));
    proof {
        assert(entry_views(entries@) =~= seq![
            ("cwd"@, json_string_value(cwd_v)),
            ("workspace"@, json_opt_string_value(location_of(cwd_v, home@).0)),
            ("project"@, json_opt_string_value(location_of(cwd_v, home@).1)),
        ]);
    }
    json_object(entries)
}

} // verus!
