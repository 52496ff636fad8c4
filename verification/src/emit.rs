//! Preflight results: status labels, the markdown table and the JSON report.

use vstd::prelude::*;

use crate::json::{
    entry_views, json_array, json_array_value, json_clone, json_member, json_member_value,
    json_object, json_object_value, json_opt_string_value, json_or_null, json_string,
    json_string_value, json_text, json_text_value, keys_distinct, entry_lookup, pretty_json,
    pretty_json_text, lemma_lookup_at, lemma_lookup_absent,
};
use crate::text::opt_view;

verus! {

/// Outcome of a single check.
#[derive(Debug, Clone, Copy, PartialEq, Eq, Structural)]
pub enum Status {
    Pass,
    Warn,
    Fail,
    Skip,
    Error,
}

/// Lower-case name of a status, as it appears in the JSON report.
pub open spec fn status_name(s: Status) -> Seq<char> {
    match s {
        Status::Pass => "pass"@,
        Status::Warn => "warn"@,
        Status::Fail => "fail"@,
        Status::Skip => "skip"@,
        Status::Error => "error"@,
    }
}

/// Upper-case label of a status, as it appears in the markdown table.
pub open spec fn status_label(s: Status) -> Seq<char> {
    match s {
        Status::Pass => "PASS"@,
        Status::Warn => "WARN"@,
        Status::Fail => "FAIL"@,
        Status::Skip => "SKIP"@,
        Status::Error => "ERROR"@,
    }
}

/// A lower-case ASCII letter in upper case; any other character unchanged.
pub open spec fn upper_char(c: char) -> char {
    if 'a' <= c && c <= 'z' {
        ((c as u32) - 32) as char
    } else {
        c
    }
}

/// Text with its lower-case ASCII letters in upper case.
pub open spec fn upper(s: Seq<char>) -> Seq<char> {
    s.map_values(|c: char| upper_char(c))
}

/// The table label of a status is its JSON name in upper case, and no two
/// statuses share a name.
pub proof fn lemma_status_names(a: Status, b: Status)
    ensures
        status_label(a) == upper(status_name(a)),
        a != b ==> status_name(a) != status_name(b),
        a != b ==> status_label(a) != status_label(b),
{
    reveal_strlit("pass");
    reveal_strlit("warn");
    reveal_strlit("fail");
    reveal_strlit("skip");
    reveal_strlit("error");
    reveal_strlit("PASS");
    reveal_strlit("WARN");
    reveal_strlit("FAIL");
    reveal_strlit("SKIP");
    reveal_strlit("ERROR");
    assert(status_label(a) =~= upper(status_name(a)));
    if a != b {
        assert(status_name(a)[0] != status_name(b)[0] || status_name(a).len() != status_name(b).len()
            || status_name(a)[1] != status_name(b)[1]);
        assert(status_label(a)[0] != status_label(b)[0] || status_label(a).len() != status_label(b).len()
            || status_label(a)[1] != status_label(b)[1]);
    }
}

impl Status {
    pub fn as_str(&self) -> (r: &'static str)
        ensures
            r@ == status_name(*self),
    {
        match self {
            Status::Pass => "pass",
            Status::Warn => "warn",
            Status::Fail => "fail",
            Status::Skip => "skip",
            Status::Error => "error",
        }
    }

    pub fn label(&self) -> (r: &'static str)
        ensures
            r@ == status_label(*self),
    {
        match self {
            Status::Pass => "PASS",
            Status::Warn => "WARN",
            Status::Fail => "FAIL",
            Status::Skip => "SKIP",
            Status::Error => "ERROR",
        }
    }
}

/// The result of one check.
#[derive(Debug, Clone)]
pub struct CheckResult {
    pub name: String,
    pub status: Status,
    pub detail: String,
    pub data: Option<serde_json::Value>,
}

/// A check result as plain values.
pub struct CheckResultView {
    pub name: Seq<char>,
    pub status: Status,
    pub detail: Seq<char>,
    pub data: Option<serde_json::Value>,
}

impl View for CheckResult {
    type V = CheckResultView;

    open spec fn view(&self) -> CheckResultView {
        CheckResultView { name: self.name@, status: self.status, detail: self.detail@, data: self.data }
    }
}

/// The views of a list of check results.
pub open spec fn results_view(results: Seq<CheckResult>) -> Seq<CheckResultView> {
    results.map_values(|r: CheckResult| r@)
}

/// The first two lines of the markdown table.
pub open spec fn table_header() -> Seq<char> {
    "| Check | Status | Detail |\n"@ + "|---|---|---|\n"@
}

/// The table line of one result.
pub open spec fn table_row(r: CheckResultView) -> Seq<char> {
    "| "@ + r.name + " | "@ + status_label(r.status) + " | "@ + r.detail + " |\n"@
}

/// The table lines of a list of results, in order.
pub open spec fn table_rows(rs: Seq<CheckResultView>) -> Seq<char>
    decreases rs.len(),
{
    if rs.len() == 0 {
        Seq::empty()
    } else {
        table_rows(rs.drop_last()) + table_row(rs.last())
    }
}

/// The whole markdown table of a list of results.
pub open spec fn table_text(rs: Seq<CheckResultView>) -> Seq<char> {
    table_header() + table_rows(rs)
}

/// `needle` occurs in `text`, starting at `at`.
pub open spec fn occurs_at(needle: Seq<char>, text: Seq<char>, at: int) -> bool {
    0 <= at && at + needle.len() <= text.len() && text.subrange(at, at + needle.len()) == needle
}

/// `needle` occurs somewhere in `text`.
pub open spec fn occurs_in(needle: Seq<char>, text: Seq<char>) -> bool {
    exists|at: int| occurs_at(needle, text, at)
}

/// The lines of two lists of results are the lines of each, one after the
/// other.
pub proof fn lemma_table_rows_append(a: Seq<CheckResultView>, b: Seq<CheckResultView>)
    ensures
        table_rows(a + b) == table_rows(a) + table_rows(b),
    decreases b.len(),
{
    if b.len() == 0 {
        assert(a + b =~= a);
        assert(table_rows(a) + table_rows(b) =~= table_rows(a));
    } else {
        lemma_table_rows_append(a, b.drop_last());
        assert((a + b).drop_last() =~= a + b.drop_last());
        assert((a + b).last() == b.last());
        assert(table_rows(a + b) =~= table_rows(a) + table_rows(b));
    }
}

/// The markdown table starts with its header, and shows the name, the
/// status label and the detail of every result.
pub proof fn lemma_table_shows_every_result(rs: Seq<CheckResultView>, i: int)
    requires
        0 <= i < rs.len(),
    ensures
        table_text(rs).subrange(0, table_header().len() as int) == table_header(),
        occurs_in(rs[i].name, table_text(rs)),
        occurs_in(status_label(rs[i].status), table_text(rs)),
        occurs_in(rs[i].detail, table_text(rs)),
{
    reveal_strlit("| ");
    reveal_strlit(" | ");
    let r = rs[i];
    let before = rs.subrange(0, i);
    let after = rs.subrange(i + 1, rs.len() as int);
    assert(rs =~= before + seq![r] + after);
    lemma_table_rows_append(before + seq![r], after);
    lemma_table_rows_append(before, seq![r]);
    assert(seq![r].drop_last() =~= Seq::<CheckResultView>::empty());
    assert(table_rows(Seq::<CheckResultView>::empty()) =~= Seq::<char>::empty());
    assert(table_rows(seq![r]) =~= table_row(r));
    let text = table_text(rs);
    let row = table_row(r);
    let prefix = table_header() + table_rows(before);
    assert(text =~= prefix + row + table_rows(after));
    assert(text.subrange(0, table_header().len() as int) =~= table_header());
    let label = status_label(r.status);
    let name_in_row: int = 2;
    let label_in_row: int = name_in_row + r.name.len() + 3;
    let detail_in_row: int = label_in_row + label.len() + 3;
    assert(row.subrange(name_in_row, name_in_row + r.name.len()) =~= r.name);
    assert(row.subrange(label_in_row, label_in_row + label.len()) =~= label);
    assert(row.subrange(detail_in_row, detail_in_row + r.detail.len()) =~= r.detail);
    let start: int = prefix.len() as int;
    assert(text.subrange(start + name_in_row, start + name_in_row + r.name.len()) =~= r.name);
    assert(occurs_at(r.name, text, start + name_in_row));
    assert(text.subrange(start + label_in_row, start + label_in_row + label.len()) =~= label);
    assert(occurs_at(label, text, start + label_in_row));
    assert(text.subrange(start + detail_in_row, start + detail_in_row + r.detail.len()) =~= r.detail);
    assert(occurs_at(r.detail, text, start + detail_in_row));
}

/// The table of no results is its two header lines, and adding a result at
/// the end of the list adds its line at the end of the table: `| `, the
/// name, ` | `, the status label, ` | `, the detail, ` |` and a newline.
pub proof fn lemma_table_lines(rs: Seq<CheckResultView>, x: CheckResultView)
    ensures
        table_text(Seq::empty()) == "| Check | Status | Detail |\n"@ + "|---|---|---|\n"@,
        table_text(rs.push(x)) == table_text(rs) + "| "@ + x.name + " | "@ + status_label(x.status) + " | "@
            + x.detail + " |\n"@,
{
    assert(rs.push(x).drop_last() =~= rs);
    assert(table_text(Seq::empty()) =~= "| Check | Status | Detail |\n"@ + "|---|---|---|\n"@);
    assert(table_text(rs.push(x)) =~= table_text(rs) + "| "@ + x.name + " | "@ + status_label(x.status) + " | "@
        + x.detail + " |\n"@);
}

/// Renders check results as a markdown table: a header, then one line per
/// result with its name, status label and detail.
pub fn markdown_table(results: &[CheckResult]) -> (out: String)
    ensures
        out@ == table_text(results_view(results@)),
{
    let mut out = "| Check | Status | Detail |\n".to_owned();
    out.append("|---|---|---|\n");
    let n = results.len();
    for i in 0..n
        invariant
            n == results@.len(),
            out@ == table_text(results_view(results@.take(i as int))),
    {
        let r = &results[i];
        out.append("| ");
        out.append(r.name.as_str());
        out.append(" | ");
        out.append(r.status.label());
        out.append(" | ");
        out.append(r.detail.as_str());
        out.append(" |\n");
        proof {
            let rs = results_view(results@.take(i + 1));
            assert(rs.drop_last() =~= results_view(results@.take(i as int)));
            assert(rs.last() == results@[i as int]@);
        }
    }
    proof {
        assert(results@.take(n as int) =~= results@);
    }
    out
}

/// Emits reports for one pipeline.
pub struct Emitter {
    pipeline: String,
}

/// The JSON members of one result: name, status and detail, and the data
/// where there is any.
pub open spec fn result_entries(r: CheckResultView) -> Seq<(Seq<char>, serde_json::Value)> {
    let base = seq![
        ("name"@, json_string_value(r.name)),
        ("status"@, json_string_value(status_name(r.status))),
        ("detail"@, json_string_value(r.detail)),
    ];
    match r.data {
        Some(d) => base.push(("data"@, d)),
        None => base,
    }
}

/// The JSON object of one result.
pub open spec fn result_json(r: CheckResultView) -> serde_json::Value {
    json_object_value(result_entries(r))
}

/// The JSON report: when it was made, for which pipeline, and one object per
/// result, in order.
pub open spec fn report_json(pipeline: Seq<char>, timestamp: Seq<char>, rs: Seq<CheckResultView>) -> serde_json::Value {
    json_object_value(
        seq![
            ("timestamp"@, json_string_value(timestamp)),
            ("pipeline"@, json_string_value(pipeline)),
            ("results"@, json_array_value(rs.map_values(|r: CheckResultView| result_json(r)))),
        ],
    )
}

/// Every result object of the report has exactly the members `name`,
/// `status` and `detail`, holding the result's name, the name of its status
/// and its detail text, plus `data` exactly where the result carries data.
pub proof fn lemma_result_json_members(r: CheckResultView)
    ensures
        exists|e: Seq<(Seq<char>, serde_json::Value)>|
            #![trigger json_object_value(e)]
            result_json(r) == json_object_value(e) && keys_distinct(e)
                && entry_lookup(e, "name"@) == Some(json_string_value(r.name))
                && entry_lookup(e, "status"@) == Some(json_string_value(status_name(r.status)))
                && entry_lookup(e, "detail"@) == Some(json_string_value(r.detail))
                && entry_lookup(e, "data"@) == r.data
                && e.len() == (if r.data is Some { 4int } else { 3int }),
{
    reveal_strlit("name");
    reveal_strlit("status");
    reveal_strlit("detail");
    reveal_strlit("data");
    let e = result_entries(r);
    assert(e[0].0 == "name"@ && e[1].0 == "status"@ && e[2].0 == "detail"@);
    assert("name"@[0] == 'n' && "status"@[0] == 's' && "detail"@[0] == 'd' && "data"@[0] == 'd');
    assert("detail"@[1] == 'e' && "data"@[1] == 'a');
    assert(keys_distinct(e)) by {
        assert forall|i: int, j: int| 0 <= i < e.len() && 0 <= j < e.len() && i != j implies e[i].0 != e[j].0 by {
            assert(e[i].0[0] != e[j].0[0] || e[i].0[1] != e[j].0[1]);
        }
    }
    lemma_lookup_at(e, 0);
    lemma_lookup_at(e, 1);
    lemma_lookup_at(e, 2);
    if r.data is Some {
        assert(e[3].0 == "data"@);
        lemma_lookup_at(e, 3);
    } else {
        assert forall|i: int| 0 <= i < e.len() implies e[i].0 != "data"@ by {
            assert(e[i].0[1] != "data"@[1] || e[i].0[0] != "data"@[0]);
        }
        lemma_lookup_absent(e, "data"@);
    }
    assert(result_json(r) == json_object_value(e));
}

/// The report has the members `timestamp`, `pipeline` and `results`: the
/// time stamp, the pipeline's name, and an array with one object per result,
/// the k-th object being the k-th result's.
pub proof fn lemma_report_json_members(pipeline: Seq<char>, timestamp: Seq<char>, rs: Seq<CheckResultView>)
    ensures
        exists|e: Seq<(Seq<char>, serde_json::Value)>, items: Seq<serde_json::Value>|
            #![trigger json_object_value(e), json_array_value(items)]
            report_json(pipeline, timestamp, rs) == json_object_value(e) && keys_distinct(e) && e.len() == 3
                && entry_lookup(e, "timestamp"@) == Some(json_string_value(timestamp))
                && entry_lookup(e, "pipeline"@) == Some(json_string_value(pipeline))
                && entry_lookup(e, "results"@) == Some(json_array_value(items))
                && items.len() == rs.len()
                && (forall|k: int| 0 <= k < rs.len() ==> #[trigger] items[k] == result_json(rs[k])),
{
    reveal_strlit("timestamp");
    reveal_strlit("pipeline");
    reveal_strlit("results");
    let items = rs.map_values(|r: CheckResultView| result_json(r));
    let e = seq![
        ("timestamp"@, json_string_value(timestamp)),
        ("pipeline"@, json_string_value(pipeline)),
        ("results"@, json_array_value(items)),
    ];
    assert("timestamp"@[0] == 't' && "pipeline"@[0] == 'p' && "results"@[0] == 'r');
    assert(keys_distinct(e)) by {
        assert forall|i: int, j: int| 0 <= i < e.len() && 0 <= j < e.len() && i != j implies e[i].0 != e[j].0 by {
            assert(e[i].0[0] != e[j].0[0]);
        }
    }
    lemma_lookup_at(e, 0);
    lemma_lookup_at(e, 1);
    lemma_lookup_at(e, 2);
    assert(report_json(pipeline, timestamp, rs) == json_object_value(e));
}

/// A decimal digit.
pub open spec fn is_digit(c: char) -> bool {
    '0' <= c && c <= '9'
}

/// Text made of decimal digits only.
pub open spec fn all_digits(s: Seq<char>) -> bool {
    forall|k: int| 0 <= k < s.len() ==> is_digit(#[trigger] s[k])
}

/// A year in RFC 3339 text: four digits, or a sign and at least four digits.
pub open spec fn year_text(y: Seq<char>) -> bool {
    ||| (y.len() == 4 && all_digits(y))
    ||| (y.len() >= 5 && (y[0] == '+' || y[0] == '-') && all_digits(y.drop_first()))
}

/// `-MM-DDTHH:MM:SS`: month, day, hour, minute and second of two digits.
pub open spec fn clock_text(c: Seq<char>) -> bool {
    &&& c.len() == 15
    &&& c[0] == '-' && is_digit(c[1]) && is_digit(c[2])
    &&& c[3] == '-' && is_digit(c[4]) && is_digit(c[5])
    &&& c[6] == 'T' && is_digit(c[7]) && is_digit(c[8])
    &&& c[9] == ':' && is_digit(c[10]) && is_digit(c[11])
    &&& c[12] == ':' && is_digit(c[13]) && is_digit(c[14])
}

/// No fraction of a second, or a point and three, six or nine digits.
pub open spec fn fraction_text(f: Seq<char>) -> bool {
    f.len() == 0 || ((f.len() == 4 || f.len() == 7 || f.len() == 10) && f[0] == '.' && all_digits(f.drop_first()))
}

/// An RFC 3339 time stamp in UTC: year, clock, optional fraction, `+00:00`.
pub open spec fn utc_timestamp_form(t: Seq<char>) -> bool {
    exists|y: Seq<char>, c: Seq<char>, f: Seq<char>|
        #![trigger year_text(y), clock_text(c), fraction_text(f)]
        year_text(y) && clock_text(c) && fraction_text(f) && t == y + c + f + "+00:00"@
}

/// Calls `SystemTime::now`, converts it with chrono's
/// `From<SystemTime> for DateTime<Utc>` (an instant before 1970 becomes a
/// negative time stamp) and renders it with `DateTime::to_rfc3339`. Which
/// instant it is, is the machine's; the form of the text is chrono's RFC 3339
/// in UTC.
#[verifier::external_body]
fn now_rfc3339() -> (r: String)
    ensures
        utc_timestamp_form(r@),
{
    chrono::DateTime::<chrono::Utc>::from(std::time::SystemTime::now()).to_rfc3339()
}

/// The JSON object of one result.
fn result_to_json(r: &CheckResult) -> (v: serde_json::Value)
    ensures
        v == result_json(r@),
{
    let mut entries: Vec<(String, serde_json::Value)> = Vec::new();
    entries.push(("name".to_owned(), json_string(r.name.clone())));
    entries.push(("status".to_owned(), json_string(r.status.as_str().to_owned())));
    entries.push(("detail".to_owned(), json_string(r.detail.clone())));
    match &r.data {
        Some(d) => {
            entries.push(("data".to_owned(), json_clone(d)));
        },
        None => {},
    }
    proof {
        assert(entry_views(entries@) =~= result_entries(r@));
    }
    json_object(entries)
}

impl Emitter {
    pub fn new(pipeline: String) -> (e: Self)
        ensures
            e.pipeline()@ == pipeline@,
    {
        Emitter { pipeline }
    }

    /// The pipeline this emitter reports on.
    pub closed spec fn pipeline(&self) -> String {
        self.pipeline
    }

    /// The JSON report of `results`, stamped with `timestamp`.
    pub fn to_json_at(&self, results: &[CheckResult], timestamp: String) -> (v: serde_json::Value)
        ensures
            v == report_json(self.pipeline()@, timestamp@, results_view(results@)),
    {
        let mut items: Vec<serde_json::Value> = Vec::new();
        let n = results.len();
        for i in 0..n
            invariant
                n == results@.len(),
                items@ == results_view(results@.take(i as int)).map_values(|r: CheckResultView| result_json(r)),
        {
            let item = result_to_json(&results[i]);
            items.push(item);
            proof {
                assert(results_view(results@.take(i + 1)) =~= results_view(results@.take(i as int)).push(results@[i as int]@));
            }
        }
        proof {
            assert(results@.take(n as int) =~= results@);
        }
        let mut entries: Vec<(String, serde_json::Value)> = Vec::new();
        entries.push(("timestamp".to_owned(), json_string(timestamp)));
        entries.push(("pipeline".to_owned(), json_string(self.pipeline.clone())));
        entries.push(("results".to_owned(), json_array(items)));
        proof {
            assert(entry_views(entries@) =~= seq![
                ("timestamp"@, json_string_value(timestamp@)),
                ("pipeline"@, json_string_value(self.pipeline()@)),
                ("results"@, json_array_value(results_view(results@).map_values(|r: CheckResultView| result_json(r)))),
            ]);
        }
        json_object(entries)
    }

    /// The JSON report of `results`, stamped with the current time.
    pub fn to_json(&self, results: &[CheckResult]) -> (v: serde_json::Value)
        ensures
            exists|timestamp: Seq<char>|
                utc_timestamp_form(timestamp) && v == report_json(self.pipeline()@, timestamp, results_view(results@)),
    {
        let timestamp = now_rfc3339();
        self.to_json_at(results, timestamp)
    }

    /// The JSON report of `results`, stamped with the current time, as
    /// indented text.
    pub fn report_text(&self, results: &[CheckResult]) -> (r: String)
        ensures
            exists|timestamp: Seq<char>|
                utc_timestamp_form(timestamp)
                    && r@ == pretty_json_text(report_json(self.pipeline()@, timestamp, results_view(results@))),
    {
        let v = self.to_json(results);
        match pretty_json(&v) {
            Some(text) => text,
            None => String::new(),
        }
    }
}

/// How a pipeline step ended.
#[derive(Debug, Clone, Copy, PartialEq, Eq, Structural)]
pub enum StepOutcome {
    /// The step ran and returned an output.
    Succeeded,
    /// The step ran and failed.
    Failed,
    /// The step was not run.
    Rejected,
}

/// One step of a pipeline run.
#[derive(Debug, Clone)]
pub struct StepRecord {
    pub name: String,
    pub outcome: StepOutcome,
    pub output: Option<serde_json::Value>,
}

/// The text under `key` in a JSON object, if there is text there.
pub open spec fn member_text_value(v: serde_json::Value, key: Seq<char>) -> Option<Seq<char>> {
    match json_member_value(v, key) {
        Some(m) => json_text_value(m),
        None => None,
    }
}

/// The status a check names: `warn`, `skip` and `fail` name themselves,
/// anything else is a pass.
pub open spec fn status_of_text(t: Seq<char>) -> Status {
    if t == "warn"@ {
        Status::Warn
    } else if t == "skip"@ {
        Status::Skip
    } else if t == "fail"@ {
        Status::Fail
    } else {
        Status::Pass
    }
}

/// A check that reports the JSON name of a status as its `status` text gets
/// that status back, for every status but `Error`; `error` is no status a
/// check reports, so it reads as a pass.
pub proof fn lemma_status_text_round_trip(s: Status)
    ensures
        s != Status::Error ==> status_of_text(status_name(s)) == s,
        s == Status::Error ==> status_of_text(status_name(s)) == Status::Pass,
{
    reveal_strlit("pass");
    reveal_strlit("warn");
    reveal_strlit("fail");
    reveal_strlit("skip");
    reveal_strlit("error");
    assert("pass"@[0] == 'p' && "warn"@[0] == 'w' && "fail"@[0] == 'f' && "skip"@[0] == 's' && "error"@[0] == 'e');
}

/// The status a check reports in its output: the one its text under
/// `status` names, and a pass where there is no such text.
pub open spec fn reported_status(output: serde_json::Value) -> Status {
    match member_text_value(output, "status"@) {
        Some(t) => status_of_text(t),
        None => Status::Pass,
    }
}

/// The output of a step, `null` where it has none.
pub open spec fn step_output(output: Option<serde_json::Value>) -> serde_json::Value {
    match output {
        Some(v) => v,
        None => json_opt_string_value(None),
    }
}

/// The check result of a step that ran: the status its output reports if
/// it succeeded, an error otherwise; the detail its output gives, or none.
pub open spec fn step_result(s: StepRecord) -> CheckResultView {
    let out = step_output(s.output);
    CheckResultView {
        name: s.name@,
        status: if s.outcome == StepOutcome::Succeeded {
            reported_status(out)
        } else {
            Status::Error
        },
        detail: match member_text_value(out, "detail"@) {
            Some(d) => d,
            None => Seq::empty(),
        },
        data: Some(out),
    }
}

/// The check results of a run: one per step that was not rejected, in order.
pub open spec fn step_results(steps: Seq<StepRecord>) -> Seq<CheckResultView>
    decreases steps.len(),
{
    if steps.len() == 0 {
        Seq::empty()
    } else if steps.last().outcome == StepOutcome::Rejected {
        step_results(steps.drop_last())
    } else {
        step_results(steps.drop_last()).push(step_result(steps.last()))
    }
}

proof fn lemma_step_results_are_filtered(steps: Seq<StepRecord>)
    ensures
        step_results(steps) =~= steps.filter(|s: StepRecord| s.outcome != StepOutcome::Rejected).map_values(
            |s: StepRecord| step_result(s),
        ),
    decreases steps.len(),
{
    reveal(Seq::filter);
    if steps.len() > 0 {
        lemma_step_results_are_filtered(steps.drop_last());
    }
}

/// The results of a run are those of its steps that were not rejected, one
/// each and in order: as many results as such steps, and the k-th result is
/// the k-th such step's.
pub proof fn lemma_results_of_run(steps: Seq<StepRecord>)
    ensures
        step_results(steps).len() == steps.filter(|s: StepRecord| s.outcome != StepOutcome::Rejected).len(),
        forall|k: int|
            0 <= k < step_results(steps).len() ==> #[trigger] step_results(steps)[k] == step_result(
                steps.filter(|s: StepRecord| s.outcome != StepOutcome::Rejected)[k],
            ),
{
    lemma_step_results_are_filtered(steps);
}

/// The text under `key` in a JSON object.
pub fn member_text(v: &serde_json::Value, key: &str) -> (r: Option<String>)
    ensures
        opt_view(r) == member_text_value(*v, key@),
        forall|entries: Seq<(Seq<char>, serde_json::Value)>, t: Seq<char>|
            *v == json_object_value(entries) && keys_distinct(entries)
                && entry_lookup(entries, key@) == Some(json_string_value(t))
                ==> opt_view(r) == Some(t),
{
    match json_member(v, key) {
        Some(m) => json_text(&m),
        None => None,
    }
}

/// The check result of a step that ran.
pub fn check_result_from_step(step: &StepRecord) -> (r: CheckResult)
    ensures
        r@ == step_result(*step),
        forall|entries: Seq<(Seq<char>, serde_json::Value)>, t: Seq<char>|
            step.outcome == StepOutcome::Succeeded && step.output == Some(json_object_value(entries))
                && keys_distinct(entries) && entry_lookup(entries, "status"@) == Some(json_string_value(t))
                ==> r.status == status_of_text(t),
        forall|entries: Seq<(Seq<char>, serde_json::Value)>, d: Seq<char>|
            step.output == Some(json_object_value(entries)) && keys_distinct(entries)
                && entry_lookup(entries, "detail"@) == Some(json_string_value(d))
                ==> r.detail@ == d,
{
    let output = match &step.output {
        Some(v) => json_or_null(Some(json_clone(v))),
        None => json_or_null(None),
    };
    let status = if step.outcome == StepOutcome::Succeeded {
        match member_text(&output, "status") {
            Some(t) => if t == "warn".to_owned() {
                Status::Warn
            } else if t == "skip".to_owned() {
                Status::Skip
            } else if t == "fail".to_owned() {
                Status::Fail
            } else {
                Status::Pass
            },
            None => Status::Pass,
        }
    } else {
        Status::Error
    };
    let detail = match member_text(&output, "detail") {
        Some(d) => d,
        None => String::new(),
    };
    CheckResult { name: step.name.clone(), status, detail, data: Some(output) }
}

/// The check results of a run: rejected steps are left out.
pub fn check_results_from_steps(steps: &[StepRecord]) -> (r: Vec<CheckResult>)
    ensures
        results_view(r@) == step_results(steps@),
        r@.len() == steps@.filter(|s: StepRecord| s.outcome != StepOutcome::Rejected).len(),
        forall|k: int|
            0 <= k < r@.len() ==> #[trigger] r@[k]@ == step_result(
                steps@.filter(|s: StepRecord| s.outcome != StepOutcome::Rejected)[k],
            ),
{
    let mut out: Vec<CheckResult> = Vec::new();
    let n = steps.len();
    for i in 0..n
        invariant
            n == steps@.len(),
            results_view(out@) == step_results(steps@.take(i as int)),
    {
        let ghost before = out@;
        let step = &steps[i];
        if step.outcome != StepOutcome::Rejected {
            out.push(check_result_from_step(step));
            proof {
                assert(results_view(out@) =~= results_view(before).push(out@.last()@));
            }
        }
        proof {
            assert(steps@.take(i + 1).drop_last() =~= steps@.take(i as int));
        }
    }
    proof {
        assert(steps@.take(n as int) =~= steps@);
        lemma_results_of_run(steps@);
        assert forall|k: int| 0 <= k < out@.len() implies #[trigger] out@[k]@ == step_result(
            steps@.filter(|s: StepRecord| s.outcome != StepOutcome::Rejected)[k],
        ) by {
            assert(results_view(out@)[k] == out@[k]@);
            assert(step_results(steps@)[k] == step_result(
                steps@.filter(|s: StepRecord| s.outcome != StepOutcome::Rejected)[k],
            ));
        }
    }
    out
}

/// Where a preflight report goes.
#[derive(Debug, Clone, Copy, PartialEq, Eq, Structural)]
pub enum EmitMode {
    Json,
    Table,
    Both,
}

impl EmitMode {
    /// The JSON report is written in every mode but the table-only one.
    pub fn writes_json(&self) -> (r: bool)
        ensures
            r == !(*self is Table),
    {
        match self {
            EmitMode::Table => false,
            _ => true,
        }
    }

    /// The markdown table is printed in every mode but the JSON-only one.
    pub fn prints_table(&self) -> (r: bool)
        ensures
            r == !(*self is Json),
    {
        match self {
            EmitMode::Json => false,
            _ => true,
        }
    }
}

} // verus!
