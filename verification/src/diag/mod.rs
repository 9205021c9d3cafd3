//! Diagnostics of a pipeline: nine checks, each of which reports lines and issues.
//!
//! A check takes a snapshot of what it is about and turns it into a [`DiagResult`]. Measurements
//! that are not whole come as [`Reading`]s: the text to show, and the whole numbers around the
//! value, by which it is held against a threshold.

use vstd::prelude::*;
use vstd::string::*;

use crate::json::{json_text, print_json, Json};
use crate::text::{join, joined, texts};

pub mod outputs;
pub mod pipeline;
pub mod system;
pub mod transport;

verus! {

// ── Reports ──────────────────────────────────────────────────────────────────

/// What a check found.
#[derive(Debug)]
pub struct DiagResult {
    pub index: u32,
    pub name: String,
    pub description: String,
    /// What was looked at, as a command.
    pub command: String,
    /// 0 = ok, non-zero = the check detected a problem.
    pub exit_code: i32,
    pub stdout: String,
    pub stderr: String,
    pub duration_ms: u64,
    pub issues: Vec<String>,
    pub help: Option<String>,
}

/// The lines that a check shows and the issues that it raises, in order.
pub struct Report {
    pub lines: Seq<Seq<char>>,
    pub issues: Seq<Seq<char>>,
}

impl Report {
    /// Nothing shown and nothing raised.
    pub open spec fn empty() -> Report {
        Report { lines: Seq::empty(), issues: Seq::empty() }
    }

    /// The report with one more line.
    pub open spec fn line(self, text: Seq<char>) -> Report {
        Report { lines: self.lines.push(text), issues: self.issues }
    }

    /// The report with one more issue.
    pub open spec fn issue(self, text: Seq<char>) -> Report {
        Report { lines: self.lines, issues: self.issues.push(text) }
    }

    /// The report with one more issue where there is reason to raise it.
    pub open spec fn issue_if(self, raised: bool, text: Seq<char>) -> Report {
        if raised {
            self.issue(text)
        } else {
            self
        }
    }
}

/// A report in the making.
pub struct Findings {
    lines: Vec<String>,
    issues: Vec<String>,
}

impl View for Findings {
    type V = Report;

    closed spec fn view(&self) -> Report {
        Report { lines: texts(self.lines@), issues: texts(self.issues@) }
    }
}

impl Findings {
    pub fn new() -> (r: Self)
        ensures
            r@ == Report::empty(),
    {
        let r: Findings = Findings { lines: Vec::new(), issues: Vec::new() };
        assert(r@.lines =~= Report::empty().lines);
        assert(r@.issues =~= Report::empty().issues);
        r
    }

    /// Shows one more line.
    pub fn line(&mut self, text: String)
        ensures
            final(self)@ == old(self)@.line(text@),
    {
        self.lines.push(text);
        assert(self@.lines =~= old(self)@.lines.push(text@));
    }

    /// Raises one more issue.
    pub fn issue(&mut self, text: String)
        ensures
            final(self)@ == old(self)@.issue(text@),
    {
        self.issues.push(text);
        assert(self@.issues =~= old(self)@.issues.push(text@));
    }

    /// How many lines are shown so far.
    pub fn line_count(&self) -> (r: usize)
        ensures
            r == self@.lines.len(),
    {
        self.lines.len()
    }

    /// The result of the check.
    pub fn finish(self, index: u32, name: &str, desc: &str, cmd: &str, elapsed: u64) -> (r:
        DiagResult)
        ensures
            result_is(r, index, name@, desc@, cmd@, self@, elapsed),
    {
        let stdout: String = join(&self.lines, "\n");
        assert(texts(self.issues@).len() == self.issues@.len());
        DiagResult::ok(index, name, desc, cmd, stdout, elapsed).with_issues(self.issues)
    }
}

/// The exit code of a check that raised so many issues.
pub open spec fn code_of(issues: nat) -> i32 {
    if issues == 0 {
        0
    } else {
        1
    }
}

/// Whether a result is that of a check that found the given report. Its exit code tells whether
/// there is an issue.
pub open spec fn result_is(
    r: DiagResult,
    index: u32,
    name: Seq<char>,
    desc: Seq<char>,
    cmd: Seq<char>,
    report: Report,
    elapsed: u64,
) -> bool {
    &&& r.index == index
    &&& r.name@ == name
    &&& r.description@ == desc
    &&& r.command@ == cmd
    &&& r.exit_code == code_of(report.issues.len())
    &&& (r.exit_code == 0) == (report.issues.len() == 0)
    &&& r.stdout@ == joined(report.lines, "\n"@)
    &&& r.stderr@ == ""@
    &&& r.duration_ms == elapsed
    &&& texts(r.issues@) == report.issues
    &&& r.help is None
}

impl DiagResult {
    /// A result without issues.
    pub fn ok(index: u32, name: &str, desc: &str, cmd: &str, stdout: String, elapsed: u64) -> (r:
        Self)
        ensures
            r.index == index,
            r.name@ == name@,
            r.description@ == desc@,
            r.command@ == cmd@,
            r.exit_code == 0,
            r.stdout@ == stdout@,
            r.stderr@ == ""@,
            r.duration_ms == elapsed,
            r.issues@ == Seq::<String>::empty(),
            r.help is None,
    {
        DiagResult {
            index,
            name: name.to_string(),
            description: desc.to_string(),
            command: cmd.to_string(),
            exit_code: 0,
            stdout,
            stderr: "".to_string(),
            duration_ms: elapsed,
            issues: Vec::new(),
            help: None,
        }
    }

    /// The result with the given issues, and the exit code that goes with them.
    pub fn with_issues(self, issues: Vec<String>) -> (r: Self)
        ensures
            r == (DiagResult { issues, exit_code: code_of(issues@.len()), ..self }),
    {
        let exit_code: i32 = if issues.is_empty() {
            0
        } else {
            1
        };
        DiagResult {
            index: self.index,
            name: self.name,
            description: self.description,
            command: self.command,
            exit_code,
            stdout: self.stdout,
            stderr: self.stderr,
            duration_ms: self.duration_ms,
            issues,
            help: self.help,
        }
    }
}

// ── Readings ─────────────────────────────────────────────────────────────────

/// A measurement that is not whole.
#[derive(Debug, Clone)]
pub struct Reading {
    /// The value with the number of decimals that is shown.
    pub text: String,
    /// The greatest whole number that is not above the value.
    pub floor: i64,
    /// The least whole number that is not below the value.
    pub ceil: i64,
}

impl Reading {
    /// Whether the value is at least `n`.
    pub open spec fn at_least(self, n: i64) -> bool {
        self.floor >= n
    }

    /// Whether the value is more than `n`.
    pub open spec fn above(self, n: i64) -> bool {
        self.ceil > n
    }
}

/// A text where there is reason for it, else nothing.
pub open spec fn where_so(reason: bool, text: Seq<char>) -> Seq<Seq<char>> {
    if reason {
        seq![text]
    } else {
        Seq::empty()
    }
}

/// `used` in percent of `total`, rounded down; 0 of nothing.
pub open spec fn percent(used: int, total: int) -> int {
    if total == 0 {
        0
    } else {
        used * 100 / total
    }
}

/// `used` in percent of `total`.
pub fn percent_of(used: u64, total: u64) -> (r: u64)
    requires
        used * 100 <= u64::MAX,
    ensures
        r == percent(used as int, total as int),
{
    if total == 0 {
        0
    } else {
        let r: u64 = used * 100 / total;
        r
    }
}

// ── Events ───────────────────────────────────────────────────────────────────

/// A named server-sent event that carries `data`.
pub open spec fn sse_text(event: Seq<char>, data: Seq<char>) -> Seq<char> {
    "event: "@ + event + "\ndata: "@ + data + "\n\n"@
}

/// A named server-sent event that carries a JSON value.
pub fn sse_event(event: &str, data: &Json) -> (r: String)
    ensures
        r@ == sse_text(event@, json_text(*data)),
{
    sse_event_of(event, print_json(data).as_str())
}

/// A named server-sent event that carries `data`.
pub fn sse_event_of(event: &str, data: &str) -> (r: String)
    ensures
        r@ == sse_text(event@, data@),
{
    "event: ".to_string().concat(event).concat("\ndata: ").concat(data).concat("\n\n")
}

/// Whether a value is the announcement of a check.
pub open spec fn announces(j: Json, index: u32, name: Seq<char>, description: Seq<char>) -> bool {
    &&& j matches Json::Object(fields) && fields@.len() == 3
    &&& j.u64_field("index"@) == Some(index as u64)
    &&& j.text_field("name"@) == Some(name)
    &&& j.text_field("description"@) == Some(description)
}

fn number_item(name: &str, n: u64) -> (r: (String, Json))
    ensures
        r.0@ == name@,
        r.1 == Json::Unsigned(n),
{
    (name.to_string(), Json::Unsigned(n))
}

fn text_item(name: &str, text: &str) -> (r: (String, Json))
    ensures
        r.0@ == name@,
        r.1.as_text() == Some(text@),
{
    (name.to_string(), Json::Text(text.to_string()))
}

/// The announcement of a check.
pub fn running_data(index: u32, name: &str, description: &str) -> (r: Json)
    ensures
        announces(r, index, name@, description@),
{
    let mut fields: Vec<(String, Json)> = Vec::new();
    fields.push(number_item("index", index as u64));
    fields.push(text_item("name", name));
    fields.push(text_item("description", description));
    proof {
        reveal_strlit("index");
        reveal_strlit("name");
        reveal_strlit("description");
        assert("index"@.len() != "name"@.len());
        assert("index"@.len() != "description"@.len());
        assert("name"@.len() != "description"@.len());
        reveal_with_fuel(crate::json::field_in, 4);
        let f = fields@;
        assert(f.skip(1)[0] == f[1]);
        assert(f.skip(1).skip(1)[0] == f[2]);
    }
    Json::Object(fields)
}

/// The event that announces a check.
pub fn running_event(index: u32, name: &str, description: &str) -> (r: String)
    ensures
        exists|j: Json|
            announces(j, index, name@, description@) && r@ == sse_text(
                "running"@,
                #[trigger] json_text(j),
            ),
{
    let data: Json = running_data(index, name, description);
    sse_event("running", &data)
}

/// An integer as a value.
pub open spec fn integer_json(n: int) -> Json {
    if n < 0 {
        Json::Negative(n as i64)
    } else {
        Json::Unsigned(n as u64)
    }
}

/// Whether a field has the given name and text.
pub open spec fn is_text_item(item: (String, Json), name: Seq<char>, text: Seq<char>) -> bool {
    item.0@ == name && item.1.as_text() == Some(text)
}

/// Whether a value lists the given texts.
pub open spec fn lists_texts(j: Json, items: Seq<Seq<char>>) -> bool {
    j matches Json::List(v) && v@.len() == items.len() && forall|i: int|
        0 <= i < items.len() ==> (#[trigger] v@[i]).as_text() == Some(items[i])
}

/// Whether a value describes a result: its fields by their camel-case names, the help only where
/// there is one.
pub open spec fn describes(j: Json, r: DiagResult) -> bool {
    match j {
        Json::Object(fields) => {
            let f = fields@;
            &&& f.len() == (if r.help is Some {
                10int
            } else {
                9int
            })
            &&& f[0].0@ == "index"@ && f[0].1 == Json::Unsigned(r.index as u64)
            &&& is_text_item(f[1], "name"@, r.name@)
            &&& is_text_item(f[2], "description"@, r.description@)
            &&& is_text_item(f[3], "command"@, r.command@)
            &&& f[4].0@ == "exitCode"@ && f[4].1 == integer_json(r.exit_code as int)
            &&& is_text_item(f[5], "stdout"@, r.stdout@)
            &&& is_text_item(f[6], "stderr"@, r.stderr@)
            &&& f[7].0@ == "durationMs"@ && f[7].1 == Json::Unsigned(r.duration_ms)
            &&& f[8].0@ == "issues"@ && lists_texts(f[8].1, texts(r.issues@))
            &&& r.help is Some ==> is_text_item(f[9], "help"@, r.help->0@)
        },
        _ => false,
    }
}

fn text_list(items: &Vec<String>) -> (r: Json)
    ensures
        lists_texts(r, texts(items@)),
{
    let mut out: Vec<Json> = Vec::new();
    let mut i: usize = 0;
    while i < items.len()
        invariant
            i <= items@.len(),
            out@.len() == i,
            forall|k: int|
                0 <= k < i ==> (#[trigger] out@[k]).as_text() == Some(texts(items@)[k]),
        decreases items@.len() - i,
    {
        out.push(Json::Text(items[i].clone()));
        i += 1;
    }
    Json::List(out)
}

/// The value that describes a result.
pub fn result_data(result: &DiagResult) -> (r: Json)
    ensures
        describes(r, *result),
{
    let code: i32 = result.exit_code;
    let code_json: Json = if code < 0 {
        Json::Negative(code as i64)
    } else {
        Json::Unsigned(code as u64)
    };
    let mut fields: Vec<(String, Json)> = Vec::new();
    fields.push(number_item("index", result.index as u64));
    fields.push(text_item("name", result.name.as_str()));
    fields.push(text_item("description", result.description.as_str()));
    fields.push(text_item("command", result.command.as_str()));
    fields.push(("exitCode".to_string(), code_json));
    fields.push(text_item("stdout", result.stdout.as_str()));
    fields.push(text_item("stderr", result.stderr.as_str()));
    fields.push(number_item("durationMs", result.duration_ms));
    fields.push(("issues".to_string(), text_list(&result.issues)));
    if let Some(help) = &result.help {
        fields.push(text_item("help", help.as_str()));
    }
    Json::Object(fields)
}

/// The event that reports a check.
pub fn result_event(result: &DiagResult) -> (r: String)
    ensures
        exists|j: Json|
            describes(j, *result) && r@ == sse_text("result"@, #[trigger] json_text(j)),
{
    let data: Json = result_data(result);
    sse_event("result", &data)
}

/// Whether a value tells how long all checks took.
pub open spec fn totals(j: Json, total_ms: u64) -> bool {
    j matches Json::Object(fields) && fields@.len() == 1 && fields@[0].0@ == "totalDurationMs"@
        && fields@[0].1 == Json::Unsigned(total_ms)
}

/// The event that ends the checks.
pub fn done_event(total_ms: u64) -> (r: String)
    ensures
        exists|j: Json| totals(j, total_ms) && r@ == sse_text("done"@, #[trigger] json_text(j)),
{
    let mut fields: Vec<(String, Json)> = Vec::new();
    fields.push(number_item("totalDurationMs", total_ms));
    let data: Json = Json::Object(fields);
    sse_event("done", &data)
}

// ── The run ──────────────────────────────────────────────────────────────────

/// How many checks a run makes.
pub const CHECK_COUNT: u32 = 9;

/// The name of a check.
pub open spec fn check_title(index: u32) -> Seq<char> {
    if index == 0 {
        "Engine Status"@
    } else if index == 1 {
        "Stream Info"@
    } else if index == 2 {
        "GOP Analysis"@
    } else if index == 3 {
        "Publisher Transport"@
    } else if index == 4 {
        "Ring Buffer Health"@
    } else if index == 5 {
        "Active Outputs"@
    } else if index == 6 {
        "System Resources"@
    } else if index == 7 {
        "Network Bandwidth"@
    } else {
        "SRT Listener Socket"@
    }
}

/// What the announcement of a check says of it.
pub open spec fn check_purpose(index: u32) -> Seq<char> {
    if index == 0 {
        "MediaEngine active state for this pipeline"@
    } else if index == 1 {
        "Video and audio codec parameters from demuxer"@
    } else if index == 2 {
        "Keyframe interval consistency and stability"@
    } else if index == 3 {
        "Network connection quality metrics"@
    } else if index == 4 {
        "In-process media ring buffer fill level and alignment"@
    } else if index == 5 {
        "Egress target status and throughput"@
    } else if index == 6 {
        "CPU, RAM, and disk utilization"@
    } else if index == 7 {
        "Per-interface RX/TX throughput measurement"@
    } else {
        "Shared UDP socket buffer occupancy"@
    }
}

/// The name of a check.
pub fn check_name(index: u32) -> (r: &'static str)
    requires
        index < CHECK_COUNT,
    ensures
        r@ == check_title(index),
{
    match index {
        0 => "Engine Status",
        1 => "Stream Info",
        2 => "GOP Analysis",
        3 => "Publisher Transport",
        4 => "Ring Buffer Health",
        5 => "Active Outputs",
        6 => "System Resources",
        7 => "Network Bandwidth",
        _ => "SRT Listener Socket",
    }
}

/// What the announcement of a check says of it.
pub fn check_description(index: u32) -> (r: &'static str)
    requires
        index < CHECK_COUNT,
    ensures
        r@ == check_purpose(index),
{
    match index {
        0 => "MediaEngine active state for this pipeline",
        1 => "Video and audio codec parameters from demuxer",
        2 => "Keyframe interval consistency and stability",
        3 => "Network connection quality metrics",
        4 => "In-process media ring buffer fill level and alignment",
        5 => "Egress target status and throughput",
        6 => "CPU, RAM, and disk utilization",
        7 => "Per-interface RX/TX throughput measurement",
        _ => "Shared UDP socket buffer occupancy",
    }
}

/// What a run does next.
#[derive(Debug, Clone, Copy, PartialEq, Eq, Structural)]
pub enum DiagStep {
    /// Send the announcement of a check.
    Announce { index: u32 },
    /// Make a check and send its result.
    Report { index: u32 },
    /// Send how long it took, and end.
    Done,
    /// Nobody listens any more: end at once.
    Stop,
}

/// What comes after a step that sent something, and was heard or not.
pub open spec fn step_after(step: DiagStep, heard: bool) -> DiagStep {
    match step {
        DiagStep::Announce { index } => if heard {
            DiagStep::Report { index }
        } else {
            DiagStep::Stop
        },
        DiagStep::Report { index } => if !heard {
            DiagStep::Stop
        } else if index + 1 < CHECK_COUNT {
            DiagStep::Announce { index: (index + 1) as u32 }
        } else {
            DiagStep::Done
        },
        DiagStep::Done => DiagStep::Stop,
        DiagStep::Stop => DiagStep::Stop,
    }
}

/// The first step of a run.
pub fn first_step() -> (r: DiagStep)
    ensures
        r == (DiagStep::Announce { index: 0 }),
{
    DiagStep::Announce { index: 0 }
}

/// The step after `step`, whose event was heard or not.
pub fn run_diagnostics(step: DiagStep, heard: bool) -> (r: DiagStep)
    ensures
        r == step_after(step, heard),
{
    match step {
        DiagStep::Announce { index } => if heard {
            DiagStep::Report { index }
        } else {
            DiagStep::Stop
        },
        DiagStep::Report { index } => if !heard {
            DiagStep::Stop
        } else if index < CHECK_COUNT - 1 {
            DiagStep::Announce { index: index + 1 }
        } else {
            DiagStep::Done
        },
        DiagStep::Done => DiagStep::Stop,
        DiagStep::Stop => DiagStep::Stop,
    }
}

// ── Laws ─────────────────────────────────────────────────────────────────────

/// The steps of a run, as far as it is heard.
pub open spec fn run_of(step: DiagStep, heard: Seq<bool>) -> Seq<DiagStep>
    decreases heard.len(),
{
    if heard.len() == 0 {
        seq![step]
    } else {
        seq![step] + run_of(step_after(step, heard[0]), heard.skip(1))
    }
}

/// A run that is not heard makes no check after that: every later step is to stop.
pub proof fn unheard_run_stops(step: DiagStep, heard: Seq<bool>)
    ensures
        step == DiagStep::Stop ==> forall|i: int|
            0 <= i < run_of(step, heard).len() ==> run_of(step, heard)[i] == DiagStep::Stop,
        step_after(step, false) == DiagStep::Stop,
    decreases heard.len(),
{
    if heard.len() > 0 {
        unheard_run_stops(step_after(step, heard[0]), heard.skip(1));
    }
}

/// A run that is always heard announces and reports every check once, in order, and ends.
pub proof fn heard_run_makes_every_check(index: u32)
    requires
        index < CHECK_COUNT,
    ensures
        step_after(DiagStep::Announce { index }, true) == (DiagStep::Report { index }),
        step_after(DiagStep::Report { index }, true) == (if index == 8 {
            DiagStep::Done
        } else {
            DiagStep::Announce { index: (index + 1) as u32 }
        }),
{
}

/// A share in percent is the whole number of hundredths that are used.
pub proof fn percent_is_rounded_down(used: int, total: int)
    requires
        0 <= used,
        0 < total,
    ensures
        percent(used, total) * total <= used * 100 < (percent(used, total) + 1) * total,
        used <= total ==> percent(used, total) <= 100,
        percent(used, 0) == 0,
{
    let p = percent(used, total);
    vstd::arithmetic::div_mod::lemma_fundamental_div_mod(used * 100, total);
    vstd::arithmetic::div_mod::lemma_mod_bound(used * 100, total);
    vstd::arithmetic::mul::lemma_mul_is_commutative(total, p);
    assert((p + 1) * total == p * total + total) by (nonlinear_arith);
    if used <= total && p > 100 {
        assert(p * total >= 101 * total) by (nonlinear_arith)
            requires
                p >= 101,
                total > 0,
        ;
    }
}

/// A check is a problem exactly when it raises an issue.
pub proof fn exit_code_tells_of_issues(issues: nat)
    ensures
        issues == 0 ==> code_of(issues) == 0,
        issues > 0 ==> code_of(issues) != 0,
{
}

/// An event on the wire names itself on its first line, holds its data on the second, and ends with
/// an empty one.
pub proof fn event_on_the_wire_has_two_lines(event: Seq<char>, data: Seq<char>)
    ensures
        sse_text(event, data) == "event: "@ + event + "\ndata: "@ + data + "\n\n"@,
{
}

/// The checks come in this order, under these names.
pub proof fn checks_come_under_their_names()
    ensures
        check_title(0) == "Engine Status"@ && check_title(1) == "Stream Info"@ && check_title(2)
            == "GOP Analysis"@ && check_title(3) == "Publisher Transport"@ && check_title(4)
            == "Ring Buffer Health"@ && check_title(5) == "Active Outputs"@ && check_title(6)
            == "System Resources"@ && check_title(7) == "Network Bandwidth"@ && check_title(8)
            == "SRT Listener Socket"@,
{
}

/// A result tells what a check found: its lines, its issues, and by its code whether there are any.
pub proof fn results_tell_what_was_found(
    r: DiagResult,
    index: u32,
    name: Seq<char>,
    desc: Seq<char>,
    cmd: Seq<char>,
    report: Report,
    elapsed: u64,
)
    requires
        result_is(r, index, name, desc, cmd, report, elapsed),
    ensures
        r.index == index && r.name@ == name && r.duration_ms == elapsed,
        r.exit_code != 0 <==> r.issues@.len() > 0,
        r.issues@.len() == report.issues.len(),
        forall|i: int| 0 <= i < r.issues@.len() ==> (#[trigger] r.issues@[i])@ == report.issues[i],
        r.stdout@ == joined(report.lines, "\n"@),
{
    assert(texts(r.issues@).len() == r.issues@.len());
    assert forall|i: int| 0 <= i < r.issues@.len() implies (#[trigger] r.issues@[i])@
        == report.issues[i] by {
        assert(texts(r.issues@)[i] == r.issues@[i]@);
    }
}

} // verus!
