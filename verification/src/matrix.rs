//! The protocol matrix: which modes are run, with which options, and what a run comes to.

use vstd::prelude::*;
use vstd::string::*;

use crate::json::{
    is_text, is_text_or_null, is_texts, is_whole, text_item, text_or_null_item, texts_item,
    whole_item, Json,
};
use crate::path::{is_absolute, is_absolute_path, join_path, joined_path};
use crate::text::{
    copy_option, copy_texts, list_items, listed_items, lossy, same_text, text_of_bytes, text_option,
    texts, trim, trimmed,
};

verus! {

// ── The command line ─────────────────────────────────────────────────────────

/// What a run is to do.
#[derive(Debug)]
pub struct Config {
    pub run_id: String,
    pub work_root: Option<String>,
    pub modes: Vec<String>,
    pub run_flags: Vec<String>,
    pub extra_args: Vec<String>,
    pub continue_on_fail: bool,
    pub preflight_only: bool,
    pub restream_bin: Option<String>,
}

/// What a [`Config`] says.
pub struct ConfigModel {
    pub run_id: Seq<char>,
    pub work_root: Option<Seq<char>>,
    pub modes: Seq<Seq<char>>,
    pub run_flags: Seq<Seq<char>>,
    pub extra_args: Seq<Seq<char>>,
    pub continue_on_fail: bool,
    pub preflight_only: bool,
    pub restream_bin: Option<Seq<char>>,
}

impl View for Config {
    type V = ConfigModel;

    open spec fn view(&self) -> ConfigModel {
        ConfigModel {
            run_id: self.run_id@,
            work_root: text_option(self.work_root),
            modes: texts(self.modes@),
            run_flags: texts(self.run_flags@),
            extra_args: texts(self.extra_args@),
            continue_on_fail: self.continue_on_fail,
            preflight_only: self.preflight_only,
            restream_bin: text_option(self.restream_bin),
        }
    }
}

/// What comes of a command line.
pub enum ParsedArgs {
    Run(Config),
    /// The usage was asked for.
    Help,
    /// It cannot be read, and why.
    Refused(String),
}

/// What comes of a command line.
pub enum ParsedModel {
    Run(ConfigModel),
    Help,
    Refused(Seq<char>),
}

impl View for ParsedArgs {
    type V = ParsedModel;

    open spec fn view(&self) -> ParsedModel {
        match self {
            ParsedArgs::Run(config) => ParsedModel::Run(config@),
            ParsedArgs::Help => ParsedModel::Help,
            ParsedArgs::Refused(message) => ParsedModel::Refused(message@),
        }
    }
}

/// The modes of a run that names none.
pub open spec fn default_modes() -> Seq<Seq<char>> {
    seq!["ramp"@, "mixed-scale"@, "bonding"@, "burst-verify"@, "hls-put"@, "bframe-rtmp"@]
}

/// The modes of a run that names none.
pub fn default_mode_list() -> (r: Vec<String>)
    ensures
        texts(r@) == default_modes(),
{
    let mut v: Vec<String> = Vec::new();
    v.push("ramp".to_string());
    v.push("mixed-scale".to_string());
    v.push("bonding".to_string());
    v.push("burst-verify".to_string());
    v.push("hls-put".to_string());
    v.push("bframe-rtmp".to_string());
    assert(texts(v@) =~= default_modes());
    v
}

/// How the program is used.
pub open spec fn usage_text() -> Seq<char> {
    "Usage: protocol_matrix [options] [-- extra run-integration args]\n\nOptions:\n--run-id <id>           Artifact run id (default: UTC timestamp)\n--work-root <path>      Aggregate artifact root (default: test/artifacts/<run-id>)\n--only-modes <list>     Comma-separated mode list\n--host                  Pass --host to run-integration.sh\n--fast                  Pass --fast to run-integration.sh\n--skip-load             Pass --skip-load to run-integration.sh\n--continue-on-fail      Run remaining modes after a failure\n--preflight-only        Run aggregate preflight for all selected modes only\n--restream-bin <path>   RESTREAM_BIN for non-bonding modes\n-h, --help              Show this help\n\nDefault modes: ramp mixed-scale bonding burst-verify hls-put bframe-rtmp"@
}

/// How the program is used.
pub fn usage() -> (r: &'static str)
    ensures
        r@ == usage_text(),
{
    "Usage: protocol_matrix [options] [-- extra run-integration args]\n\nOptions:\n--run-id <id>           Artifact run id (default: UTC timestamp)\n--work-root <path>      Aggregate artifact root (default: test/artifacts/<run-id>)\n--only-modes <list>     Comma-separated mode list\n--host                  Pass --host to run-integration.sh\n--fast                  Pass --fast to run-integration.sh\n--skip-load             Pass --skip-load to run-integration.sh\n--continue-on-fail      Run remaining modes after a failure\n--preflight-only        Run aggregate preflight for all selected modes only\n--restream-bin <path>   RESTREAM_BIN for non-bonding modes\n-h, --help              Show this help\n\nDefault modes: ramp mixed-scale bonding burst-verify hls-put bframe-rtmp"
}

/// Whether an argument is handed on to every run.
pub open spec fn is_run_flag(arg: Seq<char>) -> bool {
    arg == "--host"@ || arg == "--fast"@ || arg == "--skip-load"@
}

/// What comes of the arguments that are left.
pub open spec fn parse_from(c: ConfigModel, args: Seq<Seq<char>>) -> ParsedModel
    decreases args.len(),
{
    if args.len() == 0 {
        if c.modes.len() == 0 {
            ParsedModel::Refused("--only-modes did not include any modes"@)
        } else {
            ParsedModel::Run(c)
        }
    } else if args[0] == "--run-id"@ {
        if args.len() < 2 {
            ParsedModel::Refused("--run-id requires a value"@)
        } else {
            parse_from(ConfigModel { run_id: args[1], ..c }, args.skip(2))
        }
    } else if args[0] == "--work-root"@ {
        if args.len() < 2 {
            ParsedModel::Refused("--work-root requires a value"@)
        } else {
            parse_from(ConfigModel { work_root: Some(args[1]), ..c }, args.skip(2))
        }
    } else if args[0] == "--only-modes"@ {
        if args.len() < 2 {
            ParsedModel::Refused("--only-modes requires a value"@)
        } else {
            parse_from(ConfigModel { modes: listed_items(args[1]), ..c }, args.skip(2))
        }
    } else if is_run_flag(args[0]) {
        parse_from(ConfigModel { run_flags: c.run_flags.push(args[0]), ..c }, args.skip(1))
    } else if args[0] == "--continue-on-fail"@ {
        parse_from(ConfigModel { continue_on_fail: true, ..c }, args.skip(1))
    } else if args[0] == "--preflight-only"@ {
        parse_from(ConfigModel { preflight_only: true, ..c }, args.skip(1))
    } else if args[0] == "--restream-bin"@ {
        if args.len() < 2 {
            ParsedModel::Refused("--restream-bin requires a value"@)
        } else {
            parse_from(ConfigModel { restream_bin: Some(args[1]), ..c }, args.skip(2))
        }
    } else if args[0] == "-h"@ || args[0] == "--help"@ {
        ParsedModel::Help
    } else if args[0] == "--"@ {
        if c.modes.len() == 0 {
            ParsedModel::Refused("--only-modes did not include any modes"@)
        } else {
            ParsedModel::Run(ConfigModel { extra_args: c.extra_args + args.skip(1), ..c })
        }
    } else {
        ParsedModel::Refused("Unknown option: "@ + args[0] + "\n\n"@ + usage_text())
    }
}

fn push_one(v: &mut Vec<String>, t: String)
    ensures
        texts(final(v)@) == texts(old(v)@).push(t@),
{
    v.push(t);
    assert(texts(v@) =~= texts(old(v)@).push(t@));
}

/// The arguments from `from` on.
fn tail_of(args: &Vec<String>, from: usize) -> (r: Vec<String>)
    requires
        from <= args@.len(),
    ensures
        texts(r@) == texts(args@).skip(from as int),
{
    let mut out: Vec<String> = Vec::new();
    let mut i: usize = from;
    let ghost all = texts(args@);
    assert(texts(out@) =~= all.subrange(from as int, from as int));
    while i < args.len()
        invariant
            from <= i <= args@.len(),
            all == texts(args@),
            texts(out@) == all.subrange(from as int, i as int),
        decreases args@.len() - i,
    {
        push_one(&mut out, args[i].clone());
        assert(all.subrange(from as int, i + 1) =~= all.subrange(from as int, i as int).push(
            all[i as int],
        ));
        i += 1;
    }
    assert(all.subrange(from as int, all.len() as int) =~= all.skip(from as int));
    out
}

/// The value of an option, or that it needs one.
fn next_value(args: &Vec<String>, at: usize, option: &str) -> (r: Result<String, String>)
    ensures
        match r {
            Ok(v) => at < args@.len() && v@ == args@[at as int]@,
            Err(message) => at >= args@.len() && message@ == option@ + " requires a value"@,
        },
{
    if at < args.len() {
        Ok(args[at].clone())
    } else {
        Err(option.to_string().concat(" requires a value"))
    }
}

/// The run that the environment alone asks for.
pub open spec fn base_config(run_id: Seq<char>, work_root: Option<Seq<char>>) -> ConfigModel {
    ConfigModel {
        run_id,
        work_root,
        modes: default_modes(),
        run_flags: Seq::empty(),
        extra_args: Seq::empty(),
        continue_on_fail: false,
        preflight_only: false,
        restream_bin: None,
    }
}

fn finish(config: Config) -> (r: ParsedArgs)
    ensures
        r@ == (if config@.modes.len() == 0 {
            ParsedModel::Refused("--only-modes did not include any modes"@)
        } else {
            ParsedModel::Run(config@)
        }),
{
    if config.modes.is_empty() {
        ParsedArgs::Refused("--only-modes did not include any modes".to_string())
    } else {
        ParsedArgs::Run(config)
    }
}

proof fn lemma_value_messages()
    ensures
        "--run-id"@ + " requires a value"@ == "--run-id requires a value"@,
        "--work-root"@ + " requires a value"@ == "--work-root requires a value"@,
        "--only-modes"@ + " requires a value"@ == "--only-modes requires a value"@,
        "--restream-bin"@ + " requires a value"@ == "--restream-bin requires a value"@,
{
    reveal_strlit("--run-id");
    reveal_strlit("--work-root");
    reveal_strlit("--only-modes");
    reveal_strlit("--restream-bin");
    reveal_strlit(" requires a value");
    reveal_strlit("--run-id requires a value");
    reveal_strlit("--work-root requires a value");
    reveal_strlit("--only-modes requires a value");
    reveal_strlit("--restream-bin requires a value");
    assert("--run-id"@ + " requires a value"@ =~= "--run-id requires a value"@);
    assert("--work-root"@ + " requires a value"@ =~= "--work-root requires a value"@);
    assert("--only-modes"@ + " requires a value"@ =~= "--only-modes requires a value"@);
    assert("--restream-bin"@ + " requires a value"@ =~= "--restream-bin requires a value"@);
}

/// Reads a command line. The run id and the work root that the environment gives hold until an
/// option says otherwise.
pub fn parse_args(run_id: &str, work_root: &Option<String>, args: &Vec<String>) -> (r: ParsedArgs)
    ensures
        r@ == parse_from(base_config(run_id@, text_option(*work_root)), texts(args@)),
{
    proof {
        lemma_value_messages();
    }
    let mut c: Config = Config {
        run_id: run_id.to_string(),
        work_root: copy_option(work_root),
        modes: default_mode_list(),
        run_flags: Vec::new(),
        extra_args: Vec::new(),
        continue_on_fail: false,
        preflight_only: false,
        restream_bin: None,
    };
    let ghost start = base_config(run_id@, text_option(*work_root));
    let ghost all = texts(args@);
    assert(c@.run_flags =~= start.run_flags);
    assert(c@.extra_args =~= start.extra_args);
    let mut i: usize = 0;
    assert(all.skip(0) =~= all);
    while i < args.len()
        invariant
            i <= args@.len(),
            all == texts(args@),
            parse_from(c@, all.skip(i as int)) == parse_from(start, all),
            "--run-id"@ + " requires a value"@ == "--run-id requires a value"@,
            "--work-root"@ + " requires a value"@ == "--work-root requires a value"@,
            "--only-modes"@ + " requires a value"@ == "--only-modes requires a value"@,
            "--restream-bin"@ + " requires a value"@ == "--restream-bin requires a value"@,
            start == base_config(run_id@, text_option(*work_root)),
        decreases args@.len() - i,
    {
        let ghost rest = all.skip(i as int);
        assert(rest[0] == args@[i as int]@);
        assert(rest.skip(1) =~= all.skip(i + 1));
        if i + 1 < args.len() {
            assert(rest[1] == args@[i + 1]@);
            assert(rest.skip(2) =~= all.skip(i + 2));
        }
        let arg: &str = args[i].as_str();
        if same_text(arg, "--run-id") {
            match next_value(args, i + 1, "--run-id") {
                Ok(v) => {
                    c.run_id = v;
                },
                Err(message) => {
                    return ParsedArgs::Refused(message);
                },
            }
            i += 2;
        } else if same_text(arg, "--work-root") {
            match next_value(args, i + 1, "--work-root") {
                Ok(v) => {
                    c.work_root = Some(v);
                },
                Err(message) => {
                    return ParsedArgs::Refused(message);
                },
            }
            i += 2;
        } else if same_text(arg, "--only-modes") {
            match next_value(args, i + 1, "--only-modes") {
                Ok(v) => {
                    c.modes = list_items(v.as_str());
                },
                Err(message) => {
                    return ParsedArgs::Refused(message);
                },
            }
            i += 2;
        } else if same_text(arg, "--host") || same_text(arg, "--fast") || same_text(
            arg,
            "--skip-load",
        ) {
            push_one(&mut c.run_flags, args[i].clone());
            i += 1;
        } else if same_text(arg, "--continue-on-fail") {
            c.continue_on_fail = true;
            i += 1;
        } else if same_text(arg, "--preflight-only") {
            c.preflight_only = true;
            i += 1;
        } else if same_text(arg, "--restream-bin") {
            match next_value(args, i + 1, "--restream-bin") {
                Ok(v) => {
                    c.restream_bin = Some(v);
                },
                Err(message) => {
                    return ParsedArgs::Refused(message);
                },
            }
            i += 2;
        } else if same_text(arg, "-h") || same_text(arg, "--help") {
            return ParsedArgs::Help;
        } else if same_text(arg, "--") {
            let ghost extra0 = c@.extra_args;
            let mut extra: Vec<String> = tail_of(args, i + 1);
            let ghost added = extra@;
            let ghost had = c.extra_args@;
            c.extra_args.append(&mut extra);
            assert(texts(c.extra_args@) =~= texts(had) + texts(added));
            return finish(c);
        } else {
            return ParsedArgs::Refused(
                "Unknown option: ".to_string().concat(arg).concat("\n\n").concat(usage()),
            );
        }
    }
    assert(all.skip(i as int).len() == 0);
    finish(c)
}

/// The directory that holds what a run leaves behind.
pub open spec fn work_root_of(root: Seq<char>, c: ConfigModel) -> Seq<char> {
    let chosen = match c.work_root {
        Some(p) => p,
        None => joined_path(joined_path(root, "test/artifacts"@), c.run_id),
    };
    if is_absolute_path(chosen) {
        chosen
    } else {
        joined_path(root, chosen)
    }
}

/// The directory that holds what a run leaves behind, from the root of the repository.
pub fn absolute_work_root(root: &str, config: &Config) -> (r: String)
    ensures
        r@ == work_root_of(root@, config@),
{
    let chosen: String = match &config.work_root {
        Some(p) => p.clone(),
        None => join_path(join_path(root, "test/artifacts").as_str(), config.run_id.as_str()),
    };
    if is_absolute(chosen.as_str()) {
        chosen
    } else {
        join_path(root, chosen.as_str())
    }
}

// ── Running the modes ────────────────────────────────────────────────────────

/// How far a run has come.
#[derive(Debug, Clone, Copy, PartialEq, Eq, Structural)]
pub struct MatrixProgress {
    /// The place of the next mode.
    pub next: usize,
    /// A mode has failed.
    pub failed: bool,
    /// No more modes are run.
    pub stopped: bool,
}

/// The place of the first mode from `from` on that is not blank.
pub open spec fn next_named(modes: Seq<Seq<char>>, from: int) -> int
    decreases modes.len() - from,
{
    if from < 0 || from >= modes.len() || trimmed(modes[from]).len() > 0 {
        from
    } else {
        next_named(modes, from + 1)
    }
}

/// The next mode to run, and the progress once it has been taken; none where the run is over.
pub fn take_mode(config: &Config, progress: MatrixProgress) -> (r: Option<(String, MatrixProgress)>)
    requires
        progress.next <= config.modes@.len(),
    ensures
        match r {
            Some((mode, after)) => {
                let at = next_named(config@.modes, progress.next as int);
                &&& !progress.stopped
                &&& at < config@.modes.len()
                &&& mode@ == trimmed(config@.modes[at])
                &&& mode@.len() > 0
                &&& after == (MatrixProgress { next: (at + 1) as usize, ..progress })
                &&& after.next <= config.modes@.len()
            },
            None => progress.stopped || next_named(config@.modes, progress.next as int)
                >= config@.modes.len(),
        },
{
    if progress.stopped {
        return None;
    }
    let mut i: usize = progress.next;
    while i < config.modes.len()
        invariant
            progress.next <= i <= config.modes@.len(),
            !progress.stopped,
            next_named(config@.modes, progress.next as int) == next_named(
                config@.modes,
                i as int,
            ),
        decreases config.modes@.len() - i,
    {
        assert(config@.modes[i as int] == config.modes@[i as int]@);
        let mode: String = trim(config.modes[i].as_str());
        if !mode.as_str().is_empty() {
            return Some((mode, MatrixProgress { next: i + 1, failed: progress.failed, stopped: false }));
        }
        i += 1;
    }
    None
}

/// The progress once a mode has passed or failed: a failure ends the run, unless it is to go on.
pub fn record_mode(progress: MatrixProgress, passed: bool, continue_on_fail: bool) -> (r:
    MatrixProgress)
    ensures
        r == (MatrixProgress {
            next: progress.next,
            failed: progress.failed || !passed,
            stopped: progress.stopped || (!passed && !continue_on_fail),
        }),
{
    MatrixProgress {
        next: progress.next,
        failed: progress.failed || !passed,
        stopped: progress.stopped || (!passed && !continue_on_fail),
    }
}

/// What a run comes to.
pub fn overall_status(progress: MatrixProgress) -> (r: &'static str)
    ensures
        r@ == (if progress.failed {
            "FAIL"@
        } else {
            "PASS"@
        }),
{
    if progress.failed {
        "FAIL"
    } else {
        "PASS"
    }
}

/// What a mode came to.
#[derive(Debug, Clone, Copy, PartialEq, Eq, Structural)]
pub struct ModeOutcome {
    pub passed: bool,
    pub preflight_passed: bool,
    pub exit_code: i32,
}

/// What follows a preflight.
#[derive(Debug, Clone, Copy, PartialEq, Eq, Structural)]
pub enum AfterPreflight {
    /// Run the mode.
    Run,
    /// The mode is done.
    Done(ModeOutcome),
}

/// What follows a preflight.
pub open spec fn follows_preflight(success: bool, code: i32, preflight_only: bool) -> AfterPreflight {
    if success && !preflight_only {
        AfterPreflight::Run
    } else {
        AfterPreflight::Done(
            ModeOutcome {
                passed: success,
                preflight_passed: success,
                exit_code: if success {
                    0
                } else {
                    code
                },
            },
        )
    }
}

/// What follows a preflight: a failed one ends the mode with its code, and a passed one ends it
/// where nothing more is wanted.
pub fn after_preflight(success: bool, code: i32, preflight_only: bool) -> (r: AfterPreflight)
    ensures
        r == follows_preflight(success, code, preflight_only),
        r == (if !success {
            AfterPreflight::Done(
                ModeOutcome { passed: false, preflight_passed: false, exit_code: code },
            )
        } else if preflight_only {
            AfterPreflight::Done(ModeOutcome { passed: true, preflight_passed: true, exit_code: 0 })
        } else {
            AfterPreflight::Run
        }),
{
    if !success {
        AfterPreflight::Done(
            ModeOutcome { passed: false, preflight_passed: false, exit_code: code },
        )
    } else if preflight_only {
        AfterPreflight::Done(ModeOutcome { passed: true, preflight_passed: true, exit_code: 0 })
    } else {
        AfterPreflight::Run
    }
}

/// What a mode came to that was run.
pub open spec fn outcome_of_run(success: bool, code: i32) -> ModeOutcome {
    ModeOutcome {
        passed: success,
        preflight_passed: true,
        exit_code: if success {
            0
        } else {
            code
        },
    }
}

/// What a mode came to that was run.
pub fn after_run(success: bool, code: i32) -> (r: ModeOutcome)
    ensures
        r == outcome_of_run(success, code),
        r == (ModeOutcome {
            passed: success,
            preflight_passed: true,
            exit_code: if success {
                0
            } else {
                code
            },
        }),
{
    ModeOutcome { passed: success, preflight_passed: true, exit_code: if success { 0 } else { code } }
}

/// The word for a passed or failed part.
pub open spec fn passed_word(passed: bool) -> Seq<char> {
    if passed {
        "PASS"@
    } else {
        "FAIL"@
    }
}

/// The word for a passed or failed part.
pub fn status_word(passed: bool) -> (r: &'static str)
    ensures
        r@ == passed_word(passed),
{
    if passed {
        "PASS"
    } else {
        "FAIL"
    }
}

/// An artifact of a mode, by its name and its ending.
pub open spec fn artifact_in(dir: Seq<char>, name: Seq<char>, ending: Seq<char>) -> Seq<char> {
    joined_path(dir, name + ending)
}

fn artifact_path(dir: &str, name: &str, ending: &str) -> (r: String)
    ensures
        r@ == artifact_in(dir@, name@, ending@),
{
    join_path(dir, name.to_string().concat(ending).as_str())
}

/// Whether a value records what a mode came to, and where its artifacts are.
pub open spec fn is_mode_record(
    j: Json,
    mode: Seq<char>,
    outcome: ModeOutcome,
    started_at: Seq<char>,
    finished_at: Seq<char>,
    dir: Seq<char>,
) -> bool {
    match j {
        Json::Object(fields) => {
            let f = fields@;
            &&& f.len() == 11
            &&& is_text(f[0], "mode"@, mode)
            &&& is_text(f[1], "status"@, passed_word(outcome.passed))
            &&& is_text(f[2], "preflightStatus"@, passed_word(outcome.preflight_passed))
            &&& is_whole(f[3], "exitCode"@, outcome.exit_code as int)
            &&& is_text(f[4], "startedAt"@, started_at)
            &&& is_text(f[5], "finishedAt"@, finished_at)
            &&& is_text(f[6], "workDir"@, dir)
            &&& is_text(f[7], "manifest"@, artifact_in(dir, "manifest"@, ".json"@))
            &&& is_text(f[8], "assertions"@, artifact_in(dir, "assertions"@, ".jsonl"@))
            &&& is_text(f[9], "preflight"@, artifact_in(dir, "preflight"@, ".jsonl"@))
            &&& is_text(f[10], "log"@, artifact_in(dir, "run"@, ".log"@))
        },
        _ => false,
    }
}

/// The record of what a mode came to.
pub fn mode_record(
    mode: &str,
    outcome: ModeOutcome,
    started_at: &str,
    finished_at: &str,
    dir: &str,
) -> (r: Json)
    ensures
        is_mode_record(r, mode@, outcome, started_at@, finished_at@, dir@),
{
    let mut f: Vec<(String, Json)> = Vec::new();
    f.push(text_item("mode", mode));
    f.push(text_item("status", status_word(outcome.passed)));
    f.push(text_item("preflightStatus", status_word(outcome.preflight_passed)));
    f.push(whole_item("exitCode", outcome.exit_code as i64));
    f.push(text_item("startedAt", started_at));
    f.push(text_item("finishedAt", finished_at));
    f.push(text_item("workDir", dir));
    f.push(text_item("manifest", artifact_path(dir, "manifest", ".json").as_str()));
    f.push(text_item("assertions", artifact_path(dir, "assertions", ".jsonl").as_str()));
    f.push(text_item("preflight", artifact_path(dir, "preflight", ".jsonl").as_str()));
    f.push(text_item("log", artifact_path(dir, "run", ".log").as_str()));
    Json::Object(f)
}

/// Whether a value is the manifest of a matrix.
pub open spec fn is_matrix_manifest(
    j: Json,
    status: Seq<char>,
    started_at: Seq<char>,
    finished_at: Option<Seq<char>>,
    head: Seq<char>,
    work_root: Seq<char>,
    results: Seq<char>,
    c: ConfigModel,
) -> bool {
    match j {
        Json::Object(fields) => {
            let f = fields@;
            &&& f.len() == 10
            &&& is_text(f[0], "kind"@, "protocol-matrix"@)
            &&& is_text(f[1], "status"@, status)
            &&& is_text(f[2], "runId"@, c.run_id)
            &&& is_text(f[3], "startedAt"@, started_at)
            &&& is_text_or_null(f[4], "finishedAt"@, finished_at)
            &&& is_text(f[5], "gitHead"@, head)
            &&& is_text(f[6], "workRoot"@, work_root)
            &&& f[7].0@ == "preflightOnly"@ && f[7].1 == Json::Bool(c.preflight_only)
            &&& is_texts(f[8], "modes"@, c.modes)
            &&& is_text(f[9], "resultsJsonl"@, results)
        },
        _ => false,
    }
}

/// The manifest of a matrix.
pub fn matrix_manifest(
    status: &str,
    started_at: &str,
    finished_at: &Option<String>,
    head: &str,
    work_root: &str,
    results: &str,
    config: &Config,
) -> (r: Json)
    ensures
        is_matrix_manifest(
            r,
            status@,
            started_at@,
            text_option(*finished_at),
            head@,
            work_root@,
            results@,
            config@,
        ),
{
    let mut f: Vec<(String, Json)> = Vec::new();
    f.push(text_item("kind", "protocol-matrix"));
    f.push(text_item("status", status));
    f.push(text_item("runId", config.run_id.as_str()));
    f.push(text_item("startedAt", started_at));
    f.push(text_or_null_item("finishedAt", finished_at));
    f.push(text_item("gitHead", head));
    f.push(text_item("workRoot", work_root));
    f.push(("preflightOnly".to_string(), Json::Bool(config.preflight_only)));
    f.push(texts_item("modes", &config.modes));
    f.push(text_item("resultsJsonl", results));
    Json::Object(f)
}

/// The arguments of one run of the integration script.
pub open spec fn integration_command(
    c: ConfigModel,
    preflight: bool,
    json_path: Seq<char>,
    mode: Seq<char>,
) -> Seq<Seq<char>> {
    c.run_flags + (if preflight {
        seq!["--preflight"@]
    } else {
        seq![]
    }) + seq!["--json"@, json_path] + c.extra_args + seq![mode]
}

/// The arguments of one run of the integration script.
pub fn integration_args(config: &Config, preflight: bool, json_path: &str, mode: &str) -> (r: Vec<
    String,
>)
    ensures
        texts(r@) == integration_command(config@, preflight, json_path@, mode@),
{
    let mut out: Vec<String> = copy_texts(&config.run_flags);
    if preflight {
        push_one(&mut out, "--preflight".to_string());
    }
    push_one(&mut out, "--json".to_string());
    push_one(&mut out, json_path.to_string());
    let ghost head = out@;
    let mut extra: Vec<String> = copy_texts(&config.extra_args);
    out.append(&mut extra);
    assert(texts(out@) =~= texts(head) + texts(config.extra_args@));
    push_one(&mut out, mode.to_string());
    assert(texts(out@) =~= integration_command(config@, preflight, json_path@, mode@));
    out
}

/// The program that the script is told to test: the one of the command line, else the one of the
/// environment, else none.
pub fn program_under_test(config: &Config, env_value: &Option<String>) -> (r: String)
    ensures
        r@ == match config@.restream_bin {
            Some(p) => p,
            None => match text_option(*env_value) {
                Some(p) => p,
                None => ""@,
            },
        },
{
    match &config.restream_bin {
        Some(p) => p.clone(),
        None => match env_value {
            Some(p) => p.clone(),
            None => "".to_string(),
        },
    }
}

/// The commit that was checked out, from the output of git; `unknown` where there is none.
pub fn git_head(success: bool, printed: &[u8]) -> (r: String)
    ensures
        r@ == if !success || trimmed(lossy(printed@)).len() == 0 {
            "unknown"@
        } else {
            trimmed(lossy(printed@))
        },
{
    if !success {
        return "unknown".to_string();
    }
    let head: String = trim(text_of_bytes(printed).as_str());
    if head.as_str().is_empty() {
        "unknown".to_string()
    } else {
        head
    }
}

// ── Laws ─────────────────────────────────────────────────────────────────────

/// A run that is accepted has at least one mode.
pub proof fn accepted_run_has_modes(c: ConfigModel, args: Seq<Seq<char>>)
    ensures
        parse_from(c, args) matches ParsedModel::Run(config) ==> config.modes.len() > 0,
    decreases args.len(),
{
    if args.len() > 0 {
        accepted_run_has_modes(ConfigModel { run_flags: c.run_flags.push(args[0]), ..c }, args.skip(1));
        accepted_run_has_modes(ConfigModel { continue_on_fail: true, ..c }, args.skip(1));
        accepted_run_has_modes(ConfigModel { preflight_only: true, ..c }, args.skip(1));
        if args.len() >= 2 {
            accepted_run_has_modes(ConfigModel { run_id: args[1], ..c }, args.skip(2));
            accepted_run_has_modes(ConfigModel { work_root: Some(args[1]), ..c }, args.skip(2));
            accepted_run_has_modes(ConfigModel { modes: listed_items(args[1]), ..c }, args.skip(2));
            accepted_run_has_modes(ConfigModel { restream_bin: Some(args[1]), ..c }, args.skip(2));
        }
    }
}

/// Under an absolute root the work root is absolute.
pub proof fn work_root_is_absolute(root: Seq<char>, c: ConfigModel)
    requires
        is_absolute_path(root),
    ensures
        is_absolute_path(work_root_of(root, c)),
{
    reveal_strlit("test/artifacts");
    if let Some(p) = c.work_root {
        if !is_absolute_path(p) {
            crate::path::relative_part_stays_under_base(root, p);
        }
    } else {
        let base = joined_path(root, "test/artifacts"@);
        crate::path::relative_part_stays_under_base(root, "test/artifacts"@);
        if !is_absolute_path(c.run_id) {
            crate::path::relative_part_stays_under_base(base, c.run_id);
        }
    }
}

/// A run has failed exactly when one of its modes has, and a run that does not go on after a
/// failure takes no mode after it.
pub proof fn failure_is_remembered(
    progress: MatrixProgress,
    passed: bool,
    continue_on_fail: bool,
    after: MatrixProgress,
)
    requires
        after == (MatrixProgress {
            next: progress.next,
            failed: progress.failed || !passed,
            stopped: progress.stopped || (!passed && !continue_on_fail),
        }),
    ensures
        progress.failed ==> after.failed,
        !passed ==> after.failed,
        passed ==> after.failed == progress.failed,
        !passed && !continue_on_fail ==> after.stopped,
{
}

proof fn lemma_options_differ()
    ensures
        "--work-root"@ != "--run-id"@,
        "--only-modes"@ != "--run-id"@ && "--only-modes"@ != "--work-root"@,
        "--restream-bin"@ != "--run-id"@ && "--restream-bin"@ != "--work-root"@ && "--restream-bin"@
            != "--only-modes"@ && !is_run_flag("--restream-bin"@) && "--restream-bin"@
            != "--continue-on-fail"@ && "--restream-bin"@ != "--preflight-only"@,
        "--continue-on-fail"@ != "--run-id"@ && "--continue-on-fail"@ != "--work-root"@
            && "--continue-on-fail"@ != "--only-modes"@ && !is_run_flag("--continue-on-fail"@),
        "--preflight-only"@ != "--run-id"@ && "--preflight-only"@ != "--work-root"@
            && "--preflight-only"@ != "--only-modes"@ && !is_run_flag("--preflight-only"@)
            && "--preflight-only"@ != "--continue-on-fail"@,
{
    reveal_strlit("--run-id");
    reveal_strlit("--work-root");
    reveal_strlit("--only-modes");
    reveal_strlit("--restream-bin");
    reveal_strlit("--continue-on-fail");
    reveal_strlit("--preflight-only");
    reveal_strlit("--host");
    reveal_strlit("--fast");
    reveal_strlit("--skip-load");
    assert("--run-id"@[2] == 'r' && "--work-root"@[2] == 'w' && "--only-modes"@[2] == 'o');
    assert("--restream-bin"@[3] == 'e' && "--run-id"@[3] == 'u');
    assert("--restream-bin"@[2] == 'r' && "--continue-on-fail"@[2] == 'c' && "--preflight-only"@[2]
        == 'p');
    assert("--host"@[2] == 'h' && "--fast"@[2] == 'f' && "--skip-load"@[2] == 's');
}

/// An option with a value sets what it names to the value, and leaves the rest of the command line
/// to be read: the id of the run, the directory of its artifacts, its modes, and the program.
pub proof fn valued_options_set_what_they_name(
    c: ConfigModel,
    value: Seq<char>,
    rest: Seq<Seq<char>>,
)
    ensures
        parse_from(c, seq!["--run-id"@, value] + rest) == parse_from(
            ConfigModel { run_id: value, ..c },
            rest,
        ),
        parse_from(c, seq!["--work-root"@, value] + rest) == parse_from(
            ConfigModel { work_root: Some(value), ..c },
            rest,
        ),
        parse_from(c, seq!["--only-modes"@, value] + rest) == parse_from(
            ConfigModel { modes: listed_items(value), ..c },
            rest,
        ),
        parse_from(c, seq!["--restream-bin"@, value] + rest) == parse_from(
            ConfigModel { restream_bin: Some(value), ..c },
            rest,
        ),
{
    lemma_options_differ();
    assert((seq!["--run-id"@, value] + rest).skip(2) =~= rest);
    assert((seq!["--work-root"@, value] + rest).skip(2) =~= rest);
    assert((seq!["--only-modes"@, value] + rest).skip(2) =~= rest);
    assert((seq!["--restream-bin"@, value] + rest).skip(2) =~= rest);
}

/// An option without a value sets what it names: whether a run goes on after a failure, whether it
/// ends with the preflight, and what is handed on to every run, in the order of the command line.
pub proof fn plain_options_set_what_they_name(
    c: ConfigModel,
    flag: Seq<char>,
    rest: Seq<Seq<char>>,
)
    ensures
        parse_from(c, seq!["--continue-on-fail"@] + rest) == parse_from(
            ConfigModel { continue_on_fail: true, ..c },
            rest,
        ),
        parse_from(c, seq!["--preflight-only"@] + rest) == parse_from(
            ConfigModel { preflight_only: true, ..c },
            rest,
        ),
        flag == "--host"@ || flag == "--fast"@ || flag == "--skip-load"@ ==> parse_from(
            c,
            seq![flag] + rest,
        ) == parse_from(ConfigModel { run_flags: c.run_flags.push(flag), ..c }, rest),
{
    lemma_options_differ();
    lemma_flags_differ(flag);
    assert((seq!["--continue-on-fail"@] + rest).skip(1) =~= rest);
    assert((seq!["--preflight-only"@] + rest).skip(1) =~= rest);
    assert((seq![flag] + rest).skip(1) =~= rest);
}

proof fn lemma_flags_differ(flag: Seq<char>)
    ensures
        flag == "--host"@ || flag == "--fast"@ || flag == "--skip-load"@ ==> flag != "--run-id"@
            && flag != "--work-root"@ && flag != "--only-modes"@,
{
    reveal_strlit("--run-id");
    reveal_strlit("--work-root");
    reveal_strlit("--only-modes");
    reveal_strlit("--host");
    reveal_strlit("--fast");
    reveal_strlit("--skip-load");
    assert("--run-id"@[2] == 'r' && "--work-root"@[2] == 'w' && "--only-modes"@[2] == 'o');
    assert("--host"@[2] == 'h' && "--fast"@[2] == 'f' && "--skip-load"@[2] == 's');
}

/// Of a command line without arguments comes a run of the six modes, with what the environment says
/// and nothing else.
pub proof fn default_run_has_six_modes(run_id: Seq<char>, work_root: Option<Seq<char>>)
    ensures
        parse_from(base_config(run_id, work_root), Seq::empty()) == ParsedModel::Run(
            ConfigModel {
                run_id,
                work_root,
                modes: seq![
                    "ramp"@,
                    "mixed-scale"@,
                    "bonding"@,
                    "burst-verify"@,
                    "hls-put"@,
                    "bframe-rtmp"@,
                ],
                run_flags: Seq::empty(),
                extra_args: Seq::empty(),
                continue_on_fail: false,
                preflight_only: false,
                restream_bin: None,
            },
        ),
{
}

/// What is run is a mode that is not blank, and none that is not blank is passed over.
pub proof fn blank_modes_alone_are_passed_over(modes: Seq<Seq<char>>, from: int)
    requires
        0 <= from <= modes.len(),
    ensures
        from <= next_named(modes, from) <= modes.len(),
        next_named(modes, from) < modes.len() ==> trimmed(modes[next_named(modes, from)]).len() > 0,
        forall|i: int| from <= i < next_named(modes, from) ==> trimmed(#[trigger] modes[i]).len()
            == 0,
    decreases modes.len() - from,
{
    if from < modes.len() && trimmed(modes[from]).len() == 0 {
        blank_modes_alone_are_passed_over(modes, from + 1);
    }
}

/// A run of the script gets the flags of the command line first, a preflight only where it is one,
/// the file for its results, what the command line hands on, and its mode last.
pub proof fn script_gets_flags_results_and_mode(
    c: ConfigModel,
    json_path: Seq<char>,
    mode: Seq<char>,
)
    ensures
        ({
            let run = integration_command(c, false, json_path, mode);
            let first = integration_command(c, true, json_path, mode);
            let n = c.run_flags.len() as int;
            &&& run.take(n) == c.run_flags && first.take(n) == c.run_flags
            &&& first[n] == "--preflight"@ && first.remove(n) == run
            &&& run[n] == "--json"@ && run[n + 1] == json_path
            &&& run.subrange(n + 2, n + 2 + c.extra_args.len()) == c.extra_args
            &&& run.last() == mode && run.len() == n + 3 + c.extra_args.len()
        }),
{
    let run = integration_command(c, false, json_path, mode);
    let first = integration_command(c, true, json_path, mode);
    let n = c.run_flags.len() as int;
    assert(run.take(n) =~= c.run_flags && first.take(n) =~= c.run_flags);
    assert(first.remove(n) =~= run);
    assert(run.subrange(n + 2, n + 2 + c.extra_args.len()) =~= c.extra_args);
}

/// The artifacts go to the directory that is named, under the root where it is relative; without one
/// they go to that of the run's id among the artifacts.
pub proof fn artifacts_go_where_they_are_told(root: Seq<char>, c: ConfigModel, dir: Seq<char>)
    ensures
        c.work_root == Some(dir) && dir.len() > 0 && dir[0] == '/' ==> work_root_of(root, c) == dir,
        c.work_root == Some(dir) && !(dir.len() > 0 && dir[0] == '/') ==> work_root_of(root, c)
            == joined_path(root, dir),
{
}

/// A mode passes exactly when what was asked of it succeeded: its preflight, and its run where more
/// than the preflight is wanted; a failure is told by the code of the part that failed.
pub proof fn modes_pass_by_their_parts(code: i32, preflight_only: bool, success: bool)
    ensures
        follows_preflight(true, code, false) == AfterPreflight::Run,
        follows_preflight(true, code, true) == AfterPreflight::Done(
            ModeOutcome { passed: true, preflight_passed: true, exit_code: 0 },
        ),
        follows_preflight(false, code, preflight_only) == AfterPreflight::Done(
            ModeOutcome { passed: false, preflight_passed: false, exit_code: code },
        ),
        outcome_of_run(success, code).passed == success,
        outcome_of_run(success, code).preflight_passed,
        outcome_of_run(true, code).exit_code == 0,
        outcome_of_run(false, code).exit_code == code,
{
}

} // verus!
