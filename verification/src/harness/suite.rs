//! The suite: which modes it runs, in which batches, and what it comes to.

use vstd::prelude::*;
use vstd::string::*;

use crate::harness::commands::{measurement_mode_requires_bench_profile, measures};
use crate::json::{
    is_text, is_text_or_null, is_texts, text_item, text_or_null_item, texts_item, Json,
};
use crate::path::{is_absolute, is_absolute_path, join_path, joined_path};
use crate::text::{copy_option, list_items, listed_items, same_text, text_option, texts};

verus! {

// ── Options ──────────────────────────────────────────────────────────────────

/// The modes of a suite that names none.
pub open spec fn suite_default_modes() -> Seq<Seq<char>> {
    seq!["api-smoke"@, "ramp-family"@, "mixed-h264-rtmp"@, "mixed-anchor"@, "mixed-h265-srt"@, "mixed-h264-srt-multi"@, "mixed-h265-srt-multi"@, "bframe-rtmp"@, "correctness-srt-rtmp"@, "correctness-srt-policy"@, "correctness-hevc-rtmp"@, "correctness-hevc-srt"@, "fault-resilience"@, "mixed-file-h264"@, "resource-sweep"@, "bitrate-sweep"@, "branch-matrix"@, "srt-crypto-matrix"@]
}

/// The modes of a suite that names none.
pub fn suite_default_mode_list() -> (r: Vec<String>)
    ensures
        texts(r@) == suite_default_modes(),
{
    let mut v: Vec<String> = Vec::new();
    v.push("api-smoke".to_string());
    v.push("ramp-family".to_string());
    v.push("mixed-h264-rtmp".to_string());
    v.push("mixed-anchor".to_string());
    v.push("mixed-h265-srt".to_string());
    v.push("mixed-h264-srt-multi".to_string());
    v.push("mixed-h265-srt-multi".to_string());
    v.push("bframe-rtmp".to_string());
    v.push("correctness-srt-rtmp".to_string());
    v.push("correctness-srt-policy".to_string());
    v.push("correctness-hevc-rtmp".to_string());
    v.push("correctness-hevc-srt".to_string());
    v.push("fault-resilience".to_string());
    v.push("mixed-file-h264".to_string());
    v.push("resource-sweep".to_string());
    v.push("bitrate-sweep".to_string());
    v.push("branch-matrix".to_string());
    v.push("srt-crypto-matrix".to_string());
    assert(texts(v@) =~= suite_default_modes());
    v
}

/// What a suite is to do.
#[derive(Debug)]
pub struct SuiteOptions {
    pub modes: Vec<String>,
    pub continue_on_fail: bool,
    pub preflight_only: bool,
    pub use_host_net: bool,
    pub run_id: String,
    pub work_root: Option<String>,
}

/// What [`SuiteOptions`] say.
pub struct SuiteModel {
    pub modes: Seq<Seq<char>>,
    pub continue_on_fail: bool,
    pub preflight_only: bool,
    pub use_host_net: bool,
    pub run_id: Seq<char>,
    pub work_root: Option<Seq<char>>,
}

impl View for SuiteOptions {
    type V = SuiteModel;

    open spec fn view(&self) -> SuiteModel {
        SuiteModel {
            modes: texts(self.modes@),
            continue_on_fail: self.continue_on_fail,
            preflight_only: self.preflight_only,
            use_host_net: self.use_host_net,
            run_id: self.run_id@,
            work_root: text_option(self.work_root),
        }
    }
}

/// The options once the rest of the arguments has been read, or why it cannot be.
pub open spec fn suite_after(o: SuiteModel, args: Seq<Seq<char>>) -> Result<SuiteModel, Seq<char>>
    decreases args.len(),
{
    if args.len() == 0 {
        if o.modes.len() == 0 {
            Err("--only-modes produced an empty mode list"@)
        } else {
            Ok(o)
        }
    } else if args[0] == "--only-modes"@ {
        if args.len() < 2 {
            Err("--only-modes requires a value"@)
        } else {
            suite_after(SuiteModel { modes: listed_items(args[1]), ..o }, args.skip(2))
        }
    } else if args[0] == "--run-id"@ {
        if args.len() < 2 {
            Err("--run-id requires a value"@)
        } else {
            suite_after(SuiteModel { run_id: args[1], ..o }, args.skip(2))
        }
    } else if args[0] == "--work-root"@ {
        if args.len() < 2 {
            Err("--work-root requires a value"@)
        } else {
            suite_after(SuiteModel { work_root: Some(args[1]), ..o }, args.skip(2))
        }
    } else if args[0] == "--no-netns"@ {
        suite_after(SuiteModel { use_host_net: true, ..o }, args.skip(1))
    } else if args[0] == "--continue-on-fail"@ {
        suite_after(SuiteModel { continue_on_fail: true, ..o }, args.skip(1))
    } else if args[0] == "--preflight-only"@ {
        suite_after(SuiteModel { preflight_only: true, ..o }, args.skip(1))
    } else {
        Err("unknown suite option: "@ + args[0])
    }
}

/// The options of a suite that was given none.
pub open spec fn suite_base(
    use_host_net: bool,
    run_id: Seq<char>,
    work_root: Option<Seq<char>>,
) -> SuiteModel {
    SuiteModel {
        modes: suite_default_modes(),
        continue_on_fail: false,
        preflight_only: false,
        use_host_net,
        run_id,
        work_root,
    }
}

/// The outcome of reading options, over what they say.
pub open spec fn suite_outcome(r: Result<SuiteOptions, String>) -> Result<SuiteModel, Seq<char>> {
    match r {
        Ok(o) => Ok(o@),
        Err(message) => Err(message@),
    }
}

/// Reads the options of a suite. What the environment says holds until an option says otherwise.
pub fn parse_suite_options(
    use_host_net: bool,
    run_id: &str,
    work_root: &Option<String>,
    raw: &Vec<String>,
) -> (r: Result<SuiteOptions, String>)
    ensures
        suite_outcome(r) == suite_after(
            suite_base(use_host_net, run_id@, text_option(*work_root)),
            texts(raw@),
        ),
{
    let mut o: SuiteOptions = SuiteOptions {
        modes: suite_default_mode_list(),
        continue_on_fail: false,
        preflight_only: false,
        use_host_net,
        run_id: run_id.to_string(),
        work_root: copy_option(work_root),
    };
    let ghost start = suite_base(use_host_net, run_id@, text_option(*work_root));
    let ghost all = texts(raw@);
    let mut i: usize = 0;
    assert(all.skip(0) =~= all);
    while i < raw.len()
        invariant
            i <= raw@.len(),
            all == texts(raw@),
            start == suite_base(use_host_net, run_id@, text_option(*work_root)),
            suite_after(o@, all.skip(i as int)) == suite_after(start, all),
        decreases raw@.len() - i,
    {
        let ghost rest = all.skip(i as int);
        assert(rest[0] == raw@[i as int]@);
        assert(rest.skip(1) =~= all.skip(i + 1));
        let has_value: bool = i < raw.len() - 1;
        if has_value {
            assert(rest[1] == raw@[i + 1]@);
            assert(rest.skip(2) =~= all.skip(i + 2));
        }
        let arg: &str = raw[i].as_str();
        if same_text(arg, "--only-modes") {
            if !has_value {
                return Err("--only-modes requires a value".to_string());
            }
            o.modes = list_items(raw[i + 1].as_str());
            i += 2;
        } else if same_text(arg, "--run-id") {
            if !has_value {
                return Err("--run-id requires a value".to_string());
            }
            o.run_id = raw[i + 1].clone();
            i += 2;
        } else if same_text(arg, "--work-root") {
            if !has_value {
                return Err("--work-root requires a value".to_string());
            }
            o.work_root = Some(raw[i + 1].clone());
            i += 2;
        } else if same_text(arg, "--no-netns") {
            o.use_host_net = true;
            i += 1;
        } else if same_text(arg, "--continue-on-fail") {
            o.continue_on_fail = true;
            i += 1;
        } else if same_text(arg, "--preflight-only") {
            o.preflight_only = true;
            i += 1;
        } else {
            return Err("unknown suite option: ".to_string().concat(arg));
        }
    }
    assert(all.skip(i as int).len() == 0);
    if o.modes.is_empty() {
        return Err("--only-modes produced an empty mode list".to_string());
    }
    Ok(o)
}

/// Whether one of the modes measures.
pub open spec fn any_measures(modes: Seq<Seq<char>>) -> bool {
    exists|i: int| 0 <= i < modes.len() && measures(#[trigger] modes[i])
}

fn any_mode_measures(modes: &Vec<String>) -> (r: bool)
    ensures
        r == any_measures(texts(modes@)),
{
    let mut i: usize = 0;
    while i < modes.len()
        invariant
            i <= modes@.len(),
            forall|k: int| 0 <= k < i ==> !measures(#[trigger] texts(modes@)[k]),
        decreases modes@.len() - i,
    {
        assert(texts(modes@)[i as int] == modes@[i as int]@);
        if measurement_mode_requires_bench_profile(modes[i].as_str()) {
            return true;
        }
        i += 1;
    }
    false
}

/// Whether a suite needs binaries that were built for measuring, or why its options cannot be
/// read.
pub fn suite_modes_require_bench_profile(raw: &Vec<String>) -> (r: Result<bool, String>)
    ensures
        match suite_after(suite_base(false, ""@, None), texts(raw@)) {
            Ok(o) => r is Ok && r->Ok_0 == (o.preflight_only || any_measures(o.modes)),
            Err(message) => r is Err && r->Err_0@ == message,
        },
{
    match parse_suite_options(false, "", &None, raw) {
        Ok(o) => Ok(o.preflight_only || any_mode_measures(&o.modes)),
        Err(message) => Err(message),
    }
}

/// Whether a command may run with the binaries at hand, or why not.
pub fn ensure_measurement_profile(
    command: &str,
    raw: &Vec<String>,
    harness_is_bench: bool,
    restream_is_bench: bool,
) -> (r: Result<(), String>)
    ensures
        ({
            let options = suite_after(suite_base(false, ""@, None), texts(raw@));
            let unreadable = command@ == "suite"@ && options is Err;
            let needs_bench = if command@ == "suite"@ {
                options matches Ok(o) && (o.preflight_only || any_measures(o.modes))
            } else {
                command@ == "preflight"@ || measures(command@)
            };
            match r {
                Ok(_) => !unreadable && (!needs_bench || (harness_is_bench && restream_is_bench)),
                Err(message) => if unreadable {
                    message@ == options->Err_0
                } else {
                    needs_bench && !(harness_is_bench && restream_is_bench) && message@ == command@
                        + " requires bench-profile binaries for valid measurements; build them with `scripts/build-bench-harness.sh` and run `target/bench/test_harness`"@
                },
            }
        }),
{
    let needs_bench: bool = if same_text(command, "suite") {
        match suite_modes_require_bench_profile(raw) {
            Ok(b) => b,
            Err(message) => {
                return Err(message);
            },
        }
    } else {
        same_text(command, "preflight") || measurement_mode_requires_bench_profile(command)
    };
    if !needs_bench || (harness_is_bench && restream_is_bench) {
        return Ok(());
    }
    Err(
        command.to_string().concat(
            " requires bench-profile binaries for valid measurements; build them with `scripts/build-bench-harness.sh` and run `target/bench/test_harness`",
        ),
    )
}

/// The directory of a suite.
pub open spec fn suite_root(cwd: Seq<char>, work_root: Option<Seq<char>>, run_id: Seq<char>) -> Seq<
    char,
> {
    let chosen = match work_root {
        Some(p) => p,
        None => joined_path(joined_path(cwd, "test/artifacts"@), run_id),
    };
    if is_absolute_path(chosen) {
        chosen
    } else {
        joined_path(cwd, chosen)
    }
}

/// The directory of a suite, from the current directory.
pub fn suite_work_root(cwd: &str, options: &SuiteOptions) -> (r: String)
    ensures
        r@ == suite_root(cwd@, options@.work_root, options@.run_id),
{
    let chosen: String = match &options.work_root {
        Some(p) => p.clone(),
        None => join_path(join_path(cwd, "test/artifacts").as_str(), options.run_id.as_str()),
    };
    if is_absolute(chosen.as_str()) {
        chosen
    } else {
        join_path(cwd, chosen.as_str())
    }
}

// ── Batches ──────────────────────────────────────────────────────────────────

/// Whether a mode may run beside others: it is really run, and does not measure.
pub open spec fn runs_beside_others(mode: Seq<char>, preflight_only: bool) -> bool {
    !preflight_only && !measures(mode)
}

/// Whether a mode may run beside others.
pub fn suite_mode_is_parallelizable(mode: &str, preflight_only: bool) -> (r: bool)
    ensures
        r == runs_beside_others(mode@, preflight_only),
{
    !preflight_only && !measurement_mode_requires_bench_profile(mode)
}

/// Where the run of modes ends that may run beside each other and begins at `from`.
pub open spec fn batch_end(modes: Seq<Seq<char>>, from: int, preflight_only: bool) -> int
    decreases modes.len() - from,
{
    if from < 0 || from >= modes.len() || !runs_beside_others(modes[from], preflight_only) {
        from
    } else {
        batch_end(modes, from + 1, preflight_only)
    }
}

/// What the suite runs next.
#[derive(Debug, Clone, Copy, PartialEq, Eq, Structural)]
pub enum Batch {
    /// The modes from `from` up to `to`, at once.
    Parallel { from: usize, to: usize },
    /// One mode.
    Single { at: usize },
    /// Nothing.
    Over,
}

/// What the suite runs next, once it has come to the mode at `index`.
pub open spec fn batch_at(
    modes: Seq<Seq<char>>,
    index: int,
    preflight_only: bool,
    has_namespaces: bool,
) -> Batch {
    if index >= modes.len() {
        Batch::Over
    } else if has_namespaces && runs_beside_others(modes[index], preflight_only) {
        Batch::Parallel {
            from: index as usize,
            to: batch_end(modes, index, preflight_only) as usize,
        }
    } else {
        Batch::Single { at: index as usize }
    }
}

/// What the suite runs next, once it has come to the mode at `index`. Modes run beside each other
/// only where each gets a network of its own.
pub fn next_batch(modes: &Vec<String>, index: usize, preflight_only: bool, has_namespaces: bool) -> (r:
    Batch)
    ensures
        r == batch_at(texts(modes@), index as int, preflight_only, has_namespaces),
        match r {
            Batch::Parallel { from, to } => from == index && index < to <= modes@.len(),
            Batch::Single { at } => at == index && index < modes@.len(),
            Batch::Over => index >= modes@.len(),
        },
{
    let ghost all = texts(modes@);
    if index >= modes.len() {
        return Batch::Over;
    }
    assert(all[index as int] == modes@[index as int]@);
    if !(has_namespaces && suite_mode_is_parallelizable(modes[index].as_str(), preflight_only)) {
        return Batch::Single { at: index };
    }
    let mut to: usize = index;
    while to < modes.len() && suite_mode_is_parallelizable(modes[to].as_str(), preflight_only)
        invariant
            index <= to <= modes@.len(),
            all == texts(modes@),
            runs_beside_others(all[index as int], preflight_only),
            index < modes@.len(),
            batch_end(all, index as int, preflight_only) == batch_end(
                all,
                to as int,
                preflight_only,
            ),
        decreases modes@.len() - to,
    {
        assert(all[to as int] == modes@[to as int]@);
        to += 1;
    }
    proof {
        if to < modes@.len() {
            assert(all[to as int] == modes@[to as int]@);
        }
        if to == index {
            assert(runs_beside_others(all[to as int], preflight_only));
        }
    }
    Batch::Parallel { from: index, to }
}

/// Where the suite comes to after a batch.
pub fn after_batch(batch: Batch) -> (r: Option<usize>)
    requires
        batch matches Batch::Single { at } ==> at < usize::MAX,
    ensures
        r == (match batch {
            Batch::Parallel { to, .. } => Some(to),
            Batch::Single { at } => Some((at + 1) as usize),
            Batch::Over => None,
        }),
{
    match batch {
        Batch::Parallel { to, .. } => Some(to),
        Batch::Single { at } => Some(at + 1),
        Batch::Over => None,
    }
}

/// The command that runs a mode, or only looks whether it could be run.
pub fn mode_command<'a>(mode: &'a str, preflight_only: bool) -> (r: &'a str)
    ensures
        r@ == (if preflight_only {
            "preflight"@
        } else {
            mode@
        }),
{
    if preflight_only {
        "preflight"
    } else {
        mode
    }
}

/// Whether the suite goes on after a batch.
pub fn goes_on(overall_ok: bool, continue_on_fail: bool) -> (r: bool)
    ensures
        r == (overall_ok || continue_on_fail),
{
    overall_ok || continue_on_fail
}

// ── Records ──────────────────────────────────────────────────────────────────

/// Whether a value records a mode.
pub open spec fn records_mode(
    j: Json,
    mode: Seq<char>,
    passed: bool,
    started_at: Seq<char>,
    finished_at: Seq<char>,
    mode_dir: Seq<char>,
) -> bool {
    match j {
        Json::Object(fields) => {
            let f = fields@;
            &&& f.len() == 6
            &&& is_text(f[0], "mode"@, mode)
            &&& is_text(
                f[1],
                "status"@,
                if passed {
                    "PASS"@
                } else {
                    "FAIL"@
                },
            )
            &&& is_text(f[2], "startedAt"@, started_at)
            &&& is_text(f[3], "finishedAt"@, finished_at)
            &&& is_text(f[4], "workDir"@, mode_dir)
            &&& is_text(f[5], "log"@, joined_path(mode_dir, "run.log"@))
        },
        _ => false,
    }
}

/// The record of a mode.
pub fn suite_result_record(
    mode: &str,
    passed: bool,
    started_at: &str,
    finished_at: &str,
    mode_dir: &str,
) -> (r: Json)
    ensures
        records_mode(r, mode@, passed, started_at@, finished_at@, mode_dir@),
{
    let mut f: Vec<(String, Json)> = Vec::new();
    f.push(text_item("mode", mode));
    f.push(
        text_item(
            "status",
            if passed {
                "PASS"
            } else {
                "FAIL"
            },
        ),
    );
    f.push(text_item("startedAt", started_at));
    f.push(text_item("finishedAt", finished_at));
    f.push(text_item("workDir", mode_dir));
    f.push(text_item("log", join_path(mode_dir, "run.log").as_str()));
    Json::Object(f)
}

/// Whether a value is the manifest of a suite.
pub open spec fn is_suite_manifest(
    j: Json,
    status: Seq<char>,
    started_at: Seq<char>,
    finished_at: Option<Seq<char>>,
    run_id: Seq<char>,
    modes: Seq<Seq<char>>,
    work_root: Seq<char>,
    results: Seq<char>,
) -> bool {
    match j {
        Json::Object(fields) => {
            let f = fields@;
            &&& f.len() == 8
            &&& is_text(f[0], "kind"@, "suite"@)
            &&& is_text(f[1], "status"@, status)
            &&& is_text(f[2], "runId"@, run_id)
            &&& is_text(f[3], "startedAt"@, started_at)
            &&& is_text_or_null(f[4], "finishedAt"@, finished_at)
            &&& is_text(f[5], "workRoot"@, work_root)
            &&& is_texts(f[6], "modes"@, modes)
            &&& is_text(f[7], "resultsJsonl"@, results)
        },
        _ => false,
    }
}

/// The manifest of a suite.
pub fn suite_manifest(
    status: &str,
    started_at: &str,
    finished_at: &Option<String>,
    run_id: &str,
    modes: &Vec<String>,
    work_root: &str,
    results: &str,
) -> (r: Json)
    ensures
        is_suite_manifest(
            r,
            status@,
            started_at@,
            text_option(*finished_at),
            run_id@,
            texts(modes@),
            work_root@,
            results@,
        ),
{
    let mut f: Vec<(String, Json)> = Vec::new();
    f.push(text_item("kind", "suite"));
    f.push(text_item("status", status));
    f.push(text_item("runId", run_id));
    f.push(text_item("startedAt", started_at));
    f.push(text_or_null_item("finishedAt", finished_at));
    f.push(text_item("workRoot", work_root));
    f.push(texts_item("modes", modes));
    f.push(text_item("resultsJsonl", results));
    Json::Object(f)
}

// ── Preflight ────────────────────────────────────────────────────────────────

/// The bytes of a mebibyte.
pub const MIB: u64 = 1_048_576;

/// What a preflight found.
#[derive(Debug)]
pub struct PreflightFindings {
    /// The server is there and can be run.
    pub binary_ok: bool,
    /// The tools that are missing.
    pub missing_tools: Vec<String>,
    /// What is free on the disk of the artifacts, in MiB, where that is known.
    pub free_mb: Option<u64>,
    /// What has to be free.
    pub min_free_mb: u64,
    pub harness_is_bench: bool,
    pub restream_is_bench: bool,
}

/// How a check came out.
#[derive(Debug, Clone, Copy, PartialEq, Eq, Structural)]
pub enum CheckStatus {
    Passed,
    Failed,
    Skipped,
}

impl CheckStatus {
    /// The word for the outcome.
    pub fn word(self) -> (r: &'static str)
        ensures
            r@ == (match self {
                CheckStatus::Passed => "ok"@,
                CheckStatus::Failed => "fail"@,
                CheckStatus::Skipped => "skip"@,
            }),
    {
        match self {
            CheckStatus::Passed => "ok",
            CheckStatus::Failed => "fail",
            CheckStatus::Skipped => "skip",
        }
    }
}

/// What is free, in MiB, of blocks of a size.
pub fn free_mebibytes(block_size: u64, blocks_available: u64) -> (r: u64)
    requires
        block_size * blocks_available <= u64::MAX,
    ensures
        r == block_size * blocks_available / (MIB as int),
{
    block_size * blocks_available / MIB
}

/// How the check of the disk came out: skipped where nothing is known.
pub open spec fn disk_status(free_mb: Option<u64>, min_free_mb: u64) -> CheckStatus {
    match free_mb {
        Some(free) => if free >= min_free_mb {
            CheckStatus::Passed
        } else {
            CheckStatus::Failed
        },
        None => CheckStatus::Skipped,
    }
}

/// How the check of the disk came out.
pub fn check_disk(free_mb: Option<u64>, min_free_mb: u64) -> (r: CheckStatus)
    ensures
        r == disk_status(free_mb, min_free_mb),
{
    match free_mb {
        Some(free) => if free >= min_free_mb {
            CheckStatus::Passed
        } else {
            CheckStatus::Failed
        },
        None => CheckStatus::Skipped,
    }
}

impl PreflightFindings {
    /// Everything is there, the disk is not known to be too full, and the programs are fit to
    /// measure with.
    pub open spec fn lets_run(self) -> bool {
        self.binary_ok && self.missing_tools@.len() == 0 && disk_status(
            self.free_mb,
            self.min_free_mb,
        ) != CheckStatus::Failed && self.harness_is_bench && self.restream_is_bench
    }
}

/// Whether everything is there that a suite needs. A disk of which nothing is known is no reason to
/// fail.
pub fn preflight_passes(f: &PreflightFindings) -> (r: bool)
    ensures
        r == f.lets_run(),
{
    let disk_failed: bool = match check_disk(f.free_mb, f.min_free_mb) {
        CheckStatus::Failed => true,
        _ => false,
    };
    f.binary_ok && f.missing_tools.is_empty() && !disk_failed && f.harness_is_bench
        && f.restream_is_bench
}

// ── Laws ─────────────────────────────────────────────────────────────────────

/// Every mode of a batch may run beside others, and the batch goes as far as that holds.
pub proof fn batch_is_maximal(modes: Seq<Seq<char>>, from: int, preflight_only: bool)
    requires
        0 <= from <= modes.len(),
    ensures
        from <= batch_end(modes, from, preflight_only) <= modes.len(),
        forall|i: int|
            from <= i < batch_end(modes, from, preflight_only) ==> runs_beside_others(
                #[trigger] modes[i],
                preflight_only,
            ),
        batch_end(modes, from, preflight_only) < modes.len() ==> !runs_beside_others(
            modes[batch_end(modes, from, preflight_only)],
            preflight_only,
        ),
    decreases modes.len() - from,
{
    if from < modes.len() && runs_beside_others(modes[from], preflight_only) {
        batch_is_maximal(modes, from + 1, preflight_only);
    }
}

/// A mode that measures is never run beside another.
pub proof fn measuring_mode_runs_alone(
    modes: Seq<Seq<char>>,
    index: int,
    preflight_only: bool,
    has_namespaces: bool,
    i: int,
)
    requires
        0 <= index < modes.len() <= usize::MAX,
        0 <= i < modes.len(),
        measures(modes[i]),
    ensures
        batch_at(modes, index, preflight_only, has_namespaces) matches Batch::Parallel {
            from,
            to,
        } ==> !(from <= i < to),
{
    batch_is_maximal(modes, index, preflight_only);
}

/// A suite that only looks whether its modes could be run, or whose modes share a network, runs
/// them one after another.
pub proof fn preflight_is_sequential(
    modes: Seq<Seq<char>>,
    index: int,
    preflight_only: bool,
    has_namespaces: bool,
)
    requires
        preflight_only || !has_namespaces,
        0 <= index,
    ensures
        !(batch_at(modes, index, preflight_only, has_namespaces) is Parallel),
{
}

/// A suite that is accepted has at least one mode.
pub proof fn accepted_suite_has_modes(o: SuiteModel, args: Seq<Seq<char>>)
    ensures
        suite_after(o, args) matches Ok(m) ==> m.modes.len() > 0,
    decreases args.len(),
{
    if args.len() > 0 {
        accepted_suite_has_modes(SuiteModel { use_host_net: true, ..o }, args.skip(1));
        accepted_suite_has_modes(SuiteModel { continue_on_fail: true, ..o }, args.skip(1));
        accepted_suite_has_modes(SuiteModel { preflight_only: true, ..o }, args.skip(1));
        if args.len() >= 2 {
            accepted_suite_has_modes(SuiteModel { modes: listed_items(args[1]), ..o }, args.skip(2));
            accepted_suite_has_modes(SuiteModel { run_id: args[1], ..o }, args.skip(2));
            accepted_suite_has_modes(SuiteModel { work_root: Some(args[1]), ..o }, args.skip(2));
        }
    }
}

proof fn lemma_suite_options_differ()
    ensures
        "--run-id"@ != "--only-modes"@,
        "--work-root"@ != "--only-modes"@ && "--work-root"@ != "--run-id"@,
        "--no-netns"@ != "--only-modes"@ && "--no-netns"@ != "--run-id"@ && "--no-netns"@
            != "--work-root"@,
        "--continue-on-fail"@ != "--only-modes"@ && "--continue-on-fail"@ != "--run-id"@
            && "--continue-on-fail"@ != "--work-root"@ && "--continue-on-fail"@ != "--no-netns"@,
        "--preflight-only"@ != "--only-modes"@ && "--preflight-only"@ != "--run-id"@
            && "--preflight-only"@ != "--work-root"@ && "--preflight-only"@ != "--no-netns"@
            && "--preflight-only"@ != "--continue-on-fail"@,
{
    reveal_strlit("--only-modes");
    reveal_strlit("--run-id");
    reveal_strlit("--work-root");
    reveal_strlit("--no-netns");
    reveal_strlit("--continue-on-fail");
    reveal_strlit("--preflight-only");
    assert("--only-modes"@[2] == 'o' && "--run-id"@[2] == 'r' && "--work-root"@[2] == 'w');
    assert("--no-netns"@[2] == 'n' && "--continue-on-fail"@[2] == 'c' && "--preflight-only"@[2]
        == 'p');
}

/// Each option of a suite sets what it names and leaves the rest of the command line to be read.
pub proof fn suite_options_set_what_they_name(
    o: SuiteModel,
    value: Seq<char>,
    rest: Seq<Seq<char>>,
)
    ensures
        suite_after(o, seq!["--only-modes"@, value] + rest) == suite_after(
            SuiteModel { modes: listed_items(value), ..o },
            rest,
        ),
        suite_after(o, seq!["--run-id"@, value] + rest) == suite_after(
            SuiteModel { run_id: value, ..o },
            rest,
        ),
        suite_after(o, seq!["--work-root"@, value] + rest) == suite_after(
            SuiteModel { work_root: Some(value), ..o },
            rest,
        ),
        suite_after(o, seq!["--no-netns"@] + rest) == suite_after(
            SuiteModel { use_host_net: true, ..o },
            rest,
        ),
        suite_after(o, seq!["--continue-on-fail"@] + rest) == suite_after(
            SuiteModel { continue_on_fail: true, ..o },
            rest,
        ),
        suite_after(o, seq!["--preflight-only"@] + rest) == suite_after(
            SuiteModel { preflight_only: true, ..o },
            rest,
        ),
        o.modes.len() > 0 ==> suite_after(o, Seq::empty()) == Ok::<_, Seq<char>>(o),
{
    lemma_suite_options_differ();
    assert((seq!["--only-modes"@, value] + rest).skip(2) =~= rest);
    assert((seq!["--run-id"@, value] + rest).skip(2) =~= rest);
    assert((seq!["--work-root"@, value] + rest).skip(2) =~= rest);
    assert((seq!["--no-netns"@] + rest).skip(1) =~= rest);
    assert((seq!["--continue-on-fail"@] + rest).skip(1) =~= rest);
    assert((seq!["--preflight-only"@] + rest).skip(1) =~= rest);
}

/// A suite that names no modes runs eighteen of them, stops at a failure, and does not end with the
/// preflight.
pub proof fn default_suite_runs_all_modes(
    use_host_net: bool,
    run_id: Seq<char>,
    work_root: Option<Seq<char>>,
)
    ensures
        ({
            let o = suite_base(use_host_net, run_id, work_root);
            &&& o.modes.len() == 18
            &&& o.modes[0] == "api-smoke"@ && o.modes.last() == "srt-crypto-matrix"@
            &&& o.modes.contains("fault-resilience"@) && o.modes.contains("mixed-anchor"@)
                && o.modes.contains("correctness-srt-policy"@) && o.modes.contains("bframe-rtmp"@)
            &&& !o.continue_on_fail && !o.preflight_only
            &&& o.use_host_net == use_host_net && o.run_id == run_id && o.work_root == work_root
        }),
{
    let o = suite_base(use_host_net, run_id, work_root);
    assert(o.modes[12] == "fault-resilience"@ && o.modes[3] == "mixed-anchor"@ && o.modes[9]
        == "correctness-srt-policy"@ && o.modes[7] == "bframe-rtmp"@);
}

/// A machine is ready for a suite exactly when the server's program is there, no tool is missing, the
/// disk has room or is not known to have none, and both programs are built for measuring.
pub proof fn machine_is_ready_in_full(f: PreflightFindings)
    ensures
        f.lets_run() <==> f.binary_ok && f.missing_tools@.len() == 0 && (f.free_mb is None
            || f.free_mb->0 >= f.min_free_mb) && f.harness_is_bench && f.restream_is_bench,
        disk_status(f.free_mb, f.min_free_mb) == CheckStatus::Skipped <==> f.free_mb is None,
        disk_status(f.free_mb, f.min_free_mb) == CheckStatus::Failed <==> f.free_mb is Some
            && f.free_mb->0 < f.min_free_mb,
{
}

/// A mode runs beside others exactly when it measures nothing and is not a preflight.
pub proof fn modes_that_measure_run_alone(mode: Seq<char>, preflight_only: bool)
    ensures
        runs_beside_others(mode, preflight_only) <==> !preflight_only && !measures(mode),
{
}

} // verus!
