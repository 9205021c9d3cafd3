//! The commands of the harness: which there are, what they need, and where they leave what they
//! make.

use vstd::prelude::*;
use vstd::string::*;

use crate::path::{join_path, joined_path};
use crate::text::{
    ascii_lower, quote, quoted, same_text, split, split_text, text_option, texts, to_ascii_lower,
};

verus! {

// ── Build profiles ───────────────────────────────────────────────────────────

/// The parts of a path that name something.
pub open spec fn named_parts(pieces: Seq<Seq<char>>) -> Seq<Seq<char>>
    decreases pieces.len(),
{
    if pieces.len() == 0 {
        Seq::empty()
    } else if pieces.last().len() == 0 || pieces.last() == "."@ {
        named_parts(pieces.drop_last())
    } else {
        named_parts(pieces.drop_last()).push(pieces.last())
    }
}

/// A profile of the build.
#[derive(Debug, Clone, Copy, PartialEq, Eq, Structural)]
pub enum Profile {
    Debug,
    Release,
    Bench,
}

/// The profile of a name.
pub open spec fn profile_named(name: Seq<char>) -> Option<Profile> {
    if name == "debug"@ {
        Some(Profile::Debug)
    } else if name == "release"@ {
        Some(Profile::Release)
    } else if name == "bench"@ {
        Some(Profile::Bench)
    } else {
        None
    }
}

/// The profile that stands behind the first `target` among the parts of a path.
pub open spec fn profile_in(parts: Seq<Seq<char>>) -> Option<Profile>
    decreases parts.len(),
{
    if parts.len() < 2 {
        None
    } else if parts[0] == "target"@ {
        profile_named(parts[1])
    } else {
        profile_in(parts.skip(1))
    }
}

/// The profile that a binary at a path was built with.
pub open spec fn profile_of(path: Seq<char>) -> Option<Profile> {
    profile_in(named_parts(split(path, '/')))
}

fn named_part_list(pieces: &Vec<String>) -> (r: Vec<String>)
    ensures
        texts(r@) == named_parts(texts(pieces@)),
{
    let ghost all = texts(pieces@);
    let mut out: Vec<String> = Vec::new();
    let mut i: usize = 0;
    assert(all.take(0) =~= Seq::<Seq<char>>::empty());
    assert(texts(out@) =~= Seq::<Seq<char>>::empty());
    while i < pieces.len()
        invariant
            i <= pieces@.len(),
            all == texts(pieces@),
            texts(out@) == named_parts(all.take(i as int)),
        decreases pieces@.len() - i,
    {
        assert(all.take(i + 1).drop_last() =~= all.take(i as int));
        assert(all.take(i + 1).last() == pieces@[i as int]@);
        if !pieces[i].as_str().is_empty() && !same_text(pieces[i].as_str(), ".") {
            let ghost before = out@;
            out.push(pieces[i].clone());
            assert(texts(out@) =~= texts(before).push(pieces@[i as int]@));
        }
        i += 1;
    }
    assert(all.take(all.len() as int) =~= all);
    out
}

/// The profile that a binary at a path was built with.
pub fn path_profile(path: &str) -> (r: Option<Profile>)
    ensures
        r == profile_of(path@),
{
    let parts: Vec<String> = named_part_list(&split_text(path, '/'));
    let ghost all = texts(parts@);
    let mut i: usize = 0;
    assert(all.skip(0) =~= all);
    if parts.len() < 2 {
        return None;
    }
    let last: usize = parts.len() - 1;
    while i < last
        invariant
            i <= last,
            last == parts@.len() - 1,
            all == texts(parts@),
            all == named_parts(split(path@, '/')),
            profile_in(all) == profile_in(all.skip(i as int)),
        decreases last - i,
    {
        assert(all.skip(i as int)[0] == parts@[i as int]@);
        assert(all.skip(i as int)[1] == parts@[i + 1]@);
        assert(all.skip(i as int).skip(1) =~= all.skip(i + 1));
        if same_text(parts[i].as_str(), "target") {
            let name: &str = parts[i + 1].as_str();
            return if same_text(name, "debug") {
                Some(Profile::Debug)
            } else if same_text(name, "release") {
                Some(Profile::Release)
            } else if same_text(name, "bench") {
                Some(Profile::Bench)
            } else {
                None
            };
        }
        i += 1;
    }
    assert(all.skip(i as int).len() < 2);
    None
}

/// Whether a binary was built for measuring.
pub fn is_bench_profile(path: &str) -> (r: bool)
    ensures
        r == (profile_of(path@) == Some(Profile::Bench)),
{
    match path_profile(path) {
        Some(Profile::Bench) => true,
        _ => false,
    }
}

// ── Paths ────────────────────────────────────────────────────────────────────

/// The database of a run, in the directory of the run.
pub fn default_work_db_path(work_dir: &str, file_name: &str) -> (r: String)
    ensures
        r@ == joined_path(work_dir@, file_name@),
{
    join_path(work_dir, file_name)
}

/// The directory that artifacts go to.
pub open spec fn artifact_dir(artifact_env: Option<Seq<char>>, work_env: Option<Seq<char>>) -> Seq<
    char,
> {
    match artifact_env {
        Some(dir) => dir,
        None => match work_env {
            Some(dir) => dir,
            None => "test/artifacts/latest"@,
        },
    }
}

/// Where an artifact goes: under `TEST_HARNESS_ARTIFACT_DIR`, else under `WORK_DIR`, else under the
/// directory of the latest run.
pub fn artifact_path(artifact_env: &Option<String>, work_env: &Option<String>, name: &str) -> (r:
    String)
    ensures
        r@ == joined_path(
            artifact_dir(text_option(*artifact_env), text_option(*work_env)),
            name@,
        ),
{
    let dir: String = match artifact_env {
        Some(d) => d.clone(),
        None => match work_env {
            Some(d) => d.clone(),
            None => "test/artifacts/latest".to_string(),
        },
    };
    join_path(dir.as_str(), name)
}

/// The server that is tested: the one that `RESTREAM_BIN` names, else the one beside the harness
/// where it is a file, else that of the release build.
pub fn default_restream_bin(
    env_value: &Option<String>,
    sibling: &Option<String>,
    sibling_is_file: bool,
) -> (r: String)
    ensures
        r@ == match text_option(*env_value) {
            Some(p) => p,
            None => match text_option(*sibling) {
                Some(p) => if sibling_is_file {
                    p
                } else {
                    "target/release/restream"@
                },
                None => "target/release/restream"@,
            },
        },
{
    match env_value {
        Some(p) => p.clone(),
        None => match sibling {
            Some(p) => if sibling_is_file {
                p.clone()
            } else {
                "target/release/restream".to_string()
            },
            None => "target/release/restream".to_string(),
        },
    }
}

// ── What commands need ───────────────────────────────────────────────────────

/// The commands that open ports, and so want a network of their own.
pub open spec fn opens_ports(command: Seq<char>) -> bool {
    command == "api-smoke"@ || command == "correctness"@ || command == "correctness-rtmp"@ || command == "correctness-srt"@ || command == "correctness-srt-rtmp"@ || command == "correctness-srt-policy"@ || command == "bframe-rtmp"@ || command == "ramp-family"@ || command == "mixed-h264-rtmp"@ || command == "mixed-anchor"@ || command == "mixed-h265-srt"@ || command == "mixed-h264-srt-multi"@ || command == "mixed-h265-srt-multi"@ || command == "egress"@ || command == "correctness-hevc-rtmp"@ || command == "correctness-hevc-srt"@ || command == "fault-egress-retry"@ || command == "fault-resilience"@ || command == "recovery"@ || command == "mixed-file-h264"@ || command == "resource-sweep"@ || command == "bitrate-sweep"@ || command == "branch-matrix"@ || command == "srt-crypto-matrix"@
}

/// The modes that measure, and so want binaries built for that.
pub open spec fn measures(mode: Seq<char>) -> bool {
    mode == "ramp-family"@ || mode == "mixed-h264-rtmp"@ || mode == "mixed-anchor"@ || mode == "mixed-h265-srt"@ || mode == "mixed-h264-srt-multi"@ || mode == "mixed-h265-srt-multi"@ || mode == "resource-sweep"@ || mode == "bitrate-sweep"@ || mode == "branch-matrix"@ || mode == "srt-crypto-matrix"@
}

pub fn command_requires_port_namespace(command: &str) -> (r: bool)
    ensures
        r == opens_ports(command@),
{
    same_text(command, "api-smoke") || same_text(command, "correctness") || same_text(command, "correctness-rtmp") || same_text(command, "correctness-srt") || same_text(command, "correctness-srt-rtmp") || same_text(command, "correctness-srt-policy") || same_text(command, "bframe-rtmp") || same_text(command, "ramp-family") || same_text(command, "mixed-h264-rtmp") || same_text(command, "mixed-anchor") || same_text(command, "mixed-h265-srt") || same_text(command, "mixed-h264-srt-multi") || same_text(command, "mixed-h265-srt-multi") || same_text(command, "egress") || same_text(command, "correctness-hevc-rtmp") || same_text(command, "correctness-hevc-srt") || same_text(command, "fault-egress-retry") || same_text(command, "fault-resilience") || same_text(command, "recovery") || same_text(command, "mixed-file-h264") || same_text(command, "resource-sweep") || same_text(command, "bitrate-sweep") || same_text(command, "branch-matrix") || same_text(command, "srt-crypto-matrix")
}

pub fn measurement_mode_requires_bench_profile(mode: &str) -> (r: bool)
    ensures
        r == measures(mode@),
{
    same_text(mode, "ramp-family") || same_text(mode, "mixed-h264-rtmp") || same_text(mode, "mixed-anchor") || same_text(mode, "mixed-h265-srt") || same_text(mode, "mixed-h264-srt-multi") || same_text(mode, "mixed-h265-srt-multi") || same_text(mode, "resource-sweep") || same_text(mode, "bitrate-sweep") || same_text(mode, "branch-matrix") || same_text(mode, "srt-crypto-matrix")
}

/// Whether a variable asks for the network of the host.
pub open spec fn asks_host_net(value: Option<Seq<char>>) -> bool {
    value matches Some(v) && (v == "1"@ || ascii_lower(v) == "true"@)
}

/// Whether a variable asks for the network of the host.
pub fn env_asks_host_net(value: &Option<String>) -> (r: bool)
    ensures
        r == asks_host_net(text_option(*value)),
{
    match value {
        Some(v) => same_text(v.as_str(), "1") || same_text(
            to_ascii_lower(v.as_str()).as_str(),
            "true",
        ),
        None => false,
    }
}

/// Whether a list holds a text.
pub open spec fn holds(list: Seq<Seq<char>>, text: Seq<char>) -> bool {
    exists|i: int| 0 <= i < list.len() && #[trigger] list[i] == text
}

fn list_holds(list: &Vec<String>, text: &str) -> (r: bool)
    ensures
        r == holds(texts(list@), text@),
{
    let mut i: usize = 0;
    while i < list.len()
        invariant
            i <= list@.len(),
            forall|k: int| 0 <= k < i ==> #[trigger] texts(list@)[k] != text@,
        decreases list@.len() - i,
    {
        assert(texts(list@)[i as int] == list@[i as int]@);
        if same_text(list[i].as_str(), text) {
            return true;
        }
        i += 1;
    }
    false
}

/// Whether a command runs in the network of the host: by an argument, or by
/// `TEST_HARNESS_USE_HOST_NET`.
pub fn command_uses_host_net(raw: &Vec<String>, env_value: &Option<String>) -> (r: bool)
    ensures
        r == (holds(texts(raw@), "--no-netns"@) || asks_host_net(text_option(*env_value))),
{
    list_holds(raw, "--no-netns") || env_asks_host_net(env_value)
}

/// The arguments without those that ask for the network of the host.
pub open spec fn without_netns_opt(raw: Seq<Seq<char>>) -> Seq<Seq<char>>
    decreases raw.len(),
{
    if raw.len() == 0 {
        Seq::empty()
    } else if raw.last() == "--no-netns"@ {
        without_netns_opt(raw.drop_last())
    } else {
        without_netns_opt(raw.drop_last()).push(raw.last())
    }
}

/// The arguments without those that ask for the network of the host.
pub fn strip_netns_opt(raw: &Vec<String>) -> (r: Vec<String>)
    ensures
        texts(r@) == without_netns_opt(texts(raw@)),
{
    let ghost all = texts(raw@);
    let mut out: Vec<String> = Vec::new();
    let mut i: usize = 0;
    assert(all.take(0) =~= Seq::<Seq<char>>::empty());
    assert(texts(out@) =~= Seq::<Seq<char>>::empty());
    while i < raw.len()
        invariant
            i <= raw@.len(),
            all == texts(raw@),
            texts(out@) == without_netns_opt(all.take(i as int)),
        decreases raw@.len() - i,
    {
        assert(all.take(i + 1).drop_last() =~= all.take(i as int));
        assert(all.take(i + 1).last() == raw@[i as int]@);
        if !same_text(raw[i].as_str(), "--no-netns") {
            let ghost before = out@;
            out.push(raw[i].clone());
            assert(texts(out@) =~= texts(before).push(raw@[i as int]@));
        }
        i += 1;
    }
    assert(all.take(all.len() as int) =~= all);
    out
}

/// What is done about the network before a command runs.
#[derive(Debug)]
pub enum NamespaceAction {
    /// Run as it is.
    Stay,
    /// Run again in a network of its own, with these arguments.
    Reexec(Vec<String>),
    /// It cannot be run, and why.
    Refuse(String),
}

/// The command of an argument list; `suite` where there is none.
pub open spec fn command_in(raw: Seq<Seq<char>>) -> Seq<char> {
    if raw.len() == 0 {
        "suite"@
    } else {
        raw[0]
    }
}

/// Whether a command has to run in a network of its own.
pub open spec fn needs_namespace(
    inside: bool,
    raw: Seq<Seq<char>>,
    env_value: Option<Seq<char>>,
) -> bool {
    let command = command_in(raw);
    !inside && command != "suite"@ && command != "preflight"@ && opens_ports(command) && !(holds(
        raw,
        "--no-netns"@,
    ) || asks_host_net(env_value))
}

/// What is done about the network before a command runs; `inside` says that it runs in a network of
/// its own already, and `available` that one can be made.
pub fn maybe_reexec_in_port_namespace(
    inside: bool,
    raw: &Vec<String>,
    env_value: &Option<String>,
    available: bool,
) -> (r: NamespaceAction)
    ensures
        match r {
            NamespaceAction::Stay => !needs_namespace(
                inside,
                texts(raw@),
                text_option(*env_value),
            ),
            NamespaceAction::Reexec(args) => needs_namespace(
                inside,
                texts(raw@),
                text_option(*env_value),
            ) && available && texts(args@) == without_netns_opt(texts(raw@)),
            NamespaceAction::Refuse(message) => needs_namespace(
                inside,
                texts(raw@),
                text_option(*env_value),
            ) && !available && message@ == command_in(texts(raw@))
                + " requires a network namespace by default; install `unshare` support or rerun with --no-netns"@,
        },
{
    let command: String = if raw.is_empty() {
        "suite".to_string()
    } else {
        assert(texts(raw@)[0] == raw@[0]@);
        raw[0].clone()
    };
    if inside || same_text(command.as_str(), "suite") || same_text(command.as_str(), "preflight")
        || !command_requires_port_namespace(command.as_str()) || command_uses_host_net(
        raw,
        env_value,
    ) {
        return NamespaceAction::Stay;
    }
    if !available {
        return NamespaceAction::Refuse(
            command.concat(
                " requires a network namespace by default; install `unshare` support or rerun with --no-netns",
            ),
        );
    }
    NamespaceAction::Reexec(strip_netns_opt(raw))
}

// ── Which commands there are ─────────────────────────────────────────────────

/// What the harness can be told to do.
#[derive(Debug, Clone, Copy, PartialEq, Eq, Structural)]
pub enum Command {
    ApiSmoke,
    Correctness,
    CorrectnessRtmp,
    CorrectnessSrt,
    CorrectnessSrtRtmp,
    CorrectnessSrtPolicy,
    BframeRtmp,
    RampFamily,
    MixedH264Rtmp,
    MixedAnchor,
    MixedH265Srt,
    MixedH264SrtMulti,
    MixedH265SrtMulti,
    Suite,
    Preflight,
    Egress,
    CorrectnessHevcRtmp,
    CorrectnessHevcSrt,
    FaultEgressRetry,
    FaultResilience,
    Recovery,
    MixedFileH264,
    ResourceSweep,
    BitrateSweep,
    BranchMatrix,
    SrtCryptoMatrix,
}

/// The command of this name.
pub open spec fn command_named(word: Seq<char>) -> Option<Command> {
    if word == "api-smoke"@ {
        Some(Command::ApiSmoke)
    } else if word == "correctness"@ {
        Some(Command::Correctness)
    } else if word == "correctness-rtmp"@ {
        Some(Command::CorrectnessRtmp)
    } else if word == "correctness-srt"@ {
        Some(Command::CorrectnessSrt)
    } else if word == "correctness-srt-rtmp"@ {
        Some(Command::CorrectnessSrtRtmp)
    } else if word == "correctness-srt-policy"@ {
        Some(Command::CorrectnessSrtPolicy)
    } else if word == "bframe-rtmp"@ {
        Some(Command::BframeRtmp)
    } else if word == "ramp-family"@ {
        Some(Command::RampFamily)
    } else if word == "mixed-h264-rtmp"@ {
        Some(Command::MixedH264Rtmp)
    } else if word == "mixed-anchor"@ {
        Some(Command::MixedAnchor)
    } else if word == "mixed-h265-srt"@ {
        Some(Command::MixedH265Srt)
    } else if word == "mixed-h264-srt-multi"@ {
        Some(Command::MixedH264SrtMulti)
    } else if word == "mixed-h265-srt-multi"@ {
        Some(Command::MixedH265SrtMulti)
    } else if word == "suite"@ {
        Some(Command::Suite)
    } else if word == "preflight"@ {
        Some(Command::Preflight)
    } else if word == "egress"@ {
        Some(Command::Egress)
    } else if word == "correctness-hevc-rtmp"@ {
        Some(Command::CorrectnessHevcRtmp)
    } else if word == "correctness-hevc-srt"@ {
        Some(Command::CorrectnessHevcSrt)
    } else if word == "fault-egress-retry"@ {
        Some(Command::FaultEgressRetry)
    } else if word == "fault-resilience"@ {
        Some(Command::FaultResilience)
    } else if word == "recovery"@ {
        Some(Command::Recovery)
    } else if word == "mixed-file-h264"@ {
        Some(Command::MixedFileH264)
    } else if word == "resource-sweep"@ {
        Some(Command::ResourceSweep)
    } else if word == "bitrate-sweep"@ {
        Some(Command::BitrateSweep)
    } else if word == "branch-matrix"@ {
        Some(Command::BranchMatrix)
    } else if word == "srt-crypto-matrix"@ {
        Some(Command::SrtCryptoMatrix)
    } else {
        None
    }
}

/// The command that the first argument names; a suite where there is none.
pub fn read_command(raw: &Vec<String>) -> (r: Result<Command, String>)
    ensures
        match command_named(command_in(texts(raw@))) {
            Some(command) => r is Ok && r->Ok_0 == command,
            None => r is Err && r->Err_0@ == "unknown command "@ + quoted(command_in(texts(raw@)))
                + "; use suite, preflight, api-smoke, correctness, correctness-rtmp, correctness-srt, correctness-srt-rtmp, correctness-srt-policy, bframe-rtmp, ramp-family, mixed-h264-rtmp, mixed-anchor, mixed-h265-srt, mixed-h264-srt-multi, mixed-h265-srt-multi, egress, correctness-hevc-rtmp, correctness-hevc-srt, fault-egress-retry, fault-resilience, recovery, mixed-file-h264, resource-sweep, bitrate-sweep, branch-matrix, or srt-crypto-matrix"@,
        },
{
    let word: String = if raw.len() > 0 {
        raw[0].clone()
    } else {
        "suite".to_string()
    };
    assert(word@ == command_in(texts(raw@)));
    let w: &str = word.as_str();
    if same_text(w, "api-smoke") {
        Ok(Command::ApiSmoke)
    } else if same_text(w, "correctness") {
        Ok(Command::Correctness)
    } else if same_text(w, "correctness-rtmp") {
        Ok(Command::CorrectnessRtmp)
    } else if same_text(w, "correctness-srt") {
        Ok(Command::CorrectnessSrt)
    } else if same_text(w, "correctness-srt-rtmp") {
        Ok(Command::CorrectnessSrtRtmp)
    } else if same_text(w, "correctness-srt-policy") {
        Ok(Command::CorrectnessSrtPolicy)
    } else if same_text(w, "bframe-rtmp") {
        Ok(Command::BframeRtmp)
    } else if same_text(w, "ramp-family") {
        Ok(Command::RampFamily)
    } else if same_text(w, "mixed-h264-rtmp") {
        Ok(Command::MixedH264Rtmp)
    } else if same_text(w, "mixed-anchor") {
        Ok(Command::MixedAnchor)
    } else if same_text(w, "mixed-h265-srt") {
        Ok(Command::MixedH265Srt)
    } else if same_text(w, "mixed-h264-srt-multi") {
        Ok(Command::MixedH264SrtMulti)
    } else if same_text(w, "mixed-h265-srt-multi") {
        Ok(Command::MixedH265SrtMulti)
    } else if same_text(w, "suite") {
        Ok(Command::Suite)
    } else if same_text(w, "preflight") {
        Ok(Command::Preflight)
    } else if same_text(w, "egress") {
        Ok(Command::Egress)
    } else if same_text(w, "correctness-hevc-rtmp") {
        Ok(Command::CorrectnessHevcRtmp)
    } else if same_text(w, "correctness-hevc-srt") {
        Ok(Command::CorrectnessHevcSrt)
    } else if same_text(w, "fault-egress-retry") {
        Ok(Command::FaultEgressRetry)
    } else if same_text(w, "fault-resilience") {
        Ok(Command::FaultResilience)
    } else if same_text(w, "recovery") {
        Ok(Command::Recovery)
    } else if same_text(w, "mixed-file-h264") {
        Ok(Command::MixedFileH264)
    } else if same_text(w, "resource-sweep") {
        Ok(Command::ResourceSweep)
    } else if same_text(w, "bitrate-sweep") {
        Ok(Command::BitrateSweep)
    } else if same_text(w, "branch-matrix") {
        Ok(Command::BranchMatrix)
    } else if same_text(w, "srt-crypto-matrix") {
        Ok(Command::SrtCryptoMatrix)
    } else {
        Err(
            "unknown command ".to_string().concat(quote(w).as_str()).concat(
                "; use suite, preflight, api-smoke, correctness, correctness-rtmp, correctness-srt, correctness-srt-rtmp, correctness-srt-policy, bframe-rtmp, ramp-family, mixed-h264-rtmp, mixed-anchor, mixed-h265-srt, mixed-h264-srt-multi, mixed-h265-srt-multi, egress, correctness-hevc-rtmp, correctness-hevc-srt, fault-egress-retry, fault-resilience, recovery, mixed-file-h264, resource-sweep, bitrate-sweep, branch-matrix, or srt-crypto-matrix",
            ),
        )
    }
}

// ── Laws ─────────────────────────────────────────────────────────────────────

/// Only the option that asks for the network of the host is taken out; everything else stays, in
/// its order.
pub proof fn strip_removes_only_the_option(raw: Seq<Seq<char>>)
    ensures
        !holds(without_netns_opt(raw), "--no-netns"@),
        without_netns_opt(raw) == raw.filter(|a: Seq<char>| a != "--no-netns"@),
        !holds(raw, "--no-netns"@) ==> without_netns_opt(raw) == raw,
    decreases raw.len(),
{
    reveal(Seq::filter);
    if raw.len() > 0 {
        let front = raw.drop_last();
        strip_removes_only_the_option(front);
        assert forall|i: int| 0 <= i < without_netns_opt(raw).len() implies
            #[trigger] without_netns_opt(raw)[i] != "--no-netns"@ by {
            if i < without_netns_opt(front).len() {
                assert(without_netns_opt(raw)[i] == without_netns_opt(front)[i]);
            }
        }
        if !holds(raw, "--no-netns"@) {
            assert forall|i: int| 0 <= i < front.len() implies #[trigger] front[i]
                != "--no-netns"@ by {
                assert(front[i] == raw[i]);
            }
            assert(raw[raw.len() - 1] != "--no-netns"@);
            assert(without_netns_opt(raw) =~= raw);
        }
    } else {
        assert(without_netns_opt(raw) =~= raw);
    }
}

/// Every mode that measures opens ports too, so that it gets a network of its own.
pub proof fn measuring_modes_open_ports(mode: Seq<char>)
    ensures
        measures(mode) ==> opens_ports(mode),
{
}

/// The word of each command.
pub open spec fn command_word(command: Command) -> Seq<char> {
    match command {
        Command::ApiSmoke => "api-smoke"@,
        Command::Correctness => "correctness"@,
        Command::CorrectnessRtmp => "correctness-rtmp"@,
        Command::CorrectnessSrt => "correctness-srt"@,
        Command::CorrectnessSrtRtmp => "correctness-srt-rtmp"@,
        Command::CorrectnessSrtPolicy => "correctness-srt-policy"@,
        Command::BframeRtmp => "bframe-rtmp"@,
        Command::RampFamily => "ramp-family"@,
        Command::MixedH264Rtmp => "mixed-h264-rtmp"@,
        Command::MixedAnchor => "mixed-anchor"@,
        Command::MixedH265Srt => "mixed-h265-srt"@,
        Command::MixedH264SrtMulti => "mixed-h264-srt-multi"@,
        Command::MixedH265SrtMulti => "mixed-h265-srt-multi"@,
        Command::Suite => "suite"@,
        Command::Preflight => "preflight"@,
        Command::Egress => "egress"@,
        Command::CorrectnessHevcRtmp => "correctness-hevc-rtmp"@,
        Command::CorrectnessHevcSrt => "correctness-hevc-srt"@,
        Command::FaultEgressRetry => "fault-egress-retry"@,
        Command::FaultResilience => "fault-resilience"@,
        Command::Recovery => "recovery"@,
        Command::MixedFileH264 => "mixed-file-h264"@,
        Command::ResourceSweep => "resource-sweep"@,
        Command::BitrateSweep => "bitrate-sweep"@,
        Command::BranchMatrix => "branch-matrix"@,
        Command::SrtCryptoMatrix => "srt-crypto-matrix"@,
    }
}

/// A word names the command whose word it is, and every word of a command names one.
pub proof fn commands_are_known_by_their_words(word: Seq<char>, command: Command)
    ensures
        command_named(word) matches Some(c) ==> word == command_word(c),
        command_named(command_word(command)) is Some,
{
}

/// The commands that need ports of their own are all but the suite, the preflight, and what is no
/// command.
pub proof fn commands_open_ports_but_for_two(command: Command)
    ensures
        !(command is Suite) && !(command is Preflight) ==> opens_ports(command_word(command)),
{
}

/// The modes that measure: ramps, mixed runs of streams, and sweeps.
pub proof fn ramps_mixes_and_sweeps_measure(mode: Seq<char>)
    ensures
        measures(mode) <==> mode == command_word(Command::RampFamily) || mode == command_word(
            Command::MixedH264Rtmp,
        ) || mode == command_word(Command::MixedAnchor) || mode == command_word(
            Command::MixedH265Srt,
        ) || mode == command_word(Command::MixedH264SrtMulti) || mode == command_word(
            Command::MixedH265SrtMulti,
        ) || mode == command_word(Command::ResourceSweep) || mode == command_word(
            Command::BitrateSweep,
        ) || mode == command_word(Command::BranchMatrix) || mode == command_word(
            Command::SrtCryptoMatrix,
        ),
{
}

/// A run goes into a namespace of its own exactly when it is not inside one, its command opens ports,
/// and neither the command line nor the environment asks for the network of the machine.
pub proof fn namespace_is_entered_unless_declined(
    inside: bool,
    command: Seq<char>,
    rest: Seq<Seq<char>>,
    env_value: Option<Seq<char>>,
)
    requires
        command != "suite"@,
        command != "preflight"@,
    ensures
        needs_namespace(inside, seq![command] + rest, env_value) <==> !inside && opens_ports(command)
            && !(seq![command] + rest).contains("--no-netns"@) && !(env_value is Some && (
        env_value->0 == "1"@ || ascii_lower(env_value->0) == "true"@)),
        !needs_namespace(inside, Seq::empty(), env_value),
{
    let raw = seq![command] + rest;
    assert(raw[0] == command);
    if raw.contains("--no-netns"@) {
        let i = raw.index_of("--no-netns"@);
        assert(raw[i] == "--no-netns"@);
    }
    if holds(raw, "--no-netns"@) {
        let i = choose|i: int| 0 <= i < raw.len() && #[trigger] raw[i] == "--no-netns"@;
        assert(raw.contains(raw[i]));
    }
}

/// A program is of the profile whose directory stands behind the first `target` in its path.
pub proof fn profile_is_told_by_the_directory(front: Seq<Seq<char>>, name: Seq<char>, rest: Seq<Seq<char>>)
    requires
        !front.contains("target"@),
    ensures
        profile_in(front + seq!["target"@, name] + rest) == profile_named(name),
        name == "bench"@ ==> profile_named(name) == Some(Profile::Bench),
        name == "release"@ ==> profile_named(name) == Some(Profile::Release),
        name == "debug"@ ==> profile_named(name) == Some(Profile::Debug),
        name != "bench"@ && name != "release"@ && name != "debug"@ ==> profile_named(name) is None,
    decreases front.len(),
{
    reveal_strlit("debug");
    reveal_strlit("release");
    reveal_strlit("bench");
    assert("debug"@[0] == 'd' && "release"@[0] == 'r' && "bench"@[0] == 'b');
    let parts = front + seq!["target"@, name] + rest;
    if front.len() > 0 {
        assert(front.contains(front[0]));
        let tail = front.skip(1);
        assert forall|i: int| 0 <= i < tail.len() implies tail[i] != "target"@ by {
            assert(front.contains(front[i + 1]));
        }
        profile_is_told_by_the_directory(tail, name, rest);
        assert(parts.skip(1) =~= tail + seq!["target"@, name] + rest);
    } else {
        assert(parts[0] == "target"@ && parts[1] == name);
    }
}

/// Artifacts go where their own variable says, else where that of the work says, else to the latest.
pub proof fn artifacts_have_three_places(a: Seq<char>, w: Seq<char>, work_env: Option<Seq<char>>)
    ensures
        artifact_dir(Some(a), work_env) == a,
        artifact_dir(None, Some(w)) == w,
        artifact_dir(None, None) == "test/artifacts/latest"@,
{
}

} // verus!
