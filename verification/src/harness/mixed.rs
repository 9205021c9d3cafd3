//! Mixed runs: one stream to many outputs of all kinds, looked at from all sides.
//!
//! A run is a plan of steps. Which checks are in the plan depends on which are selected, and on
//! where an earlier run is to be resumed.

use vstd::prelude::*;
use vstd::string::*;

use crate::harness::sweep::{
    bitrate_probe_url, output_address, sweep_output_url, told_as, SweepConfig, SweepOutputKind,
    TargetPorts,
};
use crate::harness::urls::{
    rtmp_address, rtmp_url, srt_ingest_address, srt_ingest_url, srt_play_address,
};
use crate::harness::waits::Tries;
use crate::number::{decimal, decimal_text};
use crate::text::{
    replace_char, replaced, same_text, split, split_text, text_option, texts, trim, trimmed,
};

verus! {

// ── Which checks are wanted ──────────────────────────────────────────────────

/// The names of checks among the pieces, with hyphens for underscores.
pub open spec fn check_names(pieces: Seq<Seq<char>>) -> Seq<Seq<char>>
    decreases pieces.len(),
{
    if pieces.len() == 0 {
        Seq::empty()
    } else {
        let front = check_names(pieces.drop_last());
        let name = replaced(trimmed(pieces.last()), '_', '-');
        if name.len() == 0 {
            front
        } else {
            front.push(name)
        }
    }
}

/// The checks that `ONLY_CHECKS` allows; all where it is not set or blank.
pub open spec fn only_checks_of(value: Option<Seq<char>>) -> Option<Seq<Seq<char>>> {
    match value {
        Some(text) => if trimmed(text).len() == 0 {
            None
        } else {
            Some(check_names(split(text, ',')))
        },
        None => None,
    }
}

pub open spec fn checks_option(v: Option<Vec<String>>) -> Option<Seq<Seq<char>>> {
    match v {
        Some(names) => Some(texts(names@)),
        None => None,
    }
}

/// Reads `ONLY_CHECKS`.
pub fn parse_only_checks(value: &Option<String>) -> (r: Option<Vec<String>>)
    ensures
        checks_option(r) == only_checks_of(text_option(*value)),
{
    match value {
        None => None,
        Some(text) => {
            if trim(text.as_str()).as_str().is_empty() {
                return None;
            }
            let pieces: Vec<String> = split_text(text.as_str(), ',');
            let ghost all = texts(pieces@);
            let mut out: Vec<String> = Vec::new();
            let mut i: usize = 0;
            assert(all.take(0) =~= Seq::<Seq<char>>::empty());
            assert(texts(out@) =~= Seq::<Seq<char>>::empty());
            while i < pieces.len()
                invariant
                    i <= pieces@.len(),
                    all == texts(pieces@),
                    texts(out@) == check_names(all.take(i as int)),
                decreases pieces@.len() - i,
            {
                assert(all.take(i + 1).drop_last() =~= all.take(i as int));
                assert(all.take(i + 1).last() == pieces@[i as int]@);
                let name: String = replace_char(trim(pieces[i].as_str()).as_str(), '_', '-');
                if !name.as_str().is_empty() {
                    let ghost before = out@;
                    let ghost said = name@;
                    out.push(name);
                    assert(texts(out@) =~= texts(before).push(said));
                }
                i += 1;
            }
            assert(all.take(all.len() as int) =~= all);
            Some(out)
        },
    }
}

/// The check at which `RESUME_FROM` resumes; none where it is not set or blank.
pub fn parse_resume_from(value: &Option<String>) -> (r: Option<String>)
    ensures
        r == match *value {
            Some(text) => if trimmed(text@).len() == 0 {
                None::<String>
            } else {
                Some(text)
            },
            None => None::<String>,
        },
{
    match value {
        Some(text) => if trim(text.as_str()).as_str().is_empty() {
            None
        } else {
            Some(text.clone())
        },
        None => None,
    }
}

/// Whether a check is selected.
pub open spec fn is_selected(only: Option<Seq<Seq<char>>>, check: Seq<char>) -> bool {
    match only {
        Some(names) => names.contains(check),
        None => true,
    }
}

/// Where a run is resumed: checks before the target are passed over.
#[derive(Debug, Clone)]
pub struct MixedResume {
    pub target: Option<String>,
    pub active: bool,
}

impl MixedResume {
    pub fn new(target: Option<String>) -> (r: Self)
        ensures
            r.target == target,
            r.active == (target is None),
    {
        let active: bool = target.is_none();
        MixedResume { target, active }
    }

    /// Whether a check is made; from the target on, every check is.
    pub fn allows(&mut self, id: &str) -> (r: bool)
        ensures
            r == (old(self).active || text_option(old(self).target) == Some(id@)),
            final(self).active == r,
            final(self).target == old(self).target,
    {
        if self.active {
            return true;
        }
        let found: bool = match &self.target {
            Some(target) => same_text(target.as_str(), id),
            None => false,
        };
        if found {
            self.active = true;
            return true;
        }
        false
    }
}

/// A number of outputs in each group that a run can have.
pub fn check_group_size(n: usize) -> (r: Result<(), &'static str>)
    ensures
        n > 0 ==> r is Ok,
        n == 0 ==> r is Err && r->Err_0@ == "N_PER_GROUP must be greater than zero"@,
{
    if n == 0 {
        Err("N_PER_GROUP must be greater than zero")
    } else {
        Ok(())
    }
}

// ── Steps ────────────────────────────────────────────────────────────────────

/// One step of a mixed run.
#[derive(Debug, Clone)]
pub enum MixedStep {
    CreatePipeline { name: String, stream_key: String },
    /// Publish the fixture of a codec: all of its streams, or the video and the first audio.
    Publish { url: String, format: &'static str, codec: &'static str, all_streams: bool, log_name: String },
    AwaitLive { secs: u64 },
    Pause { secs: u64 },
    /// Look whether the ring of the source has grown with what comes in.
    CheckRing { id: String },
    /// Note the memory of the server before there is any output.
    NoteMemory,
    /// Write down the memory and the share of a processor under this label.
    Snapshot { label: String },
    AddOutput { name: String, url: String, encoding: String },
    /// Look whether a transcoder was started though nothing asked for one.
    CheckSmoke { id: String },
    /// Note the memory of the server again, and write down what it gained.
    NoteGain,
    /// Note the memory of the server again.
    NotePeak,
    ReportLoad { id: String, audio_tracks: Option<u64> },
    /// Probe a stream until it has the expected size.
    Probe { id: String, label: String, url: String, expected: &'static str, tries: Tries },
    /// Probe the server's own preview of the pipeline.
    ProbePreview { id: String, label: String, expected: &'static str, tries: Tries },
    /// Probe a stream until it has the expected size and number of audio tracks.
    ProbeAudio {
        id: String,
        label: String,
        url: String,
        expected: &'static str,
        tracks: usize,
        tries: Tries,
    },
    /// Wait for a stream without judging it.
    Warm { label: String, url: String, expected: &'static str, tries: Tries },
    /// Look whether outputs share the stages that change the codec.
    CheckSharing { id: String },
    /// Send to a sink of our own, wait for so many frames, and a little longer.
    ProbeSink { id: String, frames: u64, secs: u64, poll_ms: u64, settle_secs: u64 },
    /// Upload to a sink of our own, and wait for what comes.
    ProbeUpload { id: String, secs: u64, poll_ms: u64 },
    CheckBursts { id: String },
    StopPublisher,
    /// Stop all outputs, whether or not the server agrees.
    StopOutputs,
    /// Stop the outputs one by one, with a pause after every so many of them.
    StopEach { pause_after: usize, pause_ms: u64 },
    /// Wait until all outputs have stopped, and report on it or not.
    AwaitStopped { secs: u64, reported: bool },
    /// Feed the pipeline from a file, over and over.
    StartFileIngest,
    StopFileIngest,
}

/// What a step says.
pub enum MixedModel {
    CreatePipeline { name: Seq<char>, stream_key: Seq<char> },
    Publish {
        url: Seq<char>,
        format: Seq<char>,
        codec: Seq<char>,
        all_streams: bool,
        log_name: Seq<char>,
    },
    AwaitLive { secs: u64 },
    Pause { secs: u64 },
    CheckRing { id: Seq<char> },
    NoteMemory,
    Snapshot { label: Seq<char> },
    AddOutput { name: Seq<char>, url: Seq<char>, encoding: Seq<char> },
    CheckSmoke { id: Seq<char> },
    NoteGain,
    NotePeak,
    ReportLoad { id: Seq<char>, audio_tracks: Option<u64> },
    Probe { id: Seq<char>, label: Seq<char>, url: Seq<char>, expected: Seq<char>, tries: Tries },
    ProbePreview { id: Seq<char>, label: Seq<char>, expected: Seq<char>, tries: Tries },
    ProbeAudio {
        id: Seq<char>,
        label: Seq<char>,
        url: Seq<char>,
        expected: Seq<char>,
        tracks: usize,
        tries: Tries,
    },
    Warm { label: Seq<char>, url: Seq<char>, expected: Seq<char>, tries: Tries },
    CheckSharing { id: Seq<char> },
    ProbeSink { id: Seq<char>, frames: u64, secs: u64, poll_ms: u64, settle_secs: u64 },
    ProbeUpload { id: Seq<char>, secs: u64, poll_ms: u64 },
    CheckBursts { id: Seq<char> },
    StopPublisher,
    StopOutputs,
    StopEach { pause_after: usize, pause_ms: u64 },
    AwaitStopped { secs: u64, reported: bool },
    StartFileIngest,
    StopFileIngest,
}

impl View for MixedStep {
    type V = MixedModel;

    open spec fn view(&self) -> MixedModel {
        match self {
            MixedStep::CreatePipeline { name, stream_key } => MixedModel::CreatePipeline {
                name: name@,
                stream_key: stream_key@,
            },
            MixedStep::Publish { url, format, codec, all_streams, log_name } => MixedModel::Publish {
                url: url@,
                format: format@,
                codec: codec@,
                all_streams: *all_streams,
                log_name: log_name@,
            },
            MixedStep::AwaitLive { secs } => MixedModel::AwaitLive { secs: *secs },
            MixedStep::Pause { secs } => MixedModel::Pause { secs: *secs },
            MixedStep::CheckRing { id } => MixedModel::CheckRing { id: id@ },
            MixedStep::NoteMemory => MixedModel::NoteMemory,
            MixedStep::Snapshot { label } => MixedModel::Snapshot { label: label@ },
            MixedStep::AddOutput { name, url, encoding } => MixedModel::AddOutput {
                name: name@,
                url: url@,
                encoding: encoding@,
            },
            MixedStep::CheckSmoke { id } => MixedModel::CheckSmoke { id: id@ },
            MixedStep::NoteGain => MixedModel::NoteGain,
            MixedStep::NotePeak => MixedModel::NotePeak,
            MixedStep::ReportLoad { id, audio_tracks } => MixedModel::ReportLoad {
                id: id@,
                audio_tracks: *audio_tracks,
            },
            MixedStep::Probe { id, label, url, expected, tries } => MixedModel::Probe {
                id: id@,
                label: label@,
                url: url@,
                expected: expected@,
                tries: *tries,
            },
            MixedStep::ProbePreview { id, label, expected, tries } => MixedModel::ProbePreview {
                id: id@,
                label: label@,
                expected: expected@,
                tries: *tries,
            },
            MixedStep::ProbeAudio { id, label, url, expected, tracks, tries } => MixedModel::ProbeAudio {
                id: id@,
                label: label@,
                url: url@,
                expected: expected@,
                tracks: *tracks,
                tries: *tries,
            },
            MixedStep::Warm { label, url, expected, tries } => MixedModel::Warm {
                label: label@,
                url: url@,
                expected: expected@,
                tries: *tries,
            },
            MixedStep::CheckSharing { id } => MixedModel::CheckSharing { id: id@ },
            MixedStep::ProbeSink { id, frames, secs, poll_ms, settle_secs } => MixedModel::ProbeSink {
                id: id@,
                frames: *frames,
                secs: *secs,
                poll_ms: *poll_ms,
                settle_secs: *settle_secs,
            },
            MixedStep::ProbeUpload { id, secs, poll_ms } => MixedModel::ProbeUpload {
                id: id@,
                secs: *secs,
                poll_ms: *poll_ms,
            },
            MixedStep::CheckBursts { id } => MixedModel::CheckBursts { id: id@ },
            MixedStep::StopPublisher => MixedModel::StopPublisher,
            MixedStep::StopOutputs => MixedModel::StopOutputs,
            MixedStep::StopEach { pause_after, pause_ms } => MixedModel::StopEach {
                pause_after: *pause_after,
                pause_ms: *pause_ms,
            },
            MixedStep::AwaitStopped { secs, reported } => MixedModel::AwaitStopped {
                secs: *secs,
                reported: *reported,
            },
            MixedStep::StartFileIngest => MixedModel::StartFileIngest,
            MixedStep::StopFileIngest => MixedModel::StopFileIngest,
        }
    }
}

pub open spec fn mixed_steps(v: Seq<MixedStep>) -> Seq<MixedModel> {
    v.map_values(|s: MixedStep| s@)
}

/// A plan in the making: the steps so far, and whether checks are made by now.
pub struct MixedPlan {
    pub steps: Vec<MixedStep>,
    pub resume: MixedResume,
}

pub struct PlanModel {
    pub steps: Seq<MixedModel>,
    pub target: Option<Seq<char>>,
    pub active: bool,
}

impl View for MixedPlan {
    type V = PlanModel;

    open spec fn view(&self) -> PlanModel {
        PlanModel {
            steps: mixed_steps(self.steps@),
            target: text_option(self.resume.target),
            active: self.resume.active,
        }
    }
}

/// A plan without a step.
pub open spec fn empty_plan(target: Option<Seq<char>>) -> PlanModel {
    PlanModel { steps: Seq::empty(), target, active: target is None }
}

impl PlanModel {
    /// Whether a check is made at this point.
    pub open spec fn allows(self, id: Seq<char>) -> bool {
        self.active || self.target == Some(id)
    }

    /// The plan with one more step.
    #[verifier::opaque]
    pub open spec fn with(self, step: MixedModel) -> PlanModel {
        PlanModel { steps: self.steps.push(step), ..self }
    }

    /// The plan with one more step, under a condition.
    #[verifier::opaque]
    pub open spec fn with_if(self, condition: bool, step: MixedModel) -> PlanModel {
        if condition {
            self.with(step)
        } else {
            self
        }
    }

    /// The plan with a check, where it is selected and made at this point.
    #[verifier::opaque]
    pub open spec fn checked(self, selected: bool, id: Seq<char>, step: MixedModel) -> PlanModel {
        if selected && self.allows(id) {
            PlanModel { active: true, ..self.with(step) }
        } else {
            self
        }
    }

    /// The plan with the outputs of a group.
    #[verifier::opaque]
    pub open spec fn with_group(
        self,
        ports: TargetPorts,
        cfg: Seq<char>,
        multi_audio: bool,
        kind: SweepOutputKind,
        n: nat,
    ) -> PlanModel {
        PlanModel { steps: self.steps + group_steps(ports, cfg, multi_audio, kind, n), ..self }
    }

    /// The plan with a wait for the end of all outputs, which is reported where that is wanted.
    #[verifier::opaque]
    pub open spec fn with_lifecycle(self, selected: bool) -> PlanModel {
        if selected && self.allows("MS-lifecycle"@) {
            PlanModel {
                active: true,
                ..self.with(MixedModel::AwaitStopped { secs: 60, reported: true })
            }
        } else {
            self.with(MixedModel::AwaitStopped { secs: 60, reported: false })
        }
    }
}

/// The name of a stream that an output sends.
pub open spec fn stream_name(cfg: Seq<char>, kind: SweepOutputKind, index: nat) -> Seq<char> {
    cfg + "-"@ + told_as(kind) + "-"@ + decimal(index)
}

/// The outputs of a group.
pub open spec fn group_steps(
    ports: TargetPorts,
    cfg: Seq<char>,
    multi_audio: bool,
    kind: SweepOutputKind,
    n: nat,
) -> Seq<MixedModel> {
    Seq::new(
        n,
        |i: int|
            MixedModel::AddOutput {
                name: told_as(kind) + "-"@ + decimal((i + 1) as nat),
                url: output_address(ports, kind, stream_name(cfg, kind, (i + 1) as nat)),
                encoding: kind.encoded(multi_audio),
            },
    )
}

/// How the kind of an output is told in names.
pub fn group_name(kind: SweepOutputKind) -> (r: &'static str)
    ensures
        r@ == told_as(kind),
{
    match kind {
        SweepOutputKind::RtmpSource => "rtmp-src",
        SweepOutputKind::Rtmp720p => "rtmp-720p",
        SweepOutputKind::SrtSource => "srt-src",
        _ => "srt-720p",
    }
}

fn stream_name_text(cfg: &str, kind: SweepOutputKind, index: usize) -> (r: String)
    ensures
        r@ == stream_name(cfg@, kind, index as nat),
{
    cfg.to_string().concat("-").concat(group_name(kind)).concat("-").concat(
        decimal_text(index as u64).as_str(),
    )
}

impl MixedPlan {
    fn new(target: Option<String>) -> (r: Self)
        ensures
            r@ == empty_plan(text_option(target)),
    {
        let r: MixedPlan = MixedPlan { steps: Vec::new(), resume: MixedResume::new(target) };
        assert(r@.steps =~= Seq::<MixedModel>::empty());
        r
    }

    fn add_step(&mut self, step: MixedStep)
        ensures
            final(self)@ == old(self)@.with(step@),
    {
        reveal(PlanModel::with);
        let ghost before = self.steps@;
        self.steps.push(step);
        assert(mixed_steps(self.steps@) =~= mixed_steps(before).push(step@));
    }

    fn add_if(&mut self, condition: bool, step: MixedStep)
        ensures
            final(self)@ == old(self)@.with_if(condition, step@),
    {
        reveal(PlanModel::with_if);
        if condition {
            self.add_step(step);
        }
    }

    fn add_check(&mut self, selected: bool, id: &str, step: MixedStep)
        ensures
            final(self)@ == old(self)@.checked(selected, id@, step@),
    {
        reveal(PlanModel::checked);
        reveal(PlanModel::with);
        if selected {
            let ghost before = self.steps@;
            if self.resume.allows(id) {
                self.steps.push(step);
                assert(mixed_steps(self.steps@) =~= mixed_steps(before).push(step@));
            }
        }
    }

    fn add_lifecycle(&mut self, selected: bool)
        ensures
            final(self)@ == old(self)@.with_lifecycle(selected),
    {
        reveal(PlanModel::with_lifecycle);
        reveal(PlanModel::with);
        let ghost before = self.steps@;
        let reported: bool = selected && self.resume.allows("MS-lifecycle");
        let step: MixedStep = MixedStep::AwaitStopped { secs: 60, reported };
        let ghost said = step@;
        self.steps.push(step);
        assert(mixed_steps(self.steps@) =~= mixed_steps(before).push(said));
    }

    fn add_group(
        &mut self,
        ports: TargetPorts,
        cfg: &str,
        config: SweepConfig,
        kind: SweepOutputKind,
        n: usize,
    )
        ensures
            final(self)@ == old(self)@.with_group(ports, cfg@, config.is_multi(), kind, n as nat),
    {
        reveal(PlanModel::with_group);
        let ghost wanted = group_steps(ports, cfg@, config.is_multi(), kind, n as nat);
        let ghost start = mixed_steps(self.steps@);
        let ghost resume = self.resume;
        let mut i: usize = 0;
        assert(start + wanted.take(0) =~= start);
        while i < n
            invariant
                i <= n,
                self.resume == resume,
                wanted == group_steps(ports, cfg@, config.is_multi(), kind, n as nat),
                mixed_steps(self.steps@) == start + wanted.take(i as int),
            decreases n - i,
        {
            let ghost before = self.steps@;
            let ghost index = i;
            i += 1;
            let name: String = group_name(kind).to_string().concat("-").concat(
                decimal_text(i as u64).as_str(),
            );
            let (url, encoding) = sweep_output_url(
                ports,
                config,
                kind,
                stream_name_text(cfg, kind, i).as_str(),
            );
            let step: MixedStep = MixedStep::AddOutput { name, url, encoding };
            let ghost said = step@;
            self.steps.push(step);
            assert(said == wanted[index as int]);
            assert(mixed_steps(self.steps@) =~= mixed_steps(before).push(said));
            assert(wanted.take(i as int) =~= wanted.take(index as int).push(wanted[index as int]));
            assert(start + wanted.take(i as int) =~= (start + wanted.take(index as int)).push(
                wanted[index as int],
            ));
        }
        assert(wanted.take(n as int) =~= wanted);
    }
}

// ── Plans ────────────────────────────────────────────────────────────────────

/// What a mixed run is told.
#[derive(Debug, Clone)]
pub struct MixedSetup {
    /// The ports of the server under test.
    pub ingest_rtmp: u16,
    pub ingest_srt: u16,
    /// The ports of the targets, and the one at which they serve HLS.
    pub targets: TargetPorts,
    pub target_hls: u16,
    /// How many outputs each group has.
    pub n: usize,
    pub skip_load: bool,
    pub only_checks: Option<Vec<String>>,
    pub resume_from: Option<String>,
}

impl MixedSetup {
    pub open spec fn selects(self, check: Seq<char>) -> bool {
        is_selected(checks_option(self.only_checks), check)
    }

    /// Whether a check is selected.
    pub fn check_selected(&self, check: &str) -> (r: bool)
        ensures
            r == self.selects(check@),
    {
        match &self.only_checks {
            None => true,
            Some(names) => {
                let ghost model = texts(names@);
                let mut i: usize = 0;
                while i < names.len()
                    invariant
                        i <= names@.len(),
                        self.only_checks == Some(*names),
                        model == texts(names@),
                        forall|k: int| 0 <= k < i ==> #[trigger] model[k] != check@,
                    decreases names@.len() - i,
                {
                    if same_text(names[i].as_str(), check) {
                        assert(model[i as int] == check@);
                        assert(model.contains(check@));
                        return true;
                    }
                    i += 1;
                }
                false
            },
        }
    }
}

/// The run that is also looked at while it grows and while it ends.
pub open spec fn is_anchor(c: SweepConfig) -> bool {
    c == SweepConfig::H264Srt
}

/// The id of the probe of an output.
pub open spec fn probe_id(c: SweepConfig, kind: SweepOutputKind) -> Seq<char> {
    if is_anchor(c) {
        "MS-ffprobe-"@ + told_as(kind)
    } else {
        "MS-ffprobe-"@ + c.named() + "-"@ + told_as(kind)
    }
}

fn probe_id_text(c: SweepConfig, kind: SweepOutputKind) -> (r: String)
    ensures
        r@ == probe_id(c, kind),
{
    match c {
        SweepConfig::H264Srt => "MS-ffprobe-".to_string().concat(group_name(kind)),
        _ => "MS-ffprobe-".to_string().concat(c.name()).concat("-").concat(group_name(kind)),
    }
}

/// The id of the probe at a sink.
pub open spec fn sink_probe_id(c: SweepConfig) -> Seq<char> {
    if is_anchor(c) {
        "MS-sink-probe"@
    } else {
        "MS-sink-probe-"@ + c.named()
    }
}

fn sink_probe_id_text(c: SweepConfig) -> (r: String)
    ensures
        r@ == sink_probe_id(c),
{
    match c {
        SweepConfig::H264Srt => "MS-sink-probe".to_string(),
        _ => "MS-sink-probe-".to_string().concat(c.name()),
    }
}

/// The log of the publisher.
pub open spec fn publisher_log(c: SweepConfig) -> Seq<char> {
    match c {
        SweepConfig::H264Srt => "mixed-anchor-publisher.log"@,
        SweepConfig::H265Srt => "mixed-h265-srt-publisher.log"@,
        SweepConfig::H264Rtmp => "mixed-h264-rtmp-publisher.log"@,
        _ => c.named() + "-publisher.log"@,
    }
}

/// The name of the run.
pub fn mixed_mode(c: SweepConfig) -> (r: &'static str)
    ensures
        r@ == match c {
            SweepConfig::H264Srt => "mixed-anchor"@,
            SweepConfig::H265Srt => "mixed-h265-srt"@,
            SweepConfig::H264Rtmp => "mixed-h264-rtmp"@,
            SweepConfig::H264SrtMulti => "mixed-h264-srt-multi"@,
            SweepConfig::H265SrtMulti => "mixed-h265-srt-multi"@,
        },
{
    match c {
        SweepConfig::H264Srt => "mixed-anchor",
        SweepConfig::H265Srt => "mixed-h265-srt",
        SweepConfig::H264Rtmp => "mixed-h264-rtmp",
        SweepConfig::H264SrtMulti => "mixed-h264-srt-multi",
        SweepConfig::H265SrtMulti => "mixed-h265-srt-multi",
    }
}

/// How the stream of a run is published.
pub open spec fn publish_step(s: MixedSetup, c: SweepConfig) -> MixedModel {
    let key = "sk-"@ + c.named();
    MixedModel::Publish {
        url: if c.over_rtmp() {
            rtmp_address(s.ingest_rtmp, key)
        } else {
            srt_ingest_address(s.ingest_srt, key)
        },
        format: if c.over_rtmp() {
            "flv"@
        } else {
            "mpegts"@
        },
        codec: match c {
            SweepConfig::H265Srt | SweepConfig::H265SrtMulti => "h265"@,
            _ => "h264"@,
        },
        all_streams: c.is_multi(),
        log_name: publisher_log(c),
    }
}

fn publish(s: &MixedSetup, c: SweepConfig) -> (r: MixedStep)
    ensures
        r@ == publish_step(*s, c),
{
    let key: String = "sk-".to_string().concat(c.name());
    let log_name: String = match c {
        SweepConfig::H264Srt => "mixed-anchor-publisher.log".to_string(),
        SweepConfig::H265Srt => "mixed-h265-srt-publisher.log".to_string(),
        SweepConfig::H264Rtmp => "mixed-h264-rtmp-publisher.log".to_string(),
        _ => c.name().to_string().concat("-publisher.log"),
    };
    if c.is_rtmp() {
        MixedStep::Publish {
            url: rtmp_url(s.ingest_rtmp, key.as_str()),
            format: "flv",
            codec: c.video_codec(),
            all_streams: c.multi_audio(),
            log_name,
        }
    } else {
        MixedStep::Publish {
            url: srt_ingest_url(s.ingest_srt, key.as_str()),
            format: "mpegts",
            codec: c.video_codec(),
            all_streams: c.multi_audio(),
            log_name,
        }
    }
}

/// How a group is called in the label of a probe.
pub open spec fn group_label(kind: SweepOutputKind) -> Seq<char> {
    match kind {
        SweepOutputKind::RtmpSource => "RTMP-src  out"@,
        SweepOutputKind::Rtmp720p => "RTMP-720p out"@,
        SweepOutputKind::SrtSource => "SRT-src   out"@,
        _ => "SRT-720p  out"@,
    }
}

/// Where what the last output of a group sent is read.
pub open spec fn read_address(s: MixedSetup, c: SweepConfig, kind: SweepOutputKind) -> Seq<char> {
    let name = stream_name(c.named(), kind, s.n as nat);
    if kind.over_rtmp() {
        rtmp_address(s.targets.rtmp, name)
    } else {
        srt_play_address(s.targets.srt, name)
    }
}

fn read_url_text(s: &MixedSetup, c: SweepConfig, kind: SweepOutputKind) -> (r: String)
    ensures
        r@ == read_address(*s, c, kind),
{
    bitrate_probe_url(s.targets, kind, stream_name_text(c.name(), kind, s.n).as_str())
}

/// The probe of the last output of a group.
pub open spec fn probe_step(s: MixedSetup, c: SweepConfig, kind: SweepOutputKind) -> MixedModel {
    MixedModel::Probe {
        id: probe_id(c, kind),
        label: group_label(kind) + decimal(s.n as nat),
        url: read_address(s, c, kind),
        expected: kind.expects(),
        tries: Tries { attempts: 30, pause_secs: 2 },
    }
}

fn probe(s: &MixedSetup, c: SweepConfig, kind: SweepOutputKind) -> (r: MixedStep)
    ensures
        r@ == probe_step(*s, c, kind),
{
    let called: &str = match kind {
        SweepOutputKind::RtmpSource => "RTMP-src  out",
        SweepOutputKind::Rtmp720p => "RTMP-720p out",
        SweepOutputKind::SrtSource => "SRT-src   out",
        _ => "SRT-720p  out",
    };
    MixedStep::Probe {
        id: probe_id_text(c, kind),
        label: called.to_string().concat(decimal_text(s.n as u64).as_str()),
        url: read_url_text(s, c, kind),
        expected: kind.expected(),
        tries: Tries { attempts: 30, pause_secs: 2 },
    }
}

/// The id of the check of an output's audio.
pub open spec fn audio_id(c: SweepConfig, kind: SweepOutputKind) -> Seq<char> {
    "MS-audio-"@ + c.named() + "-"@ + told_as(kind)
}

fn audio_id_text(c: SweepConfig, kind: SweepOutputKind) -> (r: String)
    ensures
        r@ == audio_id(c, kind),
{
    "MS-audio-".to_string().concat(c.name()).concat("-").concat(group_name(kind))
}

/// The check of the audio of the last output of a group: RTMP carries one track, SRT two.
pub open spec fn audio_step(s: MixedSetup, c: SweepConfig, kind: SweepOutputKind) -> MixedModel {
    MixedModel::ProbeAudio {
        id: audio_id(c, kind),
        label: if kind.over_rtmp() {
            "RTMP-720p audio out"@ + decimal(s.n as nat)
        } else {
            "SRT-720p audio out"@ + decimal(s.n as nat)
        },
        url: read_address(s, c, kind),
        expected: kind.expects(),
        tracks: if kind.over_rtmp() {
            1
        } else {
            2
        },
        tries: Tries { attempts: 15, pause_secs: 2 },
    }
}

fn probe_audio(s: &MixedSetup, c: SweepConfig, kind: SweepOutputKind) -> (r: MixedStep)
    ensures
        r@ == audio_step(*s, c, kind),
{
    let rtmp: bool = kind.is_rtmp();
    let called: &str = if rtmp {
        "RTMP-720p audio out"
    } else {
        "SRT-720p audio out"
    };
    MixedStep::ProbeAudio {
        id: audio_id_text(c, kind),
        label: called.to_string().concat(decimal_text(s.n as u64).as_str()),
        url: read_url_text(s, c, kind),
        expected: kind.expected(),
        tracks: if rtmp {
            1
        } else {
            2
        },
        tries: Tries { attempts: 15, pause_secs: 2 },
    }
}

/// What a snapshot is called after outputs of a kind were added.
pub open spec fn after_label(n: nat, what: Seq<char>) -> Seq<char> {
    "after "@ + decimal(n) + what
}

fn after_text(n: usize, what: &str) -> (r: String)
    ensures
        r@ == after_label(n as nat, what@),
{
    "after ".to_string().concat(decimal_text(n as u64).as_str()).concat(what)
}

/// The first part of a run: the stream comes in, and outputs are added group by group.
pub open spec fn growth_part(s: MixedSetup, c: SweepConfig) -> PlanModel {
    let cfg = c.named();
    let n = s.n as nat;
    let multi = c.is_multi();
    let load = !s.skip_load;
    let ring = MixedModel::CheckRing { id: "MS-adaptive-ring-"@ + cfg };
    empty_plan(text_option(s.resume_from)).with(
        MixedModel::CreatePipeline { name: cfg, stream_key: "sk-"@ + cfg },
    ).with(publish_step(s, c)).with(MixedModel::AwaitLive { secs: 45 }).with_if(
        multi,
        MixedModel::Pause { secs: 6 },
    ).with_if(multi && s.selects("ffprobe"@), ring).checked(
        multi && !s.selects("ffprobe"@),
        "MS-adaptive-ring-"@ + cfg,
        ring,
    ).with(MixedModel::NoteMemory).with_if(
        load,
        MixedModel::Snapshot { label: "baseline (input live, 0 outputs)"@ },
    ).with_if(
        is_anchor(c),
        MixedModel::AddOutput {
            name: "hls-preview"@,
            url: "hls://"@ + cfg + "-preview"@,
            encoding: "source"@,
        },
    ).with_group(s.targets, cfg, multi, SweepOutputKind::RtmpSource, n).with_if(
        load,
        MixedModel::Snapshot { label: after_label(n, " RTMP source"@) },
    ).checked(
        is_anchor(c) && s.selects("smoke"@),
        "MS-smoke"@,
        MixedModel::CheckSmoke { id: "MS-smoke"@ },
    ).with_group(s.targets, cfg, multi, SweepOutputKind::Rtmp720p, n).with_if(
        load,
        MixedModel::Snapshot { label: after_label(n, " RTMP 720p"@) },
    ).with_group(s.targets, cfg, multi, SweepOutputKind::SrtSource, n).with_if(
        load,
        MixedModel::Snapshot { label: after_label(n, " SRT source"@) },
    ).with_group(s.targets, cfg, multi, SweepOutputKind::Srt720p, n).with_if(
        load,
        MixedModel::Snapshot {
            label: "after all "@ + decimal((s.n * 4) as nat) + " outputs"@,
        },
    )
}

/// The second part of a run: everything is looked at.
pub open spec fn look_part(p: PlanModel, s: MixedSetup, c: SweepConfig) -> PlanModel {
    let cfg = c.named();
    let probed = s.selects("ffprobe"@);
    let anchor = is_anchor(c);
    p.with(MixedModel::NoteGain).with_if(
        !s.skip_load && s.selects("load"@),
        MixedModel::ReportLoad {
            id: "MS-load-"@ + cfg,
            audio_tracks: if c.is_multi() {
                Some(2)
            } else {
                None
            },
        },
    ).checked(
        probed,
        probe_id(c, SweepOutputKind::RtmpSource),
        probe_step(s, c, SweepOutputKind::RtmpSource),
    ).checked(
        probed,
        probe_id(c, SweepOutputKind::Rtmp720p),
        probe_step(s, c, SweepOutputKind::Rtmp720p),
    ).checked(
        probed,
        probe_id(c, SweepOutputKind::SrtSource),
        probe_step(s, c, SweepOutputKind::SrtSource),
    ).checked(
        probed,
        probe_id(c, SweepOutputKind::Srt720p),
        probe_step(s, c, SweepOutputKind::Srt720p),
    ).checked(
        probed && c.is_multi(),
        audio_id(c, SweepOutputKind::Rtmp720p),
        audio_step(s, c, SweepOutputKind::Rtmp720p),
    ).checked(
        probed && c.is_multi(),
        audio_id(c, SweepOutputKind::Srt720p),
        audio_step(s, c, SweepOutputKind::Srt720p),
    ).with_if(
        anchor && !probed && s.selects("lifecycle"@),
        MixedModel::Warm {
            label: "RTMP-720p out"@ + decimal(s.n as nat) + " lifecycle warmup"@,
            url: read_address(s, c, SweepOutputKind::Rtmp720p),
            expected: "1280x720"@,
            tries: Tries { attempts: 15, pause_secs: 2 },
        },
    ).checked(
        anchor && s.selects("hls"@),
        "MS-hls-mtx"@,
        MixedModel::Probe {
            id: "MS-hls-mtx"@,
            label: "HLS/mtx"@,
            url: "http://127.0.0.1:"@ + decimal(s.target_hls as nat) + "/live/"@ + stream_name(
                cfg,
                SweepOutputKind::RtmpSource,
                s.n as nat,
            ) + "/index.m3u8"@,
            expected: "1920x1080"@,
            tries: Tries { attempts: 30, pause_secs: 2 },
        },
    ).checked(
        anchor && s.selects("hls"@),
        "MS-hls-restream"@,
        MixedModel::ProbePreview {
            id: "MS-hls-restream"@,
            label: "HLS/restream"@,
            expected: "1920x1080"@,
            tries: Tries { attempts: 30, pause_secs: 2 },
        },
    ).checked(
        c == SweepConfig::H265Srt && s.selects("tc-spawns"@),
        "MS-tc-spawns"@,
        MixedModel::CheckSharing { id: "MS-tc-spawns"@ },
    ).checked(
        s.selects("sink-probe"@),
        sink_probe_id(c),
        MixedModel::ProbeSink {
            id: sink_probe_id(c),
            frames: 30,
            secs: 20,
            poll_ms: 200,
            settle_secs: 1,
        },
    ).checked(
        anchor && s.selects("hls-put-probe"@),
        "MS-hls-put-probe"@,
        MixedModel::ProbeUpload { id: "MS-hls-put-probe"@, secs: 30, poll_ms: 250 },
    ).checked(
        anchor && s.selects("burst-graph"@),
        "MS-burst-graph"@,
        MixedModel::CheckBursts { id: "MS-burst-graph"@ },
    )
}

/// The last part of a run: everything is stopped.
pub open spec fn stop_part(p: PlanModel, s: MixedSetup, c: SweepConfig) -> PlanModel {
    let stopped = p.with(MixedModel::StopPublisher).with(MixedModel::StopOutputs);
    if is_anchor(c) {
        stopped.with_lifecycle(s.selects("lifecycle"@))
    } else {
        stopped.with(MixedModel::Pause { secs: 8 })
    }
}

/// A mixed run over a stream.
pub open spec fn mixed_plan(s: MixedSetup, c: SweepConfig) -> PlanModel {
    stop_part(look_part(growth_part(s, c), s, c), s, c)
}

fn plan_growth(s: &MixedSetup, c: SweepConfig) -> (r: MixedPlan)
    requires
        s.n * 4 <= usize::MAX,
    ensures
        r@ == growth_part(*s, c),
{
    let cfg: &str = c.name();
    let multi: bool = c.multi_audio();
    let anchor: bool = match c {
        SweepConfig::H264Srt => true,
        _ => false,
    };
    let load: bool = !s.skip_load;
    let probed: bool = s.check_selected("ffprobe");
    let ring: String = "MS-adaptive-ring-".to_string().concat(cfg);
    let target: Option<String> = crate::text::copy_option(&s.resume_from);
    let mut p: MixedPlan = MixedPlan::new(target);
    p.add_step(
        MixedStep::CreatePipeline {
            name: cfg.to_string(),
            stream_key: "sk-".to_string().concat(cfg),
        },
    );
    p.add_step(publish(s, c));
    p.add_step(MixedStep::AwaitLive { secs: 45 });
    p.add_if(multi, MixedStep::Pause { secs: 6 });
    p.add_if(multi && probed, MixedStep::CheckRing { id: ring.clone() });
    p.add_check(multi && !probed, ring.as_str(), MixedStep::CheckRing { id: ring.clone() });
    p.add_step(MixedStep::NoteMemory);
    p.add_if(load, MixedStep::Snapshot { label: "baseline (input live, 0 outputs)".to_string() });
    p.add_if(
        anchor,
        MixedStep::AddOutput {
            name: "hls-preview".to_string(),
            url: "hls://".to_string().concat(cfg).concat("-preview"),
            encoding: "source".to_string(),
        },
    );
    p.add_group(s.targets, cfg, c, SweepOutputKind::RtmpSource, s.n);
    p.add_if(load, MixedStep::Snapshot { label: after_text(s.n, " RTMP source") });
    p.add_check(
        anchor && s.check_selected("smoke"),
        "MS-smoke",
        MixedStep::CheckSmoke { id: "MS-smoke".to_string() },
    );
    p.add_group(s.targets, cfg, c, SweepOutputKind::Rtmp720p, s.n);
    p.add_if(load, MixedStep::Snapshot { label: after_text(s.n, " RTMP 720p") });
    p.add_group(s.targets, cfg, c, SweepOutputKind::SrtSource, s.n);
    p.add_if(load, MixedStep::Snapshot { label: after_text(s.n, " SRT source") });
    p.add_group(s.targets, cfg, c, SweepOutputKind::Srt720p, s.n);
    p.add_if(
        load,
        MixedStep::Snapshot {
            label: "after all ".to_string().concat(
                decimal_text((s.n * 4) as u64).as_str(),
            ).concat(" outputs"),
        },
    );
    p
}

fn plan_look(p: &mut MixedPlan, s: &MixedSetup, c: SweepConfig)
    ensures
        final(p)@ == look_part(old(p)@, *s, c),
{
    let cfg: &str = c.name();
    let multi: bool = c.multi_audio();
    let anchor: bool = match c {
        SweepConfig::H264Srt => true,
        _ => false,
    };
    let bridge: bool = match c {
        SweepConfig::H265Srt => true,
        _ => false,
    };
    let probed: bool = s.check_selected("ffprobe");
    let tracks: Option<u64> = if multi {
        Some(2)
    } else {
        None
    };
    p.add_step(MixedStep::NoteGain);
    p.add_if(
        !s.skip_load && s.check_selected("load"),
        MixedStep::ReportLoad { id: "MS-load-".to_string().concat(cfg), audio_tracks: tracks },
    );
    p.add_check(
        probed,
        probe_id_text(c, SweepOutputKind::RtmpSource).as_str(),
        probe(s, c, SweepOutputKind::RtmpSource),
    );
    p.add_check(
        probed,
        probe_id_text(c, SweepOutputKind::Rtmp720p).as_str(),
        probe(s, c, SweepOutputKind::Rtmp720p),
    );
    p.add_check(
        probed,
        probe_id_text(c, SweepOutputKind::SrtSource).as_str(),
        probe(s, c, SweepOutputKind::SrtSource),
    );
    p.add_check(
        probed,
        probe_id_text(c, SweepOutputKind::Srt720p).as_str(),
        probe(s, c, SweepOutputKind::Srt720p),
    );
    p.add_check(
        probed && multi,
        audio_id_text(c, SweepOutputKind::Rtmp720p).as_str(),
        probe_audio(s, c, SweepOutputKind::Rtmp720p),
    );
    p.add_check(
        probed && multi,
        audio_id_text(c, SweepOutputKind::Srt720p).as_str(),
        probe_audio(s, c, SweepOutputKind::Srt720p),
    );
    p.add_if(
        anchor && !probed && s.check_selected("lifecycle"),
        MixedStep::Warm {
            label: "RTMP-720p out".to_string().concat(decimal_text(s.n as u64).as_str()).concat(
                " lifecycle warmup",
            ),
            url: read_url_text(s, c, SweepOutputKind::Rtmp720p),
            expected: "1280x720",
            tries: Tries { attempts: 15, pause_secs: 2 },
        },
    );
    p.add_check(
        anchor && s.check_selected("hls"),
        "MS-hls-mtx",
        MixedStep::Probe {
            id: "MS-hls-mtx".to_string(),
            label: "HLS/mtx".to_string(),
            url: "http://127.0.0.1:".to_string().concat(
                decimal_text(s.target_hls as u64).as_str(),
            ).concat("/live/").concat(
                stream_name_text(cfg, SweepOutputKind::RtmpSource, s.n).as_str(),
            ).concat("/index.m3u8"),
            expected: "1920x1080",
            tries: Tries { attempts: 30, pause_secs: 2 },
        },
    );
    p.add_check(
        anchor && s.check_selected("hls"),
        "MS-hls-restream",
        MixedStep::ProbePreview {
            id: "MS-hls-restream".to_string(),
            label: "HLS/restream".to_string(),
            expected: "1920x1080",
            tries: Tries { attempts: 30, pause_secs: 2 },
        },
    );
    p.add_check(
        bridge && s.check_selected("tc-spawns"),
        "MS-tc-spawns",
        MixedStep::CheckSharing { id: "MS-tc-spawns".to_string() },
    );
    p.add_check(
        s.check_selected("sink-probe"),
        sink_probe_id_text(c).as_str(),
        MixedStep::ProbeSink {
            id: sink_probe_id_text(c),
            frames: 30,
            secs: 20,
            poll_ms: 200,
            settle_secs: 1,
        },
    );
    p.add_check(
        anchor && s.check_selected("hls-put-probe"),
        "MS-hls-put-probe",
        MixedStep::ProbeUpload { id: "MS-hls-put-probe".to_string(), secs: 30, poll_ms: 250 },
    );
    p.add_check(
        anchor && s.check_selected("burst-graph"),
        "MS-burst-graph",
        MixedStep::CheckBursts { id: "MS-burst-graph".to_string() },
    );
}

/// Plans a mixed run over a stream.
pub fn plan_mixed(s: &MixedSetup, c: SweepConfig) -> (r: MixedPlan)
    requires
        s.n * 4 <= usize::MAX,
    ensures
        r@ == mixed_plan(*s, c),
{
    let mut p: MixedPlan = plan_growth(s, c);
    plan_look(&mut p, s, c);
    p.add_step(MixedStep::StopPublisher);
    p.add_step(MixedStep::StopOutputs);
    match c {
        SweepConfig::H264Srt => {
            p.add_lifecycle(s.check_selected("lifecycle"));
        },
        _ => {
            p.add_step(MixedStep::Pause { secs: 8 });
        },
    }
    p
}

/// A mixed run over a file that is played over and over.
pub open spec fn file_plan(s: MixedSetup) -> PlanModel {
    let cfg = "file-h264"@;
    let n = s.n as nat;
    let load = !s.skip_load;
    empty_plan(None).with(
        MixedModel::CreatePipeline { name: cfg, stream_key: "sk-"@ + cfg },
    ).with(MixedModel::StartFileIngest).with(MixedModel::AwaitLive { secs: 45 }).with(
        MixedModel::NoteMemory,
    ).with_if(
        load,
        MixedModel::Snapshot { label: "baseline (file ingest live, 0 outputs)"@ },
    ).with_group(s.targets, cfg, false, SweepOutputKind::RtmpSource, n).with_if(
        load,
        MixedModel::Snapshot { label: after_label(n, " RTMP source"@) },
    ).with_group(s.targets, cfg, false, SweepOutputKind::SrtSource, n).with_if(
        load,
        MixedModel::Snapshot { label: after_label(n, " SRT source"@) },
    ).with(MixedModel::Pause { secs: 10 }).with_if(
        load,
        MixedModel::Snapshot { label: "after 10s sustained"@ },
    ).with(MixedModel::NotePeak).with(MixedModel::StopEach { pause_after: 4, pause_ms: 100 }).with(
        MixedModel::StopFileIngest,
    )
}

/// Plans a mixed run over a file that is played over and over.
pub fn plan_mixed_file(s: &MixedSetup) -> (r: MixedPlan)
    ensures
        r@ == file_plan(*s),
{
    let cfg: &str = "file-h264";
    let load: bool = !s.skip_load;
    let mut p: MixedPlan = MixedPlan::new(None);
    p.add_step(
        MixedStep::CreatePipeline {
            name: cfg.to_string(),
            stream_key: "sk-".to_string().concat(cfg),
        },
    );
    p.add_step(MixedStep::StartFileIngest);
    p.add_step(MixedStep::AwaitLive { secs: 45 });
    p.add_step(MixedStep::NoteMemory);
    p.add_if(
        load,
        MixedStep::Snapshot { label: "baseline (file ingest live, 0 outputs)".to_string() },
    );
    p.add_group(s.targets, cfg, SweepConfig::H264Srt, SweepOutputKind::RtmpSource, s.n);
    p.add_if(load, MixedStep::Snapshot { label: after_text(s.n, " RTMP source") });
    p.add_group(s.targets, cfg, SweepConfig::H264Srt, SweepOutputKind::SrtSource, s.n);
    p.add_if(load, MixedStep::Snapshot { label: after_text(s.n, " SRT source") });
    p.add_step(MixedStep::Pause { secs: 10 });
    p.add_if(load, MixedStep::Snapshot { label: "after 10s sustained".to_string() });
    p.add_step(MixedStep::NotePeak);
    p.add_step(MixedStep::StopEach { pause_after: 4, pause_ms: 100 });
    p.add_step(MixedStep::StopFileIngest);
    p
}

// ── Laws ─────────────────────────────────────────────────────────────────────

/// How many outputs steps add.
pub open spec fn outputs_added(steps: Seq<MixedModel>) -> nat
    decreases steps.len(),
{
    if steps.len() == 0 {
        0
    } else {
        outputs_added(steps.drop_last()) + match steps.last() {
            MixedModel::AddOutput { .. } => 1nat,
            _ => 0nat,
        }
    }
}

/// How many publishers steps leave running.
pub open spec fn publishers_running(steps: Seq<MixedModel>) -> int
    decreases steps.len(),
{
    if steps.len() == 0 {
        0
    } else {
        publishers_running(steps.drop_last()) + match steps.last() {
            MixedModel::Publish { .. } => 1int,
            MixedModel::StopPublisher => -1int,
            _ => 0int,
        }
    }
}

/// How many snapshots steps take.
pub open spec fn snapshots_taken(steps: Seq<MixedModel>) -> nat
    decreases steps.len(),
{
    if steps.len() == 0 {
        0
    } else {
        snapshots_taken(steps.drop_last()) + match steps.last() {
            MixedModel::Snapshot { .. } => 1nat,
            _ => 0nat,
        }
    }
}

/// What a step adds to the three counts.
pub open spec fn adds(step: MixedModel) -> (nat, int, nat) {
    match step {
        MixedModel::AddOutput { .. } => (1, 0, 0),
        MixedModel::Publish { .. } => (0, 1, 0),
        MixedModel::StopPublisher => (0, -1, 0),
        MixedModel::Snapshot { .. } => (0, 0, 1),
        _ => (0, 0, 0),
    }
}

/// The three counts of a plan.
pub open spec fn counts(p: PlanModel) -> (nat, int, nat) {
    (outputs_added(p.steps), publishers_running(p.steps), snapshots_taken(p.steps))
}

/// Two triples of counts, added.
pub open spec fn plus(a: (nat, int, nat), b: (nat, int, nat)) -> (nat, int, nat) {
    (a.0 + b.0, a.1 + b.1, a.2 + b.2)
}

/// One more step adds what it adds.
pub broadcast proof fn counts_with(p: PlanModel, step: MixedModel)
    ensures
        #[trigger] counts(p.with(step)) == plus(counts(p), adds(step)),
{
    reveal(PlanModel::with);
    assert(p.steps.push(step).drop_last() =~= p.steps);
}

/// A step under a condition adds what it adds, where the condition holds.
pub broadcast proof fn counts_with_if(p: PlanModel, condition: bool, step: MixedModel)
    ensures
        #[trigger] counts(p.with_if(condition, step)) == (if condition {
            plus(counts(p), adds(step))
        } else {
            counts(p)
        }),
{
    reveal(PlanModel::with_if);
    counts_with(p, step);
}

/// A check that adds nothing leaves the counts as they are.
pub broadcast proof fn counts_checked(p: PlanModel, selected: bool, id: Seq<char>, step: MixedModel)
    requires
        adds(step) == (0nat, 0int, 0nat),
    ensures
        #[trigger] counts(p.checked(selected, id, step)) == counts(p),
{
    reveal(PlanModel::checked);
    counts_with(p, step);
}

proof fn lemma_counts_append(
    steps: Seq<MixedModel>,
    ports: TargetPorts,
    cfg: Seq<char>,
    multi_audio: bool,
    kind: SweepOutputKind,
    n: nat,
    k: nat,
)
    requires
        k <= n,
    ensures
        ({
            let more = group_steps(ports, cfg, multi_audio, kind, n).take(k as int);
            &&& outputs_added(steps + more) == outputs_added(steps) + k
            &&& publishers_running(steps + more) == publishers_running(steps)
            &&& snapshots_taken(steps + more) == snapshots_taken(steps)
        }),
    decreases k,
{
    let all = group_steps(ports, cfg, multi_audio, kind, n);
    if k == 0 {
        assert(steps + all.take(0) =~= steps);
    } else {
        lemma_counts_append(steps, ports, cfg, multi_audio, kind, n, (k - 1) as nat);
        assert((steps + all.take(k as int)).drop_last() =~= steps + all.take(k - 1));
        assert((steps + all.take(k as int)).last() == all[k - 1]);
    }
}

/// A group adds its outputs.
pub broadcast proof fn counts_with_group(
    p: PlanModel,
    ports: TargetPorts,
    cfg: Seq<char>,
    multi_audio: bool,
    kind: SweepOutputKind,
    n: nat,
)
    ensures
        #[trigger] counts(p.with_group(ports, cfg, multi_audio, kind, n)) == plus(
            counts(p),
            (n, 0, 0),
        ),
{
    reveal(PlanModel::with_group);
    lemma_counts_append(p.steps, ports, cfg, multi_audio, kind, n, n);
    let all = group_steps(ports, cfg, multi_audio, kind, n);
    assert(all.take(n as int) =~= all);
}

/// The wait for the end adds nothing.
pub broadcast proof fn counts_with_lifecycle(p: PlanModel, selected: bool)
    ensures
        #[trigger] counts(p.with_lifecycle(selected)) == counts(p),
{
    reveal(PlanModel::with_lifecycle);
    counts_with(p, MixedModel::AwaitStopped { secs: 60, reported: true });
    counts_with(p, MixedModel::AwaitStopped { secs: 60, reported: false });
}

/// A run adds as many outputs as its groups have, whatever is selected; the run that is looked at
/// most closely adds a preview.
pub proof fn run_adds_all_outputs(s: MixedSetup, c: SweepConfig)
    ensures
        counts(mixed_plan(s, c)).0 == 4 * s.n + (if is_anchor(c) {
            1int
        } else {
            0int
        }),
        counts(file_plan(s)).0 == 2 * s.n,
{
    broadcast use {
        counts_with,
        counts_with_if,
        counts_checked,
        counts_with_group,
        counts_with_lifecycle,
    };

    assert(counts(empty_plan(text_option(s.resume_from))) == (0nat, 0int, 0nat));
    assert(counts(empty_plan(None)) == (0nat, 0int, 0nat));
    assert(counts(growth_part(s, c)).0 == 4 * s.n + (if is_anchor(c) {
        1int
    } else {
        0int
    }));
}

/// A run that starts a publisher stops it.
pub proof fn run_stops_its_publisher(s: MixedSetup, c: SweepConfig)
    ensures
        counts(mixed_plan(s, c)).1 == 0,
{
    broadcast use {
        counts_with,
        counts_with_if,
        counts_checked,
        counts_with_group,
        counts_with_lifecycle,
    };

    assert(counts(empty_plan(text_option(s.resume_from))) == (0nat, 0int, 0nat));
    assert(counts(growth_part(s, c)).1 == 1);
    assert(counts(look_part(growth_part(s, c), s, c)).1 == 1);
}

/// A run that is not to be measured takes no snapshot; one that is takes five, or four over a file.
pub proof fn snapshots_follow_the_load(s: MixedSetup, c: SweepConfig)
    ensures
        counts(mixed_plan(s, c)).2 == (if s.skip_load {
            0int
        } else {
            5int
        }),
        counts(file_plan(s)).2 == (if s.skip_load {
            0int
        } else {
            4int
        }),
{
    broadcast use {
        counts_with,
        counts_with_if,
        counts_checked,
        counts_with_group,
        counts_with_lifecycle,
    };

    assert(counts(empty_plan(text_option(s.resume_from))) == (0nat, 0int, 0nat));
    assert(counts(empty_plan(None)) == (0nat, 0int, 0nat));
    assert(counts(look_part(growth_part(s, c), s, c)).2 == counts(growth_part(s, c)).2);
}

/// A check before the one at which a run is resumed is passed over, and changes nothing.
pub proof fn checks_before_the_target_are_passed_over(
    p: PlanModel,
    selected: bool,
    id: Seq<char>,
    step: MixedModel,
)
    requires
        !p.active,
        p.target != Some(id),
    ensures
        p.checked(selected, id, step) == p,
{
    reveal(PlanModel::checked);
}

/// From the check at which a run is resumed on, every check that is selected is made.
pub proof fn checks_from_the_target_are_made(
    p: PlanModel,
    id: Seq<char>,
    step: MixedModel,
    next_id: Seq<char>,
    next: MixedModel,
)
    requires
        p.target == Some(id),
    ensures
        ({
            let resumed = p.checked(true, id, step);
            &&& resumed.steps == p.steps.push(step)
            &&& resumed.checked(true, next_id, next).steps == resumed.steps.push(next)
        }),
{
    reveal(PlanModel::checked);
    reveal(PlanModel::with);
}

/// Whether a plan has a step.
pub open spec fn plans(p: PlanModel, step: MixedModel) -> bool {
    p.steps.contains(step)
}

/// A step that is added is there, and so is what was there before.
pub broadcast proof fn has_with(p: PlanModel, step: MixedModel, x: MixedModel)
    ensures
        #[trigger] plans(p.with(step), x) == (plans(p, x) || x == step),
{
    reveal(PlanModel::with);
    let after = p.steps.push(step);
    assert(after[p.steps.len() as int] == step);
    if p.steps.contains(x) {
        let i = p.steps.index_of(x);
        assert(after[i] == x);
    }
    if after.contains(x) {
        let i = after.index_of(x);
        if i < p.steps.len() {
            assert(p.steps[i] == x);
        }
    }
}

/// A step under a condition is there where the condition holds.
pub broadcast proof fn has_with_if(p: PlanModel, condition: bool, step: MixedModel, x: MixedModel)
    ensures
        #[trigger] plans(p.with_if(condition, step), x) == (plans(p, x) || (condition && x == step)),
{
    reveal(PlanModel::with_if);
    has_with(p, step, x);
}

/// In a plan that passes nothing over, a check is there where it is selected.
pub broadcast proof fn has_checked(
    p: PlanModel,
    selected: bool,
    id: Seq<char>,
    step: MixedModel,
    x: MixedModel,
)
    requires
        p.active,
    ensures
        #[trigger] plans(p.checked(selected, id, step), x) == (plans(p, x) || (selected && x == step)),
{
    reveal(PlanModel::checked);
    has_with(p, step, x);
}

/// A group has nothing but outputs.
pub broadcast proof fn has_with_group(
    p: PlanModel,
    ports: TargetPorts,
    cfg: Seq<char>,
    multi_audio: bool,
    kind: SweepOutputKind,
    n: nat,
    x: MixedModel,
)
    requires
        !(x is AddOutput),
    ensures
        #[trigger] plans(p.with_group(ports, cfg, multi_audio, kind, n), x) == plans(p, x),
{
    reveal(PlanModel::with_group);
    let group = group_steps(ports, cfg, multi_audio, kind, n);
    let after = p.steps + group;
    if p.steps.contains(x) {
        let i = p.steps.index_of(x);
        assert(after[i] == x);
    }
    if after.contains(x) {
        let i = after.index_of(x);
        if i < p.steps.len() {
            assert(p.steps[i] == x);
        } else {
            assert(after[i] == group[i - p.steps.len()]);
        }
    }
}

/// The wait for the end is the only step that it adds.
pub broadcast proof fn has_with_lifecycle(p: PlanModel, selected: bool, x: MixedModel)
    requires
        !(x is AwaitStopped),
    ensures
        #[trigger] plans(p.with_lifecycle(selected), x) == plans(p, x),
{
    reveal(PlanModel::with_lifecycle);
    has_with(p, MixedModel::AwaitStopped { secs: 60, reported: true }, x);
    has_with(p, MixedModel::AwaitStopped { secs: 60, reported: false }, x);
}

/// A step leaves open what is passed over.
pub broadcast proof fn active_with(p: PlanModel, step: MixedModel)
    ensures
        #[trigger] p.with(step).active == p.active,
{
    reveal(PlanModel::with);
}

/// A step under a condition leaves open what is passed over.
pub broadcast proof fn active_with_if(p: PlanModel, condition: bool, step: MixedModel)
    ensures
        #[trigger] p.with_if(condition, step).active == p.active,
{
    reveal(PlanModel::with_if);
    active_with(p, step);
}

/// Once nothing is passed over any more, a check changes nothing about it.
pub broadcast proof fn active_checked(p: PlanModel, selected: bool, id: Seq<char>, step: MixedModel)
    requires
        p.active,
    ensures
        #[trigger] p.checked(selected, id, step).active,
{
    reveal(PlanModel::checked);
}

/// A group leaves open what is passed over.
pub broadcast proof fn active_with_group(
    p: PlanModel,
    ports: TargetPorts,
    cfg: Seq<char>,
    multi_audio: bool,
    kind: SweepOutputKind,
    n: nat,
)
    ensures
        #[trigger] p.with_group(ports, cfg, multi_audio, kind, n).active == p.active,
{
    reveal(PlanModel::with_group);
}

/// While the outputs grow, the ring of a stream with several audio tracks is checked, and the anchor
/// alone is looked at for transcoders that came too early.
#[verifier::rlimit(60)]
#[verifier::spinoff_prover]
pub proof fn growth_is_checked_where_selected(s: MixedSetup, c: SweepConfig, id: Seq<char>)
    requires
        s.resume_from is None,
    ensures
        growth_part(s, c).active,
        plans(growth_part(s, c), MixedModel::CheckRing { id }) <==> c.is_multi() && id
            == "MS-adaptive-ring-"@ + c.named(),
        plans(growth_part(s, c), MixedModel::CheckSmoke { id }) <==> c == SweepConfig::H264Srt
            && s.selects("smoke"@) && id == "MS-smoke"@,
        plans(growth_part(s, c), publish_step(s, c)),
        plans(growth_part(s, c), MixedModel::NoteMemory),
        !plans(growth_part(s, c), MixedModel::CheckSharing { id }),
        !plans(growth_part(s, c), MixedModel::CheckBursts { id }),
{
    broadcast use {has_with, has_with_if, has_checked, has_with_group};
    broadcast use {active_with, active_with_if, active_checked, active_with_group};

    assert(empty_plan(text_option(s.resume_from)).active);
    assert(!plans(empty_plan(text_option(s.resume_from)), MixedModel::CheckRing { id }));
    assert(!plans(empty_plan(text_option(s.resume_from)), MixedModel::CheckSmoke { id }));
    assert(!plans(empty_plan(text_option(s.resume_from)), MixedModel::CheckSharing { id }));
    assert(!plans(empty_plan(text_option(s.resume_from)), MixedModel::CheckBursts { id }));
}

/// Once the outputs are there, they are looked at where that is selected: each group is probed, the
/// audio of streams with several tracks too, the sharing of H.265 alone, and the graph and the
/// previews of the anchor alone.
#[verifier::rlimit(60)]
#[verifier::spinoff_prover]
pub proof fn looks_are_taken_where_selected(
    p: PlanModel,
    s: MixedSetup,
    c: SweepConfig,
    id: Seq<char>,
)
    requires
        p.active,
    ensures
        plans(look_part(p, s, c), MixedModel::NoteGain),
        plans(look_part(p, s, c), MixedModel::CheckSharing { id }) <==> plans(
            p,
            MixedModel::CheckSharing { id },
        ) || (c == SweepConfig::H265Srt && s.selects("tc-spawns"@) && id == "MS-tc-spawns"@),
        plans(look_part(p, s, c), MixedModel::CheckBursts { id }) <==> plans(
            p,
            MixedModel::CheckBursts { id },
        ) || (c == SweepConfig::H264Srt && s.selects("burst-graph"@) && id == "MS-burst-graph"@),
        plans(
            look_part(p, s, c),
            MixedModel::ProbeSink { id, frames: 30, secs: 20, poll_ms: 200, settle_secs: 1 },
        ) <==> plans(
            p,
            MixedModel::ProbeSink { id, frames: 30, secs: 20, poll_ms: 200, settle_secs: 1 },
        ) || (s.selects("sink-probe"@) && id == sink_probe_id(c)),
        plans(look_part(p, s, c), MixedModel::ProbeUpload { id, secs: 30, poll_ms: 250 }) <==> plans(
            p,
            MixedModel::ProbeUpload { id, secs: 30, poll_ms: 250 },
        ) || (c == SweepConfig::H264Srt && s.selects("hls-put-probe"@) && id
            == "MS-hls-put-probe"@),
{
    broadcast use {has_with, has_with_if, has_checked};
    broadcast use {active_with, active_with_if, active_checked};

}

/// The groups are probed where that is selected, each of the four, and the audio of streams with
/// several tracks on both protocols.
#[verifier::rlimit(60)]
#[verifier::spinoff_prover]
pub proof fn groups_are_probed_where_selected(p: PlanModel, s: MixedSetup, c: SweepConfig)
    requires
        p.active,
        s.selects("ffprobe"@),
    ensures
        plans(look_part(p, s, c), probe_step(s, c, SweepOutputKind::RtmpSource)),
        plans(look_part(p, s, c), probe_step(s, c, SweepOutputKind::Rtmp720p)),
        plans(look_part(p, s, c), probe_step(s, c, SweepOutputKind::SrtSource)),
        plans(look_part(p, s, c), probe_step(s, c, SweepOutputKind::Srt720p)),
        c.is_multi() ==> plans(look_part(p, s, c), audio_step(s, c, SweepOutputKind::Rtmp720p))
            && plans(look_part(p, s, c), audio_step(s, c, SweepOutputKind::Srt720p)),
{
    broadcast use {has_with, has_with_if, has_checked};
    broadcast use {active_with, active_with_if, active_checked};

}

/// A run shares stages where it is H.265 and asked to show it, looks at bursts and early transcoders
/// where it is the anchor, and stops its publisher and its outputs in the end.
pub proof fn run_makes_the_checks_of_its_stream(s: MixedSetup, c: SweepConfig, id: Seq<char>)
    requires
        s.resume_from is None,
    ensures
        plans(mixed_plan(s, c), MixedModel::CheckSharing { id }) <==> c == SweepConfig::H265Srt
            && s.selects("tc-spawns"@) && id == "MS-tc-spawns"@,
        plans(mixed_plan(s, c), MixedModel::CheckBursts { id }) <==> c == SweepConfig::H264Srt
            && s.selects("burst-graph"@) && id == "MS-burst-graph"@,
        plans(mixed_plan(s, c), MixedModel::StopPublisher),
        plans(mixed_plan(s, c), MixedModel::StopOutputs),
{
    growth_is_checked_where_selected(s, c, id);
    looks_are_taken_where_selected(growth_part(s, c), s, c, id);
    lemma_stop_adds(look_part(growth_part(s, c), s, c), s, c, MixedModel::CheckSharing { id });
    lemma_stop_adds(look_part(growth_part(s, c), s, c), s, c, MixedModel::CheckBursts { id });
    lemma_stop_adds(look_part(growth_part(s, c), s, c), s, c, MixedModel::StopPublisher);
    lemma_stop_adds(look_part(growth_part(s, c), s, c), s, c, MixedModel::StopOutputs);
}

proof fn lemma_stop_adds(p: PlanModel, s: MixedSetup, c: SweepConfig, x: MixedModel)
    requires
        !(x is AwaitStopped),
        !(x is Pause),
    ensures
        plans(stop_part(p, s, c), x) <==> plans(p, x) || x == MixedModel::StopPublisher || x
            == MixedModel::StopOutputs,
{
    let a = p.with(MixedModel::StopPublisher);
    let b = a.with(MixedModel::StopOutputs);
    has_with(p, MixedModel::StopPublisher, x);
    has_with(a, MixedModel::StopOutputs, x);
    has_with_lifecycle(b, s.selects("lifecycle"@), x);
    has_with(b, MixedModel::Pause { secs: 8 }, x);
}

/// The groups that are probed are those that were added: the last output of each is read where it is
/// sent, by the protocol of its kind, and expected in its size.
pub proof fn probes_read_the_last_output(s: MixedSetup, c: SweepConfig, kind: SweepOutputKind)
    requires
        s.n > 0,
    ensures
        ({
            let group = group_steps(s.targets, c.named(), c.is_multi(), kind, s.n as nat);
            let name = c.named() + "-"@ + told_as(kind) + "-"@ + decimal(s.n as nat);
            let probe = probe_step(s, c, kind);
            &&& group.len() == s.n
            &&& group.last() == MixedModel::AddOutput {
                name: told_as(kind) + "-"@ + decimal(s.n as nat),
                url: output_address(s.targets, kind, name),
                encoding: kind.encoded(c.is_multi()),
            }
            &&& probe->Probe_url == (if kind.over_rtmp() {
                rtmp_address(s.targets.rtmp, name)
            } else {
                srt_play_address(s.targets.srt, name)
            })
            &&& probe->Probe_expected == kind.expects()
            &&& probe->Probe_tries == (Tries { attempts: 30, pause_secs: 2 })
            &&& kind is Rtmp720p ==> audio_step(s, c, kind)->tracks == 1
            &&& kind is Srt720p ==> audio_step(s, c, kind)->tracks == 2
            &&& audio_step(s, c, kind)->ProbeAudio_url == probe->Probe_url
        }),
{
}

/// A stream is published over its own protocol, in its format and codec, with all of its tracks where
/// it has several.
pub proof fn streams_are_published_as_they_are(s: MixedSetup, c: SweepConfig)
    ensures
        ({
            let step = publish_step(s, c);
            &&& c == SweepConfig::H264Rtmp ==> step->Publish_url == rtmp_address(
                s.ingest_rtmp,
                "sk-"@ + c.named(),
            ) && step->format == "flv"@
            &&& c != SweepConfig::H264Rtmp ==> step->Publish_url == srt_ingest_address(
                s.ingest_srt,
                "sk-"@ + c.named(),
            ) && step->format == "mpegts"@
            &&& c == SweepConfig::H265Srt || c == SweepConfig::H265SrtMulti ==> step->codec
                == "h265"@
            &&& c == SweepConfig::H264Rtmp || c == SweepConfig::H264Srt || c
                == SweepConfig::H264SrtMulti ==> step->codec == "h264"@
            &&& step->all_streams <==> c == SweepConfig::H264SrtMulti || c
                == SweepConfig::H265SrtMulti
        }),
{
}

/// Checks are selected by their names, with hyphens for underscores and without white space around
/// them; a blank list selects all of them.
pub proof fn checks_are_selected_by_name(
    pieces: Seq<Seq<char>>,
    piece: Seq<char>,
    text: Seq<char>,
    check: Seq<char>,
)
    ensures
        trimmed(piece).len() > 0 ==> check_names(pieces.push(piece)) == check_names(pieces).push(
            replaced(trimmed(piece), '_', '-'),
        ),
        trimmed(piece).len() == 0 ==> check_names(pieces.push(piece)) == check_names(pieces),
        trimmed(text).len() == 0 ==> is_selected(only_checks_of(Some(text)), check),
        trimmed(text).len() > 0 ==> (is_selected(only_checks_of(Some(text)), check) <==> check_names(
            split(text, ','),
        ).contains(check)),
        is_selected(only_checks_of(None), check),
{
    assert(pieces.push(piece).drop_last() =~= pieces);
}

} // verus!
