//! Typed stage identity and output encoding planning.
//!
//! Every stage in the media graph has a typed [`StageKind`] that says what it does. A [`StageKey`]
//! pairs a [`PipelineId`] with a [`StageKind`] and names one stage of the engine.

use vstd::prelude::*;
use vstd::string::*;

use crate::domain::audio_routing::{
    is_audio_operation, looks_like_audio_operation, operation_routing, routing, AudioRoutingModel,
};
use crate::text::{
    after, before, chars_of, cut_comes_at_the_first, lemma_first_of, same_text, split_once, starts,
};

verus! {

#[derive(Debug, Clone, PartialEq, Eq, Hash)]
pub struct PipelineId(String);

#[derive(Debug, Clone, PartialEq, Eq, Hash)]
pub struct StageId(String);

#[derive(Debug, Clone, PartialEq, Eq, Hash)]
pub struct WorkerId(String);

impl View for PipelineId {
    type V = Seq<char>;

    closed spec fn view(&self) -> Seq<char> {
        self.0@
    }
}

impl View for StageId {
    type V = Seq<char>;

    closed spec fn view(&self) -> Seq<char> {
        self.0@
    }
}

impl View for WorkerId {
    type V = Seq<char>;

    closed spec fn view(&self) -> Seq<char> {
        self.0@
    }
}

impl PipelineId {
    pub fn new(value: &str) -> (r: Self)
        ensures
            r@ == value@,
    {
        PipelineId(value.to_string())
    }

    pub fn as_str(&self) -> (r: &str)
        ensures
            r@ == self@,
    {
        self.0.as_str()
    }

    /// A copy of the id.
    pub fn duplicate(&self) -> (r: Self)
        ensures
            r@ == self@,
    {
        PipelineId(self.0.clone())
    }
}

impl StageId {
    pub fn new(value: &str) -> (r: Self)
        ensures
            r@ == value@,
    {
        StageId(value.to_string())
    }

    pub fn as_str(&self) -> (r: &str)
        ensures
            r@ == self@,
    {
        self.0.as_str()
    }
}

impl WorkerId {
    pub fn new(value: &str) -> (r: Self)
        ensures
            r@ == value@,
    {
        WorkerId(value.to_string())
    }

    pub fn as_str(&self) -> (r: &str)
        ensures
            r@ == self@,
    {
        self.0.as_str()
    }
}

// ── Stage kinds ──────────────────────────────────────────────────────────────

#[derive(Debug, PartialEq, Eq, Hash)]
pub enum StageKind {
    Source,
    VideoPreset { preset: String },
    AudioRoute { operation: String, upstream: Box<StageKind> },
    CodecEdge { operation: String, upstream: Box<StageKind> },
    Hls,
    Recording,
}

/// What a [`StageKind`] says.
pub enum StageModel {
    Source,
    VideoPreset { preset: Seq<char> },
    AudioRoute { operation: Seq<char>, upstream: Box<StageModel> },
    CodecEdge { operation: Seq<char>, upstream: Box<StageModel> },
    Hls,
    Recording,
}

impl StageKind {
    /// What the kind says.
    pub open spec fn model(&self) -> StageModel
        decreases self,
    {
        match self {
            StageKind::Source => StageModel::Source,
            StageKind::VideoPreset { preset } => StageModel::VideoPreset { preset: preset@ },
            StageKind::AudioRoute { operation, upstream } => StageModel::AudioRoute {
                operation: operation@,
                upstream: Box::new(upstream.model()),
            },
            StageKind::CodecEdge { operation, upstream } => StageModel::CodecEdge {
                operation: operation@,
                upstream: Box::new(upstream.model()),
            },
            StageKind::Hls => StageModel::Hls,
            StageKind::Recording => StageModel::Recording,
        }
    }
}

impl View for StageKind {
    type V = StageModel;

    open spec fn view(&self) -> StageModel {
        self.model()
    }
}

impl StageModel {
    /// The name of the stage: what it does, and what it takes its input from.
    pub open spec fn name(self) -> Seq<char>
        decreases self,
    {
        match self {
            StageModel::Source => "source"@,
            StageModel::Hls => "hls"@,
            StageModel::Recording => "recording"@,
            StageModel::VideoPreset { preset } => "video:"@ + preset,
            StageModel::AudioRoute { operation, upstream } => "audio:"@ + operation + ":from:"@
                + upstream.name(),
            StageModel::CodecEdge { operation, upstream } => operation + ":from:"@
                + upstream.name(),
        }
    }

    /// The label that a graph shows.
    pub open spec fn label(self) -> Seq<char> {
        match self {
            StageModel::Source => "Source"@,
            StageModel::Hls => "HLS Preview"@,
            StageModel::Recording => "MKV Recording"@,
            StageModel::VideoPreset { preset } => "Video: "@ + preset,
            StageModel::AudioRoute { operation, .. } => "Audio: "@ + operation,
            StageModel::CodecEdge { operation, .. } => if operation == "hevc_to_h264"@ {
                "HEVC -> H.264"@
            } else {
                "Codec edge: "@ + operation
            },
        }
    }

    /// The kind of node that a graph shows.
    pub open spec fn node_type(self) -> Seq<char> {
        match self {
            StageModel::AudioRoute { .. } => "audio_filter"@,
            StageModel::CodecEdge { .. } => "codec_edge"@,
            StageModel::Source => "source"@,
            StageModel::Hls => "hls"@,
            StageModel::Recording => "recording"@,
            StageModel::VideoPreset { .. } => "transcoder"@,
        }
    }

    /// The stage that this one takes its input from, where it names one.
    pub open spec fn feeder(self) -> Option<StageModel> {
        match self {
            StageModel::AudioRoute { upstream, .. } => Some(*upstream),
            StageModel::CodecEdge { upstream, .. } => Some(*upstream),
            _ => None,
        }
    }
}

/// `c`, with an underscore in place of the separators of a stage name.
pub open spec fn slug_char(c: char) -> char {
    if c == ':' || c == '+' || c == ',' {
        '_'
    } else {
        c
    }
}

/// A stage name in the form in which node ids hold it.
pub open spec fn slug(s: Seq<char>) -> Seq<char> {
    s.map_values(|c: char| slug_char(c))
}

fn slug_text(s: &str) -> (r: String)
    ensures
        r@ == slug(s@),
{
    let v: Vec<char> = chars_of(s);
    let mut out: String = String::new();
    let mut i: usize = 0;
    while i < v.len()
        invariant
            i <= v@.len(),
            out@ == slug(v@.take(i as int)),
        decreases v@.len() - i,
    {
        let c: char = v[i];
        out.push(if c == ':' || c == '+' || c == ',' { '_' } else { c });
        assert(slug(v@.take(i + 1)) =~= slug(v@.take(i as int)).push(slug_char(v@[i as int])));
        i += 1;
    }
    assert(v@.take(v@.len() as int) =~= v@);
    out
}

/// The id of a stage's node in the graph of a pipeline.
pub open spec fn node_id(pipeline: Seq<char>, kind: StageModel) -> Seq<char> {
    pipeline + "_"@ + slug(kind.name()) + "_stage"@
}

impl StageKind {
    pub fn source() -> (r: Self)
        ensures
            r@ == StageModel::Source,
    {
        StageKind::Source
    }

    pub fn video_preset(preset: &str) -> (r: Self)
        ensures
            r@ == (StageModel::VideoPreset { preset: preset@ }),
    {
        StageKind::VideoPreset { preset: preset.to_string() }
    }

    pub fn audio_route(operation: &str, upstream: StageKind) -> (r: Self)
        ensures
            r@ == (StageModel::AudioRoute { operation: operation@, upstream: Box::new(upstream@) }),
    {
        StageKind::AudioRoute { operation: operation.to_string(), upstream: Box::new(upstream) }
    }

    pub fn codec_edge(operation: &str, upstream: StageKind) -> (r: Self)
        ensures
            r@ == (StageModel::CodecEdge { operation: operation@, upstream: Box::new(upstream@) }),
    {
        StageKind::CodecEdge { operation: operation.to_string(), upstream: Box::new(upstream) }
    }

    pub fn hls() -> (r: Self)
        ensures
            r@ == StageModel::Hls,
    {
        StageKind::Hls
    }

    pub fn recording() -> (r: Self)
        ensures
            r@ == StageModel::Recording,
    {
        StageKind::Recording
    }

    /// A copy of the kind.
    pub fn duplicate(&self) -> (r: Self)
        ensures
            r == *self,
        decreases self,
    {
        match self {
            StageKind::Source => StageKind::Source,
            StageKind::VideoPreset { preset } => StageKind::VideoPreset { preset: preset.clone() },
            StageKind::AudioRoute { operation, upstream } => StageKind::AudioRoute {
                operation: operation.clone(),
                upstream: Box::new((*upstream).duplicate()),
            },
            StageKind::CodecEdge { operation, upstream } => StageKind::CodecEdge {
                operation: operation.clone(),
                upstream: Box::new((*upstream).duplicate()),
            },
            StageKind::Hls => StageKind::Hls,
            StageKind::Recording => StageKind::Recording,
        }
    }

    /// The name of the stage.
    pub fn to_text(&self) -> (r: String)
        ensures
            r@ == self@.name(),
        decreases self,
    {
        match self {
            StageKind::Source => "source".to_string(),
            StageKind::Hls => "hls".to_string(),
            StageKind::Recording => "recording".to_string(),
            StageKind::VideoPreset { preset } => {
                let mut out: String = "video:".to_string();
                out.append(preset.as_str());
                out
            },
            StageKind::AudioRoute { operation, upstream } => {
                let mut out: String = "audio:".to_string();
                out.append(operation.as_str());
                out.append(":from:");
                out.append((*upstream).to_text().as_str());
                out
            },
            StageKind::CodecEdge { operation, upstream } => {
                let mut out: String = operation.clone();
                out.append(":from:");
                out.append((*upstream).to_text().as_str());
                out
            },
        }
    }

    pub fn graph_node_id(&self, pipeline_id: &str) -> (r: String)
        ensures
            r@ == node_id(pipeline_id@, self@),
    {
        let name: String = self.to_text();
        let mut out: String = pipeline_id.to_string();
        out.append("_");
        out.append(slug_text(name.as_str()).as_str());
        out.append("_stage");
        out
    }

    pub fn graph_label(&self) -> (r: String)
        ensures
            r@ == self@.label(),
    {
        match self {
            StageKind::Source => "Source".to_string(),
            StageKind::Hls => "HLS Preview".to_string(),
            StageKind::Recording => "MKV Recording".to_string(),
            StageKind::VideoPreset { preset } => {
                let mut out: String = "Video: ".to_string();
                out.append(preset.as_str());
                out
            },
            StageKind::AudioRoute { operation, .. } => {
                let mut out: String = "Audio: ".to_string();
                out.append(operation.as_str());
                out
            },
            StageKind::CodecEdge { operation, .. } => if same_text(
                operation.as_str(),
                "hevc_to_h264",
            ) {
                "HEVC -> H.264".to_string()
            } else {
                let mut out: String = "Codec edge: ".to_string();
                out.append(operation.as_str());
                out
            },
        }
    }

    pub fn graph_type(&self) -> (r: &'static str)
        ensures
            r@ == self@.node_type(),
    {
        match self {
            StageKind::AudioRoute { .. } => "audio_filter",
            StageKind::CodecEdge { .. } => "codec_edge",
            StageKind::Source => "source",
            StageKind::Hls => "hls",
            StageKind::Recording => "recording",
            StageKind::VideoPreset { .. } => "transcoder",
        }
    }

    pub fn upstream(&self) -> (r: Option<&StageKind>)
        ensures
            match r {
                Some(kind) => self@.feeder() == Some(kind@),
                None => self@.feeder() is None,
            },
    {
        match self {
            StageKind::AudioRoute { upstream, .. } => Some(upstream),
            StageKind::CodecEdge { upstream, .. } => Some(upstream),
            _ => None,
        }
    }

    pub fn is_video_preset(&self) -> (r: bool)
        ensures
            r == (self@ is VideoPreset),
    {
        matches!(self, StageKind::VideoPreset { .. })
    }

    pub fn audio_operation(&self) -> (r: Option<&str>)
        ensures
            match r {
                Some(s) => self@ is AudioRoute && s@ == self@->AudioRoute_operation,
                None => !(self@ is AudioRoute),
            },
    {
        match self {
            StageKind::AudioRoute { operation, .. } => Some(operation.as_str()),
            _ => None,
        }
    }

    /// The preset of a video stage.
    pub fn preset_name(&self) -> (r: Option<&str>)
        ensures
            match r {
                Some(s) => self@ is VideoPreset && s@ == self@->preset,
                None => !(self@ is VideoPreset),
            },
    {
        match self {
            StageKind::VideoPreset { preset } => Some(preset.as_str()),
            _ => None,
        }
    }
}

impl Clone for StageKind {
    fn clone(&self) -> (r: Self)
        ensures
            r == *self,
    {
        self.duplicate()
    }
}

// ── Stage keys ───────────────────────────────────────────────────────────────

#[derive(Debug, Clone, PartialEq, Eq, Hash)]
pub struct StageKey {
    pub pipeline: PipelineId,
    pub kind: StageKind,
}

/// What a [`StageKey`] says.
pub struct StageKeyModel {
    pub pipeline: Seq<char>,
    pub kind: StageModel,
}

impl View for StageKey {
    type V = StageKeyModel;

    open spec fn view(&self) -> StageKeyModel {
        StageKeyModel { pipeline: self.pipeline@, kind: self.kind@ }
    }
}

impl StageKey {
    pub fn new(pipeline: &str, kind: StageKind) -> (r: Self)
        ensures
            r@ == (StageKeyModel { pipeline: pipeline@, kind: kind@ }),
    {
        StageKey { pipeline: PipelineId::new(pipeline), kind }
    }

    /// The pipeline and the name of the stage.
    pub fn to_text(&self) -> (r: String)
        ensures
            r@ == self@.pipeline + ":"@ + self@.kind.name(),
    {
        let mut out: String = self.pipeline.as_str().to_string();
        out.append(":");
        out.append(self.kind.to_text().as_str());
        out
    }
}

// ── Encoding plans ───────────────────────────────────────────────────────────

/// The stages that an output encoding needs.
#[derive(Debug, PartialEq, Eq)]
pub struct EncodingStagePlan {
    pipeline: PipelineId,
    source: StageKind,
    video_stage: Option<StageKind>,
    audio_stage: Option<StageKind>,
}

/// What an [`EncodingStagePlan`] says.
pub struct EncodingPlanModel {
    pub pipeline: Seq<char>,
    pub video: Option<StageModel>,
    pub audio: Option<StageModel>,
}

/// The kind that an optional stage has.
pub open spec fn stage_option(kind: Option<StageKind>) -> Option<StageModel> {
    match kind {
        Some(k) => Some(k@),
        None => None,
    }
}

/// The key that an optional stage has.
pub open spec fn key_option(key: Option<StageKey>) -> Option<StageKeyModel> {
    match key {
        Some(k) => Some(k@),
        None => None,
    }
}

/// The video preset that an encoding names: its first part, unless that is an audio operation.
pub open spec fn video_part(encoding: Seq<char>) -> Seq<char> {
    if is_audio_operation(before(encoding, '+')) {
        "source"@
    } else {
        before(encoding, '+')
    }
}

/// The audio operation that an encoding names: its first part where that is one, else what follows
/// the first `+` and is not empty.
pub open spec fn planned_operation(encoding: Seq<char>) -> Option<Seq<char>> {
    if is_audio_operation(before(encoding, '+')) {
        Some(before(encoding, '+'))
    } else {
        match after(encoding, '+') {
            Some(rest) => if rest.len() == 0 {
                None
            } else {
                Some(rest)
            },
            None => None,
        }
    }
}

/// The video stage of an encoding; none for `source`, `custom` and the empty preset.
pub open spec fn planned_video(encoding: Seq<char>) -> Option<StageModel> {
    let preset = video_part(encoding);
    if preset.len() == 0 || preset == "source"@ || preset == "custom"@ {
        None
    } else {
        Some(StageModel::VideoPreset { preset })
    }
}

/// The audio stage of an encoding: it takes its input from the video stage, or from the source.
pub open spec fn planned_audio(encoding: Seq<char>) -> Option<StageModel> {
    match planned_operation(encoding) {
        Some(operation) => Some(
            StageModel::AudioRoute {
                operation,
                upstream: Box::new(
                    match planned_video(encoding) {
                        Some(video) => video,
                        None => StageModel::Source,
                    },
                ),
            },
        ),
        None => None,
    }
}

/// The plan of an encoding.
pub open spec fn plan_of(pipeline: Seq<char>, encoding: Seq<char>) -> EncodingPlanModel {
    EncodingPlanModel {
        pipeline,
        video: planned_video(encoding),
        audio: planned_audio(encoding),
    }
}

impl EncodingPlanModel {
    /// The last stage: audio, else video, else the source.
    pub open spec fn terminal(self) -> StageModel {
        match self.audio {
            Some(audio) => audio,
            None => match self.video {
                Some(video) => video,
                None => StageModel::Source,
            },
        }
    }
}

impl View for EncodingStagePlan {
    type V = EncodingPlanModel;

    closed spec fn view(&self) -> EncodingPlanModel {
        EncodingPlanModel {
            pipeline: self.pipeline@,
            video: stage_option(self.video_stage),
            audio: stage_option(self.audio_stage),
        }
    }
}

fn copy_stage(kind: &Option<StageKind>) -> (r: Option<StageKind>)
    ensures
        r == *kind,
{
    match kind {
        Some(k) => Some(k.duplicate()),
        None => None,
    }
}

impl Clone for EncodingStagePlan {
    fn clone(&self) -> (r: Self)
        ensures
            r@ == self@,
    {
        EncodingStagePlan {
            pipeline: self.pipeline.duplicate(),
            source: StageKind::source(),
            video_stage: copy_stage(&self.video_stage),
            audio_stage: copy_stage(&self.audio_stage),
        }
    }
}

impl EncodingStagePlan {
    /// The source of a plan is the source stage.
    #[verifier::type_invariant]
    spec fn wf(&self) -> bool {
        self.source@ == StageModel::Source
    }

    pub fn from_encoding(pipeline_id: &str, encoding: &str) -> (r: Self)
        ensures
            r@ == plan_of(pipeline_id@, encoding@),
    {
        let pipeline: PipelineId = PipelineId::new(pipeline_id);
        let (first_part, second) = split_once(encoding, '+');
        let second_part: Option<String> = match second {
            Some(value) => if value.as_str().is_empty() {
                None
            } else {
                Some(value)
            },
            None => None,
        };
        let (video_preset, audio_operation): (String, Option<String>) =
            if looks_like_audio_operation(first_part.as_str()) {
            ("source".to_string(), Some(first_part))
        } else {
            (first_part, second_part)
        };

        let source: StageKind = StageKind::source();
        let needs_video: bool = !video_preset.as_str().is_empty() && !same_text(
            video_preset.as_str(),
            "source",
        ) && !same_text(video_preset.as_str(), "custom");
        let video_stage: Option<StageKind> = if needs_video {
            Some(StageKind::video_preset(video_preset.as_str()))
        } else {
            None
        };
        let audio_stage: Option<StageKind> = match audio_operation {
            Some(operation) => {
                let upstream: StageKind = match &video_stage {
                    Some(kind) => kind.duplicate(),
                    None => source.duplicate(),
                };
                Some(StageKind::audio_route(operation.as_str(), upstream))
            },
            None => None,
        };
        EncodingStagePlan { pipeline, source, video_stage, audio_stage }
    }

    fn key_for(&self, kind: &Option<StageKind>) -> (r: Option<StageKey>)
        ensures
            key_option(r) == match stage_option(*kind) {
                Some(k) => Some(StageKeyModel { pipeline: self@.pipeline, kind: k }),
                None => None,
            },
    {
        match kind {
            Some(k) => Some(StageKey { pipeline: self.pipeline.duplicate(), kind: k.duplicate() }),
            None => None,
        }
    }

    pub fn video_stage(&self) -> (r: Option<StageKey>)
        ensures
            key_option(r) == match self@.video {
                Some(kind) => Some(StageKeyModel { pipeline: self@.pipeline, kind }),
                None => None,
            },
    {
        self.key_for(&self.video_stage)
    }

    pub fn audio_stage(&self) -> (r: Option<StageKey>)
        ensures
            key_option(r) == match self@.audio {
                Some(kind) => Some(StageKeyModel { pipeline: self@.pipeline, kind }),
                None => None,
            },
    {
        self.key_for(&self.audio_stage)
    }

    pub fn terminal_kind(&self) -> (r: &StageKind)
        ensures
            r@ == self@.terminal(),
    {
        proof {
            use_type_invariant(self);
        }
        match &self.audio_stage {
            Some(audio) => audio,
            None => match &self.video_stage {
                Some(video) => video,
                None => &self.source,
            },
        }
    }

    pub fn codec_edge_stage(&self, operation: &str) -> (r: StageKey)
        ensures
            r@ == (StageKeyModel {
                pipeline: self@.pipeline,
                kind: StageModel::CodecEdge {
                    operation: operation@,
                    upstream: Box::new(self@.terminal()),
                },
            }),
    {
        let terminal: StageKind = self.terminal_kind().duplicate();
        StageKey {
            pipeline: self.pipeline.duplicate(),
            kind: StageKind::codec_edge(operation, terminal),
        }
    }
}

// ── Laws ─────────────────────────────────────────────────────────────────────

/// The audio stage of a plan takes its input from the plan's video stage where there is one, and
/// from the source where there is none.
pub proof fn audio_stage_follows_video(pipeline: Seq<char>, encoding: Seq<char>)
    ensures
        plan_of(pipeline, encoding).audio matches Some(audio) ==> audio is AudioRoute
            && audio.feeder() == Some(
            match plan_of(pipeline, encoding).video {
                Some(video) => video,
                None => StageModel::Source,
            },
        ),
{
}

/// An encoding without an audio stage passes its audio through.
pub proof fn no_audio_stage_means_passthrough(encoding: Seq<char>)
    ensures
        planned_audio(encoding) is None ==> routing(encoding) == AudioRoutingModel::Passthrough,
{
    if planned_audio(encoding) is None {
        lemma_first_of(encoding, '+');
        if let Some(rest) = after(encoding, '+') {
            reveal_strlit("remap:");
            reveal_strlit("atrack:");
            reveal_strlit("downmix:");
            assert(rest.len() == 0);
        } else {
            assert(before(encoding, '+') =~= encoding);
        }
    }
}

/// The audio stage does what the encoding's routing says, wherever the part before the first `+`
/// is not an audio operation that something else follows.
pub proof fn audio_stage_does_the_routing(encoding: Seq<char>)
    requires
        is_audio_operation(before(encoding, '+')) ==> after(encoding, '+') is None,
    ensures
        planned_operation(encoding) matches Some(operation) ==> operation_routing(operation)
            == routing(encoding),
{
    lemma_first_of(encoding, '+');
    if after(encoding, '+') is None {
        assert(before(encoding, '+') =~= encoding);
    }
}

/// A preset and an operation with a `+` between them plan a video stage of the preset, and an audio
/// stage of the operation that it feeds; a preset alone plans the video stage alone.
pub proof fn preset_and_operation_plan_their_stages(
    pipeline: Seq<char>,
    preset: Seq<char>,
    operation: Seq<char>,
)
    requires
        !preset.contains('+'),
        !is_audio_operation(preset),
        preset.len() > 0,
        preset != "source"@,
        preset != "custom"@,
        operation.len() > 0,
    ensures
        ({
            let video = StageModel::VideoPreset { preset };
            let audio = StageModel::AudioRoute { operation, upstream: Box::new(video) };
            let both = plan_of(pipeline, preset + "+"@ + operation);
            let one = plan_of(pipeline, preset);
            &&& both.pipeline == pipeline && one.pipeline == pipeline
            &&& both.video == Some(video) && both.audio == Some(audio)
            &&& both.terminal() == audio
            &&& one.video == Some(video) && one.audio is None
            &&& one.terminal() == video
        }),
{
    reveal_strlit("+");
    assert("+"@ =~= seq!['+']);
    cut_comes_at_the_first(preset, '+', operation);
}

/// `source`, `custom` and the empty preset plan no video stage: an operation behind them reads from
/// the source, and without one nothing is planned.
pub proof fn source_needs_no_video_stage(
    pipeline: Seq<char>,
    preset: Seq<char>,
    operation: Seq<char>,
)
    requires
        preset == "source"@ || preset == "custom"@ || preset.len() == 0,
        operation.len() > 0,
    ensures
        ({
            let audio = StageModel::AudioRoute {
                operation,
                upstream: Box::new(StageModel::Source),
            };
            let with_audio = plan_of(pipeline, preset + "+"@ + operation);
            let alone = plan_of(pipeline, preset);
            &&& with_audio.video is None && with_audio.audio == Some(audio)
            &&& with_audio.terminal() == audio
            &&& alone.video is None && alone.audio is None
            &&& alone.terminal() == StageModel::Source
        }),
{
    reveal_strlit("+");
    reveal_strlit("source");
    reveal_strlit("custom");
    reveal_strlit("remap:");
    reveal_strlit("atrack:");
    reveal_strlit("downmix:");
    assert("+"@ =~= seq!['+']);
    if starts(preset, "remap:"@) {
        assert(preset.take(6)[0] == "remap:"@[0]);
    }
    cut_comes_at_the_first(preset, '+', operation);
}

/// An operation that stands alone plans an audio stage that reads from the source.
pub proof fn operation_alone_plans_an_audio_stage(pipeline: Seq<char>, operation: Seq<char>)
    requires
        is_audio_operation(operation),
        !operation.contains('+'),
    ensures
        plan_of(pipeline, operation).video is None,
        plan_of(pipeline, operation).audio == Some(
            StageModel::AudioRoute { operation, upstream: Box::new(StageModel::Source) },
        ),
{
    cut_comes_at_the_first(operation, '+', Seq::empty());
}

/// The name of a stage tells what it does, and then what feeds it.
pub proof fn names_tell_what_stages_do(
    preset: Seq<char>,
    operation: Seq<char>,
    upstream: StageModel,
)
    ensures
        StageModel::Source.name() == "source"@,
        StageModel::Hls.name() == "hls"@,
        StageModel::Recording.name() == "recording"@,
        (StageModel::VideoPreset { preset }).name() == "video:"@ + preset,
        (StageModel::AudioRoute { operation, upstream: Box::new(upstream) }).name() == "audio:"@
            + operation + ":from:"@ + upstream.name(),
        (StageModel::CodecEdge { operation, upstream: Box::new(upstream) }).name() == operation
            + ":from:"@ + upstream.name(),
{
}

/// A stage is shown by what it does.
pub proof fn labels_and_types_tell_stages_apart(
    preset: Seq<char>,
    operation: Seq<char>,
    upstream: StageModel,
)
    ensures
        StageModel::Source.label() == "Source"@ && StageModel::Source.node_type() == "source"@,
        StageModel::Hls.label() == "HLS Preview"@ && StageModel::Hls.node_type() == "hls"@,
        StageModel::Recording.label() == "MKV Recording"@ && StageModel::Recording.node_type()
            == "recording"@,
        ({
            let video = StageModel::VideoPreset { preset };
            let audio = StageModel::AudioRoute { operation, upstream: Box::new(upstream) };
            let edge = StageModel::CodecEdge { operation, upstream: Box::new(upstream) };
            &&& video.label() == "Video: "@ + preset && video.node_type() == "transcoder"@
            &&& audio.label() == "Audio: "@ + operation && audio.node_type() == "audio_filter"@
            &&& edge.node_type() == "codec_edge"@
            &&& operation == "hevc_to_h264"@ ==> edge.label() == "HEVC -> H.264"@
            &&& operation != "hevc_to_h264"@ ==> edge.label() == "Codec edge: "@ + operation
        }),
{
}

/// The id of a node begins with its pipeline and ends as that of a stage; between them stands the
/// name of the stage, whose separators became underscores and whose other characters stayed.
pub proof fn node_id_holds_pipeline_and_name(pipeline: Seq<char>, kind: StageModel, i: int)
    requires
        0 <= i < kind.name().len(),
    ensures
        node_id(pipeline, kind).len() == pipeline.len() + kind.name().len() + 7,
        node_id(pipeline, kind).take(pipeline.len() as int) == pipeline,
        node_id(pipeline, kind)[pipeline.len() as int] == '_',
        node_id(pipeline, kind)[pipeline.len() + 1 + i] == (if kind.name()[i] == ':'
            || kind.name()[i] == '+' || kind.name()[i] == ',' {
            '_'
        } else {
            kind.name()[i]
        }),
        node_id(pipeline, kind).skip((pipeline.len() + 1 + kind.name().len()) as int) == "_stage"@,
{
    reveal_strlit("_");
    reveal_strlit("_stage");
    let id = node_id(pipeline, kind);
    assert(id.take(pipeline.len() as int) =~= pipeline);
    assert(id.skip((pipeline.len() + 1 + kind.name().len()) as int) =~= "_stage"@);
}

/// The name of an audio stage or a codec edge ends with the name of the stage that feeds it.
pub proof fn name_ends_with_feeder(kind: StageModel)
    ensures
        kind.feeder() matches Some(feeder) ==> crate::text::ends(
            kind.name(),
            ":from:"@ + feeder.name(),
        ),
{
    if let Some(feeder) = kind.feeder() {
        let tail = ":from:"@ + feeder.name();
        assert(kind.name().skip(kind.name().len() - tail.len()) =~= tail);
    }
}

/// The slug of a node id holds none of the separators of a stage name.
pub proof fn slug_has_no_separators(s: Seq<char>)
    ensures
        slug(s).len() == s.len(),
        !slug(s).contains(':'),
        !slug(s).contains('+'),
        !slug(s).contains(','),
{
    assert forall|i: int| 0 <= i < s.len() implies slug(s)[i] != ':' && slug(s)[i] != '+'
        && slug(s)[i] != ',' by {
        assert(slug(s)[i] == slug_char(s[i]));
    }
}

} // verus!
