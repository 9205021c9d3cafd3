//! The reconciler: what each tick does about outputs, recordings, HLS previews and sessions.
//!
//! A tick looks at every output and compares what is wanted with what runs. The functions here
//! decide; whoever runs the loop observes the engine, calls them, and performs the effects.

use vstd::prelude::*;
use vstd::string::*;

use crate::domain::stage::{plan_of, EncodingStagePlan, StageKey, StageKeyModel, StageModel};
use crate::runtime::{OutputRetryPolicy, RuntimeTuning};
use crate::text::{same_text, starts, starts_with};

verus! {

// ── Failures ─────────────────────────────────────────────────────────────────

/// The last failure of an output: when it was, and how many retries it makes.
#[derive(Debug, Clone, Copy, PartialEq, Eq, Structural)]
pub struct Failure {
    /// Milliseconds on a clock that never goes back.
    pub failed_at_ms: u64,
    pub retries: u32,
}

struct FailureEntry {
    output_id: String,
    failure: Failure,
}

/// The last failures, by output. No output stands in it twice.
pub struct FailureTable {
    entries: Vec<FailureEntry>,
}

impl FailureTable {
    spec fn distinct(entries: Seq<FailureEntry>) -> bool {
        forall|i: int, j: int|
            0 <= i < j < entries.len() ==> (#[trigger] entries[i]).output_id@ != (
            #[trigger] entries[j]).output_id@
    }

    /// No output stands in the table twice.
    pub closed spec fn wf(&self) -> bool {
        Self::distinct(self.entries@)
    }

    spec fn map_of(entries: Seq<FailureEntry>) -> Map<Seq<char>, Failure> {
        Map::new(
            |id: Seq<char>| exists|i: int| 0 <= i < entries.len() && (#[trigger] entries[i]).output_id@ == id,
            |id: Seq<char>| entries[Self::place(entries, id)].failure,
        )
    }

    spec fn place(entries: Seq<FailureEntry>, id: Seq<char>) -> int {
        choose|i: int| 0 <= i < entries.len() && (#[trigger] entries[i]).output_id@ == id
    }

    proof fn lemma_place(entries: Seq<FailureEntry>, i: int)
        requires
            Self::distinct(entries),
            0 <= i < entries.len(),
        ensures
            Self::place(entries, entries[i].output_id@) == i,
            Self::map_of(entries).contains_key(entries[i].output_id@),
            Self::map_of(entries)[entries[i].output_id@] == entries[i].failure,
    {
        let id = entries[i].output_id@;
        let p = Self::place(entries, id);
        assert(0 <= p < entries.len() && entries[p].output_id@ == id);
        if p < i {
            assert(entries[p].output_id@ != entries[i].output_id@);
        } else if i < p {
            assert(entries[i].output_id@ != entries[p].output_id@);
        }
    }
}

impl View for FailureTable {
    type V = Map<Seq<char>, Failure>;

    closed spec fn view(&self) -> Map<Seq<char>, Failure> {
        FailureTable::map_of(self.entries@)
    }
}

impl FailureTable {
    pub fn new() -> (r: Self)
        ensures
            r.wf(),
            r@ == Map::<Seq<char>, Failure>::empty(),
    {
        let r: FailureTable = FailureTable { entries: Vec::new() };
        assert(r@ =~= Map::<Seq<char>, Failure>::empty());
        r
    }

    fn find(&self, output_id: &str) -> (r: Option<usize>)
        ensures
            match r {
                Some(i) => i < self.entries@.len() && self.entries@[i as int].output_id@
                    == output_id@,
                None => forall|k: int|
                    0 <= k < self.entries@.len() ==> (#[trigger] self.entries@[k]).output_id@
                        != output_id@,
            },
    {
        let mut i: usize = 0;
        while i < self.entries.len()
            invariant
                i <= self.entries@.len(),
                forall|k: int|
                    0 <= k < i ==> (#[trigger] self.entries@[k]).output_id@ != output_id@,
            decreases self.entries@.len() - i,
        {
            if same_text(self.entries[i].output_id.as_str(), output_id) {
                return Some(i);
            }
            i += 1;
        }
        None
    }

    /// The last failure of an output.
    pub fn get(&self, output_id: &str) -> (r: Option<Failure>)
        requires
            self.wf(),
        ensures
            match r {
                Some(f) => self@.contains_key(output_id@) && self@[output_id@] == f,
                None => !self@.contains_key(output_id@),
            },
    {
        match self.find(output_id) {
            Some(i) => {
                proof {
                    FailureTable::lemma_place(self.entries@, i as int);
                }
                Some(self.entries[i].failure)
            },
            None => None,
        }
    }

    /// Sets the last failure of an output.
    pub fn insert(&mut self, output_id: &str, failure: Failure)
        requires
            old(self).wf(),
        ensures
            final(self).wf(),
            final(self)@ == old(self)@.insert(output_id@, failure),
    {
        let ghost before = self.entries@;
        match self.find(output_id) {
            Some(i) => {
                let entry: FailureEntry = FailureEntry { output_id: output_id.to_string(), failure };
                let ghost after = before.update(i as int, entry);
                proof {
                    assert(FailureTable::distinct(after));
                    FailureTable::lemma_updated(before, after, i as int, output_id@, failure);
                }
                self.entries.set(i, entry);
            },
            None => {
                let entry: FailureEntry = FailureEntry { output_id: output_id.to_string(), failure };
                let ghost after = before.push(entry);
                proof {
                    assert(FailureTable::distinct(after));
                    assert(after.drop_last() =~= before);
                    FailureTable::lemma_pushed(before, after, output_id@, failure);
                }
                self.entries.push(entry);
            },
        }
    }

    /// Forgets the last failure of an output.
    pub fn remove(&mut self, output_id: &str)
        requires
            old(self).wf(),
        ensures
            final(self).wf(),
            final(self)@ == old(self)@.remove(output_id@),
    {
        let ghost before = self.entries@;
        match self.find(output_id) {
            Some(i) => {
                let ghost after = before.remove(i as int);
                proof {
                    assert(FailureTable::distinct(after));
                    FailureTable::lemma_removed(before, i as int);
                }
                let _gone: FailureEntry = self.entries.remove(i);
            },
            None => {
                assert(self@ =~= self@.remove(output_id@));
            },
        }
    }

    proof fn lemma_updated(
        before: Seq<FailureEntry>,
        after: Seq<FailureEntry>,
        i: int,
        id: Seq<char>,
        failure: Failure,
    )
        requires
            Self::distinct(before),
            Self::distinct(after),
            0 <= i < before.len(),
            before[i].output_id@ == id,
            after == before.update(i, after[i]),
            after[i].output_id@ == id,
            after[i].failure == failure,
        ensures
            Self::map_of(after) == Self::map_of(before).insert(id, failure),
    {
        let (a, b) = (Self::map_of(after), Self::map_of(before).insert(id, failure));
        Self::lemma_place(after, i);
        assert forall|k: Seq<char>| a.contains_key(k) == b.contains_key(k) by {
            if a.contains_key(k) {
                let p = Self::place(after, k);
                assert(before[p].output_id@ == k);
            }
            if b.contains_key(k) && k != id {
                let p = Self::place(before, k);
                assert(after[p].output_id@ == k);
            }
        }
        assert forall|k: Seq<char>| a.contains_key(k) implies a[k] == b[k] by {
            let p = Self::place(after, k);
            Self::lemma_place(after, p);
            if k != id {
                assert(before[p].output_id@ == k);
                Self::lemma_place(before, p);
            }
        }
        assert(a =~= b);
    }

    proof fn lemma_pushed(
        before: Seq<FailureEntry>,
        after: Seq<FailureEntry>,
        id: Seq<char>,
        failure: Failure,
    )
        requires
            Self::distinct(before),
            Self::distinct(after),
            after.len() == before.len() + 1,
            after.drop_last() == before,
            after.last().output_id@ == id,
            after.last().failure == failure,
        ensures
            Self::map_of(after) == Self::map_of(before).insert(id, failure),
    {
        let (a, b) = (Self::map_of(after), Self::map_of(before).insert(id, failure));
        Self::lemma_place(after, after.len() - 1);
        assert forall|i: int| 0 <= i < before.len() implies #[trigger] before[i] == after[i] by {
            assert(after.drop_last()[i] == after[i]);
        }
        assert forall|k: Seq<char>| a.contains_key(k) == b.contains_key(k) by {
            if a.contains_key(k) && k != id {
                let p = Self::place(after, k);
                assert(before[p].output_id@ == k);
            }
            if b.contains_key(k) && k != id {
                let p = Self::place(before, k);
                assert(before[p].output_id@ == k);
                assert(after[p].output_id@ == k);
            }
        }
        assert forall|k: Seq<char>| a.contains_key(k) implies a[k] == b[k] by {
            let p = Self::place(after, k);
            Self::lemma_place(after, p);
            if k != id {
                assert(before[p].output_id@ == k);
                Self::lemma_place(before, p);
            }
        }
        assert(a =~= b);
    }

    proof fn lemma_removed(before: Seq<FailureEntry>, i: int)
        requires
            Self::distinct(before),
            0 <= i < before.len(),
            Self::distinct(before.remove(i)),
        ensures
            Self::map_of(before.remove(i)) == Self::map_of(before).remove(before[i].output_id@),
    {
        let after = before.remove(i);
        let id = before[i].output_id@;
        let (a, b) = (Self::map_of(after), Self::map_of(before).remove(id));
        assert forall|k: Seq<char>| a.contains_key(k) == b.contains_key(k) by {
            if a.contains_key(k) {
                let p = Self::place(after, k);
                let q = if p < i {
                    p
                } else {
                    p + 1
                };
                assert(after[p] == before[q]);
                assert(before[q].output_id@ == k);
                if k == id {
                    Self::lemma_place(before, q);
                    Self::lemma_place(before, i);
                }
            }
            if b.contains_key(k) {
                let q = Self::place(before, k);
                assert(before[q].output_id@ == k);
                let p = if q < i {
                    q
                } else {
                    q - 1
                };
                assert(after[p] == before[q]);
                assert(after[p].output_id@ == k);
            }
        }
        assert forall|k: Seq<char>| a.contains_key(k) implies a[k] == b[k] by {
            let p = Self::place(after, k);
            let q = if p < i {
                p
            } else {
                p + 1
            };
            assert(after[p] == before[q]);
            Self::lemma_place(after, p);
            Self::lemma_place(before, q);
        }
        assert(a =~= b);
    }
}

// ── Outputs ──────────────────────────────────────────────────────────────────

/// What a tick sees of an output.
#[derive(Debug, Clone, Copy, PartialEq, Eq, Structural)]
pub struct OutputObservation {
    /// An egress of the output is running.
    pub is_active: bool,
    /// The pipeline of the output has a publisher.
    pub has_ingest: bool,
    /// The publisher of the pipeline went away a short while ago.
    pub within_disconnect_grace: bool,
}

impl OutputObservation {
    /// The pipeline has a publisher, or had one so lately that it counts as still there.
    pub open spec fn ingest(self) -> bool {
        self.has_ingest || self.within_disconnect_grace
    }
}

/// The last failure of an output, as a tick sees it.
#[derive(Debug, Clone, Copy, PartialEq, Eq, Structural)]
pub struct OutputFailureWindow {
    pub retries: u32,
    pub elapsed_ms: u64,
}

#[derive(Debug, Clone, Copy, PartialEq, Eq, Structural)]
pub enum OutputStartAction {
    /// The output is running, or is not wanted.
    NotApplicable,
    /// There is nothing to send.
    SkipNoIngest,
    /// The output has failed too often.
    MarkFailed,
    /// The output has failed, and it is too early to try again.
    WaitRetry { retries: u32, backoff_ms: u64, remaining_ms: u64 },
    StartNow,
}

#[derive(Debug, Clone, Copy, PartialEq, Eq, Structural)]
pub enum OutputStopAction {
    KeepRunning,
    StopBecauseIngestLost,
    StopRequested,
}

/// One thing that a tick does about an output.
#[derive(Debug, Clone, Copy, PartialEq, Eq, Structural)]
pub enum OutputEffect {
    /// The output shows no retry.
    ClearRetryState,
    /// The output shows when it is tried again.
    ShowRetry { retries: u32, backoff_ms: u64, remaining_ms: u64 },
    /// The output is wanted no more: its desired state becomes `failed`.
    SetDesiredFailed,
    /// An attempt to send is started.
    StartAttempt,
    /// The egress is stopped.
    StopEgress { ingest_lost: bool },
}

/// Whether an output is wanted.
pub open spec fn wanted(desired_state: Seq<char>) -> bool {
    desired_state == "running"@
}

/// The window since a failure.
pub open spec fn window(failure: Option<Failure>, now_ms: u64) -> Option<OutputFailureWindow> {
    match failure {
        Some(f) => Some(
            OutputFailureWindow {
                retries: f.retries,
                elapsed_ms: if now_ms >= f.failed_at_ms {
                    (now_ms - f.failed_at_ms) as u64
                } else {
                    0
                },
            },
        ),
        None => None,
    }
}

/// Whether an output is started: it is wanted, does not run, has something to send, has not failed
/// too often, and has waited long enough since it last failed.
pub open spec fn start_action(
    desired_state: Seq<char>,
    is_active: bool,
    has_ingest: bool,
    failure: Option<OutputFailureWindow>,
    policy: OutputRetryPolicy,
) -> OutputStartAction {
    if !wanted(desired_state) || is_active {
        OutputStartAction::NotApplicable
    } else if !has_ingest {
        OutputStartAction::SkipNoIngest
    } else {
        match failure {
            None => OutputStartAction::StartNow,
            Some(f) => if f.retries >= policy.max_retries {
                OutputStartAction::MarkFailed
            } else if f.elapsed_ms < policy.backoff(f.retries as nat) {
                OutputStartAction::WaitRetry {
                    retries: f.retries,
                    backoff_ms: policy.backoff(f.retries as nat) as u64,
                    remaining_ms: (policy.backoff(f.retries as nat) - f.elapsed_ms) as u64,
                }
            } else {
                OutputStartAction::StartNow
            },
        }
    }
}

/// Whether a running output is stopped: it is not wanted, or has nothing to send.
pub open spec fn stop_action(
    desired_state: Seq<char>,
    is_active: bool,
    has_ingest: bool,
) -> OutputStopAction {
    if !is_active {
        OutputStopAction::KeepRunning
    } else if !wanted(desired_state) {
        OutputStopAction::StopRequested
    } else if !has_ingest {
        OutputStopAction::StopBecauseIngestLost
    } else {
        OutputStopAction::KeepRunning
    }
}

/// Whether an output is started now.
pub fn decide_output_start_action(
    desired_state: &str,
    is_active: bool,
    has_ingest: bool,
    failure: Option<OutputFailureWindow>,
    policy: OutputRetryPolicy,
) -> (r: OutputStartAction)
    ensures
        r == start_action(desired_state@, is_active, has_ingest, failure, policy),
{
    if !same_text(desired_state, "running") || is_active {
        return OutputStartAction::NotApplicable;
    }
    if !has_ingest {
        return OutputStartAction::SkipNoIngest;
    }
    match failure {
        None => OutputStartAction::StartNow,
        Some(f) => {
            if f.retries >= policy.max_retries {
                return OutputStartAction::MarkFailed;
            }
            let backoff_ms: u64 = policy.backoff_ms(f.retries);
            if f.elapsed_ms < backoff_ms {
                OutputStartAction::WaitRetry {
                    retries: f.retries,
                    backoff_ms,
                    remaining_ms: backoff_ms - f.elapsed_ms,
                }
            } else {
                OutputStartAction::StartNow
            }
        },
    }
}

/// Whether a running output is stopped now.
pub fn decide_output_stop_action(desired_state: &str, is_active: bool, has_ingest: bool) -> (r:
    OutputStopAction)
    ensures
        r == stop_action(desired_state@, is_active, has_ingest),
{
    if !is_active {
        OutputStopAction::KeepRunning
    } else if !same_text(desired_state, "running") {
        OutputStopAction::StopRequested
    } else if !has_ingest {
        OutputStopAction::StopBecauseIngestLost
    } else {
        OutputStopAction::KeepRunning
    }
}

/// What stopping does.
pub open spec fn stop_effects(action: OutputStopAction) -> Seq<OutputEffect> {
    match action {
        OutputStopAction::KeepRunning => seq![],
        OutputStopAction::StopBecauseIngestLost => seq![
            OutputEffect::StopEgress { ingest_lost: true },
            OutputEffect::ClearRetryState,
        ],
        OutputStopAction::StopRequested => seq![
            OutputEffect::StopEgress { ingest_lost: false },
            OutputEffect::ClearRetryState,
        ],
    }
}

/// Everything that a tick does about an output, in order.
pub open spec fn output_effects(
    desired_state: Seq<char>,
    seen: OutputObservation,
    failure: Option<OutputFailureWindow>,
    policy: OutputRetryPolicy,
) -> Seq<OutputEffect> {
    let first: Seq<OutputEffect> = if seen.is_active || !wanted(desired_state) {
        seq![OutputEffect::ClearRetryState]
    } else {
        seq![]
    };
    let stop = stop_effects(stop_action(desired_state, seen.is_active, seen.ingest()));
    match start_action(desired_state, seen.is_active, seen.ingest(), failure, policy) {
        OutputStartAction::NotApplicable => first + stop,
        OutputStartAction::SkipNoIngest => first.push(OutputEffect::ClearRetryState),
        OutputStartAction::MarkFailed => first.push(OutputEffect::ClearRetryState).push(
            OutputEffect::SetDesiredFailed,
        ),
        OutputStartAction::WaitRetry { retries, backoff_ms, remaining_ms } => first.push(
            OutputEffect::ShowRetry { retries, backoff_ms, remaining_ms },
        ),
        OutputStartAction::StartNow => first.push(OutputEffect::StartAttempt) + stop,
    }
}

/// The failure of an output in a table.
pub open spec fn failure_of(table: Map<Seq<char>, Failure>, output_id: Seq<char>) -> Option<
    Failure,
> {
    if table.contains_key(output_id) {
        Some(table[output_id])
    } else {
        None
    }
}

fn window_of(failure: Option<Failure>, now_ms: u64) -> (r: Option<OutputFailureWindow>)
    ensures
        r == window(failure, now_ms),
{
    match failure {
        Some(f) => {
            let elapsed_ms: u64 = if now_ms >= f.failed_at_ms {
                now_ms - f.failed_at_ms
            } else {
                0
            };
            Some(OutputFailureWindow { retries: f.retries, elapsed_ms })
        },
        None => None,
    }
}

/// The failures after a tick has looked at an output.
pub open spec fn ticked_failures(
    table: Map<Seq<char>, Failure>,
    output_id: Seq<char>,
    desired_state: Seq<char>,
    seen: OutputObservation,
    now_ms: u64,
    policy: OutputRetryPolicy,
) -> Map<Seq<char>, Failure> {
    let failure = window(failure_of(table, output_id), now_ms);
    if start_action(desired_state, seen.is_active, seen.ingest(), failure, policy)
        == OutputStartAction::MarkFailed {
        table.remove(output_id)
    } else {
        table
    }
}

/// What a tick at `now_ms` does about an output. An output that has failed too often is forgotten.
pub fn reconcile_output(
    failures: &mut FailureTable,
    output_id: &str,
    desired_state: &str,
    seen: OutputObservation,
    now_ms: u64,
    policy: OutputRetryPolicy,
) -> (r: Vec<OutputEffect>)
    requires
        old(failures).wf(),
    ensures
        final(failures).wf(),
        final(failures)@ == ticked_failures(
            old(failures)@,
            output_id@,
            desired_state@,
            seen,
            now_ms,
            policy,
        ),
        r@ == output_effects(
            desired_state@,
            seen,
            window(failure_of(old(failures)@, output_id@), now_ms),
            policy,
        ),
        final(failures)@ == (if start_action(
            desired_state@,
            seen.is_active,
            seen.ingest(),
            window(failure_of(old(failures)@, output_id@), now_ms),
            policy,
        ) == OutputStartAction::MarkFailed {
            old(failures)@.remove(output_id@)
        } else {
            old(failures)@
        }),
{
    let mut effects: Vec<OutputEffect> = Vec::new();
    if seen.is_active || !same_text(desired_state, "running") {
        effects.push(OutputEffect::ClearRetryState);
    }
    let ghost first = effects@;
    let ingest: bool = seen.has_ingest || seen.within_disconnect_grace;
    let failure: Option<OutputFailureWindow> = window_of(failures.get(output_id), now_ms);
    match decide_output_start_action(desired_state, seen.is_active, ingest, failure, policy) {
        OutputStartAction::NotApplicable => {},
        OutputStartAction::SkipNoIngest => {
            effects.push(OutputEffect::ClearRetryState);
            return effects;
        },
        OutputStartAction::MarkFailed => {
            failures.remove(output_id);
            effects.push(OutputEffect::ClearRetryState);
            effects.push(OutputEffect::SetDesiredFailed);
            return effects;
        },
        OutputStartAction::WaitRetry { retries, backoff_ms, remaining_ms } => {
            effects.push(OutputEffect::ShowRetry { retries, backoff_ms, remaining_ms });
            return effects;
        },
        OutputStartAction::StartNow => {
            effects.push(OutputEffect::StartAttempt);
        },
    }
    match decide_output_stop_action(desired_state, seen.is_active, ingest) {
        OutputStopAction::KeepRunning => {},
        OutputStopAction::StopBecauseIngestLost => {
            effects.push(OutputEffect::StopEgress { ingest_lost: true });
            effects.push(OutputEffect::ClearRetryState);
        },
        OutputStopAction::StopRequested => {
            effects.push(OutputEffect::StopEgress { ingest_lost: false });
            effects.push(OutputEffect::ClearRetryState);
        },
    }
    assert(effects@ =~= output_effects(desired_state@, seen, failure, policy));
    effects
}

// ── Attempts ─────────────────────────────────────────────────────────────────

/// How an attempt sends, by the scheme of its URL.
#[derive(Debug, Clone, Copy, PartialEq, Eq, Structural)]
pub enum EgressRoute {
    /// `rtmp://` and `rtmps://`
    Rtmp,
    /// `srt://`
    Srt,
    /// `hls://`: segments are kept for viewers.
    HlsPreview,
    /// `http://` and `https://`: segments are uploaded.
    HlsPut,
}

/// How an attempt sends; `None` where no egress knows the scheme.
pub open spec fn route_of(url: Seq<char>) -> Option<EgressRoute> {
    if starts(url, "rtmp://"@) || starts(url, "rtmps://"@) {
        Some(EgressRoute::Rtmp)
    } else if starts(url, "srt://"@) {
        Some(EgressRoute::Srt)
    } else if starts(url, "hls://"@) {
        Some(EgressRoute::HlsPreview)
    } else if starts(url, "http://"@) || starts(url, "https://"@) {
        Some(EgressRoute::HlsPut)
    } else {
        None
    }
}

/// How an attempt sends.
pub fn egress_route(url: &str) -> (r: Option<EgressRoute>)
    ensures
        r == route_of(url@),
{
    if starts_with(url, "rtmp://") || starts_with(url, "rtmps://") {
        Some(EgressRoute::Rtmp)
    } else if starts_with(url, "srt://") {
        Some(EgressRoute::Srt)
    } else if starts_with(url, "hls://") {
        Some(EgressRoute::HlsPreview)
    } else if starts_with(url, "http://") || starts_with(url, "https://") {
        Some(EgressRoute::HlsPut)
    } else {
        None
    }
}

/// The shared stages between the source and an egress.
pub struct AttemptStages {
    /// Transcodes the video; keeps the codec of the ingest.
    pub video: Option<StageKey>,
    /// Routes the audio; reads from the video stage.
    pub audio: Option<StageKey>,
    /// Converts H.265 to H.264 at the edge; reads from the last of the others.
    pub codec_edge: Option<StageKey>,
}

/// Whether an egress needs its video converted: RTMP does not carry H.265.
pub open spec fn needs_h264(url: Seq<char>, ingest_is_h265: bool) -> bool {
    route_of(url) == Some(EgressRoute::Rtmp) && ingest_is_h265
}

/// The stage that converts the video of an attempt, where it needs one.
pub open spec fn edge_of_attempt(
    pipeline_id: Seq<char>,
    encoding: Seq<char>,
    url: Seq<char>,
    ingest_is_h265: bool,
) -> Option<StageKeyModel> {
    if needs_h264(url, ingest_is_h265) {
        Some(
            StageKeyModel {
                pipeline: pipeline_id,
                kind: StageModel::CodecEdge {
                    operation: "hevc_to_h264"@,
                    upstream: Box::new(plan_of(pipeline_id, encoding).terminal()),
                },
            },
        )
    } else {
        None
    }
}

/// The shared stages that an attempt reads through.
pub fn attempt_stages(
    pipeline_id: &str,
    encoding: &str,
    url: &str,
    ingest_is_h265: bool,
) -> (r: AttemptStages)
    ensures
        crate::domain::stage::key_option(r.codec_edge) == edge_of_attempt(
            pipeline_id@,
            encoding@,
            url@,
            ingest_is_h265,
        ),
        crate::domain::stage::key_option(r.video) == (match plan_of(
            pipeline_id@,
            encoding@,
        ).video {
            Some(kind) => Some(StageKeyModel { pipeline: pipeline_id@, kind }),
            None => None,
        }),
        crate::domain::stage::key_option(r.audio) == (match plan_of(
            pipeline_id@,
            encoding@,
        ).audio {
            Some(kind) => Some(StageKeyModel { pipeline: pipeline_id@, kind }),
            None => None,
        }),
        crate::domain::stage::key_option(r.codec_edge) == (if needs_h264(url@, ingest_is_h265) {
            Some(
                StageKeyModel {
                    pipeline: pipeline_id@,
                    kind: StageModel::CodecEdge {
                        operation: "hevc_to_h264"@,
                        upstream: Box::new(plan_of(pipeline_id@, encoding@).terminal()),
                    },
                },
            )
        } else {
            None
        }),
{
    let plan: EncodingStagePlan = EncodingStagePlan::from_encoding(pipeline_id, encoding);
    let converts: bool = ingest_is_h265 && match egress_route(url) {
        Some(EgressRoute::Rtmp) => true,
        _ => false,
    };
    let codec_edge: Option<StageKey> = if converts {
        Some(plan.codec_edge_stage("hevc_to_h264"))
    } else {
        None
    };
    AttemptStages { video: plan.video_stage(), audio: plan.audio_stage(), codec_edge }
}

/// What an HLS attempt does about the segmenter of its pipeline.
#[derive(Debug, Clone, Copy, PartialEq, Eq, Structural)]
pub enum SegmenterAction {
    /// One is running: use it.
    Join,
    /// None was running: start it, then use it.
    StartAndJoin,
    /// It cannot be started: give up, without having registered as a consumer.
    GiveUp,
}

/// What an HLS attempt does about a segmenter that runs or not, and can be started or not.
pub open spec fn segmenter_choice(running: bool, startable: bool) -> SegmenterAction {
    if running {
        SegmenterAction::Join
    } else if startable {
        SegmenterAction::StartAndJoin
    } else {
        SegmenterAction::GiveUp
    }
}

/// What an HLS attempt does about the segmenter of its pipeline.
pub fn segmenter_action(already_running: bool, cancel_token_present: bool) -> (r: SegmenterAction)
    ensures
        r == segmenter_choice(already_running, cancel_token_present),
        r == (if already_running {
            SegmenterAction::Join
        } else if cancel_token_present {
            SegmenterAction::StartAndJoin
        } else {
            SegmenterAction::GiveUp
        }),
{
    if already_running {
        SegmenterAction::Join
    } else if cancel_token_present {
        SegmenterAction::StartAndJoin
    } else {
        SegmenterAction::GiveUp
    }
}

/// How an attempt ended.
#[derive(Debug, Clone, Copy, PartialEq, Eq, Structural)]
pub struct AttemptEnd {
    /// It was told to stop.
    pub cancelled: bool,
    /// It had sent something.
    pub had_progress: bool,
    /// No later attempt of the output had taken its place.
    pub was_current: bool,
}

/// How an attempt to send to an address ended.
pub open spec fn end_of_attempt(
    url: Seq<char>,
    cancelled: bool,
    had_progress: bool,
    was_current: bool,
) -> AttemptEnd {
    if route_of(url) is Some {
        AttemptEnd { cancelled, had_progress, was_current }
    } else {
        AttemptEnd { cancelled: false, had_progress: false, was_current }
    }
}

/// How an attempt to send to an address ended. One whose address no egress knows was refused before
/// it began: it counts as failed without having sent anything, whatever its token says.
pub fn attempt_end(url: &str, cancelled: bool, had_progress: bool, was_current: bool) -> (r:
    AttemptEnd)
    ensures
        r == end_of_attempt(url@, cancelled, had_progress, was_current),
        r.cancelled == (cancelled && route_of(url@) is Some),
        r.had_progress == (had_progress && route_of(url@) is Some),
        r.was_current == was_current,
{
    let known: bool = egress_route(url).is_some();
    AttemptEnd { cancelled: cancelled && known, had_progress: had_progress && known, was_current }
}

/// What the output shows after an attempt: the retry that comes, or nothing.
#[derive(Debug, Clone, Copy, PartialEq, Eq, Structural)]
pub struct RetryNotice {
    pub retries: u32,
    pub backoff_ms: u64,
}

/// What is to be done about an attempt that ended.
#[derive(Debug, Clone, Copy)]
pub struct AttemptSettlement {
    /// The status of its job.
    pub job_status: &'static str,
    /// The retry that the output shows.
    pub retry: Option<RetryNotice>,
}

/// How many retries an output has come to: one more than before, or one where the attempt sent
/// something.
pub open spec fn next_retries(previous: Option<Failure>, had_progress: bool) -> u32 {
    match previous {
        Some(f) => if had_progress {
            1
        } else if f.retries == u32::MAX {
            f.retries
        } else {
            (f.retries + 1) as u32
        },
        None => 1,
    }
}

/// How many retries an output has come to.
pub fn next_output_retry_count(previous: Option<Failure>, had_progress: bool) -> (r: u32)
    ensures
        r == next_retries(previous, had_progress),
{
    match previous {
        Some(f) => if had_progress {
            1
        } else if f.retries == u32::MAX {
            f.retries
        } else {
            f.retries + 1
        },
        None => 1,
    }
}

/// The table of failures after an attempt: a cancelled output is forgotten, a failed one counts
/// one more, and an attempt that another one replaced changes nothing.
pub open spec fn settled_failures(
    table: Map<Seq<char>, Failure>,
    output_id: Seq<char>,
    end: AttemptEnd,
    now_ms: u64,
) -> Map<Seq<char>, Failure> {
    if !end.was_current {
        table
    } else if end.cancelled {
        table.remove(output_id)
    } else {
        table.insert(
            output_id,
            Failure {
                failed_at_ms: now_ms,
                retries: next_retries(failure_of(table, output_id), end.had_progress),
            },
        )
    }
}

/// The retry that an output shows after an attempt.
pub open spec fn shown_retry(
    table: Map<Seq<char>, Failure>,
    output_id: Seq<char>,
    end: AttemptEnd,
    policy: OutputRetryPolicy,
) -> Option<RetryNotice> {
    let retries = next_retries(failure_of(table, output_id), end.had_progress);
    if end.was_current && !end.cancelled && retries < policy.max_retries {
        Some(RetryNotice { retries, backoff_ms: policy.backoff(retries as nat) as u64 })
    } else {
        None
    }
}

/// The status of the job of an attempt that ended.
pub open spec fn job_status_of(end: AttemptEnd) -> Seq<char> {
    if end.cancelled {
        "stopped"@
    } else {
        "failed"@
    }
}

/// Settles an attempt that ended.
pub fn settle_attempt(
    failures: &mut FailureTable,
    output_id: &str,
    end: AttemptEnd,
    now_ms: u64,
    tuning: &RuntimeTuning,
) -> (r: AttemptSettlement)
    requires
        old(failures).wf(),
    ensures
        final(failures).wf(),
        final(failures)@ == settled_failures(old(failures)@, output_id@, end, now_ms),
        r.job_status@ == job_status_of(end),
        r.retry == shown_retry(old(failures)@, output_id@, end, tuning.retry_policy()),
{
    let job_status: &'static str = if end.cancelled {
        "stopped"
    } else {
        "failed"
    };
    if !end.was_current {
        return AttemptSettlement { job_status, retry: None };
    }
    if end.cancelled {
        failures.remove(output_id);
        return AttemptSettlement { job_status, retry: None };
    }
    let retries: u32 = next_output_retry_count(failures.get(output_id), end.had_progress);
    failures.insert(output_id, Failure { failed_at_ms: now_ms, retries });
    let retry: Option<RetryNotice> = if retries < tuning.output_max_retries {
        Some(RetryNotice { retries, backoff_ms: tuning.output_backoff_ms(retries) })
    } else {
        None
    };
    AttemptSettlement { job_status, retry }
}

// ── Recordings and previews ──────────────────────────────────────────────────

#[derive(Debug, Clone, Copy, PartialEq, Eq, Structural)]
pub enum RecordingAction {
    Keep,
    Start,
    Stop,
}

/// Whether a recording is started or stopped: it runs while it is enabled and there is an ingest.
pub open spec fn recording_action(enabled: bool, has_ingest: bool, active: bool) -> RecordingAction {
    if enabled && has_ingest && !active {
        RecordingAction::Start
    } else if active && !(enabled && has_ingest) {
        RecordingAction::Stop
    } else {
        RecordingAction::Keep
    }
}

/// Whether a recording is started or stopped.
pub fn decide_recording_action(enabled: bool, has_ingest: bool, active: bool) -> (r:
    RecordingAction)
    ensures
        r == recording_action(enabled, has_ingest, active),
{
    if enabled && has_ingest && !active {
        RecordingAction::Start
    } else if active && !(enabled && has_ingest) {
        RecordingAction::Stop
    } else {
        RecordingAction::Keep
    }
}

/// The key of the setting that enables the recording of a pipeline.
pub fn recording_key(pipeline_id: &str) -> (r: String)
    ensures
        r@ == "recording_enabled:"@ + pipeline_id@,
{
    let mut out: String = "recording_enabled:".to_string();
    out.append(pipeline_id);
    out
}

/// Whether the setting enables the recording: it is `1`.
pub fn recording_enabled(value: &Option<String>) -> (r: bool)
    ensures
        r == (crate::text::text_option(*value) == Some("1"@)),
{
    match value {
        Some(text) => same_text(text.as_str(), "1"),
        None => false,
    }
}

/// Whether a segmenter is shut down: it is idle or its ingest is gone, and not only just gone.
pub fn sweeps_segmenter(within_disconnect_grace: bool, idle_or_without_ingest: bool) -> (r: bool)
    ensures
        r == (!within_disconnect_grace && idle_or_without_ingest),
{
    !within_disconnect_grace && idle_or_without_ingest
}

// ── Sessions ─────────────────────────────────────────────────────────────────

/// How long a session lives: thirty days.
pub const SESSION_MAX_AGE_MS: i64 = 2_592_000_000;

/// Whether sessions are pruned at a tick.
pub fn prune_due(tick: u64, every: u64) -> (r: bool)
    requires
        every >= 1,
    ensures
        r == (tick % every == 0),
{
    tick % every == 0
}

/// Whether a token is in a list.
pub open spec fn listed(tokens: Seq<String>, token: Seq<char>) -> bool {
    exists|i: int| 0 <= i < tokens.len() && (#[trigger] tokens[i])@ == token
}

/// The sessions that stay: those that the database still has; all of them where it could not be
/// asked.
pub open spec fn kept_sessions(sessions: Seq<String>, live: Option<Seq<String>>) -> Seq<String>
    decreases sessions.len(),
{
    match live {
        None => sessions,
        Some(tokens) => if sessions.len() == 0 {
            sessions
        } else if listed(tokens, sessions.last()@) {
            kept_sessions(sessions.drop_last(), live).push(sessions.last())
        } else {
            kept_sessions(sessions.drop_last(), live)
        },
    }
}

fn is_listed(tokens: &Vec<String>, token: &str) -> (r: bool)
    ensures
        r == listed(tokens@, token@),
{
    let mut i: usize = 0;
    while i < tokens.len()
        invariant
            i <= tokens@.len(),
            forall|k: int| 0 <= k < i ==> (#[trigger] tokens@[k])@ != token@,
        decreases tokens@.len() - i,
    {
        if same_text(tokens[i].as_str(), token) {
            return true;
        }
        i += 1;
    }
    false
}

/// The list that an answer holds.
pub open spec fn list_option(v: Option<Vec<String>>) -> Option<Seq<String>> {
    match v {
        Some(list) => Some(list@),
        None => None,
    }
}

/// The sessions that stay after a prune; `live` is `None` where the database could not be asked.
pub fn retain_live_sessions(sessions: Vec<String>, live: &Option<Vec<String>>) -> (r: Vec<String>)
    ensures
        r@ == kept_sessions(sessions@, list_option(*live)),
{
    match live {
        None => sessions,
        Some(tokens) => {
            let mut kept: Vec<String> = Vec::new();
            let mut i: usize = 0;
            assert(sessions@.take(0) =~= Seq::<String>::empty());
            while i < sessions.len()
                invariant
                    i <= sessions@.len(),
                    kept@ == kept_sessions(sessions@.take(i as int), Some(tokens@)),
                decreases sessions@.len() - i,
            {
                assert(sessions@.take(i + 1).drop_last() =~= sessions@.take(i as int));
                if is_listed(tokens, sessions[i].as_str()) {
                    kept.push(sessions[i].clone());
                }
                i += 1;
            }
            assert(sessions@.take(sessions@.len() as int) =~= sessions@);
            kept
        },
    }
}

// ── Shutdown ─────────────────────────────────────────────────────────────────

#[derive(Debug, Clone, Copy, PartialEq, Eq, Structural)]
pub enum ShutdownStep {
    CancelActiveTasks,
    ShutdownSegmenters,
    /// Give the tasks a moment to clean up.
    Pause { ms: u64 },
    JoinOsThreads,
    CloseDatabase,
    AbortRtmpServer,
    AwaitSrtServer,
    TeardownSrt,
}

/// The steps of a shutdown, in order.
pub open spec fn shutdown_order() -> Seq<ShutdownStep> {
    seq![
        ShutdownStep::CancelActiveTasks,
        ShutdownStep::ShutdownSegmenters,
        ShutdownStep::Pause { ms: 500 },
        ShutdownStep::JoinOsThreads,
        ShutdownStep::CloseDatabase,
        ShutdownStep::AbortRtmpServer,
        ShutdownStep::AwaitSrtServer,
        ShutdownStep::TeardownSrt,
    ]
}

/// The steps of a shutdown, in order.
pub fn shutdown_steps() -> (r: Vec<ShutdownStep>)
    ensures
        r@ == shutdown_order(),
{
    let r: Vec<ShutdownStep> =
        vec![
        ShutdownStep::CancelActiveTasks,
        ShutdownStep::ShutdownSegmenters,
        ShutdownStep::Pause { ms: 500 },
        ShutdownStep::JoinOsThreads,
        ShutdownStep::CloseDatabase,
        ShutdownStep::AbortRtmpServer,
        ShutdownStep::AwaitSrtServer,
        ShutdownStep::TeardownSrt,
    ];
    assert(r@ =~= shutdown_order());
    r
}

// ── Laws ─────────────────────────────────────────────────────────────────────

/// Whether a tick starts an attempt.
pub open spec fn starts_attempt(effects: Seq<OutputEffect>) -> bool {
    effects.contains(OutputEffect::StartAttempt)
}

/// Whether a tick stops the egress.
pub open spec fn stops_egress(effects: Seq<OutputEffect>) -> bool {
    effects.contains(OutputEffect::StopEgress { ingest_lost: true }) || effects.contains(
        OutputEffect::StopEgress { ingest_lost: false },
    )
}

/// A tick starts an attempt exactly when the output is wanted, does not run, has an ingest, and has
/// not failed too often or too lately.
pub proof fn starts_iff_due(
    desired_state: Seq<char>,
    seen: OutputObservation,
    failure: Option<OutputFailureWindow>,
    policy: OutputRetryPolicy,
)
    ensures
        starts_attempt(output_effects(desired_state, seen, failure, policy)) <==> wanted(
            desired_state,
        ) && !seen.is_active && seen.ingest() && (failure matches Some(f) ==> f.retries
            < policy.max_retries && f.elapsed_ms >= policy.backoff(f.retries as nat)),
{
    let effects = output_effects(desired_state, seen, failure, policy);
    let action = start_action(desired_state, seen.is_active, seen.ingest(), failure, policy);
    if action == OutputStartAction::StartNow {
        assert(stop_action(desired_state, seen.is_active, seen.ingest())
            == OutputStopAction::KeepRunning);
        assert(effects[0] == OutputEffect::StartAttempt);
    }
}

/// A tick stops an egress exactly when it runs and is not wanted or has no ingest.
pub proof fn stops_iff_unwanted_or_without_ingest(
    desired_state: Seq<char>,
    seen: OutputObservation,
    failure: Option<OutputFailureWindow>,
    policy: OutputRetryPolicy,
)
    ensures
        stops_egress(output_effects(desired_state, seen, failure, policy)) <==> seen.is_active && (
        !wanted(desired_state) || !seen.ingest()),
{
    let effects = output_effects(desired_state, seen, failure, policy);
    if seen.is_active {
        let stop = stop_effects(stop_action(desired_state, seen.is_active, seen.ingest()));
        assert(effects =~= seq![OutputEffect::ClearRetryState] + stop);
        if stop.len() > 0 {
            assert(effects[1] == stop[0]);
        }
    }
}

/// A short loss of the publisher does not stop an egress that is wanted.
pub proof fn grace_keeps_egress(
    seen: OutputObservation,
    failure: Option<OutputFailureWindow>,
    policy: OutputRetryPolicy,
)
    requires
        seen.within_disconnect_grace,
    ensures
        !stops_egress(output_effects("running"@, seen, failure, policy)),
{
    stops_iff_unwanted_or_without_ingest("running"@, seen, failure, policy);
}

/// No tick both starts an attempt and stops an egress.
pub proof fn never_starts_and_stops(
    desired_state: Seq<char>,
    seen: OutputObservation,
    failure: Option<OutputFailureWindow>,
    policy: OutputRetryPolicy,
)
    ensures
        !(starts_attempt(output_effects(desired_state, seen, failure, policy)) && stops_egress(
            output_effects(desired_state, seen, failure, policy),
        )),
{
    starts_iff_due(desired_state, seen, failure, policy);
    stops_iff_unwanted_or_without_ingest(desired_state, seen, failure, policy);
}

/// The wait that an output shows, and the time since it failed, make up the backoff.
pub proof fn shown_wait_completes_the_backoff(
    desired_state: Seq<char>,
    is_active: bool,
    has_ingest: bool,
    failure: Option<OutputFailureWindow>,
    policy: OutputRetryPolicy,
)
    ensures
        start_action(desired_state, is_active, has_ingest, failure, policy) matches
            OutputStartAction::WaitRetry { retries, backoff_ms, remaining_ms } ==> failure is Some
            && failure->0.retries == retries && backoff_ms == policy.backoff(retries as nat)
            && remaining_ms + failure->0.elapsed_ms == backoff_ms && 0 < remaining_ms
            <= policy.max_ms,
{
    if let Some(f) = failure {
        crate::runtime::backoff_is_bounded_and_monotone(policy, f.retries as nat, f.retries as nat);
    }
}

/// An output whose failures have come to the maximum of retries is marked failed, however long it
/// has waited.
pub proof fn failing_output_is_given_up(
    previous: Option<Failure>,
    seen: OutputObservation,
    policy: OutputRetryPolicy,
    elapsed_ms: u64,
)
    requires
        !seen.is_active,
        seen.ingest(),
        next_retries(previous, false) >= policy.max_retries,
    ensures
        start_action(
            "running"@,
            seen.is_active,
            seen.ingest(),
            Some(OutputFailureWindow { retries: next_retries(previous, false), elapsed_ms }),
            policy,
        ) == OutputStartAction::MarkFailed,
{
}

/// A cancelled attempt leaves no failure behind, so that the output may start at once.
pub proof fn cancelled_attempt_is_forgotten(
    table: Map<Seq<char>, Failure>,
    output_id: Seq<char>,
    had_progress: bool,
    now_ms: u64,
    policy: OutputRetryPolicy,
)
    ensures
        ({
            let end = AttemptEnd { cancelled: true, had_progress, was_current: true };
            let after = settled_failures(table, output_id, end, now_ms);
            &&& failure_of(after, output_id) is None
            &&& shown_retry(table, output_id, end, policy) is None
            &&& start_action(
                "running"@,
                false,
                true,
                window(failure_of(after, output_id), now_ms),
                policy,
            ) == OutputStartAction::StartNow
        }),
{
}

/// An attempt whose address no egress knows is settled as failed, cancelled or not; any other is
/// settled as stopped exactly when it was cancelled.
pub proof fn refused_attempt_is_failed(
    url: Seq<char>,
    cancelled: bool,
    had_progress: bool,
    was_current: bool,
    end: AttemptEnd,
    table: Map<Seq<char>, Failure>,
    output_id: Seq<char>,
    now_ms: u64,
)
    requires
        end.cancelled == (cancelled && route_of(url) is Some),
        end.had_progress == (had_progress && route_of(url) is Some),
        end.was_current == was_current,
    ensures
        job_status_of(end) == (if cancelled && route_of(url) is Some {
            "stopped"@
        } else {
            "failed"@
        }),
        route_of(url) is None && was_current ==> failure_of(
            settled_failures(table, output_id, end, now_ms),
            output_id,
        ) == Some(
            Failure {
                failed_at_ms: now_ms,
                retries: next_retries(failure_of(table, output_id), false),
            },
        ),
{
}

/// An attempt that another one replaced changes nothing, and no attempt touches another output.
pub proof fn settling_touches_one_output(
    table: Map<Seq<char>, Failure>,
    output_id: Seq<char>,
    other: Seq<char>,
    end: AttemptEnd,
    now_ms: u64,
)
    ensures
        !end.was_current ==> settled_failures(table, output_id, end, now_ms) == table,
        other != output_id ==> failure_of(
            settled_failures(table, output_id, end, now_ms),
            other,
        ) == failure_of(table, other),
{
}

/// What an output shows after a failure is what a tick at that moment shows: the same count, the
/// same backoff, and all of it still to wait.
pub proof fn shown_retry_is_what_the_next_tick_shows(
    table: Map<Seq<char>, Failure>,
    output_id: Seq<char>,
    end: AttemptEnd,
    now_ms: u64,
    policy: OutputRetryPolicy,
)
    requires
        policy.base_ms >= 1,
        policy.max_ms >= 1,
    ensures
        shown_retry(table, output_id, end, policy) matches Some(notice) ==> start_action(
            "running"@,
            false,
            true,
            window(
                failure_of(settled_failures(table, output_id, end, now_ms), output_id),
                now_ms,
            ),
            policy,
        ) == (OutputStartAction::WaitRetry {
            retries: notice.retries,
            backoff_ms: notice.backoff_ms,
            remaining_ms: notice.backoff_ms,
        }),
{
    let n = next_retries(failure_of(table, output_id), end.had_progress) as nat;
    crate::runtime::backoff_is_bounded_and_monotone(policy, n, n);
}

/// A URL is refused exactly when it has none of the known schemes.
pub proof fn unsupported_iff_unknown_scheme(url: Seq<char>)
    ensures
        route_of(url) is None <==> !(starts(url, "rtmp://"@) || starts(url, "rtmps://"@) || starts(
            url,
            "srt://"@,
        ) || starts(url, "hls://"@) || starts(url, "http://"@) || starts(url, "https://"@)),
{
}

/// A recording that runs has been enabled and has an ingest, one tick later at the latest: whatever
/// the action, the state that it leads to is the one that is wanted.
pub proof fn recording_reaches_what_is_wanted(enabled: bool, has_ingest: bool, active: bool)
    ensures
        ({
            let after = match recording_action(enabled, has_ingest, active) {
                RecordingAction::Start => true,
                RecordingAction::Stop => false,
                RecordingAction::Keep => active,
            };
            after == (enabled && has_ingest)
        }),
{
}

/// An output is given up, and its desired state becomes `failed`, exactly when it is wanted, does
/// not run, has something to send, and its last failure has used up the retries.
pub proof fn gives_up_iff_retries_are_used_up(
    desired_state: Seq<char>,
    seen: OutputObservation,
    failure: Option<Failure>,
    now_ms: u64,
    policy: OutputRetryPolicy,
)
    ensures
        output_effects(desired_state, seen, window(failure, now_ms), policy).contains(
            OutputEffect::SetDesiredFailed,
        ) <==> desired_state == "running"@ && !seen.is_active && (seen.has_ingest
            || seen.within_disconnect_grace) && failure is Some && failure->0.retries
            >= policy.max_retries,
{
    let effects = output_effects(desired_state, seen, window(failure, now_ms), policy);
    let action = start_action(
        desired_state,
        seen.is_active,
        seen.ingest(),
        window(failure, now_ms),
        policy,
    );
    if action == OutputStartAction::MarkFailed {
        assert(effects[1] == OutputEffect::SetDesiredFailed);
    }
}

/// An output that is given up is forgotten by the tick that gives it up, and only then: a tick
/// touches no other failure.
pub proof fn only_a_given_up_output_is_forgotten(
    desired_state: Seq<char>,
    seen: OutputObservation,
    failure: Option<Failure>,
    now_ms: u64,
    policy: OutputRetryPolicy,
)
    ensures
        start_action(
            desired_state,
            seen.is_active,
            seen.ingest(),
            window(failure, now_ms),
            policy,
        ) == OutputStartAction::MarkFailed <==> output_effects(
            desired_state,
            seen,
            window(failure, now_ms),
            policy,
        ).contains(OutputEffect::SetDesiredFailed),
{
    gives_up_iff_retries_are_used_up(desired_state, seen, failure, now_ms, policy);
}

/// An attempt is started exactly when the output is wanted, does not run, has something to send,
/// and has not failed, or has retries left and has waited for as long as the policy asks.
pub proof fn attempt_starts_when_the_wait_is_over(
    desired_state: Seq<char>,
    seen: OutputObservation,
    failure: Option<Failure>,
    now_ms: u64,
    policy: OutputRetryPolicy,
)
    requires
        failure matches Some(f) ==> f.failed_at_ms <= now_ms,
    ensures
        output_effects(desired_state, seen, window(failure, now_ms), policy).contains(
            OutputEffect::StartAttempt,
        ) <==> desired_state == "running"@ && !seen.is_active && (seen.has_ingest
            || seen.within_disconnect_grace) && (failure matches Some(f) ==> f.retries
            < policy.max_retries && f.failed_at_ms + policy.backoff(f.retries as nat) <= now_ms),
{
    starts_iff_due(desired_state, seen, window(failure, now_ms), policy);
}

/// A wait is shown exactly when the output is wanted, does not run, has something to send, has
/// retries left, and has not waited long enough; and what is shown is how many retries there were,
/// how long the wait is, and the rest of it, which ends when the attempt starts.
pub proof fn wait_is_shown_until_it_is_over(
    desired_state: Seq<char>,
    seen: OutputObservation,
    failure: Option<Failure>,
    now_ms: u64,
    policy: OutputRetryPolicy,
    retries: u32,
    backoff_ms: u64,
    remaining_ms: u64,
)
    requires
        failure matches Some(f) ==> f.failed_at_ms <= now_ms,
    ensures
        output_effects(desired_state, seen, window(failure, now_ms), policy).contains(
            OutputEffect::ShowRetry { retries, backoff_ms, remaining_ms },
        ) <==> desired_state == "running"@ && !seen.is_active && (seen.has_ingest
            || seen.within_disconnect_grace) && failure is Some && retries == failure->0.retries
            && retries < policy.max_retries && backoff_ms == policy.backoff(retries as nat) && now_ms
            + remaining_ms == failure->0.failed_at_ms + backoff_ms && remaining_ms > 0,
{
    let effects = output_effects(desired_state, seen, window(failure, now_ms), policy);
    if let Some(f) = failure {
        crate::runtime::backoff_is_bounded_and_monotone(policy, f.retries as nat, f.retries as nat);
        let action = start_action(
            desired_state,
            seen.is_active,
            seen.ingest(),
            window(failure, now_ms),
            policy,
        );
        if action is WaitRetry {
            assert(effects.len() == 1);
            assert(effects[0] is ShowRetry);
        }
    }
}

/// An egress is stopped for want of something to send exactly when it runs, is wanted, and the
/// publisher is gone for longer than the grace; it is stopped on request exactly when it runs and is
/// not wanted.
pub proof fn egress_is_stopped_for_one_reason(
    desired_state: Seq<char>,
    seen: OutputObservation,
    failure: Option<OutputFailureWindow>,
    policy: OutputRetryPolicy,
)
    ensures
        output_effects(desired_state, seen, failure, policy).contains(
            OutputEffect::StopEgress { ingest_lost: true },
        ) <==> seen.is_active && desired_state == "running"@ && !seen.has_ingest
            && !seen.within_disconnect_grace,
        output_effects(desired_state, seen, failure, policy).contains(
            OutputEffect::StopEgress { ingest_lost: false },
        ) <==> seen.is_active && desired_state != "running"@,
{
    let effects = output_effects(desired_state, seen, failure, policy);
    if seen.is_active {
        let stop = stop_effects(stop_action(desired_state, seen.is_active, seen.ingest()));
        assert(effects =~= seq![OutputEffect::ClearRetryState] + stop);
        if stop.len() > 0 {
            assert(effects[1] == stop[0]);
        }
    }
}

/// The shown retry is cleared exactly when no retry is due: the output runs, is not wanted, has
/// nothing to send, or is given up.
pub proof fn shown_retry_is_cleared_when_none_is_due(
    desired_state: Seq<char>,
    seen: OutputObservation,
    failure: Option<Failure>,
    now_ms: u64,
    policy: OutputRetryPolicy,
)
    ensures
        output_effects(desired_state, seen, window(failure, now_ms), policy).contains(
            OutputEffect::ClearRetryState,
        ) <==> seen.is_active || desired_state != "running"@ || !(seen.has_ingest
            || seen.within_disconnect_grace) || (failure matches Some(f) && f.retries
            >= policy.max_retries),
{
    let effects = output_effects(desired_state, seen, window(failure, now_ms), policy);
    if seen.is_active || desired_state != "running"@ {
        let stop = stop_effects(stop_action(desired_state, seen.is_active, seen.ingest()));
        assert(effects =~= seq![OutputEffect::ClearRetryState] + stop);
        assert(effects[0] == OutputEffect::ClearRetryState);
    } else if !seen.ingest() {
        assert(effects[0] == OutputEffect::ClearRetryState);
    } else if failure is Some && failure->0.retries >= policy.max_retries {
        assert(effects[0] == OutputEffect::ClearRetryState);
    }
}

/// A tick does nothing twice, but for clearing the shown retry before and after a stop; and where it
/// clears it, it shows none.
pub proof fn tick_does_nothing_twice(
    desired_state: Seq<char>,
    seen: OutputObservation,
    failure: Option<OutputFailureWindow>,
    policy: OutputRetryPolicy,
)
    ensures
        ({
            let effects = output_effects(desired_state, seen, failure, policy);
            &&& forall|i: int, j: int|
                0 <= i < j < effects.len() && #[trigger] effects[i] == #[trigger] effects[j]
                    ==> effects[i] == OutputEffect::ClearRetryState
            &&& stops_egress(effects) ==> effects.len() == 3 && effects[1] is StopEgress
            &&& !stops_egress(effects) ==> effects.len() <= 2
        }),
{
    let effects = output_effects(desired_state, seen, failure, policy);
    let stop = stop_effects(stop_action(desired_state, seen.is_active, seen.ingest()));
    stops_iff_unwanted_or_without_ingest(desired_state, seen, failure, policy);
    if seen.is_active {
        assert(effects =~= seq![OutputEffect::ClearRetryState] + stop);
    } else {
        assert(stop =~= Seq::<OutputEffect>::empty());
    }
}

/// Whether an output starts is settled by its last failure alone: an attempt that failed without
/// having sent anything counts one more, and so an output whose attempts all fail so is given up
/// once they are as many as the policy allows.
pub proof fn failures_in_a_row_count_up(
    table: Map<Seq<char>, Failure>,
    output_id: Seq<char>,
    now_ms: u64,
)
    ensures
        ({
            let end = AttemptEnd { cancelled: false, had_progress: false, was_current: true };
            let after = settled_failures(table, output_id, end, now_ms);
            &&& after.contains_key(output_id)
            &&& after[output_id].failed_at_ms == now_ms
            &&& !table.contains_key(output_id) ==> after[output_id].retries == 1
            &&& table.contains_key(output_id) && table[output_id].retries < u32::MAX
                ==> after[output_id].retries == table[output_id].retries + 1
            &&& table.contains_key(output_id) && table[output_id].retries == u32::MAX
                ==> after[output_id].retries == u32::MAX
        }),
{
}

/// An attempt that failed after having sent something counts as the first failure, whatever there
/// was before.
pub proof fn progress_starts_the_count_anew(
    table: Map<Seq<char>, Failure>,
    output_id: Seq<char>,
    now_ms: u64,
)
    ensures
        ({
            let end = AttemptEnd { cancelled: false, had_progress: true, was_current: true };
            let after = settled_failures(table, output_id, end, now_ms);
            after.contains_key(output_id) && after[output_id] == (Failure {
                failed_at_ms: now_ms,
                retries: 1,
            })
        }),
{
}

/// What an output shows after an attempt is the failure that the table then holds, with the wait
/// that the policy gives it; it shows nothing where the attempt was cancelled or replaced, or where
/// the output is about to be given up.
pub proof fn settled_failure_is_shown(
    table: Map<Seq<char>, Failure>,
    output_id: Seq<char>,
    end: AttemptEnd,
    now_ms: u64,
    policy: OutputRetryPolicy,
)
    ensures
        ({
            let after = settled_failures(table, output_id, end, now_ms);
            match shown_retry(table, output_id, end, policy) {
                Some(notice) => end.was_current && !end.cancelled && after.contains_key(output_id)
                    && notice.retries == after[output_id].retries && notice.retries
                    < policy.max_retries && notice.backoff_ms == policy.backoff(
                    after[output_id].retries as nat,
                ),
                None => !end.was_current || end.cancelled || (after.contains_key(output_id)
                    && after[output_id].retries >= policy.max_retries),
            }
        }),
        end.was_current && end.cancelled ==> !settled_failures(
            table,
            output_id,
            end,
            now_ms,
        ).contains_key(output_id),
        end.cancelled ==> job_status_of(end) == "stopped"@,
        !end.cancelled ==> job_status_of(end) == "failed"@,
{
    if end.was_current && !end.cancelled {
        let n = next_retries(failure_of(table, output_id), end.had_progress) as nat;
        crate::runtime::backoff_is_bounded_and_monotone(policy, n, n);
    }
}

/// What begins with `rtmp://` or `rtmps://` is sent over RTMP.
pub proof fn rtmp_addresses_go_to_rtmp(rest: Seq<char>)
    ensures
        route_of("rtmp://"@ + rest) == Some(EgressRoute::Rtmp),
        route_of("rtmps://"@ + rest) == Some(EgressRoute::Rtmp),
{
    lemma_starts("rtmp://"@, rest);
    lemma_starts("rtmps://"@, rest);
}

/// What begins with `srt://` is sent over SRT.
pub proof fn srt_addresses_go_to_srt(rest: Seq<char>)
    ensures
        route_of("srt://"@ + rest) == Some(EgressRoute::Srt),
{
    lemma_starts("srt://"@, rest);
    lemma_schemes_differ("srt://"@ + rest);
}

/// What begins with `hls://` is kept for viewers.
pub proof fn hls_addresses_go_to_the_preview(rest: Seq<char>)
    ensures
        route_of("hls://"@ + rest) == Some(EgressRoute::HlsPreview),
{
    lemma_starts("hls://"@, rest);
    lemma_schemes_differ("hls://"@ + rest);
}

/// What begins with `http://` or `https://` is uploaded.
pub proof fn web_addresses_are_uploaded_to(rest: Seq<char>)
    ensures
        route_of("http://"@ + rest) == Some(EgressRoute::HlsPut),
        route_of("https://"@ + rest) == Some(EgressRoute::HlsPut),
{
    lemma_starts("http://"@, rest);
    lemma_schemes_differ("http://"@ + rest);
    lemma_starts("https://"@, rest);
    lemma_schemes_differ("https://"@ + rest);
}

/// A route is taken by the addresses of its schemes alone; any other address is refused.
pub proof fn route_tells_the_scheme(url: Seq<char>)
    ensures
        route_of(url) == Some(EgressRoute::Rtmp) ==> (exists|rest: Seq<char>|
            url == #[trigger] ("rtmp://"@ + rest)) || (exists|rest: Seq<char>|
            url == #[trigger] ("rtmps://"@ + rest)),
        route_of(url) == Some(EgressRoute::Srt) ==> exists|rest: Seq<char>|
            url == #[trigger] ("srt://"@ + rest),
        route_of(url) == Some(EgressRoute::HlsPreview) ==> exists|rest: Seq<char>|
            url == #[trigger] ("hls://"@ + rest),
        route_of(url) == Some(EgressRoute::HlsPut) ==> (exists|rest: Seq<char>|
            url == #[trigger] ("http://"@ + rest)) || (exists|rest: Seq<char>|
            url == #[trigger] ("https://"@ + rest)),
{
    if starts(url, "rtmp://"@) {
        assert(url =~= "rtmp://"@ + url.skip("rtmp://"@.len() as int));
    } else if starts(url, "rtmps://"@) {
        assert(url =~= "rtmps://"@ + url.skip("rtmps://"@.len() as int));
    }
    if starts(url, "srt://"@) {
        assert(url =~= "srt://"@ + url.skip("srt://"@.len() as int));
    }
    if starts(url, "hls://"@) {
        assert(url =~= "hls://"@ + url.skip("hls://"@.len() as int));
    }
    if starts(url, "http://"@) {
        assert(url =~= "http://"@ + url.skip("http://"@.len() as int));
    } else if starts(url, "https://"@) {
        assert(url =~= "https://"@ + url.skip("https://"@.len() as int));
    }
}

proof fn lemma_starts(scheme: Seq<char>, rest: Seq<char>)
    ensures
        starts(scheme + rest, scheme),
{
    assert((scheme + rest).take(scheme.len() as int) =~= scheme);
}

proof fn lemma_schemes_differ(url: Seq<char>)
    ensures
        starts(url, "srt://"@) ==> !starts(url, "rtmp://"@) && !starts(url, "rtmps://"@),
        starts(url, "hls://"@) ==> !starts(url, "rtmp://"@) && !starts(url, "rtmps://"@) && !starts(
            url,
            "srt://"@,
        ),
        starts(url, "http://"@) || starts(url, "https://"@) ==> !starts(url, "rtmp://"@) && !starts(
            url,
            "rtmps://"@,
        ) && !starts(url, "srt://"@) && !starts(url, "hls://"@),
{
    reveal_strlit("rtmp://");
    reveal_strlit("rtmps://");
    reveal_strlit("srt://");
    reveal_strlit("hls://");
    reveal_strlit("http://");
    reveal_strlit("https://");
    lemma_first_characters(url, "rtmp://"@);
    lemma_first_characters(url, "rtmps://"@);
    lemma_first_characters(url, "srt://"@);
    lemma_first_characters(url, "hls://"@);
    lemma_first_characters(url, "http://"@);
    lemma_first_characters(url, "https://"@);
}

proof fn lemma_first_characters(url: Seq<char>, scheme: Seq<char>)
    requires
        scheme.len() >= 2,
    ensures
        starts(url, scheme) ==> url[0] == scheme[0] && url[1] == scheme[1],
{
    if starts(url, scheme) {
        assert(url.take(scheme.len() as int)[0] == scheme[0]);
        assert(url.take(scheme.len() as int)[1] == scheme[1]);
    }
}

/// RTMP does not carry H.265: the video is converted exactly where the ingest is H.265 and the
/// address is one of RTMP.
pub proof fn h265_is_converted_for_rtmp_alone(rest: Seq<char>, ingest_is_h265: bool)
    ensures
        needs_h264("rtmp://"@ + rest, ingest_is_h265) == ingest_is_h265,
        needs_h264("rtmps://"@ + rest, ingest_is_h265) == ingest_is_h265,
        !needs_h264("srt://"@ + rest, ingest_is_h265),
        !needs_h264("hls://"@ + rest, ingest_is_h265),
        !needs_h264("http://"@ + rest, ingest_is_h265),
        !needs_h264("https://"@ + rest, ingest_is_h265),
{
    rtmp_addresses_go_to_rtmp(rest);
    srt_addresses_go_to_srt(rest);
    hls_addresses_go_to_the_preview(rest);
    web_addresses_are_uploaded_to(rest);
}

/// A recording is started where it is wanted and does not run, and stopped where it runs and is not
/// wanted; nothing else happens to it.
pub proof fn recording_changes_only_where_it_must(enabled: bool, has_ingest: bool, active: bool)
    ensures
        recording_action(enabled, has_ingest, active) == RecordingAction::Start <==> enabled
            && has_ingest && !active,
        recording_action(enabled, has_ingest, active) == RecordingAction::Stop <==> active && (
        !enabled || !has_ingest),
{
}

/// The sessions that stay are in the order in which they were, and none is doubled.
pub proof fn kept_sessions_are_a_part(sessions: Seq<String>, tokens: Seq<String>)
    ensures
        kept_sessions(sessions, Some(tokens)).len() <= sessions.len(),
        (forall|i: int| 0 <= i < sessions.len() ==> listed(tokens, (#[trigger] sessions[i])@))
            ==> kept_sessions(sessions, Some(tokens)) == sessions,
    decreases sessions.len(),
{
    if sessions.len() > 0 {
        kept_sessions_are_a_part(sessions.drop_last(), tokens);
        if forall|i: int| 0 <= i < sessions.len() ==> listed(tokens, (#[trigger] sessions[i])@) {
            let front = sessions.drop_last();
            assert forall|i: int| 0 <= i < front.len() implies listed(
                tokens,
                (#[trigger] front[i])@,
            ) by {
                assert(front[i] == sessions[i]);
            }
            assert(listed(tokens, sessions[sessions.len() - 1]@));
            assert(kept_sessions(sessions, Some(tokens)) =~= sessions);
        }
    }
}

/// A failed listing logs nobody out.
pub proof fn failed_listing_keeps_sessions(sessions: Seq<String>)
    ensures
        kept_sessions(sessions, None) == sessions,
{
}

/// A session stays exactly when the database still has its token.
pub proof fn session_stays_iff_live(sessions: Seq<String>, tokens: Seq<String>, s: String)
    ensures
        kept_sessions(sessions, Some(tokens)).contains(s) <==> sessions.contains(s) && listed(
            tokens,
            s@,
        ),
    decreases sessions.len(),
{
    if sessions.len() > 0 {
        let front = sessions.drop_last();
        session_stays_iff_live(front, tokens, s);
        let kept = kept_sessions(front, Some(tokens));
        let all = kept_sessions(sessions, Some(tokens));
        if kept.contains(s) {
            let i = choose|i: int| 0 <= i < kept.len() && kept[i] == s;
            assert(all[i] == s);
        }
        if front.contains(s) {
            let i = choose|i: int| 0 <= i < front.len() && front[i] == s;
            assert(sessions[i] == s);
        }
        if all.contains(s) {
            let i = choose|i: int| 0 <= i < all.len() && all[i] == s;
            if i < kept.len() {
                assert(kept[i] == s);
            }
        }
        if sessions.contains(s) {
            let i = choose|i: int| 0 <= i < sessions.len() && sessions[i] == s;
            if i < front.len() {
                assert(front[i] == s);
            } else if listed(tokens, s@) {
                assert(all.last() == s);
            }
        }
    }
}

/// The database is closed only once every task has been cancelled and every thread joined, and SRT
/// is torn down last.
pub proof fn shutdown_closes_database_after_tasks()
    ensures
        shutdown_order()[0] == ShutdownStep::CancelActiveTasks,
        shutdown_order()[3] == ShutdownStep::JoinOsThreads,
        shutdown_order()[4] == ShutdownStep::CloseDatabase,
        shutdown_order().last() == ShutdownStep::TeardownSrt,
{
}

/// A segmenter that runs is joined and never started again; one that does not is started where it
/// can be, and only where it cannot is the attempt given up.
pub proof fn segmenters_are_started_once(running: bool, startable: bool)
    ensures
        segmenter_choice(running, startable) == SegmenterAction::StartAndJoin <==> !running
            && startable,
        segmenter_choice(running, startable) == SegmenterAction::GiveUp <==> !running && !startable,
        segmenter_choice(running, startable) == SegmenterAction::Join <==> running,
{
}

/// Over any address that an egress knows, an attempt ends as it went; over one that none knows it
/// ends as failed, and its failure counts one more than the last.
pub proof fn attempts_end_as_they_went(
    rest: Seq<char>,
    unknown: Seq<char>,
    cancelled: bool,
    had_progress: bool,
    table: Map<Seq<char>, Failure>,
    output_id: Seq<char>,
    now_ms: u64,
)
    requires
        route_of(unknown) is None,
    ensures
        end_of_attempt("rtmps://"@ + rest, cancelled, had_progress, true) == (AttemptEnd {
            cancelled,
            had_progress,
            was_current: true,
        }),
        end_of_attempt("srt://"@ + rest, cancelled, had_progress, true) == (AttemptEnd {
            cancelled,
            had_progress,
            was_current: true,
        }),
        end_of_attempt("https://"@ + rest, cancelled, had_progress, true) == (AttemptEnd {
            cancelled,
            had_progress,
            was_current: true,
        }),
        job_status_of(end_of_attempt(unknown, cancelled, had_progress, true)) == "failed"@,
        table.contains_key(output_id) && table[output_id].retries < u32::MAX ==> settled_failures(
            table,
            output_id,
            end_of_attempt(unknown, cancelled, had_progress, true),
            now_ms,
        )[output_id].retries == table[output_id].retries + 1,
{
    rtmp_addresses_go_to_rtmp(rest);
    srt_addresses_go_to_srt(rest);
    web_addresses_are_uploaded_to(rest);
}

/// A tick forgets the failure of an output exactly when it gives the output up, and touches that of
/// no other; an output that is wanted again after it was given up starts at once, with all its
/// retries before it.
pub proof fn given_up_output_starts_afresh(
    table: Map<Seq<char>, Failure>,
    output_id: Seq<char>,
    other: Seq<char>,
    desired_state: Seq<char>,
    seen: OutputObservation,
    now_ms: u64,
    later_ms: u64,
    policy: OutputRetryPolicy,
)
    ensures
        ({
            let after = ticked_failures(table, output_id, desired_state, seen, now_ms, policy);
            let effects = output_effects(
                desired_state,
                seen,
                window(failure_of(table, output_id), now_ms),
                policy,
            );
            let gives_up = effects.contains(OutputEffect::SetDesiredFailed);
            &&& gives_up ==> !after.contains_key(output_id)
            &&& !gives_up ==> after == table
            &&& other != output_id ==> failure_of(after, other) == failure_of(table, other)
            &&& gives_up ==> output_effects(
                "running"@,
                seen,
                window(failure_of(after, output_id), later_ms),
                policy,
            ).contains(OutputEffect::StartAttempt)
        }),
{
    let failure = failure_of(table, output_id);
    gives_up_iff_retries_are_used_up(desired_state, seen, failure, now_ms, policy);
    let after = ticked_failures(table, output_id, desired_state, seen, now_ms, policy);
    starts_iff_due("running"@, seen, window(failure_of(after, output_id), later_ms), policy);
}

/// A clock that is behind the failure makes the output wait in full.
pub proof fn clock_behind_the_failure_waits_in_full(
    f: Failure,
    now_ms: u64,
    seen: OutputObservation,
    policy: OutputRetryPolicy,
)
    requires
        now_ms <= f.failed_at_ms,
        f.retries < policy.max_retries,
        policy.base_ms >= 1,
        policy.max_ms >= 1,
        !seen.is_active,
        seen.has_ingest,
    ensures
        output_effects("running"@, seen, window(Some(f), now_ms), policy) == seq![
            OutputEffect::ShowRetry {
                retries: f.retries,
                backoff_ms: policy.backoff(f.retries as nat) as u64,
                remaining_ms: policy.backoff(f.retries as nat) as u64,
            },
        ],
{
    crate::runtime::backoff_is_bounded_and_monotone(policy, f.retries as nat, f.retries as nat);
    let effects = output_effects("running"@, seen, window(Some(f), now_ms), policy);
    assert(effects =~= seq![
        OutputEffect::ShowRetry {
            retries: f.retries,
            backoff_ms: policy.backoff(f.retries as nat) as u64,
            remaining_ms: policy.backoff(f.retries as nat) as u64,
        },
    ]);
}

/// What is sent over RTMP from an H.265 ingest is converted behind the last of its other stages: the
/// audio stage where there is one, else the video stage, else the source.
pub proof fn conversion_reads_from_the_last_stage(
    pipeline_id: Seq<char>,
    preset: Seq<char>,
    operation: Seq<char>,
    rest: Seq<char>,
)
    requires
        !preset.contains('+'),
        !crate::domain::audio_routing::is_audio_operation(preset),
        preset.len() > 0,
        preset != "source"@,
        preset != "custom"@,
        operation.len() > 0,
    ensures
        ({
            let video = StageModel::VideoPreset { preset };
            let audio = StageModel::AudioRoute { operation, upstream: Box::new(video) };
            let url = "rtmp://"@ + rest;
            &&& edge_of_attempt(pipeline_id, preset + "+"@ + operation, url, true) == Some(
                StageKeyModel {
                    pipeline: pipeline_id,
                    kind: StageModel::CodecEdge {
                        operation: "hevc_to_h264"@,
                        upstream: Box::new(audio),
                    },
                },
            )
            &&& edge_of_attempt(pipeline_id, preset, url, true) == Some(
                StageKeyModel {
                    pipeline: pipeline_id,
                    kind: StageModel::CodecEdge {
                        operation: "hevc_to_h264"@,
                        upstream: Box::new(video),
                    },
                },
            )
            &&& edge_of_attempt(pipeline_id, "source"@, url, true) == Some(
                StageKeyModel {
                    pipeline: pipeline_id,
                    kind: StageModel::CodecEdge {
                        operation: "hevc_to_h264"@,
                        upstream: Box::new(StageModel::Source),
                    },
                },
            )
            &&& edge_of_attempt(pipeline_id, preset, url, false) is None
            &&& edge_of_attempt(pipeline_id, preset, "srt://"@ + rest, true) is None
        }),
{
    h265_is_converted_for_rtmp_alone(rest, true);
    h265_is_converted_for_rtmp_alone(rest, false);
    crate::domain::stage::preset_and_operation_plan_their_stages(pipeline_id, preset, operation);
    crate::domain::stage::source_needs_no_video_stage(pipeline_id, "source"@, operation);
}

} // verus!
