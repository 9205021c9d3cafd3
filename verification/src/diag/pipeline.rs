//! Checks of what comes into a pipeline, and of the ring buffer that holds it.

use vstd::prelude::*;
use vstd::string::*;

use crate::diag::{percent, percent_of, result_is, where_so, DiagResult, Findings, Reading, Report};
use crate::diag::outputs::{count_outputs, fed_by, EgressSnapshot};
use crate::number::{decimal, decimal_text};
use crate::text::same_text;

verus! {

/// A consumer of a ring buffer.
#[derive(Debug, Clone)]
pub struct ReaderSnapshot {
    pub name: String,
    /// How many slots the reader is behind.
    pub lag_slots: u64,
    /// How often the reader was overtaken.
    pub overflow_count: u64,
    /// The age of the packet that the reader is at.
    pub packet_age_ms: Option<u64>,
}

/// A ring buffer and its consumers.
#[derive(Debug, Clone)]
pub struct RingSnapshot {
    pub pipeline_id: String,
    pub fill: u64,
    pub capacity: u64,
    pub readers: Vec<ReaderSnapshot>,
}

impl RingSnapshot {
    /// The numbers are within what can be computed with.
    pub open spec fn wf(&self) -> bool {
        &&& self.fill * 100 <= u64::MAX
        &&& self.capacity * 8 <= u64::MAX
        &&& total_overflows(self.readers@) <= u64::MAX
    }
}

/// The publisher of a pipeline.
#[derive(Debug, Clone)]
pub struct IngestSnapshot {
    pub pipeline_id: String,
    pub protocol: String,
    /// For how many seconds it has been connected, with one decimal.
    pub uptime_secs: String,
    pub bytes_received: u64,
    pub remote_addr: Option<String>,
}

// ── Readers ──────────────────────────────────────────────────────────────────

/// The greatest lag; 0 without readers.
pub open spec fn max_lag(readers: Seq<ReaderSnapshot>) -> u64
    decreases readers.len(),
{
    if readers.len() == 0 {
        0
    } else if max_lag(readers.drop_last()) >= readers.last().lag_slots {
        max_lag(readers.drop_last())
    } else {
        readers.last().lag_slots
    }
}

/// How often readers were overtaken, all together.
pub open spec fn total_overflows(readers: Seq<ReaderSnapshot>) -> int
    decreases readers.len(),
{
    if readers.len() == 0 {
        0
    } else {
        total_overflows(readers.drop_last()) + readers.last().overflow_count
    }
}

/// The greatest age of a packet, of the readers that are at one.
pub open spec fn max_age(readers: Seq<ReaderSnapshot>) -> Option<u64>
    decreases readers.len(),
{
    if readers.len() == 0 {
        None
    } else {
        match (max_age(readers.drop_last()), readers.last().packet_age_ms) {
            (Some(a), Some(b)) => if a > b {
                Some(a)
            } else {
                Some(b)
            },
            (Some(a), None) => Some(a),
            (None, b) => b,
        }
    }
}

proof fn lemma_overflows_grow(readers: Seq<ReaderSnapshot>, k: int)
    requires
        0 <= k <= readers.len(),
    ensures
        0 <= total_overflows(readers.take(k)) <= total_overflows(readers),
    decreases readers.len(),
{
    if k == readers.len() {
        assert(readers.take(k) =~= readers);
        if k > 0 {
            lemma_overflows_grow(readers.drop_last(), k - 1);
            assert(readers.drop_last().take(k - 1) =~= readers.drop_last());
        }
    } else {
        lemma_overflows_grow(readers.drop_last(), k);
        assert(readers.drop_last().take(k) =~= readers.take(k));
    }
}

fn reader_totals(readers: &Vec<ReaderSnapshot>) -> (r: (u64, u64, Option<u64>))
    requires
        total_overflows(readers@) <= u64::MAX,
    ensures
        r.0 == max_lag(readers@),
        r.1 == total_overflows(readers@),
        r.2 == max_age(readers@),
{
    let mut lag: u64 = 0;
    let mut overflows: u64 = 0;
    let mut age: Option<u64> = None;
    let mut i: usize = 0;
    assert(readers@.take(0) =~= Seq::<ReaderSnapshot>::empty());
    while i < readers.len()
        invariant
            i <= readers@.len(),
            total_overflows(readers@) <= u64::MAX,
            lag == max_lag(readers@.take(i as int)),
            overflows == total_overflows(readers@.take(i as int)),
            age == max_age(readers@.take(i as int)),
        decreases readers@.len() - i,
    {
        let reader: &ReaderSnapshot = &readers[i];
        proof {
            assert(readers@.take(i + 1).drop_last() =~= readers@.take(i as int));
            lemma_overflows_grow(readers@, i + 1);
        }
        if lag < reader.lag_slots {
            lag = reader.lag_slots;
        }
        overflows = overflows + reader.overflow_count;
        age = match (age, reader.packet_age_ms) {
            (Some(a), Some(b)) => if a > b {
                Some(a)
            } else {
                Some(b)
            },
            (Some(a), None) => Some(a),
            (None, b) => b,
        };
        i += 1;
    }
    assert(readers@.take(readers@.len() as int) =~= readers@);
    (lag, overflows, age)
}

/// The age of a packet, or that there is none.
pub open spec fn age_text(age: Option<u64>) -> Seq<char> {
    match age {
        Some(ms) => decimal(ms as nat),
        None => "n/a"@,
    }
}

fn age_of(age: Option<u64>) -> (r: String)
    ensures
        r@ == age_text(age),
{
    match age {
        Some(ms) => decimal_text(ms),
        None => "n/a".to_string(),
    }
}

// ── Engine status ────────────────────────────────────────────────────────────

/// What is said of the publisher.
pub open spec fn publisher_report(r: Report, ingest: Option<IngestSnapshot>) -> Report {
    match ingest {
        Some(ingest) => {
            let shown = r.line("Ingest protocol: "@ + ingest.protocol@).line(
                "Ingest uptime: "@ + ingest.uptime_secs@ + "s"@,
            ).line("Bytes received: "@ + decimal(ingest.bytes_received as nat));
            match ingest.remote_addr {
                Some(addr) => shown.line("Publisher remote: "@ + addr@),
                None => shown,
            }
        },
        None => r.line("No active ingest for this pipeline."@).issue(
            "No active publisher is connected to this pipeline."@,
        ),
    }
}

/// What is said of the ring buffer.
pub open spec fn ring_status_report(r: Report, ring: Option<RingSnapshot>) -> Report {
    match ring {
        Some(ring) => {
            let pct = percent(ring.fill as int, ring.capacity as int);
            let overflows = total_overflows(ring.readers@);
            r.line(
                "Ring buffer: "@ + decimal(ring.fill as nat) + "/"@ + decimal(ring.capacity as nat)
                    + " slots filled ("@ + decimal(pct as nat) + "%)"@,
            ).issue_if(
                pct > 90,
                "Ring buffer is "@ + decimal(pct as nat)
                    + "% full — possible consumer lag or encoder overrun."@,
            ).line(
                "Ring buffer readers: max lag="@ + decimal(max_lag(ring.readers@) as nat)
                    + ", total overflows="@ + decimal(overflows as nat) + ", max packet age="@
                    + age_text(max_age(ring.readers@)) + "ms"@,
            ).issue_if(
                overflows > 0,
                "Consumers are dropping frames due to overflow ("@ + decimal(overflows as nat)
                    + " total overflows)."@,
            )
        },
        None => r.line("Ring buffer not yet allocated for this pipeline."@),
    }
}

/// The publisher of a pipeline among all publishers.
pub open spec fn ingest_of(all: Seq<IngestSnapshot>, pipeline: Seq<char>) -> Option<IngestSnapshot>
    decreases all.len(),
{
    if all.len() == 0 {
        None
    } else if all[0].pipeline_id@ == pipeline {
        Some(all[0])
    } else {
        ingest_of(all.skip(1), pipeline)
    }
}

/// The ring buffer of a pipeline among all ring buffers.
pub open spec fn ring_of(all: Seq<RingSnapshot>, pipeline: Seq<char>) -> Option<RingSnapshot>
    decreases all.len(),
{
    if all.len() == 0 {
        None
    } else if all[0].pipeline_id@ == pipeline {
        Some(all[0])
    } else {
        ring_of(all.skip(1), pipeline)
    }
}

/// What a reference points to, if there is one.
pub open spec fn held<T>(r: Option<&T>) -> Option<T> {
    match r {
        Some(value) => Some(*value),
        None => None,
    }
}

/// The publisher of a pipeline.
pub fn find_ingest<'a>(all: &'a Vec<IngestSnapshot>, pipeline_id: &str) -> (r: Option<
    &'a IngestSnapshot,
>)
    ensures
        held(r) == ingest_of(all@, pipeline_id@),
{
    let mut i: usize = 0;
    assert(all@.skip(0) =~= all@);
    while i < all.len()
        invariant
            i <= all@.len(),
            ingest_of(all@, pipeline_id@) == ingest_of(all@.skip(i as int), pipeline_id@),
        decreases all@.len() - i,
    {
        assert(all@.skip(i as int)[0] == all@[i as int]);
        assert(all@.skip(i as int).skip(1) =~= all@.skip(i + 1));
        if same_text(all[i].pipeline_id.as_str(), pipeline_id) {
            return Some(&all[i]);
        }
        i += 1;
    }
    None
}

/// The ring buffer of a pipeline.
pub fn find_ring<'a>(all: &'a Vec<RingSnapshot>, pipeline_id: &str) -> (r: Option<&'a RingSnapshot>)
    ensures
        held(r) == ring_of(all@, pipeline_id@),
{
    let mut i: usize = 0;
    assert(all@.skip(0) =~= all@);
    while i < all.len()
        invariant
            i <= all@.len(),
            ring_of(all@, pipeline_id@) == ring_of(all@.skip(i as int), pipeline_id@),
        decreases all@.len() - i,
    {
        assert(all@.skip(i as int)[0] == all@[i as int]);
        assert(all@.skip(i as int).skip(1) =~= all@.skip(i + 1));
        if same_text(all[i].pipeline_id.as_str(), pipeline_id) {
            return Some(&all[i]);
        }
        i += 1;
    }
    None
}

/// What the check of the engine reports.
pub open spec fn engine_report(
    pipeline_id: Seq<char>,
    ingest_count: nat,
    egress_count: nat,
    ingest: Option<IngestSnapshot>,
    ring: Option<RingSnapshot>,
    output_count: nat,
) -> Report {
    let head = Report::empty().line("Pipeline ID: "@ + pipeline_id).line(
        "Active ingests (all pipelines): "@ + decimal(ingest_count),
    ).line("Active egresses (all pipelines): "@ + decimal(egress_count));
    ring_status_report(publisher_report(head, ingest), ring).line(
        "Active outputs for this pipeline: "@ + decimal(output_count),
    )
}

fn report_publisher(f: &mut Findings, ingest: Option<&IngestSnapshot>)
    ensures
        final(f)@ == publisher_report(old(f)@, held(ingest)),
{
    match ingest {
        Some(ingest) => {
            f.line("Ingest protocol: ".to_string().concat(ingest.protocol.as_str()));
            f.line("Ingest uptime: ".to_string().concat(ingest.uptime_secs.as_str()).concat("s"));
            f.line(
                "Bytes received: ".to_string().concat(decimal_text(ingest.bytes_received).as_str()),
            );
            if let Some(addr) = &ingest.remote_addr {
                f.line("Publisher remote: ".to_string().concat(addr.as_str()));
            }
        },
        None => {
            f.line("No active ingest for this pipeline.".to_string());
            f.issue("No active publisher is connected to this pipeline.".to_string());
        },
    }
}

fn report_ring_status(f: &mut Findings, ring: Option<&RingSnapshot>)
    requires
        held(ring) matches Some(ring) ==> ring.wf(),
    ensures
        final(f)@ == ring_status_report(old(f)@, held(ring)),
{
    match ring {
        Some(ring) => {
            let pct: u64 = percent_of(ring.fill, ring.capacity);
            f.line(
                "Ring buffer: ".to_string().concat(decimal_text(ring.fill).as_str()).concat(
                    "/",
                ).concat(decimal_text(ring.capacity).as_str()).concat(" slots filled (").concat(
                    decimal_text(pct).as_str(),
                ).concat("%)"),
            );
            if pct > 90 {
                f.issue(
                    "Ring buffer is ".to_string().concat(decimal_text(pct).as_str()).concat(
                        "% full — possible consumer lag or encoder overrun.",
                    ),
                );
            }
            let (lag, overflows, age) = reader_totals(&ring.readers);
            f.line(
                "Ring buffer readers: max lag=".to_string().concat(
                    decimal_text(lag).as_str(),
                ).concat(", total overflows=").concat(decimal_text(overflows).as_str()).concat(
                    ", max packet age=",
                ).concat(age_of(age).as_str()).concat("ms"),
            );
            if overflows > 0 {
                f.issue(
                    "Consumers are dropping frames due to overflow (".to_string().concat(
                        decimal_text(overflows).as_str(),
                    ).concat(" total overflows)."),
                );
            }
        },
        None => {
            f.line("Ring buffer not yet allocated for this pipeline.".to_string());
        },
    }
}

/// The check of the engine: who publishes to the pipeline, how full its buffer is, and how many
/// outputs it feeds, out of all publishers, outputs and ring buffers.
pub fn check_engine_status(
    idx: u32,
    pipeline_id: &str,
    ingests: &Vec<IngestSnapshot>,
    egresses: &Vec<EgressSnapshot>,
    rings: &Vec<RingSnapshot>,
    elapsed_ms: u64,
) -> (r: DiagResult)
    requires
        ring_of(rings@, pipeline_id@) matches Some(ring) ==> ring.wf(),
    ensures
        result_is(
            r,
            idx,
            "Engine Status"@,
            "MediaEngine active state"@,
            "engine.health_snapshot()"@,
            engine_report(
                pipeline_id@,
                ingests@.len(),
                egresses@.len(),
                ingest_of(ingests@, pipeline_id@),
                ring_of(rings@, pipeline_id@),
                fed_by(egresses@, pipeline_id@).len(),
            ),
            elapsed_ms,
        ),
{
    let mut f: Findings = Findings::new();
    f.line("Pipeline ID: ".to_string().concat(pipeline_id));
    f.line(
        "Active ingests (all pipelines): ".to_string().concat(
            decimal_text(ingests.len() as u64).as_str(),
        ),
    );
    f.line(
        "Active egresses (all pipelines): ".to_string().concat(
            decimal_text(egresses.len() as u64).as_str(),
        ),
    );
    report_publisher(&mut f, find_ingest(ingests, pipeline_id));
    report_ring_status(&mut f, find_ring(rings, pipeline_id));
    let outputs: usize = count_outputs(egresses, pipeline_id);
    f.line(
        "Active outputs for this pipeline: ".to_string().concat(
            decimal_text(outputs as u64).as_str(),
        ),
    );
    f.finish(
        idx,
        "Engine Status",
        "MediaEngine active state",
        "engine.health_snapshot()",
        elapsed_ms,
    )
}

// ── Stream info ──────────────────────────────────────────────────────────────

/// The video of a publisher.
#[derive(Debug, Clone)]
pub struct VideoSnapshot {
    pub codec: String,
    pub width: u32,
    pub height: u32,
    /// Frames per second, with two decimals.
    pub fps: String,
    /// The bitrate in Kbps, with one decimal.
    pub bitrate_kbps: Option<String>,
}

/// The audio of a publisher.
#[derive(Debug, Clone)]
pub struct AudioSnapshot {
    pub codec: String,
    pub sample_rate: u32,
    pub channels: u32,
}

/// The media of a publisher, as far as it is known.
#[derive(Debug, Clone)]
pub struct MediaSnapshot {
    pub video: Option<VideoSnapshot>,
    pub audio: Option<AudioSnapshot>,
}

/// What is said of the video.
pub open spec fn video_report(r: Report, video: Option<VideoSnapshot>) -> Report {
    match video {
        Some(video) => {
            let shown = r.line("Video codec: "@ + video.codec@).line(
                "Resolution: "@ + decimal(video.width as nat) + "x"@ + decimal(video.height as nat),
            ).line("Frame rate: "@ + video.fps@ + " fps"@);
            let rated = match video.bitrate_kbps {
                Some(bw) => shown.line("Video bitrate: "@ + bw@ + " Kbps"@),
                None => shown,
            };
            rated.issue_if(
                video.width == 0 || video.height == 0,
                "Video resolution is 0x0 — stream metadata not yet parsed."@,
            )
        },
        None => r.line("No video stream metadata available yet."@).issue(
            "No video stream detected. The publisher may not have sent media yet."@,
        ),
    }
}

/// What is said of the audio.
pub open spec fn audio_report(r: Report, audio: Option<AudioSnapshot>) -> Report {
    match audio {
        Some(audio) => r.line("Audio codec: "@ + audio.codec@).line(
            "Sample rate: "@ + decimal(audio.sample_rate as nat) + " Hz"@,
        ).line("Channels: "@ + decimal(audio.channels as nat)),
        None => r.line("No audio stream metadata available yet."@),
    }
}

/// What the check of the stream reports.
pub open spec fn stream_report(media: Option<MediaSnapshot>) -> Report {
    match media {
        Some(media) => audio_report(video_report(Report::empty(), media.video), media.audio),
        None => Report::empty().line("No active ingest — cannot inspect stream info."@).issue(
            "Pipeline is not actively receiving data."@,
        ),
    }
}

fn report_video(f: &mut Findings, video: &Option<VideoSnapshot>)
    ensures
        final(f)@ == video_report(old(f)@, *video),
{
    match video {
        Some(video) => {
            f.line("Video codec: ".to_string().concat(video.codec.as_str()));
            f.line(
                "Resolution: ".to_string().concat(
                    decimal_text(video.width as u64).as_str(),
                ).concat("x").concat(decimal_text(video.height as u64).as_str()),
            );
            f.line("Frame rate: ".to_string().concat(video.fps.as_str()).concat(" fps"));
            if let Some(bw) = &video.bitrate_kbps {
                f.line("Video bitrate: ".to_string().concat(bw.as_str()).concat(" Kbps"));
            }
            if video.width == 0 || video.height == 0 {
                f.issue("Video resolution is 0x0 — stream metadata not yet parsed.".to_string());
            }
        },
        None => {
            f.line("No video stream metadata available yet.".to_string());
            f.issue(
                "No video stream detected. The publisher may not have sent media yet.".to_string(),
            );
        },
    }
}

fn report_audio(f: &mut Findings, audio: &Option<AudioSnapshot>)
    ensures
        final(f)@ == audio_report(old(f)@, *audio),
{
    match audio {
        Some(audio) => {
            f.line("Audio codec: ".to_string().concat(audio.codec.as_str()));
            f.line(
                "Sample rate: ".to_string().concat(
                    decimal_text(audio.sample_rate as u64).as_str(),
                ).concat(" Hz"),
            );
            f.line("Channels: ".to_string().concat(decimal_text(audio.channels as u64).as_str()));
        },
        None => {
            f.line("No audio stream metadata available yet.".to_string());
        },
    }
}

/// The check of the stream: the codecs and their parameters.
pub fn check_ingest_stream_info(idx: u32, media: &Option<MediaSnapshot>, elapsed_ms: u64) -> (r:
    DiagResult)
    ensures
        result_is(
            r,
            idx,
            "Stream Info"@,
            "Video and audio codec parameters"@,
            "engine.active_ingests.video/audio"@,
            stream_report(*media),
            elapsed_ms,
        ),
{
    let mut f: Findings = Findings::new();
    match media {
        Some(media) => {
            report_video(&mut f, &media.video);
            report_audio(&mut f, &media.audio);
        },
        None => {
            f.line("No active ingest — cannot inspect stream info.".to_string());
            f.issue("Pipeline is not actively receiving data.".to_string());
        },
    }
    f.finish(
        idx,
        "Stream Info",
        "Video and audio codec parameters",
        "engine.active_ingests.video/audio",
        elapsed_ms,
    )
}

// ── Keyframes ────────────────────────────────────────────────────────────────

/// The time from one keyframe to the next, in milliseconds; none where the clock went back.
pub open spec fn interval(times: Seq<i64>, i: int) -> int {
    if times[i + 1] >= times[i] {
        times[i + 1] - times[i]
    } else {
        0
    }
}

/// The intervals between keyframes that were seen at these times, in milliseconds.
pub open spec fn intervals_of(times: Seq<i64>) -> Seq<int> {
    if times.len() < 2 {
        Seq::empty()
    } else {
        Seq::new((times.len() - 1) as nat, |i: int| interval(times, i))
    }
}

/// The smallest of some numbers; 0 where there are none.
pub open spec fn least_of(all: Seq<int>) -> int
    decreases all.len(),
{
    if all.len() == 0 {
        0
    } else if all.len() == 1 || all.last() < least_of(all.drop_last()) {
        all.last()
    } else {
        least_of(all.drop_last())
    }
}

/// The largest of some numbers; 0 where there are none.
pub open spec fn largest_of(all: Seq<int>) -> int
    decreases all.len(),
{
    if all.len() == 0 {
        0
    } else if all.last() > largest_of(all.drop_last()) {
        all.last()
    } else {
        largest_of(all.drop_last())
    }
}

/// Whether the time between neighbours can be computed with.
pub open spec fn intervals_fit(times: Seq<i64>) -> bool {
    forall|i: int|
        0 <= i < times.len() - 1 ==> i64::MIN <= (#[trigger] times[i + 1]) - times[i] <= i64::MAX
}

/// How many intervals there are between keyframes, and the shortest and longest of them, in
/// milliseconds.
#[derive(Debug, Clone, Copy, PartialEq, Eq, Structural)]
pub struct GopIntervals {
    pub count: u64,
    pub least_ms: u64,
    pub largest_ms: u64,
}

/// The intervals between keyframes that were seen at these times, in milliseconds.
pub fn gop_intervals(times: &Vec<i64>) -> (r: GopIntervals)
    requires
        intervals_fit(times@),
    ensures
        r.count == intervals_of(times@).len(),
        r.least_ms == least_of(intervals_of(times@)),
        r.largest_ms == largest_of(intervals_of(times@)),
{
    let ghost all = intervals_of(times@);
    let mut count: u64 = 0;
    let mut least_ms: u64 = 0;
    let mut largest_ms: u64 = 0;
    if times.len() < 2 {
        return GopIntervals { count, least_ms, largest_ms };
    }
    let mut i: usize = 1;
    assert(all.take(0) =~= Seq::<int>::empty());
    while i < times.len()
        invariant
            1 <= i <= times@.len(),
            times@.len() >= 2,
            intervals_fit(times@),
            all == intervals_of(times@),
            count == i - 1,
            least_ms == least_of(all.take(i - 1)),
            largest_ms == largest_of(all.take(i - 1)),
        decreases times@.len() - i,
    {
        assert(times@[(i - 1) + 1] == times@[i as int]);
        let moved: i64 = times[i] - times[i - 1];
        let ms: u64 = if moved >= 0 {
            moved as u64
        } else {
            0
        };
        assert(all[i - 1] == ms);
        assert(all.take(i as int).drop_last() =~= all.take(i - 1));
        assert(all.take(i as int).last() == ms);
        if count == 0 || ms < least_ms {
            least_ms = ms;
        }
        if ms > largest_ms {
            largest_ms = ms;
        }
        count += 1;
        i += 1;
    }
    assert(all.take(i - 1) =~= all);
    GopIntervals { count, least_ms, largest_ms }
}

/// The statistics of the intervals between keyframes, in seconds, as they are written. The shortest
/// and the longest are those of [`gop_intervals`].
#[derive(Debug, Clone)]
pub struct GopStatistics {
    /// With two decimals.
    pub average: Reading,
    /// With two decimals.
    pub min: String,
    /// With two decimals.
    pub max: String,
    /// The standard deviation, with three decimals.
    pub deviation: String,
    /// The standard deviation, with two decimals.
    pub jitter: String,
    /// The standard deviation is more than half a second.
    pub unstable: bool,
}

/// What the check of the keyframes reports, which were seen at these times.
pub open spec fn gop_report(times: Option<Seq<i64>>, statistics: GopStatistics) -> Report {
    match times {
        None => Report::empty().line("No active ingest — cannot analyze GOP."@).issue(
            "Pipeline is not actively receiving data."@,
        ),
        Some(all) => {
            let seen = Report::empty().line("Keyframes observed: "@ + decimal(all.len()));
            if all.len() < 2 {
                seen.line("Not enough keyframes to analyze GOP intervals yet."@)
            } else {
                seen.line("GOP intervals sampled: "@ + decimal(intervals_of(all).len())).line(
                    "Average GOP interval: "@ + statistics.average.text@ + "s"@,
                ).line("Min: "@ + statistics.min@ + "s  Max: "@ + statistics.max@ + "s"@).line(
                    "Std deviation: "@ + statistics.deviation@ + "s"@,
                ).issue_if(
                    statistics.unstable,
                    "Unstable keyframe interval (jitter "@ + statistics.jitter@
                        + "s). Average GOP is "@ + statistics.average.text@
                        + "s. This causes player buffering and adaptive bitrate switching failures."@,
                ).issue_if(
                    statistics.average.above(8),
                    "Keyframe interval is very high ("@ + statistics.average.text@
                        + "s). High intervals make seeking sluggish and increase stream latency."@,
                )
            }
        },
    }
}

/// The check of the keyframes: how regular they are. The statistics count from two keyframes on.
pub fn check_gop_analysis(
    idx: u32,
    times: &Option<Vec<i64>>,
    statistics: &GopStatistics,
    elapsed_ms: u64,
) -> (r: DiagResult)
    ensures
        result_is(
            r,
            idx,
            "GOP Analysis"@,
            "Keyframe interval consistency"@,
            "engine.keyframe_times analysis"@,
            gop_report(
                match *times {
                    Some(all) => Some(all@),
                    None => None,
                },
                *statistics,
            ),
            elapsed_ms,
        ),
{
    let mut f: Findings = Findings::new();
    match times {
        None => {
            f.line("No active ingest — cannot analyze GOP.".to_string());
            f.issue("Pipeline is not actively receiving data.".to_string());
        },
        Some(all) => {
            let n: u64 = all.len() as u64;
            f.line("Keyframes observed: ".to_string().concat(decimal_text(n).as_str()));
            if n < 2 {
                f.line("Not enough keyframes to analyze GOP intervals yet.".to_string());
            } else {
                let average: &str = statistics.average.text.as_str();
                f.line(
                    "GOP intervals sampled: ".to_string().concat(decimal_text(n - 1).as_str()),
                );
                f.line("Average GOP interval: ".to_string().concat(average).concat("s"));
                f.line(
                    "Min: ".to_string().concat(statistics.min.as_str()).concat("s  Max: ").concat(
                        statistics.max.as_str(),
                    ).concat("s"),
                );
                f.line(
                    "Std deviation: ".to_string().concat(statistics.deviation.as_str()).concat("s"),
                );
                if statistics.unstable {
                    f.issue(
                        "Unstable keyframe interval (jitter ".to_string().concat(
                            statistics.jitter.as_str(),
                        ).concat("s). Average GOP is ").concat(average).concat(
                            "s. This causes player buffering and adaptive bitrate switching failures.",
                        ),
                    );
                }
                if statistics.average.ceil > 8 {
                    f.issue(
                        "Keyframe interval is very high (".to_string().concat(average).concat(
                            "s). High intervals make seeking sluggish and increase stream latency.",
                        ),
                    );
                }
            }
        },
    }
    f.finish(
        idx,
        "GOP Analysis",
        "Keyframe interval consistency",
        "engine.keyframe_times analysis",
        elapsed_ms,
    )
}

// ── Ring buffer ──────────────────────────────────────────────────────────────

/// What is said of one reader.
pub open spec fn reader_report(r: Report, reader: ReaderSnapshot, capacity: u64) -> Report {
    r.line(
        "  - "@ + reader.name@ + ": lag="@ + decimal(reader.lag_slots as nat)
            + " slots, overflows="@ + decimal(reader.overflow_count as nat) + ", packet_age="@
            + age_text(reader.packet_age_ms) + "ms"@,
    ).issue_if(
        reader.lag_slots > capacity * 8 / 10,
        "Reader "@ + reader.name@ + " is severely lagging ("@ + decimal(reader.lag_slots as nat)
            + " / "@ + decimal(capacity as nat)
            + " slots). Possible network congestion or performance bottleneck."@,
    ).issue_if(
        reader.overflow_count > 0,
        "Reader "@ + reader.name@ + " has experienced "@ + decimal(reader.overflow_count as nat)
            + " overflow(s). Dropped frames occurred."@,
    )
}

/// What is said of the readers, one after another.
pub open spec fn readers_report(r: Report, readers: Seq<ReaderSnapshot>, capacity: u64) -> Report
    decreases readers.len(),
{
    if readers.len() == 0 {
        r
    } else {
        reader_report(readers_report(r, readers.drop_last(), capacity), readers.last(), capacity)
    }
}

/// What the check of the ring buffer reports.
pub open spec fn ring_report(ring: Option<RingSnapshot>) -> Report {
    match ring {
        None => Report::empty().line("Ring buffer not yet allocated for this pipeline."@).issue(
            "Ring buffer allocation indicates no ingest has started on this pipeline."@,
        ),
        Some(ring) => {
            let pct = percent(ring.fill as int, ring.capacity as int);
            let head = Report::empty().line(
                "Capacity: "@ + decimal(ring.capacity as nat) + " slots"@,
            ).line(
                "Filled: "@ + decimal(ring.fill as nat) + " slots ("@ + decimal(pct as nat) + "%)"@,
            ).line("Compact packet slots: yes"@).line("Frame size: variable (media packets)"@);
            let body = if ring.readers@.len() > 0 {
                readers_report(head.line("Active readers:"@), ring.readers@, ring.capacity)
            } else {
                head.line("Active readers: none"@)
            };
            let warned = body.issue_if(
                pct > 85,
                "Ring buffer is "@ + decimal(pct as nat)
                    + "% full. Egress consumers may be lagging behind ingest. Check output target connectivity and bitrate matching."@,
            );
            if ring.fill == 0 {
                warned.line("Buffer is empty — no media has been received recently."@)
            } else {
                warned
            }
        },
    }
}

fn report_reader(f: &mut Findings, reader: &ReaderSnapshot, capacity: u64)
    requires
        capacity * 8 <= u64::MAX,
    ensures
        final(f)@ == reader_report(old(f)@, *reader, capacity),
{
    let name: &str = reader.name.as_str();
    f.line(
        "  - ".to_string().concat(name).concat(": lag=").concat(
            decimal_text(reader.lag_slots).as_str(),
        ).concat(" slots, overflows=").concat(decimal_text(reader.overflow_count).as_str()).concat(
            ", packet_age=",
        ).concat(age_of(reader.packet_age_ms).as_str()).concat("ms"),
    );
    if reader.lag_slots > capacity * 8 / 10 {
        f.issue(
            "Reader ".to_string().concat(name).concat(" is severely lagging (").concat(
                decimal_text(reader.lag_slots).as_str(),
            ).concat(" / ").concat(decimal_text(capacity).as_str()).concat(
                " slots). Possible network congestion or performance bottleneck.",
            ),
        );
    }
    if reader.overflow_count > 0 {
        f.issue(
            "Reader ".to_string().concat(name).concat(" has experienced ").concat(
                decimal_text(reader.overflow_count).as_str(),
            ).concat(" overflow(s). Dropped frames occurred."),
        );
    }
}

fn report_readers(f: &mut Findings, readers: &Vec<ReaderSnapshot>, capacity: u64)
    requires
        capacity * 8 <= u64::MAX,
    ensures
        final(f)@ == readers_report(old(f)@, readers@, capacity),
{
    let ghost before = f@;
    let mut i: usize = 0;
    assert(readers@.take(0) =~= Seq::<ReaderSnapshot>::empty());
    while i < readers.len()
        invariant
            i <= readers@.len(),
            capacity * 8 <= u64::MAX,
            f@ == readers_report(before, readers@.take(i as int), capacity),
        decreases readers@.len() - i,
    {
        assert(readers@.take(i + 1).drop_last() =~= readers@.take(i as int));
        report_reader(f, &readers[i], capacity);
        i += 1;
    }
    assert(readers@.take(readers@.len() as int) =~= readers@);
}

/// The check of the ring buffer: how full it is, and how far its readers are behind.
pub fn check_ring_buffer_health(idx: u32, ring: &Option<RingSnapshot>, elapsed_ms: u64) -> (r:
    DiagResult)
    requires
        *ring matches Some(ring) ==> ring.wf(),
    ensures
        result_is(
            r,
            idx,
            "Ring Buffer Health"@,
            "In-process media ring buffer state"@,
            "RingBuffer::fill_and_capacity()"@,
            ring_report(*ring),
            elapsed_ms,
        ),
{
    let mut f: Findings = Findings::new();
    match ring {
        Some(ring) => {
            let pct: u64 = percent_of(ring.fill, ring.capacity);
            f.line(
                "Capacity: ".to_string().concat(decimal_text(ring.capacity).as_str()).concat(
                    " slots",
                ),
            );
            f.line(
                "Filled: ".to_string().concat(decimal_text(ring.fill).as_str()).concat(
                    " slots (",
                ).concat(decimal_text(pct).as_str()).concat("%)"),
            );
            f.line("Compact packet slots: yes".to_string());
            f.line("Frame size: variable (media packets)".to_string());
            if !ring.readers.is_empty() {
                f.line("Active readers:".to_string());
                report_readers(&mut f, &ring.readers, ring.capacity);
            } else {
                f.line("Active readers: none".to_string());
            }
            if pct > 85 {
                f.issue(
                    "Ring buffer is ".to_string().concat(decimal_text(pct).as_str()).concat(
                        "% full. Egress consumers may be lagging behind ingest. Check output target connectivity and bitrate matching.",
                    ),
                );
            }
            if ring.fill == 0 {
                f.line("Buffer is empty — no media has been received recently.".to_string());
            }
        },
        None => {
            f.line("Ring buffer not yet allocated for this pipeline.".to_string());
            f.issue(
                "Ring buffer allocation indicates no ingest has started on this pipeline."
                    .to_string(),
            );
        },
    }
    f.finish(
        idx,
        "Ring Buffer Health",
        "In-process media ring buffer state",
        "RingBuffer::fill_and_capacity()",
        elapsed_ms,
    )
}

// ── Laws ─────────────────────────────────────────────────────────────────────

/// The lag that is shown is that of some reader, and no reader is further behind.
pub proof fn max_lag_bounds_every_reader(readers: Seq<ReaderSnapshot>)
    ensures
        forall|i: int|
            0 <= i < readers.len() ==> (#[trigger] readers[i]).lag_slots <= max_lag(readers),
        readers.len() > 0 ==> exists|i: int|
            0 <= i < readers.len() && (#[trigger] readers[i]).lag_slots == max_lag(readers),
    decreases readers.len(),
{
    if readers.len() > 0 {
        let front = readers.drop_last();
        max_lag_bounds_every_reader(front);
        assert forall|i: int| 0 <= i < readers.len() implies (#[trigger] readers[i]).lag_slots
            <= max_lag(readers) by {
            if i < front.len() {
                assert(front[i] == readers[i]);
            }
        }
        if max_lag(front) >= readers.last().lag_slots && front.len() > 0 {
            let i = choose|i: int|
                0 <= i < front.len() && (#[trigger] front[i]).lag_slots == max_lag(front);
            assert(readers[i].lag_slots == max_lag(readers));
        } else {
            assert(readers[readers.len() - 1].lag_slots == max_lag(readers));
        }
    }
}

/// A pipeline without a publisher always raises an issue.
pub proof fn missing_publisher_is_an_issue(statistics: GopStatistics)
    ensures
        publisher_report(Report::empty(), None).issues.len() == 1,
        stream_report(None).issues.len() == 1,
        gop_report(None, statistics).issues.len() == 1,
{
}

/// No interval is shorter than the shortest or longer than the longest, and both are intervals.
pub proof fn intervals_lie_between_least_and_largest(all: Seq<int>)
    requires
        forall|i: int| 0 <= i < all.len() ==> (#[trigger] all[i]) >= 0,
    ensures
        forall|i: int|
            0 <= i < all.len() ==> least_of(all) <= (#[trigger] all[i]) <= largest_of(all),
        all.len() > 0 ==> all.contains(least_of(all)) && all.contains(largest_of(all)),
    decreases all.len(),
{
    if all.len() > 0 {
        let front = all.drop_last();
        intervals_lie_between_least_and_largest(front);
        assert forall|i: int| 0 <= i < all.len() implies least_of(all) <= (#[trigger] all[i])
            <= largest_of(all) by {
            if i < front.len() {
                assert(front[i] == all[i]);
            }
        }
        assert(all[all.len() - 1] == all.last());
        if front.len() > 0 {
            let i = front.index_of(least_of(front));
            let k = front.index_of(largest_of(front));
            assert(all[i] == least_of(front) && all[k] == largest_of(front));
        } else {
            assert(largest_of(front) == 0);
        }
    }
}

/// The state of a ring buffer raises an issue above 90 percent, and where any reader was overtaken;
/// a pipeline without a publisher raises one too.
pub proof fn engine_issues_follow_the_thresholds(
    pipeline_id: Seq<char>,
    ingest_count: nat,
    egress_count: nat,
    ingest: Option<IngestSnapshot>,
    ring: Option<RingSnapshot>,
    output_count: nat,
)
    ensures
        ({
            let pct = percent(ring->0.fill as int, ring->0.capacity as int);
            let overflows = total_overflows(ring->0.readers@);
            engine_report(
                pipeline_id,
                ingest_count,
                egress_count,
                ingest,
                ring,
                output_count,
            ).issues == where_so(
                ingest is None,
                "No active publisher is connected to this pipeline."@,
            ) + where_so(
                ring is Some && pct >= 91,
                "Ring buffer is "@ + decimal(pct as nat)
                    + "% full — possible consumer lag or encoder overrun."@,
            ) + where_so(
                ring is Some && overflows >= 1,
                "Consumers are dropping frames due to overflow ("@ + decimal(overflows as nat)
                    + " total overflows)."@,
            )
        }),
        engine_report(
            pipeline_id,
            ingest_count,
            egress_count,
            ingest,
            ring,
            output_count,
        ).lines.last() == "Active outputs for this pipeline: "@ + decimal(output_count),
{
    let pct = percent(ring->0.fill as int, ring->0.capacity as int);
    let overflows = total_overflows(ring->0.readers@);
    let all = where_so(ingest is None, "No active publisher is connected to this pipeline."@)
        + where_so(
        ring is Some && pct >= 91,
        "Ring buffer is "@ + decimal(pct as nat)
            + "% full — possible consumer lag or encoder overrun."@,
    ) + where_so(
        ring is Some && overflows >= 1,
        "Consumers are dropping frames due to overflow ("@ + decimal(overflows as nat)
            + " total overflows)."@,
    );
    assert(engine_report(
        pipeline_id,
        ingest_count,
        egress_count,
        ingest,
        ring,
        output_count,
    ).issues =~= all);
}

/// The publisher of a pipeline is the first one that has its id, and there is none only where none
/// has it; so it is with the ring buffer.
pub proof fn found_by_the_pipeline(
    ingests: Seq<IngestSnapshot>,
    rings: Seq<RingSnapshot>,
    pipeline: Seq<char>,
)
    ensures
        match ingest_of(ingests, pipeline) {
            Some(found) => found.pipeline_id@ == pipeline && ingests.contains(found),
            None => forall|i: int|
                0 <= i < ingests.len() ==> (#[trigger] ingests[i]).pipeline_id@ != pipeline,
        },
        match ring_of(rings, pipeline) {
            Some(found) => found.pipeline_id@ == pipeline && rings.contains(found),
            None => forall|i: int|
                0 <= i < rings.len() ==> (#[trigger] rings[i]).pipeline_id@ != pipeline,
        },
    decreases ingests.len() + rings.len(),
{
    if ingests.len() > 0 {
        let rest = ingests.skip(1);
        found_by_the_pipeline(rest, rings, pipeline);
        assert(ingests.contains(ingests[0]));
        if ingests[0].pipeline_id@ != pipeline {
            match ingest_of(rest, pipeline) {
                Some(found) => {
                    let k = rest.index_of(found);
                    assert(ingests[k + 1] == found);
                },
                None => {
                    assert forall|i: int| 0 <= i < ingests.len() implies (
                    #[trigger] ingests[i]).pipeline_id@ != pipeline by {
                        if i > 0 {
                            assert(rest[i - 1] == ingests[i]);
                        }
                    }
                },
            }
        }
    } else if rings.len() > 0 {
        let rest = rings.skip(1);
        found_by_the_pipeline(ingests, rest, pipeline);
        assert(rings.contains(rings[0]));
        if rings[0].pipeline_id@ != pipeline {
            match ring_of(rest, pipeline) {
                Some(found) => {
                    let k = rest.index_of(found);
                    assert(rings[k + 1] == found);
                },
                None => {
                    assert forall|i: int| 0 <= i < rings.len() implies (
                    #[trigger] rings[i]).pipeline_id@ != pipeline by {
                        if i > 0 {
                            assert(rest[i - 1] == rings[i]);
                        }
                    }
                },
            }
        }
    }
}

/// The stream raises an issue where there is no publisher, no video, or a picture without width or
/// height; what is missing of the audio is shown, and no issue.
pub proof fn stream_issues_follow_what_is_known(media: MediaSnapshot)
    ensures
        stream_report(Some(media)).issues == where_so(
            media.video is None,
            "No video stream detected. The publisher may not have sent media yet."@,
        ) + where_so(
            media.video is Some && (media.video->0.width == 0 || media.video->0.height == 0),
            "Video resolution is 0x0 — stream metadata not yet parsed."@,
        ),
        media.video is Some ==> stream_report(Some(media)).lines[0] == "Video codec: "@
            + media.video->0.codec@ && stream_report(Some(media)).lines[1] == "Resolution: "@
            + decimal(media.video->0.width as nat) + "x"@ + decimal(
            media.video->0.height as nat,
        ),
        media.audio is Some ==> stream_report(Some(media)).lines.last() == "Channels: "@ + decimal(
            media.audio->0.channels as nat,
        ),
{
    let all = where_so(
        media.video is None,
        "No video stream detected. The publisher may not have sent media yet."@,
    ) + where_so(
        media.video is Some && (media.video->0.width == 0 || media.video->0.height == 0),
        "Video resolution is 0x0 — stream metadata not yet parsed."@,
    );
    assert(stream_report(Some(media)).issues =~= all);
}

/// An interval is the time from one keyframe to the next, and none where the clock went back; there
/// is one fewer of them than there are keyframes.
pub proof fn intervals_are_between_neighbours(times: Seq<i64>, i: int)
    requires
        0 <= i < times.len() - 1,
    ensures
        intervals_of(times).len() == times.len() - 1,
        times[i] <= times[i + 1] ==> intervals_of(times)[i] == times[i + 1] - times[i],
        times[i] > times[i + 1] ==> intervals_of(times)[i] == 0,
{
}

/// The keyframes raise an issue where they are irregular, and where they are more than eight seconds
/// apart, once there are two of them.
pub proof fn keyframe_issues_follow_the_thresholds(times: Seq<i64>, s: GopStatistics)
    ensures
        gop_report(Some(times), s).issues == where_so(
            times.len() >= 2 && s.unstable,
            "Unstable keyframe interval (jitter "@ + s.jitter@ + "s). Average GOP is "@
                + s.average.text@
                + "s. This causes player buffering and adaptive bitrate switching failures."@,
        ) + where_so(
            times.len() >= 2 && s.average.ceil > 8,
            "Keyframe interval is very high ("@ + s.average.text@
                + "s). High intervals make seeking sluggish and increase stream latency."@,
        ),
        gop_report(Some(times), s).lines[0] == "Keyframes observed: "@ + decimal(times.len()),
{
    let all = where_so(
        times.len() >= 2 && s.unstable,
        "Unstable keyframe interval (jitter "@ + s.jitter@ + "s). Average GOP is "@
            + s.average.text@
            + "s. This causes player buffering and adaptive bitrate switching failures."@,
    ) + where_so(
        times.len() >= 2 && s.average.ceil > 8,
        "Keyframe interval is very high ("@ + s.average.text@
            + "s). High intervals make seeking sluggish and increase stream latency."@,
    );
    assert(gop_report(Some(times), s).issues =~= all);
}

/// A reader raises an issue where it is behind by more than eight tenths of the buffer, and where it
/// was overtaken.
pub proof fn reader_issues_follow_the_thresholds(r: Report, reader: ReaderSnapshot, capacity: u64)
    ensures
        reader_report(r, reader, capacity).issues == r.issues + where_so(
            reader.lag_slots > capacity * 8 / 10,
            "Reader "@ + reader.name@ + " is severely lagging ("@ + decimal(
                reader.lag_slots as nat,
            ) + " / "@ + decimal(capacity as nat)
                + " slots). Possible network congestion or performance bottleneck."@,
        ) + where_so(
            reader.overflow_count >= 1,
            "Reader "@ + reader.name@ + " has experienced "@ + decimal(
                reader.overflow_count as nat,
            ) + " overflow(s). Dropped frames occurred."@,
        ),
{
    let all = r.issues + where_so(
        reader.lag_slots > capacity * 8 / 10,
        "Reader "@ + reader.name@ + " is severely lagging ("@ + decimal(reader.lag_slots as nat)
            + " / "@ + decimal(capacity as nat)
            + " slots). Possible network congestion or performance bottleneck."@,
    ) + where_so(
        reader.overflow_count >= 1,
        "Reader "@ + reader.name@ + " has experienced "@ + decimal(reader.overflow_count as nat)
            + " overflow(s). Dropped frames occurred."@,
    );
    assert(reader_report(r, reader, capacity).issues =~= all);
}

/// A ring buffer raises an issue where it was not allocated, and above 85 percent.
pub proof fn ring_issues_follow_the_thresholds(ring: RingSnapshot)
    requires
        ring.readers@.len() == 0,
    ensures
        ({
            let pct = percent(ring.fill as int, ring.capacity as int);
            ring_report(Some(ring)).issues == where_so(
                pct >= 86,
                "Ring buffer is "@ + decimal(pct as nat)
                    + "% full. Egress consumers may be lagging behind ingest. Check output target connectivity and bitrate matching."@,
            )
        }),
        ring_report(None).issues.len() == 1,
{
    let pct = percent(ring.fill as int, ring.capacity as int);
    let all = where_so(
        pct >= 86,
        "Ring buffer is "@ + decimal(pct as nat)
            + "% full. Egress consumers may be lagging behind ingest. Check output target connectivity and bitrate matching."@,
    );
    assert(ring_report(Some(ring)).issues =~= all);
}

/// Each reader of a ring buffer is judged, one after another, before the buffer itself.
pub proof fn every_reader_is_judged(r: Report, readers: Seq<ReaderSnapshot>, reader: ReaderSnapshot, capacity: u64)
    ensures
        readers_report(r, readers.push(reader), capacity) == reader_report(
            readers_report(r, readers, capacity),
            reader,
            capacity,
        ),
        total_overflows(readers.push(reader)) == total_overflows(readers) + reader.overflow_count,
        match (max_age(readers), reader.packet_age_ms) {
            (Some(a), Some(b)) => max_age(readers.push(reader)) == Some(
                if a >= b {
                    a
                } else {
                    b
                },
            ),
            (Some(a), None) => max_age(readers.push(reader)) == Some(a),
            (None, b) => max_age(readers.push(reader)) == b,
        },
{
    assert(readers.push(reader).drop_last() =~= readers);
}

} // verus!
