//! Measurements: what samples of the server add up to, and how they are written down.

use std::collections::HashMap;

use vstd::prelude::*;
use vstd::string::*;

use crate::harness::status::inner;
use crate::harness::sweep::{
    branch_shape_label, branch_shape_rank, shape_of, ResourceSweepLifecycle, ScenarioMeta,
    SweepConfig,
};
use crate::harness::waits::{count_in, count_of, flag_text, flag_word};
use crate::json::Json;
use crate::number::{decimal, decimal_text};
use crate::text::{chars_of, join, joined, same_text, texts};

verus! {

// ── What the telemetry says of memory ────────────────────────────────────────

/// The list of a field; empty where there is none.
pub open spec fn list_or_empty(value: Json, name: Seq<char>) -> Seq<Json> {
    match value.list_field(name) {
        Some(items) => items,
        None => Seq::empty(),
    }
}

/// How many bytes the payload of a ring holds.
pub open spec fn payload_of(ring: Json) -> u64 {
    count_in(ring.field_or_null("payloadStats"@), "payloadBytes"@)
}

/// How many bytes the payloads of rings hold.
pub open spec fn payload_sum(rings: Seq<Json>) -> int
    decreases rings.len(),
{
    if rings.len() == 0 {
        0
    } else {
        payload_sum(rings.drop_last()) + payload_of(rings.last())
    }
}

/// The sum of a number over items.
pub open spec fn field_sum(items: Seq<Json>, name: Seq<char>) -> int
    decreases items.len(),
{
    if items.len() == 0 {
        0
    } else {
        field_sum(items.drop_last(), name) + count_in(items.last(), name)
    }
}

proof fn lemma_payload_grows(rings: Seq<Json>, k: int)
    requires
        0 <= k <= rings.len(),
    ensures
        0 <= payload_sum(rings.take(k)) <= payload_sum(rings),
    decreases rings.len(),
{
    if rings.len() == 0 {
        assert(rings.take(k) =~= rings);
    } else if k < rings.len() {
        lemma_payload_grows(rings.drop_last(), k);
        assert(rings.drop_last().take(k) =~= rings.take(k));
    } else {
        lemma_payload_grows(rings.drop_last(), k - 1);
        assert(rings.take(k) =~= rings);
    }
}

proof fn lemma_field_sum_grows(items: Seq<Json>, name: Seq<char>, k: int)
    requires
        0 <= k <= items.len(),
    ensures
        0 <= field_sum(items.take(k), name) <= field_sum(items, name),
    decreases items.len(),
{
    if items.len() == 0 {
        assert(items.take(k) =~= items);
    } else if k < items.len() {
        lemma_field_sum_grows(items.drop_last(), name, k);
        assert(items.drop_last().take(k) =~= items.take(k));
    } else {
        lemma_field_sum_grows(items.drop_last(), name, k - 1);
        assert(items.take(k) =~= items);
    }
}

fn sum_payloads(value: &Json, name: &str) -> (r: u64)
    requires
        payload_sum(list_or_empty(*value, name@)) <= u64::MAX,
    ensures
        r == payload_sum(list_or_empty(*value, name@)),
{
    match value.get_list(name) {
        None => 0,
        Some(rings) => {
            let null: Json = Json::Null;
            let mut sum: u64 = 0;
            let mut i: usize = 0;
            assert(rings@.take(0) =~= Seq::<Json>::empty());
            while i < rings.len()
                invariant
                    i <= rings@.len(),
                    null == Json::Null,
                    payload_sum(rings@) <= u64::MAX,
                    sum == payload_sum(rings@.take(i as int)),
                decreases rings@.len() - i,
            {
                assert(rings@.take(i + 1).drop_last() =~= rings@.take(i as int));
                proof {
                    lemma_payload_grows(rings@, i + 1);
                }
                sum = sum + count_of(inner(&rings[i], "payloadStats", &null), "payloadBytes");
                i += 1;
            }
            assert(rings@.take(rings@.len() as int) =~= rings@);
            sum
        },
    }
}

fn sum_field(value: &Json, list: &str, name: &str) -> (r: u64)
    requires
        field_sum(list_or_empty(*value, list@), name@) <= u64::MAX,
    ensures
        r == field_sum(list_or_empty(*value, list@), name@),
{
    match value.get_list(list) {
        None => 0,
        Some(items) => {
            let mut sum: u64 = 0;
            let mut i: usize = 0;
            assert(items@.take(0) =~= Seq::<Json>::empty());
            while i < items.len()
                invariant
                    i <= items@.len(),
                    field_sum(items@, name@) <= u64::MAX,
                    sum == field_sum(items@.take(i as int), name@),
                decreases items@.len() - i,
            {
                assert(items@.take(i + 1).drop_last() =~= items@.take(i as int));
                proof {
                    lemma_field_sum_grows(items@, name@, i + 1);
                }
                sum = sum + count_of(&items[i], name);
                i += 1;
            }
            assert(items@.take(items@.len() as int) =~= items@);
            sum
        },
    }
}

/// Where the server says that its memory is, in kilobytes.
#[derive(Debug, Clone, Copy, PartialEq, Eq, Structural)]
pub struct MemoryAccounting {
    pub retained_kb: u64,
    pub source_ring_kb: u64,
    pub transcoder_ring_kb: u64,
    pub tsmux_ring_kb: u64,
    pub avio_len_kb: u64,
    pub avio_hwm_kb: u64,
}

/// The marks that queues have risen to, in bytes.
pub open spec fn high_water(avio: Json) -> int {
    field_sum(list_or_empty(avio, "inputQueues"@), "highWaterBytes"@) + field_sum(
        list_or_empty(avio, "egressQueues"@),
        "highWaterBytes"@,
    )
}

/// Whether the numbers of an account add up to 64-bit numbers.
pub open spec fn sums_fit(accounting: Json) -> bool {
    &&& payload_sum(list_or_empty(accounting, "sourceRings"@)) <= u64::MAX
    &&& payload_sum(list_or_empty(accounting, "transcoderRings"@)) <= u64::MAX
    &&& payload_sum(list_or_empty(accounting, "tsMuxerRings"@)) <= u64::MAX
    &&& high_water(accounting.field_or_null("avioQueues"@)) <= u64::MAX
}

/// Whether an account is the one in the telemetry.
pub open spec fn is_account(a: MemoryAccounting, telemetry: Json) -> bool {
    let accounting = telemetry.field_or_null("memoryAccounting"@);
    let avio = accounting.field_or_null("avioQueues"@);
    &&& a.retained_kb == count_in(accounting, "retainedPayloadBytes"@) as int / 1024
    &&& a.source_ring_kb == payload_sum(list_or_empty(accounting, "sourceRings"@)) / 1024
    &&& a.transcoder_ring_kb == payload_sum(list_or_empty(accounting, "transcoderRings"@)) / 1024
    &&& a.tsmux_ring_kb == payload_sum(list_or_empty(accounting, "tsMuxerRings"@)) / 1024
    &&& a.avio_len_kb == count_in(avio, "totalLenBytes"@) as int / 1024
    &&& a.avio_hwm_kb == high_water(avio) / 1024
}

/// Reads the account of memory in the telemetry.
pub fn read_accounting(telemetry: &Json) -> (r: MemoryAccounting)
    requires
        sums_fit(telemetry.field_or_null("memoryAccounting"@)),
    ensures
        is_account(r, *telemetry),
{
    let null: Json = Json::Null;
    let accounting: &Json = inner(telemetry, "memoryAccounting", &null);
    let avio: &Json = inner(accounting, "avioQueues", &null);
    proof {
        let inputs = list_or_empty(*avio, "inputQueues"@);
        let outputs = list_or_empty(*avio, "egressQueues"@);
        lemma_field_sum_grows(inputs, "highWaterBytes"@, 0);
        lemma_field_sum_grows(outputs, "highWaterBytes"@, 0);
    }
    let high: u64 = sum_field(avio, "inputQueues", "highWaterBytes") + sum_field(
        avio,
        "egressQueues",
        "highWaterBytes",
    );
    MemoryAccounting {
        retained_kb: count_of(accounting, "retainedPayloadBytes") / 1024,
        source_ring_kb: sum_payloads(accounting, "sourceRings") / 1024,
        transcoder_ring_kb: sum_payloads(accounting, "transcoderRings") / 1024,
        tsmux_ring_kb: sum_payloads(accounting, "tsMuxerRings") / 1024,
        avio_len_kb: count_of(avio, "totalLenBytes") / 1024,
        avio_hwm_kb: high / 1024,
    }
}

/// How often the readers of a pipeline's source fell behind.
pub open spec fn overflows_of(telemetry: Json) -> int {
    field_sum(
        list_or_empty(telemetry.field_or_null("sourceRing"@), "readers"@),
        "overflowCount"@,
    )
}

/// How often the readers of a pipeline's source fell behind.
pub fn overflow_count(telemetry: &Json) -> (r: u64)
    requires
        overflows_of(*telemetry) <= u64::MAX,
    ensures
        r == overflows_of(*telemetry),
{
    let null: Json = Json::Null;
    sum_field(inner(telemetry, "sourceRing", &null), "readers", "overflowCount")
}

/// How many items a list of the telemetry has.
pub fn list_length(telemetry: &Json, name: &str) -> (r: usize)
    ensures
        r == list_or_empty(*telemetry, name@).len(),
{
    match telemetry.get_list(name) {
        Some(items) => items.len(),
        None => 0,
    }
}

/// What of the server's memory nothing accounts for.
pub fn unattributed(rss_kb: u64, retained_kb: u64, avio_len_kb: u64) -> (r: u64)
    requires
        retained_kb + avio_len_kb <= u64::MAX,
    ensures
        r == if rss_kb >= retained_kb + avio_len_kb {
            rss_kb - (retained_kb + avio_len_kb)
        } else {
            0
        },
{
    let known: u64 = retained_kb + avio_len_kb;
    if rss_kb >= known {
        rss_kb - known
    } else {
        0
    }
}

// ── Clock ticks ──────────────────────────────────────────────────────────────

/// How far a clock went on; a clock that was set back went nowhere.
pub open spec fn ticked(before: u64, now: u64) -> int {
    if now >= before {
        now - before
    } else {
        0
    }
}

/// How far a clock went on.
pub fn ticks_between(before: u64, now: u64) -> (r: u64)
    ensures
        r == ticked(before, now),
{
    if now >= before {
        now - before
    } else {
        0
    }
}

/// A process and its clock; none where it could not be read.
#[derive(Debug, Clone, Copy, PartialEq, Eq)]
pub struct ProcessClock {
    pub pid: u32,
    pub ticks: Option<u64>,
}

/// How far the clocks of processes went on together; a process that is new counts from now.
pub open spec fn ticked_together(before: Map<u32, u64>, now: Seq<ProcessClock>) -> int
    decreases now.len(),
{
    if now.len() == 0 {
        0
    } else {
        ticked_together(before, now.drop_last()) + match now.last().ticks {
            Some(t) => if before.contains_key(now.last().pid) {
                ticked(before[now.last().pid], t)
            } else {
                0
            },
            None => 0,
        }
    }
}

/// The clocks that could be read.
pub open spec fn clocks_of(now: Seq<ProcessClock>) -> Map<u32, u64>
    decreases now.len(),
{
    if now.len() == 0 {
        Map::empty()
    } else {
        match now.last().ticks {
            Some(t) => clocks_of(now.drop_last()).insert(now.last().pid, t),
            None => clocks_of(now.drop_last()),
        }
    }
}

proof fn lemma_ticks_grow(before: Map<u32, u64>, now: Seq<ProcessClock>, k: int)
    requires
        0 <= k <= now.len(),
    ensures
        0 <= ticked_together(before, now.take(k)) <= ticked_together(before, now),
    decreases now.len(),
{
    if now.len() == 0 {
        assert(now.take(k) =~= now);
    } else if k < now.len() {
        lemma_ticks_grow(before, now.drop_last(), k);
        assert(now.drop_last().take(k) =~= now.take(k));
    } else {
        lemma_ticks_grow(before, now.drop_last(), k - 1);
        assert(now.take(k) =~= now);
    }
}

/// How far the clocks went on together since the last look, and where they stand now.
pub fn advance_clocks(before: &HashMap<u32, u64>, now: &Vec<ProcessClock>) -> (r: (
    u64,
    HashMap<u32, u64>,
))
    requires
        ticked_together(before@, now@) <= u64::MAX,
    ensures
        r.0 == ticked_together(before@, now@),
        r.1@ == clocks_of(now@),
{
    broadcast use vstd::std_specs::hash::group_hash_axioms;

    let mut delta: u64 = 0;
    let mut clocks: HashMap<u32, u64> = HashMap::new();
    let mut i: usize = 0;
    assert(now@.take(0) =~= Seq::<ProcessClock>::empty());
    while i < now.len()
        invariant
            i <= now@.len(),
            ticked_together(before@, now@) <= u64::MAX,
            delta == ticked_together(before@, now@.take(i as int)),
            clocks@ == clocks_of(now@.take(i as int)),
        decreases now@.len() - i,
    {
        assert(now@.take(i + 1).drop_last() =~= now@.take(i as int));
        proof {
            lemma_ticks_grow(before@, now@, i + 1);
        }
        let clock: ProcessClock = now[i];
        if let Some(t) = clock.ticks {
            let earlier: u64 = match before.get(&clock.pid) {
                Some(e) => *e,
                None => t,
            };
            delta = delta + ticks_between(earlier, t);
            clocks.insert(clock.pid, t);
        }
        i += 1;
    }
    assert(now@.take(now@.len() as int) =~= now@);
    (delta, clocks)
}

// ── Peaks ────────────────────────────────────────────────────────────────────

/// The largest of numbers; zero where there are none.
pub open spec fn peak(values: Seq<u64>) -> u64
    decreases values.len(),
{
    if values.len() == 0 {
        0
    } else if values.last() >= peak(values.drop_last()) {
        values.last()
    } else {
        peak(values.drop_last())
    }
}

/// The smallest of numbers, of which there is one.
pub open spec fn least(values: Seq<u64>) -> u64
    decreases values.len(),
{
    if values.len() <= 1 {
        values.last()
    } else if values.last() < least(values.drop_last()) {
        values.last()
    } else {
        least(values.drop_last())
    }
}

fn larger(a: u64, b: u64) -> (r: u64)
    ensures
        r == if b >= a {
            b
        } else {
            a
        },
{
    if b >= a {
        b
    } else {
        a
    }
}

proof fn peak_push(values: Seq<u64>, v: u64)
    ensures
        peak(values.push(v)) == if v >= peak(values) {
            v
        } else {
            peak(values)
        },
{
    assert(values.push(v).drop_last() =~= values);
}

/// What one look at the server and its children told.
#[derive(Debug, Clone, Copy, PartialEq, Eq, Structural)]
pub struct ResourceSample {
    pub rss_kb: u64,
    pub ffmpeg_count: u64,
    pub ffmpeg_rss_kb: u64,
    pub retained_kb: u64,
    pub source_ring_kb: u64,
    pub transcoder_ring_kb: u64,
    pub tsmux_ring_kb: u64,
    pub avio_len_kb: u64,
    pub avio_hwm_kb: u64,
    pub anonymous_kb: u64,
    pub private_dirty_kb: u64,
    pub private_clean_kb: u64,
    pub shared_clean_kb: u64,
    pub shared_dirty_kb: u64,
    pub pss_kb: u64,
    pub swap_kb: u64,
    pub unattributed_kb: u64,
    pub active_transcoder_buffers: u64,
    pub ingests: u64,
    pub egresses: u64,
    pub stages: u64,
    pub pipeline_count: u64,
}

/// The largest of each that was seen.
#[derive(Debug, Clone, Copy, PartialEq, Eq, Structural)]
pub struct ResourcePeaks {
    pub rss_kb: u64,
    pub ffmpeg_rss_kb: u64,
    pub retained_kb: u64,
    pub source_ring_kb: u64,
    pub transcoder_ring_kb: u64,
    pub tsmux_ring_kb: u64,
    pub avio_len_kb: u64,
    pub avio_hwm_kb: u64,
    pub anonymous_kb: u64,
    pub private_dirty_kb: u64,
    pub shared_clean_kb: u64,
    pub pss_kb: u64,
    pub unattributed_kb: u64,
    pub active_transcoder_buffers: u64,
    pub ingests: u64,
    pub egresses: u64,
    pub stages: u64,
    pub pipeline_count: u64,
}

/// Whether these are the peaks of the samples.
pub open spec fn resource_peaks_of(samples: Seq<ResourceSample>, p: ResourcePeaks) -> bool {
    &&& p.rss_kb == peak(samples.map_values(|s: ResourceSample| s.rss_kb))
    &&& p.ffmpeg_rss_kb == peak(samples.map_values(|s: ResourceSample| s.ffmpeg_rss_kb))
    &&& p.retained_kb == peak(samples.map_values(|s: ResourceSample| s.retained_kb))
    &&& p.source_ring_kb == peak(samples.map_values(|s: ResourceSample| s.source_ring_kb))
    &&& p.transcoder_ring_kb == peak(samples.map_values(|s: ResourceSample| s.transcoder_ring_kb))
    &&& p.tsmux_ring_kb == peak(samples.map_values(|s: ResourceSample| s.tsmux_ring_kb))
    &&& p.avio_len_kb == peak(samples.map_values(|s: ResourceSample| s.avio_len_kb))
    &&& p.avio_hwm_kb == peak(samples.map_values(|s: ResourceSample| s.avio_hwm_kb))
    &&& p.anonymous_kb == peak(samples.map_values(|s: ResourceSample| s.anonymous_kb))
    &&& p.private_dirty_kb == peak(samples.map_values(|s: ResourceSample| s.private_dirty_kb))
    &&& p.shared_clean_kb == peak(samples.map_values(|s: ResourceSample| s.shared_clean_kb))
    &&& p.pss_kb == peak(samples.map_values(|s: ResourceSample| s.pss_kb))
    &&& p.unattributed_kb == peak(samples.map_values(|s: ResourceSample| s.unattributed_kb))
    &&& p.active_transcoder_buffers == peak(samples.map_values(|s: ResourceSample| s.active_transcoder_buffers))
    &&& p.ingests == peak(samples.map_values(|s: ResourceSample| s.ingests))
    &&& p.egresses == peak(samples.map_values(|s: ResourceSample| s.egresses))
    &&& p.stages == peak(samples.map_values(|s: ResourceSample| s.stages))
    &&& p.pipeline_count == peak(samples.map_values(|s: ResourceSample| s.pipeline_count))
}

fn resource_peaks(samples: &Vec<ResourceSample>) -> (r: ResourcePeaks)
    ensures
        resource_peaks_of(samples@, r),
{
    let mut p: ResourcePeaks = ResourcePeaks {
        rss_kb: 0,
        ffmpeg_rss_kb: 0,
        retained_kb: 0,
        source_ring_kb: 0,
        transcoder_ring_kb: 0,
        tsmux_ring_kb: 0,
        avio_len_kb: 0,
        avio_hwm_kb: 0,
        anonymous_kb: 0,
        private_dirty_kb: 0,
        shared_clean_kb: 0,
        pss_kb: 0,
        unattributed_kb: 0,
        active_transcoder_buffers: 0,
        ingests: 0,
        egresses: 0,
        stages: 0,
        pipeline_count: 0,
    };
    let mut i: usize = 0;
    assert(samples@.take(0) =~= Seq::empty());
    while i < samples.len()
        invariant
            i <= samples@.len(),
            resource_peaks_of(samples@.take(i as int), p),
        decreases samples@.len() - i,
    {
        let s = samples[i];
        proof {
            peak_push(samples@.take(i as int).map_values(|s: ResourceSample| s.rss_kb), s.rss_kb);
            assert(samples@.take(i + 1).map_values(|s: ResourceSample| s.rss_kb) =~= samples@.take(
                i as int,
            ).map_values(|s: ResourceSample| s.rss_kb).push(s.rss_kb));
            peak_push(samples@.take(i as int).map_values(|s: ResourceSample| s.ffmpeg_rss_kb), s.ffmpeg_rss_kb);
            assert(samples@.take(i + 1).map_values(|s: ResourceSample| s.ffmpeg_rss_kb) =~= samples@.take(
                i as int,
            ).map_values(|s: ResourceSample| s.ffmpeg_rss_kb).push(s.ffmpeg_rss_kb));
            peak_push(samples@.take(i as int).map_values(|s: ResourceSample| s.retained_kb), s.retained_kb);
            assert(samples@.take(i + 1).map_values(|s: ResourceSample| s.retained_kb) =~= samples@.take(
                i as int,
            ).map_values(|s: ResourceSample| s.retained_kb).push(s.retained_kb));
            peak_push(samples@.take(i as int).map_values(|s: ResourceSample| s.source_ring_kb), s.source_ring_kb);
            assert(samples@.take(i + 1).map_values(|s: ResourceSample| s.source_ring_kb) =~= samples@.take(
                i as int,
            ).map_values(|s: ResourceSample| s.source_ring_kb).push(s.source_ring_kb));
            peak_push(samples@.take(i as int).map_values(|s: ResourceSample| s.transcoder_ring_kb), s.transcoder_ring_kb);
            assert(samples@.take(i + 1).map_values(|s: ResourceSample| s.transcoder_ring_kb) =~= samples@.take(
                i as int,
            ).map_values(|s: ResourceSample| s.transcoder_ring_kb).push(s.transcoder_ring_kb));
            peak_push(samples@.take(i as int).map_values(|s: ResourceSample| s.tsmux_ring_kb), s.tsmux_ring_kb);
            assert(samples@.take(i + 1).map_values(|s: ResourceSample| s.tsmux_ring_kb) =~= samples@.take(
                i as int,
            ).map_values(|s: ResourceSample| s.tsmux_ring_kb).push(s.tsmux_ring_kb));
            peak_push(samples@.take(i as int).map_values(|s: ResourceSample| s.avio_len_kb), s.avio_len_kb);
            assert(samples@.take(i + 1).map_values(|s: ResourceSample| s.avio_len_kb) =~= samples@.take(
                i as int,
            ).map_values(|s: ResourceSample| s.avio_len_kb).push(s.avio_len_kb));
            peak_push(samples@.take(i as int).map_values(|s: ResourceSample| s.avio_hwm_kb), s.avio_hwm_kb);
            assert(samples@.take(i + 1).map_values(|s: ResourceSample| s.avio_hwm_kb) =~= samples@.take(
                i as int,
            ).map_values(|s: ResourceSample| s.avio_hwm_kb).push(s.avio_hwm_kb));
            peak_push(samples@.take(i as int).map_values(|s: ResourceSample| s.anonymous_kb), s.anonymous_kb);
            assert(samples@.take(i + 1).map_values(|s: ResourceSample| s.anonymous_kb) =~= samples@.take(
                i as int,
            ).map_values(|s: ResourceSample| s.anonymous_kb).push(s.anonymous_kb));
            peak_push(samples@.take(i as int).map_values(|s: ResourceSample| s.private_dirty_kb), s.private_dirty_kb);
            assert(samples@.take(i + 1).map_values(|s: ResourceSample| s.private_dirty_kb) =~= samples@.take(
                i as int,
            ).map_values(|s: ResourceSample| s.private_dirty_kb).push(s.private_dirty_kb));
            peak_push(samples@.take(i as int).map_values(|s: ResourceSample| s.shared_clean_kb), s.shared_clean_kb);
            assert(samples@.take(i + 1).map_values(|s: ResourceSample| s.shared_clean_kb) =~= samples@.take(
                i as int,
            ).map_values(|s: ResourceSample| s.shared_clean_kb).push(s.shared_clean_kb));
            peak_push(samples@.take(i as int).map_values(|s: ResourceSample| s.pss_kb), s.pss_kb);
            assert(samples@.take(i + 1).map_values(|s: ResourceSample| s.pss_kb) =~= samples@.take(
                i as int,
            ).map_values(|s: ResourceSample| s.pss_kb).push(s.pss_kb));
            peak_push(samples@.take(i as int).map_values(|s: ResourceSample| s.unattributed_kb), s.unattributed_kb);
            assert(samples@.take(i + 1).map_values(|s: ResourceSample| s.unattributed_kb) =~= samples@.take(
                i as int,
            ).map_values(|s: ResourceSample| s.unattributed_kb).push(s.unattributed_kb));
            peak_push(samples@.take(i as int).map_values(|s: ResourceSample| s.active_transcoder_buffers), s.active_transcoder_buffers);
            assert(samples@.take(i + 1).map_values(|s: ResourceSample| s.active_transcoder_buffers) =~= samples@.take(
                i as int,
            ).map_values(|s: ResourceSample| s.active_transcoder_buffers).push(s.active_transcoder_buffers));
            peak_push(samples@.take(i as int).map_values(|s: ResourceSample| s.ingests), s.ingests);
            assert(samples@.take(i + 1).map_values(|s: ResourceSample| s.ingests) =~= samples@.take(
                i as int,
            ).map_values(|s: ResourceSample| s.ingests).push(s.ingests));
            peak_push(samples@.take(i as int).map_values(|s: ResourceSample| s.egresses), s.egresses);
            assert(samples@.take(i + 1).map_values(|s: ResourceSample| s.egresses) =~= samples@.take(
                i as int,
            ).map_values(|s: ResourceSample| s.egresses).push(s.egresses));
            peak_push(samples@.take(i as int).map_values(|s: ResourceSample| s.stages), s.stages);
            assert(samples@.take(i + 1).map_values(|s: ResourceSample| s.stages) =~= samples@.take(
                i as int,
            ).map_values(|s: ResourceSample| s.stages).push(s.stages));
            peak_push(samples@.take(i as int).map_values(|s: ResourceSample| s.pipeline_count), s.pipeline_count);
            assert(samples@.take(i + 1).map_values(|s: ResourceSample| s.pipeline_count) =~= samples@.take(
                i as int,
            ).map_values(|s: ResourceSample| s.pipeline_count).push(s.pipeline_count));
        }
        p.rss_kb = larger(p.rss_kb, s.rss_kb);
        p.ffmpeg_rss_kb = larger(p.ffmpeg_rss_kb, s.ffmpeg_rss_kb);
        p.retained_kb = larger(p.retained_kb, s.retained_kb);
        p.source_ring_kb = larger(p.source_ring_kb, s.source_ring_kb);
        p.transcoder_ring_kb = larger(p.transcoder_ring_kb, s.transcoder_ring_kb);
        p.tsmux_ring_kb = larger(p.tsmux_ring_kb, s.tsmux_ring_kb);
        p.avio_len_kb = larger(p.avio_len_kb, s.avio_len_kb);
        p.avio_hwm_kb = larger(p.avio_hwm_kb, s.avio_hwm_kb);
        p.anonymous_kb = larger(p.anonymous_kb, s.anonymous_kb);
        p.private_dirty_kb = larger(p.private_dirty_kb, s.private_dirty_kb);
        p.shared_clean_kb = larger(p.shared_clean_kb, s.shared_clean_kb);
        p.pss_kb = larger(p.pss_kb, s.pss_kb);
        p.unattributed_kb = larger(p.unattributed_kb, s.unattributed_kb);
        p.active_transcoder_buffers = larger(p.active_transcoder_buffers, s.active_transcoder_buffers);
        p.ingests = larger(p.ingests, s.ingests);
        p.egresses = larger(p.egresses, s.egresses);
        p.stages = larger(p.stages, s.stages);
        p.pipeline_count = larger(p.pipeline_count, s.pipeline_count);
        i += 1;
    }
    assert(samples@.take(samples@.len() as int) =~= samples@);
    p
}

/// The sum of the memory over samples.
pub open spec fn rss_sum(samples: Seq<ResourceSample>) -> int
    decreases samples.len(),
{
    if samples.len() == 0 {
        0
    } else {
        rss_sum(samples.drop_last()) + samples.last().rss_kb
    }
}

proof fn lemma_rss_sum_grows(samples: Seq<ResourceSample>, k: int)
    requires
        0 <= k <= samples.len(),
    ensures
        0 <= rss_sum(samples.take(k)) <= rss_sum(samples),
    decreases samples.len(),
{
    if samples.len() == 0 {
        assert(samples.take(k) =~= samples);
    } else if k < samples.len() {
        lemma_rss_sum_grows(samples.drop_last(), k);
        assert(samples.drop_last().take(k) =~= samples.take(k));
    } else {
        lemma_rss_sum_grows(samples.drop_last(), k - 1);
        assert(samples.take(k) =~= samples);
    }
}

/// What the samples of a run add up to.
#[derive(Debug, Clone, Copy, PartialEq, Eq, Structural)]
pub struct ResourceTotals {
    pub sample_count: usize,
    /// The sum of the memory, of which the mean is taken.
    pub rss_sum_kb: u64,
    pub peaks: ResourcePeaks,
}

/// Adds up the samples of a run.
pub fn summarize_resource_samples(samples: &Vec<ResourceSample>) -> (r: ResourceTotals)
    requires
        rss_sum(samples@) <= u64::MAX,
    ensures
        r.sample_count == samples@.len(),
        r.rss_sum_kb == rss_sum(samples@),
        resource_peaks_of(samples@, r.peaks),
{
    let mut sum: u64 = 0;
    let mut i: usize = 0;
    assert(samples@.take(0) =~= Seq::<ResourceSample>::empty());
    while i < samples.len()
        invariant
            i <= samples@.len(),
            rss_sum(samples@) <= u64::MAX,
            sum == rss_sum(samples@.take(i as int)),
        decreases samples@.len() - i,
    {
        assert(samples@.take(i + 1).drop_last() =~= samples@.take(i as int));
        proof {
            lemma_rss_sum_grows(samples@, i + 1);
        }
        sum = sum + samples[i].rss_kb;
        i += 1;
    }
    assert(samples@.take(samples@.len() as int) =~= samples@);
    ResourceTotals {
        sample_count: samples.len(),
        rss_sum_kb: sum,
        peaks: resource_peaks(samples),
    }
}

/// What one look at the server told while a case of a bitrate sweep ran.
#[derive(Debug, Clone, Copy, PartialEq, Eq, Structural)]
pub struct BitrateSample {
    pub restream_rss_kb: u64,
    pub ffmpeg_count: u64,
    pub ffmpeg_rss_kb: u64,
    pub total_rss_kb: u64,
    pub retained_payload_kb: u64,
    pub source_ring_kb: u64,
    pub transcoder_ring_kb: u64,
    pub tsmux_ring_kb: u64,
    pub avio_len_kb: u64,
    pub avio_hwm_kb: u64,
    pub elapsed_secs: u64,
    pub overflow_count: u64,
}

/// The largest of each that was seen.
#[derive(Debug, Clone, Copy, PartialEq, Eq, Structural)]
pub struct BitratePeaks {
    pub restream_rss_kb: u64,
    pub ffmpeg_count: u64,
    pub ffmpeg_rss_kb: u64,
    pub total_rss_kb: u64,
    pub retained_payload_kb: u64,
    pub source_ring_kb: u64,
    pub transcoder_ring_kb: u64,
    pub tsmux_ring_kb: u64,
    pub avio_len_kb: u64,
    pub avio_hwm_kb: u64,
}

/// Whether these are the peaks of the samples.
pub open spec fn bitrate_peaks_of(samples: Seq<BitrateSample>, p: BitratePeaks) -> bool {
    &&& p.restream_rss_kb == peak(samples.map_values(|s: BitrateSample| s.restream_rss_kb))
    &&& p.ffmpeg_count == peak(samples.map_values(|s: BitrateSample| s.ffmpeg_count))
    &&& p.ffmpeg_rss_kb == peak(samples.map_values(|s: BitrateSample| s.ffmpeg_rss_kb))
    &&& p.total_rss_kb == peak(samples.map_values(|s: BitrateSample| s.total_rss_kb))
    &&& p.retained_payload_kb == peak(samples.map_values(|s: BitrateSample| s.retained_payload_kb))
    &&& p.source_ring_kb == peak(samples.map_values(|s: BitrateSample| s.source_ring_kb))
    &&& p.transcoder_ring_kb == peak(samples.map_values(|s: BitrateSample| s.transcoder_ring_kb))
    &&& p.tsmux_ring_kb == peak(samples.map_values(|s: BitrateSample| s.tsmux_ring_kb))
    &&& p.avio_len_kb == peak(samples.map_values(|s: BitrateSample| s.avio_len_kb))
    &&& p.avio_hwm_kb == peak(samples.map_values(|s: BitrateSample| s.avio_hwm_kb))
}

fn bitrate_peaks(samples: &Vec<BitrateSample>) -> (r: BitratePeaks)
    ensures
        bitrate_peaks_of(samples@, r),
{
    let mut p: BitratePeaks = BitratePeaks {
        restream_rss_kb: 0,
        ffmpeg_count: 0,
        ffmpeg_rss_kb: 0,
        total_rss_kb: 0,
        retained_payload_kb: 0,
        source_ring_kb: 0,
        transcoder_ring_kb: 0,
        tsmux_ring_kb: 0,
        avio_len_kb: 0,
        avio_hwm_kb: 0,
    };
    let mut i: usize = 0;
    assert(samples@.take(0) =~= Seq::empty());
    while i < samples.len()
        invariant
            i <= samples@.len(),
            bitrate_peaks_of(samples@.take(i as int), p),
        decreases samples@.len() - i,
    {
        let s = samples[i];
        proof {
            peak_push(samples@.take(i as int).map_values(|s: BitrateSample| s.restream_rss_kb), s.restream_rss_kb);
            assert(samples@.take(i + 1).map_values(|s: BitrateSample| s.restream_rss_kb) =~= samples@.take(
                i as int,
            ).map_values(|s: BitrateSample| s.restream_rss_kb).push(s.restream_rss_kb));
            peak_push(samples@.take(i as int).map_values(|s: BitrateSample| s.ffmpeg_count), s.ffmpeg_count);
            assert(samples@.take(i + 1).map_values(|s: BitrateSample| s.ffmpeg_count) =~= samples@.take(
                i as int,
            ).map_values(|s: BitrateSample| s.ffmpeg_count).push(s.ffmpeg_count));
            peak_push(samples@.take(i as int).map_values(|s: BitrateSample| s.ffmpeg_rss_kb), s.ffmpeg_rss_kb);
            assert(samples@.take(i + 1).map_values(|s: BitrateSample| s.ffmpeg_rss_kb) =~= samples@.take(
                i as int,
            ).map_values(|s: BitrateSample| s.ffmpeg_rss_kb).push(s.ffmpeg_rss_kb));
            peak_push(samples@.take(i as int).map_values(|s: BitrateSample| s.total_rss_kb), s.total_rss_kb);
            assert(samples@.take(i + 1).map_values(|s: BitrateSample| s.total_rss_kb) =~= samples@.take(
                i as int,
            ).map_values(|s: BitrateSample| s.total_rss_kb).push(s.total_rss_kb));
            peak_push(samples@.take(i as int).map_values(|s: BitrateSample| s.retained_payload_kb), s.retained_payload_kb);
            assert(samples@.take(i + 1).map_values(|s: BitrateSample| s.retained_payload_kb) =~= samples@.take(
                i as int,
            ).map_values(|s: BitrateSample| s.retained_payload_kb).push(s.retained_payload_kb));
            peak_push(samples@.take(i as int).map_values(|s: BitrateSample| s.source_ring_kb), s.source_ring_kb);
            assert(samples@.take(i + 1).map_values(|s: BitrateSample| s.source_ring_kb) =~= samples@.take(
                i as int,
            ).map_values(|s: BitrateSample| s.source_ring_kb).push(s.source_ring_kb));
            peak_push(samples@.take(i as int).map_values(|s: BitrateSample| s.transcoder_ring_kb), s.transcoder_ring_kb);
            assert(samples@.take(i + 1).map_values(|s: BitrateSample| s.transcoder_ring_kb) =~= samples@.take(
                i as int,
            ).map_values(|s: BitrateSample| s.transcoder_ring_kb).push(s.transcoder_ring_kb));
            peak_push(samples@.take(i as int).map_values(|s: BitrateSample| s.tsmux_ring_kb), s.tsmux_ring_kb);
            assert(samples@.take(i + 1).map_values(|s: BitrateSample| s.tsmux_ring_kb) =~= samples@.take(
                i as int,
            ).map_values(|s: BitrateSample| s.tsmux_ring_kb).push(s.tsmux_ring_kb));
            peak_push(samples@.take(i as int).map_values(|s: BitrateSample| s.avio_len_kb), s.avio_len_kb);
            assert(samples@.take(i + 1).map_values(|s: BitrateSample| s.avio_len_kb) =~= samples@.take(
                i as int,
            ).map_values(|s: BitrateSample| s.avio_len_kb).push(s.avio_len_kb));
            peak_push(samples@.take(i as int).map_values(|s: BitrateSample| s.avio_hwm_kb), s.avio_hwm_kb);
            assert(samples@.take(i + 1).map_values(|s: BitrateSample| s.avio_hwm_kb) =~= samples@.take(
                i as int,
            ).map_values(|s: BitrateSample| s.avio_hwm_kb).push(s.avio_hwm_kb));
        }
        p.restream_rss_kb = larger(p.restream_rss_kb, s.restream_rss_kb);
        p.ffmpeg_count = larger(p.ffmpeg_count, s.ffmpeg_count);
        p.ffmpeg_rss_kb = larger(p.ffmpeg_rss_kb, s.ffmpeg_rss_kb);
        p.total_rss_kb = larger(p.total_rss_kb, s.total_rss_kb);
        p.retained_payload_kb = larger(p.retained_payload_kb, s.retained_payload_kb);
        p.source_ring_kb = larger(p.source_ring_kb, s.source_ring_kb);
        p.transcoder_ring_kb = larger(p.transcoder_ring_kb, s.transcoder_ring_kb);
        p.tsmux_ring_kb = larger(p.tsmux_ring_kb, s.tsmux_ring_kb);
        p.avio_len_kb = larger(p.avio_len_kb, s.avio_len_kb);
        p.avio_hwm_kb = larger(p.avio_hwm_kb, s.avio_hwm_kb);
        i += 1;
    }
    assert(samples@.take(samples@.len() as int) =~= samples@);
    p
}

/// What a case of a bitrate sweep comes to.
#[derive(Debug, Clone)]
pub struct BitrateSummary {
    pub output_groups: usize,
    pub outputs_total: usize,
    pub rss_base_kb: u64,
    pub rss_final_kb: u64,
    pub rss_delta_kb: u64,
    pub peaks: BitratePeaks,
    pub retained_min_kb: u64,
    pub retained_final_kb: u64,
    /// How much more was retained at the end than at the least.
    pub retained_growth_kb: u64,
    /// In which time.
    pub elapsed_secs: u64,
    pub overflow_final: u64,
    /// What was not as expected at the ends of the outputs.
    pub failures: Vec<String>,
}

fn least_retained(samples: &Vec<BitrateSample>) -> (r: u64)
    requires
        samples@.len() > 0,
    ensures
        r == least(samples@.map_values(|s: BitrateSample| s.retained_payload_kb)),
{
    let mut best: u64 = samples[0].retained_payload_kb;
    let ghost all = samples@.map_values(|s: BitrateSample| s.retained_payload_kb);
    let mut i: usize = 1;
    assert(all.take(1).len() == 1);
    while i < samples.len()
        invariant
            1 <= i <= samples@.len(),
            all == samples@.map_values(|s: BitrateSample| s.retained_payload_kb),
            best == least(all.take(i as int)),
        decreases samples@.len() - i,
    {
        assert(all.take(i + 1).drop_last() =~= all.take(i as int));
        assert(all.take(i + 1).last() == samples@[i as int].retained_payload_kb);
        if samples[i].retained_payload_kb < best {
            best = samples[i].retained_payload_kb;
        }
        i += 1;
    }
    assert(all.take(all.len() as int) =~= all);
    best
}

/// Adds up a case of a bitrate sweep. A case without a sample has failed.
pub fn summarize_bitrate_case(
    output_groups: usize,
    rss_base_kb: u64,
    rss_final_kb: u64,
    failures: Vec<String>,
    samples: &Vec<BitrateSample>,
) -> (r: Result<BitrateSummary, &'static str>)
    requires
        output_groups * 4 <= usize::MAX,
    ensures
        samples@.len() == 0 ==> r is Err && r->Err_0@ == "bitrate sweep produced no samples"@,
        samples@.len() > 0 ==> (r matches Ok(s) && {
            let retained = samples@.map_values(|s: BitrateSample| s.retained_payload_kb);
            &&& s.output_groups == output_groups
            &&& s.outputs_total == output_groups * 4
            &&& s.rss_base_kb == rss_base_kb
            &&& s.rss_final_kb == rss_final_kb
            &&& s.rss_delta_kb == ticked(rss_base_kb, rss_final_kb)
            &&& bitrate_peaks_of(samples@, s.peaks)
            &&& s.retained_min_kb == least(retained)
            &&& s.retained_final_kb == retained.last()
            &&& s.retained_growth_kb == ticked(least(retained), retained.last())
            &&& s.elapsed_secs == samples@.last().elapsed_secs
            &&& s.overflow_final == samples@.last().overflow_count
            &&& s.failures == failures
        }),
{
    if samples.len() == 0 {
        return Err("bitrate sweep produced no samples");
    }
    let last: BitrateSample = samples[samples.len() - 1];
    let least_kb: u64 = least_retained(samples);
    Ok(
        BitrateSummary {
            output_groups,
            outputs_total: output_groups * 4,
            rss_base_kb,
            rss_final_kb,
            rss_delta_kb: ticks_between(rss_base_kb, rss_final_kb),
            peaks: bitrate_peaks(samples),
            retained_min_kb: least_kb,
            retained_final_kb: last.retained_payload_kb,
            retained_growth_kb: ticks_between(least_kb, last.retained_payload_kb),
            elapsed_secs: last.elapsed_secs,
            overflow_final: last.overflow_count,
            failures,
        },
    )
}

// ── Tables ───────────────────────────────────────────────────────────────────

/// A text with each double quote doubled.
pub open spec fn doubled_quotes(s: Seq<char>) -> Seq<char>
    decreases s.len(),
{
    if s.len() == 0 {
        Seq::empty()
    } else if s.last() == '"' {
        doubled_quotes(s.drop_last()).push('"').push('"')
    } else {
        doubled_quotes(s.drop_last()).push(s.last())
    }
}

/// Whether a text cannot stand as it is in a table with commas.
pub open spec fn needs_quotes(s: Seq<char>) -> bool {
    s.contains(',') || s.contains('"') || s.contains('\n')
}

/// A text as a field of a table with commas.
pub open spec fn csv_field(s: Seq<char>) -> Seq<char> {
    if needs_quotes(s) {
        "\""@ + doubled_quotes(s) + "\""@
    } else {
        s
    }
}

/// A text as a field of a table with commas.
pub fn csv_escape(value: &str) -> (r: String)
    ensures
        r@ == csv_field(value@),
{
    let v: Vec<char> = chars_of(value);
    let mut out: String = String::new();
    let mut special: bool = false;
    let mut i: usize = 0;
    assert(v@.take(0) =~= Seq::<char>::empty());
    while i < v.len()
        invariant
            i <= v@.len(),
            v@ == value@,
            out@ == doubled_quotes(v@.take(i as int)),
            special == needs_quotes(v@.take(i as int)),
        decreases v@.len() - i,
    {
        let ghost before = v@.take(i as int);
        let ghost now = v@.take(i + 1);
        proof {
            assert(now.drop_last() =~= before);
            assert(now =~= before.push(v@[i as int]));
            assert(now[i as int] == v@[i as int]);
            assert forall|c: char| now.contains(c) == (before.contains(c) || c == v@[i as int]) by {
                if before.contains(c) {
                    let k = choose|k: int| 0 <= k < before.len() && before[k] == c;
                    assert(now[k] == c);
                }
                if now.contains(c) && c != v@[i as int] {
                    let k = choose|k: int| 0 <= k < now.len() && now[k] == c;
                    assert(before[k] == c);
                }
            }
        }
        let c: char = v[i];
        if c == '"' {
            out.push('"');
            out.push('"');
        } else {
            out.push(c);
        }
        if c == ',' || c == '"' || c == '\n' {
            special = true;
        }
        i += 1;
    }
    assert(v@.take(v@.len() as int) =~= v@);
    if special {
        "\"".to_string().concat(out.as_str()).concat("\"")
    } else {
        value.to_string()
    }
}

fn add_field(fields: &mut Vec<String>, field: String)
    ensures
        texts(final(fields)@) == texts(old(fields)@).push(field@),
{
    let ghost before = fields@;
    fields.push(field);
    assert(texts(fields@) =~= texts(before).push(field@));
}

/// Shares of a processor, each as it is written with two decimals.
#[derive(Debug, Clone)]
pub struct CpuShares {
    pub restream_avg: String,
    pub restream_peak: String,
    pub ffmpeg_avg: String,
    pub ffmpeg_peak: String,
    pub total_avg: String,
    pub total_peak: String,
}

/// A run of a sweep over the server's resources, ready to be written down.
#[derive(Debug, Clone)]
pub struct ResourceRow {
    pub meta: ScenarioMeta,
    pub lifecycle: ResourceSweepLifecycle,
    pub sample_count: usize,
    pub cpu: CpuShares,
    /// The mean of the memory, as it is written with two decimals.
    pub rss_avg_kb: String,
    pub peaks: ResourcePeaks,
}

/// A case of a bitrate sweep, ready to be written down.
#[derive(Debug, Clone)]
pub struct BitrateRow {
    pub config: SweepConfig,
    pub bitrate_label: String,
    /// As it is written with two decimals.
    pub bitrate_mbps: String,
    /// As it is written with all its decimals.
    pub bitrate_exact: String,
    pub cpu: CpuShares,
    /// As it is written with two decimals.
    pub retained_growth_per_min: String,
    pub summary: BitrateSummary,
}

/// The protocol by which a stream comes in.
pub open spec fn proto_text(c: SweepConfig) -> Seq<char> {
    if c.over_rtmp() {
        "rtmp"@
    } else {
        "srt"@
    }
}

/// The codec of a stream's video.
pub open spec fn codec_text(c: SweepConfig) -> Seq<char> {
    match c {
        SweepConfig::H265Srt | SweepConfig::H265SrtMulti => "h265"@,
        _ => "h264"@,
    }
}

/// The fields of a row, in the order of the header.
pub open spec fn resource_fields(row: ResourceRow) -> Seq<Seq<char>> {
    Seq::empty().push(
        csv_field(row.meta.scenario@),
    ).push(
        csv_field(row.meta.label@),
    ).push(
        csv_field(row.lifecycle.worded()),
    ).push(
        decimal(row.meta.pipelines as nat),
    ).push(
        decimal(row.meta.outputs as nat),
    ).push(
        csv_field(row.meta.ingest_types@),
    ).push(
        csv_field(row.meta.egress_mix@),
    ).push(
        csv_field(row.meta.transcode@),
    ).push(
        decimal(row.sample_count as nat),
    ).push(
        row.cpu.restream_avg@,
    ).push(
        row.cpu.restream_peak@,
    ).push(
        row.cpu.ffmpeg_avg@,
    ).push(
        row.cpu.ffmpeg_peak@,
    ).push(
        row.cpu.total_avg@,
    ).push(
        row.cpu.total_peak@,
    ).push(
        row.rss_avg_kb@,
    ).push(
        decimal(row.peaks.rss_kb as nat),
    ).push(
        decimal(row.peaks.ffmpeg_rss_kb as nat),
    ).push(
        decimal(row.peaks.retained_kb as nat),
    ).push(
        decimal(row.peaks.source_ring_kb as nat),
    ).push(
        decimal(row.peaks.transcoder_ring_kb as nat),
    ).push(
        decimal(row.peaks.tsmux_ring_kb as nat),
    ).push(
        decimal(row.peaks.avio_len_kb as nat),
    ).push(
        decimal(row.peaks.avio_hwm_kb as nat),
    ).push(
        decimal(row.peaks.anonymous_kb as nat),
    ).push(
        decimal(row.peaks.private_dirty_kb as nat),
    ).push(
        decimal(row.peaks.shared_clean_kb as nat),
    ).push(
        decimal(row.peaks.pss_kb as nat),
    ).push(
        decimal(row.peaks.unattributed_kb as nat),
    ).push(
        decimal(row.peaks.active_transcoder_buffers as nat),
    ).push(
        decimal(row.peaks.ingests as nat),
    ).push(
        decimal(row.peaks.egresses as nat),
    ).push(
        decimal(row.peaks.stages as nat),
    ).push(
        decimal(row.peaks.pipeline_count as nat),
    )
}

fn resource_field_list(row: &ResourceRow) -> (r: Vec<String>)
    ensures
        texts(r@) == resource_fields(*row),
{
    let mut f: Vec<String> = Vec::new();
    assert(texts(f@) =~= Seq::<Seq<char>>::empty());
    add_field(&mut f, csv_escape(row.meta.scenario.as_str()));
    add_field(&mut f, csv_escape(row.meta.label.as_str()));
    add_field(&mut f, csv_escape(row.lifecycle.as_str()));
    add_field(&mut f, decimal_text(row.meta.pipelines as u64));
    add_field(&mut f, decimal_text(row.meta.outputs as u64));
    add_field(&mut f, csv_escape(row.meta.ingest_types.as_str()));
    add_field(&mut f, csv_escape(row.meta.egress_mix.as_str()));
    add_field(&mut f, csv_escape(row.meta.transcode));
    add_field(&mut f, decimal_text(row.sample_count as u64));
    add_field(&mut f, row.cpu.restream_avg.clone());
    add_field(&mut f, row.cpu.restream_peak.clone());
    add_field(&mut f, row.cpu.ffmpeg_avg.clone());
    add_field(&mut f, row.cpu.ffmpeg_peak.clone());
    add_field(&mut f, row.cpu.total_avg.clone());
    add_field(&mut f, row.cpu.total_peak.clone());
    add_field(&mut f, row.rss_avg_kb.clone());
    add_field(&mut f, decimal_text(row.peaks.rss_kb as u64));
    add_field(&mut f, decimal_text(row.peaks.ffmpeg_rss_kb as u64));
    add_field(&mut f, decimal_text(row.peaks.retained_kb as u64));
    add_field(&mut f, decimal_text(row.peaks.source_ring_kb as u64));
    add_field(&mut f, decimal_text(row.peaks.transcoder_ring_kb as u64));
    add_field(&mut f, decimal_text(row.peaks.tsmux_ring_kb as u64));
    add_field(&mut f, decimal_text(row.peaks.avio_len_kb as u64));
    add_field(&mut f, decimal_text(row.peaks.avio_hwm_kb as u64));
    add_field(&mut f, decimal_text(row.peaks.anonymous_kb as u64));
    add_field(&mut f, decimal_text(row.peaks.private_dirty_kb as u64));
    add_field(&mut f, decimal_text(row.peaks.shared_clean_kb as u64));
    add_field(&mut f, decimal_text(row.peaks.pss_kb as u64));
    add_field(&mut f, decimal_text(row.peaks.unattributed_kb as u64));
    add_field(&mut f, decimal_text(row.peaks.active_transcoder_buffers as u64));
    add_field(&mut f, decimal_text(row.peaks.ingests as u64));
    add_field(&mut f, decimal_text(row.peaks.egresses as u64));
    add_field(&mut f, decimal_text(row.peaks.stages as u64));
    add_field(&mut f, decimal_text(row.peaks.pipeline_count as u64));
    f
}

/// The fields of a row, in the order of the header.
pub open spec fn bitrate_fields(row: BitrateRow) -> Seq<Seq<char>> {
    Seq::empty().push(
        csv_field(row.config.named()),
    ).push(
        csv_field(proto_text(row.config)),
    ).push(
        csv_field(codec_text(row.config)),
    ).push(
        flag_word(row.config.is_multi()),
    ).push(
        csv_field(row.bitrate_label@),
    ).push(
        row.bitrate_mbps@,
    ).push(
        decimal(row.summary.output_groups as nat),
    ).push(
        decimal(row.summary.outputs_total as nat),
    ).push(
        decimal(row.summary.rss_base_kb as nat),
    ).push(
        decimal(row.summary.rss_final_kb as nat),
    ).push(
        decimal(row.summary.rss_delta_kb as nat),
    ).push(
        decimal(row.summary.peaks.restream_rss_kb as nat),
    ).push(
        decimal(row.summary.peaks.ffmpeg_count as nat),
    ).push(
        decimal(row.summary.peaks.ffmpeg_rss_kb as nat),
    ).push(
        decimal(row.summary.peaks.total_rss_kb as nat),
    ).push(
        row.cpu.restream_avg@,
    ).push(
        row.cpu.restream_peak@,
    ).push(
        row.cpu.ffmpeg_avg@,
    ).push(
        row.cpu.ffmpeg_peak@,
    ).push(
        row.cpu.total_avg@,
    ).push(
        row.cpu.total_peak@,
    ).push(
        decimal(row.summary.retained_min_kb as nat),
    ).push(
        decimal(row.summary.peaks.retained_payload_kb as nat),
    ).push(
        decimal(row.summary.retained_final_kb as nat),
    ).push(
        row.retained_growth_per_min@,
    ).push(
        decimal(row.summary.peaks.source_ring_kb as nat),
    ).push(
        decimal(row.summary.peaks.transcoder_ring_kb as nat),
    ).push(
        decimal(row.summary.peaks.tsmux_ring_kb as nat),
    ).push(
        decimal(row.summary.peaks.avio_len_kb as nat),
    ).push(
        decimal(row.summary.peaks.avio_hwm_kb as nat),
    ).push(
        decimal(row.summary.overflow_final as nat),
    ).push(
        flag_word(row.summary.failures@.len() == 0),
    )
}

fn bitrate_field_list(row: &BitrateRow) -> (r: Vec<String>)
    ensures
        texts(r@) == bitrate_fields(*row),
{
    let mut f: Vec<String> = Vec::new();
    assert(texts(f@) =~= Seq::<Seq<char>>::empty());
    add_field(&mut f, csv_escape(row.config.name()));
    add_field(&mut f, csv_escape(row.config.ingest_proto()));
    add_field(&mut f, csv_escape(row.config.video_codec()));
    add_field(&mut f, flag_text(row.config.multi_audio()).to_string());
    add_field(&mut f, csv_escape(row.bitrate_label.as_str()));
    add_field(&mut f, row.bitrate_mbps.clone());
    add_field(&mut f, decimal_text(row.summary.output_groups as u64));
    add_field(&mut f, decimal_text(row.summary.outputs_total as u64));
    add_field(&mut f, decimal_text(row.summary.rss_base_kb as u64));
    add_field(&mut f, decimal_text(row.summary.rss_final_kb as u64));
    add_field(&mut f, decimal_text(row.summary.rss_delta_kb as u64));
    add_field(&mut f, decimal_text(row.summary.peaks.restream_rss_kb as u64));
    add_field(&mut f, decimal_text(row.summary.peaks.ffmpeg_count as u64));
    add_field(&mut f, decimal_text(row.summary.peaks.ffmpeg_rss_kb as u64));
    add_field(&mut f, decimal_text(row.summary.peaks.total_rss_kb as u64));
    add_field(&mut f, row.cpu.restream_avg.clone());
    add_field(&mut f, row.cpu.restream_peak.clone());
    add_field(&mut f, row.cpu.ffmpeg_avg.clone());
    add_field(&mut f, row.cpu.ffmpeg_peak.clone());
    add_field(&mut f, row.cpu.total_avg.clone());
    add_field(&mut f, row.cpu.total_peak.clone());
    add_field(&mut f, decimal_text(row.summary.retained_min_kb as u64));
    add_field(&mut f, decimal_text(row.summary.peaks.retained_payload_kb as u64));
    add_field(&mut f, decimal_text(row.summary.retained_final_kb as u64));
    add_field(&mut f, row.retained_growth_per_min.clone());
    add_field(&mut f, decimal_text(row.summary.peaks.source_ring_kb as u64));
    add_field(&mut f, decimal_text(row.summary.peaks.transcoder_ring_kb as u64));
    add_field(&mut f, decimal_text(row.summary.peaks.tsmux_ring_kb as u64));
    add_field(&mut f, decimal_text(row.summary.peaks.avio_len_kb as u64));
    add_field(&mut f, decimal_text(row.summary.peaks.avio_hwm_kb as u64));
    add_field(&mut f, decimal_text(row.summary.overflow_final as u64));
    add_field(&mut f, flag_text(row.summary.failures.len() == 0).to_string());
    f
}

/// The lines of rows.
pub open spec fn resource_lines(rows: Seq<ResourceRow>) -> Seq<char>
    decreases rows.len(),
{
    if rows.len() == 0 {
        Seq::empty()
    } else {
        resource_lines(rows.drop_last()) + joined(resource_fields(rows.last()), ","@) + "\n"@
    }
}

/// The lines of rows.
pub open spec fn bitrate_lines(rows: Seq<BitrateRow>) -> Seq<char>
    decreases rows.len(),
{
    if rows.len() == 0 {
        Seq::empty()
    } else {
        bitrate_lines(rows.drop_last()) + joined(bitrate_fields(rows.last()), ","@) + "\n"@
    }
}

/// The table of a sweep over the server's resources: a header, and a line for each run.
pub fn resource_sweep_csv(rows: &Vec<ResourceRow>) -> (r: String)
    ensures
        r@ == "scenario,label,lifecycle,pipelines,outputs,ingest_types,egress_mix,transcode,sample_count,restream_cpu_avg_pct,restream_cpu_peak_pct,ffmpeg_cpu_avg_pct,ffmpeg_cpu_peak_pct,total_cpu_avg_pct,total_cpu_peak_pct,rss_avg_kb,rss_peak_kb,ffmpeg_rss_peak_kb,retained_peak_kb,source_ring_peak_kb,transcoder_ring_peak_kb,tsmux_ring_peak_kb,avio_len_peak_kb,avio_hwm_peak_kb,anonymous_peak_kb,private_dirty_peak_kb,shared_clean_peak_kb,pss_peak_kb,unattributed_peak_kb,active_transcoder_buffers_peak,ingests_peak,egresses_peak,stages_peak,pipeline_count_peak\n"@ + resource_lines(rows@),
{
    let mut body: String = String::new();
    let mut i: usize = 0;
    assert(rows@.take(0) =~= Seq::<ResourceRow>::empty());
    while i < rows.len()
        invariant
            i <= rows@.len(),
            body@ == resource_lines(rows@.take(i as int)),
        decreases rows@.len() - i,
    {
        assert(rows@.take(i + 1).drop_last() =~= rows@.take(i as int));
        let fields: Vec<String> = resource_field_list(&rows[i]);
        body = body.concat(join(&fields, ",").as_str()).concat("\n");
        i += 1;
    }
    assert(rows@.take(rows@.len() as int) =~= rows@);
    "scenario,label,lifecycle,pipelines,outputs,ingest_types,egress_mix,transcode,sample_count,restream_cpu_avg_pct,restream_cpu_peak_pct,ffmpeg_cpu_avg_pct,ffmpeg_cpu_peak_pct,total_cpu_avg_pct,total_cpu_peak_pct,rss_avg_kb,rss_peak_kb,ffmpeg_rss_peak_kb,retained_peak_kb,source_ring_peak_kb,transcoder_ring_peak_kb,tsmux_ring_peak_kb,avio_len_peak_kb,avio_hwm_peak_kb,anonymous_peak_kb,private_dirty_peak_kb,shared_clean_peak_kb,pss_peak_kb,unattributed_peak_kb,active_transcoder_buffers_peak,ingests_peak,egresses_peak,stages_peak,pipeline_count_peak\n".to_string().concat(body.as_str())
}

/// The table of a bitrate sweep: a header, and a line for each case.
pub fn bitrate_sweep_csv(rows: &Vec<BitrateRow>) -> (r: String)
    ensures
        r@ == "config,ingest_proto,video_codec,multi_audio,bitrate_label,bitrate_mbps,output_groups,outputs_total,restream_rss_base_kb,restream_rss_final_kb,restream_rss_delta_kb,restream_rss_peak_kb,ffmpeg_count_peak,ffmpeg_rss_peak_kb,total_rss_peak_kb,restream_cpu_avg_pct,restream_cpu_peak_pct,ffmpeg_cpu_avg_pct,ffmpeg_cpu_peak_pct,total_cpu_avg_pct,total_cpu_peak_pct,retained_payload_min_kb,retained_payload_max_kb,retained_payload_final_kb,retained_growth_kb_per_min,source_ring_peak_kb,transcoder_ring_peak_kb,tsmux_ring_peak_kb,avio_len_peak_kb,avio_hwm_peak_kb,overflow_count_final,correctness_ok\n"@ + bitrate_lines(rows@),
{
    let mut body: String = String::new();
    let mut i: usize = 0;
    assert(rows@.take(0) =~= Seq::<BitrateRow>::empty());
    while i < rows.len()
        invariant
            i <= rows@.len(),
            body@ == bitrate_lines(rows@.take(i as int)),
        decreases rows@.len() - i,
    {
        assert(rows@.take(i + 1).drop_last() =~= rows@.take(i as int));
        let fields: Vec<String> = bitrate_field_list(&rows[i]);
        body = body.concat(join(&fields, ",").as_str()).concat("\n");
        i += 1;
    }
    assert(rows@.take(rows@.len() as int) =~= rows@);
    "config,ingest_proto,video_codec,multi_audio,bitrate_label,bitrate_mbps,output_groups,outputs_total,restream_rss_base_kb,restream_rss_final_kb,restream_rss_delta_kb,restream_rss_peak_kb,ffmpeg_count_peak,ffmpeg_rss_peak_kb,total_rss_peak_kb,restream_cpu_avg_pct,restream_cpu_peak_pct,ffmpeg_cpu_avg_pct,ffmpeg_cpu_peak_pct,total_cpu_avg_pct,total_cpu_peak_pct,retained_payload_min_kb,retained_payload_max_kb,retained_payload_final_kb,retained_growth_kb_per_min,source_ring_peak_kb,transcoder_ring_peak_kb,tsmux_ring_peak_kb,avio_len_peak_kb,avio_hwm_peak_kb,overflow_count_final,correctness_ok\n".to_string().concat(body.as_str())
}

// ── The report of a branch matrix ────────────────────────────────────────────

/// A run of a branch matrix, ready to be reported.
#[derive(Debug, Clone)]
pub struct BranchRow {
    pub scenario: String,
    pub label: String,
    pub lifecycle: ResourceSweepLifecycle,
    pub outputs: usize,
    pub rss_peak_kb: u64,
    pub ffmpeg_rss_peak_kb: u64,
    pub stages_peak: u64,
    /// Megabytes with one decimal: of the server, of its children, of both.
    pub restream_mb: String,
    pub ffmpeg_mb: String,
    pub combined_mb: String,
    /// The mean share of a processor, with two decimals.
    pub cpu: String,
}

/// The positions below `n` of the rows of a rank, in order.
pub open spec fn at_rank(rows: Seq<BranchRow>, rank: int, n: int) -> Seq<int>
    decreases n,
{
    if n <= 0 {
        Seq::empty()
    } else if shape_of(rows[n - 1].scenario@).0 == rank {
        at_rank(rows, rank, n - 1).push(n - 1)
    } else {
        at_rank(rows, rank, n - 1)
    }
}

/// The order in which rows are reported: by rank, and within a rank as they came.
pub open spec fn report_order(rows: Seq<BranchRow>) -> Seq<int> {
    let n = rows.len() as int;
    at_rank(rows, 0, n) + at_rank(rows, 1, n) + at_rank(rows, 2, n) + at_rank(rows, 3, n)
        + at_rank(rows, 4, n) + at_rank(rows, 99, n)
}

pub open spec fn positions(v: Seq<usize>) -> Seq<int> {
    v.map_values(|i: usize| i as int)
}

fn add_rank(rows: &Vec<BranchRow>, rank: u8, out: &mut Vec<usize>)
    ensures
        positions(final(out)@) == positions(old(out)@) + at_rank(
            rows@,
            rank as int,
            rows@.len() as int,
        ),
{
    let mut i: usize = 0;
    let ghost start = out@;
    assert(positions(start) + Seq::<int>::empty() =~= positions(start));
    while i < rows.len()
        invariant
            i <= rows@.len(),
            positions(out@) == positions(start) + at_rank(rows@, rank as int, i as int),
        decreases rows@.len() - i,
    {
        if branch_shape_rank(rows[i].scenario.as_str()) == rank {
            let ghost before = out@;
            out.push(i);
            assert(positions(out@) =~= positions(before).push(i as int));
            assert(positions(start) + at_rank(rows@, rank as int, i as int).push(i as int)
                =~= positions(out@));
        }
        i += 1;
    }
}

/// The order in which rows are reported.
pub fn ordered_rows(rows: &Vec<BranchRow>) -> (r: Vec<usize>)
    ensures
        positions(r@) == report_order(rows@),
{
    let mut out: Vec<usize> = Vec::new();
    assert(positions(out@) =~= Seq::<int>::empty());
    add_rank(rows, 0, &mut out);
    assert(positions(out@) =~= at_rank(rows@, 0, rows@.len() as int));
    add_rank(rows, 1, &mut out);
    add_rank(rows, 2, &mut out);
    add_rank(rows, 3, &mut out);
    add_rank(rows, 4, &mut out);
    add_rank(rows, 99, &mut out);
    out
}

proof fn lemma_at_rank(rows: Seq<BranchRow>, rank: int, n: int, i: int)
    requires
        0 <= n <= rows.len(),
    ensures
        at_rank(rows, rank, n).contains(i) <==> 0 <= i < n && shape_of(rows[i].scenario@).0 == rank,
    decreases n,
{
    if n > 0 {
        lemma_at_rank(rows, rank, n - 1, i);
        let front = at_rank(rows, rank, n - 1);
        if shape_of(rows[n - 1].scenario@).0 == rank {
            let all = front.push(n - 1);
            assert(all[front.len() as int] == n - 1);
            if front.contains(i) {
                let k = choose|k: int| 0 <= k < front.len() && front[k] == i;
                assert(all[k] == i);
            }
            if all.contains(i) && i != n - 1 {
                let k = choose|k: int| 0 <= k < all.len() && all[k] == i;
                assert(front[k] == i);
            }
        }
    }
}

proof fn lemma_report_order_indices(rows: Seq<BranchRow>, k: int)
    requires
        0 <= k < report_order(rows).len(),
    ensures
        0 <= report_order(rows)[k] < rows.len(),
{
    let n = rows.len() as int;
    let a = at_rank(rows, 0, n);
    let b = a + at_rank(rows, 1, n);
    let c = b + at_rank(rows, 2, n);
    let d = c + at_rank(rows, 3, n);
    let e = d + at_rank(rows, 4, n);
    let i = report_order(rows)[k];
    if k < a.len() {
        assert(a[k] == i);
        lemma_at_rank(rows, 0, n, i);
    } else if k < b.len() {
        assert(at_rank(rows, 1, n)[k - a.len()] == i);
        lemma_at_rank(rows, 1, n, i);
    } else if k < c.len() {
        assert(at_rank(rows, 2, n)[k - b.len()] == i);
        lemma_at_rank(rows, 2, n, i);
    } else if k < d.len() {
        assert(at_rank(rows, 3, n)[k - c.len()] == i);
        lemma_at_rank(rows, 3, n, i);
    } else if k < e.len() {
        assert(at_rank(rows, 4, n)[k - d.len()] == i);
        lemma_at_rank(rows, 4, n, i);
    } else {
        assert(at_rank(rows, 99, n)[k - e.len()] == i);
        lemma_at_rank(rows, 99, n, i);
    }
}

/// The first row of a scenario.
pub open spec fn row_of(rows: Seq<BranchRow>, scenario: Seq<char>, from: int) -> Option<int>
    decreases rows.len() - from,
{
    if from < 0 || from >= rows.len() {
        None
    } else if rows[from].scenario@ == scenario {
        Some(from)
    } else {
        row_of(rows, scenario, from + 1)
    }
}

fn find_row(rows: &Vec<BranchRow>, scenario: &str) -> (r: Option<usize>)
    ensures
        match r {
            Some(i) => i < rows@.len() && row_of(rows@, scenario@, 0) == Some(i as int),
            None => row_of(rows@, scenario@, 0) is None,
        },
{
    let mut i: usize = 0;
    while i < rows.len()
        invariant
            i <= rows@.len(),
            row_of(rows@, scenario@, 0) == row_of(rows@, scenario@, i as int),
        decreases rows@.len() - i,
    {
        if same_text(rows[i].scenario.as_str(), scenario) {
            return Some(i);
        }
        i += 1;
    }
    None
}

/// What one run has over another.
#[derive(Debug, Clone, Copy, PartialEq, Eq, Structural)]
pub struct BranchDelta {
    pub from: usize,
    pub to: usize,
    pub outputs: usize,
    pub combined_kb: u64,
}

/// Whether this is what the row `to` has over the row `from`.
pub open spec fn is_delta(d: BranchDelta, rows: Seq<BranchRow>, from: int, to: int) -> bool {
    &&& d.from == from
    &&& d.to == to
    &&& d.outputs == (if rows[to].outputs >= rows[from].outputs {
        rows[to].outputs - rows[from].outputs
    } else {
        0
    })
    &&& d.combined_kb == (if combined(rows[to]) >= combined(rows[from]) {
        combined(rows[to]) - combined(rows[from])
    } else {
        0
    })
}

/// The memory of the server and its children.
pub open spec fn combined(row: BranchRow) -> int {
    row.rss_peak_kb + row.ffmpeg_rss_peak_kb
}

fn delta_between(rows: &Vec<BranchRow>, from: usize, to: usize) -> (r: BranchDelta)
    requires
        from < rows@.len(),
        to < rows@.len(),
        combined(rows@[from as int]) <= u64::MAX,
        combined(rows@[to as int]) <= u64::MAX,
    ensures
        is_delta(r, rows@, from as int, to as int),
{
    let outputs: usize = if rows[to].outputs >= rows[from].outputs {
        rows[to].outputs - rows[from].outputs
    } else {
        0
    };
    let before: u64 = rows[from].rss_peak_kb + rows[from].ffmpeg_rss_peak_kb;
    let after: u64 = rows[to].rss_peak_kb + rows[to].ffmpeg_rss_peak_kb;
    BranchDelta { from, to, outputs, combined_kb: ticks_between(before, after) }
}

/// The four runs that are compared, where all of them were made: one resolution alone, with the
/// source, two resolutions alone, with the source.
pub open spec fn compared(rows: Seq<BranchRow>) -> Option<(int, int, int, int)> {
    match (
        row_of(rows, "egress-growth-transcode-mixed"@, 0),
        row_of(rows, "egress-growth-source-plus-transcode-mixed"@, 0),
        row_of(rows, "egress-growth-transcode-dual-mixed"@, 0),
        row_of(rows, "egress-growth-source-plus-transcode-dual-mixed"@, 0),
    ) {
        (Some(single), Some(single_source), Some(dual), Some(dual_source)) => Some(
            (single, single_source, dual, dual_source),
        ),
        _ => None,
    }
}

/// What the source adds to one resolution, a second resolution to the first, and the source to two.
pub fn branch_deltas(rows: &Vec<BranchRow>) -> (r: Option<(BranchDelta, BranchDelta, BranchDelta)>)
    requires
        forall|i: int| 0 <= i < rows@.len() ==> combined(#[trigger] rows@[i]) <= u64::MAX,
    ensures
        match compared(rows@) {
            None => r is None,
            Some((single, single_source, dual, dual_source)) => (r matches Some((a, b, c))
                && is_delta(a, rows@, single, single_source) && is_delta(b, rows@, single, dual)
                && is_delta(c, rows@, dual, dual_source)),
        },
{
    let single: usize = match find_row(rows, "egress-growth-transcode-mixed") {
        Some(i) => i,
        None => return None,
    };
    let single_source: usize = match find_row(rows, "egress-growth-source-plus-transcode-mixed") {
        Some(i) => i,
        None => return None,
    };
    let dual: usize = match find_row(rows, "egress-growth-transcode-dual-mixed") {
        Some(i) => i,
        None => return None,
    };
    let dual_source: usize = match find_row(
        rows,
        "egress-growth-source-plus-transcode-dual-mixed",
    ) {
        Some(i) => i,
        None => return None,
    };
    Some(
        (
            delta_between(rows, single, single_source),
            delta_between(rows, single, dual),
            delta_between(rows, dual, dual_source),
        ),
    )
}

/// A comparison as it is written: outputs, megabytes with one decimal, share of a processor with
/// two.
#[derive(Debug, Clone)]
pub struct DeltaCells {
    pub outputs: usize,
    pub combined_mb: String,
    pub cpu: String,
}

/// A line of the report.
pub open spec fn branch_line(row: BranchRow) -> Seq<char> {
    "| "@ + shape_of(row.scenario@).1 + " | "@ + decimal(row.outputs as nat) + " | "@
        + row.restream_mb@ + " | "@ + row.ffmpeg_mb@ + " | "@ + row.combined_mb@ + " | "@ + row.cpu@
        + " | "@ + decimal(row.stages_peak as nat) + " |\n"@
}

fn branch_line_text(row: &BranchRow) -> (r: String)
    ensures
        r@ == branch_line(*row),
{
    "| ".to_string().concat(branch_shape_label(row.scenario.as_str())).concat(" | ").concat(
        decimal_text(row.outputs as u64).as_str(),
    ).concat(" | ").concat(row.restream_mb.as_str()).concat(" | ").concat(
        row.ffmpeg_mb.as_str(),
    ).concat(" | ").concat(row.combined_mb.as_str()).concat(" | ").concat(row.cpu.as_str()).concat(
        " | ",
    ).concat(decimal_text(row.stages_peak).as_str()).concat(" |\n")
}

/// A line of the comparison.
pub open spec fn delta_line(what: Seq<char>, d: DeltaCells) -> Seq<char> {
    "| "@ + what + " | "@ + decimal(d.outputs as nat) + " | "@ + d.combined_mb@ + " | "@ + d.cpu@
        + " |\n"@
}

fn delta_line_text(what: &str, d: &DeltaCells) -> (r: String)
    ensures
        r@ == delta_line(what@, *d),
{
    "| ".to_string().concat(what).concat(" | ").concat(
        decimal_text(d.outputs as u64).as_str(),
    ).concat(" | ").concat(d.combined_mb.as_str()).concat(" | ").concat(d.cpu.as_str()).concat(
        " |\n",
    )
}

/// The lines of the report, in this order.
pub open spec fn branch_lines(rows: Seq<BranchRow>, order: Seq<int>) -> Seq<char>
    decreases order.len(),
{
    if order.len() == 0 {
        Seq::empty()
    } else {
        branch_lines(rows, order.drop_last()) + branch_line(rows[order.last()])
    }
}

/// How the report begins.
pub open spec fn branch_head(backend: Seq<char>, transport: Seq<char>, first: Option<BranchRow>) -> Seq<
    char,
> {
    let head = "# Branch Matrix\n\n- Backend: `"@ + backend + "`\n- SRT ingest transport: `"@
        + transport + "`\n"@;
    match first {
        Some(row) => head + "- Lifecycle: `"@ + row.lifecycle.worded()
            + "`\n- Fanout per group: `"@ + row.label@ + "`\n"@,
        None => head,
    }
}

/// The comparison at the end of the report.
pub open spec fn delta_table(d: Option<(DeltaCells, DeltaCells, DeltaCells)>) -> Seq<char> {
    match d {
        None => ""@,
        Some((a, b, c)) => {
            "\n## Deltas\n\n| Comparison | Output Delta | Combined MB Delta | Total CPU Delta |\n|---|---:|---:|---:|\n"@
                + delta_line("Add passthrough on top of one transcode family"@, a) + delta_line(
                "Add a second transcode family"@,
                b,
            ) + delta_line("Add passthrough on top of two transcode families"@, c)
        },
    }
}

/// The report of a branch matrix.
pub fn branch_matrix_markdown(
    backend: &str,
    transport: &str,
    rows: &Vec<BranchRow>,
    deltas: &Option<(DeltaCells, DeltaCells, DeltaCells)>,
) -> (r: String)
    ensures
        r@ == branch_head(
            backend@,
            transport@,
            if report_order(rows@).len() > 0 {
                Some(rows@[report_order(rows@)[0]])
            } else {
                None
            },
        )
            + "\n| Shape | Outputs | Restream MB | Child FFmpeg MB | Combined MB | Total CPU % | Stages |\n|---|---:|---:|---:|---:|---:|---:|\n"@
            + branch_lines(rows@, report_order(rows@)) + delta_table(*deltas),
{
    let order: Vec<usize> = ordered_rows(rows);
    let ghost model = report_order(rows@);
    assert(model.len() == order@.len());
    assert forall|k: int| 0 <= k < order@.len() implies (#[trigger] order@[k]) < rows@.len() && model[k]
        == order@[k] by {
        assert(positions(order@)[k] == order@[k] as int);
        lemma_report_order_indices(rows@, k);
    }
    let mut head: String = "# Branch Matrix\n\n- Backend: `".to_string().concat(backend).concat(
        "`\n- SRT ingest transport: `",
    ).concat(transport).concat("`\n");
    if order.len() > 0 {
        let first: &BranchRow = &rows[order[0]];
        head = head.concat("- Lifecycle: `").concat(first.lifecycle.as_str()).concat(
            "`\n- Fanout per group: `",
        ).concat(first.label.as_str()).concat("`\n");
    }
    let mut lines: String = String::new();
    let mut i: usize = 0;
    assert(model.take(0) =~= Seq::<int>::empty());
    while i < order.len()
        invariant
            i <= order@.len(),
            order@.len() == model.len(),
            forall|k: int|
                0 <= k < order@.len() ==> (#[trigger] order@[k]) < rows@.len() && model[k]
                    == order@[k],
            lines@ == branch_lines(rows@, model.take(i as int)),
        decreases order@.len() - i,
    {
        assert(model.take(i + 1).drop_last() =~= model.take(i as int));
        assert(model.take(i + 1).last() == order@[i as int] as int);
        lines = lines.concat(branch_line_text(&rows[order[i]]).as_str());
        i += 1;
    }
    assert(model.take(model.len() as int) =~= model);
    let tail: String = match deltas {
        None => "".to_string(),
        Some((a, b, c)) => {
            "\n## Deltas\n\n| Comparison | Output Delta | Combined MB Delta | Total CPU Delta |\n|---|---:|---:|---:|\n".to_string().concat(
                delta_line_text("Add passthrough on top of one transcode family", a).as_str(),
            ).concat(delta_line_text("Add a second transcode family", b).as_str()).concat(
                delta_line_text("Add passthrough on top of two transcode families", c).as_str(),
            )
        },
    };
    head.concat(
        "\n| Shape | Outputs | Restream MB | Child FFmpeg MB | Combined MB | Total CPU % | Stages |\n|---|---:|---:|---:|---:|---:|---:|\n",
    ).concat(lines.as_str()).concat(tail.as_str())
}

// ── Laws ─────────────────────────────────────────────────────────────────────

/// A peak is no less than any value, and is one of them.
pub proof fn peak_is_the_largest(values: Seq<u64>)
    ensures
        forall|i: int| 0 <= i < values.len() ==> #[trigger] values[i] <= peak(values),
        values.len() > 0 ==> values.contains(peak(values)),
    decreases values.len(),
{
    if values.len() > 0 {
        let front = values.drop_last();
        peak_is_the_largest(front);
        assert forall|i: int| 0 <= i < values.len() implies #[trigger] values[i] <= peak(values) by {
            if i < front.len() {
                assert(front[i] == values[i]);
            }
        }
        if values.last() >= peak(front) {
            assert(values[values.len() - 1] == peak(values));
        } else {
            let k = choose|k: int| 0 <= k < front.len() && front[k] == peak(front);
            assert(values[k] == peak(values));
        }
    }
}

/// The least is no more than any value, and is one of them.
pub proof fn least_is_the_smallest(values: Seq<u64>)
    requires
        values.len() > 0,
    ensures
        forall|i: int| 0 <= i < values.len() ==> least(values) <= #[trigger] values[i],
        values.contains(least(values)),
    decreases values.len(),
{
    if values.len() == 1 {
        assert(values[0] == least(values));
    } else {
        let front = values.drop_last();
        least_is_the_smallest(front);
        assert forall|i: int| 0 <= i < values.len() implies least(values) <= #[trigger] values[i] by {
            if i < front.len() {
                assert(front[i] == values[i]);
            }
        }
        if values.last() < least(front) {
            assert(values[values.len() - 1] == least(values));
        } else {
            let k = choose|k: int| 0 <= k < front.len() && front[k] == least(front);
            assert(values[k] == least(values));
        }
    }
}

/// A report names every row, and nothing else.
pub proof fn report_names_every_row(rows: Seq<BranchRow>, i: int)
    ensures
        report_order(rows).contains(i) <==> 0 <= i < rows.len(),
{
    let n = rows.len() as int;
    lemma_at_rank(rows, 0, n, i);
    lemma_at_rank(rows, 1, n, i);
    lemma_at_rank(rows, 2, n, i);
    lemma_at_rank(rows, 3, n, i);
    lemma_at_rank(rows, 4, n, i);
    lemma_at_rank(rows, 99, n, i);
    let a = at_rank(rows, 0, n);
    let b = at_rank(rows, 1, n);
    let c = at_rank(rows, 2, n);
    let d = at_rank(rows, 3, n);
    let e = at_rank(rows, 4, n);
    let f = at_rank(rows, 99, n);
    lemma_contains_either(a, b, i);
    lemma_contains_either(a + b, c, i);
    lemma_contains_either(a + b + c, d, i);
    lemma_contains_either(a + b + c + d, e, i);
    lemma_contains_either(a + b + c + d + e, f, i);
}

proof fn lemma_contains_either(a: Seq<int>, b: Seq<int>, i: int)
    ensures
        (a + b).contains(i) <==> a.contains(i) || b.contains(i),
{
    if a.contains(i) {
        let k = choose|k: int| 0 <= k < a.len() && a[k] == i;
        assert((a + b)[k] == i);
    }
    if b.contains(i) {
        let k = choose|k: int| 0 <= k < b.len() && b[k] == i;
        assert((a + b)[a.len() + k] == i);
    }
    if (a + b).contains(i) {
        let k = choose|k: int| 0 <= k < (a + b).len() && (a + b)[k] == i;
        if k < a.len() {
            assert(a[k] == i);
        } else {
            assert(b[k - a.len()] == i);
        }
    }
}

proof fn lemma_doubling_is_injective(a: Seq<char>, b: Seq<char>)
    requires
        doubled_quotes(a) == doubled_quotes(b),
    ensures
        a == b,
    decreases a.len(),
{
    if a.len() == 0 || b.len() == 0 {
        assert(a.len() > 0 ==> doubled_quotes(a).len() > 0);
        assert(b.len() > 0 ==> doubled_quotes(b).len() > 0);
        assert(a =~= b);
    } else {
        let x = doubled_quotes(a.drop_last());
        let y = doubled_quotes(b.drop_last());
        assert(doubled_quotes(a).last() == a.last());
        assert(doubled_quotes(b).last() == b.last());
        if a.last() == '"' {
            assert(doubled_quotes(a).drop_last().drop_last() =~= x);
            assert(doubled_quotes(b).drop_last().drop_last() =~= y);
        } else {
            assert(doubled_quotes(a).drop_last() =~= x);
            assert(doubled_quotes(b).drop_last() =~= y);
        }
        lemma_doubling_is_injective(a.drop_last(), b.drop_last());
        assert(a =~= a.drop_last().push(a.last()));
        assert(b =~= b.drop_last().push(b.last()));
    }
}

/// Different texts stay different as fields of a table.
pub proof fn fields_lose_nothing(a: Seq<char>, b: Seq<char>)
    requires
        csv_field(a) == csv_field(b),
    ensures
        a == b,
{
    reveal_strlit("\"");
    let q = "\""@;
    assert(q.len() == 1 && q[0] == '"');
    if needs_quotes(a) && needs_quotes(b) {
        assert(csv_field(a).skip(1).drop_last() =~= doubled_quotes(a));
        assert(csv_field(b).skip(1).drop_last() =~= doubled_quotes(b));
        lemma_doubling_is_injective(a, b);
    } else if needs_quotes(a) {
        assert(csv_field(a)[0] == '"');
        assert(b.contains('"'));
    } else if needs_quotes(b) {
        assert(csv_field(b)[0] == '"');
        assert(a.contains('"'));
    }
}

/// A process that was not there before has not run yet.
pub proof fn new_process_counts_from_now(before: Map<u32, u64>, pid: u32, ticks: u64)
    requires
        !before.contains_key(pid),
    ensures
        ticked_together(before, seq![ProcessClock { pid, ticks: Some(ticks) }]) == 0,
{
    let now = seq![ProcessClock { pid, ticks: Some(ticks) }];
    assert(now.drop_last() =~= Seq::<ProcessClock>::empty());
    reveal_with_fuel(ticked_together, 2);
}

proof fn lemma_peak_at(values: Seq<u64>, i: int)
    requires
        0 <= i < values.len(),
    ensures
        values[i] <= peak(values),
{
    peak_is_the_largest(values);
}

/// No sample is above the peaks, whatever was measured.
pub proof fn resource_peaks_bound_every_sample(samples: Seq<ResourceSample>, p: ResourcePeaks, i: int)
    requires
        resource_peaks_of(samples, p),
        0 <= i < samples.len(),
    ensures
        samples[i].rss_kb <= p.rss_kb,
        samples[i].ffmpeg_rss_kb <= p.ffmpeg_rss_kb,
        samples[i].retained_kb <= p.retained_kb,
        samples[i].source_ring_kb <= p.source_ring_kb,
        samples[i].transcoder_ring_kb <= p.transcoder_ring_kb,
        samples[i].tsmux_ring_kb <= p.tsmux_ring_kb,
        samples[i].avio_len_kb <= p.avio_len_kb,
        samples[i].avio_hwm_kb <= p.avio_hwm_kb,
        samples[i].anonymous_kb <= p.anonymous_kb,
        samples[i].private_dirty_kb <= p.private_dirty_kb,
        samples[i].shared_clean_kb <= p.shared_clean_kb,
        samples[i].pss_kb <= p.pss_kb,
        samples[i].unattributed_kb <= p.unattributed_kb,
        samples[i].active_transcoder_buffers <= p.active_transcoder_buffers,
        samples[i].ingests <= p.ingests,
        samples[i].egresses <= p.egresses,
        samples[i].stages <= p.stages,
        samples[i].pipeline_count <= p.pipeline_count,
{
    lemma_peak_at(samples.map_values(|s: ResourceSample| s.rss_kb), i);
    lemma_peak_at(samples.map_values(|s: ResourceSample| s.ffmpeg_rss_kb), i);
    lemma_peak_at(samples.map_values(|s: ResourceSample| s.retained_kb), i);
    lemma_peak_at(samples.map_values(|s: ResourceSample| s.source_ring_kb), i);
    lemma_peak_at(samples.map_values(|s: ResourceSample| s.transcoder_ring_kb), i);
    lemma_peak_at(samples.map_values(|s: ResourceSample| s.tsmux_ring_kb), i);
    lemma_peak_at(samples.map_values(|s: ResourceSample| s.avio_len_kb), i);
    lemma_peak_at(samples.map_values(|s: ResourceSample| s.avio_hwm_kb), i);
    lemma_peak_at(samples.map_values(|s: ResourceSample| s.anonymous_kb), i);
    lemma_peak_at(samples.map_values(|s: ResourceSample| s.private_dirty_kb), i);
    lemma_peak_at(samples.map_values(|s: ResourceSample| s.shared_clean_kb), i);
    lemma_peak_at(samples.map_values(|s: ResourceSample| s.pss_kb), i);
    lemma_peak_at(samples.map_values(|s: ResourceSample| s.unattributed_kb), i);
    lemma_peak_at(samples.map_values(|s: ResourceSample| s.active_transcoder_buffers), i);
    lemma_peak_at(samples.map_values(|s: ResourceSample| s.ingests), i);
    lemma_peak_at(samples.map_values(|s: ResourceSample| s.egresses), i);
    lemma_peak_at(samples.map_values(|s: ResourceSample| s.stages), i);
    lemma_peak_at(samples.map_values(|s: ResourceSample| s.pipeline_count), i);
}

/// No sample of a bitrate is above its peaks, whatever was measured.
pub proof fn bitrate_peaks_bound_every_sample(samples: Seq<BitrateSample>, p: BitratePeaks, i: int)
    requires
        bitrate_peaks_of(samples, p),
        0 <= i < samples.len(),
    ensures
        samples[i].restream_rss_kb <= p.restream_rss_kb,
        samples[i].ffmpeg_count <= p.ffmpeg_count,
        samples[i].ffmpeg_rss_kb <= p.ffmpeg_rss_kb,
        samples[i].total_rss_kb <= p.total_rss_kb,
        samples[i].retained_payload_kb <= p.retained_payload_kb,
        samples[i].source_ring_kb <= p.source_ring_kb,
        samples[i].transcoder_ring_kb <= p.transcoder_ring_kb,
        samples[i].tsmux_ring_kb <= p.tsmux_ring_kb,
        samples[i].avio_len_kb <= p.avio_len_kb,
        samples[i].avio_hwm_kb <= p.avio_hwm_kb,
{
    lemma_peak_at(samples.map_values(|s: BitrateSample| s.restream_rss_kb), i);
    lemma_peak_at(samples.map_values(|s: BitrateSample| s.ffmpeg_count), i);
    lemma_peak_at(samples.map_values(|s: BitrateSample| s.ffmpeg_rss_kb), i);
    lemma_peak_at(samples.map_values(|s: BitrateSample| s.total_rss_kb), i);
    lemma_peak_at(samples.map_values(|s: BitrateSample| s.retained_payload_kb), i);
    lemma_peak_at(samples.map_values(|s: BitrateSample| s.source_ring_kb), i);
    lemma_peak_at(samples.map_values(|s: BitrateSample| s.transcoder_ring_kb), i);
    lemma_peak_at(samples.map_values(|s: BitrateSample| s.tsmux_ring_kb), i);
    lemma_peak_at(samples.map_values(|s: BitrateSample| s.avio_len_kb), i);
    lemma_peak_at(samples.map_values(|s: BitrateSample| s.avio_hwm_kb), i);
}

/// What is retained is added up: the payloads of rings, and the counters of queues and readers.
pub proof fn payloads_and_counters_are_added_up(items: Seq<Json>, item: Json, name: Seq<char>)
    ensures
        payload_sum(items.push(item)) == payload_sum(items) + (match item.field_or_null(
            "payloadStats"@,
        ).u64_field("payloadBytes"@) {
            Some(n) => n as int,
            None => 0,
        }),
        field_sum(items.push(item), name) == field_sum(items, name) + (match item.u64_field(name) {
            Some(n) => n as int,
            None => 0,
        }),
        payload_sum(Seq::empty()) == 0 && field_sum(Seq::empty(), name) == 0,
{
    assert(items.push(item).drop_last() =~= items);
}

/// An account tells kilobytes, rounded down, of what the server tells in bytes: what is retained at
/// all, in the rings of the source, of the transcoders and of the muxers, and in the queues, at the
/// moment and at most.
pub proof fn accounts_tell_kilobytes(a: MemoryAccounting, telemetry: Json)
    requires
        is_account(a, telemetry),
    ensures
        ({
            let accounting = telemetry.field_or_null("memoryAccounting"@);
            let avio = accounting.field_or_null("avioQueues"@);
            let source = payload_sum(list_or_empty(accounting, "sourceRings"@));
            let transcoder = payload_sum(list_or_empty(accounting, "transcoderRings"@));
            let muxer = payload_sum(list_or_empty(accounting, "tsMuxerRings"@));
            let most = field_sum(list_or_empty(avio, "inputQueues"@), "highWaterBytes"@) + field_sum(
                list_or_empty(avio, "egressQueues"@),
                "highWaterBytes"@,
            );
            let now: int = match avio.u64_field("totalLenBytes"@) {
                Some(n) => n as int,
                None => 0,
            };
            let retained: int = match accounting.u64_field("retainedPayloadBytes"@) {
                Some(n) => n as int,
                None => 0,
            };
            &&& 1024 * a.retained_kb <= retained < 1024 * (a.retained_kb + 1)
            &&& 1024 * a.source_ring_kb <= source < 1024 * (a.source_ring_kb + 1)
            &&& 1024 * a.transcoder_ring_kb <= transcoder < 1024 * (a.transcoder_ring_kb + 1)
            &&& 1024 * a.tsmux_ring_kb <= muxer < 1024 * (a.tsmux_ring_kb + 1)
            &&& 1024 * a.avio_len_kb <= now < 1024 * (a.avio_len_kb + 1)
            &&& 1024 * a.avio_hwm_kb <= most < 1024 * (a.avio_hwm_kb + 1)
        }),
{
}

/// A process that was there before counts what its clock went on by; one whose clock went back, or
/// cannot be read, counts nothing.
pub proof fn clocks_count_what_they_went_on_by(
    before: Map<u32, u64>,
    now: Seq<ProcessClock>,
    pid: u32,
    was: u64,
    is: u64,
)
    requires
        before.contains_key(pid),
        before[pid] == was,
    ensures
        was <= is ==> ticked_together(before, now.push(ProcessClock { pid, ticks: Some(is) }))
            == ticked_together(before, now) + (is - was),
        is < was ==> ticked_together(before, now.push(ProcessClock { pid, ticks: Some(is) }))
            == ticked_together(before, now),
        ticked_together(before, now.push(ProcessClock { pid, ticks: None })) == ticked_together(
            before,
            now,
        ),
        clocks_of(now.push(ProcessClock { pid, ticks: Some(is) })) == clocks_of(now).insert(pid, is),
        clocks_of(now.push(ProcessClock { pid, ticks: None })) == clocks_of(now),
{
    assert(now.push(ProcessClock { pid, ticks: Some(is) }).drop_last() =~= now);
    assert(now.push(ProcessClock { pid, ticks: None }).drop_last() =~= now);
}

/// A field of a table stands as it is unless a comma, a quote or a new line is in it; then it stands
/// in quotes, and each quote in it twice.
pub proof fn fields_are_quoted_where_they_must(s: Seq<char>, c: char)
    ensures
        !s.contains(',') && !s.contains('"') && !s.contains('\n') ==> csv_field(s) == s,
        s.contains(',') || s.contains('"') || s.contains('\n') ==> csv_field(s) == "\""@
            + doubled_quotes(s) + "\""@,
        c != '"' ==> doubled_quotes(s.push(c)) == doubled_quotes(s).push(c),
        doubled_quotes(s.push('"')) == doubled_quotes(s).push('"').push('"'),
{
    assert(s.push(c).drop_last() =~= s);
    assert(s.push('"').drop_last() =~= s);
}

/// A table has one line for each row, with a comma between its fields.
pub proof fn tables_have_a_line_for_each_row(
    rows: Seq<ResourceRow>,
    row: ResourceRow,
    cases: Seq<BitrateRow>,
    case: BitrateRow,
)
    ensures
        resource_lines(rows.push(row)) == resource_lines(rows) + joined(resource_fields(row), ","@)
            + "\n"@,
        bitrate_lines(cases.push(case)) == bitrate_lines(cases) + joined(bitrate_fields(case), ","@)
            + "\n"@,
{
    assert(rows.push(row).drop_last() =~= rows);
    assert(cases.push(case).drop_last() =~= cases);
}

/// A row of resources begins with what was run, then tells how many samples there were, the shares of
/// the processors, and the memory on average and at most.
#[verifier::rlimit(60)]
#[verifier::spinoff_prover]
pub proof fn resource_rows_tell_what_was_run(row: ResourceRow)
    ensures
        ({
            let f = resource_fields(row);
            &&& f.len() == 34
            &&& f[0] == csv_field(row.meta.scenario@) && f[1] == csv_field(row.meta.label@)
            &&& f[3] == decimal(row.meta.pipelines as nat) && f[4] == decimal(
                row.meta.outputs as nat,
            )
            &&& f[8] == decimal(row.sample_count as nat)
            &&& f[9] == row.cpu.restream_avg@ && f[10] == row.cpu.restream_peak@ && f[11]
                == row.cpu.ffmpeg_avg@ && f[12] == row.cpu.ffmpeg_peak@ && f[13]
                == row.cpu.total_avg@ && f[14] == row.cpu.total_peak@
            &&& f[15] == row.rss_avg_kb@ && f[16] == decimal(row.peaks.rss_kb as nat) && f[17]
                == decimal(row.peaks.ffmpeg_rss_kb as nat) && f[18] == decimal(
                row.peaks.retained_kb as nat,
            )
            &&& f[30] == decimal(row.peaks.ingests as nat) && f[31] == decimal(
                row.peaks.egresses as nat,
            ) && f[32] == decimal(row.peaks.stages as nat) && f[33] == decimal(
                row.peaks.pipeline_count as nat,
            )
        }),
{
}

/// A row of a bitrate begins with its stream and its rate, then tells the memory before, after and in
/// between, and ends with how often readers were overtaken and whether all was right.
#[verifier::rlimit(60)]
#[verifier::spinoff_prover]
pub proof fn bitrate_rows_tell_what_was_run(row: BitrateRow)
    ensures
        ({
            let f = bitrate_fields(row);
            &&& f.len() == 32
            &&& f[0] == csv_field(row.config.named()) && f[4] == csv_field(row.bitrate_label@)
                && f[5] == row.bitrate_mbps@
            &&& f[6] == decimal(row.summary.output_groups as nat) && f[7] == decimal(
                row.summary.outputs_total as nat,
            )
            &&& f[8] == decimal(row.summary.rss_base_kb as nat) && f[9] == decimal(
                row.summary.rss_final_kb as nat,
            ) && f[10] == decimal(row.summary.rss_delta_kb as nat)
            &&& f[21] == decimal(row.summary.retained_min_kb as nat) && f[22] == decimal(
                row.summary.peaks.retained_payload_kb as nat,
            ) && f[23] == decimal(row.summary.retained_final_kb as nat) && f[24]
                == row.retained_growth_per_min@
            &&& f[30] == decimal(row.summary.overflow_final as nat)
            &&& row.summary.failures@.len() == 0 ==> f[31] == "true"@
            &&& row.summary.failures@.len() > 0 ==> f[31] == "false"@
        }),
{
}

/// A row is found by its scenario: the first one from a place on, and none only where none has it.
pub proof fn rows_are_found_by_their_scenario(rows: Seq<BranchRow>, scenario: Seq<char>, from: int)
    requires
        0 <= from <= rows.len(),
    ensures
        match row_of(rows, scenario, from) {
            Some(i) => from <= i < rows.len() && rows[i].scenario@ == scenario && forall|k: int|
                from <= k < i ==> (#[trigger] rows[k]).scenario@ != scenario,
            None => forall|k: int|
                from <= k < rows.len() ==> (#[trigger] rows[k]).scenario@ != scenario,
        },
    decreases rows.len() - from,
{
    if from < rows.len() && rows[from].scenario@ != scenario {
        rows_are_found_by_their_scenario(rows, scenario, from + 1);
    }
}

/// What a branch adds is what its row has more than the other: outputs, and memory of the server and
/// its transcoders together; nothing where it has less.
pub proof fn deltas_are_what_was_added(d: BranchDelta, rows: Seq<BranchRow>, from: int, to: int)
    requires
        is_delta(d, rows, from, to),
        0 <= from < rows.len(),
        0 <= to < rows.len(),
    ensures
        d.from == from && d.to == to,
        rows[from].outputs <= rows[to].outputs ==> rows[from].outputs + d.outputs == rows[to].outputs,
        rows[to].outputs < rows[from].outputs ==> d.outputs == 0,
        ({
            let (a, b) = (
                rows[from].rss_peak_kb + rows[from].ffmpeg_rss_peak_kb,
                rows[to].rss_peak_kb + rows[to].ffmpeg_rss_peak_kb,
            );
            &&& a <= b ==> a + d.combined_kb == b
            &&& b < a ==> d.combined_kb == 0
        }),
{
}

/// Four shapes are compared, and only where there is a row of each.
pub proof fn four_shapes_are_compared(rows: Seq<BranchRow>)
    ensures
        compared(rows) matches Some((a, b, c, d)) ==> 0 <= a < rows.len() && 0 <= b < rows.len() && 0
            <= c < rows.len() && 0 <= d < rows.len() && rows[a].scenario@
            == "egress-growth-transcode-mixed"@ && rows[b].scenario@
            == "egress-growth-source-plus-transcode-mixed"@ && rows[c].scenario@
            == "egress-growth-transcode-dual-mixed"@ && rows[d].scenario@
            == "egress-growth-source-plus-transcode-dual-mixed"@,
        compared(rows) is None ==> row_of(rows, "egress-growth-transcode-mixed"@, 0) is None || row_of(
            rows,
            "egress-growth-source-plus-transcode-mixed"@,
            0,
        ) is None || row_of(rows, "egress-growth-transcode-dual-mixed"@, 0) is None || row_of(
            rows,
            "egress-growth-source-plus-transcode-dual-mixed"@,
            0,
        ) is None,
{
    rows_are_found_by_their_scenario(rows, "egress-growth-transcode-mixed"@, 0);
    rows_are_found_by_their_scenario(rows, "egress-growth-source-plus-transcode-mixed"@, 0);
    rows_are_found_by_their_scenario(rows, "egress-growth-transcode-dual-mixed"@, 0);
    rows_are_found_by_their_scenario(rows, "egress-growth-source-plus-transcode-dual-mixed"@, 0);
}

/// Transport and codec of a stream are those of its name.
pub proof fn streams_tell_transport_and_codec(c: SweepConfig)
    ensures
        proto_text(c) == "rtmp"@ <==> c == SweepConfig::H264Rtmp,
        c != SweepConfig::H264Rtmp ==> proto_text(c) == "srt"@,
        c == SweepConfig::H265Srt || c == SweepConfig::H265SrtMulti ==> codec_text(c) == "h265"@,
        c == SweepConfig::H264Rtmp || c == SweepConfig::H264Srt || c == SweepConfig::H264SrtMulti
            ==> codec_text(c) == "h264"@,
{
    reveal_strlit("rtmp");
    reveal_strlit("srt");
    assert("rtmp"@[0] == 'r' && "srt"@[0] == 's');
}

} // verus!
