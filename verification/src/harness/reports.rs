//! The records that sweeps leave behind: a line for each sample, and a summary at the end.

use vstd::prelude::*;

use crate::harness::measure::{
    codec_text, csv_field, is_account, list_length, list_or_empty, overflow_count, overflows_of,
    proto_text, read_accounting, resource_fields, sums_fit, unattributed, BitrateRow, BitrateSample,
    MemoryAccounting, ResourceRow, ResourceSample,
};
use crate::harness::proc::{FfmpegStats, ProcMemRollup};
use crate::harness::setup::SweepPaths;
use crate::harness::status::inner;
use crate::harness::sweep::{ResourceSweepLifecycle, ScenarioMeta, SweepConfig};
use crate::harness::waits::{count_in, count_of, flag_word};
use crate::json::{is_text, text_item, Json};
use crate::number::decimal;
use crate::record::{is_record, Cell, Record};
use crate::text::texts;

verus! {

// ── Samples ──────────────────────────────────────────────────────────────────

/// The shares of a processor that one look told, in percent, as they are written.
#[derive(Debug, Clone)]
pub struct SampleShares {
    pub restream: String,
    pub ffmpeg: String,
    pub total: String,
}

/// How many fields an object has; none where it is not one.
pub open spec fn field_count(j: Json) -> nat {
    match j {
        Json::Object(fields) => fields@.len(),
        _ => 0,
    }
}

/// Whether a sample is what the kernel and the server told: its memory from the kernel, where it
/// is from the server's account, and what nothing accounts for.
pub open spec fn is_resource_sample(
    s: ResourceSample,
    rss_kb: u64,
    children: FfmpegStats,
    rollup: ProcMemRollup,
    account: MemoryAccounting,
    telemetry: Json,
    health: Json,
) -> bool {
    let known = account.retained_kb + account.avio_len_kb;
    &&& s.rss_kb == rss_kb
    &&& s.ffmpeg_count == children.count
    &&& s.ffmpeg_rss_kb == children.rss_kb
    &&& s.retained_kb == account.retained_kb
    &&& s.source_ring_kb == account.source_ring_kb
    &&& s.transcoder_ring_kb == account.transcoder_ring_kb
    &&& s.tsmux_ring_kb == account.tsmux_ring_kb
    &&& s.avio_len_kb == account.avio_len_kb
    &&& s.avio_hwm_kb == account.avio_hwm_kb
    &&& s.anonymous_kb == rollup.anonymous_kb
    &&& s.private_dirty_kb == rollup.private_dirty_kb
    &&& s.private_clean_kb == rollup.private_clean_kb
    &&& s.shared_clean_kb == rollup.shared_clean_kb
    &&& s.shared_dirty_kb == rollup.shared_dirty_kb
    &&& s.pss_kb == rollup.pss_kb
    &&& s.swap_kb == rollup.swap_kb
    &&& s.unattributed_kb == if rss_kb >= known {
        rss_kb - known
    } else {
        0
    }
    &&& s.active_transcoder_buffers == count_in(telemetry, "activeTranscoderBuffers"@)
    &&& s.ingests == list_or_empty(telemetry, "ingests"@).len()
    &&& s.egresses == list_or_empty(telemetry, "egresses"@).len()
    &&& s.stages == list_or_empty(telemetry, "stages"@).len()
    &&& s.pipeline_count == field_count(health.field_or_null("pipelines"@))
}

/// A sample, from what the kernel says of the server and its children and from what the server
/// says of itself.
pub fn resource_sample(
    rss_kb: u64,
    children: &FfmpegStats,
    rollup: &ProcMemRollup,
    telemetry: &Json,
    health: &Json,
) -> (r: ResourceSample)
    requires
        sums_fit(telemetry.field_or_null("memoryAccounting"@)),
    ensures
        exists|account: MemoryAccounting| #[trigger]
            is_account(account, *telemetry) && is_resource_sample(
                r,
                rss_kb,
                *children,
                *rollup,
                account,
                *telemetry,
                *health,
            ),
{
    let a: MemoryAccounting = read_accounting(telemetry);
    let null: Json = Json::Null;
    let pipelines: usize = match inner(health, "pipelines", &null) {
        Json::Object(fields) => fields.len(),
        _ => 0,
    };
    let r: ResourceSample = ResourceSample {
        rss_kb,
        ffmpeg_count: children.count,
        ffmpeg_rss_kb: children.rss_kb,
        retained_kb: a.retained_kb,
        source_ring_kb: a.source_ring_kb,
        transcoder_ring_kb: a.transcoder_ring_kb,
        tsmux_ring_kb: a.tsmux_ring_kb,
        avio_len_kb: a.avio_len_kb,
        avio_hwm_kb: a.avio_hwm_kb,
        anonymous_kb: rollup.anonymous_kb,
        private_dirty_kb: rollup.private_dirty_kb,
        private_clean_kb: rollup.private_clean_kb,
        shared_clean_kb: rollup.shared_clean_kb,
        shared_dirty_kb: rollup.shared_dirty_kb,
        pss_kb: rollup.pss_kb,
        swap_kb: rollup.swap_kb,
        unattributed_kb: unattributed(rss_kb, a.retained_kb, a.avio_len_kb),
        active_transcoder_buffers: count_of(telemetry, "activeTranscoderBuffers"),
        ingests: list_length(telemetry, "ingests") as u64,
        egresses: list_length(telemetry, "egresses") as u64,
        stages: list_length(telemetry, "stages") as u64,
        pipeline_count: pipelines as u64,
    };
    assert(is_account(a, *telemetry));
    r
}

/// A sample of a case: the server's memory was read twice, once for itself and once for the total.
pub fn bitrate_sample(
    elapsed_secs: u64,
    rss_kb: u64,
    rss_again_kb: u64,
    children: &FfmpegStats,
    telemetry: &Json,
    pipeline_telemetry: &Json,
) -> (r: BitrateSample)
    requires
        sums_fit(telemetry.field_or_null("memoryAccounting"@)),
        overflows_of(*pipeline_telemetry) <= u64::MAX,
        rss_again_kb + children.rss_kb <= u64::MAX,
    ensures
        r.elapsed_secs == elapsed_secs,
        r.restream_rss_kb == rss_kb,
        r.ffmpeg_count == children.count,
        r.ffmpeg_rss_kb == children.rss_kb,
        r.total_rss_kb == rss_again_kb + children.rss_kb,
        r.overflow_count == overflows_of(*pipeline_telemetry),
        is_account(
            MemoryAccounting {
                retained_kb: r.retained_payload_kb,
                source_ring_kb: r.source_ring_kb,
                transcoder_ring_kb: r.transcoder_ring_kb,
                tsmux_ring_kb: r.tsmux_ring_kb,
                avio_len_kb: r.avio_len_kb,
                avio_hwm_kb: r.avio_hwm_kb,
            },
            *telemetry,
        ),
{
    let a: MemoryAccounting = read_accounting(telemetry);
    BitrateSample {
        restream_rss_kb: rss_kb,
        ffmpeg_count: children.count,
        ffmpeg_rss_kb: children.rss_kb,
        total_rss_kb: rss_again_kb + children.rss_kb,
        retained_payload_kb: a.retained_kb,
        source_ring_kb: a.source_ring_kb,
        transcoder_ring_kb: a.transcoder_ring_kb,
        tsmux_ring_kb: a.tsmux_ring_kb,
        avio_len_kb: a.avio_len_kb,
        avio_hwm_kb: a.avio_hwm_kb,
        elapsed_secs,
        overflow_count: overflow_count(pipeline_telemetry),
    }
}

/// What the line of a sample says.
pub open spec fn sample_cells(
    meta: ScenarioMeta,
    lifecycle: ResourceSweepLifecycle,
    cpu: SampleShares,
    s: ResourceSample,
) -> Seq<(Seq<char>, Cell)> {
    Seq::empty().push(
        ("scenario"@, Cell::Text(meta.scenario@)),
    ).push(
        ("label"@, Cell::Text(meta.label@)),
    ).push(
        ("lifecycle"@, Cell::Text(lifecycle.worded())),
    ).push(
        ("pipelines"@, Cell::Whole(meta.pipelines as int)),
    ).push(
        ("outputs"@, Cell::Whole(meta.outputs as int)),
    ).push(
        ("ingestTypes"@, Cell::Text(meta.ingest_types@)),
    ).push(
        ("egressMix"@, Cell::Text(meta.egress_mix@)),
    ).push(
        ("transcode"@, Cell::Text(meta.transcode@)),
    ).push(
        ("restreamCpuPct"@, Cell::Number(cpu.restream@)),
    ).push(
        ("ffmpegCpuPct"@, Cell::Number(cpu.ffmpeg@)),
    ).push(
        ("totalCpuPct"@, Cell::Number(cpu.total@)),
    ).push(
        ("rssKb"@, Cell::Whole(s.rss_kb as int)),
    ).push(
        ("ffmpegCount"@, Cell::Whole(s.ffmpeg_count as int)),
    ).push(
        ("ffmpegRssKb"@, Cell::Whole(s.ffmpeg_rss_kb as int)),
    ).push(
        ("anonymousKb"@, Cell::Whole(s.anonymous_kb as int)),
    ).push(
        ("privateDirtyKb"@, Cell::Whole(s.private_dirty_kb as int)),
    ).push(
        ("privateCleanKb"@, Cell::Whole(s.private_clean_kb as int)),
    ).push(
        ("sharedCleanKb"@, Cell::Whole(s.shared_clean_kb as int)),
    ).push(
        ("sharedDirtyKb"@, Cell::Whole(s.shared_dirty_kb as int)),
    ).push(
        ("pssKb"@, Cell::Whole(s.pss_kb as int)),
    ).push(
        ("swapKb"@, Cell::Whole(s.swap_kb as int)),
    ).push(
        ("retainedKb"@, Cell::Whole(s.retained_kb as int)),
    ).push(
        ("sourceRingKb"@, Cell::Whole(s.source_ring_kb as int)),
    ).push(
        ("transcoderRingKb"@, Cell::Whole(s.transcoder_ring_kb as int)),
    ).push(
        ("tsmuxRingKb"@, Cell::Whole(s.tsmux_ring_kb as int)),
    ).push(
        ("avioLenKb"@, Cell::Whole(s.avio_len_kb as int)),
    ).push(
        ("avioHwmKb"@, Cell::Whole(s.avio_hwm_kb as int)),
    ).push(
        ("activeTranscoderBuffers"@, Cell::Whole(s.active_transcoder_buffers as int)),
    ).push(
        ("ingests"@, Cell::Whole(s.ingests as int)),
    ).push(
        ("egresses"@, Cell::Whole(s.egresses as int)),
    ).push(
        ("stages"@, Cell::Whole(s.stages as int)),
    ).push(
        ("pipelineCount"@, Cell::Whole(s.pipeline_count as int)),
    ).push(
        ("unattributedKb"@, Cell::Whole(s.unattributed_kb as int)),
    )
}

/// The record of a sample.
pub fn resource_sample_json(
    meta: &ScenarioMeta,
    lifecycle: ResourceSweepLifecycle,
    cpu: &SampleShares,
    s: &ResourceSample,
) -> (r: Json)
    ensures
        is_record(r, sample_cells(*meta, lifecycle, *cpu, *s)),
{
    let mut f: Record = Record::new();
    f.add_text("scenario", meta.scenario.as_str());
    f.add_text("label", meta.label.as_str());
    f.add_text("lifecycle", lifecycle.as_str());
    f.add_whole("pipelines", meta.pipelines as u64);
    f.add_whole("outputs", meta.outputs as u64);
    f.add_text("ingestTypes", meta.ingest_types.as_str());
    f.add_text("egressMix", meta.egress_mix.as_str());
    f.add_text("transcode", meta.transcode);
    f.add_number("restreamCpuPct", cpu.restream.as_str());
    f.add_number("ffmpegCpuPct", cpu.ffmpeg.as_str());
    f.add_number("totalCpuPct", cpu.total.as_str());
    f.add_whole("rssKb", s.rss_kb);
    f.add_whole("ffmpegCount", s.ffmpeg_count);
    f.add_whole("ffmpegRssKb", s.ffmpeg_rss_kb);
    f.add_whole("anonymousKb", s.anonymous_kb);
    f.add_whole("privateDirtyKb", s.private_dirty_kb);
    f.add_whole("privateCleanKb", s.private_clean_kb);
    f.add_whole("sharedCleanKb", s.shared_clean_kb);
    f.add_whole("sharedDirtyKb", s.shared_dirty_kb);
    f.add_whole("pssKb", s.pss_kb);
    f.add_whole("swapKb", s.swap_kb);
    f.add_whole("retainedKb", s.retained_kb);
    f.add_whole("sourceRingKb", s.source_ring_kb);
    f.add_whole("transcoderRingKb", s.transcoder_ring_kb);
    f.add_whole("tsmuxRingKb", s.tsmux_ring_kb);
    f.add_whole("avioLenKb", s.avio_len_kb);
    f.add_whole("avioHwmKb", s.avio_hwm_kb);
    f.add_whole("activeTranscoderBuffers", s.active_transcoder_buffers);
    f.add_whole("ingests", s.ingests);
    f.add_whole("egresses", s.egresses);
    f.add_whole("stages", s.stages);
    f.add_whole("pipelineCount", s.pipeline_count);
    f.add_whole("unattributedKb", s.unattributed_kb);
    f.finish()
}

/// What the record of a measurement says.
pub open spec fn aggregate_cells(row: ResourceRow) -> Seq<(Seq<char>, Cell)> {
    Seq::empty().push(
        ("scenario"@, Cell::Text(row.meta.scenario@)),
    ).push(
        ("label"@, Cell::Text(row.meta.label@)),
    ).push(
        ("lifecycle"@, Cell::Text(row.lifecycle.worded())),
    ).push(
        ("pipelines"@, Cell::Whole(row.meta.pipelines as int)),
    ).push(
        ("outputs"@, Cell::Whole(row.meta.outputs as int)),
    ).push(
        ("ingestTypes"@, Cell::Text(row.meta.ingest_types@)),
    ).push(
        ("egressMix"@, Cell::Text(row.meta.egress_mix@)),
    ).push(
        ("transcode"@, Cell::Text(row.meta.transcode@)),
    ).push(
        ("sampleCount"@, Cell::Whole(row.sample_count as int)),
    ).push(
        ("restreamCpuAvgPct"@, Cell::Number(row.cpu.restream_avg@)),
    ).push(
        ("restreamCpuPeakPct"@, Cell::Number(row.cpu.restream_peak@)),
    ).push(
        ("ffmpegCpuAvgPct"@, Cell::Number(row.cpu.ffmpeg_avg@)),
    ).push(
        ("ffmpegCpuPeakPct"@, Cell::Number(row.cpu.ffmpeg_peak@)),
    ).push(
        ("totalCpuAvgPct"@, Cell::Number(row.cpu.total_avg@)),
    ).push(
        ("totalCpuPeakPct"@, Cell::Number(row.cpu.total_peak@)),
    ).push(
        ("rssAvgKb"@, Cell::Number(row.rss_avg_kb@)),
    ).push(
        ("rssPeakKb"@, Cell::Whole(row.peaks.rss_kb as int)),
    ).push(
        ("ffmpegRssPeakKb"@, Cell::Whole(row.peaks.ffmpeg_rss_kb as int)),
    ).push(
        ("retainedPeakKb"@, Cell::Whole(row.peaks.retained_kb as int)),
    ).push(
        ("sourceRingPeakKb"@, Cell::Whole(row.peaks.source_ring_kb as int)),
    ).push(
        ("transcoderRingPeakKb"@, Cell::Whole(row.peaks.transcoder_ring_kb as int)),
    ).push(
        ("tsmuxRingPeakKb"@, Cell::Whole(row.peaks.tsmux_ring_kb as int)),
    ).push(
        ("avioLenPeakKb"@, Cell::Whole(row.peaks.avio_len_kb as int)),
    ).push(
        ("avioHwmPeakKb"@, Cell::Whole(row.peaks.avio_hwm_kb as int)),
    ).push(
        ("anonymousPeakKb"@, Cell::Whole(row.peaks.anonymous_kb as int)),
    ).push(
        ("privateDirtyPeakKb"@, Cell::Whole(row.peaks.private_dirty_kb as int)),
    ).push(
        ("sharedCleanPeakKb"@, Cell::Whole(row.peaks.shared_clean_kb as int)),
    ).push(
        ("pssPeakKb"@, Cell::Whole(row.peaks.pss_kb as int)),
    ).push(
        ("unattributedPeakKb"@, Cell::Whole(row.peaks.unattributed_kb as int)),
    ).push(
        ("activeTranscoderBuffersPeak"@, Cell::Whole(row.peaks.active_transcoder_buffers as int)),
    ).push(
        ("ingestsPeak"@, Cell::Whole(row.peaks.ingests as int)),
    ).push(
        ("egressesPeak"@, Cell::Whole(row.peaks.egresses as int)),
    ).push(
        ("stagesPeak"@, Cell::Whole(row.peaks.stages as int)),
    ).push(
        ("pipelineCountPeak"@, Cell::Whole(row.peaks.pipeline_count as int)),
    )
}

/// The record of a measurement.
pub fn resource_aggregate_json(row: &ResourceRow) -> (r: Json)
    ensures
        is_record(r, aggregate_cells(*row)),
{
    let mut f: Record = Record::new();
    f.add_text("scenario", row.meta.scenario.as_str());
    f.add_text("label", row.meta.label.as_str());
    f.add_text("lifecycle", row.lifecycle.as_str());
    f.add_whole("pipelines", row.meta.pipelines as u64);
    f.add_whole("outputs", row.meta.outputs as u64);
    f.add_text("ingestTypes", row.meta.ingest_types.as_str());
    f.add_text("egressMix", row.meta.egress_mix.as_str());
    f.add_text("transcode", row.meta.transcode);
    f.add_whole("sampleCount", row.sample_count as u64);
    f.add_number("restreamCpuAvgPct", row.cpu.restream_avg.as_str());
    f.add_number("restreamCpuPeakPct", row.cpu.restream_peak.as_str());
    f.add_number("ffmpegCpuAvgPct", row.cpu.ffmpeg_avg.as_str());
    f.add_number("ffmpegCpuPeakPct", row.cpu.ffmpeg_peak.as_str());
    f.add_number("totalCpuAvgPct", row.cpu.total_avg.as_str());
    f.add_number("totalCpuPeakPct", row.cpu.total_peak.as_str());
    f.add_number("rssAvgKb", row.rss_avg_kb.as_str());
    f.add_whole("rssPeakKb", row.peaks.rss_kb);
    f.add_whole("ffmpegRssPeakKb", row.peaks.ffmpeg_rss_kb);
    f.add_whole("retainedPeakKb", row.peaks.retained_kb);
    f.add_whole("sourceRingPeakKb", row.peaks.source_ring_kb);
    f.add_whole("transcoderRingPeakKb", row.peaks.transcoder_ring_kb);
    f.add_whole("tsmuxRingPeakKb", row.peaks.tsmux_ring_kb);
    f.add_whole("avioLenPeakKb", row.peaks.avio_len_kb);
    f.add_whole("avioHwmPeakKb", row.peaks.avio_hwm_kb);
    f.add_whole("anonymousPeakKb", row.peaks.anonymous_kb);
    f.add_whole("privateDirtyPeakKb", row.peaks.private_dirty_kb);
    f.add_whole("sharedCleanPeakKb", row.peaks.shared_clean_kb);
    f.add_whole("pssPeakKb", row.peaks.pss_kb);
    f.add_whole("unattributedPeakKb", row.peaks.unattributed_kb);
    f.add_whole("activeTranscoderBuffersPeak", row.peaks.active_transcoder_buffers);
    f.add_whole("ingestsPeak", row.peaks.ingests);
    f.add_whole("egressesPeak", row.peaks.egresses);
    f.add_whole("stagesPeak", row.peaks.stages);
    f.add_whole("pipelineCountPeak", row.peaks.pipeline_count);
    f.finish()
}

/// What the line of a sample of a case says.
pub open spec fn bitrate_sample_cells(
    config: SweepConfig,
    label: Seq<char>,
    mbps: Seq<char>,
    cpu: SampleShares,
    s: BitrateSample,
) -> Seq<(Seq<char>, Cell)> {
    Seq::empty().push(
        ("config"@, Cell::Text(config.named())),
    ).push(
        ("bitrateLabel"@, Cell::Text(label)),
    ).push(
        ("bitrateMbps"@, Cell::Number(mbps)),
    ).push(
        ("elapsedSecs"@, Cell::Whole(s.elapsed_secs as int)),
    ).push(
        ("restreamCpuPct"@, Cell::Number(cpu.restream@)),
    ).push(
        ("ffmpegCpuPct"@, Cell::Number(cpu.ffmpeg@)),
    ).push(
        ("totalCpuPct"@, Cell::Number(cpu.total@)),
    ).push(
        ("restreamRssKb"@, Cell::Whole(s.restream_rss_kb as int)),
    ).push(
        ("ffmpegCount"@, Cell::Whole(s.ffmpeg_count as int)),
    ).push(
        ("ffmpegRssKb"@, Cell::Whole(s.ffmpeg_rss_kb as int)),
    ).push(
        ("totalRssKb"@, Cell::Whole(s.total_rss_kb as int)),
    ).push(
        ("retainedPayloadKb"@, Cell::Whole(s.retained_payload_kb as int)),
    ).push(
        ("sourceRingKb"@, Cell::Whole(s.source_ring_kb as int)),
    ).push(
        ("transcoderRingKb"@, Cell::Whole(s.transcoder_ring_kb as int)),
    ).push(
        ("tsmuxRingKb"@, Cell::Whole(s.tsmux_ring_kb as int)),
    ).push(
        ("avioLenKb"@, Cell::Whole(s.avio_len_kb as int)),
    ).push(
        ("avioHwmKb"@, Cell::Whole(s.avio_hwm_kb as int)),
    ).push(
        ("overflowCount"@, Cell::Whole(s.overflow_count as int)),
    )
}

/// The record of a sample of a case.
pub fn bitrate_sweep_sample_json(
    config: SweepConfig,
    label: &str,
    mbps: &str,
    cpu: &SampleShares,
    s: &BitrateSample,
) -> (r: Json)
    ensures
        is_record(r, bitrate_sample_cells(config, label@, mbps@, *cpu, *s)),
{
    let mut f: Record = Record::new();
    f.add_text("config", config.name());
    f.add_text("bitrateLabel", label);
    f.add_number("bitrateMbps", mbps);
    f.add_whole("elapsedSecs", s.elapsed_secs);
    f.add_number("restreamCpuPct", cpu.restream.as_str());
    f.add_number("ffmpegCpuPct", cpu.ffmpeg.as_str());
    f.add_number("totalCpuPct", cpu.total.as_str());
    f.add_whole("restreamRssKb", s.restream_rss_kb);
    f.add_whole("ffmpegCount", s.ffmpeg_count);
    f.add_whole("ffmpegRssKb", s.ffmpeg_rss_kb);
    f.add_whole("totalRssKb", s.total_rss_kb);
    f.add_whole("retainedPayloadKb", s.retained_payload_kb);
    f.add_whole("sourceRingKb", s.source_ring_kb);
    f.add_whole("transcoderRingKb", s.transcoder_ring_kb);
    f.add_whole("tsmuxRingKb", s.tsmux_ring_kb);
    f.add_whole("avioLenKb", s.avio_len_kb);
    f.add_whole("avioHwmKb", s.avio_hwm_kb);
    f.add_whole("overflowCount", s.overflow_count);
    f.finish()
}

/// What the record of a case says. A case without failures is correct.
pub open spec fn case_cells(row: BitrateRow) -> Seq<(Seq<char>, Cell)> {
    Seq::empty().push(
        ("config"@, Cell::Text(row.config.named())),
    ).push(
        ("ingestProto"@, Cell::Text(proto_text(row.config))),
    ).push(
        ("videoCodec"@, Cell::Text(codec_text(row.config))),
    ).push(
        ("multiAudio"@, Cell::Flag(row.config.is_multi())),
    ).push(
        ("bitrateLabel"@, Cell::Text(row.bitrate_label@)),
    ).push(
        ("bitrateMbps"@, Cell::Number(row.bitrate_exact@)),
    ).push(
        ("outputGroups"@, Cell::Whole(row.summary.output_groups as int)),
    ).push(
        ("outputsTotal"@, Cell::Whole(row.summary.outputs_total as int)),
    ).push(
        ("restreamRssBaseKb"@, Cell::Whole(row.summary.rss_base_kb as int)),
    ).push(
        ("restreamRssFinalKb"@, Cell::Whole(row.summary.rss_final_kb as int)),
    ).push(
        ("restreamRssDeltaKb"@, Cell::Whole(row.summary.rss_delta_kb as int)),
    ).push(
        ("restreamRssPeakKb"@, Cell::Whole(row.summary.peaks.restream_rss_kb as int)),
    ).push(
        ("ffmpegCountPeak"@, Cell::Whole(row.summary.peaks.ffmpeg_count as int)),
    ).push(
        ("ffmpegRssPeakKb"@, Cell::Whole(row.summary.peaks.ffmpeg_rss_kb as int)),
    ).push(
        ("totalRssPeakKb"@, Cell::Whole(row.summary.peaks.total_rss_kb as int)),
    ).push(
        ("restreamCpuAvgPct"@, Cell::Number(row.cpu.restream_avg@)),
    ).push(
        ("restreamCpuPeakPct"@, Cell::Number(row.cpu.restream_peak@)),
    ).push(
        ("ffmpegCpuAvgPct"@, Cell::Number(row.cpu.ffmpeg_avg@)),
    ).push(
        ("ffmpegCpuPeakPct"@, Cell::Number(row.cpu.ffmpeg_peak@)),
    ).push(
        ("totalCpuAvgPct"@, Cell::Number(row.cpu.total_avg@)),
    ).push(
        ("totalCpuPeakPct"@, Cell::Number(row.cpu.total_peak@)),
    ).push(
        ("retainedPayloadMinKb"@, Cell::Whole(row.summary.retained_min_kb as int)),
    ).push(
        ("retainedPayloadMaxKb"@, Cell::Whole(row.summary.peaks.retained_payload_kb as int)),
    ).push(
        ("retainedPayloadFinalKb"@, Cell::Whole(row.summary.retained_final_kb as int)),
    ).push(
        ("retainedGrowthKbPerMin"@, Cell::Number(row.retained_growth_per_min@)),
    ).push(
        ("sourceRingPeakKb"@, Cell::Whole(row.summary.peaks.source_ring_kb as int)),
    ).push(
        ("transcoderRingPeakKb"@, Cell::Whole(row.summary.peaks.transcoder_ring_kb as int)),
    ).push(
        ("tsmuxRingPeakKb"@, Cell::Whole(row.summary.peaks.tsmux_ring_kb as int)),
    ).push(
        ("avioLenPeakKb"@, Cell::Whole(row.summary.peaks.avio_len_kb as int)),
    ).push(
        ("avioHwmPeakKb"@, Cell::Whole(row.summary.peaks.avio_hwm_kb as int)),
    ).push(
        ("overflowCountFinal"@, Cell::Whole(row.summary.overflow_final as int)),
    ).push(
        ("correctnessOk"@, Cell::Flag(row.summary.failures@.len() == 0)),
    ).push(
        ("correctnessFailures"@, Cell::Texts(texts(row.summary.failures@))),
    )
}

/// The record of a case.
pub fn bitrate_sweep_case_json(row: &BitrateRow) -> (r: Json)
    ensures
        is_record(r, case_cells(*row)),
{
    let mut f: Record = Record::new();
    f.add_text("config", row.config.name());
    f.add_text("ingestProto", row.config.ingest_proto());
    f.add_text("videoCodec", row.config.video_codec());
    f.add_flag("multiAudio", row.config.multi_audio());
    f.add_text("bitrateLabel", row.bitrate_label.as_str());
    f.add_number("bitrateMbps", row.bitrate_exact.as_str());
    f.add_whole("outputGroups", row.summary.output_groups as u64);
    f.add_whole("outputsTotal", row.summary.outputs_total as u64);
    f.add_whole("restreamRssBaseKb", row.summary.rss_base_kb);
    f.add_whole("restreamRssFinalKb", row.summary.rss_final_kb);
    f.add_whole("restreamRssDeltaKb", row.summary.rss_delta_kb);
    f.add_whole("restreamRssPeakKb", row.summary.peaks.restream_rss_kb);
    f.add_whole("ffmpegCountPeak", row.summary.peaks.ffmpeg_count);
    f.add_whole("ffmpegRssPeakKb", row.summary.peaks.ffmpeg_rss_kb);
    f.add_whole("totalRssPeakKb", row.summary.peaks.total_rss_kb);
    f.add_number("restreamCpuAvgPct", row.cpu.restream_avg.as_str());
    f.add_number("restreamCpuPeakPct", row.cpu.restream_peak.as_str());
    f.add_number("ffmpegCpuAvgPct", row.cpu.ffmpeg_avg.as_str());
    f.add_number("ffmpegCpuPeakPct", row.cpu.ffmpeg_peak.as_str());
    f.add_number("totalCpuAvgPct", row.cpu.total_avg.as_str());
    f.add_number("totalCpuPeakPct", row.cpu.total_peak.as_str());
    f.add_whole("retainedPayloadMinKb", row.summary.retained_min_kb);
    f.add_whole("retainedPayloadMaxKb", row.summary.peaks.retained_payload_kb);
    f.add_whole("retainedPayloadFinalKb", row.summary.retained_final_kb);
    f.add_number("retainedGrowthKbPerMin", row.retained_growth_per_min.as_str());
    f.add_whole("sourceRingPeakKb", row.summary.peaks.source_ring_kb);
    f.add_whole("transcoderRingPeakKb", row.summary.peaks.transcoder_ring_kb);
    f.add_whole("tsmuxRingPeakKb", row.summary.peaks.tsmux_ring_kb);
    f.add_whole("avioLenPeakKb", row.summary.peaks.avio_len_kb);
    f.add_whole("avioHwmPeakKb", row.summary.peaks.avio_hwm_kb);
    f.add_whole("overflowCountFinal", row.summary.overflow_final);
    f.add_flag("correctnessOk", row.summary.failures.len() == 0);
    f.add_texts("correctnessFailures", &row.summary.failures);
    f.finish()
}

// ── Summaries ────────────────────────────────────────────────────────────────

/// What is said of the files that a sweep leaves behind, with or without its report.
pub open spec fn artifact_cells(paths: SweepPaths, with_report: bool) -> Seq<(Seq<char>, Cell)> {
    let tables = Seq::empty().push(
        ("summaryJson"@, Cell::Text(paths.summary_json@)),
    ).push(
        ("summaryCsv"@, Cell::Text(paths.summary_csv@)),
    );
    let told = if with_report {
        tables.push(("summaryMarkdown"@, Cell::Text(paths.summary_md@)))
    } else {
        tables
    };
    told.push(
        ("samplesJsonl"@, Cell::Text(paths.samples_jsonl@)),
    ).push(
        ("restreamLog"@, Cell::Text(paths.restream_log@)),
    ).push(
        ("mediamtxLog"@, Cell::Text(paths.mediamtx_log@)),
    )
}

fn artifacts_json(paths: &SweepPaths, with_report: bool) -> (r: Json)
    ensures
        is_record(r, artifact_cells(*paths, with_report)),
{
    let mut f: Record = Record::new();
    f.add_text("summaryJson", paths.summary_json.as_str());
    f.add_text("summaryCsv", paths.summary_csv.as_str());
    if with_report {
        f.add_text("summaryMarkdown", paths.summary_md.as_str());
    }
    f.add_text("samplesJsonl", paths.samples_jsonl.as_str());
    f.add_text("restreamLog", paths.restream_log.as_str());
    f.add_text("mediamtxLog", paths.mediamtx_log.as_str());
    f.finish()
}

/// Whether a value lists the records of measurements.
pub open spec fn lists_rows(j: Json, rows: Seq<ResourceRow>) -> bool {
    j matches Json::List(items) && items@.len() == rows.len() && forall|i: int|
        0 <= i < rows.len() ==> is_record(#[trigger] items@[i], aggregate_cells(rows[i]))
}

/// Whether a value lists the records of cases.
pub open spec fn lists_cases(j: Json, rows: Seq<BitrateRow>) -> bool {
    j matches Json::List(items) && items@.len() == rows.len() && forall|i: int|
        0 <= i < rows.len() ==> is_record(#[trigger] items@[i], case_cells(rows[i]))
}

fn list_rows(rows: &Vec<ResourceRow>) -> (r: Json)
    ensures
        lists_rows(r, rows@),
{
    let mut items: Vec<Json> = Vec::new();
    let mut i: usize = 0;
    while i < rows.len()
        invariant
            i <= rows@.len(),
            items@.len() == i,
            forall|k: int|
                0 <= k < i ==> is_record(#[trigger] items@[k], aggregate_cells(rows@[k])),
        decreases rows@.len() - i,
    {
        items.push(resource_aggregate_json(&rows[i]));
        i += 1;
    }
    Json::List(items)
}

fn list_cases(rows: &Vec<BitrateRow>) -> (r: Json)
    ensures
        lists_cases(r, rows@),
{
    let mut items: Vec<Json> = Vec::new();
    let mut i: usize = 0;
    while i < rows.len()
        invariant
            i <= rows@.len(),
            items@.len() == i,
            forall|k: int| 0 <= k < i ==> is_record(#[trigger] items@[k], case_cells(rows@[k])),
        decreases rows@.len() - i,
    {
        items.push(bitrate_sweep_case_json(&rows[i]));
        i += 1;
    }
    Json::List(items)
}

/// Whether a value is the summary of a resource sweep.
pub open spec fn is_resource_summary(
    j: Json,
    lifecycle: ResourceSweepLifecycle,
    paths: SweepPaths,
    rows: Seq<ResourceRow>,
) -> bool {
    j matches Json::Object(f) && f@.len() == 4 && is_text(f@[0], "mode"@, "resource-sweep"@)
        && is_text(f@[1], "lifecycle"@, lifecycle.worded()) && f@[2].0@ == "artifacts"@
        && is_record(f@[2].1, artifact_cells(paths, false)) && f@[3].0@ == "aggregates"@
        && lists_rows(f@[3].1, rows)
}

/// The summary of a resource sweep.
pub fn resource_sweep_summary(
    lifecycle: ResourceSweepLifecycle,
    paths: &SweepPaths,
    rows: &Vec<ResourceRow>,
) -> (r: Json)
    ensures
        is_resource_summary(r, lifecycle, *paths, rows@),
{
    let mut f: Vec<(String, Json)> = Vec::new();
    f.push(text_item("mode", "resource-sweep"));
    f.push(text_item("lifecycle", lifecycle.as_str()));
    f.push(("artifacts".to_string(), artifacts_json(paths, false)));
    f.push(("aggregates".to_string(), list_rows(rows)));
    Json::Object(f)
}

/// Whether a value is the summary of a branch matrix.
pub open spec fn is_branch_summary(
    j: Json,
    backend: Seq<char>,
    transport: Seq<char>,
    lifecycle: ResourceSweepLifecycle,
    paths: SweepPaths,
    rows: Seq<ResourceRow>,
) -> bool {
    j matches Json::Object(f) && f@.len() == 6 && is_text(f@[0], "mode"@, "branch-matrix"@)
        && is_text(f@[1], "backend"@, backend) && is_text(f@[2], "srtIngestTransport"@, transport)
        && is_text(f@[3], "lifecycle"@, lifecycle.worded()) && f@[4].0@ == "artifacts"@
        && is_record(f@[4].1, artifact_cells(paths, true)) && f@[5].0@ == "aggregates"@
        && lists_rows(f@[5].1, rows)
}

/// The summary of a branch matrix.
pub fn branch_matrix_summary(
    backend: &str,
    transport: &str,
    lifecycle: ResourceSweepLifecycle,
    paths: &SweepPaths,
    rows: &Vec<ResourceRow>,
) -> (r: Json)
    ensures
        is_branch_summary(r, backend@, transport@, lifecycle, *paths, rows@),
{
    let mut f: Vec<(String, Json)> = Vec::new();
    f.push(text_item("mode", "branch-matrix"));
    f.push(text_item("backend", backend));
    f.push(text_item("srtIngestTransport", transport));
    f.push(text_item("lifecycle", lifecycle.as_str()));
    f.push(("artifacts".to_string(), artifacts_json(paths, true)));
    f.push(("aggregates".to_string(), list_rows(rows)));
    Json::Object(f)
}

/// Whether a value is the summary of a bitrate sweep.
pub open spec fn is_bitrate_summary(j: Json, paths: SweepPaths, rows: Seq<BitrateRow>) -> bool {
    j matches Json::Object(f) && f@.len() == 3 && is_text(f@[0], "mode"@, "bitrate-sweep"@)
        && f@[1].0@ == "artifacts"@ && is_record(f@[1].1, artifact_cells(paths, false))
        && f@[2].0@ == "cases"@ && lists_cases(f@[2].1, rows)
}

/// The summary of a bitrate sweep.
pub fn bitrate_sweep_summary(paths: &SweepPaths, rows: &Vec<BitrateRow>) -> (r: Json)
    ensures
        is_bitrate_summary(r, *paths, rows@),
{
    let mut f: Vec<(String, Json)> = Vec::new();
    f.push(text_item("mode", "bitrate-sweep"));
    f.push(("artifacts".to_string(), artifacts_json(paths, false)));
    f.push(("cases".to_string(), list_cases(rows)));
    Json::Object(f)
}

// ── Laws ─────────────────────────────────────────────────────────────────────

/// The record of a measurement has the fields of the table, one for one.
pub proof fn records_have_the_fields_of_the_table(row: ResourceRow)
    ensures
        aggregate_cells(row).len() == resource_fields(row).len(),
{
}

/// A case is told to be correct where it tells no failure, and only there.
pub proof fn correct_cases_tell_no_failure(row: BitrateRow)
    ensures
        ({
            let failures = texts(row.summary.failures@);
            &&& case_cells(row)[31] == ("correctnessOk"@, Cell::Flag(failures.len() == 0))
            &&& case_cells(row)[32] == ("correctnessFailures"@, Cell::Texts(failures))
        }),
{
}

/// How a field of a record stands in a table.
pub open spec fn in_table(cell: Cell) -> Seq<char> {
    match cell {
        Cell::Text(text) => csv_field(text),
        Cell::Whole(n) => decimal(n as nat),
        Cell::Number(text) => text,
        Cell::Flag(b) => flag_word(b),
        _ => Seq::empty(),
    }
}

/// The record of a measurement and its row in the table say the same, field by field.
#[verifier::rlimit(80)]
#[verifier::spinoff_prover]
pub proof fn records_and_tables_say_the_same(row: ResourceRow, k: int)
    requires
        0 <= k < 34,
    ensures
        aggregate_cells(row).len() == 34,
        in_table(aggregate_cells(row)[k].1) == resource_fields(row)[k],
{
}

/// What a sample does not account for is what the server holds beyond what it retains and queues; the
/// rest of a sample is what was read of the processes, the memory and the server.
pub proof fn samples_account_for_what_is_known(
    s: ResourceSample,
    rss_kb: u64,
    children: FfmpegStats,
    rollup: ProcMemRollup,
    account: MemoryAccounting,
    telemetry: Json,
    health: Json,
)
    requires
        is_resource_sample(s, rss_kb, children, rollup, account, telemetry, health),
    ensures
        s.rss_kb == rss_kb && s.ffmpeg_count == children.count && s.ffmpeg_rss_kb
            == children.rss_kb,
        s.retained_kb + s.avio_len_kb <= s.rss_kb ==> s.retained_kb + s.avio_len_kb
            + s.unattributed_kb == s.rss_kb,
        s.retained_kb + s.avio_len_kb > s.rss_kb ==> s.unattributed_kb == 0,
        s.retained_kb == account.retained_kb && s.avio_len_kb == account.avio_len_kb
            && s.avio_hwm_kb == account.avio_hwm_kb,
        s.pss_kb == rollup.pss_kb && s.anonymous_kb == rollup.anonymous_kb && s.private_dirty_kb
            == rollup.private_dirty_kb && s.shared_clean_kb == rollup.shared_clean_kb,
        telemetry.list_field("ingests"@) matches Some(list) ==> s.ingests == list.len(),
        telemetry.list_field("egresses"@) matches Some(list) ==> s.egresses == list.len(),
        telemetry.list_field("stages"@) matches Some(list) ==> s.stages == list.len(),
        telemetry.u64_field("activeTranscoderBuffers"@) matches Some(n) ==> s.active_transcoder_buffers
            == n,
{
}

} // verus!
