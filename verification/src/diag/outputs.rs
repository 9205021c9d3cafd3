//! Check of the outputs that a pipeline feeds.

use vstd::prelude::*;
use vstd::string::*;

use crate::diag::{result_is, where_so, DiagResult, Findings, Report};
use crate::number::{decimal, decimal_text, signed_decimal, signed_decimal_text};
use crate::text::same_text;

verus! {

/// The quality of a TCP connection to a target. Each value is the text that shows it, or nothing
/// where it is not known.
#[derive(Debug, Clone)]
pub struct TcpQuality {
    /// Why nothing is known.
    pub unavailable: Option<String>,
    pub congestion_algorithm: Option<String>,
    pub rtt_ms: Option<String>,
    pub send_rate_mbps: Option<String>,
    pub notsent_bytes: Option<String>,
    pub unacked: Option<String>,
    pub total_retrans: Option<String>,
    pub snd_cwnd: Option<String>,
}

/// The quality of an SRT connection to a target, in the same way.
#[derive(Debug, Clone)]
pub struct SrtQuality {
    pub rtt_ms: Option<String>,
    pub send_rate_mbps: Option<String>,
    pub sent_loss: Option<String>,
    pub sent_drop: Option<String>,
    pub sent_retrans: Option<String>,
    pub bonded: Option<String>,
    pub connected_members: Option<String>,
    pub member_count: Option<String>,
    pub active_members: Option<String>,
    pub broken_members: Option<String>,
}

/// An output that is running.
#[derive(Debug, Clone)]
pub struct EgressSnapshot {
    pub output_id: String,
    pub pipeline_id: String,
    pub protocol: String,
    pub status: String,
    pub phase: String,
    pub target_url: String,
    pub target_addr: Option<String>,
    pub bytes_sent: u64,
    /// When it last made progress, in milliseconds since the epoch; 0 where it never did.
    pub last_progress_ms: i64,
    pub started_at: String,
    pub last_error: Option<String>,
    pub failure_phase: Option<String>,
    pub tcp: TcpQuality,
    pub srt: SrtQuality,
}

// ── Texts ────────────────────────────────────────────────────────────────────

/// An optional value as `{:?}` shows it, from the text of the value.
pub open spec fn debug_option(value: Option<String>) -> Seq<char> {
    match value {
        Some(text) => "Some("@ + text@ + ")"@,
        None => "None"@,
    }
}

fn debug_text(value: &Option<String>) -> (r: String)
    ensures
        r@ == debug_option(*value),
{
    match value {
        Some(text) => "Some(".to_string().concat(text.as_str()).concat(")"),
        None => "None".to_string(),
    }
}

/// A text, or another where there is none.
pub open spec fn text_or(value: Option<String>, default: Seq<char>) -> Seq<char> {
    match value {
        Some(text) => text@,
        None => default,
    }
}

fn text_or_default(value: &Option<String>, default: &str) -> (r: String)
    ensures
        r@ == text_or(*value, default@),
{
    match value {
        Some(text) => text.clone(),
        None => default.to_string(),
    }
}

/// How long ago an output made progress, as of `now_ms`.
pub open spec fn progress_text(last_progress_ms: i64, now_ms: i64) -> Seq<char> {
    if last_progress_ms > 0 {
        signed_decimal(
            (if now_ms < 0 {
                0
            } else {
                now_ms as int
            }) - last_progress_ms,
        ) + "ms ago"@
    } else {
        "never"@
    }
}

fn progress_of(last_progress_ms: i64, now_ms: i64) -> (r: String)
    ensures
        r@ == progress_text(last_progress_ms, now_ms),
{
    if last_progress_ms > 0 {
        let now: i64 = if now_ms < 0 {
            0
        } else {
            now_ms
        };
        signed_decimal_text(now - last_progress_ms).concat("ms ago")
    } else {
        "never".to_string()
    }
}

// ── One output ───────────────────────────────────────────────────────────────

/// The line that shows an output.
pub open spec fn output_line(e: EgressSnapshot, now_ms: i64) -> Seq<char> {
    "Output "@ + e.output_id@ + ": protocol="@ + e.protocol@ + " status="@ + e.status@ + " phase="@
        + e.phase@ + " target="@ + e.target_url@ + " target_addr="@ + text_or(
        e.target_addr,
        "unresolved"@,
    ) + " bytes_sent="@ + decimal(e.bytes_sent as nat) + " last_progress="@ + progress_text(
        e.last_progress_ms,
        now_ms,
    ) + " started_at="@ + e.started_at@
}

/// The line that shows the quality of a TCP connection.
pub open spec fn tcp_quality_line(q: TcpQuality) -> Seq<char> {
    "  tcp_quality cc="@ + debug_option(q.congestion_algorithm) + " rtt_ms="@ + debug_option(
        q.rtt_ms,
    ) + " send_mbps="@ + debug_option(q.send_rate_mbps) + " notsent_bytes="@ + debug_option(
        q.notsent_bytes,
    ) + " unacked="@ + debug_option(q.unacked) + " retrans_total="@ + debug_option(q.total_retrans)
        + " snd_cwnd="@ + debug_option(q.snd_cwnd)
}

/// The line that shows the quality of an SRT connection.
pub open spec fn srt_quality_line(q: SrtQuality) -> Seq<char> {
    "  srt_quality rtt_ms="@ + debug_option(q.rtt_ms) + " send_mbps="@ + debug_option(
        q.send_rate_mbps,
    ) + " sent_loss="@ + debug_option(q.sent_loss) + " sent_drop="@ + debug_option(q.sent_drop)
        + " sent_retrans="@ + debug_option(q.sent_retrans) + " bonded="@ + debug_option(q.bonded)
        + " members="@ + debug_option(q.connected_members) + "/"@ + debug_option(q.member_count)
        + " active="@ + debug_option(q.active_members) + " broken="@ + debug_option(
        q.broken_members,
    )
}

/// What is said of the quality of an output: by its protocol, and only where something is known.
pub open spec fn quality_report(r: Report, e: EgressSnapshot) -> Report {
    if e.protocol@ == "rtmp"@ {
        match e.tcp.unavailable {
            Some(reason) => r.line("  tcp_quality=unavailable reason="@ + reason@),
            None => if e.tcp.rtt_ms is Some || e.tcp.send_rate_mbps is Some
                || e.tcp.notsent_bytes is Some {
                r.line(tcp_quality_line(e.tcp))
            } else {
                r
            },
        }
    } else if e.protocol@ == "srt"@ {
        if e.srt.rtt_ms is Some || e.srt.send_rate_mbps is Some || e.srt.bonded is Some {
            r.line(srt_quality_line(e.srt))
        } else {
            r
        }
    } else {
        r
    }
}

/// Whether an output has failed.
pub open spec fn has_failed(e: EgressSnapshot) -> bool {
    e.status@ == "failed"@ || e.phase@ == "failed"@
}

/// What is said of one output.
pub open spec fn output_report(r: Report, e: EgressSnapshot, now_ms: i64) -> Report {
    let shown = r.line(output_line(e, now_ms));
    let explained = match e.last_error {
        Some(error) => shown.line(
            "  last_error_phase="@ + text_or(e.failure_phase, "unknown"@) + " last_error="@ + error@,
        ),
        None => shown,
    };
    quality_report(explained, e).issue_if(
        has_failed(e),
        "Output "@ + e.output_id@ + " has failed in phase "@ + e.phase@ + ". Check target URL: "@
            + e.target_url@,
    )
}

/// What is said of the outputs, one after another.
pub open spec fn outputs_from(r: Report, outputs: Seq<EgressSnapshot>, now_ms: i64) -> Report
    decreases outputs.len(),
{
    if outputs.len() == 0 {
        r
    } else {
        output_report(outputs_from(r, outputs.drop_last(), now_ms), outputs.last(), now_ms)
    }
}

/// The outputs that a pipeline feeds, in order.
pub open spec fn fed_by(all: Seq<EgressSnapshot>, pipeline: Seq<char>) -> Seq<EgressSnapshot>
    decreases all.len(),
{
    if all.len() == 0 {
        Seq::empty()
    } else if all.last().pipeline_id@ == pipeline {
        fed_by(all.drop_last(), pipeline).push(all.last())
    } else {
        fed_by(all.drop_last(), pipeline)
    }
}

/// How many outputs a pipeline feeds.
pub fn count_outputs(all: &Vec<EgressSnapshot>, pipeline_id: &str) -> (r: usize)
    ensures
        r == fed_by(all@, pipeline_id@).len(),
{
    let mut count: usize = 0;
    let mut i: usize = 0;
    assert(all@.take(0) =~= Seq::<EgressSnapshot>::empty());
    while i < all.len()
        invariant
            i <= all@.len(),
            count <= i,
            count == fed_by(all@.take(i as int), pipeline_id@).len(),
        decreases all@.len() - i,
    {
        assert(all@.take(i + 1).drop_last() =~= all@.take(i as int));
        if same_text(all[i].pipeline_id.as_str(), pipeline_id) {
            count += 1;
        }
        i += 1;
    }
    assert(all@.take(all@.len() as int) =~= all@);
    count
}

/// What the check of the outputs reports.
pub open spec fn outputs_report(outputs: Seq<EgressSnapshot>, now_ms: i64) -> Report {
    if outputs.len() == 0 {
        Report::empty().line("No active outputs for this pipeline."@)
    } else {
        outputs_from(Report::empty(), outputs, now_ms)
    }
}

fn output_text(e: &EgressSnapshot, now_ms: i64) -> (r: String)
    ensures
        r@ == output_line(*e, now_ms),
{
    "Output ".to_string().concat(e.output_id.as_str()).concat(": protocol=").concat(
        e.protocol.as_str(),
    ).concat(" status=").concat(e.status.as_str()).concat(" phase=").concat(
        e.phase.as_str(),
    ).concat(" target=").concat(e.target_url.as_str()).concat(" target_addr=").concat(
        text_or_default(&e.target_addr, "unresolved").as_str(),
    ).concat(" bytes_sent=").concat(decimal_text(e.bytes_sent).as_str()).concat(
        " last_progress=",
    ).concat(progress_of(e.last_progress_ms, now_ms).as_str()).concat(" started_at=").concat(
        e.started_at.as_str(),
    )
}

fn tcp_quality_text(q: &TcpQuality) -> (r: String)
    ensures
        r@ == tcp_quality_line(*q),
{
    "  tcp_quality cc=".to_string().concat(debug_text(&q.congestion_algorithm).as_str()).concat(
        " rtt_ms=",
    ).concat(debug_text(&q.rtt_ms).as_str()).concat(" send_mbps=").concat(
        debug_text(&q.send_rate_mbps).as_str(),
    ).concat(" notsent_bytes=").concat(debug_text(&q.notsent_bytes).as_str()).concat(
        " unacked=",
    ).concat(debug_text(&q.unacked).as_str()).concat(" retrans_total=").concat(
        debug_text(&q.total_retrans).as_str(),
    ).concat(" snd_cwnd=").concat(debug_text(&q.snd_cwnd).as_str())
}

fn srt_quality_text(q: &SrtQuality) -> (r: String)
    ensures
        r@ == srt_quality_line(*q),
{
    "  srt_quality rtt_ms=".to_string().concat(debug_text(&q.rtt_ms).as_str()).concat(
        " send_mbps=",
    ).concat(debug_text(&q.send_rate_mbps).as_str()).concat(" sent_loss=").concat(
        debug_text(&q.sent_loss).as_str(),
    ).concat(" sent_drop=").concat(debug_text(&q.sent_drop).as_str()).concat(
        " sent_retrans=",
    ).concat(debug_text(&q.sent_retrans).as_str()).concat(" bonded=").concat(
        debug_text(&q.bonded).as_str(),
    ).concat(" members=").concat(debug_text(&q.connected_members).as_str()).concat("/").concat(
        debug_text(&q.member_count).as_str(),
    ).concat(" active=").concat(debug_text(&q.active_members).as_str()).concat(" broken=").concat(
        debug_text(&q.broken_members).as_str(),
    )
}

fn report_quality(f: &mut Findings, e: &EgressSnapshot)
    ensures
        final(f)@ == quality_report(old(f)@, *e),
{
    if same_text(e.protocol.as_str(), "rtmp") {
        match &e.tcp.unavailable {
            Some(reason) => {
                f.line("  tcp_quality=unavailable reason=".to_string().concat(reason.as_str()));
            },
            None => if e.tcp.rtt_ms.is_some() || e.tcp.send_rate_mbps.is_some()
                || e.tcp.notsent_bytes.is_some() {
                f.line(tcp_quality_text(&e.tcp));
            },
        }
    } else if same_text(e.protocol.as_str(), "srt") {
        if e.srt.rtt_ms.is_some() || e.srt.send_rate_mbps.is_some() || e.srt.bonded.is_some() {
            f.line(srt_quality_text(&e.srt));
        }
    }
}

fn report_output(f: &mut Findings, e: &EgressSnapshot, now_ms: i64)
    ensures
        final(f)@ == output_report(old(f)@, *e, now_ms),
{
    f.line(output_text(e, now_ms));
    if let Some(error) = &e.last_error {
        f.line(
            "  last_error_phase=".to_string().concat(
                text_or_default(&e.failure_phase, "unknown").as_str(),
            ).concat(" last_error=").concat(error.as_str()),
        );
    }
    report_quality(f, e);
    if same_text(e.status.as_str(), "failed") || same_text(e.phase.as_str(), "failed") {
        f.issue(
            "Output ".to_string().concat(e.output_id.as_str()).concat(
                " has failed in phase ",
            ).concat(e.phase.as_str()).concat(". Check target URL: ").concat(e.target_url.as_str()),
        );
    }
}

/// The check of the outputs that a pipeline feeds, out of all that run, in the order in which they
/// are given, as of `now_ms`.
pub fn check_active_outputs(
    idx: u32,
    all: &Vec<EgressSnapshot>,
    pipeline_id: &str,
    now_ms: i64,
    elapsed_ms: u64,
) -> (r: DiagResult)
    ensures
        result_is(
            r,
            idx,
            "Active Outputs"@,
            "Egress target status and throughput"@,
            "engine.active_egresses snapshot"@,
            outputs_report(fed_by(all@, pipeline_id@), now_ms),
            elapsed_ms,
        ),
{
    let mut f: Findings = Findings::new();
    if count_outputs(all, pipeline_id) == 0 {
        f.line("No active outputs for this pipeline.".to_string());
    } else {
        let mut i: usize = 0;
        assert(all@.take(0) =~= Seq::<EgressSnapshot>::empty());
        while i < all.len()
            invariant
                i <= all@.len(),
                f@ == outputs_from(
                    Report::empty(),
                    fed_by(all@.take(i as int), pipeline_id@),
                    now_ms,
                ),
            decreases all@.len() - i,
        {
            let ghost before = fed_by(all@.take(i as int), pipeline_id@);
            assert(all@.take(i + 1).drop_last() =~= all@.take(i as int));
            if same_text(all[i].pipeline_id.as_str(), pipeline_id) {
                report_output(&mut f, &all[i], now_ms);
                assert(before.push(all@[i as int]).drop_last() =~= before);
            }
            i += 1;
        }
        assert(all@.take(all@.len() as int) =~= all@);
    }
    f.finish(
        idx,
        "Active Outputs",
        "Egress target status and throughput",
        "engine.active_egresses snapshot",
        elapsed_ms,
    )
}

// ── Laws ─────────────────────────────────────────────────────────────────────

/// How many of the outputs have failed.
pub open spec fn failed_count(outputs: Seq<EgressSnapshot>) -> int
    decreases outputs.len(),
{
    if outputs.len() == 0 {
        0
    } else {
        failed_count(outputs.drop_last()) + if has_failed(outputs.last()) {
            1int
        } else {
            0int
        }
    }
}

/// Every output that has failed raises one issue, and no other does.
pub proof fn one_issue_per_failed_output(r: Report, outputs: Seq<EgressSnapshot>, now_ms: i64)
    ensures
        outputs_from(r, outputs, now_ms).issues.len() == r.issues.len() + failed_count(outputs),
    decreases outputs.len(),
{
    if outputs.len() > 0 {
        one_issue_per_failed_output(r, outputs.drop_last(), now_ms);
    }
}

/// The outputs that are looked at are exactly those of the pipeline.
pub proof fn only_outputs_of_the_pipeline_are_checked(
    all: Seq<EgressSnapshot>,
    pipeline: Seq<char>,
    e: EgressSnapshot,
)
    ensures
        fed_by(all, pipeline).contains(e) <==> all.contains(e) && e.pipeline_id@ == pipeline,
    decreases all.len(),
{
    if all.len() > 0 {
        let front = all.drop_last();
        only_outputs_of_the_pipeline_are_checked(front, pipeline, e);
        let fed = fed_by(front, pipeline);
        if all.contains(e) {
            let i = all.index_of(e);
            if i < front.len() {
                assert(front[i] == e);
            }
        }
        if front.contains(e) {
            let i = front.index_of(e);
            assert(all[i] == e);
        }
        if fed.contains(e) {
            let i = fed.index_of(e);
            assert(fed.push(all.last())[i] == e);
        }
        assert(fed.push(all.last())[fed.len() as int] == all.last());
        assert(all[all.len() - 1] == all.last());
        if fed.push(all.last()).contains(e) {
            let i = fed.push(all.last()).index_of(e);
            if i < fed.len() {
                assert(fed[i] == e);
            }
        }
    }
}

/// An output has failed exactly when its status or its phase says so.
pub proof fn failed_outputs_say_so(e: EgressSnapshot)
    ensures
        has_failed(e) <==> e.status@ == "failed"@ || e.phase@ == "failed"@,
{
}

/// What one output adds to a report: an issue that names it, its phase and its address where it has
/// failed, and a line that shows it; its error and its quality follow on lines of their own.
pub proof fn output_is_shown_and_judged(r: Report, e: EgressSnapshot, now_ms: i64)
    ensures
        output_report(r, e, now_ms).issues == r.issues + where_so(
            e.status@ == "failed"@ || e.phase@ == "failed"@,
            "Output "@ + e.output_id@ + " has failed in phase "@ + e.phase@
                + ". Check target URL: "@ + e.target_url@,
        ),
        output_report(r, e, now_ms).lines.len() >= r.lines.len() + 1,
        output_report(r, e, now_ms).lines[r.lines.len() as int] == output_line(e, now_ms),
        e.last_error is Some ==> output_report(r, e, now_ms).lines.len() >= r.lines.len() + 2
            && output_report(r, e, now_ms).lines[r.lines.len() as int + 1] == "  last_error_phase="@ + (
        match e.failure_phase {
            Some(phase) => phase@,
            None => "unknown"@,
        }) + " last_error="@ + e.last_error->0@,
{
    let all = r.issues + where_so(
        e.status@ == "failed"@ || e.phase@ == "failed"@,
        "Output "@ + e.output_id@ + " has failed in phase "@ + e.phase@ + ". Check target URL: "@
            + e.target_url@,
    );
    assert(output_report(r, e, now_ms).issues =~= all);
}

/// The progress of an output is told by how long ago it was; one that never made any says so.
pub proof fn progress_is_told_by_its_age(last_progress_ms: i64, now_ms: i64)
    ensures
        last_progress_ms <= 0 ==> progress_text(last_progress_ms, now_ms) == "never"@,
        0 < last_progress_ms <= now_ms ==> progress_text(last_progress_ms, now_ms) == decimal(
            (now_ms - last_progress_ms) as nat,
        ) + "ms ago"@,
{
}

/// The line of an output names its id, protocol, status, phase and address, in that order.
pub proof fn output_line_begins_with_what_it_is(e: EgressSnapshot, now_ms: i64)
    ensures
        crate::text::starts(
            output_line(e, now_ms),
            "Output "@ + e.output_id@ + ": protocol="@ + e.protocol@ + " status="@ + e.status@
                + " phase="@ + e.phase@ + " target="@ + e.target_url@ + " target_addr="@,
        ),
        crate::text::ends(output_line(e, now_ms), " started_at="@ + e.started_at@),
{
    let line = output_line(e, now_ms);
    let head = "Output "@ + e.output_id@ + ": protocol="@ + e.protocol@ + " status="@ + e.status@
        + " phase="@ + e.phase@ + " target="@ + e.target_url@ + " target_addr="@;
    let tail = " started_at="@ + e.started_at@;
    assert(line.take(head.len() as int) =~= head);
    assert(line.skip(line.len() - tail.len()) =~= tail);
}

} // verus!
