//! Check of the connection between a publisher and the server.

use vstd::prelude::*;
use vstd::string::*;

use crate::diag::{result_is, where_so, DiagResult, Findings, Reading, Report};
use crate::number::{decimal, decimal_text};
use crate::text::same_text;

verus! {

/// A count of packets: how many so far, and how many a second where that is known.
#[derive(Debug, Clone)]
pub struct PacketCount {
    pub total: Option<u64>,
    /// With one decimal.
    pub per_sec: Option<Reading>,
}

/// A socket buffer.
#[derive(Debug, Clone)]
pub struct BufferLevel {
    pub used_bytes: u64,
    pub free_bytes: u64,
    /// How full it is in percent, without decimals.
    pub percent: String,
}

/// The links of a bonded connection.
#[derive(Debug, Clone, Copy)]
pub struct BondSnapshot {
    pub members: Option<u64>,
    pub connected: Option<u64>,
    pub active: Option<u64>,
    pub broken: Option<u64>,
}

/// What is known of an SRT connection.
#[derive(Debug, Clone)]
pub struct SrtSnapshot {
    /// Whether the connection is bonded, where that is known.
    pub bonded: Option<bool>,
    pub bond: BondSnapshot,
    /// In milliseconds, with one decimal.
    pub rtt: Option<Reading>,
    /// In Mbps, with two decimals.
    pub receive_rate: Option<String>,
    /// In Mbps, with two decimals.
    pub link_capacity: Option<String>,
    pub lost: PacketCount,
    pub dropped: PacketCount,
    pub retransmitted: PacketCount,
    pub undecrypted: PacketCount,
    /// In milliseconds, without decimals.
    pub negotiated_latency: Option<String>,
    /// In milliseconds, without decimals.
    pub current_latency: Option<String>,
    pub send_buffer: Option<BufferLevel>,
    pub receive_buffer: Option<BufferLevel>,
    pub in_flight: Option<u64>,
}

/// The receive buffer of a TCP socket.
#[derive(Debug, Clone)]
pub struct SocketMemory {
    pub used: u32,
    /// The limit of the buffer, where it is known.
    pub max: Option<u32>,
    /// How full it is in percent, with one decimal.
    pub percent: String,
}

impl SocketMemory {
    /// More than four fifths of the buffer are in use.
    pub open spec fn saturated(self) -> bool {
        self.max matches Some(max) && 10 * self.used > 8 * max
    }
}

/// What is known of a TCP connection.
#[derive(Debug, Clone)]
pub struct TcpSnapshot {
    /// Why nothing is known.
    pub unavailable: Option<String>,
    /// In milliseconds, with one decimal.
    pub rtt: Option<Reading>,
    /// In Mbps, with two decimals.
    pub receive_rate: Option<String>,
    /// In milliseconds, with one decimal.
    pub receive_rtt: Option<String>,
    pub last_receive_ms: Option<u64>,
    pub out_of_order: Option<u64>,
    pub receive_window: Option<u64>,
    pub memory: Option<SocketMemory>,
}

/// The connections of a publisher, as the two kinds of transport see it.
#[derive(Debug, Clone)]
pub struct TransportSnapshot {
    pub srt: SrtSnapshot,
    pub tcp: TcpSnapshot,
}

// ── SRT ──────────────────────────────────────────────────────────────────────

/// A count that is not known is zero.
pub open spec fn count(n: Option<u64>) -> u64 {
    match n {
        Some(n) => n,
        None => 0,
    }
}

/// What is said of the links of a bond.
pub open spec fn bond_report(r: Report, bonded: Option<bool>, bond: BondSnapshot) -> Report {
    match bonded {
        Some(true) => r.line(
            "Bonded group: "@ + decimal(count(bond.members) as nat) + " members, "@ + decimal(
                count(bond.connected) as nat,
            ) + " connected, "@ + decimal(count(bond.active) as nat) + " active, "@ + decimal(
                count(bond.broken) as nat,
            ) + " broken"@,
        ).issue_if(count(bond.active) == 0, "SRT bond has no active member links."@).issue_if(
            count(bond.broken) > 0,
            "SRT bond has "@ + decimal(count(bond.broken) as nat) + " broken member link(s)."@,
        ),
        Some(false) => r.line("Bonded group: no (single SRT link)"@),
        None => r,
    }
}

/// What is said of the speed of an SRT link.
pub open spec fn srt_speed_report(r: Report, srt: SrtSnapshot) -> Report {
    let a = match srt.rtt {
        Some(rtt) => r.line("RTT: "@ + rtt.text@ + " ms"@).issue_if(
            rtt.above(200),
            "High SRT RTT: "@ + rtt.text@ + "ms (threshold 200ms)"@,
        ),
        None => r,
    };
    let b = match srt.receive_rate {
        Some(rate) => a.line("Receive rate: "@ + rate@ + " Mbps"@),
        None => a,
    };
    match srt.link_capacity {
        Some(capacity) => b.line("Link capacity: "@ + capacity@ + " Mbps"@),
        None => b,
    }
}

/// The line that shows a count of packets.
pub open spec fn packet_line(label: Seq<char>, packets: PacketCount) -> Seq<char> {
    let rate = match packets.per_sec {
        Some(rate) => rate.text@,
        None => "—"@,
    };
    label + ": "@ + rate + "/s ("@ + decimal(count(packets.total) as nat) + " total)"@
}

/// What is said of the packets that did not come as they should.
pub open spec fn packets_report(r: Report, srt: SrtSnapshot) -> Report {
    r.line(packet_line("Packets lost"@, srt.lost)).issue_if(
        srt.lost.per_sec matches Some(rate) && rate.at_least(5),
        "High SRT packet loss rate: "@ + srt.lost.per_sec->0.text@ + "/s (threshold 5/s)"@,
    ).line(packet_line("Packets dropped"@, srt.dropped)).issue_if(
        srt.dropped.per_sec matches Some(rate) && rate.at_least(1),
        "SRT packet drop rate: "@ + srt.dropped.per_sec->0.text@ + "/s (threshold 1/s)"@,
    ).line(packet_line("Packets retransmitted"@, srt.retransmitted)).issue_if(
        srt.retransmitted.per_sec matches Some(rate) && rate.at_least(10),
        "High SRT retransmission rate: "@ + srt.retransmitted.per_sec->0.text@
            + "/s (threshold 10/s)"@,
    ).line(packet_line("Packets undecrypted"@, srt.undecrypted)).issue_if(
        srt.undecrypted.per_sec matches Some(rate) && rate.above(0),
        "SRT undecrypted packet rate: "@ + srt.undecrypted.per_sec->0.text@ + "/s (expected 0/s)"@,
    )
}

/// The line that shows a buffer.
pub open spec fn buffer_line(label: Seq<char>, level: BufferLevel) -> Seq<char> {
    label + ": "@ + decimal((level.used_bytes / 1024) as nat) + "KB / "@ + decimal(
        ((level.used_bytes + level.free_bytes) / 1024) as nat,
    ) + "KB ("@ + level.percent@ + "%)"@
}

/// What is said of the buffers of an SRT link.
pub open spec fn srt_buffers_report(r: Report, srt: SrtSnapshot) -> Report {
    let a = match srt.negotiated_latency {
        Some(ms) => r.line("Negotiated latency buffer: "@ + ms@ + "ms"@),
        None => r,
    };
    let b = match srt.current_latency {
        Some(ms) => a.line("Current latency buffer: "@ + ms@ + "ms"@),
        None => a,
    };
    let c = match srt.send_buffer {
        Some(level) => b.line(buffer_line("Send buffer"@, level)),
        None => b,
    };
    let d = match srt.receive_buffer {
        Some(level) => c.line(buffer_line("Recv buffer"@, level)),
        None => c,
    };
    match srt.in_flight {
        Some(n) => d.line("Packets in flight: "@ + decimal(n as nat)),
        None => d,
    }
}

/// What is reported of an SRT connection.
pub open spec fn srt_report(srt: SrtSnapshot) -> Report {
    srt_buffers_report(
        packets_report(
            srt_speed_report(
                bond_report(Report::empty().line("Protocol: SRT"@), srt.bonded, srt.bond),
                srt,
            ),
            srt,
        ),
        srt,
    )
}

fn count_of(n: Option<u64>) -> (r: u64)
    ensures
        r == count(n),
{
    match n {
        Some(n) => n,
        None => 0,
    }
}

fn report_bond(f: &mut Findings, bonded: Option<bool>, bond: &BondSnapshot)
    ensures
        final(f)@ == bond_report(old(f)@, bonded, *bond),
{
    match bonded {
        Some(true) => {
            let active: u64 = count_of(bond.active);
            let broken: u64 = count_of(bond.broken);
            f.line(
                "Bonded group: ".to_string().concat(
                    decimal_text(count_of(bond.members)).as_str(),
                ).concat(" members, ").concat(
                    decimal_text(count_of(bond.connected)).as_str(),
                ).concat(" connected, ").concat(decimal_text(active).as_str()).concat(
                    " active, ",
                ).concat(decimal_text(broken).as_str()).concat(" broken"),
            );
            if active == 0 {
                f.issue("SRT bond has no active member links.".to_string());
            }
            if broken > 0 {
                f.issue(
                    "SRT bond has ".to_string().concat(decimal_text(broken).as_str()).concat(
                        " broken member link(s).",
                    ),
                );
            }
        },
        Some(false) => {
            f.line("Bonded group: no (single SRT link)".to_string());
        },
        None => {},
    }
}

fn report_srt_speed(f: &mut Findings, srt: &SrtSnapshot)
    ensures
        final(f)@ == srt_speed_report(old(f)@, *srt),
{
    if let Some(rtt) = &srt.rtt {
        f.line("RTT: ".to_string().concat(rtt.text.as_str()).concat(" ms"));
        if rtt.ceil > 200 {
            f.issue(
                "High SRT RTT: ".to_string().concat(rtt.text.as_str()).concat(
                    "ms (threshold 200ms)",
                ),
            );
        }
    }
    if let Some(rate) = &srt.receive_rate {
        f.line("Receive rate: ".to_string().concat(rate.as_str()).concat(" Mbps"));
    }
    if let Some(capacity) = &srt.link_capacity {
        f.line("Link capacity: ".to_string().concat(capacity.as_str()).concat(" Mbps"));
    }
}

fn packet_text(label: &str, packets: &PacketCount) -> (r: String)
    ensures
        r@ == packet_line(label@, *packets),
{
    let rate: String = match &packets.per_sec {
        Some(rate) => rate.text.clone(),
        None => "—".to_string(),
    };
    label.to_string().concat(": ").concat(rate.as_str()).concat("/s (").concat(
        decimal_text(count_of(packets.total)).as_str(),
    ).concat(" total)")
}

fn report_packets(f: &mut Findings, srt: &SrtSnapshot)
    ensures
        final(f)@ == packets_report(old(f)@, *srt),
{
    f.line(packet_text("Packets lost", &srt.lost));
    if let Some(rate) = &srt.lost.per_sec {
        if rate.floor >= 5 {
            f.issue(
                "High SRT packet loss rate: ".to_string().concat(rate.text.as_str()).concat(
                    "/s (threshold 5/s)",
                ),
            );
        }
    }
    f.line(packet_text("Packets dropped", &srt.dropped));
    if let Some(rate) = &srt.dropped.per_sec {
        if rate.floor >= 1 {
            f.issue(
                "SRT packet drop rate: ".to_string().concat(rate.text.as_str()).concat(
                    "/s (threshold 1/s)",
                ),
            );
        }
    }
    f.line(packet_text("Packets retransmitted", &srt.retransmitted));
    if let Some(rate) = &srt.retransmitted.per_sec {
        if rate.floor >= 10 {
            f.issue(
                "High SRT retransmission rate: ".to_string().concat(rate.text.as_str()).concat(
                    "/s (threshold 10/s)",
                ),
            );
        }
    }
    f.line(packet_text("Packets undecrypted", &srt.undecrypted));
    if let Some(rate) = &srt.undecrypted.per_sec {
        if rate.ceil > 0 {
            f.issue(
                "SRT undecrypted packet rate: ".to_string().concat(rate.text.as_str()).concat(
                    "/s (expected 0/s)",
                ),
            );
        }
    }
}

fn buffer_text(label: &str, level: &BufferLevel) -> (r: String)
    requires
        level.used_bytes + level.free_bytes <= u64::MAX,
    ensures
        r@ == buffer_line(label@, *level),
{
    let total: u64 = level.used_bytes + level.free_bytes;
    label.to_string().concat(": ").concat(decimal_text(level.used_bytes / 1024).as_str()).concat(
        "KB / ",
    ).concat(decimal_text(total / 1024).as_str()).concat("KB (").concat(
        level.percent.as_str(),
    ).concat("%)")
}

/// The sizes of the buffers are within what can be computed with.
pub open spec fn buffers_fit(srt: SrtSnapshot) -> bool {
    &&& srt.send_buffer matches Some(level) ==> level.used_bytes + level.free_bytes <= u64::MAX
    &&& srt.receive_buffer matches Some(level) ==> level.used_bytes + level.free_bytes <= u64::MAX
}

fn report_srt_buffers(f: &mut Findings, srt: &SrtSnapshot)
    requires
        buffers_fit(*srt),
    ensures
        final(f)@ == srt_buffers_report(old(f)@, *srt),
{
    if let Some(ms) = &srt.negotiated_latency {
        f.line("Negotiated latency buffer: ".to_string().concat(ms.as_str()).concat("ms"));
    }
    if let Some(ms) = &srt.current_latency {
        f.line("Current latency buffer: ".to_string().concat(ms.as_str()).concat("ms"));
    }
    if let Some(level) = &srt.send_buffer {
        f.line(buffer_text("Send buffer", level));
    }
    if let Some(level) = &srt.receive_buffer {
        f.line(buffer_text("Recv buffer", level));
    }
    if let Some(n) = srt.in_flight {
        f.line("Packets in flight: ".to_string().concat(decimal_text(n).as_str()));
    }
}

// ── TCP ──────────────────────────────────────────────────────────────────────

/// What is said of the speed of a TCP connection.
pub open spec fn tcp_speed_report(r: Report, tcp: TcpSnapshot) -> Report {
    let a = match tcp.rtt {
        Some(rtt) => r.line("TCP RTT: "@ + rtt.text@ + " ms"@).issue_if(
            rtt.at_least(200),
            "High TCP RTT: "@ + rtt.text@ + "ms (threshold 200ms)"@,
        ),
        None => r,
    };
    let b = match tcp.receive_rate {
        Some(rate) => a.line("TCP receive rate: "@ + rate@ + " Mbps"@),
        None => a,
    };
    match tcp.receive_rtt {
        Some(rtt) => b.line("TCP receive RTT: "@ + rtt@ + " ms"@),
        None => b,
    }
}

/// What is said of what a TCP connection has received.
pub open spec fn tcp_receive_report(r: Report, tcp: TcpSnapshot) -> Report {
    let a = match tcp.last_receive_ms {
        Some(ms) => r.line("Time since last receive: "@ + decimal(ms as nat) + " ms"@).issue_if(
            ms >= 5_000,
            "RTMP publisher receive stall: "@ + decimal(ms as nat)
                + "ms since last packet (threshold 5000ms)"@,
        ),
        None => r,
    };
    let b = match tcp.out_of_order {
        Some(n) => a.line("Out-of-order packets (HOL): "@ + decimal(n as nat)).issue_if(
            n >= 50,
            "High TCP out-of-order packet count: "@ + decimal(n as nat) + " (threshold 50)"@,
        ),
        None => a,
    };
    match tcp.receive_window {
        Some(n) => b.line("TCP receive window: "@ + decimal(n as nat) + " bytes"@),
        None => b,
    }
}

/// What is said of the receive buffer of a TCP connection.
pub open spec fn tcp_memory_report(r: Report, memory: Option<SocketMemory>) -> Report {
    match memory {
        Some(m) => match m.max {
            Some(max) => if max > 0 {
                r.line(
                    "TCP receive buffer: "@ + decimal(m.used as nat) + " / "@ + decimal(max as nat)
                        + " bytes ("@ + m.percent@ + "%)"@,
                ).issue_if(
                    m.saturated(),
                    "TCP receive buffer is "@ + m.percent@ + "% full (threshold 80%)"@,
                )
            } else {
                r.line("TCP receive buffer used: "@ + decimal(m.used as nat) + " bytes"@)
            },
            None => r.line("TCP receive buffer used: "@ + decimal(m.used as nat) + " bytes"@),
        },
        None => r,
    }
}

/// What is reported of a TCP connection.
pub open spec fn tcp_report(tcp: TcpSnapshot) -> Report {
    let head = Report::empty().line("Protocol: RTMP (TCP)"@);
    match tcp.unavailable {
        Some(reason) => head.line("TCP stats unavailable: "@ + reason@).issue(
            "TCP transport stats could not be collected: "@ + reason@,
        ),
        None => {
            let body = tcp_memory_report(
                tcp_receive_report(tcp_speed_report(head, tcp), tcp),
                tcp.memory,
            );
            if body.lines.len() == 1 {
                body.line("No TCP socket stats available yet."@).issue(
                    "TCP quality metrics not yet populated. Stats update periodically while RTMP is connected."@,
                )
            } else {
                body
            }
        },
    }
}

fn report_tcp_speed(f: &mut Findings, tcp: &TcpSnapshot)
    ensures
        final(f)@ == tcp_speed_report(old(f)@, *tcp),
{
    if let Some(rtt) = &tcp.rtt {
        f.line("TCP RTT: ".to_string().concat(rtt.text.as_str()).concat(" ms"));
        if rtt.floor >= 200 {
            f.issue(
                "High TCP RTT: ".to_string().concat(rtt.text.as_str()).concat(
                    "ms (threshold 200ms)",
                ),
            );
        }
    }
    if let Some(rate) = &tcp.receive_rate {
        f.line("TCP receive rate: ".to_string().concat(rate.as_str()).concat(" Mbps"));
    }
    if let Some(rtt) = &tcp.receive_rtt {
        f.line("TCP receive RTT: ".to_string().concat(rtt.as_str()).concat(" ms"));
    }
}

fn report_tcp_receive(f: &mut Findings, tcp: &TcpSnapshot)
    ensures
        final(f)@ == tcp_receive_report(old(f)@, *tcp),
{
    if let Some(ms) = tcp.last_receive_ms {
        f.line(
            "Time since last receive: ".to_string().concat(decimal_text(ms).as_str()).concat(" ms"),
        );
        if ms >= 5_000 {
            f.issue(
                "RTMP publisher receive stall: ".to_string().concat(
                    decimal_text(ms).as_str(),
                ).concat("ms since last packet (threshold 5000ms)"),
            );
        }
    }
    if let Some(n) = tcp.out_of_order {
        f.line("Out-of-order packets (HOL): ".to_string().concat(decimal_text(n).as_str()));
        if n >= 50 {
            f.issue(
                "High TCP out-of-order packet count: ".to_string().concat(
                    decimal_text(n).as_str(),
                ).concat(" (threshold 50)"),
            );
        }
    }
    if let Some(n) = tcp.receive_window {
        f.line("TCP receive window: ".to_string().concat(decimal_text(n).as_str()).concat(" bytes"));
    }
}

fn report_tcp_memory(f: &mut Findings, memory: &Option<SocketMemory>)
    ensures
        final(f)@ == tcp_memory_report(old(f)@, *memory),
{
    if let Some(m) = memory {
        let used: u64 = m.used as u64;
        match m.max {
            Some(max) => if max > 0 {
                f.line(
                    "TCP receive buffer: ".to_string().concat(decimal_text(used).as_str()).concat(
                        " / ",
                    ).concat(decimal_text(max as u64).as_str()).concat(" bytes (").concat(
                        m.percent.as_str(),
                    ).concat("%)"),
                );
                if 10 * used > 8 * (max as u64) {
                    f.issue(
                        "TCP receive buffer is ".to_string().concat(m.percent.as_str()).concat(
                            "% full (threshold 80%)",
                        ),
                    );
                }
            } else {
                f.line(
                    "TCP receive buffer used: ".to_string().concat(
                        decimal_text(used).as_str(),
                    ).concat(" bytes"),
                );
            },
            None => {
                f.line(
                    "TCP receive buffer used: ".to_string().concat(
                        decimal_text(used).as_str(),
                    ).concat(" bytes"),
                );
            },
        }
    }
}

fn report_tcp(f: &mut Findings, tcp: &TcpSnapshot)
    requires
        old(f)@ == Report::empty(),
    ensures
        final(f)@ == tcp_report(*tcp),
{
    f.line("Protocol: RTMP (TCP)".to_string());
    match &tcp.unavailable {
        Some(reason) => {
            f.line("TCP stats unavailable: ".to_string().concat(reason.as_str()));
            f.issue(
                "TCP transport stats could not be collected: ".to_string().concat(reason.as_str()),
            );
        },
        None => {
            report_tcp_speed(f, tcp);
            report_tcp_receive(f, tcp);
            report_tcp_memory(f, &tcp.memory);
            if f.line_count() == 1 {
                f.line("No TCP socket stats available yet.".to_string());
                f.issue(
                    "TCP quality metrics not yet populated. Stats update periodically while RTMP is connected."
                        .to_string(),
                );
            }
        },
    }
}

// ── The check ────────────────────────────────────────────────────────────────

/// What the check of the connection reports.
pub open spec fn transport_report(protocol: Seq<char>, transport: Option<TransportSnapshot>) -> Report {
    match transport {
        Some(transport) => if protocol == "srt"@ {
            srt_report(transport.srt)
        } else {
            tcp_report(transport.tcp)
        },
        None => Report::empty().line(
            "No active ingest — cannot inspect publisher transport."@,
        ).issue("Pipeline has no active publisher."@),
    }
}

/// The check of the connection: SRT where the protocol is `srt`, else TCP.
pub fn check_publisher_transport(
    idx: u32,
    transport: &Option<TransportSnapshot>,
    probe_protocol: &str,
    elapsed_ms: u64,
) -> (r: DiagResult)
    requires
        *transport matches Some(t) ==> buffers_fit(t.srt),
    ensures
        result_is(
            r,
            idx,
            "Publisher Transport"@,
            "Network connection quality metrics"@,
            if probe_protocol@ == "srt"@ {
                "libsrt srt_bistats()"@
            } else {
                "getsockopt(TCP_INFO/SO_MEMINFO)"@
            },
            transport_report(probe_protocol@, *transport),
            elapsed_ms,
        ),
{
    let is_srt: bool = same_text(probe_protocol, "srt");
    let mut f: Findings = Findings::new();
    match transport {
        Some(transport) => {
            if is_srt {
                f.line("Protocol: SRT".to_string());
                report_bond(&mut f, transport.srt.bonded, &transport.srt.bond);
                report_srt_speed(&mut f, &transport.srt);
                report_packets(&mut f, &transport.srt);
                report_srt_buffers(&mut f, &transport.srt);
            } else {
                report_tcp(&mut f, &transport.tcp);
            }
        },
        None => {
            f.line("No active ingest — cannot inspect publisher transport.".to_string());
            f.issue("Pipeline has no active publisher.".to_string());
        },
    }
    let cmd: &str = if is_srt {
        "libsrt srt_bistats()"
    } else {
        "getsockopt(TCP_INFO/SO_MEMINFO)"
    };
    f.finish(
        idx,
        "Publisher Transport",
        "Network connection quality metrics",
        cmd,
        elapsed_ms,
    )
}

// ── Laws ─────────────────────────────────────────────────────────────────────

/// Whatever is known of an SRT connection, its four packet counts are shown.
pub proof fn srt_report_always_counts_packets(srt: SrtSnapshot)
    ensures
        srt_report(srt).lines.len() >= 5,
{
}

/// The report of a TCP connection never shows the protocol alone.
pub proof fn tcp_report_is_never_bare(tcp: TcpSnapshot)
    ensures
        tcp_report(tcp).lines.len() >= 2,
{
}

/// A connection of which everything is within its thresholds raises no issue.
pub proof fn healthy_srt_raises_no_issue(srt: SrtSnapshot)
    requires
        srt.bonded == Some(true) ==> count(srt.bond.active) > 0 && count(srt.bond.broken) == 0,
        srt.rtt matches Some(rtt) ==> !rtt.above(200),
        srt.lost.per_sec matches Some(rate) ==> !rate.at_least(5),
        srt.dropped.per_sec matches Some(rate) ==> !rate.at_least(1),
        srt.retransmitted.per_sec matches Some(rate) ==> !rate.at_least(10),
        srt.undecrypted.per_sec matches Some(rate) ==> !rate.above(0),
    ensures
        srt_report(srt).issues.len() == 0,
{
}

/// A bond raises an issue where it has no active link, and where it has broken ones.
pub proof fn bond_issues_follow_the_links(r: Report, bonded: Option<bool>, bond: BondSnapshot)
    ensures
        bond_report(r, bonded, bond).issues == r.issues + where_so(
            bonded == Some(true) && (bond.active is None || bond.active == Some(0u64)),
            "SRT bond has no active member links."@,
        ) + where_so(
            bonded == Some(true) && bond.broken is Some && bond.broken->0 >= 1,
            "SRT bond has "@ + decimal(bond.broken->0 as nat) + " broken member link(s)."@,
        ),
{
    let all = r.issues + where_so(
        bonded == Some(true) && (bond.active is None || bond.active == Some(0u64)),
        "SRT bond has no active member links."@,
    ) + where_so(
        bonded == Some(true) && bond.broken is Some && bond.broken->0 >= 1,
        "SRT bond has "@ + decimal(bond.broken->0 as nat) + " broken member link(s)."@,
    );
    assert(bond_report(r, bonded, bond).issues =~= all);
}

/// The speed of an SRT link raises an issue where a round trip takes more than 200 ms, and its
/// buffers raise none.
pub proof fn round_trip_issue_follows_the_threshold(r: Report, srt: SrtSnapshot)
    ensures
        srt_speed_report(r, srt).issues == r.issues + where_so(
            srt.rtt is Some && srt.rtt->0.ceil > 200,
            "High SRT RTT: "@ + srt.rtt->0.text@ + "ms (threshold 200ms)"@,
        ),
        srt_buffers_report(r, srt).issues == r.issues,
{
    let all = r.issues + where_so(
        srt.rtt is Some && srt.rtt->0.ceil > 200,
        "High SRT RTT: "@ + srt.rtt->0.text@ + "ms (threshold 200ms)"@,
    );
    assert(srt_speed_report(r, srt).issues =~= all);
}

/// The packets of an SRT link raise an issue from 5 lost, 1 dropped and 10 retransmitted ones a
/// second on, and for any that were not decrypted.
#[verifier::spinoff_prover]
pub proof fn packet_issues_follow_the_thresholds(r: Report, srt: SrtSnapshot)
    ensures
        packets_report(r, srt).issues == r.issues + where_so(
            srt.lost.per_sec is Some && srt.lost.per_sec->0.floor >= 5,
            "High SRT packet loss rate: "@ + srt.lost.per_sec->0.text@ + "/s (threshold 5/s)"@,
        ) + where_so(
            srt.dropped.per_sec is Some && srt.dropped.per_sec->0.floor >= 1,
            "SRT packet drop rate: "@ + srt.dropped.per_sec->0.text@ + "/s (threshold 1/s)"@,
        ) + where_so(
            srt.retransmitted.per_sec is Some && srt.retransmitted.per_sec->0.floor >= 10,
            "High SRT retransmission rate: "@ + srt.retransmitted.per_sec->0.text@
                + "/s (threshold 10/s)"@,
        ) + where_so(
            srt.undecrypted.per_sec is Some && srt.undecrypted.per_sec->0.ceil > 0,
            "SRT undecrypted packet rate: "@ + srt.undecrypted.per_sec->0.text@
                + "/s (expected 0/s)"@,
        ),
{
    let a = where_so(
        srt.lost.per_sec is Some && srt.lost.per_sec->0.floor >= 5,
        "High SRT packet loss rate: "@ + srt.lost.per_sec->0.text@ + "/s (threshold 5/s)"@,
    );
    let b = where_so(
        srt.dropped.per_sec is Some && srt.dropped.per_sec->0.floor >= 1,
        "SRT packet drop rate: "@ + srt.dropped.per_sec->0.text@ + "/s (threshold 1/s)"@,
    );
    let c = where_so(
        srt.retransmitted.per_sec is Some && srt.retransmitted.per_sec->0.floor >= 10,
        "High SRT retransmission rate: "@ + srt.retransmitted.per_sec->0.text@
            + "/s (threshold 10/s)"@,
    );
    let d = where_so(
        srt.undecrypted.per_sec is Some && srt.undecrypted.per_sec->0.ceil > 0,
        "SRT undecrypted packet rate: "@ + srt.undecrypted.per_sec->0.text@ + "/s (expected 0/s)"@,
    );
    assert(packets_report(r, srt).issues =~= r.issues + a + b + c + d);
}

/// The report of an SRT connection holds what is said of its bond, its speed, its packets and its
/// buffers, in that order, and nothing else.
pub proof fn srt_report_is_of_its_parts(srt: SrtSnapshot)
    ensures
        ({
            let bond = bond_report(Report::empty().line("Protocol: SRT"@), srt.bonded, srt.bond);
            let packets = packets_report(srt_speed_report(bond, srt), srt);
            srt_report(srt) == srt_buffers_report(packets, srt)
        }),
{
}

/// The issues of a TCP connection: a round trip from 200 ms on, no packet for 5000 ms or longer, 50
/// or more packets out of order, and a receive buffer of which more than 80 percent are in use.
pub proof fn tcp_issues_follow_the_thresholds(tcp: TcpSnapshot)
    requires
        tcp.unavailable is None,
        tcp.rtt is Some || tcp.last_receive_ms is Some || tcp.out_of_order is Some || tcp.memory
            is Some,
    ensures
        tcp_report(tcp).issues == where_so(
            tcp.rtt is Some && tcp.rtt->0.floor >= 200,
            "High TCP RTT: "@ + tcp.rtt->0.text@ + "ms (threshold 200ms)"@,
        ) + where_so(
            tcp.last_receive_ms is Some && tcp.last_receive_ms->0 >= 5000,
            "RTMP publisher receive stall: "@ + decimal(tcp.last_receive_ms->0 as nat)
                + "ms since last packet (threshold 5000ms)"@,
        ) + where_so(
            tcp.out_of_order is Some && tcp.out_of_order->0 >= 50,
            "High TCP out-of-order packet count: "@ + decimal(tcp.out_of_order->0 as nat)
                + " (threshold 50)"@,
        ) + where_so(
            tcp.memory is Some && tcp.memory->0.max is Some && 100 * tcp.memory->0.used > 80
                * tcp.memory->0.max->0 && tcp.memory->0.max->0 > 0,
            "TCP receive buffer is "@ + tcp.memory->0.percent@ + "% full (threshold 80%)"@,
        ),
{
    let head = Report::empty().line("Protocol: RTMP (TCP)"@);
    let speed = tcp_speed_report(head, tcp);
    let a = where_so(
        tcp.rtt is Some && tcp.rtt->0.floor >= 200,
        "High TCP RTT: "@ + tcp.rtt->0.text@ + "ms (threshold 200ms)"@,
    );
    assert(speed.issues =~= a);
    let received = tcp_receive_report(speed, tcp);
    let b = a + where_so(
        tcp.last_receive_ms is Some && tcp.last_receive_ms->0 >= 5000,
        "RTMP publisher receive stall: "@ + decimal(tcp.last_receive_ms->0 as nat)
            + "ms since last packet (threshold 5000ms)"@,
    ) + where_so(
        tcp.out_of_order is Some && tcp.out_of_order->0 >= 50,
        "High TCP out-of-order packet count: "@ + decimal(tcp.out_of_order->0 as nat)
            + " (threshold 50)"@,
    );
    assert(received.issues =~= b);
    let c = b + where_so(
        tcp.memory is Some && tcp.memory->0.max is Some && 100 * tcp.memory->0.used > 80
            * tcp.memory->0.max->0 && tcp.memory->0.max->0 > 0,
        "TCP receive buffer is "@ + tcp.memory->0.percent@ + "% full (threshold 80%)"@,
    );
    assert(tcp_memory_report(received, tcp.memory).issues =~= c);
}

/// A publisher is inspected over SRT exactly where that is its protocol; without one, that is the
/// issue.
pub proof fn publisher_is_inspected_by_its_protocol(
    protocol: Seq<char>,
    transport: TransportSnapshot,
)
    ensures
        protocol == "srt"@ ==> transport_report(protocol, Some(transport)) == srt_report(
            transport.srt,
        ),
        protocol != "srt"@ ==> transport_report(protocol, Some(transport)) == tcp_report(
            transport.tcp,
        ),
        transport_report(protocol, None).issues == seq!["Pipeline has no active publisher."@],
{
    assert(transport_report(protocol, None).issues =~= seq!["Pipeline has no active publisher."@]);
}

/// Where nothing is known of a TCP connection, the reason is the issue.
pub proof fn unknown_tcp_is_an_issue(tcp: TcpSnapshot, reason: String)
    requires
        tcp.unavailable == Some(reason),
    ensures
        tcp_report(tcp).issues == seq![
            "TCP transport stats could not be collected: "@ + reason@,
        ],
{
    assert(tcp_report(tcp).issues =~= seq![
        "TCP transport stats could not be collected: "@ + reason@,
    ]);
}

} // verus!
