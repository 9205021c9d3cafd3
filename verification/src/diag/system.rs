//! Checks of the machine that the server runs on.

use vstd::prelude::*;
use vstd::string::*;

use crate::diag::{percent, percent_of, result_is, where_so, DiagResult, Findings, Reading, Report};
use crate::number::{decimal, decimal_text};

verus! {

/// The bytes of a gibibyte.
pub const GIB: u64 = 1_073_741_824;

// ── Resources ────────────────────────────────────────────────────────────────

/// A disk.
#[derive(Debug, Clone, Copy)]
pub struct DiskSnapshot {
    pub total: u64,
    pub available: u64,
}

/// The resources of the machine.
#[derive(Debug, Clone)]
pub struct ResourceSnapshot {
    pub cpu_cores: u64,
    /// In percent, with one decimal.
    pub cpu: Reading,
    pub total_memory: u64,
    pub used_memory: u64,
    pub disks: Vec<DiskSnapshot>,
}

/// The size of the disks together.
pub open spec fn disk_total(disks: Seq<DiskSnapshot>) -> int
    decreases disks.len(),
{
    if disks.len() == 0 {
        0
    } else {
        disk_total(disks.drop_last()) + disks.last().total
    }
}

/// What is in use of the disks together.
pub open spec fn disk_used(disks: Seq<DiskSnapshot>) -> int
    decreases disks.len(),
{
    if disks.len() == 0 {
        0
    } else {
        disk_used(disks.drop_last()) + (disks.last().total - disks.last().available)
    }
}

impl ResourceSnapshot {
    /// No disk has more available than its size, and the numbers are within what can be computed
    /// with.
    pub open spec fn wf(&self) -> bool {
        &&& forall|i: int|
            0 <= i < self.disks@.len() ==> (#[trigger] self.disks@[i]).available
                <= self.disks@[i].total
        &&& self.used_memory * 100 <= u64::MAX
        &&& disk_total(self.disks@) * 100 <= u64::MAX
    }
}

proof fn lemma_disks(disks: Seq<DiskSnapshot>, k: int)
    requires
        0 <= k <= disks.len(),
        forall|i: int|
            0 <= i < disks.len() ==> (#[trigger] disks[i]).available <= disks[i].total,
    ensures
        0 <= disk_used(disks.take(k)) <= disk_total(disks.take(k)) <= disk_total(disks),
    decreases disks.len(),
{
    if disks.len() == 0 {
        assert(disks.take(k) =~= disks);
    } else if k == disks.len() {
        assert(disks.take(k) =~= disks);
        lemma_disks(disks.drop_last(), k - 1);
        assert(disks.drop_last().take(k - 1) =~= disks.drop_last());
        assert(disks[k - 1].available <= disks[k - 1].total);
    } else {
        lemma_disks(disks.drop_last(), k);
        assert(disks.drop_last().take(k) =~= disks.take(k));
    }
}

fn disk_sums(disks: &Vec<DiskSnapshot>) -> (r: (u64, u64))
    requires
        forall|i: int|
            0 <= i < disks@.len() ==> (#[trigger] disks@[i]).available <= disks@[i].total,
        disk_total(disks@) <= u64::MAX,
    ensures
        r.0 == disk_total(disks@),
        r.1 == disk_used(disks@),
        r.1 <= r.0,
{
    let mut total: u64 = 0;
    let mut used: u64 = 0;
    let mut i: usize = 0;
    assert(disks@.take(0) =~= Seq::<DiskSnapshot>::empty());
    while i < disks.len()
        invariant
            i <= disks@.len(),
            forall|i: int|
                0 <= i < disks@.len() ==> (#[trigger] disks@[i]).available <= disks@[i].total,
            disk_total(disks@) <= u64::MAX,
            total == disk_total(disks@.take(i as int)),
            used == disk_used(disks@.take(i as int)),
        decreases disks@.len() - i,
    {
        proof {
            assert(disks@.take(i + 1).drop_last() =~= disks@.take(i as int));
            lemma_disks(disks@, i + 1);
        }
        assert(disks@[i as int].available <= disks@[i as int].total);
        total = total + disks[i].total;
        used = used + (disks[i].total - disks[i].available);
        i += 1;
    }
    proof {
        assert(disks@.take(disks@.len() as int) =~= disks@);
        lemma_disks(disks@, disks@.len() as int);
    }
    (total, used)
}

/// What the check of the resources reports.
pub open spec fn resources_report(s: ResourceSnapshot) -> Report {
    let mem_pct = percent(s.used_memory as int, s.total_memory as int);
    let total_disk = disk_total(s.disks@);
    let used_disk = disk_used(s.disks@);
    let disk_pct = percent(used_disk, total_disk);
    Report::empty().line("CPU cores: "@ + decimal(s.cpu_cores as nat)).line(
        "CPU usage: "@ + s.cpu.text@ + "%"@,
    ).line("RAM total: "@ + decimal((s.total_memory / GIB) as nat) + " GiB"@).line(
        "RAM used: "@ + decimal((s.used_memory / GIB) as nat) + " GiB ("@ + decimal(mem_pct as nat)
            + "%)"@,
    ).line("Disk total: "@ + decimal((total_disk / (GIB as int)) as nat) + " GiB"@).line(
        "Disk used: "@ + decimal((used_disk / (GIB as int)) as nat) + " GiB ("@ + decimal(
            disk_pct as nat,
        ) + "%)"@,
    ).issue_if(
        s.cpu.above(90),
        "CPU usage is very high ("@ + s.cpu.text@
            + "%). This may cause encoding delays or stream drops."@,
    ).issue_if(
        mem_pct > 90,
        "RAM usage is "@ + decimal(mem_pct as nat)
            + "%. Risk of OOM killing the streaming process."@,
    ).issue_if(
        disk_pct > 95,
        "Disk is "@ + decimal(disk_pct as nat)
            + "% full. Recordings and HLS segments may fail."@,
    )
}

/// The check of the resources: processors, memory and disks.
pub fn check_system_resources(idx: u32, s: &ResourceSnapshot, elapsed_ms: u64) -> (r: DiagResult)
    requires
        s.wf(),
    ensures
        result_is(
            r,
            idx,
            "System Resources"@,
            "CPU, RAM, and disk utilization"@,
            "sysinfo::System::new_all()"@,
            resources_report(*s),
            elapsed_ms,
        ),
{
    let mem_pct: u64 = percent_of(s.used_memory, s.total_memory);
    let (total_disk, used_disk) = disk_sums(&s.disks);
    let disk_pct: u64 = percent_of(used_disk, total_disk);
    let mut f: Findings = Findings::new();
    f.line("CPU cores: ".to_string().concat(decimal_text(s.cpu_cores).as_str()));
    f.line("CPU usage: ".to_string().concat(s.cpu.text.as_str()).concat("%"));
    f.line(
        "RAM total: ".to_string().concat(decimal_text(s.total_memory / GIB).as_str()).concat(
            " GiB",
        ),
    );
    f.line(
        "RAM used: ".to_string().concat(decimal_text(s.used_memory / GIB).as_str()).concat(
            " GiB (",
        ).concat(decimal_text(mem_pct).as_str()).concat("%)"),
    );
    f.line(
        "Disk total: ".to_string().concat(decimal_text(total_disk / GIB).as_str()).concat(" GiB"),
    );
    f.line(
        "Disk used: ".to_string().concat(decimal_text(used_disk / GIB).as_str()).concat(
            " GiB (",
        ).concat(decimal_text(disk_pct).as_str()).concat("%)"),
    );
    if s.cpu.ceil > 90 {
        f.issue(
            "CPU usage is very high (".to_string().concat(s.cpu.text.as_str()).concat(
                "%). This may cause encoding delays or stream drops.",
            ),
        );
    }
    if mem_pct > 90 {
        f.issue(
            "RAM usage is ".to_string().concat(decimal_text(mem_pct).as_str()).concat(
                "%. Risk of OOM killing the streaming process.",
            ),
        );
    }
    if disk_pct > 95 {
        f.issue(
            "Disk is ".to_string().concat(decimal_text(disk_pct).as_str()).concat(
                "% full. Recordings and HLS segments may fail.",
            ),
        );
    }
    f.finish(
        idx,
        "System Resources",
        "CPU, RAM, and disk utilization",
        "sysinfo::System::new_all()",
        elapsed_ms,
    )
}

// ── Network ──────────────────────────────────────────────────────────────────

/// An interface in two samples half a second apart: the bytes that it had moved by then.
#[derive(Debug, Clone)]
pub struct InterfaceSample {
    pub name: String,
    /// The interface was there in the first sample too.
    pub seen_before: bool,
    pub received_before: u64,
    pub received: u64,
    pub transmitted_before: u64,
    pub transmitted: u64,
}

/// What was moved since, or nothing where the count went back.
pub open spec fn moved(before: u64, now: u64) -> int {
    if now >= before {
        now - before
    } else {
        0
    }
}

impl InterfaceSample {
    /// The bytes received between the samples.
    pub open spec fn rx(&self) -> int {
        if self.seen_before {
            moved(self.received_before, self.received)
        } else {
            0
        }
    }

    /// The bytes transmitted between the samples.
    pub open spec fn tx(&self) -> int {
        if self.seen_before {
            moved(self.transmitted_before, self.transmitted)
        } else {
            0
        }
    }
}

/// The rate in Kbps that bytes in half a second make.
pub open spec fn kbps(bytes: int) -> int {
    bytes * 16 / 1000
}

/// The bytes received by all interfaces.
pub open spec fn total_rx(samples: Seq<InterfaceSample>) -> int
    decreases samples.len(),
{
    if samples.len() == 0 {
        0
    } else {
        total_rx(samples.drop_last()) + samples.last().rx()
    }
}

/// The bytes transmitted by all interfaces.
pub open spec fn total_tx(samples: Seq<InterfaceSample>) -> int
    decreases samples.len(),
{
    if samples.len() == 0 {
        0
    } else {
        total_tx(samples.drop_last()) + samples.last().tx()
    }
}

/// The line that shows the rates of an interface, or of all.
pub open spec fn rate_line(label: Seq<char>, rx: int, tx: int) -> Seq<char> {
    label + ": ↓ "@ + decimal(kbps(rx) as nat) + " Kbps ↑ "@ + decimal(kbps(tx) as nat) + " Kbps"@
}

/// What is said of the interfaces that moved something.
pub open spec fn interfaces_report(samples: Seq<InterfaceSample>) -> Report
    decreases samples.len(),
{
    if samples.len() == 0 {
        Report::empty()
    } else {
        let r = interfaces_report(samples.drop_last());
        let s = samples.last();
        if s.rx() > 0 || s.tx() > 0 {
            r.line(rate_line(s.name@, s.rx(), s.tx()))
        } else {
            r
        }
    }
}

/// What the check of the network reports.
pub open spec fn network_report(samples: Seq<InterfaceSample>) -> Report {
    let r = interfaces_report(samples);
    if r.lines.len() == 0 {
        r.line("No active network interfaces detected."@).issue(
            "No network traffic detected. Check network configuration."@,
        )
    } else {
        r.line(rate_line("Total"@, total_rx(samples), total_tx(samples)))
    }
}

proof fn lemma_traffic_grows(samples: Seq<InterfaceSample>, k: int)
    requires
        0 <= k <= samples.len(),
    ensures
        0 <= total_rx(samples.take(k)) <= total_rx(samples),
        0 <= total_tx(samples.take(k)) <= total_tx(samples),
    decreases samples.len(),
{
    if samples.len() == 0 {
        assert(samples.take(k) =~= samples);
    } else if k == samples.len() {
        assert(samples.take(k) =~= samples);
        lemma_traffic_grows(samples.drop_last(), k - 1);
        assert(samples.drop_last().take(k - 1) =~= samples.drop_last());
    } else {
        lemma_traffic_grows(samples.drop_last(), k);
        assert(samples.drop_last().take(k) =~= samples.take(k));
    }
}

fn moved_since(before: u64, now: u64) -> (r: u64)
    ensures
        r == moved(before, now),
{
    if now >= before {
        now - before
    } else {
        0
    }
}

fn rate_text(label: &str, rx: u64, tx: u64) -> (r: String)
    requires
        rx * 16 <= u64::MAX,
        tx * 16 <= u64::MAX,
    ensures
        r@ == rate_line(label@, rx as int, tx as int),
{
    label.to_string().concat(": ↓ ").concat(decimal_text(rx * 16 / 1000).as_str()).concat(
        " Kbps ↑ ",
    ).concat(decimal_text(tx * 16 / 1000).as_str()).concat(" Kbps")
}

/// The check of the network: what each interface moved in half a second.
pub fn check_network_bandwidth(idx: u32, samples: &Vec<InterfaceSample>, elapsed_ms: u64) -> (r:
    DiagResult)
    requires
        total_rx(samples@) * 16 <= u64::MAX,
        total_tx(samples@) * 16 <= u64::MAX,
    ensures
        result_is(
            r,
            idx,
            "Network Bandwidth"@,
            "Per-interface RX/TX throughput (500ms sample)"@,
            "sysinfo::Networks::new_with_refreshed_list()"@,
            network_report(samples@),
            elapsed_ms,
        ),
{
    let mut f: Findings = Findings::new();
    let mut sum_rx: u64 = 0;
    let mut sum_tx: u64 = 0;
    let mut i: usize = 0;
    assert(samples@.take(0) =~= Seq::<InterfaceSample>::empty());
    while i < samples.len()
        invariant
            i <= samples@.len(),
            total_rx(samples@) * 16 <= u64::MAX,
            total_tx(samples@) * 16 <= u64::MAX,
            sum_rx == total_rx(samples@.take(i as int)),
            sum_tx == total_tx(samples@.take(i as int)),
            f@ == interfaces_report(samples@.take(i as int)),
        decreases samples@.len() - i,
    {
        let s: &InterfaceSample = &samples[i];
        proof {
            assert(samples@.take(i + 1).drop_last() =~= samples@.take(i as int));
            lemma_traffic_grows(samples@, i + 1);
            lemma_traffic_grows(samples@, i as int);
        }
        let rx: u64 = if s.seen_before {
            moved_since(s.received_before, s.received)
        } else {
            0
        };
        let tx: u64 = if s.seen_before {
            moved_since(s.transmitted_before, s.transmitted)
        } else {
            0
        };
        if rx > 0 || tx > 0 {
            f.line(rate_text(s.name.as_str(), rx, tx));
        }
        sum_rx = sum_rx + rx;
        sum_tx = sum_tx + tx;
        i += 1;
    }
    assert(samples@.take(samples@.len() as int) =~= samples@);
    if f.line_count() == 0 {
        f.line("No active network interfaces detected.".to_string());
        f.issue("No network traffic detected. Check network configuration.".to_string());
    } else {
        f.line(rate_text("Total", sum_rx, sum_tx));
    }
    f.finish(
        idx,
        "Network Bandwidth",
        "Per-interface RX/TX throughput (500ms sample)",
        "sysinfo::Networks::new_with_refreshed_list()",
        elapsed_ms,
    )
}

// ── The SRT listener ─────────────────────────────────────────────────────────

/// The socket that all SRT ingests share.
#[derive(Debug, Clone)]
pub struct ListenerSnapshot {
    pub active_streams: u64,
    pub bonding_available: bool,
    pub rx_queue: u64,
    pub rx_peak: u64,
    /// The size of buffer that was asked for.
    pub configured: u64,
    /// How full the queue is in percent, with one decimal.
    pub percent: String,
    /// How full the queue is in percent, without decimals.
    pub whole_percent: String,
    pub drops: u64,
}

/// What is said of the pressure on the queue.
pub open spec fn pressure_report(r: Report, s: ListenerSnapshot) -> Report {
    if s.rx_queue > s.configured * 3 / 4 {
        r.issue(
            "UDP recv queue is "@ + s.whole_percent@
                + "% full — imminent packet loss risk with "@ + decimal(s.active_streams as nat)
                + " streams."@,
        )
    } else if s.rx_queue > s.configured / 2 {
        r.issue(
            "UDP recv queue is "@ + s.whole_percent@ + "% full — buffer pressure building."@,
        )
    } else {
        r
    }
}

/// What the check of the listener reports.
pub open spec fn listener_report(s: ListenerSnapshot) -> Report {
    let shown = Report::empty().line(
        "Active SRT ingest streams: "@ + decimal(s.active_streams as nat),
    ).line(
        "Bonded ingest available: "@ + if s.bonding_available {
            "yes"@
        } else {
            "no"@
        },
    ).line(
        "UDP recv queue: "@ + decimal((s.rx_queue / 1024) as nat) + "KB / "@ + decimal(
            (s.configured / 1024) as nat,
        ) + "KB ("@ + s.percent@ + "%)"@,
    ).line("UDP recv queue peak: "@ + decimal((s.rx_peak / 1024) as nat) + "KB"@).line(
        "Kernel UDP drops (total): "@ + decimal(s.drops as nat),
    );
    pressure_report(
        shown.issue_if(
            s.drops > 0,
            "Kernel has dropped "@ + decimal(s.drops as nat)
                + " UDP packets — data loss occurred. Increase net.core.rmem_max and restart."@,
        ).issue_if(
            !s.bonding_available,
            "Linked libsrt rejected SRTO_GROUPCONNECT; rebuild it with ENABLE_BONDING=ON for bonded ingest."@,
        ),
        s,
    )
}

/// The check of the listener: how full the queue of the shared socket is.
pub fn check_srt_listener_socket(idx: u32, s: &ListenerSnapshot, elapsed_ms: u64) -> (r: DiagResult)
    requires
        s.configured * 3 <= u64::MAX,
    ensures
        result_is(
            r,
            idx,
            "SRT Listener Socket"@,
            "Shared UDP socket buffer occupancy for all SRT ingest streams"@,
            "read /proc/net/udp"@,
            listener_report(*s),
            elapsed_ms,
        ),
{
    let mut f: Findings = Findings::new();
    f.line(
        "Active SRT ingest streams: ".to_string().concat(decimal_text(s.active_streams).as_str()),
    );
    f.line(
        "Bonded ingest available: ".to_string().concat(
            if s.bonding_available {
                "yes"
            } else {
                "no"
            },
        ),
    );
    f.line(
        "UDP recv queue: ".to_string().concat(decimal_text(s.rx_queue / 1024).as_str()).concat(
            "KB / ",
        ).concat(decimal_text(s.configured / 1024).as_str()).concat("KB (").concat(
            s.percent.as_str(),
        ).concat("%)"),
    );
    f.line(
        "UDP recv queue peak: ".to_string().concat(decimal_text(s.rx_peak / 1024).as_str()).concat(
            "KB",
        ),
    );
    f.line("Kernel UDP drops (total): ".to_string().concat(decimal_text(s.drops).as_str()));
    if s.drops > 0 {
        f.issue(
            "Kernel has dropped ".to_string().concat(decimal_text(s.drops).as_str()).concat(
                " UDP packets — data loss occurred. Increase net.core.rmem_max and restart.",
            ),
        );
    }
    if !s.bonding_available {
        f.issue(
            "Linked libsrt rejected SRTO_GROUPCONNECT; rebuild it with ENABLE_BONDING=ON for bonded ingest."
                .to_string(),
        );
    }
    if s.rx_queue > s.configured * 3 / 4 {
        f.issue(
            "UDP recv queue is ".to_string().concat(s.whole_percent.as_str()).concat(
                "% full — imminent packet loss risk with ",
            ).concat(decimal_text(s.active_streams).as_str()).concat(" streams."),
        );
    } else if s.rx_queue > s.configured / 2 {
        f.issue(
            "UDP recv queue is ".to_string().concat(s.whole_percent.as_str()).concat(
                "% full — buffer pressure building.",
            ),
        );
    }
    f.finish(
        idx,
        "SRT Listener Socket",
        "Shared UDP socket buffer occupancy for all SRT ingest streams",
        "read /proc/net/udp",
        elapsed_ms,
    )
}

// ── Laws ─────────────────────────────────────────────────────────────────────

/// The network is silent exactly when no interface moved anything, and then that is an issue.
pub proof fn silent_network_is_an_issue(samples: Seq<InterfaceSample>)
    ensures
        network_report(samples).issues.len() == (if total_rx(samples) == 0 && total_tx(samples)
            == 0 {
            1int
        } else {
            0int
        }),
    decreases samples.len(),
{
    lemma_interfaces_quiet(samples);
}

proof fn lemma_interfaces_quiet(samples: Seq<InterfaceSample>)
    ensures
        interfaces_report(samples).lines.len() == 0 <==> total_rx(samples) == 0 && total_tx(samples)
            == 0,
        total_rx(samples) >= 0,
        total_tx(samples) >= 0,
        interfaces_report(samples).issues.len() == 0,
    decreases samples.len(),
{
    if samples.len() > 0 {
        lemma_interfaces_quiet(samples.drop_last());
    }
}

/// The resources raise an issue above 90 percent of the processors, above 90 percent of the memory,
/// and above 95 percent of the disks.
pub proof fn resource_issues_follow_the_thresholds(s: ResourceSnapshot)
    ensures
        ({
            let memory = percent(s.used_memory as int, s.total_memory as int);
            let disk = percent(disk_used(s.disks@), disk_total(s.disks@));
            resources_report(s).issues == where_so(
                s.cpu.ceil > 90,
                "CPU usage is very high ("@ + s.cpu.text@
                    + "%). This may cause encoding delays or stream drops."@,
            ) + where_so(
                memory >= 91,
                "RAM usage is "@ + decimal(memory as nat)
                    + "%. Risk of OOM killing the streaming process."@,
            ) + where_so(
                disk >= 96,
                "Disk is "@ + decimal(disk as nat)
                    + "% full. Recordings and HLS segments may fail."@,
            )
        }),
{
    let memory = percent(s.used_memory as int, s.total_memory as int);
    let disk = percent(disk_used(s.disks@), disk_total(s.disks@));
    let all = where_so(
        s.cpu.ceil > 90,
        "CPU usage is very high ("@ + s.cpu.text@
            + "%). This may cause encoding delays or stream drops."@,
    ) + where_so(
        memory >= 91,
        "RAM usage is "@ + decimal(memory as nat)
            + "%. Risk of OOM killing the streaming process."@,
    ) + where_so(
        disk >= 96,
        "Disk is "@ + decimal(disk as nat) + "% full. Recordings and HLS segments may fail."@,
    );
    assert(resources_report(s).issues =~= all);
}

/// What is used of a disk is what is not available of it, and the disks are added up.
pub proof fn disks_are_added_up(disks: Seq<DiskSnapshot>, disk: DiskSnapshot)
    ensures
        disk_total(disks.push(disk)) == disk_total(disks) + disk.total,
        disk_used(disks.push(disk)) == disk_used(disks) + disk.total - disk.available,
        disk_total(Seq::empty()) == 0 && disk_used(Seq::empty()) == 0,
{
    assert(disks.push(disk).drop_last() =~= disks);
}

/// The traffic of an interface is what it counted since the first sample; one that was not there, or
/// whose count went back, moved nothing. The interfaces are added up, and half a second of bytes
/// makes sixteen times as many bits in a second.
pub proof fn traffic_is_what_was_counted_since(samples: Seq<InterfaceSample>, s: InterfaceSample)
    ensures
        s.seen_before && s.received >= s.received_before ==> s.rx() == s.received
            - s.received_before,
        s.seen_before && s.transmitted >= s.transmitted_before ==> s.tx() == s.transmitted
            - s.transmitted_before,
        !s.seen_before ==> s.rx() == 0 && s.tx() == 0,
        s.received < s.received_before ==> s.rx() == 0,
        s.transmitted < s.transmitted_before ==> s.tx() == 0,
        total_rx(samples.push(s)) == total_rx(samples) + s.rx(),
        total_tx(samples.push(s)) == total_tx(samples) + s.tx(),
        forall|n: int| 0 <= n ==> #[trigger] kbps(1000 * n) == 16 * n,
{
    assert(samples.push(s).drop_last() =~= samples);
    assert forall|n: int| 0 <= n implies #[trigger] kbps(1000 * n) == 16 * n by {
        assert(1000 * n * 16 == 1000 * (16 * n));
    }
}

/// The listener raises an issue where the kernel dropped packets, where bonding is not to be had,
/// and where its queue is more than half full; one where it is more than three quarters full.
pub proof fn listener_issues_follow_the_thresholds(s: ListenerSnapshot)
    ensures
        listener_report(s).issues == where_so(
            s.drops >= 1,
            "Kernel has dropped "@ + decimal(s.drops as nat)
                + " UDP packets — data loss occurred. Increase net.core.rmem_max and restart."@,
        ) + where_so(
            !s.bonding_available,
            "Linked libsrt rejected SRTO_GROUPCONNECT; rebuild it with ENABLE_BONDING=ON for bonded ingest."@,
        ) + where_so(
            s.rx_queue > s.configured * 3 / 4,
            "UDP recv queue is "@ + s.whole_percent@ + "% full — imminent packet loss risk with "@
                + decimal(s.active_streams as nat) + " streams."@,
        ) + where_so(
            s.configured / 2 < s.rx_queue && s.rx_queue <= s.configured * 3 / 4,
            "UDP recv queue is "@ + s.whole_percent@ + "% full — buffer pressure building."@,
        ),
{
    let all = where_so(
        s.drops >= 1,
        "Kernel has dropped "@ + decimal(s.drops as nat)
            + " UDP packets — data loss occurred. Increase net.core.rmem_max and restart."@,
    ) + where_so(
        !s.bonding_available,
        "Linked libsrt rejected SRTO_GROUPCONNECT; rebuild it with ENABLE_BONDING=ON for bonded ingest."@,
    ) + where_so(
        s.rx_queue > s.configured * 3 / 4,
        "UDP recv queue is "@ + s.whole_percent@ + "% full — imminent packet loss risk with "@
            + decimal(s.active_streams as nat) + " streams."@,
    ) + where_so(
        s.configured / 2 < s.rx_queue && s.rx_queue <= s.configured * 3 / 4,
        "UDP recv queue is "@ + s.whole_percent@ + "% full — buffer pressure building."@,
    );
    assert(listener_report(s).issues =~= all);
}

} // verus!
