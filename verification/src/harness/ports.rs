//! The ports that a harness process uses: named ones from the environment, the others made up
//! high and apart from each other.

use vstd::prelude::*;
use vstd::string::*;

use crate::number::{decimal, parse_unsigned, parsed};
use crate::text::text_option;

verus! {

/// The lowest port that is made up.
pub const FIRST_PORT: u32 = 20_000;

/// How many ports there are to choose from.
pub const PORT_SPAN: u32 = 30_000;

/// How many ports are tried for one name.
pub const PORT_TRIES: u32 = 1024;

/// The 32-bit hash of a name: times 33, plus the next byte.
pub open spec fn name_hash(bytes: Seq<u8>) -> u32
    decreases bytes.len(),
{
    if bytes.len() == 0 {
        0
    } else {
        ((name_hash(bytes.drop_last()) * 33 + bytes.last()) % 0x1_0000_0000) as u32
    }
}

/// Where in the span the search for a port starts.
pub open spec fn start_offset(name: Seq<char>, pid: u32) -> int {
    (pid * 97 + name_hash(vstd::utf8::encode_utf8(name))) % 0x1_0000_0000 % 30_000
}

/// The port that is tried at a step.
pub open spec fn candidate(name: Seq<char>, pid: u32, step: int) -> u16 {
    (20_000 + (start_offset(name, pid) + step * 37) % 30_000) as u16
}

/// The first free candidate from `step` on, where there is one among the first 1024.
pub open spec fn free_candidate(name: Seq<char>, pid: u32, reserved: Seq<u16>, step: int) -> Option<
    u16,
>
    decreases 1024 - step,
{
    if step >= 1024 {
        None
    } else if !reserved.contains(candidate(name, pid, step)) {
        Some(candidate(name, pid, step))
    } else {
        free_candidate(name, pid, reserved, step + 1)
    }
}

fn hash_of(name: &str) -> (r: u32)
    ensures
        r == name_hash(vstd::utf8::encode_utf8(name@)),
{
    let bytes: &[u8] = name.as_bytes();
    let mut acc: u32 = 0;
    let mut i: usize = 0;
    while i < bytes.len()
        invariant
            i <= bytes@.len(),
            acc == name_hash(bytes@.take(i as int)),
        decreases bytes@.len() - i,
    {
        assert(bytes@.take(i + 1).drop_last() =~= bytes@.take(i as int));
        let wide: u64 = acc as u64 * 33 + bytes[i] as u64;
        acc = (wide % 0x1_0000_0000) as u32;
        i += 1;
    }
    assert(bytes@.take(bytes@.len() as int) =~= bytes@);
    acc
}

fn is_reserved(reserved: &Vec<u16>, port: u16) -> (r: bool)
    ensures
        r == reserved@.contains(port),
{
    let mut i: usize = 0;
    while i < reserved.len()
        invariant
            i <= reserved@.len(),
            forall|k: int| 0 <= k < i ==> reserved@[k] != port,
        decreases reserved@.len() - i,
    {
        if reserved[i] == port {
            return true;
        }
        i += 1;
    }
    false
}

/// A port for a name in the process `pid`: the first of its candidates that is not reserved.
pub fn synthesized_harness_port(name: &str, pid: u32, reserved: &Vec<u16>) -> (r: Option<u16>)
    ensures
        r == free_candidate(name@, pid, reserved@, 0),
{
    let hash: u32 = hash_of(name);
    let wide: u64 = pid as u64 * 97 + hash as u64;
    let offset: u32 = ((wide % 0x1_0000_0000) % PORT_SPAN as u64) as u32;
    let mut step: u32 = 0;
    while step < PORT_TRIES
        invariant
            step <= 1024,
            offset < 30_000,
            offset == start_offset(name@, pid),
            free_candidate(name@, pid, reserved@, 0) == free_candidate(
                name@,
                pid,
                reserved@,
                step as int,
            ),
        decreases 1024 - step,
    {
        let port: u16 = (FIRST_PORT + (offset + step * 37) % PORT_SPAN) as u16;
        if !is_reserved(reserved, port) {
            return Some(port);
        }
        step += 1;
    }
    None
}

/// The port that the environment gives a name.
pub open spec fn port_in_env(value: Option<Seq<char>>) -> Option<int> {
    match value {
        Some(text) => parsed(text, u16::MAX as int),
        None => None,
    }
}

/// The port of a name: the one the environment gives, else a made-up one, else the default.
#[verifier::opaque]
pub open spec fn port_for(
    name: Seq<char>,
    default: u16,
    value: Option<Seq<char>>,
    pid: u32,
    reserved: Seq<u16>,
) -> int {
    match port_in_env(value) {
        Some(port) => port,
        None => match free_candidate(name, pid, reserved, 0) {
            Some(port) => port as int,
            None => default as int,
        },
    }
}

/// Gives the port of a name, and reserves it.
pub fn env_or_allocated_port(
    name: &str,
    default: u16,
    value: &Option<String>,
    pid: u32,
    reserved: &mut Vec<u16>,
) -> (r: u16)
    ensures
        r == port_for(name@, default, text_option(*value), pid, old(reserved)@),
        final(reserved)@ == old(reserved)@.push(r),
{
    reveal(port_for);
    if let Some(text) = value {
        if let Some(port) = parse_unsigned(text.as_str(), 65_535) {
            reserved.push(port as u16);
            return port as u16;
        }
    }
    let port: u16 = match synthesized_harness_port(name, pid, reserved) {
        Some(port) => port,
        None => default,
    };
    reserved.push(port);
    port
}

/// What the environment says of each port.
pub struct HarnessPortEnv {
    pub restream_http: Option<String>,
    pub restream_rtmp: Option<String>,
    pub restream_srt: Option<String>,
    pub mtx_rtmp: Option<String>,
    pub mtx_srt: Option<String>,
    pub mtx_hls: Option<String>,
    pub mtx_api: Option<String>,
}

impl HarnessPortEnv {
    /// The values in the order in which ports are given out.
    pub open spec fn values(self) -> Seq<Option<Seq<char>>> {
        seq![
            text_option(self.restream_http),
            text_option(self.restream_rtmp),
            text_option(self.restream_srt),
            text_option(self.mtx_rtmp),
            text_option(self.mtx_srt),
            text_option(self.mtx_hls),
            text_option(self.mtx_api),
        ]
    }
}

/// The ports of a harness process.
#[derive(Clone, Copy, Debug, PartialEq, Eq)]
pub struct HarnessPortDefaults {
    pub restream_http: u16,
    pub restream_rtmp: u16,
    pub restream_srt: u16,
    pub mtx_rtmp: u16,
    pub mtx_srt: u16,
    pub mtx_hls: u16,
    pub mtx_api: u16,
}

impl HarnessPortDefaults {
    /// The ports in the order in which they are given out.
    pub open spec fn ports(self) -> Seq<u16> {
        seq![
            self.restream_http,
            self.restream_rtmp,
            self.restream_srt,
            self.mtx_rtmp,
            self.mtx_srt,
            self.mtx_hls,
            self.mtx_api,
        ]
    }
}

/// The names of the ports, in the order in which they are given out.
pub open spec fn port_names() -> Seq<Seq<char>> {
    seq![
        "RESTREAM_HTTP"@,
        "RESTREAM_RTMP"@,
        "RESTREAM_SRT"@,
        "MTX_RTMP"@,
        "MTX_SRT"@,
        "MTX_HLS"@,
        "MTX_API"@,
    ]
}

/// The ports that are used when no made-up one is free.
pub open spec fn fallback_ports() -> Seq<u16> {
    seq![3030u16, 1935u16, 10080u16, 1936u16, 8891u16, 8890u16, 9997u16]
}

/// The ports of a process, each kept apart from those before it.
pub fn harness_port_defaults(env: &HarnessPortEnv, pid: u32) -> (r: HarnessPortDefaults)
    ensures
        forall|i: int|
            0 <= i < 7 ==> #[trigger] r.ports()[i] == port_for(
                port_names()[i],
                fallback_ports()[i],
                env.values()[i],
                pid,
                r.ports().take(i),
            ),
{
    let mut reserved: Vec<u16> = Vec::new();
    let restream_http: u16 = env_or_allocated_port(
        "RESTREAM_HTTP",
        3030,
        &env.restream_http,
        pid,
        &mut reserved,
    );
    let restream_rtmp: u16 = env_or_allocated_port(
        "RESTREAM_RTMP",
        1935,
        &env.restream_rtmp,
        pid,
        &mut reserved,
    );
    let restream_srt: u16 = env_or_allocated_port(
        "RESTREAM_SRT",
        10080,
        &env.restream_srt,
        pid,
        &mut reserved,
    );
    let mtx_rtmp: u16 = env_or_allocated_port("MTX_RTMP", 1936, &env.mtx_rtmp, pid, &mut reserved);
    let mtx_srt: u16 = env_or_allocated_port("MTX_SRT", 8891, &env.mtx_srt, pid, &mut reserved);
    let mtx_hls: u16 = env_or_allocated_port("MTX_HLS", 8890, &env.mtx_hls, pid, &mut reserved);
    let mtx_api: u16 = env_or_allocated_port("MTX_API", 9997, &env.mtx_api, pid, &mut reserved);
    let r = HarnessPortDefaults {
        restream_http,
        restream_rtmp,
        restream_srt,
        mtx_rtmp,
        mtx_srt,
        mtx_hls,
        mtx_api,
    };
    proof {
        let all = r.ports();
        assert(all.take(0) =~= Seq::<u16>::empty());
        assert(all.take(1) =~= all.take(0).push(restream_http));
        assert(all.take(2) =~= all.take(1).push(restream_rtmp));
        assert(all.take(3) =~= all.take(2).push(restream_srt));
        assert(all.take(4) =~= all.take(3).push(mtx_rtmp));
        assert(all.take(5) =~= all.take(4).push(mtx_srt));
        assert(all.take(6) =~= all.take(5).push(mtx_hls));
        assert forall|i: int| 0 <= i < 7 implies #[trigger] r.ports()[i] == port_for(
            port_names()[i],
            fallback_ports()[i],
            env.values()[i],
            pid,
            r.ports().take(i),
        ) by {
            if i == 0 {
            } else if i == 1 {
            } else if i == 2 {
            } else if i == 3 {
            } else if i == 4 {
            } else if i == 5 {
            } else {
            }
        }
    }
    r
}

// ── Laws ─────────────────────────────────────────────────────────────────────

/// Different steps try different ports.
pub proof fn candidates_are_distinct(name: Seq<char>, pid: u32, a: int, b: int)
    requires
        0 <= a < b < 1024,
    ensures
        candidate(name, pid, a) != candidate(name, pid, b),
{
    let offset = start_offset(name, pid);
    let x = (offset + a * 37) % 30_000;
    let y = (offset + b * 37) % 30_000;
    if x == y {
        // 37 has no factor in common with 30000, so 30000 would divide b - a
        let p = (offset + a * 37) / 30_000;
        let q = (offset + b * 37) / 30_000;
        assert((b - a) * 37 == (q - p) * 30_000);
        assert(((q - p) * 30_000) % 37 == 0 && (q - p) * 30_000 == 37 * (b - a));
        assert(0 < (q - p) && (q - p) * 30_000 <= 1023 * 37);
        assert(q - p == 1);
        assert(30_000int % 37 != 0);
        assert(false);
    }
}

/// A made-up port is high, and none of the reserved ones.
pub proof fn made_up_port_is_high_and_free(name: Seq<char>, pid: u32, reserved: Seq<u16>, step: int)
    requires
        0 <= step,
    ensures
        free_candidate(name, pid, reserved, step) matches Some(port) ==> 20_000 <= port < 50_000
            && !reserved.contains(port),
    decreases 1024 - step,
{
    if step < 1024 && reserved.contains(candidate(name, pid, step)) {
        made_up_port_is_high_and_free(name, pid, reserved, step + 1);
    }
}

proof fn lemma_all_reserved(name: Seq<char>, pid: u32, reserved: Seq<u16>, step: int)
    requires
        0 <= step,
        free_candidate(name, pid, reserved, step) is None,
    ensures
        forall|k: int|
            step <= k < 1024 ==> reserved.contains(#[trigger] candidate(name, pid, k)),
    decreases 1024 - step,
{
    if step < 1024 {
        lemma_all_reserved(name, pid, reserved, step + 1);
    }
}

/// While fewer than 1024 ports are reserved, a port can always be made up.
pub proof fn a_port_is_always_found(name: Seq<char>, pid: u32, reserved: Seq<u16>)
    requires
        reserved.len() < 1024,
    ensures
        free_candidate(name, pid, reserved, 0) is Some,
{
    if free_candidate(name, pid, reserved, 0) is None {
        lemma_all_reserved(name, pid, reserved, 0);
        let tried = Seq::new(1024, |k: int| candidate(name, pid, k));
        assert(tried.no_duplicates()) by {
            assert forall|a: int, b: int| 0 <= a < 1024 && 0 <= b < 1024 && a != b implies tried[a]
                != tried[b] by {
                if a < b {
                    candidates_are_distinct(name, pid, a, b);
                } else {
                    candidates_are_distinct(name, pid, b, a);
                }
            }
        }
        tried.unique_seq_to_set();
        reserved.lemma_cardinality_of_set();
        assert(tried.to_set().subset_of(reserved.to_set())) by {
            assert forall|port: u16| tried.to_set().contains(port) implies reserved.to_set().contains(
                port,
            ) by {
                let k = choose|k: int| 0 <= k < tried.len() && tried[k] == port;
                assert(reserved.contains(candidate(name, pid, k)));
            }
        }
        vstd::set_lib::lemma_len_subset(tried.to_set(), reserved.to_set());
    }
}

/// With nothing set in the environment, the ports of a process are high and all different.
pub proof fn made_up_ports_are_high_and_distinct(ports: Seq<u16>, pid: u32)
    requires
        ports.len() == 7,
        forall|i: int|
            0 <= i < 7 ==> #[trigger] ports[i] == port_for(
                port_names()[i],
                fallback_ports()[i],
                None,
                pid,
                ports.take(i),
            ),
    ensures
        forall|i: int| 0 <= i < 7 ==> 20_000 <= #[trigger] ports[i] < 50_000,
        ports.no_duplicates(),
{
    reveal(port_for);
    assert forall|i: int| 0 <= i < 7 implies 20_000 <= #[trigger] ports[i] < 50_000
        && !ports.take(i).contains(ports[i]) by {
        a_port_is_always_found(port_names()[i], pid, ports.take(i));
        made_up_port_is_high_and_free(port_names()[i], pid, ports.take(i), 0);
    }
    assert forall|i: int, j: int| 0 <= i < 7 && 0 <= j < 7 && i != j implies ports[i] != ports[j] by {
        if i < j {
            assert(ports.take(j)[i] == ports[i]);
            assert(!ports.take(j).contains(ports[j]));
        } else {
            assert(ports.take(i)[j] == ports[j]);
            assert(!ports.take(i).contains(ports[i]));
        }
    }
}

/// A port that the environment sets is taken as it is; without one a free one is made up, and only
/// where there is none is the fallback taken.
pub proof fn set_ports_come_first(
    name: Seq<char>,
    default: u16,
    port: u16,
    pid: u32,
    reserved: Seq<u16>,
)
    ensures
        port_for(name, default, Some(decimal(port as nat)), pid, reserved) == port,
        free_candidate(name, pid, reserved, 0) matches Some(free) ==> port_for(
            name,
            default,
            None,
            pid,
            reserved,
        ) == free,
        free_candidate(name, pid, reserved, 0) is None ==> port_for(
            name,
            default,
            None,
            pid,
            reserved,
        ) == default,
{
    reveal(port_for);
    crate::number::parse_undoes_decimal(port as nat, u16::MAX as int);
}

/// The fallbacks stand in the order of the names: those of the server, then those of the targets.
pub proof fn fallbacks_stand_in_the_order_of_names()
    ensures
        port_names().len() == 7 && fallback_ports().len() == 7,
        port_names()[0] == "RESTREAM_HTTP"@ && fallback_ports()[0] == 3030,
        port_names()[1] == "RESTREAM_RTMP"@ && fallback_ports()[1] == 1935,
        port_names()[2] == "RESTREAM_SRT"@ && fallback_ports()[2] == 10080,
        port_names()[3] == "MTX_RTMP"@ && fallback_ports()[3] == 1936,
        port_names()[4] == "MTX_SRT"@ && fallback_ports()[4] == 8891,
        port_names()[5] == "MTX_HLS"@ && fallback_ports()[5] == 8890,
        port_names()[6] == "MTX_API"@ && fallback_ports()[6] == 9997,
{
}

/// A name makes a number by its bytes, one after another: each adds itself to thirty-three times what
/// the others made. A port is tried at every thirty-seventh place from there on.
pub proof fn ports_are_made_of_names(bytes: Seq<u8>, byte: u8, name: Seq<char>, pid: u32, step: int)
    requires
        0 <= step,
    ensures
        name_hash(bytes.push(byte)) == (33 * name_hash(bytes) + byte) % 0x1_0000_0000,
        name_hash(Seq::empty()) == 0,
        candidate(name, pid, step) == 20_000 + (start_offset(name, pid) + 37 * step) % 30_000,
        0 <= start_offset(name, pid) < 30_000,
        start_offset(name, pid) == (97 * pid + name_hash(vstd::utf8::encode_utf8(name)))
            % 0x1_0000_0000 % 30_000,
{
    assert(bytes.push(byte).drop_last() =~= bytes);
}

} // verus!
