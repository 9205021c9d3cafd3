//! Ramps: one stream, and outputs of one kind that are added one by one.

use vstd::prelude::*;
use vstd::string::*;

use crate::harness::sweep::{StreamWatch, TargetPorts};
use crate::harness::urls::{
    rtmp_address, rtmp_url, srt_ingest_address, srt_ingest_url, srt_play_address, srt_play_url,
    srt_target_address, srt_target_url,
};
use crate::harness::waits::Tries;
use crate::number::{decimal, decimal_text};
use crate::text::{
    before, cut_comes_at_the_first, same_text, split_once, starts, strip_prefix, text_option, texts,
    words, words_of,
};

verus! {

/// How a stream travels.
#[derive(Debug, Clone, Copy, PartialEq, Eq, Structural)]
pub enum Protocol {
    Rtmp,
    Srt,
}

impl Protocol {
    pub open spec fn named(self) -> Seq<char> {
        match self {
            Protocol::Rtmp => "rtmp"@,
            Protocol::Srt => "srt"@,
        }
    }

    pub fn name(self) -> (r: &'static str)
        ensures
            r@ == self.named(),
    {
        match self {
            Protocol::Rtmp => "rtmp",
            Protocol::Srt => "srt",
        }
    }
}

/// A ramp: how the stream comes in, how it goes out, and whether it is encoded anew.
#[derive(Debug, Clone, Copy, PartialEq, Eq, Structural)]
pub struct RampConfig {
    pub ingest: Protocol,
    pub out: Protocol,
    pub from_source: bool,
}

impl RampConfig {
    pub open spec fn named(self) -> Seq<char> {
        self.ingest.named() + "-"@ + self.out.named() + (if self.from_source {
            "-src"@
        } else {
            "-720p"@
        })
    }

    pub fn name(self) -> (r: String)
        ensures
            r@ == self.named(),
    {
        let end: &str = if self.from_source {
            "-src"
        } else {
            "-720p"
        };
        self.ingest.name().to_string().concat("-").concat(self.out.name()).concat(end)
    }

    pub open spec fn encoded(self) -> Seq<char> {
        if self.from_source {
            "source"@
        } else {
            "720p"@
        }
    }

    pub fn encoding(self) -> (r: &'static str)
        ensures
            r@ == self.encoded(),
    {
        if self.from_source {
            "source"
        } else {
            "720p"
        }
    }

    pub open spec fn expects(self) -> Seq<char> {
        if self.from_source {
            "1920x1080"@
        } else {
            "1280x720"@
        }
    }

    /// The size of the picture at the end of an output.
    pub fn expected(self) -> (r: &'static str)
        ensures
            r@ == self.expects(),
    {
        if self.from_source {
            "1920x1080"
        } else {
            "1280x720"
        }
    }
}

/// All ramps, in order.
pub open spec fn ramp_configs() -> Seq<RampConfig> {
    seq![
        RampConfig { ingest: Protocol::Rtmp, out: Protocol::Rtmp, from_source: true },
        RampConfig { ingest: Protocol::Rtmp, out: Protocol::Rtmp, from_source: false },
        RampConfig { ingest: Protocol::Rtmp, out: Protocol::Srt, from_source: true },
        RampConfig { ingest: Protocol::Rtmp, out: Protocol::Srt, from_source: false },
        RampConfig { ingest: Protocol::Srt, out: Protocol::Rtmp, from_source: true },
        RampConfig { ingest: Protocol::Srt, out: Protocol::Rtmp, from_source: false },
        RampConfig { ingest: Protocol::Srt, out: Protocol::Srt, from_source: true },
        RampConfig { ingest: Protocol::Srt, out: Protocol::Srt, from_source: false },
    ]
}

fn all_ramp_configs() -> (r: Vec<RampConfig>)
    ensures
        r@ == ramp_configs(),
{
    let r: Vec<RampConfig> = vec![
        RampConfig { ingest: Protocol::Rtmp, out: Protocol::Rtmp, from_source: true },
        RampConfig { ingest: Protocol::Rtmp, out: Protocol::Rtmp, from_source: false },
        RampConfig { ingest: Protocol::Rtmp, out: Protocol::Srt, from_source: true },
        RampConfig { ingest: Protocol::Rtmp, out: Protocol::Srt, from_source: false },
        RampConfig { ingest: Protocol::Srt, out: Protocol::Rtmp, from_source: true },
        RampConfig { ingest: Protocol::Srt, out: Protocol::Rtmp, from_source: false },
        RampConfig { ingest: Protocol::Srt, out: Protocol::Srt, from_source: true },
        RampConfig { ingest: Protocol::Srt, out: Protocol::Srt, from_source: false },
    ];
    assert(r@ =~= ramp_configs());
    r
}

/// Whether a ramp is asked for: all are where nothing is said.
pub open spec fn is_asked(allowed: Option<Seq<char>>, config: RampConfig) -> bool {
    match allowed {
        Some(text) => words_of(text).contains(config.named()),
        None => true,
    }
}

fn holds_word(all: &Vec<String>, word: &str) -> (r: bool)
    ensures
        r == texts(all@).contains(word@),
{
    let ghost model = texts(all@);
    let mut i: usize = 0;
    while i < all.len()
        invariant
            i <= all@.len(),
            model == texts(all@),
            forall|k: int| 0 <= k < i ==> model[k] != word@,
        decreases all@.len() - i,
    {
        if same_text(all[i].as_str(), word) {
            assert(model[i as int] == word@);
            return true;
        }
        i += 1;
    }
    assert(!model.contains(word@));
    false
}

/// The ramps that `RAMP_FAMILY_CONFIGS` asks for, in the order of the table.
pub fn selected_ramp_configs(allowed: &Option<String>) -> (r: Vec<RampConfig>)
    ensures
        r@ == ramp_configs().filter(|c: RampConfig| is_asked(text_option(*allowed), c)),
{
    let all: Vec<RampConfig> = all_ramp_configs();
    let names: Option<Vec<String>> = match allowed {
        Some(text) => Some(words(text.as_str())),
        None => None,
    };
    let ghost asked = |c: RampConfig| is_asked(text_option(*allowed), c);
    let mut out: Vec<RampConfig> = Vec::new();
    let mut i: usize = 0;
    proof {
        reveal(Seq::filter);
        assert(all@.take(0) =~= Seq::<RampConfig>::empty());
        assert(out@ =~= all@.take(0).filter(asked));
    }
    while i < all.len()
        invariant
            i <= all@.len(),
            asked == (|c: RampConfig| is_asked(text_option(*allowed), c)),
            match names {
                Some(list) => text_option(*allowed) matches Some(text) && texts(list@) == words_of(
                    text,
                ),
                None => text_option(*allowed) is None,
            },
            out@ == all@.take(i as int).filter(asked),
        decreases all@.len() - i,
    {
        proof {
            reveal(Seq::filter);
            assert(all@.take(i + 1).drop_last() =~= all@.take(i as int));
            assert(all@.take(i + 1).last() == all@[i as int]);
        }
        let wanted: bool = match &names {
            Some(list) => holds_word(list, all[i].name().as_str()),
            None => true,
        };
        if wanted {
            out.push(all[i]);
        }
        i += 1;
    }
    assert(all@.take(all@.len() as int) =~= all@);
    out
}

/// Whether there is anything to do.
pub fn check_ramp(n_outputs: usize, configs: usize) -> (r: Result<(), &'static str>)
    ensures
        n_outputs == 0 ==> r is Err && r->Err_0@ == "N_OUTPUTS must be greater than zero"@,
        n_outputs > 0 && configs == 0 ==> r is Err && r->Err_0@
            == "RAMP_FAMILY_CONFIGS selected no ramp-family configs"@,
        n_outputs > 0 && configs > 0 ==> r is Ok,
{
    if n_outputs == 0 {
        Err("N_OUTPUTS must be greater than zero")
    } else if configs == 0 {
        Err("RAMP_FAMILY_CONFIGS selected no ramp-family configs")
    } else {
        Ok(())
    }
}

/// Where the stream of a ramp is published, and in which format.
pub fn ramp_publisher(config: RampConfig, rtmp_port: u16, srt_port: u16) -> (r: (
    String,
    &'static str,
))
    ensures
        ({
            let key = "sk-"@ + config.named();
            match config.ingest {
                Protocol::Rtmp => r.0@ == rtmp_address(rtmp_port, key) && r.1@ == "flv"@,
                Protocol::Srt => r.0@ == srt_ingest_address(srt_port, key) && r.1@ == "mpegts"@,
            }
        }),
{
    let key: String = "sk-".to_string().concat(config.name().as_str());
    match config.ingest {
        Protocol::Rtmp => (rtmp_url(rtmp_port, key.as_str()), "flv"),
        Protocol::Srt => (srt_ingest_url(srt_port, key.as_str()), "mpegts"),
    }
}

/// The name of the stream that the `index`-th output sends.
pub open spec fn ramp_stream(config: RampConfig, index: nat) -> Seq<char> {
    config.named() + "-"@ + decimal(index)
}

fn ramp_stream_text(config: RampConfig, index: usize) -> (r: String)
    ensures
        r@ == ramp_stream(config, index as nat),
{
    config.name().concat("-").concat(decimal_text(index as u64).as_str())
}

/// Where the `index`-th output sends the stream.
pub open spec fn ramp_target(ports: TargetPorts, config: RampConfig, index: nat) -> Seq<char> {
    match config.out {
        Protocol::Rtmp => rtmp_address(ports.rtmp, ramp_stream(config, index)),
        Protocol::Srt => srt_target_address(ports.srt, ramp_stream(config, index)),
    }
}

/// Where the end of an output is read.
pub open spec fn read_address(ports: TargetPorts, config: RampConfig, index: nat) -> Seq<char> {
    match config.out {
        Protocol::Rtmp => rtmp_address(ports.rtmp, ramp_stream(config, index)),
        Protocol::Srt => srt_play_address(ports.srt, ramp_stream(config, index)),
    }
}

/// Where what the `index`-th output sent is read.
pub fn read_url(ports: TargetPorts, config: RampConfig, index: usize) -> (r: String)
    ensures
        r@ == read_address(ports, config, index as nat),
{
    let name: String = ramp_stream_text(config, index);
    match config.out {
        Protocol::Rtmp => rtmp_url(ports.rtmp, name.as_str()),
        Protocol::Srt => srt_play_url(ports.srt, name.as_str()),
    }
}

/// A look at the end of an output.
#[derive(Debug, Clone)]
pub struct SpotCheck {
    pub label: String,
    pub url: String,
    pub expected: &'static str,
    pub tries: Tries,
}

/// Whether this is the look at the end of an output of a ramp.
pub open spec fn is_spot_check(
    check: SpotCheck,
    ports: TargetPorts,
    config: RampConfig,
    index: nat,
) -> bool {
    &&& check.label@ == "out"@ + decimal(index)
    &&& check.url@ == read_address(ports, config, index)
    &&& check.expected@ == config.expects()
    &&& check.tries == (Tries { attempts: 10, pause_secs: 2 })
}

fn spot_check(ports: TargetPorts, config: RampConfig, index: usize) -> (r: SpotCheck)
    ensures
        is_spot_check(r, ports, config, index as nat),
{
    SpotCheck {
        label: "out".to_string().concat(decimal_text(index as u64).as_str()),
        url: read_url(ports, config, index),
        expected: config.expected(),
        tries: Tries { attempts: 10, pause_secs: 2 },
    }
}

/// The outputs of a ramp that are looked at: the first and the last.
pub fn plan_spot_checks(ports: TargetPorts, config: RampConfig, n_outputs: usize) -> (r: (
    SpotCheck,
    SpotCheck,
))
    ensures
        is_spot_check(r.0, ports, config, 1),
        is_spot_check(r.1, ports, config, n_outputs as nat),
{
    (spot_check(ports, config, 1), spot_check(ports, config, n_outputs))
}

/// An output of a ramp.
#[derive(Debug, Clone)]
pub struct RampOutput {
    pub name: String,
    pub url: String,
    pub encoding: &'static str,
    /// Whether the server is measured once the output has been started.
    pub measured: bool,
}

/// Whether this is the `index`-th output of a ramp that is measured at the first output and at
/// every `every`-th.
pub open spec fn is_ramp_output(
    o: RampOutput,
    ports: TargetPorts,
    config: RampConfig,
    every: int,
    index: int,
) -> bool {
    &&& o.name@ == "out"@ + decimal(index as nat)
    &&& o.url@ == ramp_target(ports, config, index as nat)
    &&& o.encoding@ == config.encoded()
    &&& o.measured == (index == 1 || index % every == 0)
}

/// The outputs of a ramp, in the order in which they are added.
pub fn plan_ramp(ports: TargetPorts, config: RampConfig, n_outputs: usize, every: usize) -> (r: Vec<
    RampOutput,
>)
    requires
        every > 0,
    ensures
        r@.len() == n_outputs,
        forall|i: int|
            0 <= i < n_outputs ==> is_ramp_output(
                #[trigger] r@[i],
                ports,
                config,
                every as int,
                i + 1,
            ),
{
    let mut out: Vec<RampOutput> = Vec::new();
    let mut index: usize = 0;
    while index < n_outputs
        invariant
            index <= n_outputs,
            every > 0,
            out@.len() == index,
            forall|i: int|
                0 <= i < index ==> is_ramp_output(
                    #[trigger] out@[i],
                    ports,
                    config,
                    every as int,
                    i + 1,
                ),
        decreases n_outputs - index,
    {
        index += 1;
        let name: String = ramp_stream_text(config, index);
        let url: String = match config.out {
            Protocol::Rtmp => rtmp_url(ports.rtmp, name.as_str()),
            Protocol::Srt => srt_target_url(ports.srt, name.as_str()),
        };
        out.push(
            RampOutput {
                name: "out".to_string().concat(decimal_text(index as u64).as_str()),
                url,
                encoding: config.encoding(),
                measured: index == 1 || index % every == 0,
            },
        );
    }
    out
}

/// The line that tells what memory a ramp took.
pub fn ramp_summary_line(
    config: RampConfig,
    delta_kb: u64,
    per_output_kb: u64,
    transcoders: u64,
    transcoder_kb: u64,
) -> (r: String)
    ensures
        r@ == config.named() + ",rss_delta_kb="@ + decimal(delta_kb as nat) + ",per_output_kb="@
            + decimal(per_output_kb as nat) + ",ffmpeg_n="@ + decimal(transcoders as nat)
            + ",ffmpeg_rss_kb="@ + decimal(transcoder_kb as nat) + "\n"@,
{
    config.name().concat(",rss_delta_kb=").concat(decimal_text(delta_kb).as_str()).concat(
        ",per_output_kb=",
    ).concat(decimal_text(per_output_kb).as_str()).concat(",ffmpeg_n=").concat(
        decimal_text(transcoders).as_str(),
    ).concat(",ffmpeg_rss_kb=").concat(decimal_text(transcoder_kb).as_str()).concat("\n")
}

/// The line of a measurement.
pub fn ramp_snapshot_line(
    config: &str,
    step: usize,
    label: &str,
    cpu: &str,
    rss_kb: u64,
    transcoders: u64,
    transcoder_kb: u64,
) -> (r: String)
    requires
        rss_kb + transcoder_kb <= u64::MAX,
    ensures
        r@ == config@ + ","@ + decimal(step as nat) + ",\""@ + label@ + "\","@ + cpu@ + ","@
            + decimal(rss_kb as nat) + ","@ + decimal(transcoders as nat) + ","@ + decimal(
            transcoder_kb as nat,
        ) + ","@ + decimal((rss_kb + transcoder_kb) as nat) + "\n"@,
{
    config.to_string().concat(",").concat(decimal_text(step as u64).as_str()).concat(",\"").concat(
        label,
    ).concat("\",").concat(cpu).concat(",").concat(decimal_text(rss_kb).as_str()).concat(
        ",",
    ).concat(decimal_text(transcoders).as_str()).concat(",").concat(
        decimal_text(transcoder_kb).as_str(),
    ).concat(",").concat(decimal_text(rss_kb + transcoder_kb).as_str()).concat("\n")
}

/// What is found at the end of an output: the expected size once it was seen, else the last size
/// that was.
pub fn ramp_result(watch: &StreamWatch, seen: bool, expected: &str) -> (r: Option<String>)
    ensures
        text_option(r) == if seen {
            Some(expected@)
        } else {
            text_option(watch.last_observed)
        },
{
    if seen {
        Some(expected.to_string())
    } else {
        crate::text::copy_option(&watch.last_observed)
    }
}

/// The file of a database, from a path that may be written as a URL.
pub open spec fn database_file(path: Seq<char>) -> Seq<char> {
    before(
        if starts(path, "sqlite:"@) {
            path.skip("sqlite:"@.len() as int)
        } else {
            path
        },
        '?',
    )
}

/// The files of a database: itself, and the two that stand beside it while it is open.
pub fn database_files(path: &str) -> (r: Vec<String>)
    ensures
        texts(r@) == seq![
            database_file(path@),
            database_file(path@) + "-shm"@,
            database_file(path@) + "-wal"@,
        ],
{
    let plain: String = match strip_prefix(path, "sqlite:") {
        Some(rest) => rest,
        None => path.to_string(),
    };
    let (file, _query) = split_once(plain.as_str(), '?');
    let shm: String = file.clone().concat("-shm");
    let wal: String = file.clone().concat("-wal");
    let r: Vec<String> = vec![file, shm, wal];
    assert(texts(r@) =~= seq![
        database_file(path@),
        database_file(path@) + "-shm"@,
        database_file(path@) + "-wal"@,
    ]);
    r
}

/// What the targets are told: their ports, and whether they serve HLS.
pub fn target_config(rtmp: u16, srt: u16, hls: Option<u16>, api: u16) -> (r: String)
    ensures
        r@ == "logLevel: warn\nrtmp: yes\nrtmpAddress: :"@ + decimal(rtmp as nat)
            + "\nrtmpEncryption: \"no\"\nrtsp: no\nsrt: yes\nsrtAddress: :"@ + decimal(srt as nat)
            + (match hls {
            Some(port) => "\nhls: yes\nhlsAddress: :"@ + decimal(port as nat)
                + "\nhlsPartDuration: 200ms\nhlsSegmentDuration: 2s"@,
            None => "\nhls: no"@,
        }) + "\nwebrtc: no\napi: yes\napiAddress: :"@ + decimal(api as nat)
            + "\nmetrics: no\npaths:\n  all:\n"@,
{
    let hls_part: String = match hls {
        Some(port) => "\nhls: yes\nhlsAddress: :".to_string().concat(
            decimal_text(port as u64).as_str(),
        ).concat("\nhlsPartDuration: 200ms\nhlsSegmentDuration: 2s"),
        None => "\nhls: no".to_string(),
    };
    "logLevel: warn\nrtmp: yes\nrtmpAddress: :".to_string().concat(
        decimal_text(rtmp as u64).as_str(),
    ).concat("\nrtmpEncryption: \"no\"\nrtsp: no\nsrt: yes\nsrtAddress: :").concat(
        decimal_text(srt as u64).as_str(),
    ).concat(hls_part.as_str()).concat("\nwebrtc: no\napi: yes\napiAddress: :").concat(
        decimal_text(api as u64).as_str(),
    ).concat("\nmetrics: no\npaths:\n  all:\n")
}

// ── Publishers ───────────────────────────────────────────────────────────────

/// Which tracks of a fixture are published.
#[derive(Debug, Clone, Copy, PartialEq, Eq, Structural)]
pub enum PublishTrackSelection {
    PrimaryAv,
    AllStreams,
}

impl PublishTrackSelection {
    pub fn needs_all_streams(self) -> (r: bool)
        ensures
            r == (self == PublishTrackSelection::AllStreams),
    {
        match self {
            PublishTrackSelection::AllStreams => true,
            PublishTrackSelection::PrimaryAv => false,
        }
    }
}

/// What `ffmpeg` is told to publish a fixture over and over, in real time and as it is.
pub open spec fn publisher_words(
    fixture: Seq<char>,
    url: Seq<char>,
    format: Seq<char>,
    all_streams: bool,
) -> Seq<Seq<char>> {
    seq![
        "-nostdin"@,
        "-hide_banner"@,
        "-loglevel"@,
        "error"@,
        "-re"@,
        "-stream_loop"@,
        "-1"@,
        "-i"@,
        fixture,
    ] + (if all_streams {
        seq!["-map"@, "0"@]
    } else {
        seq!["-map"@, "0:v"@, "-map"@, "0:a:0"@]
    }) + seq!["-c"@, "copy"@, "-f"@, format, url]
}

/// What `ffmpeg` is told to publish a fixture.
pub fn publisher_args(fixture: &str, url: &str, format: &str, selection: PublishTrackSelection) -> (r:
    Vec<String>)
    ensures
        texts(r@) == publisher_words(
            fixture@,
            url@,
            format@,
            selection == PublishTrackSelection::AllStreams,
        ),
{
    let mut a: Vec<String> = Vec::new();
    a.push("-nostdin".to_string());
    a.push("-hide_banner".to_string());
    a.push("-loglevel".to_string());
    a.push("error".to_string());
    a.push("-re".to_string());
    a.push("-stream_loop".to_string());
    a.push("-1".to_string());
    a.push("-i".to_string());
    a.push(fixture.to_string());
    if selection.needs_all_streams() {
        a.push("-map".to_string());
        a.push("0".to_string());
    } else {
        a.push("-map".to_string());
        a.push("0:v".to_string());
        a.push("-map".to_string());
        a.push("0:a:0".to_string());
    }
    a.push("-c".to_string());
    a.push("copy".to_string());
    a.push("-f".to_string());
    a.push(format.to_string());
    a.push(url.to_string());
    assert(texts(a@) =~= publisher_words(
        fixture@,
        url@,
        format@,
        selection == PublishTrackSelection::AllStreams,
    ));
    a
}

// ── Laws ─────────────────────────────────────────────────────────────────────

/// The first output of a ramp is always measured.
pub proof fn first_output_is_measured(
    o: RampOutput,
    ports: TargetPorts,
    config: RampConfig,
    every: int,
)
    requires
        is_ramp_output(o, ports, config, every, 1),
    ensures
        o.measured,
{
}

/// Where nothing is asked for in particular, every ramp is run.
pub proof fn all_ramps_by_default()
    ensures
        ramp_configs().filter(|c: RampConfig| is_asked(None, c)) == ramp_configs(),
{
    lemma_filter_keeps(ramp_configs());
}

proof fn lemma_filter_keeps(configs: Seq<RampConfig>)
    ensures
        configs.filter(|c: RampConfig| is_asked(None, c)) == configs,
    decreases configs.len(),
{
    reveal(Seq::filter);
    if configs.len() > 0 {
        lemma_filter_keeps(configs.drop_last());
        assert(configs.drop_last().push(configs.last()) =~= configs);
    }
}

/// The eight ramps are all ways from one protocol to the other, each as it is and scaled; what is
/// scaled is expected in its size, and what is not in that of the source.
pub proof fn ramps_are_all_combinations(config: RampConfig)
    ensures
        ramp_configs().len() == 8,
        ramp_configs().contains(config),
        config.from_source ==> config.encoded() == "source"@ && config.expects() == "1920x1080"@,
        !config.from_source ==> config.encoded() == "720p"@ && config.expects() == "1280x720"@,
        config.named() == config.ingest.named() + "-"@ + config.out.named() + (
        if config.from_source {
            "-src"@
        } else {
            "-720p"@
        }),
        Protocol::Rtmp.named() == "rtmp"@ && Protocol::Srt.named() == "srt"@,
{
    let all = ramp_configs();
    let at: int = (if config.ingest == Protocol::Rtmp {
        0int
    } else {
        4
    }) + (if config.out == Protocol::Rtmp {
        0int
    } else {
        2
    }) + (if config.from_source {
        0int
    } else {
        1
    });
    assert(all[at] == config);
}

/// An output of a ramp is sent to and read from by its own protocol, under the same name.
pub proof fn ramp_outputs_are_read_where_they_are_sent(
    ports: TargetPorts,
    config: RampConfig,
    index: nat,
)
    ensures
        config.out == Protocol::Rtmp ==> ramp_target(ports, config, index) == rtmp_address(
            ports.rtmp,
            config.named() + "-"@ + decimal(index),
        ) && read_address(ports, config, index) == ramp_target(ports, config, index),
        config.out == Protocol::Srt ==> ramp_target(ports, config, index) == srt_target_address(
            ports.srt,
            config.named() + "-"@ + decimal(index),
        ) && read_address(ports, config, index) == srt_play_address(
            ports.srt,
            config.named() + "-"@ + decimal(index),
        ),
{
}

/// A ramp is run where nothing is asked for, or where its name is one of the words.
pub proof fn ramps_are_asked_for_by_name(allowed: Seq<char>, config: RampConfig)
    ensures
        is_asked(None, config),
        is_asked(Some(allowed), config) <==> words_of(allowed).contains(config.named()),
{
}

/// The file of a database stands between its scheme, where there is one, and its options.
pub proof fn database_file_is_between_scheme_and_options(file: Seq<char>, options: Seq<char>)
    requires
        !file.contains('?'),
        !starts(file, "sqlite:"@),
    ensures
        database_file("sqlite:"@ + file + seq!['?'] + options) == file,
        database_file("sqlite:"@ + file) == file,
        database_file(file) == file,
{
    reveal_strlit("sqlite:");
    cut_comes_at_the_first(file, '?', options);
    let a = "sqlite:"@ + file + seq!['?'] + options;
    assert(a.take(7) =~= "sqlite:"@);
    assert(a.skip(7) =~= file + seq!['?'] + options);
    let b = "sqlite:"@ + file;
    assert(b.take(7) =~= "sqlite:"@);
    assert(b.skip(7) =~= file);
}

/// A publisher plays a fixture over and over in real time, copies what it selects, and sends it in
/// the format to the address: all of its streams, or its video and the first audio.
pub proof fn publishers_play_in_real_time(
    fixture: Seq<char>,
    url: Seq<char>,
    format: Seq<char>,
    all_streams: bool,
)
    ensures
        ({
            let w = publisher_words(fixture, url, format, all_streams);
            &&& w[4] == "-re"@ && w[5] == "-stream_loop"@ && w[6] == "-1"@
            &&& w[7] == "-i"@ && w[8] == fixture
            &&& all_streams ==> w.len() == 16 && w[9] == "-map"@ && w[10] == "0"@ && w[11] == "-c"@
                && w[12] == "copy"@
            &&& !all_streams ==> w.len() == 18 && w[9] == "-map"@ && w[10] == "0:v"@ && w[11]
                == "-map"@ && w[12] == "0:a:0"@ && w[13] == "-c"@ && w[14] == "copy"@
            &&& w[w.len() - 3] == "-f"@ && w[w.len() - 2] == format && w.last() == url
        }),
{
}

} // verus!
