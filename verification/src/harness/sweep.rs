//! Sweeps: what is run to measure the server, with which streams and outputs.

use vstd::prelude::*;
use vstd::string::*;

use crate::harness::crypto::{append_srt_crypto, encrypted_address, HarnessSrtCrypto};
use crate::harness::urls::{
    rtmp_address, rtmp_url, srt_ingest_address, srt_ingest_url, srt_play_address, srt_play_url,
    srt_target_address, srt_target_url,
};
use crate::number::{decimal, decimal_text, parse_usize, parsed};
use crate::text::{
    ascii_lower, ascii_upper, join, joined, list_items, listed_items, quote, quoted, replace_char,
    replaced, same_text, split, split_text, strip_suffix, text_option, texts, to_ascii_lower,
    to_ascii_upper, trim, trimmed,
};

verus! {

/// In what time the stream of a sweep has to be live, in seconds.
pub const SWEEP_LIVE_SECS: u64 = 45;

/// In what time the outputs of a growing run have to make progress, in seconds.
pub const GROWTH_PROGRESS_SECS: u64 = 30;

/// In what time the outputs of a case have to make progress, in seconds.
pub const CASE_PROGRESS_SECS: u64 = 45;

/// For how long the end of an output of a case is looked at, in seconds.
pub const CASE_CHECK_SECS: u64 = 20;

/// How long the pause between two such looks is, in seconds.
pub const CASE_CHECK_PAUSE_SECS: u64 = 1;

// ── Lifecycles ───────────────────────────────────────────────────────────────

/// How long a server and its publishers live in a sweep.
#[derive(Debug, Clone, Copy, PartialEq, Eq, Structural)]
pub enum ResourceSweepLifecycle {
    /// Every run has a server of its own.
    Isolated,
    /// One server for all runs; each run takes away what it added.
    Continuous,
    /// One server for all runs; what a run added stays.
    Cumulative,
}

/// The lifecycle of this name.
pub open spec fn lifecycle_named(name: Seq<char>) -> Option<ResourceSweepLifecycle> {
    if name == "isolated"@ {
        Some(ResourceSweepLifecycle::Isolated)
    } else if name == "continuous"@ {
        Some(ResourceSweepLifecycle::Continuous)
    } else if name == "cumulative"@ {
        Some(ResourceSweepLifecycle::Cumulative)
    } else {
        None
    }
}

/// What the environment asks for; isolated where it says nothing.
pub open spec fn lifecycle_word(value: Option<Seq<char>>) -> Seq<char> {
    match value {
        Some(text) => ascii_lower(text),
        None => ascii_lower("isolated"@),
    }
}

impl ResourceSweepLifecycle {
    /// Reads `RESOURCE_SWEEP_LIFECYCLE`, in whatever case it is written.
    pub fn from_env(value: &Option<String>) -> (r: Result<Self, String>)
        ensures
            match lifecycle_named(lifecycle_word(text_option(*value))) {
                Some(l) => r is Ok && r->Ok_0 == l,
                None => r is Err && r->Err_0@
                    == "RESOURCE_SWEEP_LIFECYCLE must be isolated, continuous, or cumulative (got "@
                    + lifecycle_word(text_option(*value)) + ")"@,
            },
    {
        let word: String = match value {
            Some(text) => to_ascii_lower(text.as_str()),
            None => to_ascii_lower("isolated"),
        };
        if same_text(word.as_str(), "isolated") {
            Ok(ResourceSweepLifecycle::Isolated)
        } else if same_text(word.as_str(), "continuous") {
            Ok(ResourceSweepLifecycle::Continuous)
        } else if same_text(word.as_str(), "cumulative") {
            Ok(ResourceSweepLifecycle::Cumulative)
        } else {
            Err(
                "RESOURCE_SWEEP_LIFECYCLE must be isolated, continuous, or cumulative (got ".to_string().concat(
                    word.as_str(),
                ).concat(")"),
            )
        }
    }

    pub open spec fn worded(self) -> Seq<char> {
        match self {
            ResourceSweepLifecycle::Isolated => "isolated"@,
            ResourceSweepLifecycle::Continuous => "continuous"@,
            ResourceSweepLifecycle::Cumulative => "cumulative"@,
        }
    }

    /// The word for a lifecycle, which reads back as it.
    pub fn as_str(self) -> (r: &'static str)
        ensures
            r@ == self.worded(),
            lifecycle_named(r@) == Some(self),
    {
        proof {
            reveal_strlit("isolated");
            reveal_strlit("continuous");
            reveal_strlit("cumulative");
            assert("isolated"@[0] != "continuous"@[0]);
            assert("isolated"@[0] != "cumulative"@[0]);
            assert("continuous"@[1] != "cumulative"@[1]);
        }
        match self {
            ResourceSweepLifecycle::Isolated => "isolated",
            ResourceSweepLifecycle::Continuous => "continuous",
            ResourceSweepLifecycle::Cumulative => "cumulative",
        }
    }

    /// Whether a run starts a server for itself, and stops it.
    pub fn has_own_stack(self) -> (r: bool)
        ensures
            r == (self == ResourceSweepLifecycle::Isolated),
    {
        match self {
            ResourceSweepLifecycle::Isolated => true,
            _ => false,
        }
    }

    /// Whether what a run added stays when it is over.
    pub fn keeps_what_was_added(self) -> (r: bool)
        ensures
            r == (self == ResourceSweepLifecycle::Cumulative),
    {
        match self {
            ResourceSweepLifecycle::Cumulative => true,
            _ => false,
        }
    }
}

// ── Lists in the environment ─────────────────────────────────────────────────

/// The positive numbers among the pieces; the others are passed over.
pub open spec fn counts_of(pieces: Seq<Seq<char>>) -> Seq<int>
    decreases pieces.len(),
{
    if pieces.len() == 0 {
        Seq::empty()
    } else {
        let front = counts_of(pieces.drop_last());
        match parsed(trimmed(pieces.last()), usize::MAX as int) {
            Some(n) => if n > 0 {
                front.push(n)
            } else {
                front
            },
            None => front,
        }
    }
}

/// The positive numbers of a list that is written with commas.
pub fn parse_usize_list(value: &str) -> (r: Vec<usize>)
    ensures
        r@.map_values(|n: usize| n as int) == counts_of(split(value@, ',')),
        forall|i: int| 0 <= i < r@.len() ==> r@[i] > 0,
{
    let pieces: Vec<String> = split_text(value, ',');
    let ghost all = texts(pieces@);
    let mut out: Vec<usize> = Vec::new();
    let mut i: usize = 0;
    assert(all.take(0) =~= Seq::<Seq<char>>::empty());
    assert(out@.map_values(|n: usize| n as int) =~= Seq::<int>::empty());
    while i < pieces.len()
        invariant
            i <= pieces@.len(),
            all == texts(pieces@),
            all == split(value@, ','),
            out@.map_values(|n: usize| n as int) == counts_of(all.take(i as int)),
            forall|k: int| 0 <= k < out@.len() ==> out@[k] > 0,
        decreases pieces@.len() - i,
    {
        assert(all.take(i + 1).drop_last() =~= all.take(i as int));
        assert(all.take(i + 1).last() == pieces@[i as int]@);
        if let Some(n) = parse_usize(trim(pieces[i].as_str()).as_str()) {
            if n > 0 {
                let ghost before = out@;
                out.push(n);
                assert(out@.map_values(|n: usize| n as int) =~= before.map_values(
                    |n: usize| n as int,
                ).push(n as int));
            }
        }
        i += 1;
    }
    assert(all.take(all.len() as int) =~= all);
    out
}

/// The largest of the counts; one where there are none.
pub open spec fn largest(counts: Seq<usize>) -> usize
    decreases counts.len(),
{
    if counts.len() == 0 {
        1
    } else if counts.len() == 1 {
        counts[0]
    } else {
        let rest = largest(counts.drop_last());
        if counts.last() >= rest {
            counts.last()
        } else {
            rest
        }
    }
}

/// The largest of the counts; one where there are none.
pub fn largest_count(counts: &Vec<usize>) -> (r: usize)
    ensures
        r == largest(counts@),
{
    if counts.len() == 0 {
        return 1;
    }
    let mut best: usize = counts[0];
    let mut i: usize = 1;
    assert(counts@.take(1).len() == 1);
    while i < counts.len()
        invariant
            1 <= i <= counts@.len(),
            best == largest(counts@.take(i as int)),
        decreases counts@.len() - i,
    {
        assert(counts@.take(i + 1).drop_last() =~= counts@.take(i as int));
        if counts[i] >= best {
            best = counts[i];
        }
        i += 1;
    }
    assert(counts@.take(counts@.len() as int) =~= counts@);
    best
}

/// The names that a list allows; any name where the list is missing or empty.
pub open spec fn allowed_names(value: Option<Seq<char>>) -> Option<Seq<Seq<char>>> {
    match value {
        Some(text) => if listed_items(text).len() == 0 {
            None
        } else {
            Some(listed_items(text))
        },
        None => None,
    }
}

pub open spec fn names_option(names: Option<Vec<String>>) -> Option<Seq<Seq<char>>> {
    match names {
        Some(v) => Some(texts(v@)),
        None => None,
    }
}

/// The names that a list allows.
pub fn parse_string_set(value: &Option<String>) -> (r: Option<Vec<String>>)
    ensures
        names_option(r) == allowed_names(text_option(*value)),
{
    match value {
        Some(text) => {
            let items: Vec<String> = list_items(text.as_str());
            assert(texts(items@).len() == items@.len());
            if items.len() == 0 {
                None
            } else {
                Some(items)
            }
        },
        None => None,
    }
}

/// Whether a scenario is allowed.
pub open spec fn enabled(filter: Option<Seq<Seq<char>>>, scenario: Seq<char>) -> bool {
    match filter {
        Some(names) => names.contains(scenario),
        None => true,
    }
}

/// Whether a scenario is allowed.
pub fn scenario_enabled(filter: &Option<Vec<String>>, scenario: &str) -> (r: bool)
    ensures
        r == enabled(names_option(*filter), scenario@),
{
    match filter {
        None => true,
        Some(names) => {
            let ghost model = texts(names@);
            let mut i: usize = 0;
            while i < names.len()
                invariant
                    i <= names@.len(),
                    *filter == Some(*names),
                    model == texts(names@),
                    forall|k: int| 0 <= k < i ==> model[k] != scenario@,
                decreases names@.len() - i,
            {
                if same_text(names[i].as_str(), scenario) {
                    assert(model[i as int] == scenario@);
                    assert(names_option(*filter) == Some(model));
                    return true;
                }
                i += 1;
            }
            assert(!model.contains(scenario@));
            false
        },
    }
}

// ── Streams ──────────────────────────────────────────────────────────────────

/// The streams that sweeps take in.
#[derive(Debug, Clone, Copy, PartialEq, Eq, Structural)]
pub enum SweepConfig {
    H264Rtmp,
    H264Srt,
    H265Srt,
    H264SrtMulti,
    H265SrtMulti,
}

/// All the streams, in order.
pub open spec fn sweep_configs() -> Seq<SweepConfig> {
    seq![
        SweepConfig::H264Rtmp,
        SweepConfig::H264Srt,
        SweepConfig::H265Srt,
        SweepConfig::H264SrtMulti,
        SweepConfig::H265SrtMulti,
    ]
}

pub fn all_sweep_configs() -> (r: Vec<SweepConfig>)
    ensures
        r@ == sweep_configs(),
{
    let r: Vec<SweepConfig> = vec![
        SweepConfig::H264Rtmp,
        SweepConfig::H264Srt,
        SweepConfig::H265Srt,
        SweepConfig::H264SrtMulti,
        SweepConfig::H265SrtMulti,
    ];
    assert(r@ =~= sweep_configs());
    r
}

impl SweepConfig {
    pub open spec fn named(self) -> Seq<char> {
        match self {
            SweepConfig::H264Rtmp => "h264-rtmp"@,
            SweepConfig::H264Srt => "h264-srt"@,
            SweepConfig::H265Srt => "h265-srt"@,
            SweepConfig::H264SrtMulti => "h264-srt-multi"@,
            SweepConfig::H265SrtMulti => "h265-srt-multi"@,
        }
    }

    pub fn name(self) -> (r: &'static str)
        ensures
            r@ == self.named(),
    {
        match self {
            SweepConfig::H264Rtmp => "h264-rtmp",
            SweepConfig::H264Srt => "h264-srt",
            SweepConfig::H265Srt => "h265-srt",
            SweepConfig::H264SrtMulti => "h264-srt-multi",
            SweepConfig::H265SrtMulti => "h265-srt-multi",
        }
    }

    pub open spec fn over_rtmp(self) -> bool {
        self == SweepConfig::H264Rtmp
    }

    pub fn is_rtmp(self) -> (r: bool)
        ensures
            r == self.over_rtmp(),
    {
        match self {
            SweepConfig::H264Rtmp => true,
            _ => false,
        }
    }

    /// The protocol by which the stream comes in.
    pub fn ingest_proto(self) -> (r: &'static str)
        ensures
            r@ == if self.over_rtmp() {
                "rtmp"@
            } else {
                "srt"@
            },
    {
        match self {
            SweepConfig::H264Rtmp => "rtmp",
            _ => "srt",
        }
    }

    /// The codec of the stream's video.
    pub fn video_codec(self) -> (r: &'static str)
        ensures
            r@ == match self {
                SweepConfig::H265Srt | SweepConfig::H265SrtMulti => "h265"@,
                _ => "h264"@,
            },
    {
        match self {
            SweepConfig::H265Srt => "h265",
            SweepConfig::H265SrtMulti => "h265",
            _ => "h264",
        }
    }

    pub open spec fn is_multi(self) -> bool {
        self == SweepConfig::H264SrtMulti || self == SweepConfig::H265SrtMulti
    }

    /// Whether the stream has more than one audio track.
    pub fn multi_audio(self) -> (r: bool)
        ensures
            r == self.is_multi(),
    {
        match self {
            SweepConfig::H264SrtMulti => true,
            SweepConfig::H265SrtMulti => true,
            _ => false,
        }
    }
}

/// The stream of this name.
pub open spec fn config_named(name: Seq<char>) -> Option<SweepConfig> {
    if name == "h264-rtmp"@ {
        Some(SweepConfig::H264Rtmp)
    } else if name == "h264-srt"@ {
        Some(SweepConfig::H264Srt)
    } else if name == "h265-srt"@ {
        Some(SweepConfig::H265Srt)
    } else if name == "h264-srt-multi"@ {
        Some(SweepConfig::H264SrtMulti)
    } else if name == "h265-srt-multi"@ {
        Some(SweepConfig::H265SrtMulti)
    } else {
        None
    }
}

fn find_config(name: &str) -> (r: Option<SweepConfig>)
    ensures
        r == config_named(name@),
{
    if same_text(name, "h264-rtmp") {
        Some(SweepConfig::H264Rtmp)
    } else if same_text(name, "h264-srt") {
        Some(SweepConfig::H264Srt)
    } else if same_text(name, "h265-srt") {
        Some(SweepConfig::H265Srt)
    } else if same_text(name, "h264-srt-multi") {
        Some(SweepConfig::H264SrtMulti)
    } else if same_text(name, "h265-srt-multi") {
        Some(SweepConfig::H265SrtMulti)
    } else {
        None
    }
}

/// The streams of these names, or the first name that is of none.
pub open spec fn configs_of(names: Seq<Seq<char>>) -> Result<Seq<SweepConfig>, Seq<char>>
    decreases names.len(),
{
    if names.len() == 0 {
        Ok(Seq::empty())
    } else {
        match configs_of(names.drop_last()) {
            Err(name) => Err(name),
            Ok(front) => match config_named(names.last()) {
                Some(config) => Ok(front.push(config)),
                None => Err(names.last()),
            },
        }
    }
}

proof fn lemma_bad_name_stays(names: Seq<Seq<char>>, k: int, bad: Seq<char>)
    requires
        0 <= k <= names.len(),
        configs_of(names.take(k)) == Err::<Seq<SweepConfig>, Seq<char>>(bad),
    ensures
        configs_of(names) == Err::<Seq<SweepConfig>, Seq<char>>(bad),
    decreases names.len() - k,
{
    if k < names.len() {
        assert(names.take(k + 1).drop_last() =~= names.take(k));
        lemma_bad_name_stays(names, k + 1, bad);
    } else {
        assert(names.take(k) =~= names);
    }
}

/// The streams that the variable `name` lists; all of them where it is not set.
pub fn parse_sweep_configs(name: &str, value: &Option<String>) -> (r: Result<
    Vec<SweepConfig>,
    String,
>)
    ensures
        match text_option(*value) {
            None => r is Ok && r->Ok_0@ == sweep_configs(),
            Some(text) => match configs_of(listed_items(text)) {
                Err(bad) => r is Err && r->Err_0@ == "unknown sweep config "@ + quoted(bad),
                Ok(configs) => if configs.len() == 0 {
                    r is Err && r->Err_0@ == name@ + " produced no configs"@
                } else {
                    r is Ok && r->Ok_0@ == configs
                },
            },
        },
{
    match value {
        None => Ok(all_sweep_configs()),
        Some(text) => {
            let items: Vec<String> = list_items(text.as_str());
            let ghost all = texts(items@);
            let mut out: Vec<SweepConfig> = Vec::new();
            let mut i: usize = 0;
            assert(all.take(0) =~= Seq::<Seq<char>>::empty());
            assert(out@ =~= Seq::<SweepConfig>::empty());
            while i < items.len()
                invariant
                    i <= items@.len(),
                    *value == Some(*text),
                    all == texts(items@),
                    all == listed_items(text@),
                    configs_of(all.take(i as int)) == Ok::<Seq<SweepConfig>, Seq<char>>(out@),
                decreases items@.len() - i,
            {
                assert(all.take(i + 1).drop_last() =~= all.take(i as int));
                assert(all.take(i + 1).last() == items@[i as int]@);
                match find_config(items[i].as_str()) {
                    Some(config) => {
                        out.push(config);
                    },
                    None => {
                        proof {
                            lemma_bad_name_stays(all, i + 1, items@[i as int]@);
                        }
                        return Err(
                            "unknown sweep config ".to_string().concat(
                                quote(items[i].as_str()).as_str(),
                            ),
                        );
                    },
                }
                i += 1;
            }
            assert(all.take(all.len() as int) =~= all);
            if out.len() == 0 {
                return Err(name.to_string().concat(" produced no configs"));
            }
            Ok(out)
        },
    }
}

/// In what a bitrate is given.
#[derive(Debug, Clone, Copy, PartialEq, Eq, Structural)]
pub enum BitrateUnit {
    Mbps,
    Kbps,
    /// No unit is written: megabits.
    Bare,
}

/// A bitrate as it is written: the whole, the part that is to be a number, and its unit.
#[derive(Debug, Clone)]
pub struct BitrateText {
    pub label: String,
    pub number: String,
    pub unit: BitrateUnit,
}

/// The unit of a bitrate in upper case, and what stands before it.
pub open spec fn unit_of(upper: Seq<char>) -> (Seq<char>, BitrateUnit) {
    if upper.len() > 0 && upper.last() == 'M' {
        (upper.drop_last(), BitrateUnit::Mbps)
    } else if upper.len() > 0 && upper.last() == 'K' {
        (upper.drop_last(), BitrateUnit::Kbps)
    } else {
        (upper, BitrateUnit::Bare)
    }
}

/// Takes a bitrate apart.
pub fn read_bitrate(part: &str) -> (r: BitrateText)
    ensures
        r.label@ == part@,
        (r.number@, r.unit) == unit_of(ascii_upper(part@)),
{
    let upper: String = to_ascii_upper(part);
    proof {
        reveal_strlit("M");
        reveal_strlit("K");
        let u = upper@;
        if u.len() > 0 {
            assert(u.skip(u.len() - 1)[0] == u.last());
            assert(u.take(u.len() - 1) =~= u.drop_last());
            if u.last() == 'M' {
                assert(u.skip(u.len() - 1) =~= "M"@);
            }
            if u.last() == 'K' {
                assert(u.skip(u.len() - 1) =~= "K"@);
            }
        }
    }
    if let Some(number) = strip_suffix(upper.as_str(), "M") {
        return BitrateText { label: part.to_string(), number, unit: BitrateUnit::Mbps };
    }
    if let Some(number) = strip_suffix(upper.as_str(), "K") {
        return BitrateText { label: part.to_string(), number, unit: BitrateUnit::Kbps };
    }
    BitrateText { label: part.to_string(), number: upper, unit: BitrateUnit::Bare }
}

/// What is said of a bitrate whose number cannot be read.
pub fn bitrate_complaint(bitrate: &BitrateText) -> (r: String)
    ensures
        r@ == (match bitrate.unit {
            BitrateUnit::Mbps => "invalid Mbps bitrate "@,
            BitrateUnit::Kbps => "invalid Kbps bitrate "@,
            BitrateUnit::Bare => "invalid bitrate "@,
        }) + quoted(bitrate.label@),
{
    let what: &str = match bitrate.unit {
        BitrateUnit::Mbps => "invalid Mbps bitrate ",
        BitrateUnit::Kbps => "invalid Kbps bitrate ",
        BitrateUnit::Bare => "invalid bitrate ",
    };
    what.to_string().concat(quote(bitrate.label.as_str()).as_str())
}

/// The bitrates of a list that is written with commas.
pub fn bitrate_texts(value: &str) -> (r: Vec<BitrateText>)
    ensures
        r@.len() == listed_items(value@).len(),
        forall|i: int|
            0 <= i < r@.len() ==> (#[trigger] r@[i]).label@ == listed_items(value@)[i] && (
            r@[i].number@,
            r@[i].unit,
        ) == unit_of(ascii_upper(listed_items(value@)[i])),
{
    let items: Vec<String> = list_items(value);
    let ghost all = texts(items@);
    assert(all.len() == items@.len());
    let mut out: Vec<BitrateText> = Vec::new();
    let mut i: usize = 0;
    while i < items.len()
        invariant
            i <= items@.len(),
            all == texts(items@),
            all == listed_items(value@),
            out@.len() == i,
            forall|k: int|
                0 <= k < i ==> (#[trigger] out@[k]).label@ == all[k] && (
                out@[k].number@,
                out@[k].unit,
            ) == unit_of(ascii_upper(all[k])),
        decreases items@.len() - i,
    {
        assert(all[i as int] == items@[i as int]@);
        out.push(read_bitrate(items[i].as_str()));
        i += 1;
    }
    out
}

/// What is said of a list of bitrates that is empty.
pub fn no_bitrates_message(name: &str) -> (r: String)
    ensures
        r@ == name@ + " produced no bitrate values"@,
{
    name.to_string().concat(" produced no bitrate values")
}

// ── Outputs ──────────────────────────────────────────────────────────────────

/// The outputs that sweeps send to.
#[derive(Debug, Clone, Copy, PartialEq, Eq, Structural)]
pub enum SweepOutputKind {
    RtmpSource,
    SrtSource,
    Rtmp720p,
    Srt720p,
    Rtmp1080p,
    Srt1080p,
}

impl SweepOutputKind {
    pub open spec fn labelled(self) -> Seq<char> {
        match self {
            SweepOutputKind::RtmpSource => "rtmp-source"@,
            SweepOutputKind::SrtSource => "srt-source"@,
            SweepOutputKind::Rtmp720p => "rtmp-720p"@,
            SweepOutputKind::Srt720p => "srt-720p"@,
            SweepOutputKind::Rtmp1080p => "rtmp-1080p"@,
            SweepOutputKind::Srt1080p => "srt-1080p"@,
        }
    }

    pub fn label(self) -> (r: &'static str)
        ensures
            r@ == self.labelled(),
    {
        match self {
            SweepOutputKind::RtmpSource => "rtmp-source",
            SweepOutputKind::SrtSource => "srt-source",
            SweepOutputKind::Rtmp720p => "rtmp-720p",
            SweepOutputKind::Srt720p => "srt-720p",
            SweepOutputKind::Rtmp1080p => "rtmp-1080p",
            SweepOutputKind::Srt1080p => "srt-1080p",
        }
    }

    pub open spec fn over_rtmp(self) -> bool {
        self == SweepOutputKind::RtmpSource || self == SweepOutputKind::Rtmp720p || self
            == SweepOutputKind::Rtmp1080p
    }

    pub fn is_rtmp(self) -> (r: bool)
        ensures
            r == self.over_rtmp(),
    {
        match self {
            SweepOutputKind::RtmpSource => true,
            SweepOutputKind::Rtmp720p => true,
            SweepOutputKind::Rtmp1080p => true,
            _ => false,
        }
    }

    pub open spec fn from_source(self) -> bool {
        self == SweepOutputKind::RtmpSource || self == SweepOutputKind::SrtSource
    }

    pub fn is_source(self) -> (r: bool)
        ensures
            r == self.from_source(),
    {
        match self {
            SweepOutputKind::RtmpSource => true,
            SweepOutputKind::SrtSource => true,
            _ => false,
        }
    }

    /// How an output encodes a stream: RTMP carries one audio track, SRT both.
    pub open spec fn encoded(self, multi_audio: bool) -> Seq<char> {
        match self {
            SweepOutputKind::RtmpSource | SweepOutputKind::SrtSource => "source"@,
            SweepOutputKind::Rtmp720p => if multi_audio {
                "720p+atrack:0"@
            } else {
                "720p"@
            },
            SweepOutputKind::Srt720p => if multi_audio {
                "720p+atrack:0,1"@
            } else {
                "720p"@
            },
            SweepOutputKind::Rtmp1080p => if multi_audio {
                "1080p+atrack:0"@
            } else {
                "1080p"@
            },
            SweepOutputKind::Srt1080p => if multi_audio {
                "1080p+atrack:0,1"@
            } else {
                "1080p"@
            },
        }
    }

    pub fn encoding(self, multi_audio: bool) -> (r: &'static str)
        ensures
            r@ == self.encoded(multi_audio),
    {
        match self {
            SweepOutputKind::RtmpSource => "source",
            SweepOutputKind::SrtSource => "source",
            SweepOutputKind::Rtmp720p => if multi_audio {
                "720p+atrack:0"
            } else {
                "720p"
            },
            SweepOutputKind::Srt720p => if multi_audio {
                "720p+atrack:0,1"
            } else {
                "720p"
            },
            SweepOutputKind::Rtmp1080p => if multi_audio {
                "1080p+atrack:0"
            } else {
                "1080p"
            },
            SweepOutputKind::Srt1080p => if multi_audio {
                "1080p+atrack:0,1"
            } else {
                "1080p"
            },
        }
    }

    /// The size of the picture that is expected at the end of an output.
    pub open spec fn expects(self) -> Seq<char> {
        if self == SweepOutputKind::Rtmp720p || self == SweepOutputKind::Srt720p {
            "1280x720"@
        } else {
            "1920x1080"@
        }
    }

    pub fn expected(self) -> (r: &'static str)
        ensures
            r@ == self.expects(),
    {
        match self {
            SweepOutputKind::Rtmp720p => "1280x720",
            SweepOutputKind::Srt720p => "1280x720",
            _ => "1920x1080",
        }
    }
}

/// The ports of the targets.
#[derive(Debug, Clone, Copy, PartialEq, Eq, Structural)]
pub struct TargetPorts {
    pub rtmp: u16,
    pub srt: u16,
}

/// Where an output sends a stream.
pub open spec fn output_address(ports: TargetPorts, kind: SweepOutputKind, name: Seq<char>) -> Seq<
    char,
> {
    if kind.over_rtmp() {
        rtmp_address(ports.rtmp, name)
    } else {
        srt_target_address(ports.srt, name)
    }
}

/// Where an output sends a stream, and how it encodes it.
pub fn sweep_output_url(
    ports: TargetPorts,
    config: SweepConfig,
    kind: SweepOutputKind,
    name: &str,
) -> (r: (String, String))
    ensures
        r.0@ == output_address(ports, kind, name@),
        r.1@ == kind.encoded(config.is_multi()),
{
    let url: String = if kind.is_rtmp() {
        rtmp_url(ports.rtmp, name)
    } else {
        srt_target_url(ports.srt, name)
    };
    (url, kind.encoding(config.multi_audio()).to_string())
}

/// Where what an output sent is read.
pub fn bitrate_probe_url(ports: TargetPorts, kind: SweepOutputKind, name: &str) -> (r: String)
    ensures
        r@ == if kind.over_rtmp() {
            rtmp_address(ports.rtmp, name@)
        } else {
            srt_play_address(ports.srt, name@)
        },
{
    if kind.is_rtmp() {
        rtmp_url(ports.rtmp, name)
    } else {
        srt_play_url(ports.srt, name)
    }
}

/// How a stream is published.
#[derive(Debug, Clone)]
pub struct SweepPublisher {
    pub url: String,
    pub format: &'static str,
    /// All streams of the fixture, or the video and the first audio.
    pub all_streams: bool,
    pub log_name: String,
}

/// How a stream is published to the server under test.
pub fn sweep_publisher(
    rtmp_port: u16,
    srt_port: u16,
    crypto: &HarnessSrtCrypto,
    config: SweepConfig,
    stream_key: &str,
) -> (r: SweepPublisher)
    ensures
        r.log_name@ == "publisher-"@ + stream_key@ + ".log"@,
        config.over_rtmp() ==> r.url@ == rtmp_address(rtmp_port, stream_key@) && r.format@
            == "flv"@ && !r.all_streams,
        !config.over_rtmp() ==> r.url@ == encrypted_address(
            srt_ingest_address(srt_port, stream_key@),
            crypto@,
        ) && r.format@ == "mpegts"@ && r.all_streams == config.is_multi(),
{
    let log_name: String = "publisher-".to_string().concat(stream_key).concat(".log");
    if config.is_rtmp() {
        SweepPublisher {
            url: rtmp_url(rtmp_port, stream_key),
            format: "flv",
            all_streams: false,
            log_name,
        }
    } else {
        SweepPublisher {
            url: append_srt_crypto(srt_ingest_url(srt_port, stream_key), crypto),
            format: "mpegts",
            all_streams: config.multi_audio(),
            log_name,
        }
    }
}

// ── What is measured ─────────────────────────────────────────────────────────

/// What a measurement is of.
#[derive(Debug, Clone)]
pub struct ScenarioMeta {
    pub scenario: String,
    pub label: String,
    pub pipelines: usize,
    pub outputs: usize,
    pub ingest_types: String,
    pub egress_mix: String,
    pub transcode: &'static str,
}

pub struct MetaModel {
    pub scenario: Seq<char>,
    pub label: Seq<char>,
    pub pipelines: int,
    pub outputs: int,
    pub ingest_types: Seq<char>,
    pub egress_mix: Seq<char>,
    pub transcode: Seq<char>,
}

impl View for ScenarioMeta {
    type V = MetaModel;

    open spec fn view(&self) -> MetaModel {
        MetaModel {
            scenario: self.scenario@,
            label: self.label@,
            pipelines: self.pipelines as int,
            outputs: self.outputs as int,
            ingest_types: self.ingest_types@,
            egress_mix: self.egress_mix@,
            transcode: self.transcode@,
        }
    }
}

pub open spec fn meta_option(m: Option<ScenarioMeta>) -> Option<MetaModel> {
    match m {
        Some(meta) => Some(meta@),
        None => None,
    }
}

/// An empty server.
pub fn baseline_meta() -> (r: ScenarioMeta)
    ensures
        r@ == (MetaModel {
            scenario: "baseline-empty"@,
            label: "empty"@,
            pipelines: 0,
            outputs: 0,
            ingest_types: "none"@,
            egress_mix: "none"@,
            transcode: "none"@,
        }),
{
    ScenarioMeta {
        scenario: "baseline-empty".to_string(),
        label: "empty".to_string(),
        pipelines: 0,
        outputs: 0,
        ingest_types: "none".to_string(),
        egress_mix: "none".to_string(),
        transcode: "none",
    }
}

/// One stream that comes in, and nothing that goes out.
pub fn ingest_only_meta(config: SweepConfig) -> (r: ScenarioMeta)
    ensures
        r@ == (MetaModel {
            scenario: "ingest-only"@,
            label: config.named(),
            pipelines: 1,
            outputs: 0,
            ingest_types: config.named(),
            egress_mix: "none"@,
            transcode: "none"@,
        }),
{
    ScenarioMeta {
        scenario: "ingest-only".to_string(),
        label: config.name().to_string(),
        pipelines: 1,
        outputs: 0,
        ingest_types: config.name().to_string(),
        egress_mix: "none".to_string(),
        transcode: "none",
    }
}

/// The names of the first streams.
pub open spec fn config_names(configs: Seq<SweepConfig>) -> Seq<Seq<char>> {
    configs.map_values(|c: SweepConfig| c.named())
}

/// One more stream that comes in.
#[derive(Debug, Clone)]
pub struct IngestStep {
    pub config: SweepConfig,
    pub pipeline_name: String,
    pub stream_key: String,
    /// What is measured once the stream is live.
    pub measured: Option<ScenarioMeta>,
}

/// Which stream comes in as the `index`-th.
pub open spec fn growth_config(mixed: bool, index: int) -> SweepConfig {
    if mixed {
        sweep_configs()[index - 1]
    } else {
        SweepConfig::H264Srt
    }
}

/// What is measured after the `index`-th stream.
pub open spec fn ingest_growth_meta(mixed: bool, index: int) -> MetaModel {
    MetaModel {
        scenario: if mixed {
            "ingest-growth-mixed"@
        } else {
            "ingest-growth-same"@
        },
        label: decimal(index as nat) + "-pipelines"@,
        pipelines: index,
        outputs: 0,
        ingest_types: if mixed {
            joined(config_names(sweep_configs().take(index)), ","@)
        } else {
            "h264-srt"@
        },
        egress_mix: "none"@,
        transcode: "none"@,
    }
}

/// Whether a step brings in the `index`-th stream of a growth, and measures where that is asked.
pub open spec fn is_ingest_step(step: IngestStep, counts: Seq<usize>, mixed: bool, index: int) -> bool {
    let config = growth_config(mixed, index);
    &&& step.config == config
    &&& step.pipeline_name@ == config.named() + "-"@ + decimal(index as nat)
    &&& step.stream_key@ == "resource-growth-"@ + decimal(index as nat) + "-"@ + config.named()
    &&& meta_option(step.measured) == if counts.contains(index as usize) {
        Some(ingest_growth_meta(mixed, index))
    } else {
        None
    }
}

fn contains_count(counts: &Vec<usize>, n: usize) -> (r: bool)
    ensures
        r == counts@.contains(n),
{
    let mut i: usize = 0;
    while i < counts.len()
        invariant
            i <= counts@.len(),
            forall|k: int| 0 <= k < i ==> counts@[k] != n,
        decreases counts@.len() - i,
    {
        if counts[i] == n {
            return true;
        }
        i += 1;
    }
    false
}

fn first_config_names(n: usize) -> (r: String)
    requires
        n <= 5,
    ensures
        r@ == joined(config_names(sweep_configs().take(n as int)), ","@),
{
    let configs: Vec<SweepConfig> = all_sweep_configs();
    let mut names: Vec<String> = Vec::new();
    let mut i: usize = 0;
    while i < n
        invariant
            i <= n <= 5,
            configs@ == sweep_configs(),
            names@.len() == i,
            forall|k: int| 0 <= k < i ==> (#[trigger] names@[k])@ == sweep_configs()[k].named(),
        decreases n - i,
    {
        names.push(configs[i].name().to_string());
        i += 1;
    }
    assert(texts(names@) =~= config_names(sweep_configs().take(n as int)));
    join(&names, ",")
}

/// How streams are brought in one after another: always the same one, or each once.
pub fn plan_ingest_growth(counts: &Vec<usize>, mixed: bool) -> (r: Vec<IngestStep>)
    requires
        mixed ==> largest(counts@) <= 5,
    ensures
        r@.len() == largest(counts@),
        forall|i: int|
            0 <= i < r@.len() ==> is_ingest_step(#[trigger] r@[i], counts@, mixed, i + 1),
{
    let last: usize = largest_count(counts);
    let configs: Vec<SweepConfig> = all_sweep_configs();
    let mut out: Vec<IngestStep> = Vec::new();
    let mut index: usize = 0;
    while index < last
        invariant
            index <= last,
            mixed ==> last <= 5,
            configs@ == sweep_configs(),
            out@.len() == index,
            forall|i: int|
                0 <= i < index ==> is_ingest_step(#[trigger] out@[i], counts@, mixed, i + 1),
        decreases last - index,
    {
        let config: SweepConfig = if mixed {
            configs[index]
        } else {
            SweepConfig::H264Srt
        };
        index += 1;
        let number: String = decimal_text(index as u64);
        let measured: Option<ScenarioMeta> = if contains_count(counts, index) {
            let ingest_types: String = if mixed {
                first_config_names(index)
            } else {
                "h264-srt".to_string()
            };
            let scenario: &str = if mixed {
                "ingest-growth-mixed"
            } else {
                "ingest-growth-same"
            };
            Some(
                ScenarioMeta {
                    scenario: scenario.to_string(),
                    label: number.clone().concat("-pipelines"),
                    pipelines: index,
                    outputs: 0,
                    ingest_types,
                    egress_mix: "none".to_string(),
                    transcode: "none",
                },
            )
        } else {
            None
        };
        out.push(
            IngestStep {
                config,
                pipeline_name: config.name().to_string().concat("-").concat(number.as_str()),
                stream_key: "resource-growth-".to_string().concat(number.as_str()).concat(
                    "-",
                ).concat(config.name()),
                measured,
            },
        );
    }
    out
}

/// An output that a sweep adds.
#[derive(Debug, Clone)]
pub struct SweepOutput {
    pub kind: SweepOutputKind,
    pub name: String,
    pub url: String,
    pub encoding: String,
}

/// Whether an output is the one of a kind in the `index`-th group of a scenario.
pub open spec fn is_group_output(
    output: SweepOutput,
    ports: TargetPorts,
    scenario: Seq<char>,
    config: SweepConfig,
    kind: SweepOutputKind,
    index: int,
) -> bool {
    &&& output.kind == kind
    &&& output.name@ == scenario + "-"@ + kind.labelled() + "-"@ + decimal(index as nat)
    &&& output.url@ == output_address(ports, kind, output.name@)
    &&& output.encoding@ == kind.encoded(config.is_multi())
}

/// One more group of outputs.
#[derive(Debug, Clone)]
pub struct EgressStep {
    pub outputs: Vec<SweepOutput>,
    /// What is measured once all outputs make progress.
    pub measured: Option<ScenarioMeta>,
}

pub open spec fn kind_labels(kinds: Seq<SweepOutputKind>) -> Seq<Seq<char>> {
    kinds.map_values(|k: SweepOutputKind| k.labelled())
}

/// Whether any of the outputs is encoded anew.
pub open spec fn transcodes(kinds: Seq<SweepOutputKind>) -> bool {
    exists|i: int| 0 <= i < kinds.len() && !(#[trigger] kinds[i]).from_source()
}

/// What is measured after the `index`-th group.
pub open spec fn egress_growth_meta(
    scenario: Seq<char>,
    config: SweepConfig,
    kinds: Seq<SweepOutputKind>,
    index: int,
) -> MetaModel {
    MetaModel {
        scenario,
        label: decimal(index as nat) + "-per-group"@,
        pipelines: 1,
        outputs: index * kinds.len(),
        ingest_types: config.named(),
        egress_mix: joined(kind_labels(kinds), ","@),
        transcode: if transcodes(kinds) {
            "yes"@
        } else {
            "no"@
        },
    }
}

/// Whether a step adds the `index`-th group, and measures where that is asked.
pub open spec fn is_egress_step(
    step: EgressStep,
    ports: TargetPorts,
    scenario: Seq<char>,
    config: SweepConfig,
    kinds: Seq<SweepOutputKind>,
    counts: Seq<usize>,
    index: int,
) -> bool {
    &&& step.outputs@.len() == kinds.len()
    &&& forall|k: int|
        0 <= k < kinds.len() ==> is_group_output(
            #[trigger] step.outputs@[k],
            ports,
            scenario,
            config,
            kinds[k],
            index,
        )
    &&& meta_option(step.measured) == if counts.contains(index as usize) {
        Some(egress_growth_meta(scenario, config, kinds, index))
    } else {
        None
    }
}

fn group_outputs(
    ports: TargetPorts,
    scenario: &str,
    config: SweepConfig,
    kinds: &Vec<SweepOutputKind>,
    index: usize,
) -> (r: Vec<SweepOutput>)
    ensures
        r@.len() == kinds@.len(),
        forall|k: int|
            0 <= k < kinds@.len() ==> is_group_output(
                #[trigger] r@[k],
                ports,
                scenario@,
                config,
                kinds@[k],
                index as int,
            ),
{
    let mut out: Vec<SweepOutput> = Vec::new();
    let mut k: usize = 0;
    while k < kinds.len()
        invariant
            k <= kinds@.len(),
            out@.len() == k,
            forall|i: int|
                0 <= i < k ==> is_group_output(
                    #[trigger] out@[i],
                    ports,
                    scenario@,
                    config,
                    kinds@[i],
                    index as int,
                ),
        decreases kinds@.len() - k,
    {
        let kind: SweepOutputKind = kinds[k];
        let name: String = scenario.to_string().concat("-").concat(kind.label()).concat("-").concat(
            decimal_text(index as u64).as_str(),
        );
        let (url, encoding) = sweep_output_url(ports, config, kind, name.as_str());
        out.push(SweepOutput { kind, name, url, encoding });
        k += 1;
    }
    out
}

fn any_transcodes(kinds: &Vec<SweepOutputKind>) -> (r: bool)
    ensures
        r == transcodes(kinds@),
{
    let mut i: usize = 0;
    while i < kinds.len()
        invariant
            i <= kinds@.len(),
            forall|k: int| 0 <= k < i ==> (#[trigger] kinds@[k]).from_source(),
        decreases kinds@.len() - i,
    {
        if !kinds[i].is_source() {
            return true;
        }
        i += 1;
    }
    false
}

fn labels_of(kinds: &Vec<SweepOutputKind>) -> (r: String)
    ensures
        r@ == joined(kind_labels(kinds@), ","@),
{
    let mut names: Vec<String> = Vec::new();
    let mut i: usize = 0;
    while i < kinds.len()
        invariant
            i <= kinds@.len(),
            names@.len() == i,
            forall|k: int| 0 <= k < i ==> (#[trigger] names@[k])@ == kinds@[k].labelled(),
        decreases kinds@.len() - i,
    {
        names.push(kinds[i].label().to_string());
        i += 1;
    }
    assert(texts(names@) =~= kind_labels(kinds@));
    join(&names, ",")
}

/// How outputs are added to one stream, one group after another.
pub fn plan_egress_growth(
    ports: TargetPorts,
    scenario: &str,
    config: SweepConfig,
    kinds: &Vec<SweepOutputKind>,
    counts: &Vec<usize>,
) -> (r: Vec<EgressStep>)
    requires
        largest(counts@) * kinds@.len() <= usize::MAX,
    ensures
        r@.len() == largest(counts@),
        forall|i: int|
            0 <= i < r@.len() ==> is_egress_step(
                #[trigger] r@[i],
                ports,
                scenario@,
                config,
                kinds@,
                counts@,
                i + 1,
            ),
{
    let last: usize = largest_count(counts);
    let mut out: Vec<EgressStep> = Vec::new();
    let mut index: usize = 0;
    while index < last
        invariant
            index <= last,
            last * kinds@.len() <= usize::MAX,
            out@.len() == index,
            forall|i: int|
                0 <= i < index ==> is_egress_step(
                    #[trigger] out@[i],
                    ports,
                    scenario@,
                    config,
                    kinds@,
                    counts@,
                    i + 1,
                ),
        decreases last - index,
    {
        index += 1;
        let outputs: Vec<SweepOutput> = group_outputs(ports, scenario, config, kinds, index);
        let measured: Option<ScenarioMeta> = if contains_count(counts, index) {
            assert(index * kinds@.len() <= last * kinds@.len()) by (nonlinear_arith)
                requires
                    index <= last,
            ;
            let transcode: &'static str = if any_transcodes(kinds) {
                "yes"
            } else {
                "no"
            };
            Some(
                ScenarioMeta {
                    scenario: scenario.to_string(),
                    label: decimal_text(index as u64).concat("-per-group"),
                    pipelines: 1,
                    outputs: index * kinds.len(),
                    ingest_types: config.name().to_string(),
                    egress_mix: labels_of(kinds),
                    transcode,
                },
            )
        } else {
            None
        };
        out.push(EgressStep { outputs, measured });
    }
    out
}

// ── Which runs there are ─────────────────────────────────────────────────────

/// One run of a sweep.
#[derive(Debug, Clone)]
pub enum SweepRun {
    Baseline,
    IngestOnly { config: SweepConfig },
    IngestGrowth { mixed: bool },
    EgressGrowth { scenario: &'static str, config: SweepConfig, kinds: Vec<SweepOutputKind> },
}

pub enum RunModel {
    Baseline,
    IngestOnly { config: SweepConfig },
    IngestGrowth { mixed: bool },
    EgressGrowth { scenario: Seq<char>, config: SweepConfig, kinds: Seq<SweepOutputKind> },
}

impl View for SweepRun {
    type V = RunModel;

    open spec fn view(&self) -> RunModel {
        match self {
            SweepRun::Baseline => RunModel::Baseline,
            SweepRun::IngestOnly { config } => RunModel::IngestOnly { config: *config },
            SweepRun::IngestGrowth { mixed } => RunModel::IngestGrowth { mixed: *mixed },
            SweepRun::EgressGrowth { scenario, config, kinds } => RunModel::EgressGrowth {
                scenario: scenario@,
                config: *config,
                kinds: kinds@,
            },
        }
    }
}

impl RunModel {
    /// The name by which a run is asked for.
    pub open spec fn scenario(self) -> Seq<char> {
        match self {
            RunModel::Baseline => "baseline-empty"@,
            RunModel::IngestOnly { .. } => "ingest-only"@,
            RunModel::IngestGrowth { mixed } => if mixed {
                "ingest-growth-mixed"@
            } else {
                "ingest-growth-same"@
            },
            RunModel::EgressGrowth { scenario, .. } => scenario,
        }
    }
}

impl SweepRun {
    /// The name by which a run is asked for.
    pub fn scenario(&self) -> (r: &'static str)
        ensures
            r@ == self@.scenario(),
    {
        match self {
            SweepRun::Baseline => "baseline-empty",
            SweepRun::IngestOnly { config } => "ingest-only",
            SweepRun::IngestGrowth { mixed } => if *mixed {
                "ingest-growth-mixed"
            } else {
                "ingest-growth-same"
            },
            SweepRun::EgressGrowth { scenario, config, kinds } => scenario,
        }
    }
}

pub open spec fn runs_of(v: Seq<SweepRun>) -> Seq<RunModel> {
    v.map_values(|r: SweepRun| r@)
}

/// The runs that are allowed, in order.
pub open spec fn enabled_runs(runs: Seq<RunModel>, filter: Option<Seq<Seq<char>>>) -> Seq<RunModel>
    decreases runs.len(),
{
    if runs.len() == 0 {
        Seq::empty()
    } else {
        let front = enabled_runs(runs.drop_last(), filter);
        if enabled(filter, runs.last().scenario()) {
            front.push(runs.last())
        } else {
            front
        }
    }
}

/// Outputs to one stream with one audio track.
pub open spec fn egress_run(scenario: Seq<char>, kinds: Seq<SweepOutputKind>) -> RunModel {
    RunModel::EgressGrowth { scenario, config: SweepConfig::H264Srt, kinds }
}

/// The runs of a branch matrix: sources, one resolution, two resolutions, and sources with each.
pub open spec fn matrix_runs() -> Seq<RunModel> {
    Seq::empty().push(
        egress_run(
            "egress-growth-source-mixed"@,
            seq![SweepOutputKind::RtmpSource, SweepOutputKind::SrtSource],
        ),
    ).push(
        egress_run(
            "egress-growth-transcode-mixed"@,
            seq![SweepOutputKind::Rtmp720p, SweepOutputKind::Srt720p],
        ),
    ).push(
        egress_run(
            "egress-growth-source-plus-transcode-mixed"@,
            seq![
                SweepOutputKind::RtmpSource,
                SweepOutputKind::SrtSource,
                SweepOutputKind::Rtmp720p,
                SweepOutputKind::Srt720p,
            ],
        ),
    ).push(
        egress_run(
            "egress-growth-transcode-dual-mixed"@,
            seq![
                SweepOutputKind::Rtmp720p,
                SweepOutputKind::Srt720p,
                SweepOutputKind::Rtmp1080p,
                SweepOutputKind::Srt1080p,
            ],
        ),
    ).push(
        egress_run(
            "egress-growth-source-plus-transcode-dual-mixed"@,
            seq![
                SweepOutputKind::RtmpSource,
                SweepOutputKind::SrtSource,
                SweepOutputKind::Rtmp720p,
                SweepOutputKind::Srt720p,
                SweepOutputKind::Rtmp1080p,
                SweepOutputKind::Srt1080p,
            ],
        ),
    )
}

/// The runs of a sweep over the server's resources.
pub open spec fn resource_runs() -> Seq<RunModel> {
    Seq::empty().push(RunModel::Baseline).push(
        RunModel::IngestOnly { config: SweepConfig::H264Rtmp },
    ).push(RunModel::IngestOnly { config: SweepConfig::H264Srt }).push(
        RunModel::IngestOnly { config: SweepConfig::H265Srt },
    ).push(RunModel::IngestOnly { config: SweepConfig::H264SrtMulti }).push(
        RunModel::IngestOnly { config: SweepConfig::H265SrtMulti },
    ).push(RunModel::IngestGrowth { mixed: false }).push(
        RunModel::IngestGrowth { mixed: true },
    ).push(egress_run("egress-growth-source-same"@, seq![SweepOutputKind::RtmpSource])).push(
        matrix_runs()[0],
    ).push(egress_run("egress-growth-transcode-same"@, seq![SweepOutputKind::Rtmp720p])).push(
        matrix_runs()[1],
    ).push(matrix_runs()[2]).push(matrix_runs()[3]).push(matrix_runs()[4]).push(
        RunModel::EgressGrowth {
            scenario: "egress-growth-hevc-bridge"@,
            config: SweepConfig::H265Srt,
            kinds: seq![SweepOutputKind::RtmpSource],
        },
    )
}

fn egress_growth_run(scenario: &'static str, kinds: Vec<SweepOutputKind>) -> (r: SweepRun)
    ensures
        r@ == egress_run(scenario@, kinds@),
{
    SweepRun::EgressGrowth { scenario, config: SweepConfig::H264Srt, kinds }
}

/// A plan with one more run, where it is allowed.
#[verifier::opaque]
pub open spec fn with_enabled(plan: Seq<RunModel>, filter: Option<Seq<Seq<char>>>, run: RunModel) -> Seq<
    RunModel,
> {
    if enabled(filter, run.scenario()) {
        plan.push(run)
    } else {
        plan
    }
}

/// Adds a run where it is allowed.
fn add_run(plan: &mut Vec<SweepRun>, filter: &Option<Vec<String>>, run: SweepRun)
    ensures
        runs_of(final(plan)@) == with_enabled(runs_of(old(plan)@), names_option(*filter), run@),
{
    reveal(with_enabled);
    if scenario_enabled(filter, run.scenario()) {
        let ghost before = plan@;
        plan.push(run);
        assert(runs_of(plan@) =~= runs_of(before).push(run@));
    }
}

/// One more run, allowed or not.
pub broadcast proof fn enabled_runs_push(
    runs: Seq<RunModel>,
    run: RunModel,
    filter: Option<Seq<Seq<char>>>,
)
    ensures
        #[trigger] enabled_runs(runs.push(run), filter) == with_enabled(
            enabled_runs(runs, filter),
            filter,
            run,
        ),
{
    reveal(with_enabled);
    assert(runs.push(run).drop_last() =~= runs);
}

fn source_mixed() -> (r: SweepRun)
    ensures
        r@ == matrix_runs()[0],
{
    let kinds: Vec<SweepOutputKind> = vec![SweepOutputKind::RtmpSource, SweepOutputKind::SrtSource];
    assert(kinds@ =~= seq![SweepOutputKind::RtmpSource, SweepOutputKind::SrtSource]);
    egress_growth_run("egress-growth-source-mixed", kinds)
}

fn transcode_mixed() -> (r: SweepRun)
    ensures
        r@ == matrix_runs()[1],
{
    let kinds: Vec<SweepOutputKind> = vec![SweepOutputKind::Rtmp720p, SweepOutputKind::Srt720p];
    assert(kinds@ =~= seq![SweepOutputKind::Rtmp720p, SweepOutputKind::Srt720p]);
    egress_growth_run("egress-growth-transcode-mixed", kinds)
}

fn source_plus_transcode_mixed() -> (r: SweepRun)
    ensures
        r@ == matrix_runs()[2],
{
    let kinds: Vec<SweepOutputKind> = vec![
        SweepOutputKind::RtmpSource,
        SweepOutputKind::SrtSource,
        SweepOutputKind::Rtmp720p,
        SweepOutputKind::Srt720p,
    ];
    assert(kinds@ =~= seq![
        SweepOutputKind::RtmpSource,
        SweepOutputKind::SrtSource,
        SweepOutputKind::Rtmp720p,
        SweepOutputKind::Srt720p,
    ]);
    egress_growth_run("egress-growth-source-plus-transcode-mixed", kinds)
}

fn transcode_dual_mixed() -> (r: SweepRun)
    ensures
        r@ == matrix_runs()[3],
{
    let kinds: Vec<SweepOutputKind> = vec![
        SweepOutputKind::Rtmp720p,
        SweepOutputKind::Srt720p,
        SweepOutputKind::Rtmp1080p,
        SweepOutputKind::Srt1080p,
    ];
    assert(kinds@ =~= seq![
        SweepOutputKind::Rtmp720p,
        SweepOutputKind::Srt720p,
        SweepOutputKind::Rtmp1080p,
        SweepOutputKind::Srt1080p,
    ]);
    egress_growth_run("egress-growth-transcode-dual-mixed", kinds)
}

fn source_plus_transcode_dual_mixed() -> (r: SweepRun)
    ensures
        r@ == matrix_runs()[4],
{
    let kinds: Vec<SweepOutputKind> = vec![
        SweepOutputKind::RtmpSource,
        SweepOutputKind::SrtSource,
        SweepOutputKind::Rtmp720p,
        SweepOutputKind::Srt720p,
        SweepOutputKind::Rtmp1080p,
        SweepOutputKind::Srt1080p,
    ];
    assert(kinds@ =~= seq![
        SweepOutputKind::RtmpSource,
        SweepOutputKind::SrtSource,
        SweepOutputKind::Rtmp720p,
        SweepOutputKind::Srt720p,
        SweepOutputKind::Rtmp1080p,
        SweepOutputKind::Srt1080p,
    ]);
    egress_growth_run("egress-growth-source-plus-transcode-dual-mixed", kinds)
}

/// The runs of a branch matrix that are allowed.
pub fn plan_branch_matrix(filter: &Option<Vec<String>>) -> (r: Vec<SweepRun>)
    ensures
        runs_of(r@) == enabled_runs(matrix_runs(), names_option(*filter)),
{
    broadcast use enabled_runs_push;

    let mut plan: Vec<SweepRun> = Vec::new();
    assert(runs_of(plan@) =~= Seq::<RunModel>::empty());
    assert(enabled_runs(Seq::<RunModel>::empty(), names_option(*filter)) =~= Seq::<
        RunModel,
    >::empty());
    add_run(&mut plan, filter, source_mixed());
    add_run(&mut plan, filter, transcode_mixed());
    add_run(&mut plan, filter, source_plus_transcode_mixed());
    add_run(&mut plan, filter, transcode_dual_mixed());
    add_run(&mut plan, filter, source_plus_transcode_dual_mixed());
    plan
}

/// The runs of a sweep over the server's resources that are allowed.
pub fn plan_resource_sweep(filter: &Option<Vec<String>>) -> (r: Vec<SweepRun>)
    ensures
        runs_of(r@) == enabled_runs(resource_runs(), names_option(*filter)),
{
    broadcast use enabled_runs_push;

    let mut plan: Vec<SweepRun> = Vec::new();
    assert(runs_of(plan@) =~= Seq::<RunModel>::empty());
    assert(enabled_runs(Seq::<RunModel>::empty(), names_option(*filter)) =~= Seq::<
        RunModel,
    >::empty());
    add_run(&mut plan, filter, SweepRun::Baseline);
    add_run(&mut plan, filter, SweepRun::IngestOnly { config: SweepConfig::H264Rtmp });
    add_run(&mut plan, filter, SweepRun::IngestOnly { config: SweepConfig::H264Srt });
    add_run(&mut plan, filter, SweepRun::IngestOnly { config: SweepConfig::H265Srt });
    add_run(&mut plan, filter, SweepRun::IngestOnly { config: SweepConfig::H264SrtMulti });
    add_run(&mut plan, filter, SweepRun::IngestOnly { config: SweepConfig::H265SrtMulti });
    add_run(&mut plan, filter, SweepRun::IngestGrowth { mixed: false });
    add_run(&mut plan, filter, SweepRun::IngestGrowth { mixed: true });
    let rtmp_source: Vec<SweepOutputKind> = vec![SweepOutputKind::RtmpSource];
    assert(rtmp_source@ =~= seq![SweepOutputKind::RtmpSource]);
    add_run(&mut plan, filter, egress_growth_run("egress-growth-source-same", rtmp_source));
    add_run(&mut plan, filter, source_mixed());
    let rtmp_720p: Vec<SweepOutputKind> = vec![SweepOutputKind::Rtmp720p];
    assert(rtmp_720p@ =~= seq![SweepOutputKind::Rtmp720p]);
    add_run(&mut plan, filter, egress_growth_run("egress-growth-transcode-same", rtmp_720p));
    add_run(&mut plan, filter, transcode_mixed());
    add_run(&mut plan, filter, source_plus_transcode_mixed());
    add_run(&mut plan, filter, transcode_dual_mixed());
    add_run(&mut plan, filter, source_plus_transcode_dual_mixed());
    let bridge: Vec<SweepOutputKind> = vec![SweepOutputKind::RtmpSource];
    assert(bridge@ =~= seq![SweepOutputKind::RtmpSource]);
    add_run(
        &mut plan,
        filter,
        SweepRun::EgressGrowth {
            scenario: "egress-growth-hevc-bridge",
            config: SweepConfig::H265Srt,
            kinds: bridge,
        },
    );
    plan
}

// ── One case of a bitrate sweep ──────────────────────────────────────────────

/// A bitrate as it stands in names.
pub open spec fn bitrate_suffix(label: Seq<char>) -> Seq<char> {
    replaced(ascii_lower(label), '.', '_')
}

fn suffix_of(label: &str) -> (r: String)
    ensures
        r@ == bitrate_suffix(label@),
{
    replace_char(to_ascii_lower(label).as_str(), '.', '_')
}

/// The stream key of a case.
pub fn bitrate_stream_key(config: SweepConfig, label: &str) -> (r: String)
    ensures
        r@ == "bitrate-"@ + config.named() + "-"@ + bitrate_suffix(label@),
{
    "bitrate-".to_string().concat(config.name()).concat("-").concat(suffix_of(label).as_str())
}

/// The name of an output of a case, with how its kind is told there.
pub open spec fn case_name(config: SweepConfig, label: Seq<char>, told: Seq<char>, index: int) -> Seq<
    char,
> {
    config.named() + "-"@ + bitrate_suffix(label) + "-"@ + told + "-"@ + decimal(index as nat)
}

fn case_name_text(config: SweepConfig, label: &str, told: &str, index: usize) -> (r: String)
    ensures
        r@ == case_name(config, label@, told@, index as int),
{
    config.name().to_string().concat("-").concat(suffix_of(label).as_str()).concat("-").concat(
        told,
    ).concat("-").concat(decimal_text(index as u64).as_str())
}

/// The names of the outputs in one group of a case.
#[derive(Debug, Clone)]
pub struct BitrateOutputNames {
    pub rtmp_source: String,
    pub rtmp_720p: String,
    pub srt_source: String,
    pub srt_720p: String,
}

pub fn bitrate_case_output_names(config: SweepConfig, label: &str, index: usize) -> (r:
    BitrateOutputNames)
    ensures
        r.rtmp_source@ == case_name(config, label@, "rtmp-src"@, index as int),
        r.rtmp_720p@ == case_name(config, label@, "rtmp-720p"@, index as int),
        r.srt_source@ == case_name(config, label@, "srt-src"@, index as int),
        r.srt_720p@ == case_name(config, label@, "srt-720p"@, index as int),
{
    BitrateOutputNames {
        rtmp_source: case_name_text(config, label, "rtmp-src", index),
        rtmp_720p: case_name_text(config, label, "rtmp-720p", index),
        srt_source: case_name_text(config, label, "srt-src", index),
        srt_720p: case_name_text(config, label, "srt-720p", index),
    }
}

/// An output of a case, where it is read back, and what is expected there.
#[derive(Debug, Clone)]
pub struct CaseOutput {
    pub output: SweepOutput,
    pub probe_url: String,
    pub expected: &'static str,
}

/// The kinds of the outputs in one group of a case, in order.
pub open spec fn case_kinds() -> Seq<SweepOutputKind> {
    seq![
        SweepOutputKind::RtmpSource,
        SweepOutputKind::Rtmp720p,
        SweepOutputKind::SrtSource,
        SweepOutputKind::Srt720p,
    ]
}

/// How the kind of an output is told in its name.
pub open spec fn told_as(kind: SweepOutputKind) -> Seq<char> {
    match kind {
        SweepOutputKind::RtmpSource => "rtmp-src"@,
        SweepOutputKind::Rtmp720p => "rtmp-720p"@,
        SweepOutputKind::SrtSource => "srt-src"@,
        _ => "srt-720p"@,
    }
}

/// Whether this is the output of a kind in the `index`-th group of a case.
pub open spec fn is_case_output(
    c: CaseOutput,
    ports: TargetPorts,
    config: SweepConfig,
    label: Seq<char>,
    kind: SweepOutputKind,
    index: int,
) -> bool {
    let name = case_name(config, label, told_as(kind), index);
    &&& c.output.kind == kind
    &&& c.output.name@ == name
    &&& c.output.url@ == output_address(ports, kind, name)
    &&& c.output.encoding@ == kind.encoded(config.is_multi())
    &&& c.probe_url@ == if kind.over_rtmp() {
        rtmp_address(ports.rtmp, name)
    } else {
        srt_play_address(ports.srt, name)
    }
    &&& c.expected@ == kind.expects()
}

fn case_output(ports: TargetPorts, config: SweepConfig, kind: SweepOutputKind, name: String) -> (r:
    CaseOutput)
    ensures
        r.output.kind == kind,
        r.output.name == name,
        r.output.url@ == output_address(ports, kind, name@),
        r.output.encoding@ == kind.encoded(config.is_multi()),
        r.probe_url@ == if kind.over_rtmp() {
            rtmp_address(ports.rtmp, name@)
        } else {
            srt_play_address(ports.srt, name@)
        },
        r.expected@ == kind.expects(),
{
    let (url, encoding) = sweep_output_url(ports, config, kind, name.as_str());
    let probe_url: String = bitrate_probe_url(ports, kind, name.as_str());
    CaseOutput {
        output: SweepOutput { kind, name, url, encoding },
        probe_url,
        expected: kind.expected(),
    }
}

/// The outputs of a case: in every group one of each kind.
pub fn plan_bitrate_case(ports: TargetPorts, config: SweepConfig, label: &str, groups: usize) -> (r:
    Vec<CaseOutput>)
    requires
        groups * 4 <= usize::MAX,
    ensures
        r@.len() == groups * 4,
        forall|i: int|
            0 <= i < r@.len() ==> is_case_output(
                #[trigger] r@[i],
                ports,
                config,
                label@,
                case_kinds()[i % 4],
                i / 4 + 1,
            ),
{
    let mut out: Vec<CaseOutput> = Vec::new();
    let mut index: usize = 0;
    while index < groups
        invariant
            index <= groups,
            groups * 4 <= usize::MAX,
            out@.len() == index * 4,
            forall|i: int|
                0 <= i < out@.len() ==> is_case_output(
                    #[trigger] out@[i],
                    ports,
                    config,
                    label@,
                    case_kinds()[i % 4],
                    i / 4 + 1,
                ),
        decreases groups - index,
    {
        index += 1;
        let names: BitrateOutputNames = bitrate_case_output_names(config, label, index);
        let ghost before = out@;
        out.push(case_output(ports, config, SweepOutputKind::RtmpSource, names.rtmp_source));
        out.push(case_output(ports, config, SweepOutputKind::Rtmp720p, names.rtmp_720p));
        out.push(case_output(ports, config, SweepOutputKind::SrtSource, names.srt_source));
        out.push(case_output(ports, config, SweepOutputKind::Srt720p, names.srt_720p));
        assert forall|i: int| 0 <= i < out@.len() implies is_case_output(
            #[trigger] out@[i],
            ports,
            config,
            label@,
            case_kinds()[i % 4],
            i / 4 + 1,
        ) by {
            if i < before.len() {
                assert(out@[i] == before[i]);
            }
        }
    }
    out
}

/// What was seen so far at the end of an output.
#[derive(Debug, Clone)]
pub struct StreamWatch {
    pub last_observed: Option<String>,
    pub last_error: Option<String>,
}

impl StreamWatch {
    pub fn new() -> (r: Self)
        ensures
            r.last_observed is None && r.last_error is None,
    {
        StreamWatch { last_observed: None, last_error: None }
    }

    /// Takes in what a probe gave: whether it is what is expected. What else was seen, or what went
    /// wrong, is kept until something newer comes.
    pub fn observe(&mut self, probed: &Result<String, String>, expected: &str) -> (r: bool)
        ensures
            r == (*probed matches Ok(dims) && dims@ == expected@),
            match *probed {
                Ok(dims) => final(self).last_error == old(self).last_error && if dims@ != expected@
                    && dims@.len() > 0 {
                    final(self).last_observed == Some(dims)
                } else {
                    final(self).last_observed == old(self).last_observed
                },
                Err(error) => final(self).last_observed == old(self).last_observed
                    && final(self).last_error == Some(error),
            },
    {
        match probed {
            Ok(dims) => {
                if same_text(dims.as_str(), expected) {
                    return true;
                }
                if !dims.as_str().is_empty() {
                    self.last_observed = Some(dims.clone());
                }
                false
            },
            Err(error) => {
                self.last_error = Some(error.clone());
                false
            },
        }
    }

    /// What is told of an output that never showed what is expected: what was seen last, else what
    /// went wrong last, else that there was nothing.
    pub fn observed(&self) -> (r: String)
        ensures
            r@ == match (text_option(self.last_observed), text_option(self.last_error)) {
                (Some(seen), _) => seen,
                (None, Some(error)) => error,
                (None, None) => "none"@,
            },
    {
        match &self.last_observed {
            Some(seen) => seen.clone(),
            None => match &self.last_error {
                Some(error) => error.clone(),
                None => "none".to_string(),
            },
        }
    }
}

/// What is told of an output that is not as expected.
pub fn case_failure(name: &str, expected: &str, observed: &str) -> (r: String)
    ensures
        r@ == name@ + ": expected "@ + expected@ + ", observed "@ + observed@,
{
    name.to_string().concat(": expected ").concat(expected).concat(", observed ").concat(observed)
}

// ── The branch matrix ────────────────────────────────────────────────────────

/// Which transcoder the server is told to use.
pub fn backend_name(internal: &Option<String>) -> (r: &'static str)
    ensures
        r@ == match text_option(*internal) {
            Some(v) => if v == "1"@ || ascii_lower(v) == "true"@ {
                "internal"@
            } else {
                "external"@
            },
            None => "external"@,
        },
{
    match internal {
        Some(v) => if same_text(v.as_str(), "1") || same_text(
            to_ascii_lower(v.as_str()).as_str(),
            "true",
        ) {
            "internal"
        } else {
            "external"
        },
        None => "external",
    }
}

/// What a run of the branch matrix is called in a report.
pub fn branch_shape_label(scenario: &str) -> (r: &'static str)
    ensures
        r@ == shape_of(scenario@).1,
{
    if same_text(scenario, "egress-growth-source-mixed") {
        "source only"
    } else if same_text(scenario, "egress-growth-transcode-mixed") {
        "one transcode family (720p)"
    } else if same_text(scenario, "egress-growth-source-plus-transcode-mixed") {
        "source + one transcode family"
    } else if same_text(scenario, "egress-growth-transcode-dual-mixed") {
        "two transcode families (720p + 1080p)"
    } else if same_text(scenario, "egress-growth-source-plus-transcode-dual-mixed") {
        "source + two transcode families"
    } else {
        "custom"
    }
}

/// Where a run stands in a report, and what it is called there.
pub open spec fn shape_of(scenario: Seq<char>) -> (int, Seq<char>) {
    if scenario == "egress-growth-source-mixed"@ {
        (0, "source only"@)
    } else if scenario == "egress-growth-transcode-mixed"@ {
        (1, "one transcode family (720p)"@)
    } else if scenario == "egress-growth-source-plus-transcode-mixed"@ {
        (2, "source + one transcode family"@)
    } else if scenario == "egress-growth-transcode-dual-mixed"@ {
        (3, "two transcode families (720p + 1080p)"@)
    } else if scenario == "egress-growth-source-plus-transcode-dual-mixed"@ {
        (4, "source + two transcode families"@)
    } else {
        (99, "custom"@)
    }
}

/// Where a run stands in a report.
pub fn branch_shape_rank(scenario: &str) -> (r: u8)
    ensures
        r == shape_of(scenario@).0,
{
    if same_text(scenario, "egress-growth-source-mixed") {
        0
    } else if same_text(scenario, "egress-growth-transcode-mixed") {
        1
    } else if same_text(scenario, "egress-growth-source-plus-transcode-mixed") {
        2
    } else if same_text(scenario, "egress-growth-transcode-dual-mixed") {
        3
    } else if same_text(scenario, "egress-growth-source-plus-transcode-dual-mixed") {
        4
    } else {
        99
    }
}

// ── Laws ─────────────────────────────────────────────────────────────────────

/// Without a filter every run is made, in the order of the table.
pub proof fn no_filter_keeps_all_runs(runs: Seq<RunModel>)
    ensures
        enabled_runs(runs, None) == runs,
    decreases runs.len(),
{
    if runs.len() > 0 {
        no_filter_keeps_all_runs(runs.drop_last());
        assert(runs.drop_last().push(runs.last()) =~= runs);
    }
}

/// With a filter only runs that it names are made, and each of those is.
pub proof fn filter_keeps_named_runs(runs: Seq<RunModel>, names: Seq<Seq<char>>, run: RunModel)
    ensures
        enabled_runs(runs, Some(names)).contains(run) <==> runs.contains(run) && names.contains(
            run.scenario(),
        ),
    decreases runs.len(),
{
    if runs.len() > 0 {
        let front = enabled_runs(runs.drop_last(), Some(names));
        filter_keeps_named_runs(runs.drop_last(), names, run);
        let all = enabled_runs(runs, Some(names));
        assert(runs.last() == runs[runs.len() - 1]);
        if runs.contains(run) && run != runs.last() {
            let k = choose|k: int| 0 <= k < runs.len() && runs[k] == run;
            assert(runs.drop_last()[k] == run);
        }
        if runs.drop_last().contains(run) {
            let k = choose|k: int| 0 <= k < runs.drop_last().len() && runs.drop_last()[k] == run;
            assert(runs[k] == run);
        }
        if enabled(Some(names), runs.last().scenario()) {
            assert(all[front.len() as int] == runs.last());
            if front.contains(run) {
                let k = choose|k: int| 0 <= k < front.len() && front[k] == run;
                assert(all[k] == run);
            }
            if all.contains(run) && run != runs.last() {
                let k = choose|k: int| 0 <= k < all.len() && all[k] == run;
                assert(front[k] == run);
            }
        }
    }
}

/// The names of the streams lead back to the streams.
pub proof fn config_names_read_back(config: SweepConfig)
    ensures
        config_named(config.named()) == Some(config),
{
    reveal_strlit("h264-rtmp");
    reveal_strlit("h264-srt");
    reveal_strlit("h265-srt");
    reveal_strlit("h264-srt-multi");
    reveal_strlit("h265-srt-multi");
    assert("h264-rtmp"@.len() == 9 && "h264-srt"@.len() == 8 && "h265-srt"@.len() == 8);
    assert("h264-srt-multi"@.len() == 14 && "h265-srt-multi"@.len() == 14);
    assert("h264-srt"@[3] != "h265-srt"@[3]);
    assert("h264-srt-multi"@[3] != "h265-srt-multi"@[3]);
}

/// An output of the source is encoded as the source is, whatever audio it has.
pub proof fn source_outputs_keep_the_encoding(kind: SweepOutputKind, multi_audio: bool)
    ensures
        kind.from_source() <==> kind.encoded(multi_audio) == "source"@,
{
    reveal_strlit("source");
    reveal_strlit("720p");
    reveal_strlit("720p+atrack:0");
    reveal_strlit("720p+atrack:0,1");
    reveal_strlit("1080p");
    reveal_strlit("1080p+atrack:0");
    reveal_strlit("1080p+atrack:0,1");
    assert("source"@[0] == 's');
    assert("720p"@[0] == '7' && "720p+atrack:0"@[0] == '7' && "720p+atrack:0,1"@[0] == '7');
    assert("1080p"@[0] == '1' && "1080p+atrack:0"@[0] == '1' && "1080p+atrack:0,1"@[0] == '1');
}

/// The lifecycles are known by their words, in either case; without one it is the isolated.
pub proof fn lifecycles_are_known_by_their_words(word: Seq<char>, l: ResourceSweepLifecycle)
    ensures
        lifecycle_named(word) matches Some(found) ==> word == found.worded(),
        lifecycle_named(l.worded()) is Some,
        lifecycle_word(Some(word)) == ascii_lower(word),
        lifecycle_word(None) == ascii_lower("isolated"@),
        ResourceSweepLifecycle::Isolated.worded() == "isolated"@,
        ResourceSweepLifecycle::Continuous.worded() == "continuous"@,
        ResourceSweepLifecycle::Cumulative.worded() == "cumulative"@,
{
}

/// The counts of a list are its numbers but zero, in order; what is no number is passed over.
pub proof fn counts_are_the_numbers_of_a_list(pieces: Seq<Seq<char>>, n: usize, other: Seq<char>)
    ensures
        n > 0 ==> counts_of(pieces.push(decimal(n as nat))) == counts_of(pieces).push(n as int),
        n == 0 ==> counts_of(pieces.push(decimal(n as nat))) == counts_of(pieces),
        parsed(trimmed(other), usize::MAX as int) is None ==> counts_of(pieces.push(other))
            == counts_of(pieces),
{
    let d = decimal(n as nat);
    assert(pieces.push(d).drop_last() =~= pieces);
    assert(pieces.push(other).drop_last() =~= pieces);
    crate::number::parse_undoes_decimal(n as nat, usize::MAX as int);
    crate::number::decimal_reads_back(n as nat);
    assert(crate::number::is_digit(d[0]) && crate::number::is_digit(d[d.len() - 1]));
    assert(Seq::<char>::empty() + d + Seq::<char>::empty() =~= d);
    crate::text::trimming_removes_what_is_around(Seq::empty(), d, Seq::empty());
}

/// The largest count is one of the counts, and no other is larger; without any it is one.
pub proof fn largest_count_is_the_largest(counts: Seq<usize>)
    ensures
        counts.len() == 0 ==> largest(counts) == 1,
        counts.len() > 0 ==> counts.contains(largest(counts)),
        forall|i: int| 0 <= i < counts.len() ==> #[trigger] counts[i] <= largest(counts),
    decreases counts.len(),
{
    if counts.len() == 1 {
        assert(counts[0] == largest(counts));
    } else if counts.len() > 1 {
        let front = counts.drop_last();
        largest_count_is_the_largest(front);
        let k = front.index_of(largest(front));
        assert(counts[k] == largest(front));
        assert(counts[counts.len() - 1] == counts.last());
        assert forall|i: int| 0 <= i < counts.len() implies #[trigger] counts[i] <= largest(
            counts,
        ) by {
            if i < front.len() {
                assert(front[i] == counts[i]);
            }
        }
    }
}

/// A filter names what is run; an empty one names nothing, and then all is run.
pub proof fn filters_name_what_is_run(text: Seq<char>, scenario: Seq<char>)
    ensures
        enabled(None, scenario),
        listed_items(text).len() == 0 ==> enabled(allowed_names(Some(text)), scenario),
        listed_items(text).len() > 0 ==> (enabled(allowed_names(Some(text)), scenario)
            <==> listed_items(text).contains(scenario)),
        allowed_names(None) is None,
{
}

/// The five streams: their names, their transport, and whether they have several audio tracks.
pub proof fn streams_are_told_by_their_names(c: SweepConfig)
    ensures
        sweep_configs().len() == 5 && sweep_configs().contains(c),
        SweepConfig::H264Rtmp.named() == "h264-rtmp"@ && SweepConfig::H264Srt.named() == "h264-srt"@
            && SweepConfig::H265Srt.named() == "h265-srt"@ && SweepConfig::H264SrtMulti.named()
            == "h264-srt-multi"@ && SweepConfig::H265SrtMulti.named() == "h265-srt-multi"@,
        c.over_rtmp() <==> c == SweepConfig::H264Rtmp,
        c.is_multi() <==> c == SweepConfig::H264SrtMulti || c == SweepConfig::H265SrtMulti,
{
    let all = sweep_configs();
    assert(all[0] == SweepConfig::H264Rtmp && all[1] == SweepConfig::H264Srt && all[2]
        == SweepConfig::H265Srt && all[3] == SweepConfig::H264SrtMulti && all[4]
        == SweepConfig::H265SrtMulti);
}

/// Names of streams are read one by one; the first that is none is told.
pub proof fn streams_are_read_by_their_names(names: Seq<Seq<char>>, c: SweepConfig, other: Seq<char>)
    ensures
        configs_of(names) matches Ok(front) ==> configs_of(names.push(c.named())) == Ok::<_, Seq<char>>(
            front.push(c),
        ),
        configs_of(names) is Ok && config_named(other) is None ==> configs_of(names.push(other))
            == Err::<Seq<SweepConfig>, _>(other),
        configs_of(names) is Err ==> configs_of(names.push(other)) == configs_of(names),
{
    config_names_read_back(c);
    assert(names.push(c.named()).drop_last() =~= names);
    assert(names.push(other).drop_last() =~= names);
}

/// A bitrate is told in megabits by an `M` behind it, in kilobits by a `K`, and bare by neither.
pub proof fn bitrates_are_told_by_their_unit(number: Seq<char>)
    ensures
        unit_of(number.push('M')) == (number, BitrateUnit::Mbps),
        unit_of(number.push('K')) == (number, BitrateUnit::Kbps),
        number.len() > 0 && number.last() != 'M' && number.last() != 'K' ==> unit_of(number) == (
            number,
            BitrateUnit::Bare,
        ),
{
    assert(number.push('M').drop_last() =~= number);
    assert(number.push('K').drop_last() =~= number);
}

/// What an output of a sweep is: its label, its protocol, and the size in which it is expected.
pub proof fn outputs_are_told_by_their_kind(kind: SweepOutputKind)
    ensures
        SweepOutputKind::RtmpSource.labelled() == "rtmp-source"@
            && SweepOutputKind::SrtSource.labelled() == "srt-source"@
            && SweepOutputKind::Rtmp720p.labelled() == "rtmp-720p"@
            && SweepOutputKind::Srt720p.labelled() == "srt-720p"@
            && SweepOutputKind::Rtmp1080p.labelled() == "rtmp-1080p"@
            && SweepOutputKind::Srt1080p.labelled() == "srt-1080p"@,
        kind.over_rtmp() <==> kind is RtmpSource || kind is Rtmp720p || kind is Rtmp1080p,
        kind.from_source() <==> kind is RtmpSource || kind is SrtSource,
        kind is Rtmp720p || kind is Srt720p ==> kind.expects() == "1280x720"@,
        !(kind is Rtmp720p || kind is Srt720p) ==> kind.expects() == "1920x1080"@,
{
}

/// The encoding of an output is its preset; of a stream with several audio tracks RTMP gets the first
/// and SRT the first two.
pub proof fn encodings_select_the_tracks_of_the_protocol(kind: SweepOutputKind)
    ensures
        !kind.from_source() && (kind is Rtmp720p || kind is Srt720p) ==> kind.encoded(false)
            == "720p"@,
        !kind.from_source() && (kind is Rtmp1080p || kind is Srt1080p) ==> kind.encoded(false)
            == "1080p"@,
        !kind.from_source() && kind.over_rtmp() ==> kind.encoded(true) == kind.encoded(false)
            + "+atrack:0"@,
        !kind.from_source() && !kind.over_rtmp() ==> kind.encoded(true) == kind.encoded(false)
            + "+atrack:0,1"@,
        kind.from_source() ==> kind.encoded(true) == "source"@ && kind.encoded(false) == "source"@,
{
    reveal_strlit("720p");
    reveal_strlit("1080p");
    reveal_strlit("+atrack:0");
    reveal_strlit("+atrack:0,1");
    reveal_strlit("720p+atrack:0");
    reveal_strlit("720p+atrack:0,1");
    reveal_strlit("1080p+atrack:0");
    reveal_strlit("1080p+atrack:0,1");
    assert("720p"@ + "+atrack:0"@ =~= "720p+atrack:0"@);
    assert("720p"@ + "+atrack:0,1"@ =~= "720p+atrack:0,1"@);
    assert("1080p"@ + "+atrack:0"@ =~= "1080p+atrack:0"@);
    assert("1080p"@ + "+atrack:0,1"@ =~= "1080p+atrack:0,1"@);
}

/// An output is sent to the port of its protocol, under its own name.
pub proof fn outputs_are_sent_by_their_protocol(
    ports: TargetPorts,
    kind: SweepOutputKind,
    name: Seq<char>,
)
    ensures
        kind is RtmpSource || kind is Rtmp720p || kind is Rtmp1080p ==> output_address(
            ports,
            kind,
            name,
        ) == rtmp_address(ports.rtmp, name),
        kind is SrtSource || kind is Srt720p || kind is Srt1080p ==> output_address(
            ports,
            kind,
            name,
        ) == srt_target_address(ports.srt, name),
{
}

/// The shapes of the matrix add to each other: the source, one family of transcodes, a second one,
/// and the source to either; each goes out over both protocols.
pub proof fn matrix_adds_source_and_families()
    ensures
        ({
            let runs = matrix_runs();
            let source = seq![SweepOutputKind::RtmpSource, SweepOutputKind::SrtSource];
            let one = seq![SweepOutputKind::Rtmp720p, SweepOutputKind::Srt720p];
            let other = seq![SweepOutputKind::Rtmp1080p, SweepOutputKind::Srt1080p];
            &&& runs.len() == 5
            &&& runs[0]->kinds == source && runs[1]->kinds == one && runs[2]->kinds == source + one
            &&& runs[3]->kinds == one + other && runs[4]->kinds == source + one + other
            &&& forall|i: int|
                0 <= i < 5 ==> (#[trigger] runs[i]) is EgressGrowth && runs[i]->EgressGrowth_config
                    == SweepConfig::H264Srt && shape_of(runs[i].scenario()).0 == i
        }),
{
    let runs = matrix_runs();
    let source = seq![SweepOutputKind::RtmpSource, SweepOutputKind::SrtSource];
    let one = seq![SweepOutputKind::Rtmp720p, SweepOutputKind::Srt720p];
    let other = seq![SweepOutputKind::Rtmp1080p, SweepOutputKind::Srt1080p];
    assert(runs[0]->kinds =~= source && runs[1]->kinds =~= one && runs[2]->kinds =~= source + one);
    assert(runs[3]->kinds =~= one + other && runs[4]->kinds =~= source + one + other);
    lemma_shapes();
    assert forall|i: int| 0 <= i < 5 implies (#[trigger] runs[i]) is EgressGrowth
        && runs[i]->EgressGrowth_config == SweepConfig::H264Srt && shape_of(runs[i].scenario()).0
        == i by {
        if i == 0 {
        } else if i == 1 {
        } else if i == 2 {
        } else if i == 3 {
        } else {
        }
    }
}

proof fn lemma_shapes()
    ensures
        shape_of("egress-growth-source-mixed"@) == (0int, "source only"@),
        shape_of("egress-growth-transcode-mixed"@) == (1int, "one transcode family (720p)"@),
        shape_of("egress-growth-source-plus-transcode-mixed"@) == (
            2int,
            "source + one transcode family"@,
        ),
        shape_of("egress-growth-transcode-dual-mixed"@) == (
            3int,
            "two transcode families (720p + 1080p)"@,
        ),
        shape_of("egress-growth-source-plus-transcode-dual-mixed"@) == (
            4int,
            "source + two transcode families"@,
        ),
{
    reveal_strlit("egress-growth-source-mixed");
    reveal_strlit("egress-growth-transcode-mixed");
    reveal_strlit("egress-growth-source-plus-transcode-mixed");
    reveal_strlit("egress-growth-transcode-dual-mixed");
    reveal_strlit("egress-growth-source-plus-transcode-dual-mixed");
    assert("egress-growth-source-mixed"@.len() == 26 && "egress-growth-transcode-mixed"@.len() == 29
        && "egress-growth-source-plus-transcode-mixed"@.len() == 41
        && "egress-growth-transcode-dual-mixed"@.len() == 34
        && "egress-growth-source-plus-transcode-dual-mixed"@.len() == 46);
}

/// A resource sweep runs an empty server, each stream alone, streams and outputs that grow in number,
/// the shapes of the matrix, and the bridge from H.265 to RTMP.
pub proof fn resource_sweep_runs_in_order()
    ensures
        ({
            let runs = resource_runs();
            &&& runs.len() == 16
            &&& runs[0] == RunModel::Baseline
            &&& forall|i: int|
                0 <= i < 5 ==> #[trigger] runs[i + 1] == (RunModel::IngestOnly {
                    config: sweep_configs()[i],
                })
            &&& runs[6] == RunModel::IngestGrowth { mixed: false } && runs[7]
                == RunModel::IngestGrowth { mixed: true }
            &&& runs[9] == matrix_runs()[0] && runs[11] == matrix_runs()[1] && runs[12]
                == matrix_runs()[2] && runs[13] == matrix_runs()[3] && runs[14] == matrix_runs()[4]
            &&& runs[15] == RunModel::EgressGrowth {
                scenario: "egress-growth-hevc-bridge"@,
                config: SweepConfig::H265Srt,
                kinds: seq![SweepOutputKind::RtmpSource],
            }
        }),
{
    let runs = resource_runs();
    assert forall|i: int| 0 <= i < 5 implies #[trigger] runs[i + 1] == (RunModel::IngestOnly {
        config: sweep_configs()[i],
    }) by {
        if i == 0 {
        } else if i == 1 {
        } else if i == 2 {
        } else if i == 3 {
        } else {
        }
    }
}

/// The steps of growth are told by how many there are: so many pipelines, or so many outputs of each
/// kind.
pub proof fn growth_is_told_by_its_number(
    mixed: bool,
    index: int,
    scenario: Seq<char>,
    config: SweepConfig,
    kinds: Seq<SweepOutputKind>,
)
    ensures
        ({
            let m = ingest_growth_meta(mixed, index);
            &&& m.pipelines == index && m.outputs == 0 && m.label == decimal(index as nat)
                + "-pipelines"@ && m.egress_mix == "none"@ && m.transcode == "none"@
        }),
        ({
            let m = egress_growth_meta(scenario, config, kinds, index);
            &&& m.scenario == scenario && m.pipelines == 1 && m.outputs == index * kinds.len()
                && m.label == decimal(index as nat) + "-per-group"@ && m.ingest_types
                == config.named()
            &&& m.transcode == "yes"@ <==> exists|i: int|
                0 <= i < kinds.len() && !((#[trigger] kinds[i]) is RtmpSource)
                    && !(kinds[i] is SrtSource)
        }),
{
    reveal_strlit("yes");
    reveal_strlit("no");
    assert("yes"@.len() == 3 && "no"@.len() == 2);
    if exists|i: int|
        0 <= i < kinds.len() && !((#[trigger] kinds[i]) is RtmpSource) && !(kinds[i] is SrtSource) {
        let i = choose|i: int|
            0 <= i < kinds.len() && !((#[trigger] kinds[i]) is RtmpSource) && !(kinds[i]
                is SrtSource);
        assert(!kinds[i].from_source());
    }
    if transcodes(kinds) {
        let i = choose|i: int| 0 <= i < kinds.len() && !(#[trigger] kinds[i]).from_source();
        assert(!(kinds[i] is RtmpSource) && !(kinds[i] is SrtSource));
    }
}

} // verus!
