//! What the checks of a mixed run come to, and what they say.

use vstd::prelude::*;
use vstd::string::*;

use crate::harness::sweep::StreamWatch;
use crate::json::{field_in, Json};
use crate::number::{decimal, decimal_text};
use crate::path::{join_path, joined_path};
use crate::text::{
    chars_of, in_order, lines, lines_of, occurs_at, replace_char, replaced, same_text, sort_texts,
    starts, starts_with, text_option, texts, trim, trimmed,
};

verus! {

// ── Logs ─────────────────────────────────────────────────────────────────────

/// How often a text occurs in another from a position on, each time behind the last one.
pub open spec fn matches_from(s: Seq<char>, p: Seq<char>, at: int) -> nat
    decreases s.len() - at,
{
    if p.len() == 0 || at < 0 || at + p.len() > s.len() {
        0
    } else if occurs_at(s, p, at) {
        1 + matches_from(s, p, at + p.len())
    } else {
        matches_from(s, p, at + 1)
    }
}

/// How often a text occurs in another. The empty text occurs before each character and at the end.
pub open spec fn matches_in(s: Seq<char>, p: Seq<char>) -> nat {
    if p.len() == 0 {
        s.len() + 1
    } else {
        matches_from(s, p, 0)
    }
}

fn occurs_in(v: &Vec<char>, p: &Vec<char>, at: usize) -> (r: bool)
    requires
        at + p@.len() <= v@.len(),
    ensures
        r == occurs_at(v@, p@, at as int),
{
    let mut i: usize = 0;
    while i < p.len()
        invariant
            i <= p@.len(),
            at + p@.len() <= v.len(),
            forall|k: int| 0 <= k < i ==> v@[at + k] == p@[k],
        decreases p@.len() - i,
    {
        if v[at + i] != p[i] {
            assert(v@.subrange(at as int, at + p@.len())[i as int] != p@[i as int]);
            return false;
        }
        i += 1;
    }
    assert(v@.subrange(at as int, at + p@.len()) =~= p@);
    true
}

/// How often a text occurs in another.
pub fn count_matches(content: &str, needle: &str) -> (r: usize)
    requires
        needle@.len() == 0 ==> content@.len() < usize::MAX,
    ensures
        r == matches_in(content@, needle@),
{
    let v: Vec<char> = chars_of(content);
    let p: Vec<char> = chars_of(needle);
    if p.len() == 0 {
        return v.len() + 1;
    }
    if p.len() > v.len() {
        return 0;
    }
    let last: usize = v.len() - p.len();
    let mut count: usize = 0;
    let mut at: usize = 0;
    while at <= last
        invariant
            v@ == content@,
            p@ == needle@,
            p@.len() > 0,
            last == v.len() - p.len(),
            at <= v.len(),
            count <= at,
            matches_from(content@, needle@, 0) == count + matches_from(
                content@,
                needle@,
                at as int,
            ),
        decreases v@.len() - at,
    {
        if occurs_in(&v, &p, at) {
            count += 1;
            at += p.len();
        } else {
            at += 1;
        }
    }
    count
}

/// How often a text occurs in several others.
pub open spec fn matches_in_all(contents: Seq<Seq<char>>, needle: Seq<char>) -> nat
    decreases contents.len(),
{
    if contents.len() == 0 {
        0
    } else {
        matches_in_all(contents.drop_last(), needle) + matches_in(contents.last(), needle)
    }
}

proof fn lemma_matches_grow(contents: Seq<Seq<char>>, needle: Seq<char>, k: int)
    requires
        0 <= k <= contents.len(),
    ensures
        matches_in_all(contents.take(k), needle) <= matches_in_all(contents, needle),
    decreases contents.len(),
{
    if k < contents.len() {
        lemma_matches_grow(contents.drop_last(), needle, k);
        assert(contents.drop_last().take(k) =~= contents.take(k));
    } else {
        assert(contents.take(k) =~= contents);
    }
}

/// How often a text occurs in the logs.
pub fn count_log_matches(contents: &Vec<String>, needle: &str) -> (r: usize)
    requires
        matches_in_all(texts(contents@), needle@) <= usize::MAX,
    ensures
        r == matches_in_all(texts(contents@), needle@),
{
    let ghost all = texts(contents@);
    let mut count: usize = 0;
    let mut i: usize = 0;
    assert(all.take(0) =~= Seq::<Seq<char>>::empty());
    while i < contents.len()
        invariant
            i <= contents@.len(),
            all == texts(contents@),
            matches_in_all(all, needle@) <= usize::MAX,
            count == matches_in_all(all.take(i as int), needle@),
        decreases contents@.len() - i,
    {
        assert(all.take(i + 1).drop_last() =~= all.take(i as int));
        assert(all.take(i + 1).last() == contents@[i as int]@);
        proof {
            lemma_matches_grow(all, needle@, i + 1);
        }
        count = count + count_matches(contents[i].as_str(), needle);
        i += 1;
    }
    assert(all.take(all.len() as int) =~= all);
    count
}

/// The files of a directory that are logs of the server.
pub open spec fn log_names(names: Seq<String>) -> Seq<String> {
    names.filter(|n: String| starts(n@, "restream.log"@))
}

/// The logs of a server whose own log is `path`: those in the directory of logs, in order of their
/// names, or the one at `path` where there are none.
pub fn effective_log_paths(path: &str, logs_dir: &str, names: &Vec<String>) -> (r: Vec<String>)
    ensures
        log_names(names@).len() == 0 ==> texts(r@) == seq![path@],
        log_names(names@).len() > 0 ==> exists|sorted: Seq<String>|
            {
                &&& #[trigger] in_order(texts(sorted))
                &&& sorted.to_multiset() == log_names(names@).to_multiset()
                &&& texts(r@) == texts(sorted).map_values(|n: Seq<char>| joined_path(logs_dir@, n))
            },
{
    let mut found: Vec<String> = Vec::new();
    let mut i: usize = 0;
    proof {
        reveal(Seq::filter);
        assert(names@.take(0) =~= Seq::<String>::empty());
        assert(log_names(names@.take(0)) =~= Seq::<String>::empty());
    }
    while i < names.len()
        invariant
            i <= names@.len(),
            found@ == log_names(names@.take(i as int)),
        decreases names@.len() - i,
    {
        proof {
            reveal(Seq::filter);
            assert(names@.take(i + 1).drop_last() =~= names@.take(i as int));
            assert(names@.take(i + 1).last() == names@[i as int]);
        }
        if starts_with(names[i].as_str(), "restream.log") {
            found.push(names[i].clone());
        }
        i += 1;
    }
    assert(names@.take(names@.len() as int) =~= names@);
    if found.len() == 0 {
        let one: Vec<String> = vec![path.to_string()];
        assert(texts(one@) =~= seq![path@]);
        return one;
    }
    let sorted: Vec<String> = sort_texts(found);
    let mut out: Vec<String> = Vec::new();
    let mut k: usize = 0;
    while k < sorted.len()
        invariant
            k <= sorted@.len(),
            out@.len() == k,
            forall|j: int|
                0 <= j < k ==> (#[trigger] out@[j])@ == joined_path(logs_dir@, sorted@[j]@),
        decreases sorted@.len() - k,
    {
        out.push(join_path(logs_dir, sorted[k].as_str()));
        k += 1;
    }
    assert(texts(out@) =~= texts(sorted@).map_values(|n: Seq<char>| joined_path(logs_dir@, n)));
    assert(in_order(texts(sorted@)));
    out
}

/// The last lines of a text.
pub open spec fn tail_of(content: Seq<char>, n: int) -> Seq<Seq<char>> {
    let all = lines_of(content);
    if n >= all.len() {
        all
    } else {
        all.skip(all.len() - n)
    }
}

/// The last `n` lines of a text.
pub fn tail_lines(content: &str, n: usize) -> (r: Vec<String>)
    ensures
        texts(r@) == tail_of(content@, n as int),
{
    let all: Vec<String> = lines(content);
    let ghost model = texts(all@);
    assert(model.len() == all@.len());
    let from: usize = if n >= all.len() {
        0
    } else {
        all.len() - n
    };
    let mut out: Vec<String> = Vec::new();
    let mut i: usize = from;
    while i < all.len()
        invariant
            from <= i <= all@.len(),
            out@ =~= all@.subrange(from as int, i as int),
        decreases all@.len() - i,
    {
        out.push(all[i].clone());
        i += 1;
    }
    assert(texts(out@) =~= tail_of(content@, n as int));
    out
}

// ── Checks ───────────────────────────────────────────────────────────────────

/// Whether no transcoder was started before one was asked for.
pub fn smoke_verdict(launches: usize) -> (r: Result<(), String>)
    ensures
        launches == 0 ==> r is Ok,
        launches != 0 ==> r is Err && r->Err_0@
            == "smoke: external transcoder fired before 720p outputs ("@ + decimal(launches as nat)
            + " launches)"@,
{
    if launches == 0 {
        Ok(())
    } else {
        Err(
            "smoke: external transcoder fired before 720p outputs (".to_string().concat(
                decimal_text(launches as u64).as_str(),
            ).concat(" launches)"),
        )
    }
}

/// What a look at the ring of the source told. Whether it holds five seconds, and how many it
/// holds with one decimal, are read beforehand.
#[derive(Debug, Clone)]
pub struct RingReading {
    pub capacity: u64,
    pub five_seconds: bool,
    pub depth: String,
    pub overflows: u64,
}

/// Whether the ring has grown beyond the slots that it starts with.
pub open spec fn is_resized(ring: RingReading) -> bool {
    ring.capacity > 1024
}

/// Whether the ring holds enough: five seconds, or the slots that two audio tracks need.
pub open spec fn is_adequate(ring: RingReading) -> bool {
    ring.five_seconds || ring.capacity >= 780
}

pub fn ring_resized(ring: &RingReading) -> (r: bool)
    ensures
        r == is_resized(*ring),
{
    ring.capacity > 1024
}

pub fn ring_adequate(ring: &RingReading) -> (r: bool)
    ensures
        r == is_adequate(*ring),
{
    ring.five_seconds || ring.capacity >= 780
}

/// Whether the ring holds enough and no reader fell behind; what is said of it either way.
pub fn ring_verdict(cfg: &str, ring: &RingReading) -> (r: Result<String, String>)
    ensures
        ({
            let said = ": cap="@ + decimal(ring.capacity as nat) + " depth="@ + ring.depth@
                + "s overflows="@ + decimal(ring.overflows as nat);
            match r {
                Ok(note) => is_adequate(*ring) && ring.overflows == 0 && note@ == "adaptive-ring "@
                    + cfg@ + said + (if is_resized(*ring) {
                    " [resized]"@
                } else {
                    ""@
                }),
                Err(message) => !(is_adequate(*ring) && ring.overflows == 0) && message@
                    == "adaptive ring check failed for "@ + cfg@ + said,
            }
        }),
{
    let said: String = ": cap=".to_string().concat(decimal_text(ring.capacity).as_str()).concat(
        " depth=",
    ).concat(ring.depth.as_str()).concat("s overflows=").concat(
        decimal_text(ring.overflows).as_str(),
    );
    if ring_adequate(ring) && ring.overflows == 0 {
        let mark: &str = if ring_resized(ring) {
            " [resized]"
        } else {
            ""
        };
        Ok("adaptive-ring ".to_string().concat(cfg).concat(said.as_str()).concat(mark))
    } else {
        Err("adaptive ring check failed for ".to_string().concat(cfg).concat(said.as_str()))
    }
}

/// Whether so many stages are shared among so many transcoders.
pub open spec fn shares_stages(stages: nat, transcoders: nat) -> bool {
    1 <= stages <= transcoders + 1
}

/// Whether outputs share the stages that change the codec: there is one, and no more than one for
/// each transcoder and one besides. Where they do, what is noted; `n` is the size of a group, of
/// which there are four.
pub fn sharing_verdict(cfg: &str, stages: usize, transcoders: u64, n: usize) -> (r: Result<
    String,
    String,
>)
    requires
        transcoders < u64::MAX,
        n * 4 <= usize::MAX,
    ensures
        r is Ok <==> shares_stages(stages as nat, transcoders as nat),
        match r {
            Ok(note) => 1 <= stages <= transcoders + 1 && note@ == cfg@ + ": TC_STAGES="@ + decimal(
                stages as nat,
            ) + " <= "@ + decimal((transcoders + 1) as nat) + " (stage sharing confirmed for "@
                + decimal((n * 4) as nat) + " outputs)"@,
            Err(message) => !(1 <= stages <= transcoders + 1) && message@ == cfg@
                + ": expected 1.."@ + decimal((transcoders + 1) as nat)
                + " active HEVC->H.264 codec-edge stages (got "@ + decimal(stages as nat)
                + "; N="@ + decimal(n as nat) + " outputs - sharing broken if >"@ + decimal(
                (transcoders + 1) as nat,
            ) + ")"@,
        },
{
    let bound: u64 = transcoders + 1;
    if stages < 1 || stages as u64 > bound {
        Err(
            cfg.to_string().concat(": expected 1..").concat(decimal_text(bound).as_str()).concat(
                " active HEVC->H.264 codec-edge stages (got ",
            ).concat(decimal_text(stages as u64).as_str()).concat("; N=").concat(
                decimal_text(n as u64).as_str(),
            ).concat(" outputs - sharing broken if >").concat(
                decimal_text(bound).as_str(),
            ).concat(")"),
        )
    } else {
        Ok(
            cfg.to_string().concat(": TC_STAGES=").concat(
                decimal_text(stages as u64).as_str(),
            ).concat(" <= ").concat(decimal_text(bound).as_str()).concat(
                " (stage sharing confirmed for ",
            ).concat(decimal_text((n * 4) as u64).as_str()).concat(" outputs)"),
        )
    }
}

/// The size of a picture in what the probe printed: its first line, with an `x` between the
/// numbers.
pub open spec fn printed_size(printed: Seq<char>) -> Seq<char> {
    let all = lines_of(printed);
    if all.len() == 0 {
        replaced(trimmed(""@), ',', 'x')
    } else {
        replaced(trimmed(all[0]), ',', 'x')
    }
}

/// The size of a picture in what the probe printed.
pub fn size_in_output(printed: &str) -> (r: String)
    ensures
        r@ == printed_size(printed@),
{
    let all: Vec<String> = lines(printed);
    assert(texts(all@).len() == all@.len());
    if all.len() == 0 {
        replace_char(trim("").as_str(), ',', 'x')
    } else {
        assert(texts(all@)[0] == all@[0]@);
        replace_char(trim(all[0].as_str()).as_str(), ',', 'x')
    }
}

/// What is said of a stream that never had the expected size.
pub fn probe_failure(label: &str, expected: &str, watch: &StreamWatch) -> (r: String)
    ensures
        r@ == "ffprobe: "@ + label@ + " - expected "@ + expected@ + ", got '"@ + (match text_option(
            watch.last_observed,
        ) {
            Some(seen) => if seen.len() == 0 {
                "<no output>"@
            } else {
                seen
            },
            None => "<no output>"@,
        }) + "'"@,
{
    let got: String = match &watch.last_observed {
        Some(seen) => if seen.as_str().is_empty() {
            "<no output>".to_string()
        } else {
            seen.clone()
        },
        None => "<no output>".to_string(),
    };
    "ffprobe: ".to_string().concat(label).concat(" - expected ").concat(expected).concat(
        ", got '",
    ).concat(got.as_str()).concat("'")
}

/// What was seen so far of a stream's picture and audio.
#[derive(Debug, Clone)]
pub struct AudioWatch {
    pub last_dimensions: String,
    pub last_audio_tracks: Option<usize>,
    pub last_error: String,
}

/// What one probe of a stream gave: the size of its picture, empty where it has none, and the
/// number of its audio tracks.
#[derive(Debug, Clone)]
pub struct AudioProbe {
    pub dimensions: String,
    pub tracks: usize,
}

impl AudioWatch {
    pub fn new() -> (r: Self)
        ensures
            r.last_dimensions@ == ""@,
            r.last_audio_tracks is None,
            r.last_error@ == ""@,
    {
        AudioWatch {
            last_dimensions: "".to_string(),
            last_audio_tracks: None,
            last_error: "".to_string(),
        }
    }

    /// Takes in what a probe gave: whether it is what is expected. Otherwise what it gave is kept.
    pub fn observe(
        &mut self,
        probed: &Result<AudioProbe, String>,
        expected: &str,
        expected_tracks: usize,
    ) -> (r: bool)
        ensures
            r == (*probed matches Ok(p) && p.dimensions@ == expected@ && p.tracks
                == expected_tracks),
            r ==> *final(self) == *old(self),
            !r ==> match *probed {
                Ok(p) => {
                    &&& final(self).last_dimensions == if p.dimensions@.len() > 0 {
                        p.dimensions
                    } else {
                        old(self).last_dimensions
                    }
                    &&& final(self).last_audio_tracks == Some(p.tracks)
                    &&& final(self).last_error == old(self).last_error
                },
                Err(error) => {
                    &&& final(self).last_dimensions == old(self).last_dimensions
                    &&& final(self).last_audio_tracks == old(self).last_audio_tracks
                    &&& final(self).last_error == error
                },
            },
    {
        match probed {
            Ok(p) => {
                if same_text(p.dimensions.as_str(), expected) && p.tracks == expected_tracks {
                    return true;
                }
                if !p.dimensions.as_str().is_empty() {
                    self.last_dimensions = p.dimensions.clone();
                }
                self.last_audio_tracks = Some(p.tracks);
                false
            },
            Err(error) => {
                self.last_error = error.clone();
                false
            },
        }
    }

    /// What is said of a stream that was never as expected.
    pub fn failure(&self, label: &str, expected: &str, expected_tracks: usize) -> (r: String)
        ensures
            r@ == label@ + ": expected "@ + expected@ + " with "@ + decimal(expected_tracks as nat)
                + " audio tracks, got '"@ + (if self.last_dimensions@.len() == 0 {
                "<no video>"@
            } else {
                self.last_dimensions@
            }) + "' with "@ + (match self.last_audio_tracks {
                Some(n) => decimal(n as nat),
                None => "<unknown>"@,
            }) + " audio tracks"@,
    {
        let size: &str = if self.last_dimensions.as_str().is_empty() {
            "<no video>"
        } else {
            self.last_dimensions.as_str()
        };
        let tracks: String = match self.last_audio_tracks {
            Some(n) => decimal_text(n as u64),
            None => "<unknown>".to_string(),
        };
        label.to_string().concat(": expected ").concat(expected).concat(" with ").concat(
            decimal_text(expected_tracks as u64).as_str(),
        ).concat(" audio tracks, got '").concat(size).concat("' with ").concat(
            tracks.as_str(),
        ).concat(" audio tracks")
    }
}

/// What follows from how the outputs of a run ended.
#[derive(Debug, Clone, Copy, PartialEq, Eq, Structural)]
pub enum EndOfRun {
    /// All have stopped; with or without a report.
    Stopped { reported: bool },
    /// They did not stop, and the run has failed.
    Failed,
    /// They did not stop, and the run goes on after a pause.
    PausedInstead { secs: u64 },
}

/// What follows from how the outputs of a run ended.
pub open spec fn run_ends(checked: bool, stopped: bool) -> EndOfRun {
    match (stopped, checked) {
        (true, _) => EndOfRun::Stopped { reported: checked },
        (false, true) => EndOfRun::Failed,
        (false, false) => EndOfRun::PausedInstead { secs: 3 },
    }
}

/// What follows from how the outputs of a run ended: that they did not stop is a failure only where
/// the end of the run is checked.
pub fn end_of_run(checked: bool, stopped: bool) -> (r: EndOfRun)
    ensures
        r == run_ends(checked, stopped),
        r == (if stopped {
            EndOfRun::Stopped { reported: checked }
        } else if checked {
            EndOfRun::Failed
        } else {
            EndOfRun::PausedInstead { secs: 3 }
        }),
{
    if stopped {
        EndOfRun::Stopped { reported: checked }
    } else if checked {
        EndOfRun::Failed
    } else {
        EndOfRun::PausedInstead { secs: 3 }
    }
}

/// The server's own preview of a pipeline.
pub fn preview_url(http_port: u16, pipeline: &str) -> (r: String)
    ensures
        r@ == "http://127.0.0.1:"@ + decimal(http_port as nat) + "/hls/"@ + pipeline@
            + "/index.m3u8"@,
{
    "http://127.0.0.1:".to_string().concat(decimal_text(http_port as u64).as_str()).concat(
        "/hls/",
    ).concat(pipeline).concat("/index.m3u8")
}

// ── Lines and records ────────────────────────────────────────────────────────

/// The line that tells what memory a run gained.
pub fn gain_line(
    cfg: &str,
    delta_kb: u64,
    per_output_kb: u64,
    transcoders: u64,
    transcoder_kb: u64,
) -> (r: String)
    ensures
        r@ == cfg@ + ",rss_delta_kb="@ + decimal(delta_kb as nat) + ",per_output_kb="@ + decimal(
            per_output_kb as nat,
        ) + ",ext_ffmpeg_n="@ + decimal(transcoders as nat) + ",ext_ffmpeg_rss_kb="@ + decimal(
            transcoder_kb as nat,
        ) + "\n"@,
{
    cfg.to_string().concat(",rss_delta_kb=").concat(decimal_text(delta_kb).as_str()).concat(
        ",per_output_kb=",
    ).concat(decimal_text(per_output_kb).as_str()).concat(",ext_ffmpeg_n=").concat(
        decimal_text(transcoders).as_str(),
    ).concat(",ext_ffmpeg_rss_kb=").concat(decimal_text(transcoder_kb).as_str()).concat("\n")
}

/// The line of a snapshot.
pub fn snapshot_line(
    cfg: &str,
    label: &str,
    cpu: &str,
    rss_kb: u64,
    transcoders: u64,
    transcoder_kb: u64,
) -> (r: String)
    ensures
        r@ == cfg@ + ",\""@ + label@ + "\","@ + cpu@ + ","@ + decimal(rss_kb as nat) + ","@
            + decimal(transcoders as nat) + ","@ + decimal(transcoder_kb as nat) + "\n"@,
{
    cfg.to_string().concat(",\"").concat(label).concat("\",").concat(cpu).concat(",").concat(
        decimal_text(rss_kb).as_str(),
    ).concat(",").concat(decimal_text(transcoders).as_str()).concat(",").concat(
        decimal_text(transcoder_kb).as_str(),
    ).concat("\n")
}

/// Whether fields hold one of this name.
pub open spec fn has_field(fields: Seq<(String, Json)>, name: Seq<char>) -> bool {
    field_in(fields, name) is Some
}

proof fn lemma_field_in_add(a: Seq<(String, Json)>, b: Seq<(String, Json)>, name: Seq<char>)
    ensures
        field_in(a + b, name) == match field_in(a, name) {
            Some(j) => Some(j),
            None => field_in(b, name),
        },
    decreases a.len(),
{
    if a.len() == 0 {
        assert(a + b =~= b);
    } else {
        lemma_field_in_add(a.skip(1), b, name);
        assert((a + b).skip(1) =~= a.skip(1) + b);
        assert((a + b)[0] == a[0]);
    }
}

fn holds_name(fields: &Vec<(String, Json)>, name: &str) -> (r: bool)
    ensures
        r == has_field(fields@, name@),
{
    let mut i: usize = 0;
    assert(fields@.skip(0) =~= fields@);
    while i < fields.len()
        invariant
            i <= fields@.len(),
            field_in(fields@, name@) == field_in(fields@.skip(i as int), name@),
        decreases fields@.len() - i,
    {
        assert(fields@.skip(i as int)[0] == fields@[i as int]);
        assert(fields@.skip(i as int).skip(1) =~= fields@.skip(i + 1));
        if same_text(fields[i].0.as_str(), name) {
            return true;
        }
        i += 1;
    }
    false
}

fn add_unless_held(out: &mut Vec<(String, Json)>, extra: &Vec<(String, Json)>, name: &str, value: Json)
    ensures
        has_field(extra@, name@) ==> final(out)@ == old(out)@,
        !has_field(extra@, name@) ==> final(out)@.len() == old(out)@.len() + 1 && final(out)@.drop_last()
            == old(out)@ && final(out)@.last().0@ == name@ && final(out)@.last().1 == value,
{
    if !holds_name(extra, name) {
        let ghost before = out@;
        out.push((name.to_string(), value));
        assert(out@.drop_last() =~= before);
    }
}

/// The fields that every record has.
pub open spec fn record_field(
    name: Seq<char>,
    id: Seq<char>,
    cfg: Seq<char>,
    status: Seq<char>,
) -> Option<Seq<char>> {
    if name == "id"@ {
        Some(id)
    } else if name == "mode"@ {
        Some("mixed-scale"@)
    } else if name == "config"@ {
        Some(cfg)
    } else if name == "status"@ {
        Some(status)
    } else {
        None
    }
}

proof fn lemma_push_keeps(out: Seq<(String, Json)>, item: (String, Json), name: Seq<char>)
    ensures
        field_in(out.push(item), name) == match field_in(out, name) {
            Some(j) => Some(j),
            None => if item.0@ == name {
                Some(item.1)
            } else {
                None
            },
        },
{
    lemma_field_in_add(out, seq![item], name);
    assert(out.push(item) =~= out + seq![item]);
    assert(seq![item].skip(1) =~= Seq::<(String, Json)>::empty());
    reveal_with_fuel(field_in, 2);
}

/// The record of a check. A field of `extra` takes the place of the one that every record has.
pub fn result_record(cfg: &str, id: &str, status: &str, ms: u64, extra: Vec<(String, Json)>) -> (r:
    Json)
    ensures
        forall|name: Seq<char>|
            has_field(extra@, name) ==> #[trigger] r.field(name) == field_in(extra@, name),
        forall|name: Seq<char>|
            !has_field(extra@, name) && name != "ms"@ ==> #[trigger] r.text_field(name)
                == record_field(name, id@, cfg@, status@),
        forall|name: Seq<char>|
            !has_field(extra@, name) && name != "ms"@ && record_field(name, id@, cfg@, status@)
                is None ==> #[trigger] r.field(name) is None,
        !has_field(extra@, "ms"@) ==> r.u64_field("ms"@) == Some(ms),
{
    let mut out: Vec<(String, Json)> = Vec::new();
    let ghost e = extra@;
    proof {
        reveal_strlit("id");
        reveal_strlit("mode");
        reveal_strlit("config");
        reveal_strlit("status");
        reveal_strlit("ms");
        assert("id"@[0] != "ms"@[0] && "id"@.len() == 2 && "mode"@.len() == 4 && "config"@.len()
            == 6 && "status"@.len() == 6 && "ms"@.len() == 2);
        assert("config"@[0] != "status"@[0]);
    }
    let ghost o0 = out@;
    add_unless_held(&mut out, &extra, "id", Json::Text(id.to_string()));
    let ghost o1 = out@;
    add_unless_held(&mut out, &extra, "mode", Json::Text("mixed-scale".to_string()));
    let ghost o2 = out@;
    add_unless_held(&mut out, &extra, "config", Json::Text(cfg.to_string()));
    let ghost o3 = out@;
    add_unless_held(&mut out, &extra, "status", Json::Text(status.to_string()));
    let ghost o4 = out@;
    add_unless_held(&mut out, &extra, "ms", Json::Unsigned(ms));
    let ghost o5 = out@;
    proof {
        assert forall|name: Seq<char>| #[trigger] field_in(o5, name) == (if has_field(e, name) {
            None::<Json>
        } else {
            field_in(o5, name)
        }) && (!has_field(e, name) && name != "ms"@ ==> (match field_in(o5, name) {
            Some(j) => j.as_text() == record_field(name, id@, cfg@, status@)
                && record_field(name, id@, cfg@, status@) is Some,
            None => record_field(name, id@, cfg@, status@) is None,
        })) by {
            lemma_step(o0, o1, e, "id"@, name);
            lemma_step(o1, o2, e, "mode"@, name);
            lemma_step(o2, o3, e, "config"@, name);
            lemma_step(o3, o4, e, "status"@, name);
            lemma_step(o4, o5, e, "ms"@, name);
        }
        lemma_step(o0, o1, e, "id"@, "ms"@);
        lemma_step(o1, o2, e, "mode"@, "ms"@);
        lemma_step(o2, o3, e, "config"@, "ms"@);
        lemma_step(o3, o4, e, "status"@, "ms"@);
        lemma_step(o4, o5, e, "ms"@, "ms"@);
        assert forall|name: Seq<char>| #[trigger] field_in(o5 + e, name) == (match field_in(o5, name) {
            Some(j) => Some(j),
            None => field_in(e, name),
        }) by {
            lemma_field_in_add(o5, e, name);
        }
    }
    let mut more: Vec<(String, Json)> = extra;
    out.append(&mut more);
    let r: Json = Json::Object(out);
    proof {
        assert(out@ =~= o5 + e);
        assert forall|name: Seq<char>| has_field(e, name) implies #[trigger] r.field(name)
            == field_in(e, name) by {
            assert(field_in(o5, name) is None);
            assert(field_in(o5 + e, name) == field_in(e, name));
        }
        assert forall|name: Seq<char>| !has_field(e, name) && name != "ms"@ implies
            #[trigger] r.text_field(name) == record_field(name, id@, cfg@, status@) by {
            assert(field_in(o5 + e, name) == field_in(o5, name));
        }
        assert forall|name: Seq<char>|
            !has_field(e, name) && name != "ms"@ && record_field(
                name,
                id@,
                cfg@,
                status@,
            ) is None implies #[trigger] r.field(name) is None by {
            assert(field_in(o5 + e, name) == field_in(o5, name));
        }
        assert(field_in(o5 + e, "ms"@) == (match field_in(o5, "ms"@) {
            Some(j) => Some(j),
            None => field_in(e, "ms"@),
        }));
    }
    r
}

proof fn lemma_step(
    before: Seq<(String, Json)>,
    after: Seq<(String, Json)>,
    extra: Seq<(String, Json)>,
    added: Seq<char>,
    name: Seq<char>,
)
    requires
        has_field(extra, added) ==> after == before,
        !has_field(extra, added) ==> after.len() == before.len() + 1 && after.drop_last() == before
            && after.last().0@ == added,
    ensures
        has_field(extra, added) ==> field_in(after, name) == field_in(before, name),
        !has_field(extra, added) ==> field_in(after, name) == (match field_in(before, name) {
            Some(j) => Some(j),
            None => if added == name {
                Some(after.last().1)
            } else {
                None
            },
        }),
{
    if !has_field(extra, added) {
        assert(after =~= before.push(after.last()));
        lemma_push_keeps(before, after.last(), name);
    }
}

// ── Laws ─────────────────────────────────────────────────────────────────────

/// A ring that has grown holds enough.
pub proof fn resized_rings_are_adequate(ring: RingReading)
    ensures
        is_resized(ring) ==> is_adequate(ring),
{
}

/// The end of a text never has more lines than were asked for, nor more than there are.
pub proof fn tail_is_bounded(content: Seq<char>, n: int)
    requires
        0 <= n,
    ensures
        tail_of(content, n).len() <= n,
        tail_of(content, n).len() <= lines_of(content).len(),
        n > 0 && lines_of(content).len() > 0 ==> tail_of(content, n).last() == lines_of(
            content,
        ).last(),
{
}

/// A text occurs in another as often as it is put between pieces in which it does not begin: each
/// occurrence counts, and what follows it is counted from behind it.
pub proof fn occurrences_are_counted_behind_each_other(s: Seq<char>, p: Seq<char>, at: int)
    requires
        p.len() > 0,
        0 <= at,
    ensures
        at + p.len() <= s.len() && s.subrange(at, at + p.len()) == p ==> matches_from(s, p, at) == 1
            + matches_from(s, p, at + p.len()),
        at + p.len() <= s.len() && s.subrange(at, at + p.len()) != p ==> matches_from(s, p, at)
            == matches_from(s, p, at + 1),
        at + p.len() > s.len() ==> matches_from(s, p, at) == 0,
        matches_in(s, p) == matches_from(s, p, 0),
        matches_in(s, Seq::empty()) == s.len() + 1,
{
}

/// A ring has grown where it has more than 1024 slots, and holds enough where it has five seconds or
/// 780 slots.
pub proof fn rings_are_measured_in_slots(ring: RingReading)
    ensures
        is_resized(ring) <==> ring.capacity >= 1025,
        is_adequate(ring) <==> ring.five_seconds || ring.capacity > 779,
{
}

/// The size that a probe printed is its first line, with an `x` between width and height.
pub proof fn printed_sizes_are_read(width: nat, height: nat, printed: Seq<char>)
    requires
        lines_of(printed).len() > 0,
        lines_of(printed)[0] == decimal(width) + ","@ + decimal(height),
    ensures
        printed_size(printed) == decimal(width) + "x"@ + decimal(height),
{
    reveal_strlit(",");
    reveal_strlit("x");
    let line = decimal(width) + ","@ + decimal(height);
    crate::number::decimal_reads_back(width);
    crate::number::decimal_reads_back(height);
    let n = decimal(width).len() as int;
    assert(line[0] == decimal(width)[0]);
    assert(crate::number::is_digit(decimal(width)[0]));
    assert(line.last() == decimal(height).last());
    assert(crate::number::is_digit(decimal(height)[decimal(height).len() - 1]));
    assert(Seq::<char>::empty() + line + Seq::<char>::empty() =~= line);
    crate::text::trimming_removes_what_is_around(Seq::empty(), line, Seq::empty());
    let shown = decimal(width) + "x"@ + decimal(height);
    assert forall|i: int| 0 <= i < line.len() implies replaced(line, ',', 'x')[i] == shown[i] by {
        if i < n {
            assert(crate::number::is_digit(decimal(width)[i]));
        } else if i > n {
            assert(crate::number::is_digit(decimal(height)[i - n - 1]));
        }
    }
    assert(replaced(line, ',', 'x') =~= shown);
}

/// The logs are the files whose names begin with that of the server's log.
pub proof fn logs_are_known_by_their_beginning(names: Seq<String>, name: String)
    ensures
        log_names(names).contains(name) <==> names.contains(name) && starts(
            name@,
            "restream.log"@,
        ),
{
    let keep = |n: String| starts(n@, "restream.log"@);
    if log_names(names).contains(name) {
        names.lemma_filter_contains_rev(keep, name);
        names.lemma_filter_pred(keep, log_names(names).index_of(name));
    }
    if names.contains(name) && starts(name@, "restream.log"@) {
        let i = names.index_of(name);
        assert(keep(names[i]));
        names.lemma_filter_contains(keep, i);
    }
}

/// The end of a text are its last lines, in order.
pub proof fn tail_is_the_last_lines(content: Seq<char>, n: int, k: int)
    requires
        0 <= n < lines_of(content).len(),
        0 <= k < n,
    ensures
        tail_of(content, n).len() == n,
        tail_of(content, n)[k] == lines_of(content)[lines_of(content).len() - n + k],
{
}

/// Stages are shared where there is at least one of them and no more than the transcoders and one
/// besides: none, and one for each of many outputs, are not shared.
pub proof fn unshared_stages_are_too_many(stages: nat, transcoders: nat, outputs: nat)
    ensures
        !shares_stages(0, transcoders),
        shares_stages(1, transcoders),
        stages > transcoders + 1 ==> !shares_stages(stages, transcoders),
        1 <= stages <= transcoders + 1 ==> shares_stages(stages, transcoders),
        outputs >= 2 ==> !shares_stages(outputs, 0),
{
}

/// A run fails at its end exactly when its outputs did not stop and that is checked.
pub proof fn runs_fail_where_the_end_is_checked(checked: bool, stopped: bool)
    ensures
        run_ends(checked, stopped) == EndOfRun::Failed <==> checked && !stopped,
        run_ends(checked, stopped) is Stopped <==> stopped,
        stopped ==> run_ends(checked, stopped) == (EndOfRun::Stopped { reported: checked }),
        !checked && !stopped ==> run_ends(checked, stopped) == (EndOfRun::PausedInstead { secs: 3 }),
{
}

} // verus!
