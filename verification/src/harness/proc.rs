//! What the kernel and `ps` say of processes.

use vstd::prelude::*;
use vstd::string::*;

use crate::number::{decimal, decimal_text, parse_unsigned, parsed};
use crate::text::{
    contains, contains_text, join, joined, lines, lines_of, lossy, starts, strip_prefix,
    text_of_bytes, text_option, texts, trim, trimmed, words, words_of,
};

verus! {

// ── Fields ───────────────────────────────────────────────────────────────────

/// The number that stands as word `at` of a text.
pub open spec fn number_at(text: Seq<char>, at: int) -> Option<int> {
    let all = words_of(text);
    if 0 <= at < all.len() {
        parsed(all[at], u64::MAX as int)
    } else {
        None
    }
}

fn number_word(all: &Vec<String>, at: usize) -> (r: Option<u64>)
    ensures
        match r {
            Some(n) => at < all@.len() && parsed(all@[at as int]@, u64::MAX as int) == Some(
                n as int,
            ),
            None => at >= all@.len() || parsed(all@[at as int]@, u64::MAX as int) is None,
        },
{
    if at < all.len() {
        parse_unsigned(all[at].as_str(), u64::MAX)
    } else {
        None
    }
}

/// The number that stands as word `at` of a text.
pub fn word_number(text: &str, at: usize) -> (r: Option<u64>)
    ensures
        match r {
            Some(n) => number_at(text@, at as int) == Some(n as int),
            None => number_at(text@, at as int) is None,
        },
{
    let all: Vec<String> = words(text);
    assert(texts(all@) == words_of(text@));
    assert(all@.len() == words_of(text@).len());
    let r: Option<u64> = number_word(&all, at);
    if at < all.len() {
        assert(words_of(text@)[at as int] == all@[at as int]@);
    }
    r
}

/// What follows a key on the first line that begins with it.
pub open spec fn after_key(all: Seq<Seq<char>>, key: Seq<char>) -> Option<Seq<char>>
    decreases all.len(),
{
    if all.len() == 0 {
        None
    } else if starts(all[0], key) {
        Some(all[0].skip(key.len() as int))
    } else {
        after_key(all.skip(1), key)
    }
}

/// What follows `key` on the first line of `text` that begins with it.
pub fn line_after(text: &str, key: &str) -> (r: Option<String>)
    ensures
        match r {
            Some(rest) => after_key(lines_of(text@), key@) == Some(rest@),
            None => after_key(lines_of(text@), key@) is None,
        },
{
    let all: Vec<String> = lines(text);
    let ghost model = texts(all@);
    let mut i: usize = 0;
    assert(model.skip(0) =~= model);
    while i < all.len()
        invariant
            i <= all@.len(),
            model == texts(all@),
            model == lines_of(text@),
            after_key(model, key@) == after_key(model.skip(i as int), key@),
        decreases all@.len() - i,
    {
        assert(model.skip(i as int).skip(1) =~= model.skip(i + 1));
        assert(model.skip(i as int)[0] == all@[i as int]@);
        if let Some(rest) = strip_prefix(all[i].as_str(), key) {
            return Some(rest);
        }
        i += 1;
    }
    None
}

/// The first number after a key, in kilobytes where the kernel says so.
pub open spec fn keyed_number(text: Seq<char>, key: Seq<char>) -> Option<Option<int>> {
    match after_key(lines_of(text), key + ":"@) {
        Some(rest) => Some(number_at(rest, 0)),
        None => None,
    }
}

// ── One process ──────────────────────────────────────────────────────────────

/// How many clock ticks a process has run, in user and in kernel mode, from its `stat` text.
pub fn stat_ticks(stat: &str) -> (r: Result<u64, &'static str>)
    requires
        match (number_at(stat@, 13), number_at(stat@, 14)) {
            (Some(user), Some(kernel)) => user + kernel <= u64::MAX,
            _ => true,
        },
    ensures
        match (number_at(stat@, 13), number_at(stat@, 14)) {
            (None, _) => r is Err && r->Err_0@ == "proc stat missing utime"@,
            (Some(_), None) => r is Err && r->Err_0@ == "proc stat missing stime"@,
            (Some(user), Some(kernel)) => r is Ok && r->Ok_0 == user + kernel,
        },
{
    match word_number(stat, 13) {
        None => Err("proc stat missing utime"),
        Some(user) => match word_number(stat, 14) {
            None => Err("proc stat missing stime"),
            Some(kernel) => Ok(user + kernel),
        },
    }
}

/// The number of kilobytes that a process's `status` text gives for a key.
pub fn status_kb(status: &str, pid: u32, key: &str) -> (r: Result<u64, String>)
    ensures
        match keyed_number(status@, key@) {
            Some(Some(kb)) => r is Ok && r->Ok_0 == kb,
            Some(None) => r is Err && r->Err_0@ == "failed to parse "@ + key@,
            None => r is Err && r->Err_0@ == key@ + " missing in /proc/"@ + decimal(pid as nat)
                + "/status"@,
        },
{
    let wanted: String = key.to_string().concat(":");
    match line_after(status, wanted.as_str()) {
        None => Err(
            key.to_string().concat(" missing in /proc/").concat(
                decimal_text(pid as u64).as_str(),
            ).concat("/status"),
        ),
        Some(rest) => match word_number(rest.as_str(), 0) {
            Some(kb) => Ok(kb),
            None => Err("failed to parse ".to_string().concat(key)),
        },
    }
}

/// What is said of a process that cannot be read, with the end of its log where there is any.
pub fn unavailable_message(pid: u32, key: &str, error: &str, tail: &Vec<String>) -> (r: String)
    ensures
        ({
            let said = "restream pid "@ + decimal(pid as nat) + " unavailable while reading "@
                + key@ + ": "@ + error@;
            r@ == if tail@.len() == 0 {
                said
            } else {
                said + "\nrestream log tail:\n"@ + joined(texts(tail@), "\n"@)
            }
        }),
{
    let said: String = "restream pid ".to_string().concat(decimal_text(pid as u64).as_str()).concat(
        " unavailable while reading ",
    ).concat(key).concat(": ").concat(error);
    if tail.len() == 0 {
        said
    } else {
        said.concat("\nrestream log tail:\n").concat(join(tail, "\n").as_str())
    }
}

/// What a process's memory is made of, in kilobytes.
#[derive(Debug, Clone, Copy, PartialEq, Eq, Structural)]
pub struct ProcMemRollup {
    pub anonymous_kb: u64,
    pub private_dirty_kb: u64,
    pub private_clean_kb: u64,
    pub shared_clean_kb: u64,
    pub shared_dirty_kb: u64,
    pub pss_kb: u64,
    pub swap_kb: u64,
}

/// The number after a key; zero where there is none.
pub open spec fn rollup_value(text: Seq<char>, key: Seq<char>) -> int {
    match keyed_number(text, key) {
        Some(Some(kb)) => kb,
        _ => 0,
    }
}

fn rollup_number(text: &str, key: &str) -> (r: u64)
    ensures
        r == rollup_value(text@, key@),
{
    let wanted: String = key.to_string().concat(":");
    match line_after(text, wanted.as_str()) {
        None => 0,
        Some(rest) => match word_number(rest.as_str(), 0) {
            Some(kb) => kb,
            None => 0,
        },
    }
}

/// Reads a `smaps_rollup` text; what it does not tell is zero.
pub fn smaps_rollup(text: &str) -> (r: ProcMemRollup)
    ensures
        r.anonymous_kb == rollup_value(text@, "Anonymous"@),
        r.private_dirty_kb == rollup_value(text@, "Private_Dirty"@),
        r.private_clean_kb == rollup_value(text@, "Private_Clean"@),
        r.shared_clean_kb == rollup_value(text@, "Shared_Clean"@),
        r.shared_dirty_kb == rollup_value(text@, "Shared_Dirty"@),
        r.pss_kb == rollup_value(text@, "Pss"@),
        r.swap_kb == rollup_value(text@, "Swap"@),
{
    ProcMemRollup {
        anonymous_kb: rollup_number(text, "Anonymous"),
        private_dirty_kb: rollup_number(text, "Private_Dirty"),
        private_clean_kb: rollup_number(text, "Private_Clean"),
        shared_clean_kb: rollup_number(text, "Shared_Clean"),
        shared_dirty_kb: rollup_number(text, "Shared_Dirty"),
        pss_kb: rollup_number(text, "Pss"),
        swap_kb: rollup_number(text, "Swap"),
    }
}

// ── Children ─────────────────────────────────────────────────────────────────

/// A process as it was found: its `status` text, its command line, and its `status` text when it
/// was read again.
#[derive(Debug, Clone)]
pub struct FoundProcess {
    pub pid: u32,
    pub status: Option<String>,
    pub command_line: String,
    pub status_again: Option<String>,
}

impl FoundProcess {
    /// A process by its number, its `status` text, the bytes of its command line, and its `status`
    /// text when it was read again.
    pub fn new(
        pid: u32,
        status: Option<String>,
        command_line: &[u8],
        status_again: Option<String>,
    ) -> (r: Self)
        ensures
            r.pid == pid,
            r.status == status,
            r.command_line@ == lossy(command_line@),
            r.status_again == status_again,
    {
        FoundProcess { pid, status, command_line: text_of_bytes(command_line), status_again }
    }
}

/// How many children run ffmpeg, how much memory they hold, and which they are.
#[derive(Debug, Clone, PartialEq, Eq)]
pub struct FfmpegStats {
    pub count: u64,
    pub rss_kb: u64,
    pub pids: Vec<u32>,
}

/// The parent that a `status` text names; zero where it names none.
pub open spec fn parent_in(status: Seq<char>) -> int {
    match after_key(lines_of(status), "PPid:"@) {
        Some(rest) => match parsed(trimmed(rest), u32::MAX as int) {
            Some(pid) => pid,
            None => 0,
        },
        None => 0,
    }
}

fn parent_of(status: &str) -> (r: u32)
    ensures
        r == parent_in(status@),
{
    match line_after(status, "PPid:") {
        Some(rest) => match parse_unsigned(trim(rest.as_str()).as_str(), 4_294_967_295) {
            Some(pid) => pid as u32,
            None => 0,
        },
        None => 0,
    }
}

/// Whether a process is a child that runs ffmpeg.
pub open spec fn is_ffmpeg_child(p: FoundProcess, parent: u32) -> bool {
    p.status matches Some(status) && parent_in(status@) == parent && contains(
        p.command_line@,
        "ffmpeg"@,
    )
}

/// How much memory a process held when it was read again.
pub open spec fn held_kb(p: FoundProcess) -> int {
    match p.status_again {
        Some(status) => rollup_value(status@, "VmRSS"@),
        None => 0,
    }
}

/// The children that run ffmpeg.
pub open spec fn ffmpeg_children(all: Seq<FoundProcess>, parent: u32) -> Seq<FoundProcess> {
    all.filter(|p: FoundProcess| is_ffmpeg_child(p, parent))
}

/// The memory that processes held together.
pub open spec fn held_together(all: Seq<FoundProcess>) -> int
    decreases all.len(),
{
    if all.len() == 0 {
        0
    } else {
        held_together(all.drop_last()) + held_kb(all.last())
    }
}

proof fn lemma_number_is_natural(p: FoundProcess)
    ensures
        0 <= held_kb(p),
{
    if let Some(status) = p.status_again {
        if let Some(rest) = after_key(lines_of(status@), "VmRSS"@ + ":"@) {
            let all = words_of(rest);
            if all.len() > 0 {
                crate::number::lemma_parsed_bounds(all[0], u64::MAX as int);
            }
        }
    }
}

proof fn lemma_filter_step(all: Seq<FoundProcess>, i: int, parent: u32)
    requires
        0 <= i < all.len(),
    ensures
        ffmpeg_children(all.take(i + 1), parent) == (if is_ffmpeg_child(all[i], parent) {
            ffmpeg_children(all.take(i), parent).push(all[i])
        } else {
            ffmpeg_children(all.take(i), parent)
        }),
{
    reveal(Seq::filter);
    assert(all.take(i + 1).drop_last() =~= all.take(i));
    assert(all.take(i + 1).last() == all[i]);
}

proof fn lemma_children_grow(all: Seq<FoundProcess>, i: int, parent: u32)
    requires
        0 <= i <= all.len(),
    ensures
        held_together(ffmpeg_children(all.take(i), parent)) <= held_together(
            ffmpeg_children(all, parent),
        ),
    decreases all.len() - i,
{
    if i == all.len() {
        assert(all.take(i) =~= all);
    } else {
        lemma_filter_step(all, i, parent);
        lemma_children_grow(all, i + 1, parent);
        let now = ffmpeg_children(all.take(i), parent);
        if is_ffmpeg_child(all[i], parent) {
            assert(now.push(all[i]).drop_last() =~= now);
            lemma_number_is_natural(all[i]);
        }
    }
}

/// Which of the processes are children of `parent` that run ffmpeg, and how much memory they hold.
pub fn ffmpeg_children_stats(all: &Vec<FoundProcess>, parent: u32) -> (r: FfmpegStats)
    requires
        held_together(ffmpeg_children(all@, parent)) <= u64::MAX,
    ensures
        r.count == ffmpeg_children(all@, parent).len(),
        r.rss_kb == held_together(ffmpeg_children(all@, parent)),
        r.pids@ == ffmpeg_children(all@, parent).map_values(|p: FoundProcess| p.pid),
{
    let mut pids: Vec<u32> = Vec::new();
    let mut rss_kb: u64 = 0;
    let mut i: usize = 0;
    proof {
        reveal(Seq::filter);
        assert(all@.take(0) =~= Seq::<FoundProcess>::empty());
        assert(ffmpeg_children(all@.take(0), parent) =~= Seq::<FoundProcess>::empty());
    }
    while i < all.len()
        invariant
            i <= all.len(),
            held_together(ffmpeg_children(all@, parent)) <= u64::MAX,
            rss_kb == held_together(ffmpeg_children(all@.take(i as int), parent)),
            pids@ =~= ffmpeg_children(all@.take(i as int), parent).map_values(
                |p: FoundProcess| p.pid,
            ),
        decreases all.len() - i,
    {
        let ghost now = ffmpeg_children(all@.take(i as int), parent);
        proof {
            lemma_filter_step(all@, i as int, parent);
            lemma_children_grow(all@, i + 1, parent);
            assert(now.push(all@[i as int]).drop_last() =~= now);
        }
        let child: bool = match &all[i].status {
            Some(status) => parent_of(status.as_str()) == parent && contains_text(
                all[i].command_line.as_str(),
                "ffmpeg",
            ),
            None => false,
        };
        if child {
            let kb: u64 = match &all[i].status_again {
                Some(status) => rollup_number(status.as_str(), "VmRSS"),
                None => 0,
            };
            rss_kb = rss_kb + kb;
            pids.push(all[i].pid);
        }
        i += 1;
    }
    assert(all@.take(all@.len() as int) =~= all@);
    FfmpegStats { count: pids.len() as u64, rss_kb, pids }
}

// ── What `ps` prints ─────────────────────────────────────────────────────────

/// Whether a line of `ps aux` is of a transcoder that writes to its standard output.
pub open spec fn is_pipe_line(line: Seq<char>) -> bool {
    contains(line, "ffmpeg"@) && contains(line, "pipe:1"@)
}

/// How many of the lines are of such transcoders.
pub open spec fn pipe_count(all: Seq<Seq<char>>) -> nat
    decreases all.len(),
{
    if all.len() == 0 {
        0
    } else {
        pipe_count(all.drop_last()) + if is_pipe_line(all.last()) {
            1nat
        } else {
            0nat
        }
    }
}

/// The memory that a line of `ps aux` tells of.
pub open spec fn line_kb(line: Seq<char>) -> int {
    match number_at(line, 5) {
        Some(kb) => kb,
        None => 0,
    }
}

/// The memory of the transcoders among the lines.
pub open spec fn pipe_kb(all: Seq<Seq<char>>) -> int
    decreases all.len(),
{
    if all.len() == 0 {
        0
    } else {
        pipe_kb(all.drop_last()) + if is_pipe_line(all.last()) {
            line_kb(all.last())
        } else {
            0
        }
    }
}

proof fn lemma_pipe_kb_grows(all: Seq<Seq<char>>, i: int)
    requires
        0 <= i <= all.len(),
    ensures
        0 <= pipe_kb(all.take(i)) <= pipe_kb(all),
    decreases all.len(),
{
    if all.len() > 0 {
        let line = all.last();
        if let Some(kb) = number_at(line, 5) {
            crate::number::lemma_parsed_bounds(words_of(line)[5], u64::MAX as int);
        }
        if i < all.len() {
            lemma_pipe_kb_grows(all.drop_last(), i);
            assert(all.drop_last().take(i) =~= all.take(i));
        } else {
            lemma_pipe_kb_grows(all.drop_last(), i - 1);
            assert(all.take(i) =~= all);
        }
    } else {
        assert(all.take(i) =~= all);
    }
}

/// Which transcoders `ps aux` lists, by number and memory.
pub fn ffmpeg_pipe1_stats(listing: &str) -> (r: FfmpegStats)
    requires
        pipe_kb(lines_of(listing@)) <= u64::MAX,
    ensures
        r.count == pipe_count(lines_of(listing@)),
        r.rss_kb == pipe_kb(lines_of(listing@)),
        r.pids@.len() == 0,
{
    let all: Vec<String> = lines(listing);
    let ghost model = texts(all@);
    let mut count: usize = 0;
    let mut rss_kb: u64 = 0;
    let mut i: usize = 0;
    assert(model.take(0) =~= Seq::<Seq<char>>::empty());
    while i < all.len()
        invariant
            i <= all.len(),
            model == texts(all@),
            pipe_kb(model) <= u64::MAX,
            count <= i,
            count == pipe_count(model.take(i as int)),
            rss_kb == pipe_kb(model.take(i as int)),
        decreases all.len() - i,
    {
        assert(model.take(i + 1).drop_last() =~= model.take(i as int));
        assert(model.take(i + 1).last() == all@[i as int]@);
        proof {
            lemma_pipe_kb_grows(model, i + 1);
        }
        let line: &str = all[i].as_str();
        if contains_text(line, "ffmpeg") && contains_text(line, "pipe:1") {
            let kb: u64 = match word_number(line, 5) {
                Some(kb) => kb,
                None => 0,
            };
            count += 1;
            rss_kb = rss_kb + kb;
        }
        i += 1;
    }
    assert(model.take(model.len() as int) =~= model);
    FfmpegStats { count: count as u64, rss_kb, pids: Vec::new() }
}

fn pipes_fit(listing: &str) -> (r: bool)
    ensures
        r == (pipe_kb(lines_of(listing@)) <= u64::MAX),
{
    let all: Vec<String> = lines(listing);
    let ghost model = texts(all@);
    let mut kb: u64 = 0;
    let mut i: usize = 0;
    assert(model.take(0) =~= Seq::<Seq<char>>::empty());
    while i < all.len()
        invariant
            i <= all.len(),
            model == texts(all@),
            model == lines_of(listing@),
            kb == pipe_kb(model.take(i as int)),
        decreases all.len() - i,
    {
        assert(model.take(i + 1).drop_last() =~= model.take(i as int));
        assert(model.take(i + 1).last() == all@[i as int]@);
        proof {
            lemma_pipe_kb_grows(model, i + 1);
        }
        let line: &str = all[i].as_str();
        if contains_text(line, "ffmpeg") && contains_text(line, "pipe:1") {
            let more: u64 = match word_number(line, 5) {
                Some(n) => n,
                None => 0,
            };
            match kb.checked_add(more) {
                Some(sum) => {
                    kb = sum;
                },
                None => {
                    return false;
                },
            }
        }
        i += 1;
    }
    assert(model.take(model.len() as int) =~= model);
    true
}

/// Which transcoders `ps aux` printed, by number and memory; nothing where a counter cannot hold
/// their memory.
pub fn printed_transcoders(printed: &[u8]) -> (r: Option<FfmpegStats>)
    ensures
        match r {
            Some(stats) => {
                &&& stats.count == pipe_count(lines_of(lossy(printed@)))
                &&& stats.rss_kb == pipe_kb(lines_of(lossy(printed@)))
                &&& stats.pids@.len() == 0
            },
            None => pipe_kb(lines_of(lossy(printed@))) > u64::MAX,
        },
{
    let listing: String = text_of_bytes(printed);
    if pipes_fit(listing.as_str()) {
        Some(ffmpeg_pipe1_stats(listing.as_str()))
    } else {
        None
    }
}

/// The share of a processor that `ps` printed; `0` where it printed nothing.
pub fn cpu_share(printed: &str) -> (r: String)
    ensures
        r@ == if trimmed(printed@).len() == 0 {
            "0"@
        } else {
            trimmed(printed@)
        },
{
    let value: String = trim(printed);
    if value.as_str().is_empty() {
        "0".to_string()
    } else {
        value
    }
}

/// The kilobytes that `ps` printed.
pub fn printed_kb(printed: &str) -> (r: Option<u64>)
    ensures
        match r {
            Some(kb) => parsed(trimmed(printed@), u64::MAX as int) == Some(kb as int),
            None => parsed(trimmed(printed@), u64::MAX as int) is None,
        },
{
    parse_unsigned(trim(printed).as_str(), u64::MAX)
}

/// The share of a processor that a run of `ps` printed for a process, if it succeeded.
pub fn process_cpu_pct(success: bool, printed: &[u8]) -> (r: Option<String>)
    ensures
        text_option(r) == (if !success {
            None
        } else if trimmed(lossy(printed@)).len() == 0 {
            Some("0"@)
        } else {
            Some(trimmed(lossy(printed@)))
        }),
{
    if success {
        Some(cpu_share(text_of_bytes(printed).as_str()))
    } else {
        None
    }
}

/// The kilobytes that a run of `ps` printed for a process, if it succeeded and they are a number.
pub fn process_rss_kb(success: bool, printed: &[u8]) -> (r: Option<u64>)
    ensures
        match r {
            Some(kb) => success && parsed(trimmed(lossy(printed@)), u64::MAX as int) == Some(
                kb as int,
            ),
            None => !success || parsed(trimmed(lossy(printed@)), u64::MAX as int) is None,
        },
{
    if success {
        printed_kb(text_of_bytes(printed).as_str())
    } else {
        None
    }
}

/// How much memory a process gained, and how much of it each of its outputs accounts for.
pub fn memory_gain(before_kb: u64, after_kb: u64, outputs: u64) -> (r: (u64, u64))
    requires
        outputs > 0,
    ensures
        r.0 == if after_kb >= before_kb {
            after_kb - before_kb
        } else {
            0
        },
        r.1 == r.0 as int / outputs as int,
{
    let gain: u64 = if after_kb >= before_kb {
        after_kb - before_kb
    } else {
        0
    };
    (gain, gain / outputs)
}

// ── Laws ─────────────────────────────────────────────────────────────────────

/// A number stands where it is counted from zero among the words of a text.
pub proof fn numbers_are_words_of_the_text(text: Seq<char>, at: int, n: nat)
    requires
        0 <= at < words_of(text).len(),
        words_of(text)[at] == decimal(n),
        n <= u64::MAX,
    ensures
        number_at(text, at) == Some(n as int),
{
    crate::number::parse_undoes_decimal(n, u64::MAX as int);
}

/// What follows a key is taken from the first line that begins with it, and there is nothing only
/// where no line does.
pub proof fn keys_are_found_on_the_first_line(all: Seq<Seq<char>>, key: Seq<char>, rest: Seq<char>, at: int)
    requires
        0 <= at <= all.len(),
        forall|i: int| 0 <= i < at ==> !starts(#[trigger] all[i], key),
        at < all.len() ==> all[at] == key + rest,
    ensures
        at < all.len() ==> after_key(all, key) == Some(rest),
        at == all.len() ==> after_key(all, key) is None,
    decreases at,
{
    if at == 0 {
        if all.len() > 0 {
            assert((key + rest).take(key.len() as int) =~= key);
            assert((key + rest).skip(key.len() as int) =~= rest);
        }
    } else {
        assert(!starts(all[0], key));
        assert forall|i: int| 0 <= i < at - 1 implies !starts(#[trigger] all.skip(1)[i], key) by {
            assert(all.skip(1)[i] == all[i + 1]);
        }
        keys_are_found_on_the_first_line(all.skip(1), key, rest, at - 1);
    }
}

/// A child counts exactly when its status names the parent and its command line names ffmpeg; the
/// memory of those that count is added up.
pub proof fn children_count_by_parent_and_command(p: FoundProcess, parent: u32, q: Seq<FoundProcess>)
    ensures
        is_ffmpeg_child(p, parent) <==> p.status is Some && parent_in(p.status->0@) == parent
            && contains(p.command_line@, "ffmpeg"@),
        held_together(q.push(p)) == held_together(q) + held_kb(p),
        p.status_again is None ==> held_kb(p) == 0,
        p.status_again is Some && keyed_number(p.status_again->0@, "VmRSS"@) is Some
            && keyed_number(p.status_again->0@, "VmRSS"@)->0 is Some ==> held_kb(p)
            == keyed_number(p.status_again->0@, "VmRSS"@)->0->0,
{
    assert(q.push(p).drop_last() =~= q);
}

/// A line of the listing counts exactly when it names ffmpeg and its standard output; its sixth word
/// is its memory, and those of the lines that count are added up.
pub proof fn listed_transcoders_are_counted(all: Seq<Seq<char>>, line: Seq<char>)
    ensures
        is_pipe_line(line) <==> contains(line, "ffmpeg"@) && contains(line, "pipe:1"@),
        is_pipe_line(line) ==> pipe_count(all.push(line)) == pipe_count(all) + 1 && pipe_kb(
            all.push(line),
        ) == pipe_kb(all) + line_kb(line),
        !is_pipe_line(line) ==> pipe_count(all.push(line)) == pipe_count(all) && pipe_kb(
            all.push(line),
        ) == pipe_kb(all),
        number_at(line, 5) matches Some(kb) ==> line_kb(line) == kb,
        number_at(line, 5) is None ==> line_kb(line) == 0,
{
    assert(all.push(line).drop_last() =~= all);
}

} // verus!
