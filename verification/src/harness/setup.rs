//! What the environment tells a run, and where its files go.

use vstd::prelude::*;
use vstd::string::*;

use crate::harness::crypto::HarnessSrtCrypto;
use crate::number::{parse_unsigned, parse_usize};
use crate::path::{join_path, joined_path};
use crate::runtime::setting;
use crate::text::text_option;

verus! {

/// The number that a variable holds; the default where it holds none that fits.
pub fn env_secs(value: &Option<String>, default: u64) -> (r: u64)
    ensures
        r == setting(text_option(*value), u64::MAX as int, default as int),
{
    match value {
        Some(text) => match parse_unsigned(text.as_str(), u64::MAX) {
            Some(n) => n,
            None => default,
        },
        None => default,
    }
}

/// The port that a variable holds; the default where it holds none.
pub fn env_u16(value: &Option<String>, default: u16) -> (r: u16)
    ensures
        r == setting(text_option(*value), u16::MAX as int, default as int),
{
    match value {
        Some(text) => match parse_unsigned(text.as_str(), 65_535) {
            Some(n) => n as u16,
            None => default,
        },
        None => default,
    }
}

/// The count that a variable holds; the default where it holds none.
pub fn env_usize(value: &Option<String>, default: usize) -> (r: usize)
    ensures
        r == setting(text_option(*value), usize::MAX as int, default as int),
{
    match value {
        Some(text) => match parse_usize(text.as_str()) {
            Some(n) => n,
            None => default,
        },
        None => default,
    }
}

/// A count that the environment may set, but not to zero.
pub fn env_count(value: &Option<String>, default: usize) -> (r: usize)
    ensures
        ({
            let n = setting(text_option(*value), usize::MAX as int, default as int);
            r == if n >= 1 {
                n
            } else {
                1
            }
        }),
{
    let n: usize = env_usize(value, default);
    if n >= 1 {
        n
    } else {
        1
    }
}

/// A path that the environment may give, else a file of a directory.
pub open spec fn path_or(value: Option<Seq<char>>, dir: Seq<char>, name: Seq<char>) -> Seq<char> {
    match value {
        Some(path) => path,
        None => joined_path(dir, name),
    }
}

/// A path that the environment may give, else a file of a directory.
pub fn env_path(value: &Option<String>, dir: &str, name: &str) -> (r: String)
    ensures
        r@ == path_or(text_option(*value), dir@, name@),
{
    match value {
        Some(path) => path.clone(),
        None => join_path(dir, name),
    }
}

/// The directory of a run: the one that `WORK_DIR` names, else the default.
pub fn work_dir(value: &Option<String>, default: &str) -> (r: String)
    ensures
        r@ == match text_option(*value) {
            Some(dir) => dir,
            None => default@,
        },
{
    match value {
        Some(dir) => dir.clone(),
        None => default.to_string(),
    }
}

// ── Sweeps ───────────────────────────────────────────────────────────────────

/// Where the files of a sweep go.
#[derive(Debug, Clone)]
pub struct SweepPaths {
    pub work_dir: String,
    pub summary_json: String,
    pub summary_csv: String,
    pub summary_md: String,
    pub samples_jsonl: String,
    pub restream_log: String,
    pub mediamtx_log: String,
    pub mediamtx_config: String,
    pub database: String,
}

/// Whether these are the files of a sweep of this name.
pub open spec fn are_sweep_paths(p: SweepPaths, dir: Seq<char>, stem: Seq<char>, db: Option<Seq<char>>) -> bool {
    &&& p.work_dir@ == dir
    &&& p.summary_json@ == joined_path(dir, stem + "-results.json"@)
    &&& p.summary_csv@ == joined_path(dir, stem + "-results.csv"@)
    &&& p.summary_md@ == joined_path(dir, stem + "-summary.md"@)
    &&& p.samples_jsonl@ == joined_path(dir, stem + "-samples.jsonl"@)
    &&& p.restream_log@ == joined_path(dir, "restream.log"@)
    &&& p.mediamtx_log@ == joined_path(dir, "mediamtx.log"@)
    &&& p.mediamtx_config@ == joined_path(dir, "mediamtx.yml"@)
    &&& p.database@ == path_or(db, dir, stem + ".db"@)
}

/// Where the files of a sweep go.
pub fn sweep_paths(dir: &str, stem: &str, db: &Option<String>) -> (r: SweepPaths)
    ensures
        are_sweep_paths(r, dir@, stem@, text_option(*db)),
{
    SweepPaths {
        work_dir: dir.to_string(),
        summary_json: join_path(dir, stem.to_string().concat("-results.json").as_str()),
        summary_csv: join_path(dir, stem.to_string().concat("-results.csv").as_str()),
        summary_md: join_path(dir, stem.to_string().concat("-summary.md").as_str()),
        samples_jsonl: join_path(dir, stem.to_string().concat("-samples.jsonl").as_str()),
        restream_log: join_path(dir, "restream.log"),
        mediamtx_log: join_path(dir, "mediamtx.log"),
        mediamtx_config: join_path(dir, "mediamtx.yml"),
        database: env_path(db, dir, stem.to_string().concat(".db").as_str()),
    }
}

/// Where the files of the variants of a branch matrix go: each in a directory of its own, with a
/// database of its own.
pub fn crypto_variant_paths(parent: &str, variants: &Vec<HarnessSrtCrypto>) -> (r: Vec<SweepPaths>)
    ensures
        r@.len() == variants@.len(),
        forall|i: int|
            0 <= i < r@.len() ==> are_sweep_paths(
                #[trigger] r@[i],
                joined_path(parent@, variants@[i].label@),
                "branch-matrix"@,
                None,
            ),
{
    let mut out: Vec<SweepPaths> = Vec::new();
    let mut i: usize = 0;
    while i < variants.len()
        invariant
            i <= variants@.len(),
            out@.len() == i,
            forall|k: int|
                0 <= k < i ==> are_sweep_paths(
                    #[trigger] out@[k],
                    joined_path(parent@, variants@[k].label@),
                    "branch-matrix"@,
                    None,
                ),
        decreases variants@.len() - i,
    {
        let dir: String = join_path(parent, variants[i].label.as_str());
        out.push(sweep_paths(dir.as_str(), "branch-matrix", &None));
        i += 1;
    }
    out
}

// ── Ramps and mixed runs ─────────────────────────────────────────────────────

/// What the environment says of the files of a ramp or a mixed run.
#[derive(Debug, Clone)]
pub struct RunPathEnv {
    pub scale_log: Option<String>,
    pub rss_summary: Option<String>,
    pub summary_log: Option<String>,
    pub restream_log: Option<String>,
    pub mediamtx_log: Option<String>,
    pub mediamtx_config: Option<String>,
    pub database: Option<String>,
    pub assertion_log: Option<String>,
}

/// Where the files of a ramp or a mixed run go.
#[derive(Debug, Clone)]
pub struct RunPaths {
    pub scale_log: String,
    pub rss_summary: String,
    pub summary_log: String,
    pub restream_log: String,
    pub mediamtx_log: String,
    pub mediamtx_config: String,
    pub database: String,
    pub assertion_log: Option<String>,
}

/// A text that is not empty.
pub open spec fn unless_empty(value: Option<Seq<char>>) -> Option<Seq<char>> {
    match value {
        Some(text) => if text.len() == 0 {
            None
        } else {
            Some(text)
        },
        None => None,
    }
}

fn kept_unless_empty(value: &Option<String>) -> (r: Option<String>)
    ensures
        text_option(r) == unless_empty(text_option(*value)),
{
    match value {
        Some(text) => if text.as_str().is_empty() {
            None
        } else {
            Some(text.clone())
        },
        None => None,
    }
}

/// Where the files of a run go, whose logs begin with `prefix` and whose database has the given
/// name.
pub fn run_paths(env: &RunPathEnv, dir: &str, prefix: &str, database: &str) -> (r: RunPaths)
    ensures
        r.scale_log@ == path_or(text_option(env.scale_log), dir@, "scale.csv"@),
        r.rss_summary@ == path_or(text_option(env.rss_summary), dir@, "rss-summary.csv"@),
        r.summary_log@ == path_or(text_option(env.summary_log), dir@, "summary.txt"@),
        r.restream_log@ == path_or(
            text_option(env.restream_log),
            dir@,
            prefix@ + "restream.log"@,
        ),
        r.mediamtx_log@ == path_or(
            text_option(env.mediamtx_log),
            dir@,
            prefix@ + "mediamtx.log"@,
        ),
        r.mediamtx_config@ == path_or(
            text_option(env.mediamtx_config),
            dir@,
            prefix@ + "mediamtx.yml"@,
        ),
        r.database@ == path_or(text_option(env.database), dir@, database@),
        text_option(r.assertion_log) == unless_empty(text_option(env.assertion_log)),
{
    RunPaths {
        scale_log: env_path(&env.scale_log, dir, "scale.csv"),
        rss_summary: env_path(&env.rss_summary, dir, "rss-summary.csv"),
        summary_log: env_path(&env.summary_log, dir, "summary.txt"),
        restream_log: env_path(
            &env.restream_log,
            dir,
            prefix.to_string().concat("restream.log").as_str(),
        ),
        mediamtx_log: env_path(
            &env.mediamtx_log,
            dir,
            prefix.to_string().concat("mediamtx.log").as_str(),
        ),
        mediamtx_config: env_path(
            &env.mediamtx_config,
            dir,
            prefix.to_string().concat("mediamtx.yml").as_str(),
        ),
        database: env_path(&env.database, dir, database),
        assertion_log: kept_unless_empty(&env.assertion_log),
    }
}

/// The variables by which a server is told the secret of its SRT ingest; without one they are
/// taken away.
#[derive(Debug, Clone)]
pub struct ListenerVars {
    pub passphrase: Option<String>,
    pub pbkeylen: Option<String>,
}

/// The variables by which a server is told the secret of its SRT ingest: the length of the key only
/// goes with a passphrase.
pub fn srt_listener_vars(crypto: &HarnessSrtCrypto) -> (r: ListenerVars)
    ensures
        text_option(r.passphrase) == crypto@.passphrase,
        text_option(r.pbkeylen) == if crypto@.passphrase is Some {
            crypto@.pbkeylen
        } else {
            None
        },
{
    match &crypto.passphrase {
        Some(p) => ListenerVars {
            passphrase: Some(p.clone()),
            pbkeylen: crate::text::copy_option(&crypto.pbkeylen),
        },
        None => ListenerVars { passphrase: None, pbkeylen: None },
    }
}

// ── Laws ─────────────────────────────────────────────────────────────────────

/// A variable that holds a decimal number is read as that number.
pub proof fn decimal_variables_are_read(n: nat, max: int, default: int)
    requires
        n <= max,
    ensures
        setting(Some(crate::number::decimal(n)), max, default) == n,
{
    crate::number::parse_undoes_decimal(n, max);
}

} // verus!
