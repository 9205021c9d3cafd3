//! Server settings: ports, tuning, flags, and the ids of output attempts.
//!
//! Settings come as the texts of environment variables. A variable that is not set, or that does
//! not write a number of its type, leaves the default in force.

use vstd::prelude::*;
use vstd::string::*;

use crate::number::{
    decimal, decimal_reads_back, decimal_text, digits_value, is_digit, is_digits, parse_i64,
    parse_unsigned, parsed, parsed_signed,
};
use crate::text::{ascii_lower, same_text, starts, text_option, to_ascii_lower, trim, trimmed};

verus! {

/// The number that a variable writes, or `default`.
pub open spec fn setting(value: Option<Seq<char>>, max: int, default: int) -> int {
    match value {
        Some(text) => match parsed(text, max) {
            Some(n) => n,
            None => default,
        },
        None => default,
    }
}

/// `n`, but at least `low`.
pub open spec fn at_least(n: int, low: int) -> int {
    if n < low {
        low
    } else {
        n
    }
}

/// The number that a variable writes where it is at most `max`, or `default`.
pub fn env_u64(value: &Option<String>, max: u64, default: u64) -> (r: u64)
    requires
        default <= max,
    ensures
        r == setting(text_option(*value), max as int, default as int),
        r <= max,
{
    match value {
        Some(text) => match parse_unsigned(text.as_str(), max) {
            Some(n) => n,
            None => default,
        },
        None => default,
    }
}

fn raise(n: u64, low: u64) -> (r: u64)
    ensures
        r == at_least(n as int, low as int),
{
    if n < low {
        low
    } else {
        n
    }
}

/// Whether a flag is set: to `1`, `true`, `yes` or `on`, in any case and with white space around.
pub open spec fn flag_enabled(value: Option<Seq<char>>) -> bool {
    match value {
        Some(text) => {
            let t = ascii_lower(trimmed(text));
            t == "1"@ || t == "true"@ || t == "yes"@ || t == "on"@
        },
        None => false,
    }
}

/// Whether a flag is set.
pub fn env_flag_enabled(value: &Option<String>) -> (r: bool)
    ensures
        r == flag_enabled(text_option(*value)),
{
    match value {
        Some(text) => {
            let t: String = to_ascii_lower(trim(text.as_str()).as_str());
            same_text(t.as_str(), "1") || same_text(t.as_str(), "true") || same_text(
                t.as_str(),
                "yes",
            ) || same_text(t.as_str(), "on")
        },
        None => false,
    }
}

// ── Ports ────────────────────────────────────────────────────────────────────

#[derive(Debug, Clone, Copy, PartialEq, Eq, Structural)]
pub struct ServerPorts {
    pub http: u16,
    pub rtmp: u16,
    pub srt: u16,
}

/// The variables that set the ports.
#[derive(Debug, Clone)]
pub struct PortEnv {
    /// `RESTREAM_HTTP_PORT`
    pub http: Option<String>,
    /// `RESTREAM_RTMP_PORT`
    pub rtmp: Option<String>,
    /// `RESTREAM_SRT_PORT`
    pub srt: Option<String>,
}

impl ServerPorts {
    pub fn from_env(env: &PortEnv) -> (r: Self)
        ensures
            r.http == setting(text_option(env.http), u16::MAX as int, 3030),
            r.rtmp == setting(text_option(env.rtmp), u16::MAX as int, 1935),
            r.srt == setting(text_option(env.srt), u16::MAX as int, 10080),
    {
        ServerPorts {
            http: env_u64(&env.http, 65535, 3030) as u16,
            rtmp: env_u64(&env.rtmp, 65535, 1935) as u16,
            srt: env_u64(&env.srt, 65535, 10080) as u16,
        }
    }
}

/// The URL of the database: the file that `RESTREAM_DB_PATH` names, else `data.db`.
pub fn database_url(db_path: &Option<String>) -> (r: String)
    ensures
        r@ == match text_option(*db_path) {
            Some(path) => "sqlite:"@ + path + "?mode=rwc"@,
            None => "sqlite:data.db?mode=rwc"@,
        },
{
    match db_path {
        Some(path) => {
            let mut out: String = "sqlite:".to_string();
            out.append(path.as_str());
            out.append("?mode=rwc");
            out
        },
        None => "sqlite:data.db?mode=rwc".to_string(),
    }
}

/// The address that the web server listens on.
pub fn http_address(port: u16) -> (r: String)
    ensures
        r@ == "0.0.0.0:"@ + decimal(port as nat),
{
    let mut out: String = "0.0.0.0:".to_string();
    out.append(decimal_text(port as u64).as_str());
    out
}

/// How many days of log are kept: as `RESTREAM_LOG_RETENTION_DAYS` says, else seven.
pub fn log_retention_days(value: &Option<String>) -> (r: i64)
    ensures
        r == match text_option(*value) {
            Some(text) => match parsed_signed(text, i64::MIN as int, i64::MAX as int) {
                Some(n) => n,
                None => 7,
            },
            None => 7,
        },
{
    match value {
        Some(text) => match parse_i64(text.as_str()) {
            Some(n) => n,
            None => 7,
        },
        None => 7,
    }
}

// ── Tuning ───────────────────────────────────────────────────────────────────

/// The milliseconds of an hour.
pub const HOUR_MS: u64 = 3_600_000;

#[derive(Debug, Clone, Copy, PartialEq, Eq, Structural)]
pub struct RuntimeTuning {
    pub nofile_limit: u64,
    pub reconciler_interval_ms: u64,
    pub ingest_disconnect_grace_ms: u64,
    pub output_max_retries: u32,
    pub output_retry_base_ms: u64,
    pub output_retry_max_ms: u64,
    pub hls_idle_timeout_ms: u64,
}

/// The variables that set the tuning.
#[derive(Debug, Clone)]
pub struct TuningEnv {
    /// `RESTREAM_NOFILE_LIMIT`
    pub nofile_limit: Option<String>,
    /// `RESTREAM_RECONCILE_INTERVAL_MS`
    pub reconciler_interval_ms: Option<String>,
    /// `RESTREAM_INGEST_DISCONNECT_GRACE_MS`
    pub ingest_disconnect_grace_ms: Option<String>,
    /// `RESTREAM_OUTPUT_MAX_RETRIES`
    pub output_max_retries: Option<String>,
    /// `RESTREAM_OUTPUT_RETRY_BASE_MS`
    pub output_retry_base_ms: Option<String>,
    /// `RESTREAM_OUTPUT_RETRY_MAX_MS`
    pub output_retry_max_ms: Option<String>,
    /// `RESTREAM_HLS_IDLE_TIMEOUT_MS`
    pub hls_idle_timeout_ms: Option<String>,
}

/// How often a failed output is tried again, and how long it waits.
#[derive(Debug, Clone, Copy, PartialEq, Eq, Structural)]
pub struct OutputRetryPolicy {
    pub max_retries: u32,
    pub base_ms: u64,
    pub max_ms: u64,
}

/// `base * 2^n`.
pub open spec fn doubled(base: int, n: nat) -> int
    decreases n,
{
    if n == 0 {
        base
    } else {
        2 * doubled(base, (n - 1) as nat)
    }
}

impl OutputRetryPolicy {
    /// The wait before a retry: the base, doubled with each retry, up to the maximum.
    pub open spec fn backoff(self, retries: nat) -> int {
        if doubled(self.base_ms as int, retries) > self.max_ms {
            self.max_ms as int
        } else {
            doubled(self.base_ms as int, retries)
        }
    }

    /// The wait before a retry.
    pub fn backoff_ms(&self, retries: u32) -> (r: u64)
        ensures
            r == self.backoff(retries as nat),
    {
        if self.base_ms == 0 {
            proof {
                lemma_doubled_zero(retries as nat);
            }
            return 0;
        }
        let mut wait: u64 = self.base_ms;
        let mut i: u32 = 0;
        while i < retries && wait <= self.max_ms / 2
            invariant
                self.base_ms > 0,
                i <= retries,
                wait == doubled(self.base_ms as int, i as nat),
                wait >= 1,
            decreases retries - i,
        {
            wait = wait * 2;
            i += 1;
        }
        proof {
            lemma_doubled_grows(self.base_ms as int, i as nat, retries as nat);
            if i < retries {
                lemma_doubled_grows(self.base_ms as int, (i + 1) as nat, retries as nat);
            }
        }
        if i < retries || wait > self.max_ms {
            self.max_ms
        } else {
            wait
        }
    }
}

proof fn lemma_doubled_zero(n: nat)
    ensures
        doubled(0, n) == 0,
    decreases n,
{
    if n > 0 {
        lemma_doubled_zero((n - 1) as nat);
    }
}

proof fn lemma_doubled_grows(base: int, i: nat, j: nat)
    requires
        base >= 0,
        i <= j,
    ensures
        0 <= doubled(base, i) <= doubled(base, j),
    decreases j,
{
    if j == 0 {
    } else if i == j {
        lemma_doubled_grows(base, (i - 1) as nat, (j - 1) as nat);
    } else {
        lemma_doubled_grows(base, i, (j - 1) as nat);
    }
}

impl Default for RuntimeTuning {
    fn default() -> (r: Self)
        ensures
            r == default_tuning(),
    {
        RuntimeTuning {
            nofile_limit: 65_536,
            reconciler_interval_ms: 1_000,
            ingest_disconnect_grace_ms: 5_000,
            output_max_retries: 10,
            output_retry_base_ms: 5_000,
            output_retry_max_ms: 300_000,
            hls_idle_timeout_ms: 60_000,
        }
    }
}

/// The tuning of a server whose environment sets none.
pub open spec fn default_tuning() -> RuntimeTuning {
    RuntimeTuning {
        nofile_limit: 65_536,
        reconciler_interval_ms: 1_000,
        ingest_disconnect_grace_ms: 5_000,
        output_max_retries: 10,
        output_retry_base_ms: 5_000,
        output_retry_max_ms: 300_000,
        hls_idle_timeout_ms: 60_000,
    }
}

/// How many reconciler ticks of `interval_ms` make up an hour, rounded up.
pub open spec fn ticks_per_hour(interval_ms: int) -> int {
    (HOUR_MS + interval_ms - 1) / interval_ms
}

impl RuntimeTuning {
    /// The limits that settings from the environment keep.
    pub open spec fn wf(self) -> bool {
        self.nofile_limit >= 1 && self.reconciler_interval_ms >= 100 && self.output_retry_base_ms
            >= 1 && self.output_retry_max_ms >= 1 && self.hls_idle_timeout_ms >= 1
    }

    pub fn from_env(env: &TuningEnv) -> (r: Self)
        ensures
            r.nofile_limit == at_least(
                setting(text_option(env.nofile_limit), u64::MAX as int, 65_536),
                1,
            ),
            r.reconciler_interval_ms == at_least(
                setting(text_option(env.reconciler_interval_ms), u64::MAX as int, 1_000),
                100,
            ),
            r.ingest_disconnect_grace_ms == setting(
                text_option(env.ingest_disconnect_grace_ms),
                u64::MAX as int,
                5_000,
            ),
            r.output_max_retries == setting(
                text_option(env.output_max_retries),
                u32::MAX as int,
                10,
            ),
            r.output_retry_base_ms == at_least(
                setting(text_option(env.output_retry_base_ms), u64::MAX as int, 5_000),
                1,
            ),
            r.output_retry_max_ms == at_least(
                setting(text_option(env.output_retry_max_ms), u64::MAX as int, 300_000),
                1,
            ),
            r.hls_idle_timeout_ms == at_least(
                setting(text_option(env.hls_idle_timeout_ms), u64::MAX as int, 60_000),
                1,
            ),
            r.wf(),
    {
        let defaults: RuntimeTuning = RuntimeTuning::default();
        let any: u64 = u64::MAX;
        RuntimeTuning {
            nofile_limit: raise(env_u64(&env.nofile_limit, any, defaults.nofile_limit), 1),
            reconciler_interval_ms: raise(
                env_u64(&env.reconciler_interval_ms, any, defaults.reconciler_interval_ms),
                100,
            ),
            ingest_disconnect_grace_ms: env_u64(
                &env.ingest_disconnect_grace_ms,
                any,
                defaults.ingest_disconnect_grace_ms,
            ),
            output_max_retries: env_u64(
                &env.output_max_retries,
                u32::MAX as u64,
                defaults.output_max_retries as u64,
            ) as u32,
            output_retry_base_ms: raise(
                env_u64(&env.output_retry_base_ms, any, defaults.output_retry_base_ms),
                1,
            ),
            output_retry_max_ms: raise(
                env_u64(&env.output_retry_max_ms, any, defaults.output_retry_max_ms),
                1,
            ),
            hls_idle_timeout_ms: raise(
                env_u64(&env.hls_idle_timeout_ms, any, defaults.hls_idle_timeout_ms),
                1,
            ),
        }
    }

    /// After how many ticks sessions are pruned: about once an hour, whatever the interval.
    pub fn session_prune_every_ticks(&self) -> (r: u64)
        requires
            self.reconciler_interval_ms >= 1,
        ensures
            r == ticks_per_hour(self.reconciler_interval_ms as int),
            r >= 1,
    {
        let n: u64 = self.reconciler_interval_ms;
        let whole: u64 = HOUR_MS / n;
        let rest: u64 = HOUR_MS % n;
        proof {
            lemma_ceiling(HOUR_MS as int, n as int);
        }
        if rest == 0 {
            whole
        } else {
            whole + 1
        }
    }

    /// The wait before a retry.
    pub fn output_backoff_ms(&self, retries: u32) -> (r: u64)
        ensures
            r == self.retry_policy().backoff(retries as nat),
    {
        self.output_retry_policy().backoff_ms(retries)
    }

    /// The retry policy that the tuning sets.
    pub open spec fn retry_policy(self) -> OutputRetryPolicy {
        OutputRetryPolicy {
            max_retries: self.output_max_retries,
            base_ms: self.output_retry_base_ms,
            max_ms: self.output_retry_max_ms,
        }
    }

    pub fn output_retry_policy(&self) -> (r: OutputRetryPolicy)
        ensures
            r == self.retry_policy(),
    {
        OutputRetryPolicy {
            max_retries: self.output_max_retries,
            base_ms: self.output_retry_base_ms,
            max_ms: self.output_retry_max_ms,
        }
    }
}

proof fn lemma_ceiling(a: int, n: int)
    requires
        a >= 1,
        n >= 1,
    ensures
        (a + n - 1) / n == a / n + (if a % n == 0 {
            0int
        } else {
            1int
        }),
        (a + n - 1) / n >= 1,
{
    let q = a / n;
    let m = a % n;
    vstd::arithmetic::div_mod::lemma_fundamental_div_mod(a, n);
    vstd::arithmetic::div_mod::lemma_mod_bound(a, n);
    vstd::arithmetic::mul::lemma_mul_is_commutative(n, q);
    if m == 0 {
        vstd::arithmetic::div_mod::lemma_fundamental_div_mod_converse(a + n - 1, n, q, n - 1);
        assert(q >= 1) by (nonlinear_arith)
            requires
                a == q * n,
                a >= 1,
                n >= 1,
        ;
    } else {
        assert(a + n - 1 == (q + 1) * n + (m - 1)) by (nonlinear_arith)
            requires
                a == q * n + m,
        ;
        vstd::arithmetic::div_mod::lemma_fundamental_div_mod_converse(a + n - 1, n, q + 1, m - 1);
        vstd::arithmetic::div_mod::lemma_div_pos_is_pos(a, n);
    }
}

// ── Attempt ids ──────────────────────────────────────────────────────────────

/// `n` in decimal, with zeros in front up to four digits.
pub open spec fn padded(n: nat) -> Seq<char> {
    if n < 10 {
        "000"@ + decimal(n)
    } else if n < 100 {
        "00"@ + decimal(n)
    } else if n < 1000 {
        "0"@ + decimal(n)
    } else {
        decimal(n)
    }
}

fn padded_text(n: u64) -> (r: String)
    ensures
        r@ == padded(n as nat),
{
    let mut out: String = if n < 10 {
        "000".to_string()
    } else if n < 100 {
        "00".to_string()
    } else if n < 1000 {
        "0".to_string()
    } else {
        "".to_string()
    };
    out.append(decimal_text(n).as_str());
    proof {
        reveal_strlit("");
        assert(""@ =~= Seq::<char>::empty());
        assert(""@ + decimal(n as nat) =~= decimal(n as nat));
    }
    out
}

/// How many numbers there are for ids; after the last one they begin anew.
pub open spec fn id_numbers() -> nat {
    0x1_0000_0000_0000_0000
}

/// The number that comes so many ids after another.
pub open spec fn number_after(n: nat, ids: nat) -> nat {
    (n + ids) % id_numbers()
}

/// The source of correlation ids: the ids that it gives out are numbered from one on.
pub struct CorrelationIds {
    /// How many ids were given out.
    given: u64,
}

/// A correlation id.
pub open spec fn correlation_id(prefix: Seq<char>, n: nat) -> Seq<char> {
    prefix + "-"@ + padded(n)
}

/// The id of the job of an attempt.
pub open spec fn job_id(output_id: Seq<char>, n: nat) -> Seq<char> {
    "job_"@ + output_id + "_"@ + correlation_id("attempt"@, n)
}

impl CorrelationIds {
    /// The number of the next id.
    pub closed spec fn upcoming(self) -> nat {
        number_after(self.given as nat, 1)
    }

    pub fn new() -> (r: Self)
        ensures
            r.upcoming() == 1,
    {
        CorrelationIds { given: 0 }
    }

    /// The next id with the given prefix.
    pub fn next_correlation_id(&mut self, prefix: &str) -> (r: String)
        ensures
            r@ == correlation_id(prefix@, old(self).upcoming()),
            final(self).upcoming() == number_after(old(self).upcoming(), 1),
    {
        let n: u64 = self.given.wrapping_add(1);
        self.given = n;
        let mut out: String = prefix.to_string();
        out.append("-");
        out.append(padded_text(n).as_str());
        out
    }
}

/// The id of the job of the next attempt of an output.
pub fn next_output_job_id(ids: &mut CorrelationIds, output_id: &str) -> (r: String)
    ensures
        r@ == job_id(output_id@, old(ids).upcoming()),
        starts(r@, "job_"@ + output_id@ + "_"@),
        final(ids).upcoming() == number_after(old(ids).upcoming(), 1),
{
    let mut out: String = "job_".to_string();
    out.append(output_id);
    out.append("_");
    let ghost head = out@;
    let id: String = ids.next_correlation_id("attempt");
    out.append(id.as_str());
    assert(out@.take(head.len() as int) =~= head);
    out
}

// ── Laws ─────────────────────────────────────────────────────────────────────

/// A wait is never longer than the maximum, never shorter than that of an earlier retry, and at
/// least the base where the maximum allows it.
pub proof fn backoff_is_bounded_and_monotone(policy: OutputRetryPolicy, i: nat, j: nat)
    requires
        i <= j,
    ensures
        0 <= policy.backoff(i) <= policy.backoff(j) <= policy.max_ms,
        policy.backoff(i) >= policy.base_ms || policy.backoff(i) == policy.max_ms,
{
    lemma_doubled_grows(policy.base_ms as int, i, j);
    lemma_doubled_grows(policy.base_ms as int, 0, i);
}

/// Until the maximum is reached, each retry waits twice as long as the one before.
pub proof fn backoff_doubles(policy: OutputRetryPolicy, i: nat)
    ensures
        2 * policy.backoff(i) <= policy.max_ms ==> policy.backoff(i + 1) == 2 * policy.backoff(i),
{
    lemma_doubled_grows(policy.base_ms as int, 0, i);
}

/// Sessions are pruned at least once in the time of an hour and one interval, and not sooner than
/// an hour has passed.
pub proof fn prune_cadence_covers_an_hour(interval_ms: int)
    requires
        interval_ms >= 1,
    ensures
        HOUR_MS <= ticks_per_hour(interval_ms) * interval_ms < HOUR_MS + interval_ms,
{
    let t = ticks_per_hour(interval_ms);
    let x = HOUR_MS + interval_ms - 1;
    vstd::arithmetic::div_mod::lemma_fundamental_div_mod(x, interval_ms);
    vstd::arithmetic::div_mod::lemma_mod_bound(x, interval_ms);
    vstd::arithmetic::mul::lemma_mul_is_commutative(interval_ms, t);
}

/// Padded numbers read back, so that different numbers are written differently.
pub proof fn padded_is_injective(a: nat, b: nat)
    requires
        padded(a) == padded(b),
    ensures
        a == b,
{
    lemma_padded_value(a);
    lemma_padded_value(b);
}

proof fn lemma_padded_value(n: nat)
    ensures
        digits_value(padded(n)) == n,
{
    decimal_reads_back(n);
    reveal_strlit("0");
    reveal_strlit("00");
    reveal_strlit("000");
    assert("0"@ =~= seq!['0']);
    assert("00"@ =~= seq!['0', '0']);
    assert("000"@ =~= seq!['0', '0', '0']);
    let d = decimal(n);
    lemma_leading_zero(d);
    lemma_leading_zero(seq!['0'] + d);
    lemma_leading_zero(seq!['0'] + (seq!['0'] + d));
    assert("0"@ + d =~= seq!['0'] + d);
    assert("00"@ + d =~= seq!['0'] + (seq!['0'] + d));
    assert("000"@ + d =~= seq!['0'] + (seq!['0'] + (seq!['0'] + d)));
}

proof fn lemma_leading_zero(d: Seq<char>)
    ensures
        digits_value(seq!['0'] + d) == digits_value(d),
    decreases d.len(),
{
    let z = seq!['0'] + d;
    if d.len() == 0 {
        assert(z.drop_last() =~= Seq::<char>::empty());
        assert(digits_value(Seq::<char>::empty()) == 0);
        assert(z.last() == '0');
        assert(d =~= Seq::<char>::empty());
    } else {
        lemma_leading_zero(d.drop_last());
        assert(z.drop_last() =~= seq!['0'] + d.drop_last());
        assert(z.last() == d.last());
    }
}

/// Going on by some ids and then by some more is going on by all of them.
pub proof fn numbers_go_on(n: nat, a: nat, b: nat)
    ensures
        number_after(number_after(n, a), b) == number_after(n, a + b),
{
    vstd::arithmetic::div_mod::lemma_add_mod_noop_right(
        b as int,
        (n + a) as int,
        id_numbers() as int,
    );
}

/// The job ids of two attempts of an output that follow each other differ, always.
pub proof fn job_ids_in_a_row_differ(output_id: Seq<char>, ids: CorrelationIds)
    ensures
        job_id(output_id, ids.upcoming()) != job_id(output_id, number_after(ids.upcoming(), 1)),
{
    later_job_ids_are_new(output_id, ids, 1);
}

/// The job ids of two attempts of an output differ, whatever was asked in between, until the numbers
/// begin anew.
pub proof fn later_job_ids_are_new(output_id: Seq<char>, ids: CorrelationIds, given_since: nat)
    requires
        0 < given_since < id_numbers(),
    ensures
        job_id(output_id, ids.upcoming()) != job_id(
            output_id,
            number_after(ids.upcoming(), given_since),
        ),
{
    job_ids_are_unique(output_id, ids.upcoming(), number_after(ids.upcoming(), given_since));
}

/// Two attempts of one output never share a job id.
pub proof fn job_ids_are_unique(output_id: Seq<char>, a: nat, b: nat)
    requires
        a != b,
    ensures
        job_id(output_id, a) != job_id(output_id, b),
{
    if job_id(output_id, a) == job_id(output_id, b) {
        let head = "job_"@ + output_id + "_"@ + "attempt"@ + "-"@;
        let (x, y) = (job_id(output_id, a), job_id(output_id, b));
        assert(x =~= head + padded(a));
        assert(y =~= head + padded(b));
        assert(x.skip(head.len() as int) =~= padded(a));
        assert(y.skip(head.len() as int) =~= padded(b));
        padded_is_injective(a, b);
    }
}

/// The wait before the first try is the base, and each retry waits twice as long as the one before
/// it; but none waits longer than the maximum.
pub proof fn backoff_doubles_up_to_the_maximum(policy: OutputRetryPolicy, i: nat)
    ensures
        policy.backoff(0) == (if policy.base_ms <= policy.max_ms {
            policy.base_ms
        } else {
            policy.max_ms
        }),
        policy.backoff(i + 1) == (if 2 * policy.backoff(i) <= policy.max_ms {
            2 * policy.backoff(i)
        } else {
            policy.max_ms as int
        }),
{
    lemma_doubled_grows(policy.base_ms as int, 0, i);
    lemma_doubled_grows(policy.base_ms as int, i, i + 1);
}

/// A variable that writes a number in decimal sets it, as long as it is within the limit; one that
/// is not set, or writes a greater number or none, leaves the default.
pub proof fn variables_set_what_they_write(n: nat, max: int, default: int, other: Seq<char>)
    ensures
        n <= max ==> setting(Some(decimal(n)), max, default) == n,
        n > max ==> setting(Some(decimal(n)), max, default) == default,
        setting(None, max, default) == default,
        (exists|i: int| 0 <= i < other.len() && !is_digit(#[trigger] other[i]) && other[i] != '+')
            ==> setting(Some(other), max, default) == default,
        setting(Some(Seq::<char>::empty()), max, default) == default,
{
    decimal_reads_back(n);
    assert(is_digit(decimal(n)[0]));
    if exists|i: int| 0 <= i < other.len() && !is_digit(#[trigger] other[i]) && other[i] != '+' {
        let i = choose|i: int|
            0 <= i < other.len() && !is_digit(#[trigger] other[i]) && other[i] != '+';
        if other[0] == '+' {
            assert(other.skip(1)[i - 1] == other[i]);
        }
    }
}

/// A flag is set by `1`, `true`, `yes` and `on`, whatever stands around them in white space and
/// whatever the case of their letters, and by nothing else.
pub proof fn flags_are_set_by_four_words(value: Seq<char>)
    ensures
        flag_enabled(Some(value)) <==> ascii_lower(trimmed(value)) == "1"@ || ascii_lower(
            trimmed(value),
        ) == "true"@ || ascii_lower(trimmed(value)) == "yes"@ || ascii_lower(trimmed(value))
            == "on"@,
        !flag_enabled(None),
{
}

/// An id is written with at least four digits: its prefix, a hyphen, and the number, with zeros in
/// front of a short one.
pub proof fn ids_end_in_their_number(prefix: Seq<char>, n: nat)
    ensures
        ({
            let id = correlation_id(prefix, n);
            let digits = id.skip((prefix.len() + 1) as int);
            &&& id.len() >= prefix.len() + 5
            &&& id.take(prefix.len() as int) == prefix
            &&& id[prefix.len() as int] == '-'
            &&& is_digits(digits) && digits_value(digits) == n
        }),
{
    reveal_strlit("-");
    reveal_strlit("0");
    reveal_strlit("00");
    reveal_strlit("000");
    lemma_padded_value(n);
    decimal_reads_back(n);
    let id = correlation_id(prefix, n);
    assert(id.take(prefix.len() as int) =~= prefix);
    assert(id.skip((prefix.len() + 1) as int) =~= padded(n));
    lemma_decimal_length(n);
    assert forall|i: int| 0 <= i < padded(n).len() implies is_digit(#[trigger] padded(n)[i]) by {
        let k = padded(n).len() - decimal(n).len();
        if i >= k {
            assert(padded(n)[i] == decimal(n)[i - k]);
        }
    }
}

proof fn lemma_decimal_length(n: nat)
    ensures
        decimal(n).len() >= 1,
        n >= 10 ==> decimal(n).len() >= 2,
        n >= 100 ==> decimal(n).len() >= 3,
        n >= 1000 ==> decimal(n).len() >= 4,
{
    reveal_with_fuel(decimal, 4);
}

/// Without variables a server looks every second, waits five seconds for a publisher to come back,
/// tries an output ten times, from five seconds to five minutes apart, and keeps an idle preview for
/// a minute.
pub proof fn defaults_are_in_seconds_and_minutes()
    ensures
        default_tuning().nofile_limit == 65_536,
        default_tuning().reconciler_interval_ms == 1_000,
        default_tuning().ingest_disconnect_grace_ms == 5 * 1_000,
        default_tuning().output_max_retries == 10,
        default_tuning().retry_policy().backoff(0) == 5 * 1_000,
        default_tuning().retry_policy().backoff(1) == 10 * 1_000,
        forall|n: nat| #[trigger] default_tuning().retry_policy().backoff(n) <= 5 * 60 * 1_000,
        default_tuning().hls_idle_timeout_ms == 60 * 1_000,
        default_tuning().wf(),
{
    let p = default_tuning().retry_policy();
    backoff_doubles_up_to_the_maximum(p, 0);
    assert forall|n: nat| #[trigger] p.backoff(n) <= 5 * 60 * 1_000 by {
        backoff_is_bounded_and_monotone(p, n, n);
    }
}

/// The policy of retries is what the tuning says of it.
pub proof fn policy_is_that_of_the_tuning(t: RuntimeTuning)
    ensures
        t.retry_policy().max_retries == t.output_max_retries,
        t.retry_policy().base_ms == t.output_retry_base_ms,
        t.retry_policy().max_ms == t.output_retry_max_ms,
        at_least(t.output_retry_base_ms as int, 1) >= 1,
        t.output_retry_base_ms >= 1 ==> at_least(t.output_retry_base_ms as int, 1)
            == t.output_retry_base_ms,
{
}

} // verus!
