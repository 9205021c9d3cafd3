//! Domain policy for ingest security limits and ban-window settings.
//!
//! The valid shape and the defaults of the settings; neither storage nor rate limiting itself.

use vstd::prelude::*;

verus! {

#[derive(Debug, Clone, Copy, PartialEq, Eq, Structural)]
pub struct IngestSecurityConfig {
    pub failure_limit: i64,
    pub failure_window_ms: i64,
    pub ban_ms: i64,
    pub tracked_ip_limit: i64,
}

pub const DEFAULT_FAILURE_LIMIT: i64 = 10;

pub const DEFAULT_FAILURE_WINDOW_MS: i64 = 60_000;

pub const DEFAULT_BAN_MS: i64 = 600_000;

pub const DEFAULT_TRACKED_IP_LIMIT: i64 = 10_000;

/// The settings of a server that was configured with none.
pub open spec fn default_settings() -> IngestSecurityConfig {
    IngestSecurityConfig {
        failure_limit: DEFAULT_FAILURE_LIMIT,
        failure_window_ms: DEFAULT_FAILURE_WINDOW_MS,
        ban_ms: DEFAULT_BAN_MS,
        tracked_ip_limit: DEFAULT_TRACKED_IP_LIMIT,
    }
}

/// `n`, but at least one.
pub open spec fn at_least_one(n: i64) -> i64 {
    if n < 1 {
        1
    } else {
        n
    }
}

fn raise_to_one(n: i64) -> (r: i64)
    ensures
        r == at_least_one(n),
{
    if n < 1 {
        1
    } else {
        n
    }
}

impl IngestSecurityConfig {
    /// Every setting is positive.
    pub open spec fn wf(&self) -> bool {
        self.failure_limit >= 1 && self.failure_window_ms >= 1 && self.ban_ms >= 1
            && self.tracked_ip_limit >= 1
    }

    /// The settings with each one raised to at least one.
    pub open spec fn normalized(&self) -> IngestSecurityConfig {
        IngestSecurityConfig {
            failure_limit: at_least_one(self.failure_limit),
            failure_window_ms: at_least_one(self.failure_window_ms),
            ban_ms: at_least_one(self.ban_ms),
            tracked_ip_limit: at_least_one(self.tracked_ip_limit),
        }
    }

    /// Why the settings are refused: the first one that is not positive.
    pub open spec fn refusal(&self) -> Option<Seq<char>> {
        if self.failure_limit < 1 {
            Some("ingestSecurity.failureLimit must be >= 1"@)
        } else if self.failure_window_ms < 1 {
            Some("ingestSecurity.failureWindowMs must be >= 1"@)
        } else if self.ban_ms < 1 {
            Some("ingestSecurity.banMs must be >= 1"@)
        } else if self.tracked_ip_limit < 1 {
            Some("ingestSecurity.trackedIpLimit must be >= 1"@)
        } else {
            None
        }
    }

    /// Raises each setting to at least one.
    pub fn normalize(&mut self)
        ensures
            *final(self) == old(self).normalized(),
    {
        self.failure_limit = raise_to_one(self.failure_limit);
        self.failure_window_ms = raise_to_one(self.failure_window_ms);
        self.ban_ms = raise_to_one(self.ban_ms);
        self.tracked_ip_limit = raise_to_one(self.tracked_ip_limit);
    }

    /// Refuses settings that are not positive, and says which one comes first.
    pub fn validate(&self) -> (r: Result<(), &'static str>)
        ensures
            match r {
                Ok(_) => self.refusal() is None,
                Err(message) => self.refusal() == Some(message@),
            },
    {
        if self.failure_limit < 1 {
            return Err("ingestSecurity.failureLimit must be >= 1");
        }
        if self.failure_window_ms < 1 {
            return Err("ingestSecurity.failureWindowMs must be >= 1");
        }
        if self.ban_ms < 1 {
            return Err("ingestSecurity.banMs must be >= 1");
        }
        if self.tracked_ip_limit < 1 {
            return Err("ingestSecurity.trackedIpLimit must be >= 1");
        }
        Ok(())
    }
}

impl Default for IngestSecurityConfig {
    fn default() -> (r: Self)
        ensures
            r == default_settings(),
    {
        IngestSecurityConfig {
            failure_limit: DEFAULT_FAILURE_LIMIT,
            failure_window_ms: DEFAULT_FAILURE_WINDOW_MS,
            ban_ms: DEFAULT_BAN_MS,
            tracked_ip_limit: DEFAULT_TRACKED_IP_LIMIT,
        }
    }
}

// ── Laws ─────────────────────────────────────────────────────────────────────

/// Settings are accepted exactly when each of them is positive.
pub proof fn accepted_iff_positive(config: IngestSecurityConfig)
    ensures
        config.refusal() is None <==> config.wf(),
{
}

/// Normalized settings are accepted.
pub proof fn normalized_is_accepted(config: IngestSecurityConfig)
    ensures
        config.normalized().refusal() is None,
{
}

/// Normalizing leaves accepted settings alone, and so does normalizing twice.
pub proof fn normalizing_keeps_accepted(config: IngestSecurityConfig)
    ensures
        config.refusal() is None ==> config.normalized() == config,
        config.normalized().normalized() == config.normalized(),
{
}

/// The defaults are accepted.
pub proof fn defaults_are_accepted()
    ensures
        default_settings().refusal() is None,
{
}

/// The defaults ban an address for ten minutes after ten failures within one, and watch ten thousand
/// addresses.
pub proof fn defaults_ban_for_ten_minutes()
    ensures
        default_settings().failure_limit == 10,
        default_settings().failure_window_ms == 60 * 1000,
        default_settings().ban_ms == 10 * 60 * 1000,
        default_settings().tracked_ip_limit == 10_000,
{
}

/// Normalizing raises what is below one to one, and leaves everything else; settings are refused for
/// the first that is below one.
pub proof fn settings_below_one_are_raised_or_refused(c: IngestSecurityConfig)
    ensures
        c.failure_limit <= 0 ==> c.normalized().failure_limit == 1 && c.refusal() == Some(
            "ingestSecurity.failureLimit must be >= 1"@,
        ),
        c.failure_limit >= 1 ==> c.normalized().failure_limit == c.failure_limit,
        c.failure_window_ms <= 0 ==> c.normalized().failure_window_ms == 1,
        c.failure_window_ms >= 1 ==> c.normalized().failure_window_ms == c.failure_window_ms,
        c.ban_ms <= 0 ==> c.normalized().ban_ms == 1,
        c.ban_ms >= 1 ==> c.normalized().ban_ms == c.ban_ms,
        c.tracked_ip_limit <= 0 ==> c.normalized().tracked_ip_limit == 1,
        c.tracked_ip_limit >= 1 ==> c.normalized().tracked_ip_limit == c.tracked_ip_limit,
        c.failure_limit >= 1 && c.failure_window_ms <= 0 ==> c.refusal() == Some(
            "ingestSecurity.failureWindowMs must be >= 1"@,
        ),
        c.failure_limit >= 1 && c.failure_window_ms >= 1 && c.ban_ms <= 0 ==> c.refusal() == Some(
            "ingestSecurity.banMs must be >= 1"@,
        ),
        c.failure_limit >= 1 && c.failure_window_ms >= 1 && c.ban_ms >= 1 && c.tracked_ip_limit <= 0
            ==> c.refusal() == Some("ingestSecurity.trackedIpLimit must be >= 1"@),
        c.failure_limit >= 1 && c.failure_window_ms >= 1 && c.ban_ms >= 1 && c.tracked_ip_limit >= 1
            ==> c.refusal() is None,
{
}

} // verus!
