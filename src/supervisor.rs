//! The supervisor's decisions: how long to wait before reconnecting a failed
//! session or retrying a failed credential, and when to re-validate it.

use vstd::prelude::*;

verus! {

/// The longest wait between two attempts.
pub const BACKOFF_CAP_SECS: u64 = 60;

/// A session that stayed up this long ends the run of failures before it.
pub const HEALTHY_SECS: u64 = 300;

/// The credential is re-validated this often, whatever the socket does.
pub const VALIDATE_EVERY_SECS: i64 = 3600;

/// From this many credential failures in a row on, the failure is persistent.
pub const AUTH_ALERT_AFTER: u32 = 3;

pub open spec fn pow2(n: nat) -> nat
    decreases n,
{
    if n == 0 {
        1
    } else {
        2 * pow2((n - 1) as nat)
    }
}

/// The wait after `failures` failures in a row: 1 s, 2 s, 4 s, ... up to the cap.
pub open spec fn backoff_delay(failures: nat) -> nat {
    if pow2(failures) < BACKOFF_CAP_SECS {
        pow2(failures)
    } else {
        BACKOFF_CAP_SECS as nat
    }
}

proof fn lemma_pow2_grows(a: nat, b: nat)
    requires
        a <= b,
    ensures
        pow2(a) <= pow2(b),
    decreases b - a,
{
    if a < b {
        lemma_pow2_grows(a, (b - 1) as nat);
    }
}

/// The wait before attempt number `failures + 1`.
pub fn backoff_secs(failures: u32) -> (r: u64)
    ensures
        r == backoff_delay(failures as nat),
{
    let mut d: u64 = 1;
    let mut i: u32 = 0;
    while i < failures && d < BACKOFF_CAP_SECS
        invariant
            i <= failures,
            d == pow2(i as nat),
            d <= 2 * BACKOFF_CAP_SECS,
        decreases failures - i,
    {
        d = d * 2;
        i = i + 1;
    }
    proof {
        lemma_pow2_grows(i as nat, failures as nat);
    }
    if d < BACKOFF_CAP_SECS {
        d
    } else {
        BACKOFF_CAP_SECS
    }
}

pub open spec fn saturating_inc(n: u32) -> u32 {
    if n == u32::MAX {
        n
    } else {
        (n + 1) as u32
    }
}

/// The supervisor's bookkeeping across sessions.
pub struct TwitchBot {
    /// Sessions that failed in a row.
    pub failures: u32,
    /// Credential validations or refreshes that failed in a row.
    pub auth_failures: u32,
    /// When the credential was last found valid, in seconds since the Unix epoch.
    pub last_validated_at: Option<i64>,
}

/// What to do after the credential could not be made valid.
pub struct AuthRetry {
    pub delay_secs: u64,
    /// The failure has lasted long enough to be reported as such.
    pub persistent: bool,
}

impl TwitchBot {
    pub fn new() -> (r: TwitchBot)
        ensures
            r.failures == 0,
            r.auth_failures == 0,
            r.last_validated_at is None,
    {
        TwitchBot { failures: 0, auth_failures: 0, last_validated_at: None }
    }

    /// A session closed after `lived_secs` seconds up: the wait before the
    /// next one. A session that stayed up long enough starts the count afresh.
    pub fn on_session_closed(&mut self, lived_secs: u64) -> (delay: u64)
        ensures
            ({
                let run = if lived_secs >= HEALTHY_SECS { 0 } else { old(self).failures };
                &&& delay == backoff_delay(run as nat)
                &&& final(self).failures == saturating_inc(run)
            }),
            final(self).auth_failures == old(self).auth_failures,
            final(self).last_validated_at == old(self).last_validated_at,
    {
        if lived_secs >= HEALTHY_SECS {
            self.failures = 0;
        }
        let delay = backoff_secs(self.failures);
        if self.failures < u32::MAX {
            self.failures = self.failures + 1;
        }
        delay
    }

    /// The credential could not be made valid: the wait before trying again,
    /// and whether the failure is now persistent.
    pub fn on_auth_failed(&mut self) -> (r: AuthRetry)
        ensures
            r.delay_secs == backoff_delay(old(self).auth_failures as nat),
            final(self).auth_failures == saturating_inc(old(self).auth_failures),
            r.persistent == (final(self).auth_failures >= AUTH_ALERT_AFTER),
            final(self).failures == old(self).failures,
            final(self).last_validated_at == old(self).last_validated_at,
    {
        let delay_secs = backoff_secs(self.auth_failures);
        if self.auth_failures < u32::MAX {
            self.auth_failures = self.auth_failures + 1;
        }
        AuthRetry { delay_secs, persistent: self.auth_failures >= AUTH_ALERT_AFTER }
    }

    /// The credential was found valid at `now`.
    pub fn on_auth_ok(&mut self, now: i64)
        ensures
            final(self).auth_failures == 0,
            final(self).last_validated_at == Some(now),
            final(self).failures == old(self).failures,
    {
        self.auth_failures = 0;
        self.last_validated_at = Some(now);
    }

    /// Whether the credential is due for validation at `now`.
    pub fn validation_due(&self, now: i64) -> (r: bool)
        ensures
            r == match self.last_validated_at {
                None => true,
                Some(t) => now - t >= VALIDATE_EVERY_SECS,
            },
    {
        match self.last_validated_at {
            None => true,
            Some(t) => (now as i128) - (t as i128) >= VALIDATE_EVERY_SECS as i128,
        }
    }
}

} // verus!
