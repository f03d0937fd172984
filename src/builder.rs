use vstd::prelude::*;

use crate::span::{TimeSpan, NANOS_PER_SEC};

verus! {

/// The shortest lease time to live, in seconds: the table's native expiry
/// works on whole-second timestamps, so shorter leases are unreliable.
pub const MIN_TTL_SECONDS: u32 = 2;

/// The lease time to live that a new builder starts with, in seconds.
pub const DEFAULT_TTL_SECONDS: u32 = 60;

/// Half a second in nanoseconds: the default renewal period is half the ttl.
pub const HALF_SEC_NANOS: u64 = 500_000_000;

/// Builds the [`ClientConfig`] that a client works with.
#[derive(Clone, Debug)]
pub struct ClientBuilder {
    /// The table that holds the lease records.
    pub table_name: String,
    /// The time to live of each lease (or renewal), in seconds.
    pub lease_ttl_seconds: u32,
    /// The period between background renewals; half the ttl when unset.
    pub extend_period: Option<TimeSpan>,
    /// How long `acquire` waits between attempts.
    pub acquire_cooldown: TimeSpan,
}

/// Why a configuration cannot make a client.
#[derive(Clone, Copy, Debug, PartialEq, Eq, Structural)]
pub enum ConfigError {
    /// The ttl is under two seconds.
    TtlTooShort,
    /// The renewal period is zero.
    ZeroRenewalPeriod,
    /// The renewal period is not strictly shorter than the ttl.
    RenewalPeriodNotBelowTtl,
}

/// A checked client configuration.
#[derive(Clone, Debug)]
pub struct ClientConfig {
    pub table_name: String,
    pub lease_ttl_seconds: u32,
    pub extend_period: TimeSpan,
    pub acquire_cooldown: TimeSpan,
}

impl ClientConfig {
    /// The ttl is at least two seconds and the renewal period lies strictly
    /// between zero and the ttl.
    pub open spec fn wf(&self) -> bool {
        &&& self.lease_ttl_seconds >= MIN_TTL_SECONDS
        &&& 0 < self.extend_period.nanos
        &&& self.extend_period.nanos < self.lease_ttl_seconds * NANOS_PER_SEC
    }
}

impl Default for ClientBuilder {
    fn default() -> (r: ClientBuilder)
        ensures
            r.table_name@ == "leases"@,
            r.lease_ttl_seconds == DEFAULT_TTL_SECONDS,
            r.extend_period is None,
            r.acquire_cooldown.nanos == NANOS_PER_SEC,
    {
        proof {
            reveal_strlit("leases");
        }
        ClientBuilder {
            table_name: "leases".to_owned(),
            lease_ttl_seconds: DEFAULT_TTL_SECONDS,
            extend_period: None,
            acquire_cooldown: TimeSpan::from_secs(1),
        }
    }
}

impl ClientBuilder {
    /// A builder with the default settings.
    pub fn new() -> (r: ClientBuilder)
        ensures
            r.table_name@ == "leases"@,
            r.lease_ttl_seconds == DEFAULT_TTL_SECONDS,
            r.extend_period is None,
            r.acquire_cooldown.nanos == NANOS_PER_SEC,
    {
        ClientBuilder::default()
    }

    /// Sets the name of the table that holds the lease records.
    pub fn table_name(self, table_name: &str) -> (r: ClientBuilder)
        ensures
            r.table_name@ == table_name@,
            r.lease_ttl_seconds == self.lease_ttl_seconds,
            r.extend_period == self.extend_period,
            r.acquire_cooldown == self.acquire_cooldown,
    {
        ClientBuilder { table_name: table_name.to_owned(), ..self }
    }

    /// Sets the time to live of each lease (or renewal) in seconds. It must be
    /// at least two: [`ClientBuilder::build`] refuses a shorter one.
    pub fn lease_ttl_seconds(self, seconds: u32) -> (r: ClientBuilder)
        ensures
            r.lease_ttl_seconds == seconds,
            r.table_name == self.table_name,
            r.extend_period == self.extend_period,
            r.acquire_cooldown == self.acquire_cooldown,
    {
        ClientBuilder { lease_ttl_seconds: seconds, ..self }
    }

    /// Sets the period between background renewals of a held lease. It must
    /// be greater than zero and less than the ttl: [`ClientBuilder::build`]
    /// refuses any other.
    pub fn extend_every(self, extend_period: TimeSpan) -> (r: ClientBuilder)
        ensures
            r.extend_period == Some(extend_period),
            r.table_name == self.table_name,
            r.lease_ttl_seconds == self.lease_ttl_seconds,
            r.acquire_cooldown == self.acquire_cooldown,
    {
        ClientBuilder { extend_period: Some(extend_period), ..self }
    }

    /// Sets how long `acquire` waits between attempts.
    pub fn acquire_cooldown(self, cooldown: TimeSpan) -> (r: ClientBuilder)
        ensures
            r.acquire_cooldown == cooldown,
            r.table_name == self.table_name,
            r.lease_ttl_seconds == self.lease_ttl_seconds,
            r.extend_period == self.extend_period,
    {
        ClientBuilder { acquire_cooldown: cooldown, ..self }
    }

    /// The renewal period in nanoseconds: the one set, else half the ttl.
    pub open spec fn spec_extend_nanos(&self) -> nat {
        match self.extend_period {
            Some(p) => p.nanos as nat,
            None => (self.lease_ttl_seconds * HALF_SEC_NANOS) as nat,
        }
    }

    /// The first rule that the settings break, if any.
    pub open spec fn spec_problem(&self) -> Option<ConfigError> {
        if self.lease_ttl_seconds < MIN_TTL_SECONDS {
            Some(ConfigError::TtlTooShort)
        } else if self.spec_extend_nanos() == 0 {
            Some(ConfigError::ZeroRenewalPeriod)
        } else if self.spec_extend_nanos() >= self.lease_ttl_seconds * NANOS_PER_SEC {
            Some(ConfigError::RenewalPeriodNotBelowTtl)
        } else {
            None
        }
    }

    /// Checks the settings and makes the configuration, before any contact
    /// with the table.
    pub fn build(self) -> (r: Result<ClientConfig, ConfigError>)
        ensures
            match self.spec_problem() {
                Some(e) => r == Err::<ClientConfig, ConfigError>(e),
                None => r is Ok && r->Ok_0.wf()
                    && r->Ok_0.table_name == self.table_name
                    && r->Ok_0.lease_ttl_seconds == self.lease_ttl_seconds
                    && r->Ok_0.extend_period.nanos == self.spec_extend_nanos()
                    && r->Ok_0.acquire_cooldown == self.acquire_cooldown,
            },
    {
        if self.lease_ttl_seconds < MIN_TTL_SECONDS {
            return Err(ConfigError::TtlTooShort);
        }
        let ttl = TimeSpan::from_secs(self.lease_ttl_seconds);
        let extend_period = match self.extend_period {
            Some(p) => p,
            None => {
                proof {
                    assert(self.lease_ttl_seconds * HALF_SEC_NANOS <= u32::MAX * HALF_SEC_NANOS)
                        by (nonlinear_arith);
                }
                TimeSpan::from_nanos(self.lease_ttl_seconds as u64 * HALF_SEC_NANOS)
            },
        };
        if extend_period.nanos == 0 {
            return Err(ConfigError::ZeroRenewalPeriod);
        }
        if extend_period.nanos >= ttl.nanos {
            return Err(ConfigError::RenewalPeriodNotBelowTtl);
        }
        Ok(
            ClientConfig {
                table_name: self.table_name,
                lease_ttl_seconds: self.lease_ttl_seconds,
                extend_period,
                acquire_cooldown: self.acquire_cooldown,
            },
        )
    }
}

/// Law: a configuration is made exactly when the ttl is at least two seconds
/// and the renewal period is positive and strictly shorter than the ttl; a ttl
/// under two seconds is always refused as too short.
pub proof fn lemma_build_refuses_bad_timing(b: ClientBuilder)
    ensures
        b.spec_problem() is None <==> (b.lease_ttl_seconds >= MIN_TTL_SECONDS && 0
            < b.spec_extend_nanos() < b.lease_ttl_seconds * NANOS_PER_SEC),
        b.lease_ttl_seconds < MIN_TTL_SECONDS ==> b.spec_problem() == Some(ConfigError::TtlTooShort),
        b.lease_ttl_seconds >= MIN_TTL_SECONDS && b.spec_extend_nanos() >= b.lease_ttl_seconds
            * NANOS_PER_SEC ==> b.spec_problem() == Some(ConfigError::RenewalPeriodNotBelowTtl),
{
}

} // verus!
