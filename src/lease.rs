use vstd::prelude::*;

use crate::builder::ClientConfig;
use crate::record::{is_v4, release_request, uuid_text, ReleaseRequest, RenewRequest, WriteOutcome};
use crate::span::NANOS_PER_SEC;

verus! {

/// Where a held lease stands.
#[derive(Clone, Copy, Debug, PartialEq, Eq, Structural)]
pub enum LeaseState {
    /// The renewal loop runs.
    Active,
    /// A renewal failed: the handle no longer protects the resource.
    Lost,
    /// The handle was dropped and the release begun.
    Released,
}

/// The state of a held lease that its renewal loop and its release share:
/// the key and the last token known to be stored.
#[derive(Clone, Debug)]
pub struct LeaseCore {
    pub key: String,
    pub token: u128,
    pub state: LeaseState,
}

impl LeaseCore {
    /// A lease just created under `token`.
    pub fn new(key: String, token: u128) -> (r: LeaseCore)
        ensures
            r.key == key,
            r.token == token,
            r.state == LeaseState::Active,
    {
        LeaseCore { key, token, state: LeaseState::Active }
    }

    /// At a renewal tick: the renew request while the lease is active, none
    /// once it is lost or released (the loop then stops for good).
    pub fn next_renewal(&self, config: &ClientConfig) -> (r: Option<RenewRequest>)
        ensures
            self.state == LeaseState::Active <==> r is Some,
            r is Some ==> r->Some_0.key == self.key && r->Some_0.expected_text@ == uuid_text(
                self.token,
            ) && r->Some_0.token_text@ == uuid_text(r->Some_0.token) && is_v4(r->Some_0.token),
    {
        if self.state == LeaseState::Active {
            Some(config.begin_renew(self.key.clone(), self.token))
        } else {
            None
        }
    }

    /// After a renew request: a written renewal installs its token and the
    /// loop goes on; any other outcome loses the lease and the loop stops.
    /// The result says whether the loop goes on.
    pub fn apply_renewal(&mut self, req: &RenewRequest, outcome: WriteOutcome) -> (r: bool)
        requires
            old(self).state == LeaseState::Active,
        ensures
            final(self).key == old(self).key,
            r == (outcome is Written),
            r ==> final(self).token == req.token && final(self).state == LeaseState::Active,
            !r ==> final(self).token == old(self).token && final(self).state == LeaseState::Lost,
    {
        match outcome {
            WriteOutcome::Written => {
                self.token = req.token;
                true
            },
            _ => {
                self.state = LeaseState::Lost;
                false
            },
        }
    }

    /// On drop, once the in-process lock is let go: the lease is released and
    /// the conditional delete under the last known token is what to send.
    pub fn release(&mut self) -> (r: ReleaseRequest)
        ensures
            final(self).key == old(self).key,
            final(self).token == old(self).token,
            final(self).state == LeaseState::Released,
            r.key == old(self).key,
            r.expected_text@ == uuid_text(old(self).token),
    {
        self.state = LeaseState::Released;
        release_request(self.key.clone(), self.token)
    }
}

/// The whole seconds of a time in nanoseconds, as the table's clock reads it.
pub open spec fn whole_secs(nanos: int) -> int {
    nanos / NANOS_PER_SEC as int
}

/// Whether native expiry may reclaim a record with `expiry` at `now_secs`.
pub open spec fn reclaimable(expiry: int, now_secs: int) -> bool {
    now_secs > expiry
}

/// Law: renewal outruns expiry. A renewal written at time `t` (nanoseconds)
/// sets the expiry to its whole second plus the ttl; the next tick comes one
/// renewal period later, which is shorter than the ttl, so the record cannot
/// yet be reclaimed when it is renewed again.
pub proof fn lemma_renewal_outruns_expiry(config: ClientConfig, t: int)
    requires
        config.wf(),
        t >= 0,
    ensures
        !reclaimable(
            whole_secs(t) + config.lease_ttl_seconds,
            whole_secs(t + config.extend_period.nanos),
        ),
{
    let p = config.extend_period.nanos as int;
    let ttl = config.lease_ttl_seconds as int;
    let n = NANOS_PER_SEC as int;
    assert(p < ttl * n);
    assert((t + p) / n <= t / n + ttl) by (nonlinear_arith)
        requires
            p < ttl * n,
            n > 0,
            p >= 0,
            t >= 0,
    {
        assert(t + p < t + ttl * n);
        assert((t + ttl * n) / n == t / n + ttl) by (nonlinear_arith)
            requires
                n > 0,
        ;
        assert((t + p) / n <= (t + ttl * n) / n) by (nonlinear_arith)
            requires
                t + p <= t + ttl * n,
                n > 0,
        ;
    }
}

} // verus!
