use vstd::prelude::*;

use crate::record::BackendError;
use crate::span::TimeSpan;

verus! {

/// How long an acquisition may wait for the lease.
#[derive(Clone, Copy, Debug, PartialEq, Eq, Structural)]
pub enum Patience {
    /// One attempt, no waiting (`try_acquire`).
    NoWait,
    /// Wait as long as it takes (`acquire`).
    Unbounded,
    /// Wait at most `max_wait` in all (`acquire_timeout`).
    Bounded { max_wait: TimeSpan },
}

/// What came of taking the in-process lock for the key.
#[derive(Clone, Copy, Debug, PartialEq, Eq, Structural)]
pub enum LocalLockOutcome {
    /// The lock is held.
    Taken,
    /// Another caller in this process holds it (only when not waiting).
    Busy,
    /// The wait for it ran out.
    TimedOut,
}

/// What came of one remote create attempt.
#[derive(Clone, Debug)]
pub enum CreateOutcome {
    /// The record was written under this token.
    Created { token: u128 },
    /// A record for the key exists: the lease is held elsewhere.
    Contended,
    /// The table could not be reached or failed the request.
    Failed(BackendError),
}

/// How an acquisition ends.
#[derive(Clone, Debug)]
pub enum AcquireResult {
    /// The lease is held under this token.
    Acquired { token: u128 },
    /// The lease is held elsewhere (only when not waiting).
    NotAcquired,
    /// The allowed wait ran out.
    TimedOut,
    /// The table failed a create request.
    Failed(BackendError),
}

/// What the caller does next for an acquisition.
#[derive(Clone, Debug)]
pub enum AcquireAction {
    /// Take the in-process lock for the key, waiting as the patience allows.
    LockLocal(Patience),
    /// Send one conditional create for the key.
    SendCreate,
    /// Sleep this long, then report it.
    Sleep(TimeSpan),
    /// Stop with this result; keep the in-process lock only with the lease.
    Done(AcquireResult),
}

/// Where an acquisition stands.
#[derive(Clone, Copy, Debug, PartialEq, Eq, Structural)]
pub enum AcquirePhase {
    Start,
    Locking,
    Creating,
    Sleeping,
    Finished,
}

/// The decisions of one `try_acquire`, `acquire` or `acquire_timeout` call.
#[derive(Clone, Copy, Debug)]
pub struct Acquisition {
    pub patience: Patience,
    pub cooldown: TimeSpan,
    pub phase: AcquirePhase,
}

/// The sleep before the next attempt of a bounded acquisition, `elapsed`
/// after it began: none once `max_wait` is passed, else the cooldown cut to
/// the time that is left.
pub open spec fn spec_retry_delay(elapsed: TimeSpan, max_wait: TimeSpan, cooldown: TimeSpan) -> Option<nat> {
    if elapsed.nanos > max_wait.nanos {
        None
    } else {
        let left = (max_wait.nanos - elapsed.nanos) as nat;
        Some(if cooldown.nanos <= left { cooldown.nanos as nat } else { left })
    }
}

/// The sleep before the next attempt of a bounded acquisition.
pub fn retry_delay(elapsed: TimeSpan, max_wait: TimeSpan, cooldown: TimeSpan) -> (r: Option<TimeSpan>)
    ensures
        match spec_retry_delay(elapsed, max_wait, cooldown) {
            Some(d) => r is Some && r->Some_0.nanos == d,
            None => r is None,
        },
{
    if elapsed.nanos > max_wait.nanos {
        None
    } else {
        Some(cooldown.min(TimeSpan::from_nanos(max_wait.nanos - elapsed.nanos)))
    }
}

/// What follows a contended create attempt `elapsed` after the start.
pub open spec fn after_contention(patience: Patience, cooldown: TimeSpan, elapsed: TimeSpan) -> (AcquirePhase, AcquireAction) {
    match patience {
        Patience::NoWait => (AcquirePhase::Finished, AcquireAction::Done(AcquireResult::NotAcquired)),
        Patience::Unbounded => (AcquirePhase::Sleeping, AcquireAction::Sleep(cooldown)),
        Patience::Bounded { max_wait } => match spec_retry_delay(elapsed, max_wait, cooldown) {
            None => (AcquirePhase::Finished, AcquireAction::Done(AcquireResult::TimedOut)),
            Some(d) => (AcquirePhase::Sleeping, AcquireAction::Sleep(TimeSpan { nanos: d as u64 })),
        },
    }
}

impl Acquisition {
    /// A new acquisition, not yet started.
    pub fn new(patience: Patience, cooldown: TimeSpan) -> (r: Acquisition)
        ensures
            r.patience == patience,
            r.cooldown == cooldown,
            r.phase == AcquirePhase::Start,
    {
        Acquisition { patience, cooldown, phase: AcquirePhase::Start }
    }

    /// Starts: the in-process lock comes first, taken with the call's patience.
    pub fn start(&mut self) -> (r: AcquireAction)
        requires
            old(self).phase == AcquirePhase::Start,
        ensures
            r == AcquireAction::LockLocal(old(self).patience),
            *final(self) == (Acquisition { phase: AcquirePhase::Locking, ..*old(self) }),
    {
        self.phase = AcquirePhase::Locking;
        AcquireAction::LockLocal(self.patience)
    }

    /// After the in-process lock: with it held, try the remote create;
    /// without it, stop (not acquired, or timed out).
    pub fn on_local_lock(&mut self, outcome: LocalLockOutcome) -> (r: AcquireAction)
        requires
            old(self).phase == AcquirePhase::Locking,
        ensures
            final(self).patience == old(self).patience,
            final(self).cooldown == old(self).cooldown,
            match outcome {
                LocalLockOutcome::Taken => r == AcquireAction::SendCreate && final(self).phase
                    == AcquirePhase::Creating,
                LocalLockOutcome::Busy => r == AcquireAction::Done(AcquireResult::NotAcquired)
                    && final(self).phase == AcquirePhase::Finished,
                LocalLockOutcome::TimedOut => r == AcquireAction::Done(AcquireResult::TimedOut)
                    && final(self).phase == AcquirePhase::Finished,
            },
    {
        match outcome {
            LocalLockOutcome::Taken => {
                self.phase = AcquirePhase::Creating;
                AcquireAction::SendCreate
            },
            LocalLockOutcome::Busy => {
                self.phase = AcquirePhase::Finished;
                AcquireAction::Done(AcquireResult::NotAcquired)
            },
            LocalLockOutcome::TimedOut => {
                self.phase = AcquirePhase::Finished;
                AcquireAction::Done(AcquireResult::TimedOut)
            },
        }
    }

    /// After a create attempt, `elapsed` after the start: a created record
    /// ends it with the lease and a failure with the error; contention ends a
    /// call that does not wait, and otherwise leads to a sleep before the
    /// next attempt (the cooldown, cut to what is left of a bounded wait) or,
    /// once a bounded wait is passed, to a timeout.
    pub fn on_create(&mut self, outcome: CreateOutcome, elapsed: TimeSpan) -> (r: AcquireAction)
        requires
            old(self).phase == AcquirePhase::Creating,
        ensures
            final(self).patience == old(self).patience,
            final(self).cooldown == old(self).cooldown,
            match outcome {
                CreateOutcome::Created { token } => r == AcquireAction::Done(
                    AcquireResult::Acquired { token },
                ) && final(self).phase == AcquirePhase::Finished,
                CreateOutcome::Failed(e) => r == AcquireAction::Done(AcquireResult::Failed(e))
                    && final(self).phase == AcquirePhase::Finished,
                CreateOutcome::Contended => (final(self).phase, r) == after_contention(
                    old(self).patience,
                    old(self).cooldown,
                    elapsed,
                ),
            },
    {
        match outcome {
            CreateOutcome::Created { token } => {
                self.phase = AcquirePhase::Finished;
                AcquireAction::Done(AcquireResult::Acquired { token })
            },
            CreateOutcome::Failed(e) => {
                self.phase = AcquirePhase::Finished;
                AcquireAction::Done(AcquireResult::Failed(e))
            },
            CreateOutcome::Contended => match self.patience {
                Patience::NoWait => {
                    self.phase = AcquirePhase::Finished;
                    AcquireAction::Done(AcquireResult::NotAcquired)
                },
                Patience::Unbounded => {
                    self.phase = AcquirePhase::Sleeping;
                    AcquireAction::Sleep(self.cooldown)
                },
                Patience::Bounded { max_wait } => match retry_delay(elapsed, max_wait, self.cooldown) {
                    None => {
                        self.phase = AcquirePhase::Finished;
                        AcquireAction::Done(AcquireResult::TimedOut)
                    },
                    Some(d) => {
                        self.phase = AcquirePhase::Sleeping;
                        AcquireAction::Sleep(d)
                    },
                },
            },
        }
    }

    /// After the sleep: the next create attempt.
    pub fn on_slept(&mut self) -> (r: AcquireAction)
        requires
            old(self).phase == AcquirePhase::Sleeping,
        ensures
            r == AcquireAction::SendCreate,
            *final(self) == (Acquisition { phase: AcquirePhase::Creating, ..*old(self) }),
    {
        self.phase = AcquirePhase::Creating;
        AcquireAction::SendCreate
    }
}

/// Law: a call that does not wait never sleeps; a call that waits without
/// bound sleeps exactly one cooldown between attempts; a bounded call times
/// out exactly when its wait is passed, and otherwise never sleeps past it.
pub proof fn lemma_waits_keep_their_bounds(patience: Patience, cooldown: TimeSpan, elapsed: TimeSpan)
    ensures
        patience == Patience::NoWait ==> after_contention(patience, cooldown, elapsed).1
            == AcquireAction::Done(AcquireResult::NotAcquired),
        patience == Patience::Unbounded ==> after_contention(patience, cooldown, elapsed).1
            == AcquireAction::Sleep(cooldown),
        patience is Bounded ==> match after_contention(patience, cooldown, elapsed).1 {
            AcquireAction::Done(AcquireResult::TimedOut) => elapsed.nanos > patience->max_wait.nanos,
            AcquireAction::Sleep(d) => elapsed.nanos <= patience->max_wait.nanos && elapsed.nanos
                + d.nanos <= patience->max_wait.nanos && d.nanos <= cooldown.nanos,
            _ => false,
        },
{
}

} // verus!
