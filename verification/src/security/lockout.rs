//! Progressive lockout after failed authentication attempts.
//!
//! | Failures | State          | Effect                         |
//! |----------|----------------|--------------------------------|
//! | 0–3      | `Allowed`      | no restriction                 |
//! | 4–5      | `Delayed(s)`   | wait 2^(failures − 3) seconds  |
//! | 6+       | `LockedOut`    | full lockout, vault reset only |

use vstd::prelude::*;
use vstd::string::*;
use crate::error::{KestrelError, KestrelResult};
use crate::text::{push_decimal, decimal};
use crate::time::{Timestamp, now};

verus! {

/// The lockout state implied by the failed attempts so far.
#[derive(Debug, Clone, Copy, PartialEq, Eq, Structural)]
pub enum LockoutState {
    /// Authentication is allowed.
    Allowed,
    /// Authentication is delayed by the given number of seconds.
    Delayed(u64),
    /// Fully locked out.
    LockedOut,
}

/// Display text of a lockout state: "Allowed", "Delayed(Ns)" or "LockedOut".
pub open spec fn lockout_text(s: LockoutState) -> Seq<char> {
    match s {
        LockoutState::Allowed => "Allowed"@,
        LockoutState::Delayed(secs) => "Delayed("@ + decimal(secs as nat) + "s)"@,
        LockoutState::LockedOut => "LockedOut"@,
    }
}

impl LockoutState {
    /// The display text of the state.
    pub fn to_string(&self) -> (s: String)
        ensures
            s@ == lockout_text(*self),
    {
        match self {
            LockoutState::Allowed => String::from_str("Allowed"),
            LockoutState::Delayed(secs) => {
                let mut s = String::from_str("Delayed(");
                push_decimal(&mut s, *secs);
                s.append("s)");
                s
            },
            LockoutState::LockedOut => String::from_str("LockedOut"),
        }
    }
}

/// The lockout progression for a number of failures.
pub open spec fn lockout_for(count: u32) -> LockoutState {
    if count <= 3 {
        LockoutState::Allowed
    } else if count == 4 {
        LockoutState::Delayed(2)
    } else if count == 5 {
        LockoutState::Delayed(4)
    } else {
        LockoutState::LockedOut
    }
}

/// The lockout state at time `now`, given the failure count and the time of
/// the most recent failure: a delay that has fully elapsed allows again.
pub open spec fn lockout_at(count: u32, last: Option<Timestamp>, now: Timestamp) -> LockoutState {
    match lockout_for(count) {
        LockoutState::Delayed(secs) => match last {
            Some(l) => if now.total_nanos() - l.total_nanos() >= secs as int * 1_000_000_000 {
                LockoutState::Allowed
            } else {
                LockoutState::Delayed(secs)
            },
            None => LockoutState::Delayed(secs),
        },
        other => other,
    }
}

/// One failed authentication attempt.
#[derive(Debug, Clone, Copy)]
struct FailedAttempt {
    timestamp: Timestamp,
}

/// Tracks failed authentication attempts and the lockout they imply.
#[derive(Debug, Clone)]
pub struct FailedAttemptTracker {
    attempts: Vec<FailedAttempt>,
}

impl FailedAttemptTracker {
    /// The times of the recorded failures, oldest first.
    pub closed spec fn attempt_times(&self) -> Seq<Timestamp> {
        self.attempts@.map_values(|a: FailedAttempt| a.timestamp)
    }

    /// The failure count as reported (the number of attempts, as a `u32`).
    pub open spec fn count(&self) -> u32 {
        self.attempt_times().len() as u32
    }

    /// The time of the most recent failure.
    pub open spec fn last_attempt(&self) -> Option<Timestamp> {
        if self.attempt_times().len() == 0 {
            None
        } else {
            Some(self.attempt_times().last())
        }
    }

    /// A tracker with no failed attempts.
    pub fn new() -> (t: Self)
        ensures
            t.attempt_times().len() == 0,
    {
        let t = FailedAttemptTracker { attempts: Vec::new() };
        assert(t.attempt_times() =~= Seq::<Timestamp>::empty());
        t
    }

    /// Records a failed attempt at the current time.
    pub fn record_failed_attempt(&mut self)
        ensures
            final(self).attempt_times().len() == old(self).attempt_times().len() + 1,
            final(self).attempt_times().drop_last() == old(self).attempt_times(),
    {
        self.attempts.push(FailedAttempt { timestamp: now() });
        assert(self.attempt_times().drop_last() =~= old(self).attempt_times());
    }

    /// The number of failed attempts.
    pub fn failed_count(&self) -> (n: u32)
        ensures
            n == self.count(),
    {
        self.attempts.len() as u32
    }

    /// The lockout state implied by the failure count alone.
    pub fn lockout_state(&self) -> (s: LockoutState)
        ensures
            s == lockout_for(self.count()),
    {
        let count = self.failed_count();
        if count <= 3 {
            LockoutState::Allowed
        } else if count == 4 {
            LockoutState::Delayed(2)
        } else if count == 5 {
            LockoutState::Delayed(4)
        } else {
            LockoutState::LockedOut
        }
    }

    /// The lockout state at time `now`: a delay whose seconds have elapsed
    /// since the most recent failure allows authentication again.
    pub fn lockout_state_at(&self, now: Timestamp) -> (s: LockoutState)
        ensures
            s == lockout_at(self.count(), self.last_attempt(), now),
    {
        let state = self.lockout_state();
        match state {
            LockoutState::Delayed(secs) => {
                let n = self.attempts.len();
                if n > 0 {
                    let last = self.attempts[n - 1].timestamp;
                    assert(last == self.attempt_times().last());
                    let elapsed = now.nanos_since_epoch() - last.nanos_since_epoch();
                    if elapsed >= (secs as i128) * 1_000_000_000i128 {
                        return LockoutState::Allowed;
                    }
                }
                state
            },
            other => other,
        }
    }

    /// Clears all failures (after a successful authentication); the stored
    /// times are overwritten before the list is emptied.
    pub fn reset(&mut self)
        ensures
            final(self).attempt_times().len() == 0,
    {
        let n = self.attempts.len();
        let mut i: usize = 0;
        while i < n
            invariant
                n == self.attempts@.len(),
                i <= n,
            decreases n - i,
        {
            self.attempts.set(i, FailedAttempt { timestamp: now() });
            i = i + 1;
        }
        self.attempts.clear();
        assert(self.attempt_times() =~= Seq::<Timestamp>::empty());
    }
}

impl Default for FailedAttemptTracker {
    fn default() -> (t: Self)
        ensures
            t.attempt_times().len() == 0,
    {
        Self::new()
    }
}

/// Decides whether an unlock may be attempted in lockout state `state`:
/// allowed states pass; a delay or a full lockout is refused as `Unauthorized`.
pub fn check_lockout(state: LockoutState) -> (r: KestrelResult<()>)
    ensures
        r is Ok <==> state == LockoutState::Allowed,
        r matches Err(e) ==> e is Unauthorized,
        state matches LockoutState::Delayed(secs) ==> (r matches Err(e) && e.message()
            == "Too many failed attempts. Please wait "@ + decimal(secs as nat) + " seconds before retrying."@),
        state is LockedOut ==> (r matches Err(e) && e.message()
            == "Account locked due to too many failed attempts. Vault reset required."@),
{
    match state {
        LockoutState::Allowed => Ok(()),
        LockoutState::Delayed(secs) => {
            let mut msg = String::from_str("Too many failed attempts. Please wait ");
            push_decimal(&mut msg, secs);
            msg.append(" seconds before retrying.");
            Err(KestrelError::Unauthorized(msg))
        },
        LockoutState::LockedOut => Err(
            KestrelError::Unauthorized(
                String::from_str("Account locked due to too many failed attempts. Vault reset required."),
            ),
        ),
    }
}


/// How restrictive a lockout state is: no restriction, a delay of that many
/// seconds, or (beyond any delay) a full lockout.
pub open spec fn severity(s: LockoutState) -> int {
    match s {
        LockoutState::Allowed => 0,
        LockoutState::Delayed(d) => d as int,
        LockoutState::LockedOut => u64::MAX as int + 1,
    }
}

/// More failures never make the lockout less restrictive.
pub proof fn law_lockout_never_relaxes(a: u32, b: u32)
    requires
        a <= b,
    ensures
        severity(lockout_for(a)) <= severity(lockout_for(b)),
{
}

/// The progression: up to three failures are free, the fourth and fifth
/// delay by 2 and 4 seconds (the delay doubles), and six or more lock out.
pub proof fn law_lockout_progression(count: u32)
    ensures
        count <= 3 ==> lockout_for(count) == LockoutState::Allowed,
        count == 4 ==> lockout_for(count) == LockoutState::Delayed(2),
        count == 5 ==> lockout_for(count) == LockoutState::Delayed(4),
        lockout_for(4) matches LockoutState::Delayed(a) && lockout_for(5) matches LockoutState::Delayed(b) && b
            == 2 * a,
        count >= 6 ==> lockout_for(count) == LockoutState::LockedOut,
{
}

/// An expired delay is the only way time relaxes the lockout: a full
/// lockout never expires, and before the delay has elapsed it still applies.
pub proof fn law_only_delays_expire(count: u32, last: Option<Timestamp>, now: Timestamp)
    ensures
        lockout_for(count) == LockoutState::LockedOut ==> lockout_at(count, last, now) == LockoutState::LockedOut,
        lockout_for(count) == LockoutState::Allowed ==> lockout_at(count, last, now) == LockoutState::Allowed,
        lockout_at(count, last, now) == LockoutState::Allowed || lockout_at(count, last, now) == lockout_for(
            count,
        ),
{
}


/// A delay of d seconds applies until d whole seconds have passed since the
/// last failure, to the nanosecond, and no longer: before, the state is
/// still `Delayed(d)`; from then on, `Allowed` (4 failures delay 2 s, so one
/// second after the last failure the attempt is still delayed).
pub proof fn law_delay_lasts_its_seconds(count: u32, last: Timestamp, now: Timestamp, d: u64)
    requires
        lockout_for(count) == LockoutState::Delayed(d),
    ensures
        (now.secs * 1_000_000_000 + now.nanos) - (last.secs * 1_000_000_000 + last.nanos) < d * 1_000_000_000
            ==> lockout_at(count, Some(last), now) == LockoutState::Delayed(d),
        (now.secs * 1_000_000_000 + now.nanos) - (last.secs * 1_000_000_000 + last.nanos) >= d * 1_000_000_000
            ==> lockout_at(count, Some(last), now) == LockoutState::Allowed,
        count == 4 && now.secs == last.secs + 1 && now.nanos == last.nanos ==> lockout_at(count, Some(last), now)
            == LockoutState::Delayed(2),
{
}

} // verus!
