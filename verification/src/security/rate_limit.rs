//! Per-operation sliding-window rate limiting.

use vstd::prelude::*;
use vstd::string::*;
use crate::error::{KestrelError, KestrelResult};
use crate::time::{Timestamp, now};

verus! {

/// The type of operation being rate-limited.
#[derive(Debug, Clone, Copy, PartialEq, Eq, Structural, Hash)]
pub enum Operation {
    /// Authentication / login attempts.
    Login,
    /// General vault commands (CRUD operations).
    Command,
    /// File import/export operations.
    FileOperation,
}

/// Default maximum number of attempts per window for an operation.
pub open spec fn default_max_attempts_spec(op: Operation) -> u32 {
    match op {
        Operation::Login => 5,
        Operation::Command => 60,
        Operation::FileOperation => 20,
    }
}

/// Default window length in seconds for an operation.
pub open spec fn default_window_seconds_spec(op: Operation) -> u64 {
    match op {
        Operation::Login => 300,
        Operation::Command => 60,
        Operation::FileOperation => 60,
    }
}

/// The name of an operation.
pub open spec fn operation_name(op: Operation) -> Seq<char> {
    match op {
        Operation::Login => "Login"@,
        Operation::Command => "Command"@,
        Operation::FileOperation => "FileOperation"@,
    }
}

impl Operation {
    /// Returns the default maximum attempts per window for this operation.
    pub fn default_max_attempts(&self) -> (r: u32)
        ensures
            r == default_max_attempts_spec(*self),
    {
        match self {
            Operation::Login => 5,
            Operation::Command => 60,
            Operation::FileOperation => 20,
        }
    }

    /// The operation's name as written in messages ("Login", "Command", "FileOperation").
    pub fn name(&self) -> (s: String)
        ensures
            s@ == operation_name(*self),
    {
        match self {
            Operation::Login => String::from_str("Login"),
            Operation::Command => String::from_str("Command"),
            Operation::FileOperation => String::from_str("FileOperation"),
        }
    }

    /// Returns the default window duration in seconds.
    pub fn default_window_seconds(&self) -> (r: u64)
        ensures
            r == default_window_seconds_spec(*self),
    {
        match self {
            Operation::Login => 300,
            Operation::Command => 60,
            Operation::FileOperation => 60,
        }
    }
}


/// Largest window (in seconds) the clock arithmetic accepts: a chrono
/// duration of more seconds cannot be built.
pub const MAX_WINDOW_SECONDS: u64 = 9_223_372_036_854_775;

/// The timestamps of `s` that lie strictly after `cutoff` (in nanoseconds), in order.
pub open spec fn after_cutoff(s: Seq<Timestamp>, cutoff: int) -> Seq<Timestamp>
    decreases s.len(),
{
    if s.len() == 0 {
        s
    } else if s.last().total_nanos() > cutoff {
        after_cutoff(s.drop_last(), cutoff).push(s.last())
    } else {
        after_cutoff(s.drop_last(), cutoff)
    }
}

/// The start of the sliding window ending at `now`.
pub open spec fn window_cutoff(now: Timestamp, window_seconds: u64) -> int {
    now.total_nanos() - window_seconds as int * 1_000_000_000
}

/// A model of one operation's tracker: recent attempt times and its limits.
pub struct TrackerView {
    /// Attempt times still inside the window (as of the last pruning), oldest first.
    pub times: Seq<Timestamp>,
    /// Maximum attempts allowed in a window.
    pub max_attempts: u32,
    /// Window length in seconds.
    pub window_seconds: u64,
}

impl TrackerView {
    /// The tracker after dropping attempts outside the window ending at `now`.
    pub open spec fn pruned(self, now: Timestamp) -> TrackerView {
        TrackerView {
            times: after_cutoff(self.times, window_cutoff(now, self.window_seconds)),
            ..self
        }
    }

    /// Whether the tracked attempts reach the limit.
    pub open spec fn limited(self) -> bool {
        self.times.len() as u32 >= self.max_attempts
    }

    /// Attempts left before the limit is reached.
    pub open spec fn remaining(self) -> u32 {
        if self.max_attempts >= self.times.len() as u32 {
            (self.max_attempts - self.times.len() as u32) as u32
        } else {
            0
        }
    }

    /// A fresh tracker with the given limits.
    pub open spec fn empty(max_attempts: u32, window_seconds: u64) -> TrackerView {
        TrackerView { times: Seq::empty(), max_attempts, window_seconds }
    }
}

/// Timestamps of recent operations for sliding-window rate limiting.
#[derive(Debug, Clone)]
struct OperationTracker {
    timestamps: Vec<Timestamp>,
    max_attempts: u32,
    window_seconds: u64,
}

impl OperationTracker {
    closed spec fn model(&self) -> TrackerView {
        TrackerView {
            times: self.timestamps@,
            max_attempts: self.max_attempts,
            window_seconds: self.window_seconds,
        }
    }

    fn new(max_attempts: u32, window_seconds: u64) -> (t: Self)
        ensures
            t.model() == TrackerView::empty(max_attempts, window_seconds),
    {
        let t = OperationTracker { timestamps: Vec::new(), max_attempts, window_seconds };
        assert(t.model().times =~= Seq::<Timestamp>::empty());
        t
    }

    /// Drops timestamps outside the window ending at `now`.
    fn prune(&mut self, now: Timestamp)
        ensures
            final(self).model() == old(self).model().pruned(now),
    {
        let cutoff = now.nanos_since_epoch() - (self.window_seconds as i128) * 1_000_000_000i128;
        let ghost c = window_cutoff(now, self.window_seconds);
        let mut kept: Vec<Timestamp> = Vec::new();
        let mut i: usize = 0;
        while i < self.timestamps.len()
            invariant
                cutoff == c,
                i <= self.timestamps@.len(),
                self.timestamps@ == old(self).timestamps@,
                kept@ == after_cutoff(self.timestamps@.subrange(0, i as int), c),
            decreases self.timestamps@.len() - i,
        {
            let ts = self.timestamps[i];
            proof {
                let pre = self.timestamps@.subrange(0, i as int + 1);
                assert(pre.drop_last() =~= self.timestamps@.subrange(0, i as int));
                assert(pre.last() == ts);
            }
            if ts.nanos_since_epoch() > cutoff {
                kept.push(ts);
            }
            i = i + 1;
        }
        assert(self.timestamps@.subrange(0, self.timestamps@.len() as int) =~= self.timestamps@);
        self.timestamps = kept;
    }

    fn record(&mut self, now: Timestamp)
        ensures
            final(self).model() == (TrackerView { times: old(self).model().times.push(now), ..old(self).model() }),
    {
        self.timestamps.push(now);
    }

    fn is_limited(&self) -> (r: bool)
        ensures
            r == self.model().limited(),
    {
        self.timestamps.len() as u32 >= self.max_attempts
    }

    fn remaining(&self) -> (r: u32)
        ensures
            r == self.model().remaining(),
    {
        self.max_attempts.saturating_sub(self.timestamps.len() as u32)
    }

    fn clear(&mut self)
        ensures
            final(self).model() == (TrackerView { times: Seq::empty(), ..old(self).model() }),
    {
        self.timestamps.clear();
        assert(self.model().times =~= Seq::<Timestamp>::empty());
    }
}

/// Per-operation rate limiter: each operation has its own independent
/// sliding window and threshold.
pub struct RateLimiter {
    login: OperationTracker,
    command: OperationTracker,
    file_operation: OperationTracker,
}

impl RateLimiter {
    /// The model of the tracker for `op`.
    pub closed spec fn tracker(&self, op: Operation) -> TrackerView {
        match op {
            Operation::Login => self.login.model(),
            Operation::Command => self.command.model(),
            Operation::FileOperation => self.file_operation.model(),
        }
    }

    /// Every operation other than `op` keeps its tracker.
    pub open spec fn others_unchanged(&self, other: &RateLimiter, op: Operation) -> bool {
        forall|o: Operation| o != op ==> #[trigger] self.tracker(o) == other.tracker(o)
    }

    /// Every tracker is empty and has the default limits of its operation.
    pub open spec fn is_default(&self) -> bool {
        forall|o: Operation|
            #[trigger] self.tracker(o) == TrackerView::empty(
                default_max_attempts_spec(o),
                default_window_seconds_spec(o),
            )
    }

    /// A limiter with the default thresholds and no recorded attempts.
    pub fn new() -> (l: Self)
        ensures
            l.is_default(),
    {
        let l = RateLimiter {
            login: OperationTracker::new(
                Operation::Login.default_max_attempts(),
                Operation::Login.default_window_seconds(),
            ),
            command: OperationTracker::new(
                Operation::Command.default_max_attempts(),
                Operation::Command.default_window_seconds(),
            ),
            file_operation: OperationTracker::new(
                Operation::FileOperation.default_max_attempts(),
                Operation::FileOperation.default_window_seconds(),
            ),
        };
        assert forall|o: Operation|
            #[trigger] l.tracker(o) == TrackerView::empty(
                default_max_attempts_spec(o),
                default_window_seconds_spec(o),
            ) by {
            match o {
                Operation::Login => {},
                Operation::Command => {},
                Operation::FileOperation => {},
            }
        }
        l
    }

    /// A default limiter whose `operation` uses the given threshold and window.
    pub fn with_custom_limit(operation: Operation, max_attempts: u32, window_seconds: u64) -> (l: Self)
        requires
            window_seconds <= MAX_WINDOW_SECONDS,
        ensures
            l.tracker(operation) == TrackerView::empty(max_attempts, window_seconds),
            forall|o: Operation|
                o != operation ==> #[trigger] l.tracker(o) == TrackerView::empty(
                    default_max_attempts_spec(o),
                    default_window_seconds_spec(o),
                ),
    {
        let mut limiter = Self::new();
        let ghost before = limiter;
        assert(before.tracker(operation) == TrackerView::empty(
            default_max_attempts_spec(operation),
            default_window_seconds_spec(operation),
        ));
        match operation {
            Operation::Login => {
                limiter.login.max_attempts = max_attempts;
                limiter.login.window_seconds = window_seconds;
            },
            Operation::Command => {
                limiter.command.max_attempts = max_attempts;
                limiter.command.window_seconds = window_seconds;
            },
            Operation::FileOperation => {
                limiter.file_operation.max_attempts = max_attempts;
                limiter.file_operation.window_seconds = window_seconds;
            },
        }
        assert forall|o: Operation|
            o != operation implies #[trigger] limiter.tracker(o) == TrackerView::empty(
                default_max_attempts_spec(o),
                default_window_seconds_spec(o),
            ) by {
            assert(before.tracker(o) == TrackerView::empty(
                default_max_attempts_spec(o),
                default_window_seconds_spec(o),
            ));
            match o {
                Operation::Login => {},
                Operation::Command => {},
                Operation::FileOperation => {},
            }
        }
        assert(limiter.tracker(operation).times =~= Seq::<Timestamp>::empty());
        limiter
    }

    fn prune(&mut self, operation: Operation, now: Timestamp)
        ensures
            final(self).tracker(operation) == old(self).tracker(operation).pruned(now),
            final(self).others_unchanged(old(self), operation),
    {
        match operation {
            Operation::Login => self.login.prune(now),
            Operation::Command => self.command.prune(now),
            Operation::FileOperation => self.file_operation.prune(now),
        }
    }

    /// Whether `operation` is rate-limited at time `now`; attempts that have
    /// left the window are dropped first.
    pub fn is_rate_limited_at(&mut self, operation: Operation, now: Timestamp) -> (r: bool)
        ensures
            final(self).tracker(operation) == old(self).tracker(operation).pruned(now),
            final(self).others_unchanged(old(self), operation),
            r == old(self).tracker(operation).pruned(now).limited(),
    {
        self.prune(operation, now);
        match operation {
            Operation::Login => self.login.is_limited(),
            Operation::Command => self.command.is_limited(),
            Operation::FileOperation => self.file_operation.is_limited(),
        }
    }

    /// Whether `operation` is currently rate-limited: it has reached its
    /// maximum number of attempts within the sliding window.
    pub fn is_rate_limited(&mut self, operation: Operation) -> (r: bool)
        ensures
            exists|t: Timestamp|
                {
                    &&& final(self).tracker(operation) == old(self).tracker(operation).pruned(t)
                    &&& r == old(self).tracker(operation).pruned(t).limited()
                },
            final(self).others_unchanged(old(self), operation),
    {
        let t = now();
        self.is_rate_limited_at(operation, t)
    }

    /// Records an attempt for `operation` at time `now`, unless the operation
    /// is rate-limited, in which case `Unauthorized` is returned and nothing
    /// is recorded.
    pub fn record_attempt_at(&mut self, operation: Operation, now: Timestamp) -> (r: KestrelResult<()>)
        ensures
            ({
                let pruned = old(self).tracker(operation).pruned(now);
                &&& r is Ok <==> !pruned.limited()
                &&& r matches Err(e) ==> e is Unauthorized
                &&& r is Ok ==> final(self).tracker(operation) == (TrackerView { times: pruned.times.push(now), ..pruned })
                &&& r is Err ==> final(self).tracker(operation) == pruned
            }),
            final(self).others_unchanged(old(self), operation),
    {
        let ghost orig = *self;
        let limited = self.is_rate_limited_at(operation, now);
        let ghost mid = *self;
        if limited {
            let mut msg = String::from_str("Rate limit exceeded for ");
            msg.append(operation.name().as_str());
            return Err(KestrelError::Unauthorized(msg));
        }
        match operation {
            Operation::Login => self.login.record(now),
            Operation::Command => self.command.record(now),
            Operation::FileOperation => self.file_operation.record(now),
        }
        assert forall|o: Operation| o != operation implies #[trigger] self.tracker(o) == orig.tracker(o) by {
            assert(mid.tracker(o) == orig.tracker(o));
        }
        Ok(())
    }

    /// Records an attempt for `operation` now; refused with `Unauthorized`
    /// when the operation is rate-limited.
    pub fn record_attempt(&mut self, operation: Operation) -> (r: KestrelResult<()>)
        ensures
            exists|t: Timestamp|
                {
                    &&& r is Ok <==> !(#[trigger] old(self).tracker(operation).pruned(t)).limited()
                    &&& r is Ok ==> final(self).tracker(operation) == (TrackerView {
                        times: old(self).tracker(operation).pruned(t).times.push(t),
                        ..old(self).tracker(operation).pruned(t)
                    })
                    &&& r is Err ==> final(self).tracker(operation) == old(self).tracker(operation).pruned(t)
                },
            r matches Err(e) ==> e is Unauthorized,
            final(self).others_unchanged(old(self), operation),
    {
        let t = now();
        self.record_attempt_at(operation, t)
    }

    /// Attempts left for `operation` at time `now`, after pruning.
    pub fn remaining_attempts_at(&mut self, operation: Operation, now: Timestamp) -> (r: u32)
        ensures
            final(self).tracker(operation) == old(self).tracker(operation).pruned(now),
            final(self).others_unchanged(old(self), operation),
            r == old(self).tracker(operation).pruned(now).remaining(),
    {
        self.prune(operation, now);
        match operation {
            Operation::Login => self.login.remaining(),
            Operation::Command => self.command.remaining(),
            Operation::FileOperation => self.file_operation.remaining(),
        }
    }

    /// The number of attempts left for `operation` in the current window.
    pub fn remaining_attempts(&mut self, operation: Operation) -> (r: u32)
        ensures
            exists|t: Timestamp|
                {
                    &&& final(self).tracker(operation) == old(self).tracker(operation).pruned(t)
                    &&& r == old(self).tracker(operation).pruned(t).remaining()
                },
            final(self).others_unchanged(old(self), operation),
    {
        let t = now();
        self.remaining_attempts_at(operation, t)
    }

    /// Clears every operation's recorded attempts; limits are kept.
    pub fn reset(&mut self)
        ensures
            forall|o: Operation|
                #[trigger] final(self).tracker(o) == (TrackerView { times: Seq::empty(), ..old(self).tracker(o) }),
    {
        self.login.clear();
        self.command.clear();
        self.file_operation.clear();
        assert forall|o: Operation|
            #[trigger] self.tracker(o) == (TrackerView { times: Seq::empty(), ..old(self).tracker(o) }) by {
            match o {
                Operation::Login => {},
                Operation::Command => {},
                Operation::FileOperation => {},
            }
        }
    }

    /// Clears the recorded attempts of one operation; limits are kept.
    pub fn reset_operation(&mut self, operation: Operation)
        ensures
            final(self).tracker(operation) == (TrackerView { times: Seq::empty(), ..old(self).tracker(operation) }),
            final(self).others_unchanged(old(self), operation),
    {
        match operation {
            Operation::Login => self.login.clear(),
            Operation::Command => self.command.clear(),
            Operation::FileOperation => self.file_operation.clear(),
        }
    }
}

impl Default for RateLimiter {
    fn default() -> (l: Self)
        ensures
            l.is_default(),
    {
        Self::new()
    }
}


proof fn lemma_after_cutoff(s: Seq<Timestamp>, cutoff: int)
    ensures
        after_cutoff(s, cutoff).len() <= s.len(),
        forall|i: int|
            0 <= i < after_cutoff(s, cutoff).len() ==> (#[trigger] after_cutoff(s, cutoff)[i]).total_nanos()
                > cutoff,
        forall|i: int| 0 <= i < s.len() && s[i].total_nanos() > cutoff ==> after_cutoff(s, cutoff).contains(s[i]),
    decreases s.len(),
{
    if s.len() > 0 {
        lemma_after_cutoff(s.drop_last(), cutoff);
        let rest = after_cutoff(s.drop_last(), cutoff);
        assert forall|i: int| 0 <= i < s.len() && s[i].total_nanos() > cutoff implies after_cutoff(
            s,
            cutoff,
        ).contains(s[i]) by {
            if i < s.len() - 1 {
                assert(s.drop_last()[i] == s[i]);
                let j = choose|j: int| 0 <= j < rest.len() && rest[j] == s[i];
                if s.last().total_nanos() > cutoff {
                    assert(after_cutoff(s, cutoff)[j] == s[i]);
                } else {
                    assert(after_cutoff(s, cutoff)[j] == s[i]);
                }
            } else {
                assert(after_cutoff(s, cutoff)[after_cutoff(s, cutoff).len() - 1] == s[i]);
            }
        }
    }
}

/// The sliding window keeps exactly the attempts made after its start:
/// every kept attempt is newer than the cutoff, every such attempt is kept,
/// and pruning never adds attempts.
pub proof fn law_window_keeps_recent_attempts(v: TrackerView, now: Timestamp)
    ensures
        v.pruned(now).times.len() <= v.times.len(),
        forall|i: int|
            0 <= i < v.pruned(now).times.len() ==> (#[trigger] v.pruned(now).times[i]).total_nanos()
                > window_cutoff(now, v.window_seconds),
        forall|i: int|
            0 <= i < v.times.len() && (#[trigger] v.times[i]).total_nanos() > window_cutoff(now, v.window_seconds)
                ==> v.pruned(now).times.contains(v.times[i]),
{
    lemma_after_cutoff(v.times, window_cutoff(now, v.window_seconds));
}

/// An attempt is recorded only while the window holds fewer attempts than
/// the maximum, so recording never takes a window past its limit.
pub proof fn law_recording_stays_within_limit(v: TrackerView, now: Timestamp)
    requires
        !v.pruned(now).limited(),
        v.pruned(now).times.len() <= u32::MAX,
    ensures
        v.pruned(now).times.push(now).len() <= v.max_attempts,
{
}

/// A cleared tracker is not limited unless its maximum is zero, and has all
/// its attempts available.
pub proof fn law_cleared_tracker_is_open(max_attempts: u32, window_seconds: u64, now: Timestamp)
    ensures
        TrackerView::empty(max_attempts, window_seconds).pruned(now).limited() <==> max_attempts == 0,
        TrackerView::empty(max_attempts, window_seconds).pruned(now).remaining() == max_attempts,
{
}


/// Pruning twice at the same time is the same as pruning once.
pub proof fn law_pruning_idempotent(v: TrackerView, now: Timestamp)
    ensures
        v.pruned(now).pruned(now) == v.pruned(now),
{
    lemma_after_cutoff_idempotent(v.times, window_cutoff(now, v.window_seconds));
}

proof fn lemma_after_cutoff_idempotent(s: Seq<Timestamp>, cutoff: int)
    ensures
        after_cutoff(after_cutoff(s, cutoff), cutoff) == after_cutoff(s, cutoff),
    decreases s.len(),
{
    if s.len() > 0 {
        lemma_after_cutoff_idempotent(s.drop_last(), cutoff);
        let rest = after_cutoff(s.drop_last(), cutoff);
        if s.last().total_nanos() > cutoff {
            let r = rest.push(s.last());
            assert(r.drop_last() =~= rest);
            assert(r.last() == s.last());
        }
    }
}

} // verus!
