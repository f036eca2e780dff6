//! Vault lifecycle state machine.
//!
//! ```text
//! Uninitialized --Initialize--> Locked --Unlock--> Unlocked
//!       ^                        |  ^                  |
//!       +-------Destroy----------+  +---Lock/AutoLock--+
//! ```
//!
//! | From          | To            | Transition | Guard              |
//! |---------------|---------------|------------|--------------------|
//! | Uninitialized | Locked        | Initialize | —                  |
//! | Locked        | Unlocked      | Unlock     | —                  |
//! | Unlocked      | Locked        | Lock       | —                  |
//! | Unlocked      | Locked        | AutoLock   | —                  |
//! | Locked        | Uninitialized | Destroy    | confirmation token |
//!
//! Every other combination is rejected and leaves the machine unchanged.
//! Every accepted transition records exactly one event for the audit log.

use vstd::prelude::*;
use vstd::string::*;
use crate::error::{KestrelError, KestrelResult};
use crate::text::{push_decimal, decimal};
use crate::time::{Timestamp, now, rfc3339, rfc3339_text};

verus! {

/// The lifecycle states of the vault.
#[derive(Debug, Clone, Copy, PartialEq, Eq, Structural, Hash)]
pub enum VaultState {
    /// The vault has not been created yet.
    Uninitialized,
    /// The vault exists but is locked; no key material is in memory.
    Locked,
    /// The vault is unlocked.
    Unlocked,
}

/// Display name of a state.
pub open spec fn state_name(s: VaultState) -> Seq<char> {
    match s {
        VaultState::Uninitialized => "Uninitialized"@,
        VaultState::Locked => "Locked"@,
        VaultState::Unlocked => "Unlocked"@,
    }
}

impl VaultState {
    /// The display name of the state ("Uninitialized", "Locked" or "Unlocked").
    pub fn to_string(&self) -> (s: String)
        ensures
            s@ == state_name(*self),
    {
        match self {
            VaultState::Uninitialized => String::from_str("Uninitialized"),
            VaultState::Locked => String::from_str("Locked"),
            VaultState::Unlocked => String::from_str("Unlocked"),
        }
    }
}

/// The transitions of the vault lifecycle.
#[derive(Debug, Clone, Copy, PartialEq, Eq, Structural, Hash)]
pub enum VaultTransition {
    /// Create the vault (Uninitialized → Locked).
    Initialize,
    /// Unlock with the master password (Locked → Unlocked).
    Unlock,
    /// Lock on user request (Unlocked → Locked).
    Lock,
    /// Lock after inactivity (Unlocked → Locked).
    AutoLock,
    /// Destroy all data (Locked → Uninitialized); needs a confirmation token.
    Destroy,
}

/// Display name of a transition.
pub open spec fn transition_name(t: VaultTransition) -> Seq<char> {
    match t {
        VaultTransition::Initialize => "Initialize"@,
        VaultTransition::Unlock => "Unlock"@,
        VaultTransition::Lock => "Lock"@,
        VaultTransition::AutoLock => "AutoLock"@,
        VaultTransition::Destroy => "Destroy"@,
    }
}

impl VaultTransition {
    /// The display name of the transition.
    pub fn to_string(&self) -> (s: String)
        ensures
            s@ == transition_name(*self),
    {
        match self {
            VaultTransition::Initialize => String::from_str("Initialize"),
            VaultTransition::Unlock => String::from_str("Unlock"),
            VaultTransition::Lock => String::from_str("Lock"),
            VaultTransition::AutoLock => String::from_str("AutoLock"),
            VaultTransition::Destroy => String::from_str("Destroy"),
        }
    }
}

/// The state a transition leads to, or `None` when the transition is not
/// allowed from `from` (`confirmed` tells whether a destroy confirmation
/// token is present).
pub open spec fn target_state(from: VaultState, t: VaultTransition, confirmed: bool) -> Option<VaultState> {
    match (from, t) {
        (VaultState::Uninitialized, VaultTransition::Initialize) => Some(VaultState::Locked),
        (VaultState::Locked, VaultTransition::Unlock) => Some(VaultState::Unlocked),
        (VaultState::Unlocked, VaultTransition::Lock) => Some(VaultState::Locked),
        (VaultState::Unlocked, VaultTransition::AutoLock) => Some(VaultState::Locked),
        (VaultState::Locked, VaultTransition::Destroy) => if confirmed {
            Some(VaultState::Uninitialized)
        } else {
            None
        },
        _ => None,
    }
}

/// The record of an accepted transition.
#[derive(Debug, Clone)]
pub struct TransitionResult {
    /// The state before the transition.
    pub from_state: VaultState,
    /// The state after the transition.
    pub to_state: VaultState,
    /// The transition that was applied.
    pub transition: VaultTransition,
    /// When the transition occurred.
    pub timestamp: Timestamp,
}

/// Events emitted by the state machine for the audit log. They carry no secrets.
#[derive(Debug, Clone)]
pub enum VaultStateEvent {
    /// The vault was created.
    VaultCreated {
        /// When the vault was created.
        timestamp: Timestamp,
    },
    /// The vault was unlocked.
    VaultUnlocked {
        /// When the vault was unlocked.
        timestamp: Timestamp,
    },
    /// The vault was locked.
    VaultLocked {
        /// When the vault was locked.
        timestamp: Timestamp,
        /// Whether the lock was automatic (inactivity) or requested.
        auto_locked: bool,
    },
    /// The vault was destroyed.
    VaultDestroyed {
        /// When the vault was destroyed.
        timestamp: Timestamp,
    },
    /// A transition was attempted but rejected.
    TransitionRejected {
        /// The state at the time of the attempt.
        current_state: VaultState,
        /// The transition that was attempted.
        attempted_transition: VaultTransition,
        /// Why the transition was rejected.
        reason: String,
        /// When the attempt occurred.
        timestamp: Timestamp,
    },
}

/// Whether `e` is the event that transition `t` emits.
pub open spec fn event_for(t: VaultTransition, e: VaultStateEvent) -> bool {
    match t {
        VaultTransition::Initialize => e is VaultCreated,
        VaultTransition::Unlock => e is VaultUnlocked,
        VaultTransition::Lock => e matches VaultStateEvent::VaultLocked { auto_locked, .. } && !auto_locked,
        VaultTransition::AutoLock => e matches VaultStateEvent::VaultLocked { auto_locked, .. } && auto_locked,
        VaultTransition::Destroy => e is VaultDestroyed,
    }
}

/// Length of the inactivity timeout in nanoseconds.
pub open spec fn timeout_nanos(timeout_minutes: u32) -> int {
    timeout_minutes as int * 60_000_000_000
}

/// Auto-lock fires when the vault is unlocked, activity has been recorded, and
/// strictly more than the timeout has elapsed since that activity.
pub open spec fn auto_lock_due(
    state: VaultState,
    last_activity: Option<Timestamp>,
    now: Timestamp,
    timeout_minutes: u32,
) -> bool {
    state == VaultState::Unlocked && match last_activity {
        Some(last) => now.total_nanos() - last.total_nanos() > timeout_nanos(timeout_minutes),
        None => false,
    }
}

fn auto_lock_due_at(
    state: VaultState,
    last_activity: Option<Timestamp>,
    now: Timestamp,
    timeout_minutes: u32,
) -> (r: bool)
    ensures
        r == auto_lock_due(state, last_activity, now, timeout_minutes),
{
    if state != VaultState::Unlocked {
        return false;
    }
    match last_activity {
        Some(last) => {
            let elapsed = now.nanos_since_epoch() - last.nanos_since_epoch();
            elapsed > (timeout_minutes as i128) * 60_000_000_000i128
        },
        None => false,
    }
}

/// Contextual information handed to transition guards.
#[derive(Debug, Clone)]
pub struct VaultContext {
    /// The current vault state.
    pub state: VaultState,
    /// When the vault was last unlocked.
    pub last_unlocked_at: Option<Timestamp>,
    /// When the last user activity occurred.
    pub last_activity_at: Option<Timestamp>,
    /// Number of failed unlock attempts since the last lock.
    pub failed_unlock_attempts: u32,
    /// The destroy confirmation token, when one was provided.
    pub destroy_confirmation: Option<String>,
}

impl VaultContext {
    /// A context in the `Uninitialized` state with nothing recorded.
    pub fn new() -> (c: Self)
        ensures
            c.state == VaultState::Uninitialized,
            c.last_unlocked_at is None,
            c.last_activity_at is None,
            c.failed_unlock_attempts == 0,
            c.destroy_confirmation is None,
    {
        VaultContext {
            state: VaultState::Uninitialized,
            last_unlocked_at: None,
            last_activity_at: None,
            failed_unlock_attempts: 0,
            destroy_confirmation: None,
        }
    }

    /// A context for the given state, with nothing else recorded.
    pub fn with_state(state: VaultState) -> (c: Self)
        ensures
            c.state == state,
            c.last_unlocked_at is None,
            c.last_activity_at is None,
            c.failed_unlock_attempts == 0,
            c.destroy_confirmation is None,
    {
        VaultContext { state, ..Self::new() }
    }

    /// Whether the auto-lock timeout has been exceeded at time `now`.
    pub fn is_auto_lock_triggered_at(&self, now: Timestamp, timeout_minutes: u32) -> (r: bool)
        ensures
            r == auto_lock_due(self.state, self.last_activity_at, now, timeout_minutes),
    {
        auto_lock_due_at(self.state, self.last_activity_at, now, timeout_minutes)
    }

    /// Whether the auto-lock timeout has been exceeded now: the vault is
    /// unlocked and more than `timeout_minutes` have passed since the last
    /// recorded activity.
    pub fn is_auto_lock_triggered(&self, timeout_minutes: u32) -> (r: bool)
        ensures
            exists|t: Timestamp| r == auto_lock_due(self.state, self.last_activity_at, t, timeout_minutes),
            self.state != VaultState::Unlocked ==> !r,
            self.last_activity_at is None ==> !r,
    {
        let t = now();
        self.is_auto_lock_triggered_at(t, timeout_minutes)
    }
}

impl Default for VaultContext {
    fn default() -> (c: Self)
        ensures
            c.state == VaultState::Uninitialized,
            c.last_unlocked_at is None,
            c.last_activity_at is None,
            c.failed_unlock_attempts == 0,
            c.destroy_confirmation is None,
    {
        Self::new()
    }
}

/// The vault lifecycle state machine: the single authority on which
/// transitions are allowed.
pub struct VaultStateMachine {
    state: VaultState,
    state_entered_at: Timestamp,
    last_unlocked_at: Option<Timestamp>,
    last_activity_at: Option<Timestamp>,
    failed_unlock_attempts: u32,
    pending_events: Vec<VaultStateEvent>,
}

impl VaultStateMachine {
    /// The current state.
    pub closed spec fn current(&self) -> VaultState {
        self.state
    }

    /// When the current state was entered.
    pub closed spec fn entered_at(&self) -> Timestamp {
        self.state_entered_at
    }

    /// When the vault was last unlocked, if it is unlocked.
    pub closed spec fn unlocked_at(&self) -> Option<Timestamp> {
        self.last_unlocked_at
    }

    /// When activity was last recorded.
    pub closed spec fn activity_at(&self) -> Option<Timestamp> {
        self.last_activity_at
    }

    /// Failed unlock attempts counted so far.
    pub closed spec fn failures(&self) -> u32 {
        self.failed_unlock_attempts
    }

    /// Events not yet drained, oldest first.
    pub closed spec fn events(&self) -> Seq<VaultStateEvent> {
        self.pending_events@
    }

    /// A machine in `state` with nothing else recorded.
    pub open spec fn is_fresh(&self, state: VaultState) -> bool {
        &&& self.current() == state
        &&& self.unlocked_at() is None
        &&& self.activity_at() is None
        &&& self.failures() == 0
        &&& self.events().len() == 0
    }

    /// A new state machine in `Uninitialized`.
    pub fn new() -> (sm: Self)
        ensures
            sm.is_fresh(VaultState::Uninitialized),
    {
        Self::from_state(VaultState::Uninitialized)
    }

    /// A state machine at a given state (used when restoring persisted state).
    pub fn from_state(state: VaultState) -> (sm: Self)
        ensures
            sm.is_fresh(state),
    {
        VaultStateMachine {
            state,
            state_entered_at: now(),
            last_unlocked_at: None,
            last_activity_at: None,
            failed_unlock_attempts: 0,
            pending_events: Vec::new(),
        }
    }

    /// The current vault state.
    pub fn state(&self) -> (s: VaultState)
        ensures
            s == self.current(),
    {
        self.state
    }

    /// When the current state was entered.
    pub fn state_entered_at(&self) -> (t: Timestamp)
        ensures
            t == self.entered_at(),
    {
        self.state_entered_at
    }

    /// When the vault was last unlocked.
    pub fn last_unlocked_at(&self) -> (t: Option<Timestamp>)
        ensures
            t == self.unlocked_at(),
    {
        self.last_unlocked_at
    }

    /// When user activity was last recorded.
    pub fn last_activity_at(&self) -> (t: Option<Timestamp>)
        ensures
            t == self.activity_at(),
    {
        self.last_activity_at
    }

    /// The number of failed unlock attempts.
    pub fn failed_unlock_attempts(&self) -> (n: u32)
        ensures
            n == self.failures(),
    {
        self.failed_unlock_attempts
    }

    /// Records user activity now; nothing else changes.
    pub fn record_activity(&mut self)
        ensures
            final(self).activity_at() is Some,
            final(self).current() == old(self).current(),
            final(self).entered_at() == old(self).entered_at(),
            final(self).unlocked_at() == old(self).unlocked_at(),
            final(self).failures() == old(self).failures(),
            final(self).events() == old(self).events(),
    {
        self.last_activity_at = Some(now());
    }

    /// Takes the pending events, oldest first, leaving none behind.
    pub fn drain_events(&mut self) -> (events: Vec<VaultStateEvent>)
        ensures
            events@ == old(self).events(),
            final(self).events().len() == 0,
            final(self).current() == old(self).current(),
            final(self).entered_at() == old(self).entered_at(),
            final(self).unlocked_at() == old(self).unlocked_at(),
            final(self).activity_at() == old(self).activity_at(),
            final(self).failures() == old(self).failures(),
    {
        let mut taken: Vec<VaultStateEvent> = Vec::new();
        std::mem::swap(&mut taken, &mut self.pending_events);
        taken
    }

    /// Attempts a transition.
    ///
    /// On success the state becomes the target state, the bookkeeping fields
    /// are updated (unlock resets the failure counter and starts activity
    /// tracking; lock and auto-lock clear it; destroy clears everything) and
    /// exactly one event is appended. On failure (`Unauthorized`) nothing
    /// changes.
    pub fn transition(
        &mut self,
        transition: VaultTransition,
        context: &VaultContext,
    ) -> (r: KestrelResult<TransitionResult>)
        ensures
            ({
                let target = target_state(old(self).current(), transition, context.destroy_confirmation is Some);
                match r {
                    Ok(res) => {
                        &&& target == Some(res.to_state)
                        &&& res.from_state == old(self).current()
                        &&& res.transition == transition
                        &&& final(self).current() == res.to_state
                        &&& final(self).events().len() == old(self).events().len() + 1
                        &&& final(self).events().drop_last() == old(self).events()
                        &&& event_for(transition, final(self).events().last())
                        &&& match transition {
                            VaultTransition::Initialize => {
                                &&& final(self).failures() == 0
                                &&& final(self).unlocked_at() == old(self).unlocked_at()
                                &&& final(self).activity_at() == old(self).activity_at()
                            },
                            VaultTransition::Unlock => {
                                &&& final(self).failures() == 0
                                &&& final(self).unlocked_at() is Some
                                &&& final(self).activity_at() is Some
                            },
                            VaultTransition::Lock | VaultTransition::AutoLock => {
                                &&& final(self).failures() == old(self).failures()
                                &&& final(self).unlocked_at() is None
                                &&& final(self).activity_at() is None
                            },
                            VaultTransition::Destroy => {
                                &&& final(self).failures() == 0
                                &&& final(self).unlocked_at() is None
                                &&& final(self).activity_at() is None
                            },
                        }
                    },
                    Err(e) => {
                        &&& target is None
                        &&& e is Unauthorized
                        &&& final(self).current() == old(self).current()
                        &&& final(self).entered_at() == old(self).entered_at()
                        &&& final(self).unlocked_at() == old(self).unlocked_at()
                        &&& final(self).activity_at() == old(self).activity_at()
                        &&& final(self).failures() == old(self).failures()
                        &&& final(self).events().len() == old(self).events().len() + 1
                        &&& final(self).events().drop_last() == old(self).events()
                        &&& final(self).events().last() matches VaultStateEvent::TransitionRejected {
                            current_state: s,
                            attempted_transition: a,
                            ..
                        } && s == old(self).current() && a == transition
                    },
                }
            }),
    {
        let from_state = self.state;
        let to_state = match self.check_transition(from_state, transition, context) {
            Ok(to) => to,
            Err((e, reason)) => {
                let rejected = self.emit_rejection(from_state, transition, reason);
                self.pending_events.push(rejected);
                assert(self.pending_events@.drop_last() =~= old(self).pending_events@);
                return Err(e);
            },
        };
        let t = now();
        self.state = to_state;
        self.state_entered_at = t;
        match transition {
            VaultTransition::Initialize => {
                self.failed_unlock_attempts = 0;
                self.pending_events.push(VaultStateEvent::VaultCreated { timestamp: t });
            },
            VaultTransition::Unlock => {
                self.failed_unlock_attempts = 0;
                self.last_unlocked_at = Some(t);
                self.last_activity_at = Some(t);
                self.pending_events.push(VaultStateEvent::VaultUnlocked { timestamp: t });
            },
            VaultTransition::Lock => {
                self.last_unlocked_at = None;
                self.last_activity_at = None;
                self.pending_events.push(VaultStateEvent::VaultLocked { timestamp: t, auto_locked: false });
            },
            VaultTransition::AutoLock => {
                self.last_unlocked_at = None;
                self.last_activity_at = None;
                self.pending_events.push(VaultStateEvent::VaultLocked { timestamp: t, auto_locked: true });
            },
            VaultTransition::Destroy => {
                self.last_unlocked_at = None;
                self.last_activity_at = None;
                self.failed_unlock_attempts = 0;
                self.pending_events.push(VaultStateEvent::VaultDestroyed { timestamp: t });
            },
        }
        assert(self.pending_events@.drop_last() =~= old(self).pending_events@);
        Ok(TransitionResult { from_state, to_state, transition, timestamp: t })
    }

    /// Records a failed unlock attempt.
    pub fn record_failed_unlock(&mut self)
        requires
            old(self).failures() < u32::MAX,
        ensures
            final(self).failures() == old(self).failures() + 1,
            final(self).current() == old(self).current(),
            final(self).entered_at() == old(self).entered_at(),
            final(self).unlocked_at() == old(self).unlocked_at(),
            final(self).activity_at() == old(self).activity_at(),
            final(self).events() == old(self).events(),
    {
        self.failed_unlock_attempts = self.failed_unlock_attempts + 1;
    }

    /// Resets the failed unlock counter.
    pub fn reset_failed_unlocks(&mut self)
        ensures
            final(self).failures() == 0,
            final(self).current() == old(self).current(),
            final(self).entered_at() == old(self).entered_at(),
            final(self).unlocked_at() == old(self).unlocked_at(),
            final(self).activity_at() == old(self).activity_at(),
            final(self).events() == old(self).events(),
    {
        self.failed_unlock_attempts = 0;
    }

    /// Whether a transition would be accepted, without performing it.
    pub fn can_transition(&self, transition: VaultTransition, context: &VaultContext) -> (r: bool)
        ensures
            r == target_state(self.current(), transition, context.destroy_confirmation is Some) is Some,
    {
        self.validate_transition(self.state, transition, context).is_ok()
    }

    /// Validates a transition from `from` and returns the target state.
    fn validate_transition(
        &self,
        from: VaultState,
        transition: VaultTransition,
        context: &VaultContext,
    ) -> (r: KestrelResult<VaultState>)
        ensures
            match r {
                Ok(s) => target_state(from, transition, context.destroy_confirmation is Some) == Some(s),
                Err(e) => target_state(from, transition, context.destroy_confirmation is Some) is None
                    && e is Unauthorized,
            },
    {
        match self.check_transition(from, transition, context) {
            Ok(to) => Ok(to),
            Err((e, _reason)) => Err(e),
        }
    }

    /// Checks a transition from `from`: the target state, or the error
    /// together with the reason recorded for the audit log.
    fn check_transition(
        &self,
        from: VaultState,
        transition: VaultTransition,
        context: &VaultContext,
    ) -> (r: Result<VaultState, (KestrelError, String)>)
        ensures
            match r {
                Ok(s) => target_state(from, transition, context.destroy_confirmation is Some) == Some(s),
                Err((e, _)) => target_state(from, transition, context.destroy_confirmation is Some) is None
                    && e is Unauthorized,
            },
    {
        match (from, transition) {
            (VaultState::Uninitialized, VaultTransition::Initialize) => Ok(VaultState::Locked),
            (VaultState::Locked, VaultTransition::Unlock) => Ok(VaultState::Unlocked),
            (VaultState::Unlocked, VaultTransition::Lock) => Ok(VaultState::Locked),
            (VaultState::Unlocked, VaultTransition::AutoLock) => Ok(VaultState::Locked),
            (VaultState::Locked, VaultTransition::Destroy) => {
                if context.destroy_confirmation.is_none() {
                    return Err(
                        (
                            KestrelError::Unauthorized(String::from_str("Vault destruction requires confirmation")),
                            String::from_str("Destroy requires a confirmation token"),
                        ),
                    );
                }
                Ok(VaultState::Uninitialized)
            },
            _ => {
                let mut reason = String::from_str("Transition ");
                reason.append(transition.to_string().as_str());
                reason.append(" is not valid from state ");
                reason.append(from.to_string().as_str());
                Err((KestrelError::Unauthorized(reason.clone()), reason))
            },
        }
    }

    /// Builds a transition-rejected event, recorded for the audit log.
    fn emit_rejection(
        &self,
        current_state: VaultState,
        attempted_transition: VaultTransition,
        reason: String,
    ) -> (e: VaultStateEvent)
        ensures
            e matches VaultStateEvent::TransitionRejected { current_state: s, attempted_transition: a, reason: m, .. }
                && s == current_state && a == attempted_transition && m == reason,
    {
        VaultStateEvent::TransitionRejected { current_state, attempted_transition, reason, timestamp: now() }
    }

    /// Whether auto-lock is due at time `now`.
    pub fn should_auto_lock_at(&self, now: Timestamp, timeout_minutes: u32) -> (r: bool)
        ensures
            r == auto_lock_due(self.current(), self.activity_at(), now, timeout_minutes),
    {
        auto_lock_due_at(self.state, self.last_activity_at, now, timeout_minutes)
    }

    /// Whether auto-lock is due now: the vault is unlocked and more than
    /// `timeout_minutes` have passed since the last recorded activity.
    pub fn should_auto_lock(&self, timeout_minutes: u32) -> (r: bool)
        ensures
            exists|t: Timestamp| r == auto_lock_due(self.current(), self.activity_at(), t, timeout_minutes),
            self.current() != VaultState::Unlocked ==> !r,
            self.activity_at() is None ==> !r,
    {
        let t = now();
        self.should_auto_lock_at(t, timeout_minutes)
    }

    /// A one-line description: state, when it was entered and the failure count.
    pub fn to_string(&self) -> (s: String)
        ensures
            s@ == "VaultStateMachine(state="@ + state_name(self.current()) + ", entered_at="@
                + match rfc3339_text(self.entered_at().secs, self.entered_at().nanos) {
                Some(text) => text,
                None => Seq::empty(),
            } + ", failed_unlocks="@ + decimal(self.failures() as nat) + ")"@,
    {
        let mut s = String::from_str("VaultStateMachine(state=");
        s.append(self.state.to_string().as_str());
        s.append(", entered_at=");
        match rfc3339(self.state_entered_at.secs, self.state_entered_at.nanos) {
            Some(text) => s.append(text.as_str()),
            None => {},
        }
        s.append(", failed_unlocks=");
        push_decimal(&mut s, self.failed_unlock_attempts as u64);
        s.append(")");
        s
    }
}

impl Default for VaultStateMachine {
    fn default() -> (sm: Self)
        ensures
            sm.is_fresh(VaultState::Uninitialized),
    {
        Self::new()
    }
}


/// Exactly the five documented transitions are accepted: Initialize from
/// Uninitialized, Unlock from Locked, Lock and AutoLock from Unlocked, and
/// a confirmed Destroy from Locked.
pub proof fn law_transition_table(from: VaultState, t: VaultTransition, confirmed: bool)
    ensures
        target_state(from, t, confirmed) is Some <==> {
            ||| (from == VaultState::Uninitialized && t == VaultTransition::Initialize)
            ||| (from == VaultState::Locked && t == VaultTransition::Unlock)
            ||| (from == VaultState::Unlocked && t == VaultTransition::Lock)
            ||| (from == VaultState::Unlocked && t == VaultTransition::AutoLock)
            ||| (from == VaultState::Locked && t == VaultTransition::Destroy && confirmed)
        },
{
}

/// The vault becomes unlocked only by unlocking a locked vault.
pub proof fn law_unlocked_only_by_unlock(from: VaultState, t: VaultTransition, confirmed: bool)
    ensures
        target_state(from, t, confirmed) == Some(VaultState::Unlocked) ==> from == VaultState::Locked && t
            == VaultTransition::Unlock,
{
}

/// Destroying the vault always needs a confirmation token.
pub proof fn law_destroy_needs_confirmation(from: VaultState)
    ensures
        target_state(from, VaultTransition::Destroy, false) is None,
{
}

/// Every accepted transition moves to a different state.
pub proof fn law_transitions_change_state(from: VaultState, t: VaultTransition, confirmed: bool)
    ensures
        target_state(from, t, confirmed) matches Some(to) ==> to != from,
{
}

/// No state is skipped: an uninitialized vault can only become locked, and
/// only a confirmed destroy of a locked vault makes it uninitialized again.
pub proof fn law_no_skipped_states(from: VaultState, t: VaultTransition, confirmed: bool)
    ensures
        from == VaultState::Uninitialized && target_state(from, t, confirmed) is Some ==> target_state(
            from,
            t,
            confirmed,
        ) == Some(VaultState::Locked),
        target_state(from, t, confirmed) == Some(VaultState::Uninitialized) ==> from == VaultState::Locked && t
            == VaultTransition::Destroy && confirmed,
{
}

} // verus!
