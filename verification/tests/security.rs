use kestrel_vault::error::KestrelError;
use kestrel_vault::security::lockout::{check_lockout, FailedAttemptTracker, LockoutState};
use kestrel_vault::security::rate_limit::{Operation, RateLimiter};
use kestrel_vault::security::vault_state::{
    VaultContext, VaultState, VaultStateEvent, VaultStateMachine, VaultTransition,
};
use kestrel_vault::time::Timestamp;

/// The current time, read from the system clock.
fn clock() -> Timestamp {
    let d = std::time::SystemTime::now().duration_since(std::time::UNIX_EPOCH).unwrap();
    Timestamp { secs: d.as_secs() as i64, nanos: d.subsec_nanos() }
}

fn at(secs: i64) -> Timestamp {
    Timestamp { secs, nanos: 0 }
}

// ── lockout ──

#[test]
fn new_tracker_is_allowed() {
    let tracker = FailedAttemptTracker::new();
    assert_eq!(tracker.lockout_state(), LockoutState::Allowed);
    assert_eq!(tracker.failed_count(), 0);
}

#[test]
fn three_failures_still_allowed() {
    let mut tracker = FailedAttemptTracker::new();
    for _ in 0..3 {
        tracker.record_failed_attempt();
    }
    assert_eq!(tracker.lockout_state(), LockoutState::Allowed);
}

#[test]
fn four_failures_cause_delay() {
    let mut tracker = FailedAttemptTracker::new();
    for _ in 0..4 {
        tracker.record_failed_attempt();
    }
    assert_eq!(tracker.lockout_state(), LockoutState::Delayed(2));
}

#[test]
fn five_failures_increase_delay() {
    let mut tracker = FailedAttemptTracker::new();
    for _ in 0..5 {
        tracker.record_failed_attempt();
    }
    assert_eq!(tracker.lockout_state(), LockoutState::Delayed(4));
}

#[test]
fn six_failures_cause_lockout() {
    let mut tracker = FailedAttemptTracker::new();
    for _ in 0..6 {
        tracker.record_failed_attempt();
    }
    assert_eq!(tracker.lockout_state(), LockoutState::LockedOut);
}

#[test]
fn reset_clears_all_attempts() {
    let mut tracker = FailedAttemptTracker::new();
    for _ in 0..6 {
        tracker.record_failed_attempt();
    }
    assert_eq!(tracker.lockout_state(), LockoutState::LockedOut);
    tracker.reset();
    assert_eq!(tracker.failed_count(), 0);
    assert_eq!(tracker.lockout_state(), LockoutState::Allowed);
}

#[test]
fn lockout_state_display() {
    assert_eq!(LockoutState::Allowed.to_string(), "Allowed");
    assert_eq!(LockoutState::Delayed(4).to_string(), "Delayed(4s)");
    assert_eq!(LockoutState::LockedOut.to_string(), "LockedOut");
}

#[test]
fn delay_expires_once_its_seconds_have_passed() {
    let mut tracker = FailedAttemptTracker::new();
    for _ in 0..4 {
        tracker.record_failed_attempt();
    }
    let after = clock();
    assert_eq!(tracker.lockout_state_at(at(0)), LockoutState::Delayed(2));
    assert_eq!(tracker.lockout_state_at(Timestamp { secs: after.secs + 3, nanos: after.nanos }), LockoutState::Allowed);
    tracker.record_failed_attempt();
    let after = clock();
    assert_eq!(tracker.lockout_state_at(at(0)), LockoutState::Delayed(4));
    assert_eq!(tracker.lockout_state_at(Timestamp { secs: after.secs + 5, nanos: after.nanos }), LockoutState::Allowed);
    tracker.record_failed_attempt();
    assert_eq!(tracker.lockout_state_at(at(i64::MAX)), LockoutState::LockedOut);
}

#[test]
fn check_lockout_messages() {
    assert!(check_lockout(LockoutState::Allowed).is_ok());
    match check_lockout(LockoutState::Delayed(4)) {
        Err(KestrelError::Unauthorized(m)) => {
            assert_eq!(m, "Too many failed attempts. Please wait 4 seconds before retrying.")
        }
        other => panic!("unexpected {:?}", other),
    }
    match check_lockout(LockoutState::LockedOut) {
        Err(KestrelError::Unauthorized(m)) => {
            assert_eq!(m, "Account locked due to too many failed attempts. Vault reset required.")
        }
        other => panic!("unexpected {:?}", other),
    }
}

// ── rate limiting ──

#[test]
fn new_limiter_is_not_limited() {
    let mut limiter = RateLimiter::new();
    assert!(!limiter.is_rate_limited(Operation::Login));
    assert!(!limiter.is_rate_limited(Operation::Command));
    assert!(!limiter.is_rate_limited(Operation::FileOperation));
}

#[test]
fn rate_limit_triggers_after_max_attempts() {
    let mut limiter = RateLimiter::with_custom_limit(Operation::Login, 2, 300);
    assert!(limiter.record_attempt(Operation::Login).is_ok());
    assert!(limiter.record_attempt(Operation::Login).is_ok());
    assert!(limiter.is_rate_limited(Operation::Login));
}

#[test]
fn record_attempt_fails_when_limited() {
    let mut limiter = RateLimiter::with_custom_limit(Operation::Login, 1, 300);
    assert!(limiter.record_attempt(Operation::Login).is_ok());
    let result = limiter.record_attempt(Operation::Login);
    assert!(result.is_err());
}

#[test]
fn reset_clears_all_limits() {
    let mut limiter = RateLimiter::with_custom_limit(Operation::Login, 1, 300);
    limiter.record_attempt(Operation::Login).unwrap();
    assert!(limiter.is_rate_limited(Operation::Login));
    limiter.reset();
    assert!(!limiter.is_rate_limited(Operation::Login));
}

#[test]
fn operations_are_independent() {
    let mut limiter = RateLimiter::with_custom_limit(Operation::Login, 1, 300);
    limiter.record_attempt(Operation::Login).unwrap();
    assert!(limiter.is_rate_limited(Operation::Login));
    assert!(!limiter.is_rate_limited(Operation::Command));
}

#[test]
fn remaining_attempts_decreases() {
    let mut limiter = RateLimiter::with_custom_limit(Operation::Login, 3, 300);
    assert_eq!(limiter.remaining_attempts(Operation::Login), 3);
    limiter.record_attempt(Operation::Login).unwrap();
    assert_eq!(limiter.remaining_attempts(Operation::Login), 2);
}

#[test]
fn operation_defaults() {
    assert_eq!(Operation::Login.default_max_attempts(), 5);
    assert_eq!(Operation::Command.default_max_attempts(), 60);
    assert_eq!(Operation::FileOperation.default_max_attempts(), 20);
    assert_eq!(Operation::Login.default_window_seconds(), 300);
    assert_eq!(Operation::Command.default_window_seconds(), 60);
    assert_eq!(Operation::FileOperation.default_window_seconds(), 60);
}

#[test]
fn window_slides_past_old_attempts() {
    let mut limiter = RateLimiter::with_custom_limit(Operation::Command, 2, 10);
    limiter.record_attempt_at(Operation::Command, at(100)).unwrap();
    limiter.record_attempt_at(Operation::Command, at(105)).unwrap();
    assert!(limiter.is_rate_limited_at(Operation::Command, at(109)));
    assert!(limiter.record_attempt_at(Operation::Command, at(109)).is_err());
    // At 110 the cutoff is 100: an attempt exactly at the cutoff has left the window.
    assert!(!limiter.is_rate_limited_at(Operation::Command, at(110)));
    assert_eq!(limiter.remaining_attempts_at(Operation::Command, at(116)), 2);
}

#[test]
fn rate_limit_error_names_the_operation() {
    let mut limiter = RateLimiter::with_custom_limit(Operation::FileOperation, 0, 60);
    match limiter.record_attempt(Operation::FileOperation) {
        Err(KestrelError::Unauthorized(m)) => assert_eq!(m, "Rate limit exceeded for FileOperation"),
        other => panic!("unexpected {:?}", other),
    }
}

#[test]
fn reset_operation_only_clears_that_operation() {
    let mut limiter = RateLimiter::with_custom_limit(Operation::Login, 1, 300);
    limiter.record_attempt(Operation::Login).unwrap();
    limiter.reset_operation(Operation::Command);
    assert!(limiter.is_rate_limited(Operation::Login));
    limiter.reset_operation(Operation::Login);
    assert!(!limiter.is_rate_limited(Operation::Login));
}

// ── vault state machine ──

fn test_context() -> VaultContext {
    VaultContext::new()
}

fn destroy_context() -> VaultContext {
    VaultContext {
        state: VaultState::Locked,
        destroy_confirmation: Some("confirm-destroy-token".to_string()),
        ..VaultContext::new()
    }
}

#[test]
fn vault_state_display() {
    assert_eq!(VaultState::Uninitialized.to_string(), "Uninitialized");
    assert_eq!(VaultState::Locked.to_string(), "Locked");
    assert_eq!(VaultState::Unlocked.to_string(), "Unlocked");
}

#[test]
fn vault_transition_display() {
    assert_eq!(VaultTransition::Initialize.to_string(), "Initialize");
    assert_eq!(VaultTransition::Unlock.to_string(), "Unlock");
    assert_eq!(VaultTransition::Lock.to_string(), "Lock");
    assert_eq!(VaultTransition::AutoLock.to_string(), "AutoLock");
    assert_eq!(VaultTransition::Destroy.to_string(), "Destroy");
}

#[test]
fn new_state_machine_starts_uninitialized() {
    let sm = VaultStateMachine::new();
    assert_eq!(sm.state(), VaultState::Uninitialized);
    assert_eq!(sm.failed_unlock_attempts(), 0);
}

#[test]
fn from_state_creates_machine_at_given_state() {
    let sm = VaultStateMachine::from_state(VaultState::Locked);
    assert_eq!(sm.state(), VaultState::Locked);
}

#[test]
fn initialize_from_uninitialized() {
    let mut sm = VaultStateMachine::new();
    let result = sm.transition(VaultTransition::Initialize, &test_context()).unwrap();
    assert_eq!(result.from_state, VaultState::Uninitialized);
    assert_eq!(result.to_state, VaultState::Locked);
    assert_eq!(sm.state(), VaultState::Locked);
}

#[test]
fn unlock_from_locked() {
    let mut sm = VaultStateMachine::from_state(VaultState::Locked);
    let result = sm.transition(VaultTransition::Unlock, &test_context()).unwrap();
    assert_eq!(result.from_state, VaultState::Locked);
    assert_eq!(result.to_state, VaultState::Unlocked);
    assert_eq!(sm.state(), VaultState::Unlocked);
}

#[test]
fn lock_from_unlocked() {
    let mut sm = VaultStateMachine::from_state(VaultState::Unlocked);
    let result = sm.transition(VaultTransition::Lock, &test_context()).unwrap();
    assert_eq!(result.from_state, VaultState::Unlocked);
    assert_eq!(result.to_state, VaultState::Locked);
    assert_eq!(sm.state(), VaultState::Locked);
}

#[test]
fn auto_lock_from_unlocked() {
    let mut sm = VaultStateMachine::from_state(VaultState::Unlocked);
    let result = sm.transition(VaultTransition::AutoLock, &test_context()).unwrap();
    assert_eq!(result.from_state, VaultState::Unlocked);
    assert_eq!(result.to_state, VaultState::Locked);
    assert_eq!(sm.state(), VaultState::Locked);
}

#[test]
fn destroy_from_locked_with_confirmation() {
    let mut sm = VaultStateMachine::from_state(VaultState::Locked);
    let ctx = destroy_context();
    let result = sm.transition(VaultTransition::Destroy, &ctx).unwrap();
    assert_eq!(result.from_state, VaultState::Locked);
    assert_eq!(result.to_state, VaultState::Uninitialized);
    assert_eq!(sm.state(), VaultState::Uninitialized);
}

#[test]
fn full_lifecycle_initialize_unlock_lock_unlock_lock() {
    let mut sm = VaultStateMachine::new();
    let r = sm.transition(VaultTransition::Initialize, &test_context()).unwrap();
    assert_eq!(r.to_state, VaultState::Locked);
    let r = sm.transition(VaultTransition::Unlock, &test_context()).unwrap();
    assert_eq!(r.to_state, VaultState::Unlocked);
    let r = sm.transition(VaultTransition::Lock, &test_context()).unwrap();
    assert_eq!(r.to_state, VaultState::Locked);
    let r = sm.transition(VaultTransition::Unlock, &test_context()).unwrap();
    assert_eq!(r.to_state, VaultState::Unlocked);
    let r = sm.transition(VaultTransition::AutoLock, &test_context()).unwrap();
    assert_eq!(r.to_state, VaultState::Locked);
}

#[test]
fn unlock_from_uninitialized_is_invalid() {
    let mut sm = VaultStateMachine::new();
    let result = sm.transition(VaultTransition::Unlock, &test_context());
    assert!(result.is_err());
    assert_eq!(sm.state(), VaultState::Uninitialized);
}

#[test]
fn initialize_from_locked_is_invalid() {
    let mut sm = VaultStateMachine::from_state(VaultState::Locked);
    let result = sm.transition(VaultTransition::Initialize, &test_context());
    assert!(result.is_err());
    assert_eq!(sm.state(), VaultState::Locked);
}

#[test]
fn lock_from_locked_is_invalid() {
    let mut sm = VaultStateMachine::from_state(VaultState::Locked);
    let result = sm.transition(VaultTransition::Lock, &test_context());
    assert!(result.is_err());
    assert_eq!(sm.state(), VaultState::Locked);
}

#[test]
fn unlock_from_unlocked_is_invalid() {
    let mut sm = VaultStateMachine::from_state(VaultState::Unlocked);
    let result = sm.transition(VaultTransition::Unlock, &test_context());
    assert!(result.is_err());
    assert_eq!(sm.state(), VaultState::Unlocked);
}

#[test]
fn initialize_from_unlocked_is_invalid() {
    let mut sm = VaultStateMachine::from_state(VaultState::Unlocked);
    let result = sm.transition(VaultTransition::Initialize, &test_context());
    assert!(result.is_err());
    assert_eq!(sm.state(), VaultState::Unlocked);
}

#[test]
fn destroy_from_unlocked_is_invalid() {
    let mut sm = VaultStateMachine::from_state(VaultState::Unlocked);
    let result = sm.transition(VaultTransition::Destroy, &destroy_context());
    assert!(result.is_err());
    assert_eq!(sm.state(), VaultState::Unlocked);
}

#[test]
fn destroy_from_uninitialized_is_invalid() {
    let mut sm = VaultStateMachine::new();
    let result = sm.transition(VaultTransition::Destroy, &destroy_context());
    assert!(result.is_err());
    assert_eq!(sm.state(), VaultState::Uninitialized);
}

#[test]
fn destroy_without_confirmation_is_rejected() {
    let mut sm = VaultStateMachine::from_state(VaultState::Locked);
    let ctx = test_context();
    let result = sm.transition(VaultTransition::Destroy, &ctx);
    assert!(result.is_err());
    assert_eq!(sm.state(), VaultState::Locked);
}

#[test]
fn record_failed_unlock_increments_counter() {
    let mut sm = VaultStateMachine::from_state(VaultState::Locked);
    assert_eq!(sm.failed_unlock_attempts(), 0);
    sm.record_failed_unlock();
    assert_eq!(sm.failed_unlock_attempts(), 1);
    sm.record_failed_unlock();
    assert_eq!(sm.failed_unlock_attempts(), 2);
}

#[test]
fn successful_unlock_resets_failure_counter() {
    let mut sm = VaultStateMachine::from_state(VaultState::Locked);
    sm.record_failed_unlock();
    sm.record_failed_unlock();
    sm.record_failed_unlock();
    assert_eq!(sm.failed_unlock_attempts(), 3);
    sm.transition(VaultTransition::Unlock, &test_context()).unwrap();
    assert_eq!(sm.failed_unlock_attempts(), 0);
}

#[test]
fn reset_failed_unlocks_clears_counter() {
    let mut sm = VaultStateMachine::from_state(VaultState::Locked);
    sm.record_failed_unlock();
    sm.record_failed_unlock();
    sm.reset_failed_unlocks();
    assert_eq!(sm.failed_unlock_attempts(), 0);
}

#[test]
fn record_activity_updates_timestamp() {
    let mut sm = VaultStateMachine::from_state(VaultState::Unlocked);
    assert!(sm.last_activity_at().is_none());
    sm.record_activity();
    assert!(sm.last_activity_at().is_some());
}

#[test]
fn unlock_sets_activity_timestamp() {
    let mut sm = VaultStateMachine::from_state(VaultState::Locked);
    assert!(sm.last_activity_at().is_none());
    sm.transition(VaultTransition::Unlock, &test_context()).unwrap();
    assert!(sm.last_activity_at().is_some());
}

#[test]
fn lock_clears_activity_timestamp() {
    let mut sm = VaultStateMachine::from_state(VaultState::Unlocked);
    sm.record_activity();
    assert!(sm.last_activity_at().is_some());
    sm.transition(VaultTransition::Lock, &test_context()).unwrap();
    assert!(sm.last_activity_at().is_none());
}

#[test]
fn initialize_emits_vault_created_event() {
    let mut sm = VaultStateMachine::new();
    sm.transition(VaultTransition::Initialize, &test_context()).unwrap();
    let events = sm.drain_events();
    assert_eq!(events.len(), 1);
    assert!(matches!(events[0], VaultStateEvent::VaultCreated { .. }));
}

#[test]
fn unlock_emits_vault_unlocked_event() {
    let mut sm = VaultStateMachine::from_state(VaultState::Locked);
    sm.transition(VaultTransition::Unlock, &test_context()).unwrap();
    let events = sm.drain_events();
    assert_eq!(events.len(), 1);
    assert!(matches!(events[0], VaultStateEvent::VaultUnlocked { .. }));
}

#[test]
fn lock_emits_vault_locked_event_manual() {
    let mut sm = VaultStateMachine::from_state(VaultState::Unlocked);
    sm.transition(VaultTransition::Lock, &test_context()).unwrap();
    let events = sm.drain_events();
    assert_eq!(events.len(), 1);
    match &events[0] {
        VaultStateEvent::VaultLocked { auto_locked, .. } => {
            assert!(!auto_locked);
        }
        _ => panic!("Expected VaultLocked event"),
    }
}

#[test]
fn auto_lock_emits_vault_locked_event_auto() {
    let mut sm = VaultStateMachine::from_state(VaultState::Unlocked);
    sm.transition(VaultTransition::AutoLock, &test_context()).unwrap();
    let events = sm.drain_events();
    assert_eq!(events.len(), 1);
    match &events[0] {
        VaultStateEvent::VaultLocked { auto_locked, .. } => {
            assert!(auto_locked);
        }
        _ => panic!("Expected VaultLocked event"),
    }
}

#[test]
fn destroy_emits_vault_destroyed_event() {
    let mut sm = VaultStateMachine::from_state(VaultState::Locked);
    let ctx = destroy_context();
    sm.transition(VaultTransition::Destroy, &ctx).unwrap();
    let events = sm.drain_events();
    assert_eq!(events.len(), 1);
    assert!(matches!(events[0], VaultStateEvent::VaultDestroyed { .. }));
}

#[test]
fn drain_events_clears_pending() {
    let mut sm = VaultStateMachine::new();
    sm.transition(VaultTransition::Initialize, &test_context()).unwrap();
    let first = sm.drain_events();
    assert_eq!(first.len(), 1);
    let second = sm.drain_events();
    assert!(second.is_empty());
}

#[test]
fn can_transition_checks_validity() {
    let sm = VaultStateMachine::new();
    assert!(sm.can_transition(VaultTransition::Initialize, &test_context()));
    assert!(!sm.can_transition(VaultTransition::Unlock, &test_context()));
    assert!(!sm.can_transition(VaultTransition::Lock, &test_context()));
}

#[test]
fn can_transition_destroy_requires_confirmation() {
    let sm = VaultStateMachine::from_state(VaultState::Locked);
    assert!(!sm.can_transition(VaultTransition::Destroy, &test_context()));
    assert!(sm.can_transition(VaultTransition::Destroy, &destroy_context()));
}

#[test]
fn context_default_is_uninitialized() {
    let ctx = VaultContext::default();
    assert_eq!(ctx.state, VaultState::Uninitialized);
}

#[test]
fn context_auto_lock_not_triggered_when_locked() {
    let ctx = VaultContext::with_state(VaultState::Locked);
    assert!(!ctx.is_auto_lock_triggered(5));
}

#[test]
fn transition_result_records_correct_states() {
    let mut sm = VaultStateMachine::new();
    let result = sm.transition(VaultTransition::Initialize, &test_context()).unwrap();
    assert_eq!(result.from_state, VaultState::Uninitialized);
    assert_eq!(result.to_state, VaultState::Locked);
    assert_eq!(result.transition, VaultTransition::Initialize);
}

#[test]
fn state_machine_display() {
    let sm = VaultStateMachine::new();
    let display = sm.to_string();
    assert!(display.contains("Uninitialized"));
    assert!(display.contains("failed_unlocks=0"));
}

#[test]
fn rejected_transition_is_recorded_and_changes_nothing_else() {
    let mut sm = VaultStateMachine::from_state(VaultState::Locked);
    sm.record_failed_unlock();
    let err = sm.transition(VaultTransition::Lock, &test_context());
    assert!(matches!(err, Err(KestrelError::Unauthorized(_))));
    assert_eq!(sm.state(), VaultState::Locked);
    assert_eq!(sm.failed_unlock_attempts(), 1);
    let events = sm.drain_events();
    assert_eq!(events.len(), 1);
    match &events[0] {
        VaultStateEvent::TransitionRejected { current_state, attempted_transition, reason, .. } => {
            assert_eq!(*current_state, VaultState::Locked);
            assert_eq!(*attempted_transition, VaultTransition::Lock);
            assert_eq!(reason, "Transition Lock is not valid from state Locked");
        }
        other => panic!("unexpected {:?}", other),
    }
    assert!(sm.drain_events().is_empty());
}

#[test]
fn auto_lock_timing() {
    let mut ctx = VaultContext::with_state(VaultState::Unlocked);
    assert!(!ctx.is_auto_lock_triggered_at(at(1000), 1));
    ctx.last_activity_at = Some(at(1000));
    assert!(!ctx.is_auto_lock_triggered_at(at(1060), 1));
    assert!(ctx.is_auto_lock_triggered_at(Timestamp { secs: 1060, nanos: 1 }, 1));
    let mut sm = VaultStateMachine::from_state(VaultState::Unlocked);
    sm.record_activity();
    let last = sm.last_activity_at().unwrap();
    assert!(!sm.should_auto_lock_at(last, 0));
    assert!(sm.should_auto_lock_at(Timestamp { secs: last.secs + 61, nanos: last.nanos }, 1));
}
