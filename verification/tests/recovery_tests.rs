use std::sync::atomic::Ordering;
use std::time::{Duration, Instant};

use audio_router::recovery::{InputRecoveryManager, RecoveryAction};

#[test]
fn test_exit_on_loss() {
    let mut mgr = InputRecoveryManager::new(true, false, None);
    assert!(mgr.is_normal());

    let action = mgr.on_input_lost();
    assert_eq!(action, RecoveryAction::ShouldExit);
    assert!(mgr.should_exit());
    assert!(mgr.input_lost.load(Ordering::Acquire));
}

#[test]
fn test_reconnect_backoff() {
    let mut mgr = InputRecoveryManager::new(false, false, None);
    assert!(mgr.is_normal());

    let action = mgr.on_input_lost();
    assert_eq!(action, RecoveryAction::NoAction);
    assert!(!mgr.is_normal());
    assert!(mgr.input_lost.load(Ordering::Acquire));

    let action = mgr.tick();
    assert_eq!(action, RecoveryAction::TryReconnectOriginal);

    let action = mgr.tick();
    assert_eq!(action, RecoveryAction::NoAction);

    let action = mgr.tick();
    assert_eq!(action, RecoveryAction::TryReconnectOriginal);
}

#[test]
fn test_on_input_recovered() {
    let mut mgr = InputRecoveryManager::new(false, false, None);
    mgr.on_input_lost();
    assert!(!mgr.is_normal());

    mgr.on_input_recovered();
    assert!(mgr.is_normal());
    assert!(!mgr.input_lost.load(Ordering::Acquire));
}

#[test]
fn test_normal_tick_returns_none() {
    let mut mgr = InputRecoveryManager::new(false, false, None);
    for _ in 0..10 {
        assert_eq!(mgr.tick(), RecoveryAction::NoAction);
    }
}

#[test]
fn test_should_exit_when_not_exit_on_loss() {
    let mut mgr = InputRecoveryManager::new(false, false, None);
    assert!(!mgr.should_exit());

    mgr.on_input_lost();
    assert!(!mgr.should_exit());
}

#[test]
fn test_input_lost_flag_clone() {
    let mgr = InputRecoveryManager::new(false, false, None);
    let flag = mgr.input_lost_flag();
    assert!(!flag.load(Ordering::Acquire));
}

#[test]
fn test_fallback_tick_timing() {
    let mut mgr = InputRecoveryManager::new(false, true, None);
    mgr.on_input_lost();

    mgr.lost_time = Some(Instant::now() - Duration::from_secs(31));

    let action = mgr.tick();
    assert_eq!(action, RecoveryAction::TryFallbackToDefault);

    let action = mgr.tick();
    assert_eq!(action, RecoveryAction::NoAction);

    for _ in 0..48 {
        mgr.tick();
    }
    let action = mgr.tick();
    assert_eq!(action, RecoveryAction::TryFallbackToDefault);
}

/// The ticks (counted from 1) at which a run of `n` ticks acts.
fn acting_ticks(mgr: &mut InputRecoveryManager, n: usize, over_30s: bool) -> Vec<(usize, RecoveryAction)> {
    let mut acts = Vec::new();
    for t in 1..=n {
        let a = mgr.tick_with(over_30s);
        if a != RecoveryAction::NoAction {
            acts.push((t, a));
        }
    }
    acts
}

#[test]
fn backoff_doubles_up_to_five_seconds() {
    let mut mgr = InputRecoveryManager::new(false, true, Some("Mic".to_string()));
    mgr.on_input_lost();
    let ticks: Vec<usize> = acting_ticks(&mut mgr, 213, false).into_iter().map(|(t, _)| t).collect();
    // Intervals of 100, 200, 400, 800, 1600, 3200 ms, then 5000 ms.
    assert_eq!(ticks, vec![1, 3, 7, 15, 31, 63, 113, 163, 213]);
}

#[test]
fn fallback_repeats_every_fifty_ticks() {
    let mut mgr = InputRecoveryManager::new(false, true, None);
    mgr.on_input_lost();
    assert_eq!(mgr.tick_with(true), RecoveryAction::TryFallbackToDefault);
    let acts = acting_ticks(&mut mgr, 100, true);
    assert_eq!(
        acts,
        vec![(50, RecoveryAction::TryFallbackToDefault), (100, RecoveryAction::TryFallbackToDefault)]
    );
}

#[test]
fn without_fallback_the_original_device_is_retried_every_five_seconds() {
    let mut mgr = InputRecoveryManager::new(false, false, None);
    mgr.on_input_lost();
    assert_eq!(mgr.tick_with(true), RecoveryAction::TryReconnectOriginal);
    let acts = acting_ticks(&mut mgr, 100, true);
    assert_eq!(
        acts,
        vec![(50, RecoveryAction::TryReconnectOriginal), (100, RecoveryAction::TryReconnectOriginal)]
    );
}

#[test]
fn ticks_never_ask_to_exit() {
    let mut mgr = InputRecoveryManager::new(true, false, None);
    assert_eq!(mgr.on_input_lost(), RecoveryAction::ShouldExit);
    for _ in 0..200 {
        assert_ne!(mgr.tick_with(false), RecoveryAction::ShouldExit);
    }
    mgr.on_input_recovered();
    assert!(mgr.is_normal());
    assert!(!mgr.should_exit());
    assert_eq!(mgr.tick_with(true), RecoveryAction::NoAction);
}

#[test]
fn a_second_loss_restarts_the_backoff() {
    let mut mgr = InputRecoveryManager::new(false, false, None);
    mgr.on_input_lost();
    assert_eq!(mgr.tick_with(false), RecoveryAction::TryReconnectOriginal);
    assert_eq!(mgr.tick_with(false), RecoveryAction::NoAction);
    mgr.on_input_lost();
    // Back to the first 100 ms interval.
    assert_eq!(mgr.tick_with(false), RecoveryAction::TryReconnectOriginal);
    assert_eq!(mgr.tick_with(false), RecoveryAction::NoAction);
}

#[test]
fn shared_flag_follows_loss_and_recovery() {
    let mut mgr = InputRecoveryManager::new(false, false, None);
    let flag = mgr.input_lost_flag();
    assert!(!flag.load(Ordering::Acquire));
    mgr.on_input_lost();
    assert!(flag.load(Ordering::Acquire));
    mgr.tick();
    assert!(flag.load(Ordering::Acquire));
    mgr.on_input_recovered();
    assert!(!flag.load(Ordering::Acquire));
}

#[test]
fn should_exit_reads_the_shared_flag() {
    let mgr = InputRecoveryManager::new(true, false, None);
    let flag = mgr.input_lost_flag();
    assert!(!mgr.should_exit());
    flag.store(true, Ordering::Release);
    assert!(mgr.should_exit());
    let other = InputRecoveryManager::new(false, false, None);
    other.input_lost_flag().store(true, Ordering::Release);
    assert!(!other.should_exit());
}
