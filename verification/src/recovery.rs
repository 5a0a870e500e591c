use vstd::prelude::*;
use std::sync::atomic::{AtomicBool, Ordering};
use std::sync::Arc;
use std::time::Instant;

use crate::clock::{instant_now, instant_elapsed, duration_whole_secs};
use crate::error::RecoveryState;
use crate::flag::share_flag;

verus! {

/// What the control thread should do after a recovery event or tick.
#[derive(Debug, Clone, PartialEq, Eq, Structural)]
pub enum RecoveryAction {
    /// Nothing to do.
    NoAction,
    /// Try to reconnect to the original input device.
    TryReconnectOriginal,
    /// Try to switch to the system default input device.
    TryFallbackToDefault,
    /// The process should exit (input lost while exit-on-loss is set).
    ShouldExit,
}

/// Milliseconds that one tick stands for.
pub const TICK_MS: u64 = 100;
/// First reconnect interval after a loss, in milliseconds.
pub const FIRST_INTERVAL_MS: u64 = 100;
/// Longest reconnect interval, and the fallback retry period, in milliseconds.
pub const MAX_INTERVAL_MS: u64 = 5000;
/// Seconds after a loss after which the backoff phase ends.
pub const BACKOFF_PHASE_SECS: u64 = 30;

/// The attempt counter after one more attempt (wraps at `u32::MAX`).
pub open spec fn next_attempt(a: u32) -> u32 {
    if a < u32::MAX { (a + 1) as u32 } else { 0 }
}

/// The interval after a backoff step: doubled, at most `MAX_INTERVAL_MS`.
pub open spec fn doubled_interval(i: u64) -> u64 {
    if 2 * i < MAX_INTERVAL_MS { (2 * i) as u64 } else { MAX_INTERVAL_MS }
}

/// The states, waits and intervals that the recovery machine can be in.
pub open spec fn recovery_wf(state: RecoveryState, acc: u64) -> bool {
    match state {
        RecoveryState::Normal => acc == 0,
        RecoveryState::ReconnectBackoff { attempt, next_interval_ms } => {
            &&& FIRST_INTERVAL_MS <= next_interval_ms <= MAX_INTERVAL_MS
            &&& next_interval_ms % TICK_MS == 0
            &&& acc < next_interval_ms
            &&& acc % TICK_MS == 0
        },
        RecoveryState::FallbackToDefault { .. } => acc < MAX_INTERVAL_MS && acc % TICK_MS == 0,
    }
}

/// One tick of the recovery machine: from the state, the accumulated wait
/// and whether 30 s have passed since the loss, the next state, the next
/// accumulated wait and the action.
pub open spec fn tick_step(
    state: RecoveryState,
    acc: u64,
    fallback_to_default: bool,
    over_30s: bool,
) -> (RecoveryState, u64, RecoveryAction) {
    match state {
        RecoveryState::Normal => (state, acc, RecoveryAction::NoAction),
        RecoveryState::ReconnectBackoff { attempt, next_interval_ms } => {
            let waited = acc + TICK_MS;
            if waited < next_interval_ms {
                (state, waited as u64, RecoveryAction::NoAction)
            } else if over_30s {
                if fallback_to_default {
                    (RecoveryState::FallbackToDefault { attempt: 0 }, 0, RecoveryAction::TryFallbackToDefault)
                } else {
                    (
                        RecoveryState::ReconnectBackoff { attempt, next_interval_ms: MAX_INTERVAL_MS },
                        0,
                        RecoveryAction::TryReconnectOriginal,
                    )
                }
            } else {
                (
                    RecoveryState::ReconnectBackoff {
                        attempt: next_attempt(attempt),
                        next_interval_ms: doubled_interval(next_interval_ms),
                    },
                    0,
                    RecoveryAction::TryReconnectOriginal,
                )
            }
        },
        RecoveryState::FallbackToDefault { attempt } => {
            let waited = acc + TICK_MS;
            if waited < MAX_INTERVAL_MS {
                (state, waited as u64, RecoveryAction::NoAction)
            } else {
                (RecoveryState::FallbackToDefault { attempt: next_attempt(attempt) }, 0, RecoveryAction::TryFallbackToDefault)
            }
        },
    }
}

/// Tracks recovery after the input device is lost.
///
/// - For the first 30 s, reconnects to the original device with exponential
///   backoff (100 ms doubling up to 5 s).
/// - After 30 s, either falls back to the default device every 5 s, or keeps
///   retrying the original device every 5 s.
/// - In exit-on-loss mode a loss asks the caller to exit.
pub struct InputRecoveryManager {
    state: RecoveryState,
    exit_on_loss: bool,
    fallback_to_default: bool,
    /// Shared "input lost" flag, read by the audio callbacks to mute output.
    pub input_lost: Arc<AtomicBool>,
    /// When the input was lost (used for the 30 s threshold).
    pub lost_time: Option<Instant>,
    accumulated_wait_ms: u64,
    original_device_name: Option<String>,
    lost: bool,
    /// Whole seconds since the loss as the clock showed them at the last
    /// tick (0 when no loss time was recorded then).
    loss_age_secs: u64,
}

impl InputRecoveryManager {
    /// The current recovery state.
    pub closed spec fn spec_state(&self) -> RecoveryState {
        self.state
    }

    /// The wait accumulated since the last attempt, in milliseconds.
    pub closed spec fn spec_accumulated(&self) -> u64 {
        self.accumulated_wait_ms
    }

    /// Whether the input is currently lost (the value last published to the flag).
    pub closed spec fn spec_lost(&self) -> bool {
        self.lost
    }

    /// Whether a loss asks the process to exit.
    pub closed spec fn spec_exit_on_loss(&self) -> bool {
        self.exit_on_loss
    }

    /// Whether the machine falls back to the default device after 30 s.
    pub closed spec fn spec_fallback(&self) -> bool {
        self.fallback_to_default
    }

    /// The name of the original input device.
    pub closed spec fn spec_device_name(&self) -> Option<String> {
        self.original_device_name
    }

    /// Whether a loss time is recorded.
    pub closed spec fn spec_has_lost_time(&self) -> bool {
        self.lost_time.is_some()
    }

    /// Whole seconds since the loss as the clock showed them at the last
    /// tick (0 when no loss time was recorded then, or after a new loss or
    /// a recovery).
    pub closed spec fn spec_loss_age_secs(&self) -> u64 {
        self.loss_age_secs
    }

    /// The shared "input lost" flag handle.
    pub closed spec fn spec_flag(&self) -> Arc<AtomicBool> {
        self.input_lost
    }

    /// The manager's internal invariant.
    pub closed spec fn wf(&self) -> bool {
        recovery_wf(self.state, self.accumulated_wait_ms)
    }

    /// Creates a manager in the normal state with the input not lost.
    pub fn new(
        exit_on_loss: bool,
        fallback_to_default: bool,
        original_device_name: Option<String>,
    ) -> (m: Self)
        ensures
            m.wf(),
            m.spec_state() == RecoveryState::Normal,
            m.spec_accumulated() == 0,
            !m.spec_lost(),
            m.spec_exit_on_loss() == exit_on_loss,
            m.spec_fallback() == fallback_to_default,
            m.spec_device_name() == original_device_name,
            !m.spec_has_lost_time(),
            m.spec_loss_age_secs() == 0,
    {
        InputRecoveryManager {
            state: RecoveryState::Normal,
            exit_on_loss,
            fallback_to_default,
            input_lost: Arc::new(AtomicBool::new(false)),
            lost_time: None,
            accumulated_wait_ms: 0,
            original_device_name,
            lost: false,
            loss_age_secs: 0,
        }
    }

    /// Called when the input device is lost.
    ///
    /// In exit-on-loss mode it marks the input lost and returns `ShouldExit`,
    /// leaving the state alone. Otherwise it marks the input lost, records the
    /// time and enters the backoff phase with a first interval of 100 ms.
    pub fn on_input_lost(&mut self) -> (action: RecoveryAction)
        requires
            old(self).wf(),
        ensures
            final(self).wf(),
            final(self).spec_lost(),
            final(self).spec_exit_on_loss() == old(self).spec_exit_on_loss(),
            final(self).spec_fallback() == old(self).spec_fallback(),
            final(self).spec_device_name() == old(self).spec_device_name(),
            final(self).spec_flag() == old(self).spec_flag(),
            old(self).spec_exit_on_loss() ==> {
                &&& action == RecoveryAction::ShouldExit
                &&& final(self).spec_state() == old(self).spec_state()
                &&& final(self).spec_accumulated() == old(self).spec_accumulated()
                &&& final(self).spec_has_lost_time() == old(self).spec_has_lost_time()
            },
            !old(self).spec_exit_on_loss() ==> {
                &&& action == RecoveryAction::NoAction
                &&& final(self).spec_state() == (RecoveryState::ReconnectBackoff {
                    attempt: 0,
                    next_interval_ms: FIRST_INTERVAL_MS,
                })
                &&& final(self).spec_accumulated() == 0
                &&& final(self).spec_has_lost_time()
                &&& final(self).spec_loss_age_secs() == 0
            },
    {
        if self.exit_on_loss {
            self.input_lost.store(true, Ordering::Release);
            self.lost = true;
            return RecoveryAction::ShouldExit;
        }
        self.input_lost.store(true, Ordering::Release);
        self.lost = true;
        self.lost_time = Some(instant_now());
        self.loss_age_secs = 0;
        self.accumulated_wait_ms = 0;
        self.state = RecoveryState::ReconnectBackoff { attempt: 0, next_interval_ms: FIRST_INTERVAL_MS };
        RecoveryAction::NoAction
    }

    /// Called when the input device is back: returns to the normal state and
    /// clears the lost flag.
    pub fn on_input_recovered(&mut self)
        requires
            old(self).wf(),
        ensures
            final(self).wf(),
            final(self).spec_state() == RecoveryState::Normal,
            final(self).spec_accumulated() == 0,
            !final(self).spec_lost(),
            !final(self).spec_has_lost_time(),
            final(self).spec_loss_age_secs() == 0,
            final(self).spec_exit_on_loss() == old(self).spec_exit_on_loss(),
            final(self).spec_fallback() == old(self).spec_fallback(),
            final(self).spec_device_name() == old(self).spec_device_name(),
            final(self).spec_flag() == old(self).spec_flag(),
    {
        self.loss_age_secs = 0;
        self.input_lost.store(false, Ordering::Release);
        self.lost = false;
        self.state = RecoveryState::Normal;
        self.lost_time = None;
        self.accumulated_wait_ms = 0;
    }

    /// One tick of the machine, with `over_30s` telling whether 30 s have
    /// passed since the loss. Follows `tick_step` exactly.
    pub fn tick_with(&mut self, over_30s: bool) -> (action: RecoveryAction)
        requires
            old(self).wf(),
        ensures
            final(self).wf(),
            (final(self).spec_state(), final(self).spec_accumulated(), action) == tick_step(
                old(self).spec_state(),
                old(self).spec_accumulated(),
                old(self).spec_fallback(),
                over_30s,
            ),
            final(self).spec_lost() == old(self).spec_lost(),
            final(self).spec_has_lost_time() == old(self).spec_has_lost_time(),
            final(self).spec_exit_on_loss() == old(self).spec_exit_on_loss(),
            final(self).spec_fallback() == old(self).spec_fallback(),
            final(self).spec_device_name() == old(self).spec_device_name(),
            final(self).spec_flag() == old(self).spec_flag(),
            final(self).spec_loss_age_secs() == old(self).spec_loss_age_secs(),
    {
        match self.state {
            RecoveryState::Normal => RecoveryAction::NoAction,
            RecoveryState::ReconnectBackoff { attempt, next_interval_ms } => {
                let waited = self.accumulated_wait_ms + TICK_MS;
                if waited < next_interval_ms {
                    self.accumulated_wait_ms = waited;
                    return RecoveryAction::NoAction;
                }
                if over_30s {
                    if self.fallback_to_default {
                        self.state = RecoveryState::FallbackToDefault { attempt: 0 };
                        self.accumulated_wait_ms = 0;
                        RecoveryAction::TryFallbackToDefault
                    } else {
                        self.state = RecoveryState::ReconnectBackoff { attempt, next_interval_ms: MAX_INTERVAL_MS };
                        self.accumulated_wait_ms = 0;
                        RecoveryAction::TryReconnectOriginal
                    }
                } else {
                    let new_attempt = if attempt < u32::MAX { attempt + 1 } else { 0 };
                    let new_interval = if next_interval_ms < MAX_INTERVAL_MS / 2 {
                        next_interval_ms * 2
                    } else {
                        MAX_INTERVAL_MS
                    };
                    self.state = RecoveryState::ReconnectBackoff { attempt: new_attempt, next_interval_ms: new_interval };
                    self.accumulated_wait_ms = 0;
                    RecoveryAction::TryReconnectOriginal
                }
            },
            RecoveryState::FallbackToDefault { attempt } => {
                let waited = self.accumulated_wait_ms + TICK_MS;
                if waited < MAX_INTERVAL_MS {
                    self.accumulated_wait_ms = waited;
                    return RecoveryAction::NoAction;
                }
                let new_attempt = if attempt < u32::MAX { attempt + 1 } else { 0 };
                self.state = RecoveryState::FallbackToDefault { attempt: new_attempt };
                self.accumulated_wait_ms = 0;
                RecoveryAction::TryFallbackToDefault
            },
        }
    }

    /// Whether 30 s have passed since the loss, by the machine's clock, with
    /// the whole seconds the clock showed (false and 0 when no loss time is
    /// recorded).
    fn lost_for_backoff_phase(&self) -> (r: (bool, u64))
        ensures
            r.0 == (self.spec_has_lost_time() && r.1 >= BACKOFF_PHASE_SECS),
            !self.spec_has_lost_time() ==> r.1 == 0,
    {
        match &self.lost_time {
            Some(t) => {
                let elapsed = instant_elapsed(t);
                let secs = duration_whole_secs(&elapsed);
                (secs >= BACKOFF_PHASE_SECS, secs)
            },
            None => (false, 0),
        }
    }

    /// Called by the control thread every 100 ms; drives the machine one tick.
    ///
    /// Whether 30 s have passed since the loss comes from the clock; the
    /// result is `tick_step` for whichever answer the clock gave.
    pub fn tick(&mut self) -> (action: RecoveryAction)
        requires
            old(self).wf(),
        ensures
            final(self).wf(),
            exists|over_30s: bool|
                (final(self).spec_state(), final(self).spec_accumulated(), action) == tick_step(
                    old(self).spec_state(),
                    old(self).spec_accumulated(),
                    old(self).spec_fallback(),
                    over_30s,
                ),
            !old(self).spec_has_lost_time() ==> (final(self).spec_state(), final(self).spec_accumulated(), action)
                == tick_step(old(self).spec_state(), old(self).spec_accumulated(), old(self).spec_fallback(), false),
            final(self).spec_lost() == old(self).spec_lost(),
            final(self).spec_has_lost_time() == old(self).spec_has_lost_time(),
            final(self).spec_exit_on_loss() == old(self).spec_exit_on_loss(),
            final(self).spec_fallback() == old(self).spec_fallback(),
            final(self).spec_device_name() == old(self).spec_device_name(),
            final(self).spec_flag() == old(self).spec_flag(),
            !old(self).spec_has_lost_time() ==> final(self).spec_loss_age_secs() == 0,
            (final(self).spec_state(), final(self).spec_accumulated(), action) == tick_step(
                old(self).spec_state(),
                old(self).spec_accumulated(),
                old(self).spec_fallback(),
                old(self).spec_has_lost_time() && final(self).spec_loss_age_secs() >= BACKOFF_PHASE_SECS,
            ),
            old(self).spec_state() is ReconnectBackoff && final(self).spec_loss_age_secs() < BACKOFF_PHASE_SECS ==> {
                &&& action != RecoveryAction::TryFallbackToDefault
                &&& final(self).spec_state() is ReconnectBackoff
            },
    {
        let (over_30s, secs) = self.lost_for_backoff_phase();
        self.loss_age_secs = secs;
        let action = self.tick_with(over_30s);
        proof {
            let witness = old(self).spec_has_lost_time() && self.loss_age_secs >= BACKOFF_PHASE_SECS;
            assert((self.spec_state(), self.spec_accumulated(), action) == tick_step(
                old(self).spec_state(), old(self).spec_accumulated(), old(self).spec_fallback(), witness));
            if old(self).spec_state() is ReconnectBackoff {
                lemma_backoff_holds_within_30s(old(self).spec_state(), old(self).spec_accumulated(), old(self).spec_fallback(), secs);
            }
        }
        action
    }

    /// Whether the process should exit: exit-on-loss is set and the shared
    /// "input lost" flag is set (by this manager or by any other holder of
    /// the flag). The flag's content is opaque here, so the contract states
    /// only that without exit-on-loss the answer is `false`.
    pub fn should_exit(&self) -> (r: bool)
        ensures
            r ==> self.spec_exit_on_loss(),
    {
        self.exit_on_loss && self.input_lost.load(Ordering::Acquire)
    }

    /// Whether the machine is in the normal state.
    pub fn is_normal(&self) -> (r: bool)
        ensures
            r == (self.spec_state() == RecoveryState::Normal),
    {
        match self.state {
            RecoveryState::Normal => true,
            _ => false,
        }
    }

    /// A shared handle to the "input lost" flag, for the audio callbacks.
    pub fn input_lost_flag(&self) -> (flag: Arc<AtomicBool>)
        ensures
            flag == self.spec_flag(),
    {
        share_flag(&self.input_lost)
    }
}

// ---------------------------------------------------------------------------
// Laws of the recovery machine
// ---------------------------------------------------------------------------

/// The machine after `n` ticks, with the actions of those ticks in order.
pub open spec fn run_ticks(
    state: RecoveryState,
    acc: u64,
    fallback_to_default: bool,
    over_30s: bool,
    n: nat,
) -> (RecoveryState, u64, Seq<RecoveryAction>)
    decreases n,
{
    if n == 0 {
        (state, acc, Seq::empty())
    } else {
        let prev = run_ticks(state, acc, fallback_to_default, over_30s, (n - 1) as nat);
        let next = tick_step(prev.0, prev.1, fallback_to_default, over_30s);
        (next.0, next.1, prev.2.push(next.2))
    }
}

/// `n` ticks without an action.
pub open spec fn idle_actions(n: nat) -> Seq<RecoveryAction> {
    Seq::new(n, |i: int| RecoveryAction::NoAction)
}

/// A tick never asks the process to exit; only a loss in exit-on-loss
/// mode does.
pub proof fn lemma_tick_never_exits(state: RecoveryState, acc: u64, fallback_to_default: bool, over_30s: bool)
    ensures
        tick_step(state, acc, fallback_to_default, over_30s).2 != RecoveryAction::ShouldExit,
{
}

/// In the normal state a tick does nothing.
pub proof fn lemma_normal_tick_is_idle(acc: u64, fallback_to_default: bool, over_30s: bool)
    ensures
        tick_step(RecoveryState::Normal, acc, fallback_to_default, over_30s)
            == (RecoveryState::Normal, acc, RecoveryAction::NoAction),
{
}

/// Every tick keeps the machine well formed: the reconnect interval stays
/// between 100 ms and 5 s and the accumulated wait below the interval.
pub proof fn lemma_tick_preserves_wf(state: RecoveryState, acc: u64, fallback_to_default: bool, over_30s: bool)
    requires
        recovery_wf(state, acc),
    ensures
        recovery_wf(tick_step(state, acc, fallback_to_default, over_30s).0, tick_step(state, acc, fallback_to_default, over_30s).1),
{
}

proof fn lemma_wait_ticks(
    state: RecoveryState,
    period_ms: u64,
    fallback_to_default: bool,
    over_30s: bool,
    k: nat,
)
    requires
        recovery_wf(state, 0),
        state !is Normal,
        period_ms == (match state {
            RecoveryState::ReconnectBackoff { next_interval_ms, .. } => next_interval_ms,
            _ => MAX_INTERVAL_MS,
        }),
        k * TICK_MS < period_ms,
    ensures
        run_ticks(state, 0, fallback_to_default, over_30s, k) == (state, (k * TICK_MS) as u64, idle_actions(k)),
    decreases k,
{
    if k > 0 {
        lemma_wait_ticks(state, period_ms, fallback_to_default, over_30s, (k - 1) as nat);
        assert(idle_actions((k - 1) as nat).push(RecoveryAction::NoAction) =~= idle_actions(k));
    } else {
        assert(idle_actions(0) =~= Seq::<RecoveryAction>::empty());
    }
}

/// After switching to the default-device fallback, the machine retries the
/// default device exactly every 5 s: 49 idle ticks, then a retry on the
/// 50th, with the attempt counter advanced and the wait reset.
pub proof fn lemma_fallback_period(attempt: u32, fallback_to_default: bool, over_30s: bool)
    ensures
        run_ticks(RecoveryState::FallbackToDefault { attempt }, 0, fallback_to_default, over_30s, 50) == (
            RecoveryState::FallbackToDefault { attempt: next_attempt(attempt) },
            0u64,
            idle_actions(49).push(RecoveryAction::TryFallbackToDefault),
        ),
{
    let st = RecoveryState::FallbackToDefault { attempt };
    lemma_wait_ticks(st, MAX_INTERVAL_MS, fallback_to_default, over_30s, 49);
}

/// Within the first 30 s the machine reconnects with exponential backoff:
/// with an interval of `I` ms it waits `I / 100 - 1` idle ticks, tries the
/// original device on the next tick, and doubles the interval (at most 5 s).
pub proof fn lemma_backoff_period(attempt: u32, interval_ms: u64, fallback_to_default: bool)
    requires
        recovery_wf(RecoveryState::ReconnectBackoff { attempt, next_interval_ms: interval_ms }, 0),
    ensures
        run_ticks(
            RecoveryState::ReconnectBackoff { attempt, next_interval_ms: interval_ms },
            0,
            fallback_to_default,
            false,
            (interval_ms / TICK_MS) as nat,
        ) == (
            RecoveryState::ReconnectBackoff { attempt: next_attempt(attempt), next_interval_ms: doubled_interval(interval_ms) },
            0u64,
            idle_actions((interval_ms / TICK_MS - 1) as nat).push(RecoveryAction::TryReconnectOriginal),
        ),
{
    let st = RecoveryState::ReconnectBackoff { attempt, next_interval_ms: interval_ms };
    let n = (interval_ms / TICK_MS) as nat;
    assert(n >= 1);
    assert((n - 1) * TICK_MS < interval_ms);
    assert(n * TICK_MS == interval_ms);
    lemma_wait_ticks(st, interval_ms, fallback_to_default, false, (n - 1) as nat);
}

/// After 30 s without fallback the machine keeps retrying the original
/// device, every 5 s from then on, without counting the attempt.
pub proof fn lemma_backoff_after_30s_without_fallback(attempt: u32, interval_ms: u64)
    requires
        recovery_wf(RecoveryState::ReconnectBackoff { attempt, next_interval_ms: interval_ms }, 0),
    ensures
        run_ticks(
            RecoveryState::ReconnectBackoff { attempt, next_interval_ms: interval_ms },
            0,
            false,
            true,
            (interval_ms / TICK_MS) as nat,
        ) == (
            RecoveryState::ReconnectBackoff { attempt, next_interval_ms: MAX_INTERVAL_MS },
            0u64,
            idle_actions((interval_ms / TICK_MS - 1) as nat).push(RecoveryAction::TryReconnectOriginal),
        ),
{
    let st = RecoveryState::ReconnectBackoff { attempt, next_interval_ms: interval_ms };
    let n = (interval_ms / TICK_MS) as nat;
    assert(n * TICK_MS == interval_ms);
    lemma_wait_ticks(st, interval_ms, false, true, (n - 1) as nat);
}

/// After 30 s with fallback enabled, the next due attempt switches to the
/// default device, with a fresh attempt counter.
pub proof fn lemma_backoff_after_30s_with_fallback(attempt: u32, interval_ms: u64)
    requires
        recovery_wf(RecoveryState::ReconnectBackoff { attempt, next_interval_ms: interval_ms }, 0),
    ensures
        run_ticks(
            RecoveryState::ReconnectBackoff { attempt, next_interval_ms: interval_ms },
            0,
            true,
            true,
            (interval_ms / TICK_MS) as nat,
        ) == (
            RecoveryState::FallbackToDefault { attempt: 0 },
            0u64,
            idle_actions((interval_ms / TICK_MS - 1) as nat).push(RecoveryAction::TryFallbackToDefault),
        ),
{
    let st = RecoveryState::ReconnectBackoff { attempt, next_interval_ms: interval_ms };
    let n = (interval_ms / TICK_MS) as nat;
    assert(n * TICK_MS == interval_ms);
    lemma_wait_ticks(st, interval_ms, true, true, (n - 1) as nat);
}

/// The reconnect intervals of the backoff phase, starting from the first
/// interval: 100, 200, 400, 800, 1600, 3200, then 5000 ms for good.
pub proof fn lemma_backoff_schedule()
    ensures
        doubled_interval(FIRST_INTERVAL_MS) == 200,
        doubled_interval(200) == 400,
        doubled_interval(400) == 800,
        doubled_interval(800) == 1600,
        doubled_interval(1600) == 3200,
        doubled_interval(3200) == MAX_INTERVAL_MS,
        doubled_interval(MAX_INTERVAL_MS) == MAX_INTERVAL_MS,
{
}

/// Running `m + n` ticks is running `m` ticks, then `n` more from where
/// they left the machine.
proof fn lemma_run_ticks_split(state: RecoveryState, acc: u64, fallback_to_default: bool, over_30s: bool, m: nat, n: nat)
    ensures
        ({
            let first = run_ticks(state, acc, fallback_to_default, over_30s, m);
            let rest = run_ticks(first.0, first.1, fallback_to_default, over_30s, n);
            run_ticks(state, acc, fallback_to_default, over_30s, m + n) == (rest.0, rest.1, first.2 + rest.2)
        }),
    decreases n,
{
    let first = run_ticks(state, acc, fallback_to_default, over_30s, m);
    if n == 0 {
        assert(first.2 + Seq::<RecoveryAction>::empty() =~= first.2);
    } else {
        lemma_run_ticks_split(state, acc, fallback_to_default, over_30s, m, (n - 1) as nat);
        let prev = run_ticks(first.0, first.1, fallback_to_default, over_30s, (n - 1) as nat);
        let next = tick_step(prev.0, prev.1, fallback_to_default, over_30s);
        assert((first.2 + prev.2).push(next.2) =~= first.2 + prev.2.push(next.2));
        assert((m + n - 1) as nat == m + (n - 1) as nat);
    }
}

proof fn lemma_run_ticks_len(state: RecoveryState, acc: u64, fallback_to_default: bool, over_30s: bool, n: nat)
    ensures
        run_ticks(state, acc, fallback_to_default, over_30s, n).2.len() == n,
    decreases n,
{
    if n > 0 {
        lemma_run_ticks_len(state, acc, fallback_to_default, over_30s, (n - 1) as nat);
    }
}

/// The machine state right after a loss (without exit-on-loss).
pub open spec fn lost_state() -> RecoveryState {
    RecoveryState::ReconnectBackoff { attempt: 0, next_interval_ms: FIRST_INTERVAL_MS }
}

/// The action expected of the `n`-th tick (counted from 1).
pub open spec fn action_if(acts: bool) -> RecoveryAction {
    if acts { RecoveryAction::TryReconnectOriginal } else { RecoveryAction::NoAction }
}

/// Within 30 s of a loss the `n`-th tick (counted from 1) tries the original
/// device exactly when `n` is 1, 3, 7, 15, 31 or 63 (waits of 100, 200,
/// 400, 800, 1600 and 3200 ms), or every 50 ticks (5 s) after the 63rd.
pub open spec fn backoff_tick_acts(n: int) -> bool {
    n == 1 || n == 3 || n == 7 || n == 15 || n == 31 || n == 63 || (n >= 113 && (n - 63) % 50 == 0)
}

/// Reconnecting every 5 s from a wait of `j` ticks into the period: the
/// tick that completes the 5 s tries the device, the others wait.
proof fn lemma_steady_reconnect(attempt: u32, j: nat, fallback_to_default: bool, over_30s: bool, n: nat)
    requires
        j < 50,
        !over_30s || !fallback_to_default,
    ensures
        ({
            let r = run_ticks(
                RecoveryState::ReconnectBackoff { attempt, next_interval_ms: MAX_INTERVAL_MS },
                (j * 100) as u64,
                fallback_to_default,
                over_30s,
                n,
            );
            &&& r.0 matches RecoveryState::ReconnectBackoff { next_interval_ms, .. } && next_interval_ms == MAX_INTERVAL_MS
            &&& r.1 == ((j + n) % 50) * 100
            &&& r.2.len() == n
            &&& forall|k: int| 0 <= k < n ==> #[trigger] r.2[k] == action_if((j + k + 1) % 50 == 0)
        }),
    decreases n,
{
    if n > 0 {
        lemma_steady_reconnect(attempt, j, fallback_to_default, over_30s, (n - 1) as nat);
        let st = RecoveryState::ReconnectBackoff { attempt, next_interval_ms: MAX_INTERVAL_MS };
        let prev = run_ticks(st, (j * 100) as u64, fallback_to_default, over_30s, (n - 1) as nat);
        let r = run_ticks(st, (j * 100) as u64, fallback_to_default, over_30s, n);
        let q = (j + n - 1) % 50;
        assert(prev.1 == q * 100);
        if q + 1 < 50 {
            assert((j + n) % 50 == q + 1);
        } else {
            assert((j + n) % 50 == 0);
        }
        assert(r.2 == prev.2.push(r.2[n - 1]));
        assert forall|k: int| 0 <= k < n implies #[trigger] r.2[k] == action_if((j + k + 1) % 50 == 0) by {
            if k < n - 1 {
                assert(r.2[k] == prev.2[k]);
            }
        }
    }
}

/// The first 63 expected actions after a loss.
spec fn first_backoff_actions() -> Seq<RecoveryAction> {
    Seq::new(63, |k: int| action_if(backoff_tick_acts(k + 1)))
}

/// One doubling period of the backoff phase: from `m` ticks in, with the
/// interval `(m + 1) * 100` ms, the next `m + 1` ticks wait and then try.
proof fn lemma_backoff_stage(fallback_to_default: bool, m: nat, attempt: u32, interval: u64)
    requires
        run_ticks(lost_state(), 0, fallback_to_default, false, m) == (
            RecoveryState::ReconnectBackoff { attempt, next_interval_ms: interval },
            0u64,
            first_backoff_actions().subrange(0, m as int),
        ),
        recovery_wf(RecoveryState::ReconnectBackoff { attempt, next_interval_ms: interval }, 0),
        interval == (m + 1) * 100,
        2 * m + 1 <= 63,
        backoff_tick_acts(2 * m + 1 as int),
        forall|x: int| m + 1 <= x <= 2 * m ==> !backoff_tick_acts(x),
    ensures
        run_ticks(lost_state(), 0, fallback_to_default, false, 2 * m + 1) == (
            RecoveryState::ReconnectBackoff { attempt: next_attempt(attempt), next_interval_ms: doubled_interval(interval) },
            0u64,
            first_backoff_actions().subrange(0, (2 * m + 1) as int),
        ),
{
    let len = (interval / TICK_MS) as nat;
    assert(len == m + 1);
    lemma_backoff_period(attempt, interval, fallback_to_default);
    lemma_run_ticks_split(lost_state(), 0, fallback_to_default, false, m, len);
    assert((m + len) as nat == 2 * m + 1);
    let block = idle_actions((len - 1) as nat).push(RecoveryAction::TryReconnectOriginal);
    assert(first_backoff_actions().subrange(0, m as int) + block =~= first_backoff_actions().subrange(0, (2 * m + 1) as int));
}

proof fn lemma_first_backoff_ticks(fallback_to_default: bool)
    ensures
        ({
            let r = run_ticks(lost_state(), 0, fallback_to_default, false, 63);
            &&& r.0 == RecoveryState::ReconnectBackoff { attempt: 6, next_interval_ms: MAX_INTERVAL_MS }
            &&& r.1 == 0
            &&& r.2.len() == 63
            &&& forall|k: int| 0 <= k < 63 ==> #[trigger] r.2[k] == action_if(backoff_tick_acts(k + 1))
        }),
{
    let fb = fallback_to_default;
    lemma_backoff_schedule();
    assert(first_backoff_actions().subrange(0, 0) =~= Seq::<RecoveryAction>::empty());
    lemma_backoff_stage(fb, 0, 0, 100);
    lemma_backoff_stage(fb, 1, 1, 200);
    lemma_backoff_stage(fb, 3, 2, 400);
    lemma_backoff_stage(fb, 7, 3, 800);
    lemma_backoff_stage(fb, 15, 4, 1600);
    lemma_backoff_stage(fb, 31, 5, 3200);
    assert(first_backoff_actions().subrange(0, 63) =~= first_backoff_actions());
}

/// Within 30 s of a loss the recovery machine tries the original device on
/// the ticks that `backoff_tick_acts` names and waits on all others; it
/// never falls back or asks to exit, and it stays in the backoff phase.
pub proof fn lemma_backoff_tick_schedule(fallback_to_default: bool, n: nat)
    ensures
        run_ticks(lost_state(), 0, fallback_to_default, false, n).0 is ReconnectBackoff,
        run_ticks(lost_state(), 0, fallback_to_default, false, n).2.len() == n,
        forall|k: int| 0 <= k < n ==> #[trigger] run_ticks(lost_state(), 0, fallback_to_default, false, n).2[k]
            == action_if(backoff_tick_acts(k + 1)),
{
    let fb = fallback_to_default;
    lemma_first_backoff_ticks(fb);
    let r63 = run_ticks(lost_state(), 0, fb, false, 63);
    if n <= 63 {
        lemma_run_ticks_split(lost_state(), 0, fb, false, n, (63 - n) as nat);
        let rn = run_ticks(lost_state(), 0, fb, false, n);
        let rest = run_ticks(rn.0, rn.1, fb, false, (63 - n) as nat);
        assert((n + (63 - n) as nat) as nat == 63);
        lemma_run_ticks_len(lost_state(), 0, fb, false, n);
        assert forall|k: int| 0 <= k < n implies #[trigger] rn.2[k] == action_if(backoff_tick_acts(k + 1)) by {
            assert(r63.2[k] == (rn.2 + rest.2)[k]);
        }
        lemma_backoff_state_stays(lost_state(), 0, fb, n);
    } else {
        lemma_steady_reconnect(6, 0, fb, false, (n - 63) as nat);
        lemma_run_ticks_split(lost_state(), 0, fb, false, 63, (n - 63) as nat);
        assert((63 + (n - 63) as nat) as nat == n);
        let rest = run_ticks(r63.0, r63.1, fb, false, (n - 63) as nat);
        assert(r63.1 == (0nat * 100) as u64);
        assert forall|k: int| 0 <= k < n implies #[trigger] run_ticks(lost_state(), 0, fb, false, n).2[k]
            == action_if(backoff_tick_acts(k + 1)) by {
            if k >= 63 {
                assert(run_ticks(lost_state(), 0, fb, false, n).2[k] == rest.2[k - 63]);
                assert(rest.2[k - 63] == action_if((0 + (k - 63) + 1) % 50 == 0));
            } else {
                assert(run_ticks(lost_state(), 0, fb, false, n).2[k] == r63.2[k]);
            }
        }
    }
}

proof fn lemma_backoff_state_stays(state: RecoveryState, acc: u64, fallback_to_default: bool, n: nat)
    requires
        state is ReconnectBackoff,
    ensures
        run_ticks(state, acc, fallback_to_default, false, n).0 is ReconnectBackoff,
    decreases n,
{
    if n > 0 {
        lemma_backoff_state_stays(state, acc, fallback_to_default, (n - 1) as nat);
    }
}

/// When 30 s have passed since a loss and falling back is off, the
/// machine tries the original device on the first tick and then on every
/// 50th tick (every 5 s); it never falls back or asks to exit.
pub proof fn lemma_reconnect_schedule_after_30s(n: nat)
    ensures
        run_ticks(lost_state(), 0, false, true, n).0 is ReconnectBackoff,
        run_ticks(lost_state(), 0, false, true, n).2.len() == n,
        forall|k: int| 0 <= k < n ==> #[trigger] run_ticks(lost_state(), 0, false, true, n).2[k]
            == action_if(k % 50 == 0),
{
    if n > 0 {
        let r0 = run_ticks(lost_state(), 0, false, true, 0);
        assert(r0 == (lost_state(), 0u64, Seq::<RecoveryAction>::empty()));
        let r1 = run_ticks(lost_state(), 0, false, true, 1);
        assert(r1.0 == RecoveryState::ReconnectBackoff { attempt: 0, next_interval_ms: MAX_INTERVAL_MS });
        assert(r1.1 == 0);
        assert(r1.1 == (0nat * 100) as u64);
        lemma_steady_reconnect(0, 0, false, true, (n - 1) as nat);
        lemma_run_ticks_split(lost_state(), 0, false, true, 1, (n - 1) as nat);
        assert((1 + (n - 1) as nat) as nat == n);
        let rest = run_ticks(r1.0, r1.1, false, true, (n - 1) as nat);
        assert forall|k: int| 0 <= k < n implies #[trigger] run_ticks(lost_state(), 0, false, true, n).2[k]
            == action_if(k % 50 == 0) by {
            if k >= 1 {
                assert(run_ticks(lost_state(), 0, false, true, n).2[k] == rest.2[k - 1]);
                assert(rest.2[k - 1] == action_if((0 + (k - 1) + 1) % 50 == 0));
            } else {
                assert(run_ticks(lost_state(), 0, false, true, n).2[k] == r1.2[k]);
            }
        }
    }
}

/// While fewer than 30 s have passed since the loss, a tick in the backoff
/// phase stays in it and never falls back to the default device: the
/// fallback needs the 30 s of `BACKOFF_PHASE_SECS`.
pub proof fn lemma_backoff_holds_within_30s(state: RecoveryState, acc: u64, fallback_to_default: bool, age_secs: u64)
    requires
        state is ReconnectBackoff,
    ensures
        age_secs < BACKOFF_PHASE_SECS ==> tick_step(state, acc, fallback_to_default, age_secs >= BACKOFF_PHASE_SECS).2
            != RecoveryAction::TryFallbackToDefault,
        age_secs < BACKOFF_PHASE_SECS ==> tick_step(state, acc, fallback_to_default, age_secs >= BACKOFF_PHASE_SECS).0 is ReconnectBackoff,
        BACKOFF_PHASE_SECS == 30,
{
}

} // verus!
