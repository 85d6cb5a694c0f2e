//! The decision loop: one tick reads the policy and the audio sensor, picks an
//! actuation command, and then folds the tick's outcome into the failure count
//! that decides how long to sleep.
use vstd::prelude::*;
use crate::policy::Config;
use crate::devices::{AudioError, BluetoothError};

verus! {

/// Baseline pause between ticks, in seconds.
pub const TICK_SECS: u64 = 1;

/// Consecutive failed ticks after which the loop backs off.
pub const FAILURE_THRESHOLD: u64 = 3;

/// Extra pause after `FAILURE_THRESHOLD` consecutive failures, in seconds.
pub const BACKOFF_SECS: u64 = 30;

/// What a tick asks of the link actuator.
#[derive(Debug, Clone, Copy, PartialEq, Eq, Structural)]
pub enum TickPlan {
    /// The sensor failed; nothing is issued this tick.
    SensorFailed(AudioError),
    /// Enable the hands-free profile on the policy's device.
    Connect,
    /// Disable the hands-free profile on the policy's device.
    Disconnect,
    /// Nothing to do.
    Idle,
}

/// The decision loop's own state. Time is a monotonic clock in milliseconds.
pub struct MonitorState {
    pub last_activity_ms: u64,
    pub consecutive_errors: u64,
}

/// More than `timeout_secs` seconds have passed between `last_ms` and `now_ms`.
pub open spec fn idle_expired(last_ms: u64, now_ms: u64, timeout_secs: u64) -> bool {
    now_ms >= last_ms && (now_ms - last_ms) as int > timeout_secs as int * 1000
}

/// One tick's decision: the new last-activity time and the command.
pub open spec fn plan_tick(
    last_ms: u64,
    policy: Config,
    sensed: Result<bool, AudioError>,
    now_ms: u64,
) -> (u64, TickPlan) {
    match sensed {
        Err(e) => (last_ms, TickPlan::SensorFailed(e)),
        Ok(true) => (now_ms, if policy.auto_connect {
            TickPlan::Connect
        } else {
            TickPlan::Idle
        }),
        Ok(false) => (last_ms, if idle_expired(last_ms, now_ms, policy.inactivity_timeout) {
            TickPlan::Disconnect
        } else {
            TickPlan::Idle
        }),
    }
}

/// Whether a tick failed: its sensor query or its actuation command.
pub open spec fn tick_failed(plan: TickPlan, actuation: Option<BluetoothError>) -> bool {
    plan is SensorFailed || actuation is Some
}

/// The failure count after a tick, and the pause before the next one.
pub open spec fn after_tick(errors: u64, failed: bool) -> (u64, u64) {
    if !failed {
        (0, TICK_SECS)
    } else if errors + 1 >= FAILURE_THRESHOLD {
        (0, (TICK_SECS + BACKOFF_SECS) as u64)
    } else {
        ((errors + 1) as u64, TICK_SECS)
    }
}

impl MonitorState {
    /// The failure count stays below the threshold between ticks.
    pub open spec fn wf(&self) -> bool {
        self.consecutive_errors < FAILURE_THRESHOLD
    }

    /// A fresh loop state: activity is taken to have happened at `now_ms`.
    pub fn new(now_ms: u64) -> (r: MonitorState)
        ensures
            r.wf(),
            r.last_activity_ms == now_ms,
            r.consecutive_errors == 0,
    {
        MonitorState { last_activity_ms: now_ms, consecutive_errors: 0 }
    }

    /// Decides the tick from the policy snapshot and the sensor's answer at
    /// `now_ms`: audio activity resets the idle timer and, with auto-connect,
    /// asks for a connect; silence past the idle timeout asks for a disconnect
    /// on every such tick; a sensor failure changes nothing.
    pub fn check_and_handle_audio(
        &mut self,
        policy: &Config,
        sensed: Result<bool, AudioError>,
        now_ms: u64,
    ) -> (r: TickPlan)
        ensures
            (final(self).last_activity_ms, r) == plan_tick(
                old(self).last_activity_ms,
                *policy,
                sensed,
                now_ms,
            ),
            final(self).consecutive_errors == old(self).consecutive_errors,
    {
        match sensed {
            Err(e) => TickPlan::SensorFailed(e),
            Ok(true) => {
                self.last_activity_ms = now_ms;
                if policy.auto_connect {
                    TickPlan::Connect
                } else {
                    TickPlan::Idle
                }
            },
            Ok(false) => {
                let last = self.last_activity_ms;
                if now_ms >= last && ((now_ms - last) as u128) > (policy.inactivity_timeout as u128)
                    * 1000 {
                    TickPlan::Disconnect
                } else {
                    TickPlan::Idle
                }
            },
        }
    }

    /// Folds the tick's outcome into the failure count and returns the pause,
    /// in seconds, before the next tick. `actuation` is the actuator's error,
    /// if a command was issued and failed.
    pub fn finish_tick(&mut self, plan: &TickPlan, actuation: Option<BluetoothError>) -> (r: u64)
        requires
            old(self).wf(),
        ensures
            final(self).wf(),
            (final(self).consecutive_errors, r) == after_tick(
                old(self).consecutive_errors,
                tick_failed(*plan, actuation),
            ),
            final(self).last_activity_ms == old(self).last_activity_ms,
    {
        let failed = match plan {
            TickPlan::SensorFailed(_) => true,
            _ => actuation.is_some(),
        };
        if !failed {
            self.consecutive_errors = 0;
            TICK_SECS
        } else if self.consecutive_errors + 1 >= FAILURE_THRESHOLD {
            self.consecutive_errors = 0;
            TICK_SECS + BACKOFF_SECS
        } else {
            self.consecutive_errors = self.consecutive_errors + 1;
            TICK_SECS
        }
    }
}

} // verus!
