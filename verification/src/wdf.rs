//! Configuration values for WDF queue and timer objects.
//!
//! These types hold, as plain values, the settings a driver chooses for an
//! I/O queue or a timer before the framework object is created.  The handles
//! and callbacks that tie a configuration to live framework objects belong
//! to the unverified binding layer and are no part of this model.

use vstd::prelude::*;

verus! {

/// How an I/O queue dispatches requests.
#[derive(Clone, Copy, Debug, PartialEq, Eq)]
pub enum IoQueueDispatchType {
    /// One request at a time.
    Sequential,
    /// Requests in parallel, optionally bounded.
    Parallel { presented_requests_limit: Option<u32> },
    /// The driver pulls requests itself.
    Manual,
}

/// A three-valued setting: off, on, or the framework default.
#[derive(Clone, Copy, Debug, PartialEq, Eq)]
pub enum TriState {
    False,
    True,
    UseDefault,
}

/// The settings of an I/O queue.
#[derive(Clone, Copy, Debug, PartialEq, Eq)]
pub struct IoQueueConfig {
    pub dispatch_type: IoQueueDispatchType,
    pub power_managed: TriState,
    pub allow_zero_length_requests: bool,
    pub default_queue: bool,
}

impl Default for IoQueueConfig {
    /// A sequential, non-default queue with framework-default power
    /// management that rejects zero-length requests.
    fn default() -> (r: Self)
        ensures
            r.dispatch_type == IoQueueDispatchType::Sequential,
            r.power_managed == TriState::UseDefault,
            !r.allow_zero_length_requests,
            !r.default_queue,
    {
        IoQueueConfig {
            dispatch_type: IoQueueDispatchType::Sequential,
            power_managed: TriState::UseDefault,
            allow_zero_length_requests: false,
            default_queue: false,
        }
    }
}

/// The settings of a timer.
#[derive(Clone, Copy, Debug, PartialEq, Eq)]
pub struct TimerConfig {
    /// The period in milliseconds; zero for a non-periodic timer.
    pub period: u32,
    /// How much delay the driver tolerates, in milliseconds.
    pub tolerable_delay: u32,
    /// Whether the timer asks for high resolution.
    pub use_high_resolution_timer: bool,
}

impl TimerConfig {
    /// A one-shot timer: no period, no tolerable delay, normal resolution.
    pub fn new_non_periodic() -> (r: Self)
        ensures
            r.period == 0,
            r.tolerable_delay == 0,
            !r.use_high_resolution_timer,
    {
        TimerConfig { period: 0, tolerable_delay: 0, use_high_resolution_timer: false }
    }

    /// A periodic timer with the given period, tolerable delay and
    /// resolution.
    pub fn new_periodic(period: u32, tolerable_delay: u32, use_high_resolution_timer: bool) -> (r:
        Self)
        ensures
            r.period == period,
            r.tolerable_delay == tolerable_delay,
            r.use_high_resolution_timer == use_high_resolution_timer,
    {
        TimerConfig { period, tolerable_delay, use_high_resolution_timer }
    }
}

} // verus!
