//! Tests of the WDF configuration values.

use wdk_packager::wdf::IoQueueConfig;
use wdk_packager::wdf::IoQueueDispatchType;
use wdk_packager::wdf::TimerConfig;
use wdk_packager::wdf::TriState;

#[test]
fn new_non_periodic_timers_have_no_period() {
    let config = TimerConfig::new_non_periodic();
    assert_eq!(config.period, 0);
    assert_eq!(config.tolerable_delay, 0);
    assert!(!config.use_high_resolution_timer);
}

#[test]
fn new_periodic_timers_keep_their_settings() {
    let config = TimerConfig::new_periodic(250, 16, true);
    assert_eq!(config.period, 250);
    assert_eq!(config.tolerable_delay, 16);
    assert!(config.use_high_resolution_timer);
}

#[test]
fn default_io_queues_are_sequential_and_opt_in() {
    let config = IoQueueConfig::default();
    assert_eq!(config.dispatch_type, IoQueueDispatchType::Sequential);
    assert_eq!(config.power_managed, TriState::UseDefault);
    assert!(!config.allow_zero_length_requests);
    assert!(!config.default_queue);
}

#[test]
fn parallel_dispatch_carries_its_request_limit() {
    let config = IoQueueConfig {
        dispatch_type: IoQueueDispatchType::Parallel {
            presented_requests_limit: Some(4),
        },
        power_managed: TriState::True,
        allow_zero_length_requests: true,
        default_queue: true,
    };
    match config.dispatch_type {
        IoQueueDispatchType::Parallel {
            presented_requests_limit,
        } => assert_eq!(presented_requests_limit, Some(4)),
        other => panic!("expected parallel dispatch, got {:?}", other),
    }
}
