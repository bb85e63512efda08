use ev_supervisor::ev_can::EvCanFrame;
use ev_supervisor::monitor_message::{MonitorError as MessageError, MonitorState};
use ev_supervisor::monitors::{MainAppMonitor, MonitorError, ThrottleMonitor, TorqueMonitor};
use ev_supervisor::supervisor::tick_outputs;
use ev_supervisor::throttle::{Throttle, ThrottleError};

#[test]
fn monitor() {
    let throttle = Throttle::new((1000, 2000), (3000, 4000), 1500);
    let mut throttle_monitor = ThrottleMonitor::new(&throttle, 2);

    assert_eq!(throttle_monitor.check(1200, 3700), Ok(0));
    assert_eq!(throttle_monitor.check(1200, 3700), Ok(0));
    assert_eq!(
        throttle_monitor.check(1200, 3700),
        Err(MonitorError::Throttle(ThrottleError::SensorMismatch))
    );

    assert_eq!(throttle_monitor.check(1500, 3500), Ok(32767));
}

#[test]
fn good_reading_resets_grace_timer() {
    let throttle = Throttle::new((1000, 2000), (3000, 4000), 1500);
    let mut throttle_monitor = ThrottleMonitor::new(&throttle, 2);

    assert_eq!(throttle_monitor.check(1200, 3700), Ok(0));
    assert_eq!(throttle_monitor.check(1500, 3500), Ok(32767));
    // The grace period starts over after the good reading.
    assert_eq!(throttle_monitor.check(1200, 3700), Ok(0));
    assert_eq!(throttle_monitor.check(1200, 3700), Ok(0));
    assert_eq!(
        throttle_monitor.check(1200, 3700),
        Err(MonitorError::Throttle(ThrottleError::SensorMismatch))
    );
}

#[test]
fn out_of_range_fault_is_propagated_after_grace() {
    let throttle = Throttle::new((1000, 2000), (3000, 4000), 1500);
    let mut throttle_monitor = ThrottleMonitor::new(&throttle, 1);

    assert_eq!(throttle_monitor.check(500, 3500), Ok(0));
    assert_eq!(
        throttle_monitor.check(500, 3500),
        Err(MonitorError::Throttle(ThrottleError::SensorOutOfRange))
    );
}

#[test]
fn main_app_monitor_times_out_and_ping_resets() {
    let mut monitor = MainAppMonitor::new(2);

    assert_eq!(monitor.tick(), Ok(()));
    assert_eq!(monitor.tick(), Ok(()));
    assert_eq!(monitor.tick(), Err(MonitorError::Timout));
    assert_eq!(monitor.tick(), Err(MonitorError::Timout));

    monitor.send_ping();
    assert_eq!(monitor.latest_ping, 1);
    assert_eq!(monitor.tick(), Ok(()));
    assert_eq!(monitor.tick(), Ok(()));
    assert_eq!(monitor.tick(), Err(MonitorError::Timout));

    monitor.send_ping();
    monitor.send_ping();
    assert_eq!(monitor.latest_ping, 3);
}

#[test]
fn matching_pong_resets_liveness() {
    let mut monitor = MainAppMonitor::new(1);

    monitor.send_ping();
    assert_eq!(monitor.tick(), Ok(()));
    assert_eq!(monitor.tick(), Err(MonitorError::Timout));

    // A stale pong proves nothing.
    assert!(!monitor.receive_pong(0));
    assert_eq!(monitor.tick(), Err(MonitorError::Timout));

    // A pong echoing the latest ping does.
    assert!(monitor.receive_pong(1));
    assert_eq!(monitor.tick(), Ok(()));
    assert_eq!(monitor.tick(), Err(MonitorError::Timout));
}

#[test]
fn torque_monitor_freshness_and_frame_kind() {
    let mut monitor = TorqueMonitor::new(2, 2);

    assert_eq!(monitor.tick(), Ok(()));
    assert_eq!(monitor.tick(), Ok(()));
    assert_eq!(monitor.tick(), Err(MonitorError::Timout));

    // A torque request restores freshness.
    let frame = EvCanFrame::TorqueRequest { torque: 100, counter: 0 };
    assert_eq!(monitor.frame(32767, &frame), Ok(()));
    assert_eq!(monitor.tick(), Ok(()));
    assert_eq!(monitor.tick(), Ok(()));
    assert_eq!(monitor.tick(), Err(MonitorError::Timout));

    // Any other variant is a torque fault and does not restore freshness.
    let wrong = EvCanFrame::VcmKeepalive2;
    assert_eq!(monitor.frame(32767, &wrong), Err(MonitorError::Torque));
    assert_eq!(monitor.tick(), Err(MonitorError::Timout));
}

#[test]
fn supervisor_forces_safe_state_on_fault() {
    let ok_main: Result<(), MonitorError> = Ok(());
    let ok_torque: Result<(), MonitorError> = Ok(());

    let (position, msg) = tick_outputs(ok_main, Ok(32767), ok_torque, 5);
    assert_eq!(position, 32767);
    assert_eq!(msg.ping, 5);
    assert_eq!(msg.state, MonitorState::Operational);

    let (position, msg) = tick_outputs(Err(MonitorError::Timout), Ok(32767), ok_torque, 6);
    assert_eq!(position, 0);
    assert_eq!(msg.state, MonitorState::Error(MessageError::PingError));

    let (position, msg) = tick_outputs(
        ok_main,
        Err(MonitorError::Throttle(ThrottleError::SensorMismatch)),
        ok_torque,
        7,
    );
    assert_eq!(position, 0);
    assert_eq!(msg.state, MonitorState::Error(MessageError::AcceleratorError));

    let (position, msg) = tick_outputs(ok_main, Ok(100), Err(MonitorError::Torque), 8);
    assert_eq!(position, 0);
    assert_eq!(msg.state, MonitorState::Error(MessageError::TorqueRequestError));
}
