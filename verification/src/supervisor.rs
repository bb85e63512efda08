//! The per-tick safe-state decision: combine the outcomes of the three
//! monitors into the torque position to command onward and the snapshot
//! to send to the peer controller.
//!
//! An escalated fault from any monitor forces the commanded position to
//! zero and reports a fault state to the peer, so faults are acted on
//! rather than dropped.

use vstd::prelude::*;

use crate::monitor_message::{MonitorError, MonitorState, MonitorToMain};
use crate::monitors;

verus! {

/// The `(commanded position, reported state)` pair of one control tick.
/// Faults are prioritized: loss of the main controller's heartbeat first,
/// then an accelerator fault, then a torque-request fault; any fault
/// zeroes the commanded position.
pub open spec fn spec_tick_outputs(
    main_result: Result<(), monitors::MonitorError>,
    throttle_result: Result<u16, monitors::MonitorError>,
    torque_result: Result<(), monitors::MonitorError>,
) -> (u16, MonitorState) {
    if main_result is Err {
        (0u16, MonitorState::Error(MonitorError::PingError))
    } else if throttle_result is Err {
        (0u16, MonitorState::Error(MonitorError::AcceleratorError))
    } else if torque_result is Err {
        (0u16, MonitorState::Error(MonitorError::TorqueRequestError))
    } else {
        (throttle_result->Ok_0, MonitorState::Operational)
    }
}

/// Resolve one control tick: given the results of the liveness, throttle
/// and torque monitors and the current ping counter, produce the position
/// to command and the snapshot to transmit. If any monitor reported a
/// fault, the commanded position is zero and the snapshot carries a fault
/// state; otherwise the fused throttle position is passed through.
pub fn tick_outputs(
    main_result: Result<(), monitors::MonitorError>,
    throttle_result: Result<u16, monitors::MonitorError>,
    torque_result: Result<(), monitors::MonitorError>,
    ping: u64,
) -> (r: (u16, MonitorToMain))
    ensures
        r.0 == spec_tick_outputs(main_result, throttle_result, torque_result).0,
        r.1.state == spec_tick_outputs(main_result, throttle_result, torque_result).1,
        r.1.ping == ping,
        main_result is Err || throttle_result is Err || torque_result is Err ==> r.0 == 0
            && r.1.state is Error,
        main_result is Ok && throttle_result is Ok && torque_result is Ok ==> r.0
            == throttle_result->Ok_0 && r.1.state is Operational,
{
    let state = if main_result.is_err() {
        MonitorState::Error(MonitorError::PingError)
    } else if throttle_result.is_err() {
        MonitorState::Error(MonitorError::AcceleratorError)
    } else if torque_result.is_err() {
        MonitorState::Error(MonitorError::TorqueRequestError)
    } else {
        MonitorState::Operational
    };
    let position = match (state, throttle_result) {
        (MonitorState::Operational, Ok(position)) => position,
        _ => 0,
    };
    (position, MonitorToMain { ping, state })
}

} // verus!
