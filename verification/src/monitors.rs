//! Monitor state machines: the liveness, throttle and torque monitors,
//! driven once per control tick by the caller.
//!
//! All three share the same debounce shape: a single bad sample does not
//! immediately declare a fault; a fault is declared only once a dedicated
//! grace timeout elapses with no intervening good sample, and any good
//! sample resets that grace timer.

use vstd::prelude::*;

use crate::ev_can::EvCanFrame;
use crate::throttle::{Throttle, ThrottleError};
use crate::timeout::{Timeout, TimeoutError};

verus! {

#[derive(Debug, PartialEq, Eq, Structural, Clone, Copy)]
pub enum MonitorError {
    /// A throttle fault escalated after its grace period.
    Throttle(ThrottleError),
    /// A frame handed to the torque monitor was not a torque request.
    Torque,
    /// A fault of the main-controller supervision.
    Main,
    /// A monitor's own timeout elapsed.
    Timout,
}

impl From<TimeoutError> for MonitorError {
    /// An elapsed timeout surfaces as the monitor-level timeout fault.
    fn from(value: TimeoutError) -> (r: Self) {
        MonitorError::Timout
    }
}

impl vstd::std_specs::convert::FromSpecImpl<TimeoutError> for MonitorError {
    open spec fn obeys_from_spec() -> bool {
        true
    }

    open spec fn from_spec(value: TimeoutError) -> Self {
        MonitorError::Timout
    }
}

/// Supervises the main controller's liveness: a monotonically increasing
/// ping counter and a liveness timeout that each transmitted ping resets.
pub struct MainAppMonitor {
    pub timeout: Timeout,
    pub latest_ping: u32,
}

impl MainAppMonitor {
    /// Create a monitor whose liveness timeout starts full.
    pub fn new(timeout: usize) -> (m: Self)
        ensures
            m.timeout.reset == timeout,
            m.timeout.counter == timeout,
            m.latest_ping == 0,
    {
        MainAppMonitor { timeout: Timeout::new(timeout), latest_ping: 0 }
    }

    /// Record that a ping is being sent to the main controller: reset the
    /// liveness timeout and advance the ping counter.
    ///
    /// The reset on transmission is deliberate and mirrors the protocol's
    /// documented behaviour; note that a caller pinging every tick will
    /// therefore never see the liveness fault from `tick` alone. A caller
    /// that wants liveness tied strictly to the peer's answers should not
    /// rely on this reset but drive the timeout through `receive_pong`,
    /// which resets it only on a pong matching the latest ping.
    pub fn send_ping(&mut self)
        requires
            old(self).latest_ping < u32::MAX,
        ensures
            final(self).latest_ping == old(self).latest_ping + 1,
            final(self).timeout.counter == old(self).timeout.reset,
            final(self).timeout.reset == old(self).timeout.reset,
    {
        self.timeout.reset();
        self.latest_ping = self.latest_ping + 1;
    }

    /// Record a pong received back from the main controller: a pong that
    /// echoes the latest ping proves the peer is alive and resets the
    /// liveness timeout; a stale or unknown pong changes nothing.
    pub fn receive_pong(&mut self, pong: u64) -> (matched: bool)
        ensures
            final(self).latest_ping == old(self).latest_ping,
            final(self).timeout.reset == old(self).timeout.reset,
            matched <==> pong == old(self).latest_ping as u64,
            matched ==> final(self).timeout.counter == old(self).timeout.reset,
            !matched ==> final(self).timeout.counter == old(self).timeout.counter,
    {
        if pong == self.latest_ping as u64 {
            self.timeout.reset();
            true
        } else {
            false
        }
    }

    /// Advance the liveness timeout by one control tick; once it elapses,
    /// the loss of heartbeat surfaces as a monitor fault every tick until
    /// a ping resets it.
    pub fn tick(&mut self) -> (r: Result<(), MonitorError>)
        ensures
            final(self).latest_ping == old(self).latest_ping,
            final(self).timeout.reset == old(self).timeout.reset,
            old(self).timeout.counter > 0 ==> {
                &&& r == Ok::<(), MonitorError>(())
                &&& final(self).timeout.counter == old(self).timeout.counter - 1
            },
            old(self).timeout.counter == 0 ==> {
                &&& r == Err::<(), MonitorError>(MonitorError::Timout)
                &&& final(self).timeout.counter == 0
            },
    {
        match self.timeout.tick() {
            Ok(()) => Ok(()),
            Err(e) => Err(MonitorError::from(e)),
        }
    }
}

/// Cross-checks the two redundant accelerator-pedal sensors once per tick
/// and debounces transient faults behind a grace timeout.
pub struct ThrottleMonitor<'a> {
    pub throttle: &'a Throttle,
    pub timeout: Timeout,
}

impl<'a> ThrottleMonitor<'a> {
    /// Create a monitor over a calibrated throttle with a grace period of
    /// `timeout` consecutive bad readings.
    pub fn new(throttle: &'a Throttle, timeout: usize) -> (m: Self)
        ensures
            m.throttle == throttle,
            m.timeout.reset == timeout,
            m.timeout.counter == timeout,
    {
        ThrottleMonitor { throttle, timeout: Timeout::new(timeout) }
    }

    /// Check one pair of raw sensor readings. A good reading returns the
    /// fused position and resets the grace timer. A bad reading is masked
    /// as position 0 while the grace timer is still running, and
    /// propagates the underlying throttle error as a monitor fault once
    /// the grace period has elapsed.
    pub fn check(&mut self, sensor1: u16, sensor2: u16) -> (r: Result<u16, MonitorError>)
        requires
            old(self).throttle.wf(),
        ensures
            final(self).throttle == old(self).throttle,
            final(self).timeout.reset == old(self).timeout.reset,
            old(self).throttle.spec_position(sensor1, sensor2) matches Ok(position) ==> {
                &&& r == Ok::<u16, MonitorError>(position)
                &&& final(self).timeout.counter == old(self).timeout.reset
            },
            old(self).throttle.spec_position(sensor1, sensor2) matches Err(e) ==> {
                &&& old(self).timeout.counter > 0 ==> {
                    &&& r == Ok::<u16, MonitorError>(0)
                    &&& final(self).timeout.counter == old(self).timeout.counter - 1
                }
                &&& old(self).timeout.counter == 0 ==> {
                    &&& r == Err::<u16, MonitorError>(MonitorError::Throttle(e))
                    &&& final(self).timeout.counter == 0
                }
            },
    {
        match self.throttle.position(sensor1, sensor2) {
            Err(err) => match self.timeout.tick() {
                Err(TimeoutError::Elapsed) => Err(MonitorError::Throttle(err)),
                Ok(()) => Ok(0),
            },
            Ok(position) => {
                self.timeout.reset();
                Ok(position)
            },
        }
    }
}

/// Watches the torque requests observed on the vehicle bus: a freshness
/// timeout that each received torque-request frame resets, and an
/// error-escalation timeout for the cross-check policy.
pub struct TorqueMonitor {
    pub frame_timeout: Timeout,
    pub error_timeout: Timeout,
}

impl TorqueMonitor {
    /// Create a monitor whose freshness and error-escalation timeouts
    /// start full.
    pub fn new(frame_timeout: usize, error_timeout: usize) -> (m: Self)
        ensures
            m.frame_timeout.reset == frame_timeout,
            m.frame_timeout.counter == frame_timeout,
            m.error_timeout.reset == error_timeout,
            m.error_timeout.counter == error_timeout,
    {
        TorqueMonitor {
            frame_timeout: Timeout::new(frame_timeout),
            error_timeout: Timeout::new(error_timeout),
        }
    }

    /// Advance the frame-freshness timeout by one control tick; once it
    /// elapses, the absence of torque-request frames surfaces as a
    /// monitor fault every tick until a frame resets it.
    pub fn tick(&mut self) -> (r: Result<(), MonitorError>)
        ensures
            final(self).error_timeout == old(self).error_timeout,
            final(self).frame_timeout.reset == old(self).frame_timeout.reset,
            old(self).frame_timeout.counter > 0 ==> {
                &&& r == Ok::<(), MonitorError>(())
                &&& final(self).frame_timeout.counter == old(self).frame_timeout.counter - 1
            },
            old(self).frame_timeout.counter == 0 ==> {
                &&& r == Err::<(), MonitorError>(MonitorError::Timout)
                &&& final(self).frame_timeout.counter == 0
            },
    {
        match self.frame_timeout.tick() {
            Ok(()) => Ok(()),
            Err(e) => Err(MonitorError::from(e)),
        }
    }

    /// Feed one frame observed on the bus. A torque request resets the
    /// freshness timeout; any other variant is a `Torque` fault. The
    /// numeric cross-check of the requested torque against the measured
    /// accelerator position is a policy decision still open in the
    /// protocol; until it is fixed, a matching frame is accepted.
    pub fn frame(&mut self, acc_position: u16, frame: &EvCanFrame) -> (r: Result<
        (),
        MonitorError,
    >)
        ensures
            final(self).error_timeout == old(self).error_timeout,
            final(self).frame_timeout.reset == old(self).frame_timeout.reset,
            *frame is TorqueRequest ==> {
                &&& r == Ok::<(), MonitorError>(())
                &&& final(self).frame_timeout.counter == old(self).frame_timeout.reset
            },
            !(*frame is TorqueRequest) ==> {
                &&& r == Err::<(), MonitorError>(MonitorError::Torque)
                &&& final(self).frame_timeout.counter == old(self).frame_timeout.counter
            },
    {
        if let EvCanFrame::TorqueRequest { .. } = frame {
            self.frame_timeout.reset();
            Ok(())
        } else {
            Err(MonitorError::Torque)
        }
    }
}

} // verus!
