//! The bounded-size state snapshots exchanged between the monitor and
//! main controllers over the byte-serial transport, and their wire codec.
//!
//! The wire format is a deterministic compact binary layout: fields in
//! declaration order, every enum variant tagged by a discriminant byte,
//! multi-byte integers little-endian, booleans one byte (0 or 1).
//! Decoding is strict: a buffer decodes only if it is exactly the
//! encoding of one message, so the codec round-trips every message.

use vstd::prelude::*;

use vstd::bytes::{
    lemma_auto_spec_u16_to_from_le_bytes, lemma_auto_spec_u64_to_from_le_bytes,
    spec_u16_from_le_bytes, spec_u16_to_le_bytes, spec_u64_from_le_bytes, spec_u64_to_le_bytes,
    u16_from_le_bytes, u16_to_le_bytes, u64_from_le_bytes, u64_to_le_bytes,
};

verus! {

/// The buffer size needed to receive a full message: large enough to hold
/// a worst-case encoding of either message struct.
pub const MONITOR_MESSAGE_BUFFER_SIZE: usize = 32;

#[derive(Debug, PartialEq, Eq, Structural, Clone, Copy)]
pub enum MonitorError {
    PingError,
    AcceleratorError,
    TorqueRequestError,
}

#[derive(Debug, PartialEq, Eq, Structural, Clone, Copy)]
pub enum MainError {
    AcceleratorError,
}

#[derive(Debug, PartialEq, Eq, Structural, Clone, Copy)]
pub enum MonitorState {
    Operational,
    Error(MonitorError),
}

#[derive(Debug, PartialEq, Eq, Structural, Clone, Copy)]
pub enum MainState {
    Operational,
    Error(MainError),
}

/// The snapshot the monitor controller sends each tick: a liveness
/// counter and its operational-or-faulted state.
#[derive(Debug, PartialEq, Eq, Structural, Clone, Copy)]
pub struct MonitorToMain {
    pub ping: u64,
    pub state: MonitorState,
}

/// The snapshot the main controller sends back: the echoed liveness
/// counter, its state, the accelerator position it is acting on, and
/// whether its output stage is enabled.
#[derive(Debug, PartialEq, Eq, Structural, Clone, Copy)]
pub struct MainToMonitor {
    pub pong: u64,
    pub state: MainState,
    pub accelerator: u16,
    pub high_side_on: bool,
}

/// The discriminant byte of a monitor error.
pub open spec fn spec_monitor_error_code(e: MonitorError) -> u8 {
    match e {
        MonitorError::PingError => 0,
        MonitorError::AcceleratorError => 1,
        MonitorError::TorqueRequestError => 2,
    }
}

/// The monitor error of a discriminant byte, if any.
pub open spec fn spec_monitor_error_of_code(code: u8) -> Option<MonitorError> {
    if code == 0 {
        Some(MonitorError::PingError)
    } else if code == 1 {
        Some(MonitorError::AcceleratorError)
    } else if code == 2 {
        Some(MonitorError::TorqueRequestError)
    } else {
        None
    }
}

/// A monitor state on the wire: a variant tag, then the error
/// discriminant for the fault variant.
pub open spec fn spec_monitor_state_bytes(state: MonitorState) -> Seq<u8> {
    match state {
        MonitorState::Operational => seq![0u8],
        MonitorState::Error(e) => seq![1u8, spec_monitor_error_code(e)],
    }
}

/// A main-controller state on the wire: a variant tag, then the error
/// discriminant (its only error variant has discriminant 0).
pub open spec fn spec_main_state_bytes(state: MainState) -> Seq<u8> {
    match state {
        MainState::Operational => seq![0u8],
        MainState::Error(MainError::AcceleratorError) => seq![1u8, 0u8],
    }
}

/// The full monitor-to-main wire image: the ping counter little-endian,
/// then the state.
pub open spec fn spec_monitor_to_main_bytes(msg: MonitorToMain) -> Seq<u8> {
    spec_u64_to_le_bytes(msg.ping) + spec_monitor_state_bytes(msg.state)
}

/// The full main-to-monitor wire image: the pong counter little-endian,
/// the state, the accelerator position little-endian, and the
/// output-enable flag as one byte.
pub open spec fn spec_main_to_monitor_bytes(msg: MainToMonitor) -> Seq<u8> {
    spec_u64_to_le_bytes(msg.pong) + spec_main_state_bytes(msg.state) + spec_u16_to_le_bytes(
        msg.accelerator,
    ) + seq![if msg.high_side_on { 1u8 } else { 0u8 }]
}

/// What decoding a monitor-to-main buffer yields: `Some` exactly on the
/// wire image of a message, `None` on everything else (short, oversized,
/// or carrying an unknown discriminant).
pub open spec fn spec_decode_monitor_to_main(bytes: Seq<u8>) -> Option<MonitorToMain> {
    if bytes.len() < 9 {
        None
    } else {
        let ping = spec_u64_from_le_bytes(bytes.subrange(0, 8));
        if bytes[8] == 0 {
            if bytes.len() == 9 {
                Some(MonitorToMain { ping, state: MonitorState::Operational })
            } else {
                None
            }
        } else if bytes[8] == 1 {
            if bytes.len() == 10 {
                match spec_monitor_error_of_code(bytes[9]) {
                    Some(e) => Some(MonitorToMain { ping, state: MonitorState::Error(e) }),
                    None => None,
                }
            } else {
                None
            }
        } else {
            None
        }
    }
}

/// What decoding a main-to-monitor buffer yields, strict in the same way.
pub open spec fn spec_decode_main_to_monitor(bytes: Seq<u8>) -> Option<MainToMonitor> {
    if bytes.len() < 9 {
        None
    } else {
        let pong = spec_u64_from_le_bytes(bytes.subrange(0, 8));
        let tail = if bytes[8] == 0 {
            Some((MainState::Operational, 9int))
        } else if bytes[8] == 1 && bytes.len() >= 10 && bytes[9] == 0 {
            Some((MainState::Error(MainError::AcceleratorError), 10int))
        } else {
            None
        };
        match tail {
            None => None,
            Some((state, at)) => if bytes.len() != at + 3 {
                None
            } else {
                let accelerator = spec_u16_from_le_bytes(bytes.subrange(at, at + 2));
                if bytes[at + 2] == 0 {
                    Some(MainToMonitor { pong, state, accelerator, high_side_on: false })
                } else if bytes[at + 2] == 1 {
                    Some(MainToMonitor { pong, state, accelerator, high_side_on: true })
                } else {
                    None
                }
            },
        }
    }
}

/// Serialize a monitor-to-main snapshot; the encoding always fits the
/// message buffer.
pub fn encode_monitor_to_main(msg: &MonitorToMain) -> (bytes: Vec<u8>)
    ensures
        bytes@ == spec_monitor_to_main_bytes(*msg),
        bytes@.len() <= MONITOR_MESSAGE_BUFFER_SIZE,
{
    let mut bytes = u64_to_le_bytes(msg.ping);
    match msg.state {
        MonitorState::Operational => {
            bytes.push(0);
        },
        MonitorState::Error(MonitorError::PingError) => {
            bytes.push(1);
            bytes.push(0);
        },
        MonitorState::Error(MonitorError::AcceleratorError) => {
            bytes.push(1);
            bytes.push(1);
        },
        MonitorState::Error(MonitorError::TorqueRequestError) => {
            bytes.push(1);
            bytes.push(2);
        },
    }
    proof {
        assert(bytes@ =~= spec_monitor_to_main_bytes(*msg));
    }
    bytes
}

/// Deserialize a monitor-to-main snapshot, strictly.
pub fn decode_monitor_to_main(bytes: &[u8]) -> (r: Option<MonitorToMain>)
    ensures
        r == spec_decode_monitor_to_main(bytes@),
{
    if bytes.len() < 9 {
        return None;
    }
    let ping = u64_from_le_bytes(&bytes[0..8]);
    let tag = bytes[8];
    if tag == 0 {
        if bytes.len() == 9 {
            Some(MonitorToMain { ping, state: MonitorState::Operational })
        } else {
            None
        }
    } else if tag == 1 {
        if bytes.len() != 10 {
            return None;
        }
        let code = bytes[9];
        let error = if code == 0 {
            MonitorError::PingError
        } else if code == 1 {
            MonitorError::AcceleratorError
        } else if code == 2 {
            MonitorError::TorqueRequestError
        } else {
            return None;
        };
        Some(MonitorToMain { ping, state: MonitorState::Error(error) })
    } else {
        None
    }
}

/// Serialize a main-to-monitor snapshot; the encoding always fits the
/// message buffer.
pub fn encode_main_to_monitor(msg: &MainToMonitor) -> (bytes: Vec<u8>)
    ensures
        bytes@ == spec_main_to_monitor_bytes(*msg),
        bytes@.len() <= MONITOR_MESSAGE_BUFFER_SIZE,
{
    let mut bytes = u64_to_le_bytes(msg.pong);
    match msg.state {
        MainState::Operational => {
            bytes.push(0);
        },
        MainState::Error(MainError::AcceleratorError) => {
            bytes.push(1);
            bytes.push(0);
        },
    }
    let mut acc = u16_to_le_bytes(msg.accelerator);
    bytes.append(&mut acc);
    if msg.high_side_on {
        bytes.push(1);
    } else {
        bytes.push(0);
    }
    proof {
        assert(bytes@ =~= spec_main_to_monitor_bytes(*msg));
    }
    bytes
}

/// Deserialize a main-to-monitor snapshot, strictly.
pub fn decode_main_to_monitor(bytes: &[u8]) -> (r: Option<MainToMonitor>)
    ensures
        r == spec_decode_main_to_monitor(bytes@),
{
    if bytes.len() < 9 {
        return None;
    }
    let pong = u64_from_le_bytes(&bytes[0..8]);
    let tag = bytes[8];
    let state: MainState;
    let at: usize;
    if tag == 0 {
        state = MainState::Operational;
        at = 9;
    } else if tag == 1 {
        if bytes.len() < 10 || bytes[9] != 0 {
            return None;
        }
        state = MainState::Error(MainError::AcceleratorError);
        at = 10;
    } else {
        return None;
    }
    if bytes.len() != at + 3 {
        return None;
    }
    let accelerator = u16_from_le_bytes(&bytes[at..at + 2]);
    let flag = bytes[at + 2];
    if flag == 0 {
        Some(MainToMonitor { pong, state, accelerator, high_side_on: false })
    } else if flag == 1 {
        Some(MainToMonitor { pong, state, accelerator, high_side_on: true })
    } else {
        None
    }
}

/// Law: the codec has round-trip fidelity for every monitor-to-main
/// message: decoding the bytes produced by encoding yields the message
/// back.
pub proof fn lemma_monitor_to_main_round_trip(msg: MonitorToMain)
    ensures
        spec_decode_monitor_to_main(spec_monitor_to_main_bytes(msg)) == Some(msg),
{
    lemma_auto_spec_u64_to_from_le_bytes();
    let bytes = spec_monitor_to_main_bytes(msg);
    assert(bytes.subrange(0, 8) =~= spec_u64_to_le_bytes(msg.ping));
}

/// Law: decoding is strict; a buffer that decodes to a monitor-to-main
/// message is exactly that message's wire image. Together with the
/// round trip this characterizes the codec completely.
pub proof fn lemma_monitor_to_main_decode_exact(bytes: Seq<u8>, msg: MonitorToMain)
    requires
        spec_decode_monitor_to_main(bytes) == Some(msg),
    ensures
        bytes == spec_monitor_to_main_bytes(msg),
{
    lemma_auto_spec_u64_to_from_le_bytes();
    let prefix = bytes.subrange(0, 8);
    assert(spec_u64_to_le_bytes(spec_u64_from_le_bytes(prefix)) == prefix);
    assert(bytes =~= spec_monitor_to_main_bytes(msg));
}

/// Law: decoding is strict; a buffer that decodes to a main-to-monitor
/// message is exactly that message's wire image.
pub proof fn lemma_main_to_monitor_decode_exact(bytes: Seq<u8>, msg: MainToMonitor)
    requires
        spec_decode_main_to_monitor(bytes) == Some(msg),
    ensures
        bytes == spec_main_to_monitor_bytes(msg),
{
    lemma_auto_spec_u64_to_from_le_bytes();
    lemma_auto_spec_u16_to_from_le_bytes();
    let prefix = bytes.subrange(0, 8);
    assert(spec_u64_to_le_bytes(spec_u64_from_le_bytes(prefix)) == prefix);
    let at: int = if bytes[8] == 0 {
        9
    } else {
        10
    };
    let acc = bytes.subrange(at, at + 2);
    assert(spec_u16_to_le_bytes(spec_u16_from_le_bytes(acc)) == acc);
    assert(bytes =~= spec_main_to_monitor_bytes(msg));
}

/// Law: the codec has round-trip fidelity for every main-to-monitor
/// message.
pub proof fn lemma_main_to_monitor_round_trip(msg: MainToMonitor)
    ensures
        spec_decode_main_to_monitor(spec_main_to_monitor_bytes(msg)) == Some(msg),
{
    lemma_auto_spec_u64_to_from_le_bytes();
    lemma_auto_spec_u16_to_from_le_bytes();
    let bytes = spec_main_to_monitor_bytes(msg);
    let at: int = match msg.state {
        MainState::Operational => 9,
        MainState::Error(MainError::AcceleratorError) => 10,
    };
    assert(bytes.subrange(0, 8) =~= spec_u64_to_le_bytes(msg.pong));
    assert(bytes.subrange(at, at + 2) =~= spec_u16_to_le_bytes(msg.accelerator));
}

} // verus!
