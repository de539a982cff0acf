use vstd::prelude::*;

use crate::ack_nack::AckNack;
use crate::can_command::CanCommand;
use crate::messages::{CanMessage, UDPMessage};
use crate::pod_states::{state_byte, PodState, INITIAL_POD_STATE};

verus! {

/// Arbitration id of the frame that asserts the requested pod state.
pub const POD_STATE_FRAME_ID: u32 = 0x000;
/// Base of the arbitration ids of requests to the motor driver.
pub const ROBOTEQ_REQUEST_BASE_ID: u32 = 0x600;
/// Index of the motor driver's throttle command.
pub const ROBOTEQ_THROTTLE_INDEX: u16 = 0x2000;
/// Index of the motor driver's emergency stop command.
pub const ROBOTEQ_EMERGENCY_STOP_INDEX: u16 = 0x200C;
/// Queries of the motor driver (their responses are decoded by `decode_frame`).
pub const ROBOTEQ_ENCODER_SPEED_QUERY: u16 = 0x2103;
pub const ROBOTEQ_BATTERY_AMPS_QUERY: u16 = 0x210C;
pub const ROBOTEQ_TEMPERATURE_QUERY: u16 = 0x210F;
/// Motor driver, motor and throttle used while the pod drives itself.
pub const THROTTLE_NODE_ID: u32 = 1;
pub const THROTTLE_MOTOR: u8 = 1;
pub const THROTTLE_PERCENT: u32 = 100;

/// A frame to write on the bus.
#[derive(Debug, Copy, Clone)]
pub struct OutFrame {
    pub id: u32,
    pub data: [u8; 8],
    /// How many bytes of `data` the frame carries.
    pub len: usize,
}

/// The four bytes of `n`, least significant first.
pub open spec fn le_bytes(n: u32) -> Seq<u8> {
    seq![
        (n % 0x100) as u8,
        ((n / 0x100) % 0x100) as u8,
        ((n / 0x1_0000) % 0x100) as u8,
        (n / 0x100_0000) as u8,
    ]
}

/// Byte 0 of a motor-driver request: the command specifier (4 for a query,
/// 2 for a command) in the upper nibble, and the count of unused bytes
/// shifted left by two.
pub open spec fn roboteq_byte0(is_query: bool, empty_bytes: u32) -> u8 {
    ((if is_query { 4u8 } else { 2u8 }) << 4u8) | (((empty_bytes % 0x100) as u8) << 2u8)
}

/// The motor-driver request frame: byte 0 as above, the index low byte
/// first, the sub-index, and four data bytes.
pub open spec fn roboteq_frame(
    node_id: u32,
    is_query: bool,
    empty_bytes: u32,
    index: u16,
    subindex: u8,
    data: Seq<u8>,
) -> OutFrame {
    OutFrame {
        id: (ROBOTEQ_REQUEST_BASE_ID + node_id) as u32,
        data: [
            roboteq_byte0(is_query, empty_bytes),
            (index % 0x100) as u8,
            (index / 0x100) as u8,
            subindex,
            data[0],
            data[1],
            data[2],
            data[3],
        ],
        len: 8,
    }
}

/// The bytes of `number`, least significant first.
pub fn to_bytes(number: u32) -> (r: [u8; 4])
    ensures
        r@ == le_bytes(number),
{
    let r = [
        (number % 0x100) as u8,
        ((number / 0x100) % 0x100) as u8,
        ((number / 0x1_0000) % 0x100) as u8,
        (number / 0x100_0000) as u8,
    ];
    assert(r@ =~= le_bytes(number));
    r
}

/// Builds a request to the motor driver `node_id`; `None` when its
/// arbitration id would not fit in 32 bits.
pub fn send_msg(
    node_id: u32,
    is_query: bool,
    empty_bytes: u32,
    index: u16,
    subindex: u8,
    data: &[u8; 4],
) -> (r: Option<OutFrame>)
    ensures
        r is None <==> ROBOTEQ_REQUEST_BASE_ID + node_id > u32::MAX,
        r matches Some(f) ==> f == roboteq_frame(node_id, is_query, empty_bytes, index, subindex, data@),
{
    if node_id > u32::MAX - ROBOTEQ_REQUEST_BASE_ID {
        return None;
    }
    let command: u8 = if is_query {
        4
    } else {
        2
    };
    let empty: u8 = (empty_bytes % 0x100) as u8;
    let byte_0: u8 = (command << 4u8) | (empty << 2u8);
    Some(
        OutFrame {
            id: ROBOTEQ_REQUEST_BASE_ID + node_id,
            data: [
                byte_0,
                (index % 0x100) as u8,
                (index / 0x100) as u8,
                subindex,
                data[0],
                data[1],
                data[2],
                data[3],
            ],
            len: 8,
        },
    )
}

/// The throttle command for one motor.
pub fn set_motor_throttle(node_id: u32, motor_number: u8, throttle_percent: u32) -> (r: Option<
    OutFrame,
>)
    ensures
        r is None <==> ROBOTEQ_REQUEST_BASE_ID + node_id > u32::MAX,
        r matches Some(f) ==> f == roboteq_frame(
            node_id,
            false,
            0,
            ROBOTEQ_THROTTLE_INDEX,
            motor_number,
            le_bytes(throttle_percent),
        ),
{
    send_msg(node_id, false, 0, ROBOTEQ_THROTTLE_INDEX, motor_number, &to_bytes(throttle_percent))
}

/// Query of a motor's encoder speed.
pub fn roboteq_read_encoder_motor_speed(node_id: u32, motor_number: u8) -> (r: Option<OutFrame>)
    ensures
        r is None <==> ROBOTEQ_REQUEST_BASE_ID + node_id > u32::MAX,
        r matches Some(f) ==> f == roboteq_frame(
            node_id,
            true,
            4,
            ROBOTEQ_ENCODER_SPEED_QUERY,
            motor_number,
            seq![0u8, 0, 0, 0],
        ),
{
    send_msg(node_id, true, 4, ROBOTEQ_ENCODER_SPEED_QUERY, motor_number, &[0u8; 4])
}

/// Query of a motor's battery current.
pub fn roboteq_read_battery_amps(node_id: u32, motor_number: u8) -> (r: Option<OutFrame>)
    ensures
        r is None <==> ROBOTEQ_REQUEST_BASE_ID + node_id > u32::MAX,
        r matches Some(f) ==> f == roboteq_frame(
            node_id,
            true,
            4,
            ROBOTEQ_BATTERY_AMPS_QUERY,
            motor_number,
            seq![0u8, 0, 0, 0],
        ),
{
    send_msg(node_id, true, 4, ROBOTEQ_BATTERY_AMPS_QUERY, motor_number, &[0u8; 4])
}

/// Queries of the three temperatures (sub-indexes 1 to 3), in that order.
pub fn roboteq_read_temps(node_id: u32) -> (r: Option<Vec<OutFrame>>)
    ensures
        r is None <==> ROBOTEQ_REQUEST_BASE_ID + node_id > u32::MAX,
        r matches Some(frames) ==> frames@.len() == 3 && forall|i: int|
            0 <= i < 3 ==> #[trigger] frames@[i] == roboteq_frame(
                node_id,
                true,
                4,
                ROBOTEQ_TEMPERATURE_QUERY,
                (i + 1) as u8,
                seq![0u8, 0, 0, 0],
            ),
{
    if node_id > u32::MAX - ROBOTEQ_REQUEST_BASE_ID {
        return None;
    }
    let mut frames: Vec<OutFrame> = Vec::new();
    let mut sub_index: u8 = 1;
    while sub_index <= 3
        invariant
            1 <= sub_index <= 4,
            ROBOTEQ_REQUEST_BASE_ID + node_id <= u32::MAX,
            frames@.len() == sub_index - 1,
            forall|i: int|
                0 <= i < frames@.len() ==> #[trigger] frames@[i] == roboteq_frame(
                    node_id,
                    true,
                    4,
                    ROBOTEQ_TEMPERATURE_QUERY,
                    (i + 1) as u8,
                    seq![0u8, 0, 0, 0],
                ),
        decreases 4 - sub_index,
    {
        match send_msg(node_id, true, 4, ROBOTEQ_TEMPERATURE_QUERY, sub_index, &[0u8; 4]) {
            Some(f) => frames.push(f),
            None => {
                return None;
            },
        }
        sub_index = sub_index + 1;
    }
    Some(frames)
}

/// The emergency stop command.
pub fn roboteq_emergency_stop(node_id: u32) -> (r: Option<OutFrame>)
    ensures
        r is None <==> ROBOTEQ_REQUEST_BASE_ID + node_id > u32::MAX,
        r matches Some(f) ==> f == roboteq_frame(
            node_id,
            false,
            4,
            ROBOTEQ_EMERGENCY_STOP_INDEX,
            0,
            seq![0u8, 0, 0, 0],
        ),
{
    send_msg(node_id, false, 4, ROBOTEQ_EMERGENCY_STOP_INDEX, 0, &[0u8; 4])
}

/// The frame asserting `state`: its wire byte alone.
pub fn pod_state_frame(state: PodState) -> (r: OutFrame)
    ensures
        r.id == POD_STATE_FRAME_ID,
        r.len == 1,
        r.data[0] == state_byte(state),
{
    OutFrame { id: POD_STATE_FRAME_ID, data: [state.to_byte(), 0, 0, 0, 0, 0, 0, 0], len: 1 }
}

/// Decisions of the bus worker: the state the telemetry link asks for, and
/// the state the battery management board last acknowledged.
pub struct CanWorker {
    requested_state: PodState,
    observed_state: PodState,
}

/// What the bus worker writes in an iteration: throttle when the pod drives
/// itself in the state asked for, else the requested state.
pub open spec fn drives(requested: PodState, observed: PodState) -> bool {
    requested == observed && requested == PodState::AutoPilot
}

impl CanWorker {
    pub closed spec fn requested(&self) -> PodState {
        self.requested_state
    }

    pub closed spec fn observed(&self) -> PodState {
        self.observed_state
    }

    pub fn new() -> (r: CanWorker)
        ensures
            r.requested() == INITIAL_POD_STATE,
            r.observed() == INITIAL_POD_STATE,
    {
        CanWorker { requested_state: INITIAL_POD_STATE, observed_state: INITIAL_POD_STATE }
    }

    /// Looks at a decoded frame before it goes to the aggregator: an
    /// acknowledgement from the battery management board means the requested
    /// state is now the observed one, and the telemetry link is told.
    pub fn handle_command(&mut self, command: &CanCommand) -> (r: Option<UDPMessage>)
        ensures
            *command == CanCommand::BmsStateChange(AckNack::Ack) ==> r == Some(
                UDPMessage::PodStateChangeAck,
            ) && final(self).observed() == old(self).requested(),
            *command != CanCommand::BmsStateChange(AckNack::Ack) ==> r is None
                && final(self).observed() == old(self).observed(),
            final(self).requested() == old(self).requested(),
    {
        if let CanCommand::BmsStateChange(AckNack::Ack) = command {
            self.observed_state = self.requested_state;
            Some(UDPMessage::PodStateChangeAck)
        } else {
            None
        }
    }

    /// A request from the telemetry link.
    pub fn handle_message(&mut self, message: CanMessage)
        ensures
            final(self).requested() == (match message {
                CanMessage::ChangeState(s) => s,
                CanMessage::DeviceLost => old(self).requested(),
            }),
            final(self).observed() == old(self).observed(),
    {
        if let CanMessage::ChangeState(s) = message {
            self.requested_state = s;
        }
    }

    /// The frame to write in this iteration.
    pub fn next_frame(&self) -> (r: OutFrame)
        ensures
            drives(self.requested(), self.observed()) ==> r == roboteq_frame(
                THROTTLE_NODE_ID,
                false,
                0,
                ROBOTEQ_THROTTLE_INDEX,
                THROTTLE_MOTOR,
                le_bytes(THROTTLE_PERCENT),
            ),
            !drives(self.requested(), self.observed()) ==> r.id == POD_STATE_FRAME_ID && r.len
                == 1 && r.data[0] == state_byte(self.requested()),
    {
        if self.requested_state == self.observed_state && self.requested_state == PodState::AutoPilot {
            match set_motor_throttle(THROTTLE_NODE_ID, THROTTLE_MOTOR, THROTTLE_PERCENT) {
                Some(f) => f,
                None => pod_state_frame(self.requested_state),
            }
        } else {
            pod_state_frame(self.requested_state)
        }
    }
}

} // verus!
