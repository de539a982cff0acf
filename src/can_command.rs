use vstd::prelude::*;

use byteorder::{ByteOrder, LittleEndian};

use crate::ack_nack::{ack_of_byte, AckNack};
use crate::fault_reports::{
    bms_fault_of_payload, severity_of_payload, BmsFaultReport, MotorControllerFaultReport,
};

verus! {

/// A single-precision reading as its IEEE-754 bit pattern.
pub type FloatBits = u32;

/// The two readings of a temperature probe.
#[derive(PartialEq, Eq, Structural, Debug, Copy, Clone)]
pub struct Float2 {
    pub first: Option<FloatBits>,
    pub second: Option<FloatBits>,
}

/// Arbitration ids of the field bus.
pub const BMS_HEALTH_CHECK_ID: u32 = 0x001;
pub const MC_HEALTH_CHECK_ID: u32 = 0x002;
pub const BMS_FAULT_REPORT_ID: u32 = 0x00A;
pub const BMS_STATE_CHANGE_ID: u32 = 0x00B;
pub const BMS_DATA_1_ID: u32 = 0x00C;
pub const BMS_DATA_2_ID: u32 = 0x00D;
pub const BMS_DATA_3_ID: u32 = 0x00E;
pub const MC_FAULT_REPORT_ID: u32 = 0x014;
pub const MC_STATE_CHANGE_ID: u32 = 0x015;
pub const MC_DATA_1_ID: u32 = 0x016;
pub const MC_DATA_2_ID: u32 = 0x017;
pub const POD_SPEED_ID: u32 = 0x01F;
pub const PRESSURE_HIGH_ID: u32 = 0x020;
pub const PRESSURE_LOW_1_ID: u32 = 0x021;
pub const PRESSURE_LOW_2_ID: u32 = 0x022;
pub const PRESSURE_STATE_CHANGE_ID: u32 = 0x023;
pub const CURRENT_5V_ID: u32 = 0x030;
pub const CURRENT_12V_ID: u32 = 0x031;
pub const CURRENT_24V_ID: u32 = 0x032;
pub const TORCHIC_1_ID: u32 = 0x040;
pub const TORCHIC_2_ID: u32 = 0x041;
/// Responses of the motor driver to queries.
pub const ROBOTEQ_RESPONSE_ID: u32 = 0x581;

/// Command specifier (upper nibble of byte 0) of a query response.
pub const ROBOTEQ_QUERY_RESPONSE: u8 = 0x4;
pub const ROBOTEQ_ENCODER_SPEED_INDEX: u16 = 0x2103;
pub const ROBOTEQ_BATTERY_AMPS_INDEX: u16 = 0x210C;
pub const ROBOTEQ_TEMPERATURE_INDEX: u16 = 0x210F;

/// A decoded bus frame.
#[derive(PartialEq, Eq, Structural, Debug, Copy, Clone)]
pub enum CanCommand {
    BmsHealthCheck { battery_pack_current: FloatBits, cell_temperature: FloatBits },
    MotorControllerHealthCheck { igbt_temp: FloatBits, motor_voltage: FloatBits },
    BmsFaultReport(BmsFaultReport),
    BmsStateChange(AckNack),
    BmsData1 { battery_pack_voltage: FloatBits, state_of_charge: FloatBits },
    BmsData2 { buck_temperature: FloatBits, bms_current: FloatBits },
    BmsData3 { link_cap_voltage: FloatBits },
    MotorControllerFaultReport(MotorControllerFaultReport),
    MotorControllerStateChange(AckNack),
    MotorControllerData1 { mc_pod_speed: FloatBits, motor_current: FloatBits },
    MotorControllerData2 { battery_current: FloatBits, battery_voltage: FloatBits },
    PodSpeed { pod_speed: FloatBits },
    PressureHigh(FloatBits),
    PressureLow1(FloatBits),
    PressureLow2(FloatBits),
    PressureStateChange(AckNack),
    Torchic1(Float2),
    Torchic2(Float2),
    Current5V(FloatBits),
    Current12V(FloatBits),
    Current24V(FloatBits),
    RoboteqMotorEncoderResult { motor_number: u8, speed: i32 },
    RoboteqBatteryAmpsResult { motor_number: u8, amps: i16 },
    RoboteqTemperatureResult { sub_index: u8, temp: i8 },
    /// A frame this node does not decode, with its arbitration id.
    Unknown(u32),
}

/// Little-endian 32-bit value of four bytes.
pub open spec fn le_u32(b0: u8, b1: u8, b2: u8, b3: u8) -> u32 {
    (b0 as int + 0x100 * b1 + 0x1_0000 * b2 + 0x100_0000 * b3) as u32
}

/// Big-endian 32-bit value of four bytes.
pub open spec fn be_u32(b0: u8, b1: u8, b2: u8, b3: u8) -> u32 {
    le_u32(b3, b2, b1, b0)
}

/// Two's complement reading of a pattern `v` below `modulus` (a power of two).
pub open spec fn signed_of(v: int, modulus: int) -> int {
    if v >= modulus / 2 {
        v - modulus
    } else {
        v
    }
}

/// The float at offset 0 (or 4) of a payload.
pub open spec fn first_float(data: Seq<u8>) -> FloatBits {
    le_u32(data[0], data[1], data[2], data[3])
}

pub open spec fn second_float(data: Seq<u8>) -> FloatBits {
    le_u32(data[4], data[5], data[6], data[7])
}

/// Acknowledgement byte of a state-change frame; an empty payload is `UNKNOWN`.
pub open spec fn ack_of_payload(data: Seq<u8>) -> AckNack {
    if data.len() == 0 {
        AckNack::UNKNOWN
    } else {
        ack_of_byte(data[0])
    }
}

/// Frames that carry one float at offset 0.
pub open spec fn one_float_command(id: u32, f: FloatBits) -> Option<CanCommand> {
    if id == BMS_DATA_3_ID {
        Some(CanCommand::BmsData3 { link_cap_voltage: f })
    } else if id == POD_SPEED_ID {
        Some(CanCommand::PodSpeed { pod_speed: f })
    } else if id == PRESSURE_HIGH_ID {
        Some(CanCommand::PressureHigh(f))
    } else if id == PRESSURE_LOW_1_ID {
        Some(CanCommand::PressureLow1(f))
    } else if id == PRESSURE_LOW_2_ID {
        Some(CanCommand::PressureLow2(f))
    } else if id == CURRENT_5V_ID {
        Some(CanCommand::Current5V(f))
    } else if id == CURRENT_12V_ID {
        Some(CanCommand::Current12V(f))
    } else if id == CURRENT_24V_ID {
        Some(CanCommand::Current24V(f))
    } else {
        None
    }
}

/// Frames that carry two floats, at offsets 0 and 4.
pub open spec fn two_float_command(id: u32, f0: FloatBits, f1: FloatBits) -> Option<CanCommand> {
    if id == BMS_HEALTH_CHECK_ID {
        Some(CanCommand::BmsHealthCheck { battery_pack_current: f0, cell_temperature: f1 })
    } else if id == MC_HEALTH_CHECK_ID {
        Some(CanCommand::MotorControllerHealthCheck { igbt_temp: f0, motor_voltage: f1 })
    } else if id == BMS_DATA_1_ID {
        Some(CanCommand::BmsData1 { battery_pack_voltage: f0, state_of_charge: f1 })
    } else if id == BMS_DATA_2_ID {
        Some(CanCommand::BmsData2 { buck_temperature: f0, bms_current: f1 })
    } else if id == MC_DATA_1_ID {
        Some(CanCommand::MotorControllerData1 { mc_pod_speed: f0, motor_current: f1 })
    } else if id == MC_DATA_2_ID {
        Some(CanCommand::MotorControllerData2 { battery_current: f0, battery_voltage: f1 })
    } else if id == TORCHIC_1_ID {
        Some(CanCommand::Torchic1(Float2 { first: Some(f0), second: Some(f1) }))
    } else if id == TORCHIC_2_ID {
        Some(CanCommand::Torchic2(Float2 { first: Some(f0), second: Some(f1) }))
    } else {
        None
    }
}

/// Frames whose payload is a status byte or a fault report.
pub open spec fn status_command(id: u32, data: Seq<u8>) -> Option<CanCommand> {
    if id == BMS_FAULT_REPORT_ID {
        Some(CanCommand::BmsFaultReport(bms_fault_of_payload(data)))
    } else if id == BMS_STATE_CHANGE_ID {
        Some(CanCommand::BmsStateChange(ack_of_payload(data)))
    } else if id == MC_FAULT_REPORT_ID {
        Some(
            CanCommand::MotorControllerFaultReport(
                MotorControllerFaultReport { severity_code: severity_of_payload(data) },
            ),
        )
    } else if id == MC_STATE_CHANGE_ID {
        Some(CanCommand::MotorControllerStateChange(ack_of_payload(data)))
    } else if id == PRESSURE_STATE_CHANGE_ID {
        Some(CanCommand::PressureStateChange(ack_of_payload(data)))
    } else {
        None
    }
}

/// A motor-driver query response: byte 0 holds the command specifier in its
/// upper nibble, bytes 1-2 the index (high byte first), byte 3 the sub-index,
/// and the value follows, high byte first.
pub open spec fn roboteq_command(id: u32, data: Seq<u8>) -> CanCommand {
    if data.len() < 4 || data[0] / 16 != ROBOTEQ_QUERY_RESPONSE {
        CanCommand::Unknown(id)
    } else {
        let index = data[1] * 0x100 + data[2];
        let sub_index = data[3];
        if index == ROBOTEQ_ENCODER_SPEED_INDEX && data.len() >= 8 {
            CanCommand::RoboteqMotorEncoderResult {
                motor_number: sub_index,
                speed: signed_of(be_u32(data[4], data[5], data[6], data[7]) as int, 0x1_0000_0000) as i32,
            }
        } else if index == ROBOTEQ_BATTERY_AMPS_INDEX && data.len() >= 6 {
            CanCommand::RoboteqBatteryAmpsResult {
                motor_number: sub_index,
                amps: signed_of(data[4] * 0x100 + data[5], 0x1_0000) as i16,
            }
        } else if index == ROBOTEQ_TEMPERATURE_INDEX && data.len() >= 5 {
            CanCommand::RoboteqTemperatureResult {
                sub_index,
                temp: signed_of(data[4] as int, 0x100) as i8,
            }
        } else {
            CanCommand::Unknown(id)
        }
    }
}

/// The command a frame decodes to. A payload too short for its frame, and an
/// id outside the table, give `Unknown(id)`; state-change frames without a
/// byte give the unknown acknowledgement.
pub open spec fn command_of(id: u32, data: Seq<u8>) -> CanCommand {
    if status_command(id, data) is Some {
        status_command(id, data)->Some_0
    } else if id == ROBOTEQ_RESPONSE_ID {
        roboteq_command(id, data)
    } else if data.len() >= 8 && two_float_command(id, 0, 0) is Some {
        two_float_command(id, first_float(data), second_float(data))->Some_0
    } else if data.len() >= 4 && one_float_command(id, 0) is Some {
        one_float_command(id, first_float(data))->Some_0
    } else {
        CanCommand::Unknown(id)
    }
}

/// Relies on byteorder's `LittleEndian::read_u32`, which reads the first four
/// bytes least significant first (and panics on fewer than four).
#[verifier::external_body]
fn read_le_u32(buf: &[u8]) -> (r: u32)
    requires
        buf@.len() >= 4,
    ensures
        r == le_u32(buf@[0], buf@[1], buf@[2], buf@[3]),
{
    LittleEndian::read_u32(buf)
}

fn float_at(data: &[u8], offset: usize) -> (r: FloatBits)
    requires
        offset <= 4,
        offset + 4 <= data@.len(),
    ensures
        r == le_u32(data@[offset as int], data@[offset + 1], data@[offset + 2], data@[offset + 3]),
{
    read_le_u32(&data[offset..offset + 4])
}

fn ack_from_payload(data: &[u8]) -> (r: AckNack)
    ensures
        r == ack_of_payload(data@),
{
    if data.len() == 0 {
        AckNack::UNKNOWN
    } else {
        AckNack::from(data[0])
    }
}

fn roboteq_from_payload(id: u32, data: &[u8]) -> (r: CanCommand)
    ensures
        r == roboteq_command(id, data@),
{
    if data.len() < 4 || data[0] / 16 != ROBOTEQ_QUERY_RESPONSE {
        return CanCommand::Unknown(id);
    }
    let index: u16 = data[1] as u16 * 0x100 + data[2] as u16;
    let sub_index = data[3];
    if index == ROBOTEQ_ENCODER_SPEED_INDEX && data.len() >= 8 {
        let raw: u32 = data[4] as u32 * 0x100_0000 + data[5] as u32 * 0x1_0000 + data[6] as u32
            * 0x100 + data[7] as u32;
        let speed: i32 = if raw < 0x8000_0000 {
            raw as i32
        } else {
            ((raw - 0x8000_0000) as i32) + i32::MIN
        };
        CanCommand::RoboteqMotorEncoderResult { motor_number: sub_index, speed }
    } else if index == ROBOTEQ_BATTERY_AMPS_INDEX && data.len() >= 6 {
        let raw: u16 = data[4] as u16 * 0x100 + data[5] as u16;
        let amps: i16 = if raw < 0x8000 {
            raw as i16
        } else {
            ((raw - 0x8000) as i16) + i16::MIN
        };
        CanCommand::RoboteqBatteryAmpsResult { motor_number: sub_index, amps }
    } else if index == ROBOTEQ_TEMPERATURE_INDEX && data.len() >= 5 {
        let raw = data[4];
        let temp: i8 = if raw < 0x80 {
            raw as i8
        } else {
            ((raw - 0x80) as i8) + i8::MIN
        };
        CanCommand::RoboteqTemperatureResult { sub_index, temp }
    } else {
        CanCommand::Unknown(id)
    }
}

/// Decodes a bus frame given by its arbitration id and payload. Total: no
/// payload makes it fail.
pub fn decode_frame(id: u32, data: &[u8]) -> (r: CanCommand)
    ensures
        r == command_of(id, data@),
{
    match id {
        BMS_FAULT_REPORT_ID => {
            return CanCommand::BmsFaultReport(BmsFaultReport::from_payload(data));
        },
        BMS_STATE_CHANGE_ID => {
            return CanCommand::BmsStateChange(ack_from_payload(data));
        },
        MC_FAULT_REPORT_ID => {
            return CanCommand::MotorControllerFaultReport(
                MotorControllerFaultReport::from_payload(data),
            );
        },
        MC_STATE_CHANGE_ID => {
            return CanCommand::MotorControllerStateChange(ack_from_payload(data));
        },
        PRESSURE_STATE_CHANGE_ID => {
            return CanCommand::PressureStateChange(ack_from_payload(data));
        },
        ROBOTEQ_RESPONSE_ID => {
            return roboteq_from_payload(id, data);
        },
        _ => {},
    }
    let two_floats = id == BMS_HEALTH_CHECK_ID || id == MC_HEALTH_CHECK_ID || id == BMS_DATA_1_ID
        || id == BMS_DATA_2_ID || id == MC_DATA_1_ID || id == MC_DATA_2_ID || id == TORCHIC_1_ID
        || id == TORCHIC_2_ID;
    if two_floats {
        if data.len() < 8 {
            return CanCommand::Unknown(id);
        }
        let f0 = float_at(data, 0);
        let f1 = float_at(data, 4);
        return match id {
            BMS_HEALTH_CHECK_ID => CanCommand::BmsHealthCheck {
                battery_pack_current: f0,
                cell_temperature: f1,
            },
            MC_HEALTH_CHECK_ID => CanCommand::MotorControllerHealthCheck {
                igbt_temp: f0,
                motor_voltage: f1,
            },
            BMS_DATA_1_ID => CanCommand::BmsData1 { battery_pack_voltage: f0, state_of_charge: f1 },
            BMS_DATA_2_ID => CanCommand::BmsData2 { buck_temperature: f0, bms_current: f1 },
            MC_DATA_1_ID => CanCommand::MotorControllerData1 { mc_pod_speed: f0, motor_current: f1 },
            MC_DATA_2_ID => CanCommand::MotorControllerData2 {
                battery_current: f0,
                battery_voltage: f1,
            },
            TORCHIC_1_ID => CanCommand::Torchic1(Float2 { first: Some(f0), second: Some(f1) }),
            _ => CanCommand::Torchic2(Float2 { first: Some(f0), second: Some(f1) }),
        };
    }
    let one_float = id == BMS_DATA_3_ID || id == POD_SPEED_ID || id == PRESSURE_HIGH_ID || id
        == PRESSURE_LOW_1_ID || id == PRESSURE_LOW_2_ID || id == CURRENT_5V_ID || id
        == CURRENT_12V_ID || id == CURRENT_24V_ID;
    if one_float && data.len() >= 4 {
        let f = float_at(data, 0);
        return match id {
            BMS_DATA_3_ID => CanCommand::BmsData3 { link_cap_voltage: f },
            POD_SPEED_ID => CanCommand::PodSpeed { pod_speed: f },
            PRESSURE_HIGH_ID => CanCommand::PressureHigh(f),
            PRESSURE_LOW_1_ID => CanCommand::PressureLow1(f),
            PRESSURE_LOW_2_ID => CanCommand::PressureLow2(f),
            CURRENT_5V_ID => CanCommand::Current5V(f),
            CURRENT_12V_ID => CanCommand::Current12V(f),
            _ => CanCommand::Current24V(f),
        };
    }
    CanCommand::Unknown(id)
}

/// A state-change frame with an empty payload decodes to the unknown
/// acknowledgement, and an id outside the table decodes to `Unknown` of that id.
pub proof fn lemma_decode_degrades_to_unknown(id: u32)
    ensures
        command_of(BMS_STATE_CHANGE_ID, Seq::empty()) == CanCommand::BmsStateChange(
            AckNack::UNKNOWN,
        ),
        command_of(MC_STATE_CHANGE_ID, Seq::empty()) == CanCommand::MotorControllerStateChange(
            AckNack::UNKNOWN,
        ),
        command_of(PRESSURE_STATE_CHANGE_ID, Seq::empty()) == CanCommand::PressureStateChange(
            AckNack::UNKNOWN,
        ),
        !is_mapped_id(id) ==> forall|data: Seq<u8>| command_of(id, data) == CanCommand::Unknown(id),
{
}

/// The arbitration ids that the table decodes.
pub open spec fn is_mapped_id(id: u32) -> bool {
    ||| status_command(id, Seq::empty()) is Some
    ||| id == ROBOTEQ_RESPONSE_ID
    ||| two_float_command(id, 0, 0) is Some
    ||| one_float_command(id, 0) is Some
}

} // verus!
