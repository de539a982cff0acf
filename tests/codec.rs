use relay::ack_nack::AckNack;
use relay::can_command::{decode_frame, CanCommand, Float2};
use relay::fault_reports::{BmsErrorCode, BmsFaultReport, MotorControllerFaultReport, SeverityCode};

fn two_floats(a: f32, b: f32) -> Vec<u8> {
    let mut v = a.to_le_bytes().to_vec();
    v.extend_from_slice(&b.to_le_bytes());
    v
}

#[test]
fn state_change_with_empty_payload_is_unknown_ack() {
    assert_eq!(decode_frame(0x00B, &[]), CanCommand::BmsStateChange(AckNack::UNKNOWN));
    assert_eq!(decode_frame(0x015, &[]), CanCommand::MotorControllerStateChange(AckNack::UNKNOWN));
    assert_eq!(decode_frame(0x023, &[]), CanCommand::PressureStateChange(AckNack::UNKNOWN));
}

#[test]
fn state_change_acknowledgements() {
    assert_eq!(decode_frame(0x00B, &[0x00]), CanCommand::BmsStateChange(AckNack::Ack));
    assert_eq!(decode_frame(0x00B, &[0xFF, 1, 2]), CanCommand::BmsStateChange(AckNack::Nack));
    assert_eq!(decode_frame(0x00B, &[0x01, 0]), CanCommand::BmsStateChange(AckNack::UNKNOWN));
    assert_eq!(AckNack::from(0x7Fu8), AckNack::UNKNOWN);
}

#[test]
fn unmapped_id_is_unknown_with_same_id() {
    assert_eq!(decode_frame(0x123, &[1, 2, 3]), CanCommand::Unknown(0x123));
    assert_eq!(decode_frame(0x7FF, &[]), CanCommand::Unknown(0x7FF));
    assert_eq!(decode_frame(0, &[0; 8]), CanCommand::Unknown(0));
}

#[test]
fn two_float_frames_decode_little_endian() {
    let data = two_floats(12.5, -3.0);
    assert_eq!(
        decode_frame(0x001, &data),
        CanCommand::BmsHealthCheck {
            battery_pack_current: 12.5f32.to_bits(),
            cell_temperature: (-3.0f32).to_bits()
        }
    );
    assert_eq!(
        decode_frame(0x017, &data),
        CanCommand::MotorControllerData2 {
            battery_current: 12.5f32.to_bits(),
            battery_voltage: (-3.0f32).to_bits()
        }
    );
    assert_eq!(
        decode_frame(0x040, &data),
        CanCommand::Torchic1(Float2 { first: Some(12.5f32.to_bits()), second: Some((-3.0f32).to_bits()) })
    );
}

#[test]
fn one_float_frames_decode_little_endian() {
    let data = 250.25f32.to_le_bytes();
    assert_eq!(decode_frame(0x020, &data), CanCommand::PressureHigh(250.25f32.to_bits()));
    assert_eq!(decode_frame(0x01F, &data), CanCommand::PodSpeed { pod_speed: 250.25f32.to_bits() });
    assert_eq!(decode_frame(0x032, &data), CanCommand::Current24V(250.25f32.to_bits()));
    assert_eq!(decode_frame(0x020, &[0x01, 0x02, 0x03, 0x04]), CanCommand::PressureHigh(0x0403_0201));
}

#[test]
fn short_payloads_degrade_to_unknown() {
    assert_eq!(decode_frame(0x001, &[0, 0, 0, 0, 0, 0, 0]), CanCommand::Unknown(0x001));
    assert_eq!(decode_frame(0x021, &[0, 0, 0]), CanCommand::Unknown(0x021));
    assert_eq!(decode_frame(0x581, &[0x43]), CanCommand::Unknown(0x581));
}

#[test]
fn fault_reports_read_their_codes() {
    assert_eq!(
        decode_frame(0x00A, &[0x01, 0x06]),
        CanCommand::BmsFaultReport(BmsFaultReport {
            severity_code: SeverityCode::DANGER,
            error_code: BmsErrorCode::CELL_TEMPERATURE
        })
    );
    assert_eq!(
        decode_frame(0x00A, &[]),
        CanCommand::BmsFaultReport(BmsFaultReport {
            severity_code: SeverityCode::UNKNOWN,
            error_code: BmsErrorCode::UNKNOWN
        })
    );
    assert_eq!(
        decode_frame(0x014, &[0x02]),
        CanCommand::MotorControllerFaultReport(MotorControllerFaultReport {
            severity_code: SeverityCode::WARNING
        })
    );
    assert_eq!(SeverityCode::from(0x0u8), SeverityCode::SEVERE);
    assert_eq!(BmsErrorCode::from(0x8u8), BmsErrorCode::LOW_LAYER_EXCEPTION);
    assert_eq!(BmsErrorCode::from(0x9u8), BmsErrorCode::UNKNOWN);
}

#[test]
fn motor_driver_query_responses() {
    // encoder speed of motor 2: -2, high byte first
    assert_eq!(
        decode_frame(0x581, &[0x43, 0x21, 0x03, 0x02, 0xFF, 0xFF, 0xFF, 0xFE]),
        CanCommand::RoboteqMotorEncoderResult { motor_number: 2, speed: -2 }
    );
    assert_eq!(
        decode_frame(0x581, &[0x4B, 0x21, 0x0C, 0x01, 0x01, 0x02, 0, 0]),
        CanCommand::RoboteqBatteryAmpsResult { motor_number: 1, amps: 0x0102 }
    );
    assert_eq!(
        decode_frame(0x581, &[0x4F, 0x21, 0x0F, 0x03, 0xF6, 0, 0, 0]),
        CanCommand::RoboteqTemperatureResult { sub_index: 3, temp: -10 }
    );
    // an unknown index, and a response that is not a query answer
    assert_eq!(decode_frame(0x581, &[0x43, 0x21, 0x04, 0x01, 0, 0, 0, 0]), CanCommand::Unknown(0x581));
    assert_eq!(decode_frame(0x581, &[0x80, 0x21, 0x03, 0x01, 0, 0, 0, 0]), CanCommand::Unknown(0x581));
}
