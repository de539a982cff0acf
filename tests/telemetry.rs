use relay::aggregator::Aggregator;
use relay::can_command::{decode_frame, CanCommand, Float2};
use relay::device_watchdog::{Device, DeviceWatchdog, DeviceWatchdogMap};
use relay::float_bits::{float_bits_le, float_bits_lt};
use relay::pod_data::PodData;

fn bits(x: f32) -> u32 {
    x.to_bits()
}

#[test]
fn float_order_on_bit_patterns() {
    let values = [-100.0f32, -1.0, -0.0, 0.0, 0.05, 1.0, 43.0, 1e30, f32::INFINITY, f32::NEG_INFINITY];
    for a in values {
        for b in values {
            assert_eq!(float_bits_lt(bits(a), bits(b)), a < b, "{} < {}", a, b);
            assert_eq!(float_bits_le(bits(a), bits(b)), a <= b, "{} <= {}", a, b);
        }
        assert!(!float_bits_lt(bits(f32::NAN), bits(a)));
        assert!(!float_bits_le(bits(a), bits(f32::NAN)));
    }
}

#[test]
fn all_absent_snapshot_is_ok() {
    assert!(PodData::new().ok());
}

#[test]
fn one_out_of_range_reading_fails_the_check() {
    let mut d = PodData::new();
    d.battery_pack_current = Some(bits(49.9));
    assert!(d.ok());
    d.battery_pack_current = Some(bits(50.0));
    assert!(!d.ok());

    let mut d = PodData::new();
    d.average_cell_temperature = Some(bits(10.0));
    assert!(!d.ok());
    d.average_cell_temperature = Some(bits(10.5));
    assert!(d.ok());

    let mut d = PodData::new();
    d.speed = Some(bits(-1.0));
    assert!(d.ok());
    d.speed = Some(bits(-1.5));
    assert!(!d.ok());

    let mut d = PodData::new();
    d.link_cap_voltage = Some(bits(1.0));
    assert!(!d.ok());

    let mut d = PodData::new();
    d.torchic_2 = Float2 { first: Some(bits(20.0)), second: Some(bits(100.0)) };
    assert!(!d.ok());

    let mut d = PodData::new();
    d.bms_current = Some(bits(f32::NAN));
    assert!(!d.ok());
}

#[test]
fn watchdog_judges_by_twice_the_period() {
    let never = DeviceWatchdog::new(200);
    assert!(never.is_device_functioning(0));
    assert!(never.is_device_functioning(i64::MAX));
    let mut w = DeviceWatchdog::new(200);
    w.update_last_message(1_000);
    assert!(w.is_device_functioning(1_000));
    assert!(w.is_device_functioning(1_400));
    assert!(!w.is_device_functioning(1_401));
    w.update_last_message(i64::MIN);
    assert!(!w.is_device_functioning(i64::MAX));
}

#[test]
fn is_device_functioning_0() {
    let dut = DeviceWatchdog::new(200);
    assert!(dut.is_device_functioning(1_636_842_789_806));
}

#[test]
fn is_device_functioning_1() {
    let mut dut = DeviceWatchdog::new(200);
    dut.update_last_message(1_636_842_789_806);
    assert!(dut.is_device_functioning(1_636_842_789_806));
}

#[test]
fn is_device_functioning_2() {
    let mut dut = DeviceWatchdog::new(200);
    dut.update_last_message(1_636_842_789_806);
    assert!(!dut.is_device_functioning(1_636_842_789_806 + 401));
}

#[test]
fn check_devices_0() {
    let mut map = DeviceWatchdogMap::with_all_devices(200);
    map.update_device_timestamp(Device::BMS, 5_000);
    map.update_device_timestamp(Device::ELEKID, 5_000);
    assert_eq!(map.check_devices(5_000).len(), 0);
}

#[test]
fn check_devices_1() {
    let mut map = DeviceWatchdogMap::with_all_devices(200);
    map.update_device_timestamp(Device::BMS, 5_000);
    map.update_device_timestamp(Device::ELEKID, 5_000);
    let lost = map.check_devices(5_401);
    assert_eq!(lost.len(), 2);
    assert_eq!(lost, vec![Device::BMS, Device::ELEKID]);
    // a second failing check reports them again
    assert_eq!(map.check_devices(5_500).len(), 2);
    assert_eq!(map.get(Device::MC).last_message, None);
}

#[test]
fn aggregator_publishes_sane_telemetry() {
    let mut agg = Aggregator::new(400);
    let frame = [bits(250.0).to_le_bytes()].concat();
    let report = agg.handle_command(decode_frame(0x020, &frame), 1_000);
    assert!(report.lost_devices.is_empty());
    let published = report.telemetry.expect("telemetry");
    assert_eq!(published.pressure_high, Some(bits(250.0)));
    assert_eq!(agg.pod_data(), published);
}

#[test]
fn aggregator_suppresses_out_of_range_update() {
    let mut agg = Aggregator::new(400);
    let report = agg.handle_command(CanCommand::PressureHigh(bits(450.0)), 1_000);
    assert!(report.telemetry.is_none());
    assert_eq!(agg.pod_data().pressure_high, Some(bits(450.0)));
    // an uninteresting command publishes nothing either
    let report = agg.handle_command(CanCommand::Unknown(0x99), 1_001);
    assert!(report.telemetry.is_none());
}

#[test]
fn aggregator_reports_silent_devices() {
    let mut agg = Aggregator::new(400);
    agg.handle_command(CanCommand::PressureLow1(bits(10.0)), 0);
    let report = agg.handle_command(CanCommand::PressureLow2(bits(10.0)), 801);
    assert_eq!(report.lost_devices, vec![Device::PRESSURE_LOW_1]);
    let published = report.telemetry.expect("telemetry");
    assert_eq!(published.pressure_low_1, Some(bits(10.0)));
    assert_eq!(published.pressure_low_2, Some(bits(10.0)));
}

#[test]
fn aggregator_motor_driver_readings_go_to_their_motor() {
    let mut agg = Aggregator::new(400);
    let r = agg.handle_command(CanCommand::RoboteqBatteryAmpsResult { motor_number: 2, amps: -7 }, 0);
    assert!(r.telemetry.is_some());
    assert_eq!(agg.pod_data().roboteq_motor_2_battery_amps, Some(-7));
    assert_eq!(agg.pod_data().roboteq_motor_1_battery_amps, None);
    let r = agg.handle_command(CanCommand::RoboteqMotorEncoderResult { motor_number: 3, speed: 10 }, 0);
    assert!(r.telemetry.is_none());
    agg.handle_command(CanCommand::RoboteqTemperatureResult { sub_index: 2, temp: 30 }, 0);
    assert_eq!(agg.pod_data().roboteq_sensor_1_temp, Some(30));
}
