use vstd::prelude::*;

use crate::can_command::CanCommand;
use crate::device_watchdog::{Device, DeviceWatchdog, DeviceWatchdogMap};
use crate::can_command::FloatBits;
use crate::float_bits::float_lt;
use crate::pod_data::{PodData, F_400, F_50};

verus! {

/// The snapshot after a command, or `None` for a command that carries no
/// telemetry. Each command sets exactly the readings it carries.
pub open spec fn apply_command(d: PodData, c: CanCommand) -> Option<PodData> {
    match c {
        CanCommand::BmsHealthCheck { battery_pack_current, cell_temperature } => Some(
            PodData {
                battery_pack_current: Some(battery_pack_current),
                average_cell_temperature: Some(cell_temperature),
                ..d
            },
        ),
        CanCommand::MotorControllerHealthCheck { igbt_temp, motor_voltage } => Some(
            PodData { igbt_temp: Some(igbt_temp), motor_voltage: Some(motor_voltage), ..d },
        ),
        CanCommand::BmsData1 { battery_pack_voltage, state_of_charge } => Some(
            PodData {
                battery_pack_voltage: Some(battery_pack_voltage),
                state_of_charge: Some(state_of_charge),
                ..d
            },
        ),
        CanCommand::BmsData2 { buck_temperature, bms_current } => Some(
            PodData { buck_temperature: Some(buck_temperature), bms_current: Some(bms_current), ..d },
        ),
        CanCommand::BmsData3 { link_cap_voltage } => Some(
            PodData { link_cap_voltage: Some(link_cap_voltage), ..d },
        ),
        CanCommand::MotorControllerData1 { mc_pod_speed, motor_current } => Some(
            PodData { mc_pod_speed: Some(mc_pod_speed), motor_current: Some(motor_current), ..d },
        ),
        CanCommand::MotorControllerData2 { battery_current, battery_voltage } => Some(
            PodData {
                battery_current: Some(battery_current),
                battery_voltage: Some(battery_voltage),
                ..d
            },
        ),
        CanCommand::PodSpeed { pod_speed } => Some(PodData { speed: Some(pod_speed), ..d }),
        CanCommand::PressureHigh(p) => Some(PodData { pressure_high: Some(p), ..d }),
        CanCommand::PressureLow1(p) => Some(PodData { pressure_low_1: Some(p), ..d }),
        CanCommand::PressureLow2(p) => Some(PodData { pressure_low_2: Some(p), ..d }),
        CanCommand::Current5V(c) => Some(PodData { current_5v: Some(c), ..d }),
        CanCommand::Current12V(c) => Some(PodData { current_12v: Some(c), ..d }),
        CanCommand::Current24V(c) => Some(PodData { current_24v: Some(c), ..d }),
        CanCommand::Torchic1(t) => Some(PodData { torchic_1: t, ..d }),
        CanCommand::Torchic2(t) => Some(PodData { torchic_2: t, ..d }),
        CanCommand::RoboteqBatteryAmpsResult { motor_number, amps } => if motor_number == 1 {
            Some(PodData { roboteq_motor_1_battery_amps: Some(amps), ..d })
        } else if motor_number == 2 {
            Some(PodData { roboteq_motor_2_battery_amps: Some(amps), ..d })
        } else {
            None
        },
        CanCommand::RoboteqMotorEncoderResult { motor_number, speed } => if motor_number == 1 {
            Some(PodData { roboteq_motor_1_rpm: Some(speed), ..d })
        } else if motor_number == 2 {
            Some(PodData { roboteq_motor_2_rpm: Some(speed), ..d })
        } else {
            None
        },
        CanCommand::RoboteqTemperatureResult { sub_index, temp } => if sub_index == 1 {
            Some(PodData { roboteq_mcu_temp: Some(temp), ..d })
        } else if sub_index == 2 {
            Some(PodData { roboteq_sensor_1_temp: Some(temp), ..d })
        } else if sub_index == 3 {
            Some(PodData { roboteq_sensor_2_temp: Some(temp), ..d })
        } else {
            None
        },
        _ => None,
    }
}

/// The board a telemetry command is attributed to, for the watchdog.
pub open spec fn command_device(c: CanCommand) -> Option<Device> {
    match c {
        CanCommand::BmsHealthCheck { .. } => Some(Device::BMS),
        CanCommand::BmsData1 { .. } => Some(Device::BMS),
        CanCommand::BmsData2 { .. } => Some(Device::BMS),
        CanCommand::BmsData3 { .. } => Some(Device::BMS),
        CanCommand::MotorControllerHealthCheck { .. } => Some(Device::MC),
        CanCommand::MotorControllerData1 { .. } => Some(Device::MC),
        CanCommand::MotorControllerData2 { .. } => Some(Device::MC),
        CanCommand::PodSpeed { .. } => Some(Device::MC),
        CanCommand::PressureHigh(_) => Some(Device::PRESSURE_HIGH),
        CanCommand::PressureLow1(_) => Some(Device::PRESSURE_LOW_1),
        CanCommand::PressureLow2(_) => Some(Device::PRESSURE_LOW_2),
        CanCommand::Current5V(_) => Some(Device::ELEKID),
        CanCommand::Current12V(_) => Some(Device::ELEKID),
        CanCommand::Current24V(_) => Some(Device::ELEKID),
        CanCommand::Torchic1(_) => Some(Device::TORCHIC_1),
        CanCommand::Torchic2(_) => Some(Device::TORCHIC_2),
        _ => None,
    }
}

/// What one bus command led to: the devices judged lost, and the snapshot to
/// publish, if any.
pub struct AggregatorReport {
    pub lost_devices: Vec<Device>,
    pub telemetry: Option<PodData>,
}

/// Folds bus commands into the telemetry snapshot and keeps the watchdog.
pub struct Aggregator {
    pod_data: PodData,
    watchdog: DeviceWatchdogMap,
}

impl Aggregator {
    pub closed spec fn wf(&self) -> bool {
        self.watchdog.wf()
    }

    pub closed spec fn snapshot(&self) -> PodData {
        self.pod_data
    }

    pub closed spec fn watchdog_entry(&self, d: Device) -> DeviceWatchdog {
        self.watchdog.entry(d)
    }

    pub open spec fn device_functioning(&self, d: Device, now: i64) -> bool {
        crate::device_watchdog::functioning(
            self.watchdog_entry(d).last_message,
            self.watchdog_entry(d).period,
            now,
        )
    }

    /// An empty snapshot, and a watchdog with the given period (milliseconds)
    /// for every device.
    pub fn new(period: i64) -> (r: Aggregator)
        ensures
            r.wf(),
            r.snapshot() == PodData::empty(),
            forall|d: Device| #[trigger] r.watchdog_entry(d) == DeviceWatchdog::new_spec(period),
    {
        Aggregator { pod_data: PodData::new(), watchdog: DeviceWatchdogMap::with_all_devices(period) }
    }

    pub fn pod_data(&self) -> (r: PodData)
        ensures
            r == self.snapshot(),
    {
        self.pod_data
    }

    /// Handles one decoded bus command received at `now` (milliseconds): the
    /// readings it carries are stored, its board is marked as heard from,
    /// every board is judged, and the snapshot is offered for publishing when
    /// the command carried telemetry and the snapshot passes the sanity check.
    pub fn handle_command(&mut self, command: CanCommand, now: i64) -> (r: AggregatorReport)
        requires
            old(self).wf(),
        ensures
            final(self).wf(),
            final(self).snapshot() == (match apply_command(old(self).snapshot(), command) {
                Some(d) => d,
                None => old(self).snapshot(),
            }),
            forall|d: Device| #[trigger]
                final(self).watchdog_entry(d) == if command_device(command) == Some(d) {
                    DeviceWatchdog {
                        last_message: Some(now),
                        period: old(self).watchdog_entry(d).period,
                    }
                } else {
                    old(self).watchdog_entry(d)
                },
            r.lost_devices@.no_duplicates(),
            forall|d: Device|
                r.lost_devices@.contains(d) <==> !final(self).device_functioning(d, now),
            r.telemetry == (if apply_command(old(self).snapshot(), command) is Some
                && final(self).snapshot().ok_spec() {
                Some(final(self).snapshot())
            } else {
                None
            }),
    {
        let updated = self.apply(command);
        match device_of(command) {
            Some(device) => self.watchdog.update_device_timestamp(device, now),
            None => {},
        }
        let lost_devices = self.watchdog.check_devices(now);
        let telemetry = if updated && self.pod_data.ok() {
            Some(self.pod_data)
        } else {
            None
        };
        AggregatorReport { lost_devices, telemetry }
    }

    fn apply(&mut self, command: CanCommand) -> (updated: bool)
        ensures
            updated == apply_command(old(self).pod_data, command) is Some,
            final(self).pod_data == (match apply_command(old(self).pod_data, command) {
                Some(d) => d,
                None => old(self).pod_data,
            }),
            final(self).watchdog == old(self).watchdog,
    {
        let d = &mut self.pod_data;
        match command {
            CanCommand::BmsHealthCheck { battery_pack_current, cell_temperature } => {
                d.battery_pack_current = Some(battery_pack_current);
                d.average_cell_temperature = Some(cell_temperature);
            },
            CanCommand::MotorControllerHealthCheck { igbt_temp, motor_voltage } => {
                d.igbt_temp = Some(igbt_temp);
                d.motor_voltage = Some(motor_voltage);
            },
            CanCommand::BmsData1 { battery_pack_voltage, state_of_charge } => {
                d.battery_pack_voltage = Some(battery_pack_voltage);
                d.state_of_charge = Some(state_of_charge);
            },
            CanCommand::BmsData2 { buck_temperature, bms_current } => {
                d.buck_temperature = Some(buck_temperature);
                d.bms_current = Some(bms_current);
            },
            CanCommand::BmsData3 { link_cap_voltage } => {
                d.link_cap_voltage = Some(link_cap_voltage);
            },
            CanCommand::MotorControllerData1 { mc_pod_speed, motor_current } => {
                d.mc_pod_speed = Some(mc_pod_speed);
                d.motor_current = Some(motor_current);
            },
            CanCommand::MotorControllerData2 { battery_current, battery_voltage } => {
                d.battery_current = Some(battery_current);
                d.battery_voltage = Some(battery_voltage);
            },
            CanCommand::PodSpeed { pod_speed } => {
                d.speed = Some(pod_speed);
            },
            CanCommand::PressureHigh(p) => {
                d.pressure_high = Some(p);
            },
            CanCommand::PressureLow1(p) => {
                d.pressure_low_1 = Some(p);
            },
            CanCommand::PressureLow2(p) => {
                d.pressure_low_2 = Some(p);
            },
            CanCommand::Current5V(c) => {
                d.current_5v = Some(c);
            },
            CanCommand::Current12V(c) => {
                d.current_12v = Some(c);
            },
            CanCommand::Current24V(c) => {
                d.current_24v = Some(c);
            },
            CanCommand::Torchic1(t) => {
                d.torchic_1 = t;
            },
            CanCommand::Torchic2(t) => {
                d.torchic_2 = t;
            },
            CanCommand::RoboteqBatteryAmpsResult { motor_number, amps } => {
                if motor_number == 1 {
                    d.roboteq_motor_1_battery_amps = Some(amps);
                } else if motor_number == 2 {
                    d.roboteq_motor_2_battery_amps = Some(amps);
                } else {
                    return false;
                }
            },
            CanCommand::RoboteqMotorEncoderResult { motor_number, speed } => {
                if motor_number == 1 {
                    d.roboteq_motor_1_rpm = Some(speed);
                } else if motor_number == 2 {
                    d.roboteq_motor_2_rpm = Some(speed);
                } else {
                    return false;
                }
            },
            CanCommand::RoboteqTemperatureResult { sub_index, temp } => {
                if sub_index == 1 {
                    d.roboteq_mcu_temp = Some(temp);
                } else if sub_index == 2 {
                    d.roboteq_sensor_1_temp = Some(temp);
                } else if sub_index == 3 {
                    d.roboteq_sensor_2_temp = Some(temp);
                } else {
                    return false;
                }
            },
            _ => {
                return false;
            },
        }
        true
    }
}

fn device_of(command: CanCommand) -> (r: Option<Device>)
    ensures
        r == command_device(command),
{
    match command {
        CanCommand::BmsHealthCheck { .. } | CanCommand::BmsData1 { .. } | CanCommand::BmsData2 {
            ..
        } | CanCommand::BmsData3 { .. } => Some(Device::BMS),
        CanCommand::MotorControllerHealthCheck { .. } | CanCommand::MotorControllerData1 { .. }
        | CanCommand::MotorControllerData2 { .. } | CanCommand::PodSpeed { .. } => Some(Device::MC),
        CanCommand::PressureHigh(_) => Some(Device::PRESSURE_HIGH),
        CanCommand::PressureLow1(_) => Some(Device::PRESSURE_LOW_1),
        CanCommand::PressureLow2(_) => Some(Device::PRESSURE_LOW_2),
        CanCommand::Current5V(_) | CanCommand::Current12V(_) | CanCommand::Current24V(_) => Some(
            Device::ELEKID,
        ),
        CanCommand::Torchic1(_) => Some(Device::TORCHIC_1),
        CanCommand::Torchic2(_) => Some(Device::TORCHIC_2),
        _ => None,
    }
}

/// One reading out of its bounds fails the check whatever the others hold,
/// so the update that brings it in publishes nothing.
pub proof fn lemma_out_of_range_reading_blocks_publish(
    d: PodData,
    current: FloatBits,
    temperature: FloatBits,
    pressure: FloatBits,
)
    requires
        !float_lt(current, F_50),
        !float_lt(pressure, F_400),
    ensures
        !apply_command(
            d,
            CanCommand::BmsHealthCheck { battery_pack_current: current, cell_temperature: temperature },
        )->Some_0.ok_spec(),
        !apply_command(d, CanCommand::PressureHigh(pressure))->Some_0.ok_spec(),
{
}

} // verus!
