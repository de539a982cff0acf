use vstd::prelude::*;

use crate::can_command::{Float2, FloatBits};
use crate::float_bits::{float_bits_le, float_bits_lt, float_le, float_lt};

verus! {

pub type Float1 = Option<FloatBits>;

/// Bounds of the sanity check, as bit patterns of single-precision values.
pub const F_MINUS_40: FloatBits = 0xC220_0000;
pub const F_MINUS_1: FloatBits = 0xBF80_0000;
pub const F_0_05: FloatBits = 0x3D4C_CCCD;
pub const F_10: FloatBits = 0x4120_0000;
pub const F_28: FloatBits = 0x41E0_0000;
pub const F_37: FloatBits = 0x4214_0000;
pub const F_43: FloatBits = 0x422C_0000;
pub const F_44: FloatBits = 0x4230_0000;
pub const F_45: FloatBits = 0x4234_0000;
pub const F_50: FloatBits = 0x4248_0000;
pub const F_100: FloatBits = 0x42C8_0000;
pub const F_125: FloatBits = 0x42FA_0000;
pub const F_400: FloatBits = 0x43C8_0000;

/// Telemetry snapshot of the pod. Every reading is optional and starts absent;
/// single-precision readings are held as their bit patterns, and the motor
/// driver's encoder readings as motor revolutions per minute.
#[derive(PartialEq, Eq, Structural, Debug, Copy, Clone)]
pub struct PodData {
    pub battery_pack_current: Float1,
    pub average_cell_temperature: Float1,
    pub igbt_temp: Float1,
    pub motor_voltage: Float1,
    pub battery_pack_voltage: Float1,
    pub state_of_charge: Float1,
    pub buck_temperature: Float1,
    pub bms_current: Float1,
    pub link_cap_voltage: Float1,
    pub mc_pod_speed: Float1,
    pub motor_current: Float1,
    pub battery_current: Float1,
    pub battery_voltage: Float1,
    pub speed: Float1,
    pub current_5v: Float1,
    pub current_12v: Float1,
    pub current_24v: Float1,
    pub torchic_1: Float2,
    pub torchic_2: Float2,
    pub pressure_high: Float1,
    pub pressure_low_1: Float1,
    pub pressure_low_2: Float1,
    pub roboteq_motor_1_rpm: Option<i32>,
    pub roboteq_motor_2_rpm: Option<i32>,
    pub roboteq_motor_1_battery_amps: Option<i16>,
    pub roboteq_motor_2_battery_amps: Option<i16>,
    pub roboteq_mcu_temp: Option<i8>,
    pub roboteq_sensor_1_temp: Option<i8>,
    pub roboteq_sensor_2_temp: Option<i8>,
}

/// An absent reading passes; a present one must lie below `hi`.
pub open spec fn below(x: Float1, hi: FloatBits) -> bool {
    x matches Some(v) ==> float_lt(v, hi)
}

/// An absent reading passes; a present one must lie strictly above `lo`.
pub open spec fn above(x: Float1, lo: FloatBits) -> bool {
    x matches Some(v) ==> float_lt(lo, v)
}

pub open spec fn between(x: Float1, lo: FloatBits, hi: FloatBits) -> bool {
    above(x, lo) && below(x, hi)
}

impl PodData {
    /// The sanity bounds of the snapshot. Readings of boards that are not
    /// fitted yet must be absent.
    pub open spec fn ok_spec(&self) -> bool {
        &&& below(self.battery_pack_current, F_50)
        &&& between(self.average_cell_temperature, F_10, F_45)
        &&& between(self.igbt_temp, F_MINUS_40, F_125)
        &&& between(self.motor_voltage, F_28, F_37)
        &&& above(self.battery_pack_voltage, F_43)
        &&& above(self.state_of_charge, F_10)
        &&& below(self.bms_current, F_0_05)
        &&& self.link_cap_voltage is None
        &&& self.mc_pod_speed is None
        &&& self.motor_current is None
        &&& self.battery_current is None
        &&& self.battery_voltage is None
        &&& (self.speed matches Some(v) ==> float_le(F_MINUS_1, v) && float_lt(v, F_44))
        &&& self.current_5v is None
        &&& self.current_12v is None
        &&& self.current_24v is None
        &&& below(self.torchic_1.first, F_100)
        &&& below(self.torchic_1.second, F_100)
        &&& below(self.torchic_2.first, F_100)
        &&& below(self.torchic_2.second, F_100)
        &&& below(self.pressure_high, F_400)
        &&& below(self.pressure_low_1, F_100)
        &&& below(self.pressure_low_2, F_100)
    }

    pub open spec fn empty() -> PodData {
        PodData {
            battery_pack_current: None,
            average_cell_temperature: None,
            igbt_temp: None,
            motor_voltage: None,
            battery_pack_voltage: None,
            state_of_charge: None,
            buck_temperature: None,
            bms_current: None,
            link_cap_voltage: None,
            mc_pod_speed: None,
            motor_current: None,
            battery_current: None,
            battery_voltage: None,
            speed: None,
            current_5v: None,
            current_12v: None,
            current_24v: None,
            torchic_1: Float2 { first: None, second: None },
            torchic_2: Float2 { first: None, second: None },
            pressure_high: None,
            pressure_low_1: None,
            pressure_low_2: None,
            roboteq_motor_1_rpm: None,
            roboteq_motor_2_rpm: None,
            roboteq_motor_1_battery_amps: None,
            roboteq_motor_2_battery_amps: None,
            roboteq_mcu_temp: None,
            roboteq_sensor_1_temp: None,
            roboteq_sensor_2_temp: None,
        }
    }

    /// A snapshot with every reading absent.
    pub fn new() -> (r: PodData)
        ensures
            r == PodData::empty(),
    {
        PodData {
            battery_pack_current: None,
            average_cell_temperature: None,
            igbt_temp: None,
            motor_voltage: None,
            battery_pack_voltage: None,
            state_of_charge: None,
            buck_temperature: None,
            bms_current: None,
            link_cap_voltage: None,
            mc_pod_speed: None,
            motor_current: None,
            battery_current: None,
            battery_voltage: None,
            speed: None,
            current_5v: None,
            current_12v: None,
            current_24v: None,
            torchic_1: Float2 { first: None, second: None },
            torchic_2: Float2 { first: None, second: None },
            pressure_high: None,
            pressure_low_1: None,
            pressure_low_2: None,
            roboteq_motor_1_rpm: None,
            roboteq_motor_2_rpm: None,
            roboteq_motor_1_battery_amps: None,
            roboteq_motor_2_battery_amps: None,
            roboteq_mcu_temp: None,
            roboteq_sensor_1_temp: None,
            roboteq_sensor_2_temp: None,
        }
    }

    /// Whether every reading lies within its sanity bounds.
    pub fn ok(&self) -> (r: bool)
        ensures
            r == self.ok_spec(),
    {
        is_below(self.battery_pack_current, F_50) && is_between(
            self.average_cell_temperature,
            F_10,
            F_45,
        ) && is_between(self.igbt_temp, F_MINUS_40, F_125) && is_between(
            self.motor_voltage,
            F_28,
            F_37,
        ) && is_above(self.battery_pack_voltage, F_43) && is_above(self.state_of_charge, F_10)
            && is_below(self.bms_current, F_0_05) && self.link_cap_voltage.is_none()
            && self.mc_pod_speed.is_none() && self.motor_current.is_none()
            && self.battery_current.is_none() && self.battery_voltage.is_none() && match self.speed {
            None => true,
            Some(v) => float_bits_le(F_MINUS_1, v) && float_bits_lt(v, F_44),
        } && self.current_5v.is_none() && self.current_12v.is_none() && self.current_24v.is_none()
            && is_below(self.torchic_1.first, F_100) && is_below(self.torchic_1.second, F_100)
            && is_below(self.torchic_2.first, F_100) && is_below(self.torchic_2.second, F_100)
            && is_below(self.pressure_high, F_400) && is_below(self.pressure_low_1, F_100)
            && is_below(self.pressure_low_2, F_100)
    }
}

fn is_below(x: Float1, hi: FloatBits) -> (r: bool)
    ensures
        r == below(x, hi),
{
    match x {
        None => true,
        Some(v) => float_bits_lt(v, hi),
    }
}

fn is_above(x: Float1, lo: FloatBits) -> (r: bool)
    ensures
        r == above(x, lo),
{
    match x {
        None => true,
        Some(v) => float_bits_lt(lo, v),
    }
}

fn is_between(x: Float1, lo: FloatBits, hi: FloatBits) -> (r: bool)
    ensures
        r == between(x, lo, hi),
{
    is_above(x, lo) && is_below(x, hi)
}

/// A snapshot with every reading absent passes the sanity check.
pub proof fn lemma_empty_snapshot_ok()
    ensures
        PodData::empty().ok_spec(),
{
}

} // verus!
