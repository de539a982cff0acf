use vstd::prelude::*;

verus! {

#[derive(PartialEq, Eq, Structural, Debug, Copy, Clone)]
pub enum SeverityCode {
    SEVERE,
    DANGER,
    WARNING,
    UNKNOWN,
}

#[allow(non_camel_case_types)]
#[derive(PartialEq, Eq, Structural, Debug, Copy, Clone)]
pub enum BmsErrorCode {
    BATTERY_OVERVOLTAGE,
    BATTERY_UNDERVOLTAGE,
    BATTERY_OVERCURRENT,
    BATTERY_SOC,
    CELL_UNDERVOLTAGE,
    CELL_OVERVOLTAGE,
    CELL_TEMPERATURE,
    BUCK_TEMPERATURE,
    LOW_LAYER_EXCEPTION,
    UNKNOWN,
}

pub open spec fn severity_of_byte(b: u8) -> SeverityCode {
    match b {
        0x0 => SeverityCode::SEVERE,
        0x1 => SeverityCode::DANGER,
        0x2 => SeverityCode::WARNING,
        _ => SeverityCode::UNKNOWN,
    }
}

pub open spec fn bms_error_of_byte(b: u8) -> BmsErrorCode {
    match b {
        0x0 => BmsErrorCode::BATTERY_OVERVOLTAGE,
        0x1 => BmsErrorCode::BATTERY_UNDERVOLTAGE,
        0x2 => BmsErrorCode::BATTERY_OVERCURRENT,
        0x3 => BmsErrorCode::BATTERY_SOC,
        0x4 => BmsErrorCode::CELL_UNDERVOLTAGE,
        0x5 => BmsErrorCode::CELL_OVERVOLTAGE,
        0x6 => BmsErrorCode::CELL_TEMPERATURE,
        0x7 => BmsErrorCode::BUCK_TEMPERATURE,
        0x8 => BmsErrorCode::LOW_LAYER_EXCEPTION,
        _ => BmsErrorCode::UNKNOWN,
    }
}

impl From<u8> for SeverityCode {
    fn from(other: u8) -> (r: SeverityCode) {
        match other {
            0x0 => SeverityCode::SEVERE,
            0x1 => SeverityCode::DANGER,
            0x2 => SeverityCode::WARNING,
            _ => SeverityCode::UNKNOWN,
        }
    }
}

impl vstd::std_specs::convert::FromSpecImpl<u8> for SeverityCode {
    open spec fn obeys_from_spec() -> bool {
        true
    }

    open spec fn from_spec(other: u8) -> SeverityCode {
        severity_of_byte(other)
    }
}

impl From<u8> for BmsErrorCode {
    fn from(other: u8) -> (r: BmsErrorCode) {
        match other {
            0x0 => BmsErrorCode::BATTERY_OVERVOLTAGE,
            0x1 => BmsErrorCode::BATTERY_UNDERVOLTAGE,
            0x2 => BmsErrorCode::BATTERY_OVERCURRENT,
            0x3 => BmsErrorCode::BATTERY_SOC,
            0x4 => BmsErrorCode::CELL_UNDERVOLTAGE,
            0x5 => BmsErrorCode::CELL_OVERVOLTAGE,
            0x6 => BmsErrorCode::CELL_TEMPERATURE,
            0x7 => BmsErrorCode::BUCK_TEMPERATURE,
            0x8 => BmsErrorCode::LOW_LAYER_EXCEPTION,
            _ => BmsErrorCode::UNKNOWN,
        }
    }
}

impl vstd::std_specs::convert::FromSpecImpl<u8> for BmsErrorCode {
    open spec fn obeys_from_spec() -> bool {
        true
    }

    open spec fn from_spec(other: u8) -> BmsErrorCode {
        bms_error_of_byte(other)
    }
}

#[derive(PartialEq, Eq, Structural, Debug, Copy, Clone)]
pub struct BmsFaultReport {
    pub severity_code: SeverityCode,
    pub error_code: BmsErrorCode,
}

#[derive(PartialEq, Eq, Structural, Debug, Copy, Clone)]
pub struct MotorControllerFaultReport {
    pub severity_code: SeverityCode,
}

/// Severity carried in byte 0; a payload without it reports `UNKNOWN`.
pub open spec fn severity_of_payload(data: Seq<u8>) -> SeverityCode {
    if data.len() >= 1 {
        severity_of_byte(data[0])
    } else {
        SeverityCode::UNKNOWN
    }
}

pub open spec fn bms_fault_of_payload(data: Seq<u8>) -> BmsFaultReport {
    BmsFaultReport {
        severity_code: severity_of_payload(data),
        error_code: if data.len() >= 2 {
            bms_error_of_byte(data[1])
        } else {
            BmsErrorCode::UNKNOWN
        },
    }
}

impl BmsFaultReport {
    /// Reads severity from byte 0 and error code from byte 1; a missing byte
    /// reads as the unknown code.
    pub fn from_payload(data: &[u8]) -> (r: BmsFaultReport)
        ensures
            r == bms_fault_of_payload(data@),
    {
        let severity_code = if data.len() >= 1 {
            SeverityCode::from(data[0])
        } else {
            SeverityCode::UNKNOWN
        };
        let error_code = if data.len() >= 2 {
            BmsErrorCode::from(data[1])
        } else {
            BmsErrorCode::UNKNOWN
        };
        BmsFaultReport { severity_code, error_code }
    }
}

impl MotorControllerFaultReport {
    /// Reads severity from byte 0; a missing byte reads as `UNKNOWN`.
    pub fn from_payload(data: &[u8]) -> (r: MotorControllerFaultReport)
        ensures
            r == (MotorControllerFaultReport { severity_code: severity_of_payload(data@) }),
    {
        let severity_code = if data.len() >= 1 {
            SeverityCode::from(data[0])
        } else {
            SeverityCode::UNKNOWN
        };
        MotorControllerFaultReport { severity_code }
    }
}

} // verus!
