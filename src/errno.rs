use vstd::prelude::*;

verus! {

/// Error code reported to the desktop in every state report.
#[derive(PartialEq, Eq, Structural, Debug, Copy, Clone)]
pub enum UdpErrno {
    NoError,
    InvalidTransitionRequest,
    ArmingFault,
    ControllerTimeout,
    GeneralPodFailure,
    UnknownError,
}

pub open spec fn errno_byte(e: UdpErrno) -> u8 {
    match e {
        UdpErrno::NoError => 0x0,
        UdpErrno::InvalidTransitionRequest => 0x1,
        UdpErrno::ArmingFault => 0x2,
        UdpErrno::ControllerTimeout => 0x3,
        UdpErrno::GeneralPodFailure => 0x4,
        UdpErrno::UnknownError => 0x5,
    }
}

pub open spec fn errno_of_byte(b: u8) -> UdpErrno {
    match b {
        0x0 => UdpErrno::NoError,
        0x1 => UdpErrno::InvalidTransitionRequest,
        0x2 => UdpErrno::ArmingFault,
        0x3 => UdpErrno::ControllerTimeout,
        0x4 => UdpErrno::GeneralPodFailure,
        _ => UdpErrno::UnknownError,
    }
}

impl UdpErrno {
    /// Wire byte of the code; `UnknownError` is sent as the first byte past
    /// the known codes.
    pub fn to_byte(&self) -> (r: u8)
        ensures
            r == errno_byte(*self),
    {
        match self {
            UdpErrno::NoError => 0x0,
            UdpErrno::InvalidTransitionRequest => 0x1,
            UdpErrno::ArmingFault => 0x2,
            UdpErrno::ControllerTimeout => 0x3,
            UdpErrno::GeneralPodFailure => 0x4,
            UdpErrno::UnknownError => 0x5,
        }
    }

    /// Decodes a wire byte; every byte from `0x5` on is `UnknownError`.
    pub fn from_byte(byte: u8) -> (r: UdpErrno)
        ensures
            r == errno_of_byte(byte),
    {
        match byte {
            0x0 => UdpErrno::NoError,
            0x1 => UdpErrno::InvalidTransitionRequest,
            0x2 => UdpErrno::ArmingFault,
            0x3 => UdpErrno::ControllerTimeout,
            0x4 => UdpErrno::GeneralPodFailure,
            _ => UdpErrno::UnknownError,
        }
    }
}

impl From<u8> for UdpErrno {
    fn from(byte: u8) -> (r: UdpErrno) {
        UdpErrno::from_byte(byte)
    }
}

impl vstd::std_specs::convert::FromSpecImpl<u8> for UdpErrno {
    open spec fn obeys_from_spec() -> bool {
        true
    }

    open spec fn from_spec(byte: u8) -> UdpErrno {
        errno_of_byte(byte)
    }
}

/// Every code survives encoding and decoding.
pub proof fn lemma_errno_round_trip(e: UdpErrno)
    ensures
        errno_of_byte(errno_byte(e)) == e,
{
}

} // verus!
