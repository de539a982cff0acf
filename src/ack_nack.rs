use vstd::prelude::*;

verus! {

/// Answer of a board to a state-change request.
#[derive(PartialEq, Eq, Structural, Debug, Copy, Clone)]
pub enum AckNack {
    Ack,
    Nack,
    UNKNOWN,
}

pub open spec fn ack_of_byte(b: u8) -> AckNack {
    if b == 0x00 {
        AckNack::Ack
    } else if b == 0xFF {
        AckNack::Nack
    } else {
        AckNack::UNKNOWN
    }
}

impl From<u8> for AckNack {
    fn from(other: u8) -> (r: AckNack) {
        match other {
            0x00 => AckNack::Ack,
            0xFF => AckNack::Nack,
            _ => AckNack::UNKNOWN,
        }
    }
}

impl vstd::std_specs::convert::FromSpecImpl<u8> for AckNack {
    open spec fn obeys_from_spec() -> bool {
        true
    }

    open spec fn from_spec(other: u8) -> AckNack {
        ack_of_byte(other)
    }
}

} // verus!
