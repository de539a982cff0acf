use vstd::prelude::*;

verus! {

/// Operating state of the pod. Every state has a one-byte wire encoding.
#[derive(PartialEq, Eq, Structural, Hash, Debug, Copy, Clone)]
pub enum PodState {
    LowVoltage,
    Armed,
    AutoPilot,
    Braking,
    EmergencyBrake,
    SystemFailure,
    Resting,
    ManualOperationWaiting,
    Accelerating,
    AtSpeed,
    Decelerating,
    Invalid,
}

/// The state the pod starts in and returns to after a recovery.
pub const INITIAL_POD_STATE: PodState = PodState::LowVoltage;

/// Wire encoding of a state.
pub open spec fn state_byte(s: PodState) -> u8 {
    match s {
        PodState::Resting => 0x00,
        PodState::LowVoltage => 0x01,
        PodState::Armed => 0x02,
        PodState::AutoPilot => 0x03,
        PodState::Braking => 0x04,
        PodState::EmergencyBrake => 0x05,
        PodState::SystemFailure => 0x06,
        PodState::ManualOperationWaiting => 0x07,
        PodState::Accelerating => 0x08,
        PodState::AtSpeed => 0x09,
        PodState::Decelerating => 0x0A,
        PodState::Invalid => 0x0B,
    }
}

/// Decoding of a wire byte: every byte outside the table is `Invalid`.
pub open spec fn state_of_byte(b: u8) -> PodState {
    match b {
        0x00 => PodState::Resting,
        0x01 => PodState::LowVoltage,
        0x02 => PodState::Armed,
        0x03 => PodState::AutoPilot,
        0x04 => PodState::Braking,
        0x05 => PodState::EmergencyBrake,
        0x06 => PodState::SystemFailure,
        0x07 => PodState::ManualOperationWaiting,
        0x08 => PodState::Accelerating,
        0x09 => PodState::AtSpeed,
        0x0A => PodState::Decelerating,
        _ => PodState::Invalid,
    }
}

/// The edges of the transition table, before the escape hatch to `SystemFailure`.
pub open spec fn table_edge(from: PodState, to: PodState) -> bool {
    match from {
        PodState::Resting => to == PodState::LowVoltage,
        PodState::LowVoltage => to == PodState::Resting || to == PodState::Armed,
        PodState::Armed => to == PodState::LowVoltage || to == PodState::AutoPilot || to
            == PodState::EmergencyBrake,
        PodState::AutoPilot => to == PodState::Braking || to == PodState::EmergencyBrake,
        PodState::Braking => to == PodState::LowVoltage,
        PodState::EmergencyBrake => to == PodState::SystemFailure,
        _ => false,
    }
}

/// A transition is legal when the table has the edge, or when it goes to `SystemFailure`.
pub open spec fn legal_transition(from: PodState, to: PodState) -> bool {
    table_edge(from, to) || to == PodState::SystemFailure
}

pub open spec fn error_state(s: PodState) -> bool {
    s == PodState::EmergencyBrake || s == PodState::SystemFailure
}

impl PodState {
    pub fn to_byte(&self) -> (r: u8)
        ensures
            r == state_byte(*self),
    {
        match self {
            PodState::Resting => 0x00,
            PodState::LowVoltage => 0x01,
            PodState::Armed => 0x02,
            PodState::AutoPilot => 0x03,
            PodState::Braking => 0x04,
            PodState::EmergencyBrake => 0x05,
            PodState::SystemFailure => 0x06,
            PodState::ManualOperationWaiting => 0x07,
            PodState::Accelerating => 0x08,
            PodState::AtSpeed => 0x09,
            PodState::Decelerating => 0x0A,
            PodState::Invalid => 0x0B,
        }
    }

    pub fn from_byte(byte: u8) -> (r: PodState)
        ensures
            r == state_of_byte(byte),
    {
        match byte {
            0x00 => PodState::Resting,
            0x01 => PodState::LowVoltage,
            0x02 => PodState::Armed,
            0x03 => PodState::AutoPilot,
            0x04 => PodState::Braking,
            0x05 => PodState::EmergencyBrake,
            0x06 => PodState::SystemFailure,
            0x07 => PodState::ManualOperationWaiting,
            0x08 => PodState::Accelerating,
            0x09 => PodState::AtSpeed,
            0x0A => PodState::Decelerating,
            _ => PodState::Invalid,
        }
    }

    /// Whether the table allows moving from `self` to `new_state`; moving to
    /// `SystemFailure` is always allowed.
    pub fn can_transition_to(&self, new_state: &PodState) -> (r: bool)
        ensures
            r == legal_transition(*self, *new_state),
    {
        let by_table = match self {
            PodState::Resting => matches!(new_state, PodState::LowVoltage),
            PodState::LowVoltage => matches!(new_state, PodState::Resting | PodState::Armed),
            PodState::Armed => matches!(
                new_state,
                PodState::LowVoltage | PodState::AutoPilot | PodState::EmergencyBrake
            ),
            PodState::AutoPilot => matches!(new_state, PodState::Braking | PodState::EmergencyBrake),
            PodState::Braking => matches!(new_state, PodState::LowVoltage),
            PodState::EmergencyBrake => matches!(new_state, PodState::SystemFailure),
            _ => false,
        };
        by_table || matches!(new_state, PodState::SystemFailure)
    }

    pub fn is_error_state(&self) -> (r: bool)
        ensures
            r == error_state(*self),
    {
        matches!(self, PodState::EmergencyBrake | PodState::SystemFailure)
    }
}

impl Default for PodState {
    fn default() -> (r: PodState)
        ensures
            r == PodState::Invalid,
    {
        PodState::Invalid
    }
}

impl From<u8> for PodState {
    fn from(byte: u8) -> (r: PodState) {
        PodState::from_byte(byte)
    }
}

impl vstd::std_specs::convert::FromSpecImpl<u8> for PodState {
    open spec fn obeys_from_spec() -> bool {
        true
    }

    open spec fn from_spec(byte: u8) -> PodState {
        state_of_byte(byte)
    }
}

/// Encoding a state and decoding the byte gives the state back, and every
/// byte of the table, `0x00` to `0x0B`, survives decoding and re-encoding.
pub proof fn lemma_state_byte_round_trip(s: PodState, b: u8)
    requires
        b <= 0x0B,
    ensures
        state_of_byte(state_byte(s)) == s,
        state_byte(state_of_byte(b)) == b,
{
}

/// Every state may move to `SystemFailure`.
pub proof fn lemma_system_failure_always_reachable(s: PodState)
    ensures
        legal_transition(s, PodState::SystemFailure),
{
}

/// `SystemFailure` is terminal: the only transition it admits is the
/// escape hatch back into itself, and no table edge leaves it.
pub proof fn lemma_system_failure_terminal(to: PodState)
    ensures
        !table_edge(PodState::SystemFailure, to),
        legal_transition(PodState::SystemFailure, to) <==> to == PodState::SystemFailure,
{
}

} // verus!
