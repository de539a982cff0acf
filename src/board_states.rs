use vstd::prelude::*;

use crate::pod_states::{legal_transition, PodState};

verus! {

/// The states last set for the embedded boards of the pod.
pub struct BoardStates {
    bms_state: PodState,
    motor_controller_state: PodState,
    pressure_state: PodState,
}

#[derive(PartialEq, Eq, Structural, Debug, Copy, Clone)]
pub enum Error {
    InvalidTransision,
}

impl BoardStates {
    pub closed spec fn bms(&self) -> PodState {
        self.bms_state
    }

    pub closed spec fn motor_controller(&self) -> PodState {
        self.motor_controller_state
    }

    pub closed spec fn pressure(&self) -> PodState {
        self.pressure_state
    }

    /// Every board starts in `LowVoltage`.
    pub fn default() -> (r: BoardStates)
        ensures
            r.bms() == PodState::LowVoltage,
            r.motor_controller() == PodState::LowVoltage,
            r.pressure() == PodState::LowVoltage,
    {
        BoardStates {
            bms_state: PodState::LowVoltage,
            motor_controller_state: PodState::LowVoltage,
            pressure_state: PodState::LowVoltage,
        }
    }

    pub fn get_bms_state(&self) -> (r: &PodState)
        ensures
            *r == self.bms(),
    {
        &self.bms_state
    }

    pub fn get_motor_controller_state(&self) -> (r: &PodState)
        ensures
            *r == self.motor_controller(),
    {
        &self.motor_controller_state
    }

    pub fn get_pressure_state(&self) -> (r: &PodState)
        ensures
            *r == self.pressure(),
    {
        &self.pressure_state
    }

    pub fn set_bms_state(&mut self, new_state: &PodState)
        ensures
            final(self).bms() == *new_state,
            final(self).motor_controller() == old(self).motor_controller(),
            final(self).pressure() == old(self).pressure(),
    {
        self.bms_state = *new_state;
    }

    pub fn set_motor_controller_state(&mut self, new_state: &PodState)
        ensures
            final(self).motor_controller() == *new_state,
            final(self).bms() == old(self).bms(),
            final(self).pressure() == old(self).pressure(),
    {
        self.motor_controller_state = *new_state;
    }

    pub fn set_pressure_state(&mut self, new_state: &PodState)
        ensures
            final(self).pressure() == *new_state,
            final(self).bms() == old(self).bms(),
            final(self).motor_controller() == old(self).motor_controller(),
    {
        self.pressure_state = *new_state;
    }

    /// Sets the BMS state when the transition from its current state is legal.
    pub fn set_bms_state_transition_checked(&mut self, new_state: &PodState) -> (r: Result<(), Error>)
        ensures
            r is Ok <==> legal_transition(old(self).bms(), *new_state),
            r is Err ==> r == Err::<(), Error>(Error::InvalidTransision),
            final(self).bms() == (if r is Ok { *new_state } else { old(self).bms() }),
            final(self).motor_controller() == old(self).motor_controller(),
            final(self).pressure() == old(self).pressure(),
    {
        if self.get_bms_state().can_transition_to(new_state) {
            self.set_bms_state(new_state);
            Ok(())
        } else {
            Err(Error::InvalidTransision)
        }
    }

    /// Sets the motor controller state when the transition from its current
    /// state is legal.
    pub fn set_motor_controller_state_transition_checked(&mut self, new_state: &PodState) -> (r:
        Result<(), Error>)
        ensures
            r is Ok <==> legal_transition(old(self).motor_controller(), *new_state),
            r is Err ==> r == Err::<(), Error>(Error::InvalidTransision),
            final(self).motor_controller() == (if r is Ok {
                *new_state
            } else {
                old(self).motor_controller()
            }),
            final(self).bms() == old(self).bms(),
            final(self).pressure() == old(self).pressure(),
    {
        if self.get_motor_controller_state().can_transition_to(new_state) {
            self.set_motor_controller_state(new_state);
            Ok(())
        } else {
            Err(Error::InvalidTransision)
        }
    }
}

} // verus!
