use relay::board_states::{BoardStates, Error};
use relay::errno::UdpErrno;
use relay::pod_states::PodState;

fn all_states() -> Vec<PodState> {
    vec![
        PodState::Resting,
        PodState::LowVoltage,
        PodState::Armed,
        PodState::AutoPilot,
        PodState::Braking,
        PodState::EmergencyBrake,
        PodState::SystemFailure,
        PodState::ManualOperationWaiting,
        PodState::Accelerating,
        PodState::AtSpeed,
        PodState::Decelerating,
        PodState::Invalid,
    ]
}

#[test]
fn test_states() {
    for i in 0u8..0x0Bu8 {
        assert_eq!(PodState::from_byte(i).to_byte(), i);
    }
}

#[test]
fn test_transitions() {
    let valid: Vec<(PodState, Vec<PodState>)> = vec![
        (PodState::Resting, vec![PodState::LowVoltage]),
        (PodState::LowVoltage, vec![PodState::Resting, PodState::Armed]),
        (PodState::Armed, vec![PodState::LowVoltage, PodState::AutoPilot, PodState::EmergencyBrake]),
        (PodState::AutoPilot, vec![PodState::Braking, PodState::EmergencyBrake]),
        (PodState::Braking, vec![PodState::LowVoltage]),
        (PodState::EmergencyBrake, vec![PodState::SystemFailure]),
        (PodState::SystemFailure, vec![]),
    ];
    for state in all_states() {
        for (from, targets) in &valid {
            if *from == state {
                for new_state in targets {
                    assert_eq!(state.can_transition_to(new_state), true);
                }
            }
        }
    }
}

#[test]
fn byte_round_trip_covers_whole_table() {
    for b in 0u8..=0x0Bu8 {
        assert_eq!(PodState::from_byte(b).to_byte(), b);
    }
    for s in all_states() {
        assert_eq!(PodState::from_byte(s.to_byte()), s);
    }
    assert_eq!(PodState::from_byte(0x0C), PodState::Invalid);
    assert_eq!(PodState::from_byte(0xFF), PodState::Invalid);
    assert_eq!(PodState::from(0x03u8), PodState::AutoPilot);
    assert_eq!(PodState::LowVoltage.to_byte(), 0x01);
    assert_eq!(PodState::Resting.to_byte(), 0x00);
}

#[test]
fn every_state_may_fail_into_system_failure() {
    for s in all_states() {
        assert!(s.can_transition_to(&PodState::SystemFailure));
    }
}

#[test]
fn system_failure_has_no_way_out() {
    for s in all_states() {
        assert_eq!(
            PodState::SystemFailure.can_transition_to(&s),
            s == PodState::SystemFailure
        );
    }
}

#[test]
fn illegal_transitions_are_refused() {
    assert!(!PodState::LowVoltage.can_transition_to(&PodState::AutoPilot));
    assert!(!PodState::Braking.can_transition_to(&PodState::Armed));
    assert!(!PodState::Invalid.can_transition_to(&PodState::LowVoltage));
    assert!(!PodState::EmergencyBrake.can_transition_to(&PodState::LowVoltage));
}

#[test]
fn error_states() {
    for s in all_states() {
        let expected = s == PodState::EmergencyBrake || s == PodState::SystemFailure;
        assert_eq!(s.is_error_state(), expected);
    }
    assert_eq!(PodState::default(), PodState::Invalid);
}

#[test]
fn errno_bytes() {
    assert_eq!(UdpErrno::NoError.to_byte(), 0);
    assert_eq!(UdpErrno::InvalidTransitionRequest.to_byte(), 1);
    assert_eq!(UdpErrno::ArmingFault.to_byte(), 2);
    assert_eq!(UdpErrno::ControllerTimeout.to_byte(), 3);
    assert_eq!(UdpErrno::GeneralPodFailure.to_byte(), 4);
    assert_eq!(UdpErrno::from(4u8), UdpErrno::GeneralPodFailure);
    assert_eq!(UdpErrno::from(5u8), UdpErrno::UnknownError);
    assert_eq!(UdpErrno::from(200u8), UdpErrno::UnknownError);
    assert_eq!(UdpErrno::from_byte(UdpErrno::UnknownError.to_byte()), UdpErrno::UnknownError);
}

#[test]
fn board_states_checked_transitions() {
    let mut boards = BoardStates::default();
    assert_eq!(*boards.get_bms_state(), PodState::LowVoltage);
    assert_eq!(*boards.get_motor_controller_state(), PodState::LowVoltage);
    assert_eq!(*boards.get_pressure_state(), PodState::LowVoltage);
    assert!(boards.set_bms_state_transition_checked(&PodState::Armed).is_ok());
    assert_eq!(*boards.get_bms_state(), PodState::Armed);
    assert!(matches!(
        boards.set_bms_state_transition_checked(&PodState::Resting),
        Err(Error::InvalidTransision)
    ));
    assert_eq!(*boards.get_bms_state(), PodState::Armed);
    assert!(matches!(
        boards.set_motor_controller_state_transition_checked(&PodState::Braking),
        Err(Error::InvalidTransision)
    ));
    assert!(boards
        .set_motor_controller_state_transition_checked(&PodState::SystemFailure)
        .is_ok());
    assert_eq!(*boards.get_motor_controller_state(), PodState::SystemFailure);
    boards.set_pressure_state(&PodState::Braking);
    assert_eq!(*boards.get_pressure_state(), PodState::Braking);
    boards.set_bms_state(&PodState::Resting);
    assert_eq!(*boards.get_bms_state(), PodState::Resting);
    boards.set_motor_controller_state(&PodState::Armed);
    assert_eq!(*boards.get_motor_controller_state(), PodState::Armed);
}

#[test]
fn it_works() {
    assert_eq!(2 + 2, 4);
}

#[test]
fn simple_test() {
    let _x = 1 + 1;
    assert_eq!(1, 1);
}
