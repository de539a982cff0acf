use relay::can_command::CanCommand;
use relay::ack_nack::AckNack;
use relay::can_worker::{
    pod_state_frame, roboteq_emergency_stop, roboteq_read_battery_amps, roboteq_read_encoder_motor_speed,
    roboteq_read_temps, send_msg, set_motor_throttle, to_bytes, CanWorker,
};
use relay::desktop_state_message::{DesktopStateMessage, DesktopStateMessageError};
use relay::errno::UdpErrno;
use relay::messages::{CanMessage, TcpMessage, UDPMessage};
use relay::pod_data::PodData;
use relay::pod_states::PodState;
use relay::tcp_worker::{RequestTypes, TcpEffect, TcpReply, TcpWorkerState};
use relay::udp_worker::{DatagramOutcome, UdpEffect, UdpWorker, UdpWorkerState};
use relay::worker_state::{Connected, Recovery, WorkerState};

fn connected(max_timeouts: u32) -> UdpWorker<Connected> {
    let startup = match UdpWorkerState::new(max_timeouts, 100) {
        WorkerState::Startup(w) => w,
        _ => panic!("expected startup"),
    };
    let disconnected = match startup.handle_message(UDPMessage::StartupComplete) {
        WorkerState::Disconnected(w) => w,
        _ => panic!("expected disconnected"),
    };
    match disconnected.connect_result(true).next {
        WorkerState::Connected(w) => w,
        _ => panic!("expected connected"),
    }
}

fn request(state: PodState, timestamp: i64) -> DatagramOutcome {
    DatagramOutcome::Received(Some(DesktopStateMessage {
        requested_state: state,
        most_recent_timestamp: timestamp,
    }))
}

fn expect_connected(s: UdpWorkerState) -> UdpWorker<Connected> {
    match s {
        WorkerState::Connected(w) => w,
        _ => panic!("expected connected"),
    }
}

fn expect_recovery(s: UdpWorkerState) -> UdpWorker<Recovery> {
    match s {
        WorkerState::Recovery(w) => w,
        _ => panic!("expected recovery"),
    }
}

#[test]
fn steady_request_records_timestamp_and_stays_connected() {
    let w = connected(10);
    let step = w.handle_datagram(request(PodState::LowVoltage, 500));
    assert!(step.effects.is_empty());
    let w = expect_connected(step.next);
    assert_eq!(w.link().last_received_telemetry_timestamp, 500);
    assert_eq!(w.link().current_pod_state, PodState::LowVoltage);
    assert_eq!(w.link().next_pod_state, PodState::LowVoltage);
    let report = w.report();
    assert_eq!(report.current_state, PodState::LowVoltage);
    assert_eq!(report.errno, UdpErrno::NoError);
    assert!(!report.recovering);
    assert!(report.telemetry.is_none());
}

#[test]
fn legal_request_issues_one_transition() {
    let w = connected(10);
    let w = expect_connected(w.handle_datagram(request(PodState::Armed, 1)).next);
    let w = expect_connected(w.handle_message(UDPMessage::PodStateChangeAck).next);
    assert_eq!(w.link().current_pod_state, PodState::Armed);
    let step = w.handle_datagram(request(PodState::AutoPilot, 2));
    assert_eq!(
        step.effects,
        vec![UdpEffect::RequestCan(CanMessage::ChangeState(PodState::AutoPilot))]
    );
    let w = expect_connected(step.next);
    assert_eq!(w.link().next_pod_state, PodState::AutoPilot);
    assert_eq!(w.link().current_pod_state, PodState::Armed);
    // the desktop repeating its request while the transition is in flight is fine
    let step = w.handle_datagram(request(PodState::AutoPilot, 3));
    assert!(step.effects.is_empty());
    assert_eq!(expect_connected(step.next).link().last_received_telemetry_timestamp, 3);
}

#[test]
fn illegal_request_enters_recovery() {
    let w = connected(10);
    let step = w.handle_datagram(request(PodState::AutoPilot, 1));
    assert_eq!(step.effects, vec![UdpEffect::NotifyTcp(TcpMessage::EnteringRecovery)]);
    let w = expect_recovery(step.next);
    assert_eq!(w.link().errno, UdpErrno::InvalidTransitionRequest);
    assert!(w.report().recovering);
}

#[test]
fn contradicting_pending_transition_enters_recovery() {
    let w = connected(10);
    let w = expect_connected(w.handle_datagram(request(PodState::Armed, 1)).next);
    // the desktop asks for the current state while a move to Armed is pending
    let step = w.handle_datagram(request(PodState::LowVoltage, 2));
    assert_eq!(step.effects, vec![UdpEffect::NotifyTcp(TcpMessage::EnteringRecovery)]);
    expect_recovery(step.next);
}

#[test]
fn silent_desktop_times_out_into_recovery() {
    let mut w = connected(3);
    for _ in 0..2 {
        let step = w.handle_datagram(DatagramOutcome::TimedOut);
        assert!(step.effects.is_empty());
        w = expect_connected(step.next);
    }
    let step = w.handle_datagram(DatagramOutcome::TimedOut);
    assert_eq!(step.effects, vec![UdpEffect::NotifyTcp(TcpMessage::EnteringRecovery)]);
    let w = expect_recovery(step.next);
    assert_eq!(w.link().errno, UdpErrno::ControllerTimeout);
}

#[test]
fn a_request_resets_the_timeout_count() {
    let w = connected(2);
    let w = expect_connected(w.handle_datagram(DatagramOutcome::TimedOut).next);
    assert_eq!(w.link().timeout_counter, 1);
    let w = expect_connected(w.handle_datagram(request(PodState::LowVoltage, 9)).next);
    assert_eq!(w.link().timeout_counter, 0);
    let w = expect_connected(w.handle_datagram(DatagramOutcome::Failed).next);
    assert_eq!(w.link().timeout_counter, 0);
}

#[test]
fn undecodable_request_is_a_protocol_violation() {
    let w = connected(10);
    let step = w.handle_datagram(DatagramOutcome::Received(None));
    assert_eq!(step.effects, vec![UdpEffect::ProtocolViolation]);
}

#[test]
fn error_state_skips_transition_logic() {
    let w = connected(10);
    let w = expect_connected(w.handle_message(UDPMessage::SystemFault).next);
    let step = w.handle_datagram(request(PodState::Armed, 1));
    assert_eq!(
        step.effects,
        vec![UdpEffect::RequestCan(CanMessage::ChangeState(PodState::SystemFailure))]
    );
    assert_eq!(expect_connected(step.next).link().next_pod_state, PodState::LowVoltage);
}

#[test]
fn recovery_completes_on_low_voltage_ack() {
    let w = connected(10);
    let w = expect_connected(w.handle_datagram(request(PodState::Armed, 1)).next);
    let w = expect_connected(w.handle_message(UDPMessage::PodStateChangeAck).next);
    let w = expect_connected(w.handle_datagram(request(PodState::AutoPilot, 2)).next);
    let w = expect_connected(w.handle_message(UDPMessage::PodStateChangeAck).next);
    assert_eq!(w.link().current_pod_state, PodState::AutoPilot);
    // a disconnect sends one last report and enters recovery
    let step = w.handle_message(UDPMessage::DisconnectFromHost);
    assert_eq!(step.effects.len(), 1);
    let mut w = expect_recovery(step.next);
    // from AutoPilot the script brakes, once
    let step = w.recovery_step();
    assert_eq!(step.effects, vec![UdpEffect::RequestCan(CanMessage::ChangeState(PodState::Braking))]);
    let mut w = expect_recovery(step.next);
    let step = w.recovery_step();
    assert!(step.effects.is_empty());
    w = expect_recovery(step.next);
    w.handle_message(UDPMessage::PodStateChangeAck);
    let step = w.recovery_step();
    assert_eq!(step.effects, vec![UdpEffect::RequestCan(CanMessage::ChangeState(PodState::LowVoltage))]);
    let mut w = expect_recovery(step.next);
    w.handle_message(UDPMessage::PodStateChangeAck);
    assert_eq!(w.link().current_pod_state, PodState::LowVoltage);
    let step = w.recovery_step();
    assert_eq!(step.effects, vec![UdpEffect::NotifyTcp(TcpMessage::RecoveryComplete)]);
    assert!(matches!(step.next, WorkerState::Disconnected(_)));
}

#[test]
fn telemetry_is_reported_when_newer_than_the_desktop() {
    let w = connected(10);
    let mut data = PodData::new();
    data.pressure_high = Some(100.0f32.to_bits());
    let w = expect_connected(w.handle_message(UDPMessage::TelemetryDataAvailable(data, 200)).next);
    let report = w.report();
    assert_eq!(report.telemetry, Some(data));
    assert_eq!(report.telemetry_timestamp, 200);
    let w = expect_connected(w.handle_datagram(request(PodState::LowVoltage, 300)).next);
    assert_eq!(w.report().telemetry, None);
}

#[test]
fn failed_bind_is_reported_to_the_control_link() {
    let startup = match UdpWorkerState::new(10, 0) {
        WorkerState::Startup(w) => w,
        _ => panic!("expected startup"),
    };
    let stays = match startup.handle_message(UDPMessage::SystemFault) {
        WorkerState::Startup(w) => w,
        _ => panic!("expected startup"),
    };
    let disconnected = match stays.handle_message(UDPMessage::StartupComplete) {
        WorkerState::Disconnected(w) => w,
        _ => panic!("expected disconnected"),
    };
    let step = disconnected.connect_result(false);
    assert_eq!(step.effects, vec![UdpEffect::NotifyTcp(TcpMessage::UdpFailedToConnect)]);
    assert!(matches!(step.next, WorkerState::Disconnected(_)));
}

#[test]
fn control_link_session() {
    let w = match TcpWorkerState::new() {
        WorkerState::Disconnected(w) => w,
        _ => panic!("expected disconnected"),
    };
    let step = w.handle_request(b"DISCONNECT\r\n");
    assert_eq!(step.request, Some(RequestTypes::Disconnect));
    assert_eq!(step.effects, vec![TcpEffect::Reply(TcpReply::Disconnected)]);
    let w = match step.next {
        WorkerState::Disconnected(w) => w,
        _ => panic!("expected disconnected"),
    };
    let step = w.handle_request(b"CONNECT\r\n");
    assert_eq!(step.request, Some(RequestTypes::Connect));
    assert_eq!(
        step.effects,
        vec![TcpEffect::ConnectUdp { port: 8081 }, TcpEffect::Reply(TcpReply::SessionStarted)]
    );
    assert_eq!(TcpReply::SessionStarted.text(), "OK 8090 8080");
    let w = match step.next {
        WorkerState::Connected(w) => w,
        _ => panic!("expected connected"),
    };
    let step = w.handle_request(b"CONNECT\r\n");
    assert_eq!(step.effects, vec![TcpEffect::Reply(TcpReply::AlreadyConnected)]);
    let w = match step.next {
        WorkerState::Connected(w) => w,
        _ => panic!("expected connected"),
    };
    let step = w.handle_request(b"@@Failed@@\r\n");
    assert_eq!(step.request, Some(RequestTypes::Unknown));
    assert!(step.effects.is_empty());
    let w = match step.next {
        WorkerState::Connected(w) => w,
        _ => panic!("expected connected"),
    };
    let step = w.handle_request(b"HELLO\r\n");
    assert_eq!(step.request, None);
    let w = match step.next {
        WorkerState::Connected(w) => w,
        _ => panic!("expected connected"),
    };
    let step = w.handle_request(b"DISCONNECT\r\n");
    assert_eq!(
        step.effects,
        vec![TcpEffect::NotifyUdp(UDPMessage::DisconnectFromHost), TcpEffect::Reply(TcpReply::Disconnected)]
    );
    assert!(matches!(step.next, WorkerState::Disconnected(_)));
}

#[test]
fn control_link_recovery_notifications() {
    let w = match TcpWorkerState::new() {
        WorkerState::Disconnected(w) => w,
        _ => panic!("expected disconnected"),
    };
    let notice = w.handle_notification(TcpMessage::EnteringRecovery);
    assert!(notice.iteration_over);
    let w = match notice.next {
        WorkerState::Recovery(w) => w,
        _ => panic!("expected recovery"),
    };
    let notice = w.handle_notification(TcpMessage::UdpFailedToConnect);
    assert!(!notice.iteration_over);
    let w = match notice.next {
        WorkerState::Recovery(w) => w,
        _ => panic!("expected recovery"),
    };
    let step = w.handle_request(b"CONNECT\r\n");
    assert_eq!(step.effects, vec![TcpEffect::Reply(TcpReply::AlreadyConnected)]);
    let w = match step.next {
        WorkerState::Recovery(w) => w,
        _ => panic!("expected recovery"),
    };
    let notice = w.handle_notification(TcpMessage::RecoveryComplete);
    assert!(matches!(notice.next, WorkerState::Disconnected(_)));
}

#[test]
fn bus_worker_asserts_requested_state_until_driving() {
    let mut worker = CanWorker::new();
    let f = worker.next_frame();
    assert_eq!((f.id, f.len, f.data[0]), (0, 1, 0x01));
    worker.handle_message(CanMessage::ChangeState(PodState::AutoPilot));
    let f = worker.next_frame();
    assert_eq!((f.id, f.len, f.data[0]), (0, 1, 0x03));
    assert_eq!(worker.handle_command(&CanCommand::BmsStateChange(AckNack::Nack)), None);
    assert_eq!(
        worker.handle_command(&CanCommand::BmsStateChange(AckNack::Ack)),
        Some(UDPMessage::PodStateChangeAck)
    );
    let f = worker.next_frame();
    assert_eq!(f.id, 0x601);
    assert_eq!(f.data, [0x20, 0x00, 0x20, 0x01, 100, 0, 0, 0]);
}

#[test]
fn motor_driver_frames() {
    assert_eq!(to_bytes(0x0403_0201), [1, 2, 3, 4]);
    let f = send_msg(1, true, 4, 0x2103, 2, &[0; 4]).expect("frame");
    assert_eq!(f.id, 0x601);
    assert_eq!(f.data, [0x50, 0x03, 0x21, 0x02, 0, 0, 0, 0]);
    assert!(send_msg(u32::MAX, false, 0, 0, 0, &[0; 4]).is_none());
    let f = set_motor_throttle(2, 1, 50).expect("frame");
    assert_eq!(f.id, 0x602);
    assert_eq!(f.data, [0x20, 0x00, 0x20, 0x01, 50, 0, 0, 0]);
    let f = pod_state_frame(PodState::Braking);
    assert_eq!((f.id, f.len, f.data[0]), (0, 1, 0x04));
}

#[test]
fn test_json_bytes() {
    let message = b"{\"requested_state\":1,\"most_recent_timestamp\":1}\0\0";
    assert_eq!(
        DesktopStateMessage::from_json_bytes(message).expect("Unable to Convert message").to_json_bytes(),
        b"{\"requested_state\":1,\"most_recent_timestamp\":1}"
    );
}

#[test]
fn desktop_request_decoding() {
    let m = DesktopStateMessage::from_json_bytes(
        b"{\"requested_state\":3,\"most_recent_timestamp\":1636842789806}",
    )
    .expect("decodes");
    assert_eq!(m.requested_state, PodState::AutoPilot);
    assert_eq!(m.most_recent_timestamp, 1636842789806);
    let m = DesktopStateMessage::from_json_bytes(b"{\"requested_state\":200,\"most_recent_timestamp\":-5}")
        .expect("decodes");
    assert_eq!(m.requested_state, PodState::Invalid);
    assert_eq!(m.to_json_bytes(), b"{\"requested_state\":11,\"most_recent_timestamp\":-5}".to_vec());
    assert!(matches!(
        DesktopStateMessage::from_json_bytes(b"{\"requested_state\":256,\"most_recent_timestamp\":1}"),
        Err(DesktopStateMessageError::InvalidMessage(_))
    ));
    assert!(matches!(
        DesktopStateMessage::from_json_bytes(b"{\"requested_state\":1}"),
        Err(DesktopStateMessageError::InvalidMessage(_))
    ));
    assert!(matches!(
        DesktopStateMessage::from_json_bytes(b"{\"requested_state\":"),
        Err(DesktopStateMessageError::JsonParseError(_))
    ));
    assert!(matches!(
        DesktopStateMessage::from_fields(Some(2), Some(7)),
        Ok(DesktopStateMessage { requested_state: PodState::Armed, most_recent_timestamp: 7 })
    ));
    assert!(DesktopStateMessage::from_fields(None, Some(7)).is_err());
}

#[test]
fn motor_driver_queries() {
    let f = roboteq_read_encoder_motor_speed(1, 2).expect("frame");
    assert_eq!(f.data, [0x50, 0x03, 0x21, 0x02, 0, 0, 0, 0]);
    let f = roboteq_read_battery_amps(1, 1).expect("frame");
    assert_eq!(f.data, [0x50, 0x0C, 0x21, 0x01, 0, 0, 0, 0]);
    let frames = roboteq_read_temps(3).expect("frames");
    assert_eq!(frames.len(), 3);
    for (i, f) in frames.iter().enumerate() {
        assert_eq!(f.id, 0x603);
        assert_eq!(f.data, [0x50, 0x0F, 0x21, (i + 1) as u8, 0, 0, 0, 0]);
    }
    let f = roboteq_emergency_stop(1).expect("frame");
    assert_eq!(f.data, [0x30, 0x0C, 0x20, 0x00, 0, 0, 0, 0]);
    assert!(roboteq_read_temps(u32::MAX).is_none());
}

#[test]
fn desktop_request_extreme_numbers() {
    // the most negative timestamp is read exactly
    let m = DesktopStateMessage::from_json_bytes(
        b"{\"requested_state\":1,\"most_recent_timestamp\":-9223372036854775808}",
    )
    .expect("decodes");
    assert_eq!(m.most_recent_timestamp, i64::MIN);
    // a timestamp past i64 is refused
    assert!(matches!(
        DesktopStateMessage::from_json_bytes(b"{\"requested_state\":1,\"most_recent_timestamp\":9223372036854775808}"),
        Err(DesktopStateMessageError::InvalidMessage(_))
    ));
    // a tiny exponent truncates to zero
    let m = DesktopStateMessage::from_json_bytes(
        b"{\"requested_state\":0.0e-32767,\"most_recent_timestamp\":0.0e-32767}",
    )
    .expect("decodes");
    assert_eq!(m.requested_state, PodState::Resting);
    assert_eq!(m.most_recent_timestamp, 0);
    // a huge exponent is out of range
    assert!(matches!(
        DesktopStateMessage::from_json_bytes(b"{\"requested_state\":1e32767,\"most_recent_timestamp\":1}"),
        Err(DesktopStateMessageError::InvalidMessage(_))
    ));
    // fractions are dropped; negative states are refused
    let m = DesktopStateMessage::from_json_bytes(b"{\"requested_state\":2.9,\"most_recent_timestamp\":-1.5e0}")
        .expect("decodes");
    assert_eq!(m.requested_state, PodState::Armed);
    assert_eq!(m.most_recent_timestamp, -1);
    assert!(matches!(
        DesktopStateMessage::from_json_bytes(b"{\"requested_state\":-1,\"most_recent_timestamp\":1}"),
        Err(DesktopStateMessageError::InvalidMessage(_))
    ));
    assert!(matches!(
        DesktopStateMessage::from_json_bytes(b"{\"requested_state\":\"1\",\"most_recent_timestamp\":1}"),
        Err(DesktopStateMessageError::InvalidMessage(_))
    ));
}

#[test]
fn desktop_request_too_long_is_refused() {
    let mut text = b"{\"requested_state\":0.".to_vec();
    text.extend(std::iter::repeat(b'0').take(32_769));
    text.extend_from_slice(b",\"most_recent_timestamp\":1}");
    assert!(matches!(
        DesktopStateMessage::from_json_bytes(&text),
        Err(DesktopStateMessageError::InvalidMessage(_))
    ));
    // NUL padding does not count toward the limit
    let mut padded = b"{\"requested_state\":1,\"most_recent_timestamp\":1}".to_vec();
    padded.extend(std::iter::repeat(0u8).take(4096));
    assert!(DesktopStateMessage::from_json_bytes(&padded).is_ok());
}

#[test]
fn chunked_reading_keeps_whole_chunks() {
    let mut out = vec![1u8];
    assert!(relay::stream_utils::append_chunk(&mut out, vec![2, 3], 2));
    assert!(!relay::stream_utils::append_chunk(&mut out, vec![4, 0], 1));
    assert_eq!(out, vec![1, 2, 3, 4, 0]);
}
