use vstd::prelude::*;

use core::marker::PhantomData;

use crate::desktop_state_message::DesktopStateMessage;
use crate::errno::UdpErrno;
use crate::messages::{CanMessage, TcpMessage, UDPMessage};
use crate::pod_data::PodData;
use crate::pod_state_message::PodStateMessage;
use crate::pod_states::{error_state, legal_transition, PodState, INITIAL_POD_STATE};
use crate::worker_state::{Connected, Disconnected, Recovery, Startup, WorkerState};

verus! {

/// What the telemetry-link worker knows between iterations.
#[derive(PartialEq, Eq, Structural, Debug, Copy, Clone)]
pub struct UdpLinkState {
    pub current_pod_state: PodState,
    pub next_pod_state: PodState,
    pub errno: UdpErrno,
    pub timeout_counter: u32,
    /// Timestamp of the last accepted desktop request (unix seconds).
    pub last_received_telemetry_timestamp: i64,
    pub current_pod_data: PodData,
    /// When the current snapshot was received (unix seconds).
    pub current_telemetry_timestamp: i64,
    pub udp_max_number_timeouts: u32,
}

/// The telemetry-link worker in the state `State`.
pub struct UdpWorker<State> {
    link: UdpLinkState,
    state: PhantomData<State>,
}

pub type UdpWorkerState = WorkerState<
    UdpWorker<Startup>,
    UdpWorker<Recovery>,
    UdpWorker<Connected>,
    UdpWorker<Disconnected>,
>;

#[derive(PartialEq, Eq, Structural, Debug, Copy, Clone)]
pub enum LinkPhase {
    Startup,
    Disconnected,
    Connected,
    Recovery,
}

/// Something the worker asks its caller to do.
#[derive(PartialEq, Eq, Structural, Debug, Copy, Clone)]
pub enum UdpEffect {
    /// Send this state report to the desktop.
    SendReport(PodStateMessage),
    /// Notify the control-link worker.
    NotifyTcp(TcpMessage),
    /// Ask the bus worker for this.
    RequestCan(CanMessage),
    /// The desktop sent a request that could not be decoded; the session
    /// cannot go on.
    ProtocolViolation,
}

/// One step of the worker: its next state and what to do.
pub struct UdpStep {
    pub next: UdpWorkerState,
    pub effects: Vec<UdpEffect>,
}

/// What came of waiting for a desktop request.
pub enum DatagramOutcome {
    /// A datagram arrived; `None` when it did not decode.
    Received(Option<DesktopStateMessage>),
    TimedOut,
    /// Any other receive error; it is ignored.
    Failed,
}

impl<State> UdpWorker<State> {
    pub closed spec fn view(&self) -> UdpLinkState {
        self.link
    }

    pub fn link(&self) -> (r: &UdpLinkState)
        ensures
            *r == self@,
    {
        &self.link
    }

    fn enter<Next>(self) -> (r: UdpWorker<Next>)
        ensures
            r@ == self@,
    {
        UdpWorker { link: self.link, state: PhantomData }
    }
}

pub open spec fn phase_of(s: UdpWorkerState) -> LinkPhase {
    match s {
        WorkerState::Startup(_) => LinkPhase::Startup,
        WorkerState::Disconnected(_) => LinkPhase::Disconnected,
        WorkerState::Connected(_) => LinkPhase::Connected,
        WorkerState::Recovery(_) => LinkPhase::Recovery,
    }
}

pub open spec fn link_of(s: UdpWorkerState) -> UdpLinkState {
    match s {
        WorkerState::Startup(w) => w@,
        WorkerState::Disconnected(w) => w@,
        WorkerState::Connected(w) => w@,
        WorkerState::Recovery(w) => w@,
    }
}

/// The abstract result of a step: next phase, next link state, effects.
pub type StepView = (LinkPhase, UdpLinkState, Seq<UdpEffect>);

pub open spec fn step_view(s: UdpStep) -> StepView {
    (phase_of(s.next), link_of(s.next), s.effects@)
}

/// The report sent in the current state: telemetry is included when it is
/// newer than the desktop's last timestamp.
pub open spec fn report_of(l: UdpLinkState, recovering: bool) -> PodStateMessage {
    PodStateMessage {
        current_state: l.current_pod_state,
        pending_next_state: l.next_pod_state,
        errno: l.errno,
        telemetry: if l.current_telemetry_timestamp > l.last_received_telemetry_timestamp {
            Some(l.current_pod_data)
        } else {
            None
        },
        telemetry_timestamp: l.current_telemetry_timestamp,
        recovering,
    }
}

/// How the worker answers a desktop request for `requested` while in
/// `current` with `next` pending.
#[derive(PartialEq, Eq, Structural, Debug, Copy, Clone)]
pub enum Decision {
    /// The request agrees with what is happening: record its timestamp.
    Steady,
    /// Start a transition to the requested state.
    Trigger,
    /// The request is illegal or contradicts a transition in flight.
    Invalid,
}

pub open spec fn decide(current: PodState, next: PodState, requested: PodState) -> Decision {
    if requested == current {
        if next == current {
            Decision::Steady
        } else {
            Decision::Invalid
        }
    } else if !legal_transition(current, requested) {
        Decision::Invalid
    } else if requested == next {
        Decision::Steady
    } else if current == next {
        Decision::Trigger
    } else {
        Decision::Invalid
    }
}

/// Result of a notification received while connected.
pub open spec fn connected_message(l: UdpLinkState, m: UDPMessage) -> StepView {
    match m {
        UDPMessage::PodStateChangeAck => (
            LinkPhase::Connected,
            UdpLinkState { current_pod_state: l.next_pod_state, ..l },
            seq![],
        ),
        UDPMessage::TelemetryDataAvailable(d, t) => (
            LinkPhase::Connected,
            UdpLinkState { current_pod_data: d, current_telemetry_timestamp: t, ..l },
            seq![],
        ),
        UDPMessage::DisconnectFromHost => (
            LinkPhase::Recovery,
            l,
            seq![UdpEffect::SendReport(report_of(l, false))],
        ),
        UDPMessage::SystemFault => (
            LinkPhase::Connected,
            UdpLinkState { current_pod_state: PodState::SystemFailure, ..l },
            seq![],
        ),
        UDPMessage::StartupComplete => (LinkPhase::Connected, l, seq![]),
    }
}

/// Result of waiting for a desktop request while connected.
pub open spec fn connected_datagram(l: UdpLinkState, o: DatagramOutcome) -> StepView {
    match o {
        DatagramOutcome::Received(msg) => if error_state(l.current_pod_state) {
            (
                LinkPhase::Connected,
                l,
                seq![UdpEffect::RequestCan(CanMessage::ChangeState(PodState::SystemFailure))],
            )
        } else {
            match msg {
                None => (LinkPhase::Connected, l, seq![UdpEffect::ProtocolViolation]),
                Some(m) => match decide(l.current_pod_state, l.next_pod_state, m.requested_state) {
                    Decision::Steady => (
                        LinkPhase::Connected,
                        UdpLinkState {
                            last_received_telemetry_timestamp: m.most_recent_timestamp,
                            timeout_counter: 0,
                            ..l
                        },
                        seq![],
                    ),
                    Decision::Trigger => (
                        LinkPhase::Connected,
                        UdpLinkState {
                            next_pod_state: m.requested_state,
                            last_received_telemetry_timestamp: m.most_recent_timestamp,
                            timeout_counter: 0,
                            ..l
                        },
                        seq![UdpEffect::RequestCan(CanMessage::ChangeState(m.requested_state))],
                    ),
                    Decision::Invalid => (
                        LinkPhase::Recovery,
                        UdpLinkState { errno: UdpErrno::InvalidTransitionRequest, ..l },
                        seq![UdpEffect::NotifyTcp(TcpMessage::EnteringRecovery)],
                    ),
                },
            }
        },
        DatagramOutcome::TimedOut => {
            let counter = if l.timeout_counter < u32::MAX {
                (l.timeout_counter + 1) as u32
            } else {
                l.timeout_counter
            };
            if counter >= l.udp_max_number_timeouts {
                (
                    LinkPhase::Recovery,
                    UdpLinkState {
                        timeout_counter: counter,
                        errno: UdpErrno::ControllerTimeout,
                        ..l
                    },
                    seq![UdpEffect::NotifyTcp(TcpMessage::EnteringRecovery)],
                )
            } else {
                (LinkPhase::Connected, UdpLinkState { timeout_counter: counter, ..l }, seq![])
            }
        },
        DatagramOutcome::Failed => (LinkPhase::Connected, l, seq![]),
    }
}

/// Result of a notification received while recovering.
pub open spec fn recovery_message(l: UdpLinkState, m: UDPMessage) -> UdpLinkState {
    match m {
        UDPMessage::PodStateChangeAck => UdpLinkState {
            current_pod_state: l.next_pod_state,
            errno: if error_state(l.next_pod_state) {
                UdpErrno::GeneralPodFailure
            } else {
                l.errno
            },
            ..l
        },
        UDPMessage::TelemetryDataAvailable(d, t) => UdpLinkState {
            current_pod_data: d,
            current_telemetry_timestamp: t,
            ..l
        },
        UDPMessage::SystemFault => UdpLinkState { current_pod_state: PodState::SystemFailure, ..l },
        _ => l,
    }
}

/// The recovery script: the state to head for from the current one, if any.
pub open spec fn recovery_target(current: PodState) -> Option<PodState> {
    match current {
        PodState::Armed => Some(PodState::LowVoltage),
        PodState::AutoPilot => Some(PodState::Braking),
        PodState::Braking => Some(PodState::LowVoltage),
        _ => None,
    }
}

/// One step of the recovery script, taken after the notifications are drained.
pub open spec fn recovery_script(l: UdpLinkState) -> StepView {
    if l.current_pod_state == INITIAL_POD_STATE {
        (LinkPhase::Disconnected, l, seq![UdpEffect::NotifyTcp(TcpMessage::RecoveryComplete)])
    } else {
        match recovery_target(l.current_pod_state) {
            Some(target) => if l.next_pod_state != target {
                (
                    LinkPhase::Recovery,
                    UdpLinkState { next_pod_state: target, ..l },
                    seq![UdpEffect::RequestCan(CanMessage::ChangeState(target))],
                )
            } else {
                (LinkPhase::Recovery, l, seq![])
            },
            None => (LinkPhase::Recovery, l, seq![]),
        }
    }
}

/// The link state a worker starts with.
pub open spec fn initial_link(udp_max_number_timeouts: u32, now: i64) -> UdpLinkState {
    UdpLinkState {
        current_pod_state: INITIAL_POD_STATE,
        next_pod_state: INITIAL_POD_STATE,
        errno: UdpErrno::NoError,
        timeout_counter: 0,
        last_received_telemetry_timestamp: now,
        current_pod_data: PodData::empty(),
        current_telemetry_timestamp: now,
        udp_max_number_timeouts,
    }
}

fn report(l: &UdpLinkState, recovering: bool) -> (r: PodStateMessage)
    ensures
        r == report_of(*l, recovering),
{
    if l.current_telemetry_timestamp > l.last_received_telemetry_timestamp {
        PodStateMessage::new(
            l.current_pod_state,
            l.next_pod_state,
            l.errno,
            &l.current_pod_data,
            l.current_telemetry_timestamp,
            recovering,
        )
    } else {
        PodStateMessage::new_no_telemetry(
            l.current_pod_state,
            l.next_pod_state,
            l.errno,
            l.current_telemetry_timestamp,
            recovering,
        )
    }
}

/// Decides on a desktop request.
pub fn decide_request(current: PodState, next: PodState, requested: PodState) -> (r: Decision)
    ensures
        r == decide(current, next, requested),
{
    if requested == current {
        if next == current {
            Decision::Steady
        } else {
            Decision::Invalid
        }
    } else if !current.can_transition_to(&requested) {
        Decision::Invalid
    } else if requested == next {
        Decision::Steady
    } else if current == next {
        Decision::Trigger
    } else {
        Decision::Invalid
    }
}

impl UdpWorkerState {
    /// A worker waiting for startup, in `LowVoltage` with nothing pending,
    /// whose timestamps start at `now` (unix seconds).
    pub fn new(udp_max_number_timeouts: u32, now: i64) -> (r: UdpWorkerState)
        ensures
            phase_of(r) == LinkPhase::Startup,
            link_of(r) == initial_link(udp_max_number_timeouts, now),
    {
        WorkerState::Startup(
            UdpWorker {
                link: UdpLinkState {
                    current_pod_state: INITIAL_POD_STATE,
                    next_pod_state: INITIAL_POD_STATE,
                    errno: UdpErrno::NoError,
                    timeout_counter: 0,
                    last_received_telemetry_timestamp: now,
                    current_pod_data: PodData::new(),
                    current_telemetry_timestamp: now,
                    udp_max_number_timeouts,
                },
                state: PhantomData,
            },
        )
    }
}

impl UdpWorker<Startup> {
    /// Leaves startup once told that startup is complete; ignores anything else.
    pub fn handle_message(self, message: UDPMessage) -> (r: UdpWorkerState)
        ensures
            phase_of(r) == (if message == UDPMessage::StartupComplete {
                LinkPhase::Disconnected
            } else {
                LinkPhase::Startup
            }),
            link_of(r) == self@,
    {
        match message {
            UDPMessage::StartupComplete => WorkerState::Disconnected(self.enter()),
            _ => WorkerState::Startup(self),
        }
    }
}

impl UdpWorker<Disconnected> {
    /// Handles a notification while no desktop is bound: a system fault puts
    /// the pod in `SystemFailure`; anything else is ignored.
    pub fn handle_message(self, message: UDPMessage) -> (r: UdpWorker<Disconnected>)
        ensures
            r@ == (if message == UDPMessage::SystemFault {
                UdpLinkState { current_pod_state: PodState::SystemFailure, ..self@ }
            } else {
                self@
            }),
    {
        let mut w = self;
        if let UDPMessage::SystemFault = message {
            w.link.current_pod_state = PodState::SystemFailure;
        }
        w
    }

    /// After an attempt to bind to the desktop: connected on success; on
    /// failure the control link is told and the worker stays disconnected.
    pub fn connect_result(self, bound: bool) -> (r: UdpStep)
        ensures
            step_view(r) == (if bound {
                (LinkPhase::Connected, self@, Seq::<UdpEffect>::empty())
            } else {
                (
                    LinkPhase::Disconnected,
                    self@,
                    seq![UdpEffect::NotifyTcp(TcpMessage::UdpFailedToConnect)],
                )
            }),
    {
        if bound {
            UdpStep { next: WorkerState::Connected(self.enter()), effects: Vec::new() }
        } else {
            let mut effects = Vec::new();
            effects.push(UdpEffect::NotifyTcp(TcpMessage::UdpFailedToConnect));
            assert(effects@ =~= seq![UdpEffect::NotifyTcp(TcpMessage::UdpFailedToConnect)]);
            UdpStep { next: WorkerState::Disconnected(self), effects }
        }
    }
}

impl UdpWorker<Connected> {
    /// The state report of this iteration.
    pub fn report(&self) -> (r: PodStateMessage)
        ensures
            r == report_of(self@, false),
    {
        report(&self.link, false)
    }

    /// Handles a notification drained at the start of an iteration.
    pub fn handle_message(self, message: UDPMessage) -> (r: UdpStep)
        ensures
            step_view(r) == connected_message(self@, message),
    {
        let mut w = self;
        let mut effects: Vec<UdpEffect> = Vec::new();
        match message {
            UDPMessage::PodStateChangeAck => {
                w.link.current_pod_state = w.link.next_pod_state;
            },
            UDPMessage::TelemetryDataAvailable(data, timestamp) => {
                w.link.current_pod_data = data;
                w.link.current_telemetry_timestamp = timestamp;
            },
            UDPMessage::DisconnectFromHost => {
                effects.push(UdpEffect::SendReport(w.report()));
                assert(effects@ =~= seq![UdpEffect::SendReport(report_of(w@, false))]);
                return UdpStep { next: WorkerState::Recovery(w.enter()), effects };
            },
            UDPMessage::SystemFault => {
                w.link.current_pod_state = PodState::SystemFailure;
            },
            UDPMessage::StartupComplete => {},
        }
        assert(effects@ =~= Seq::<UdpEffect>::empty());
        UdpStep { next: WorkerState::Connected(w), effects }
    }

    /// Handles what came of waiting for the desktop's request.
    pub fn handle_datagram(self, outcome: DatagramOutcome) -> (r: UdpStep)
        ensures
            step_view(r) == connected_datagram(self@, outcome),
    {
        let mut w = self;
        let mut effects: Vec<UdpEffect> = Vec::new();
        match outcome {
            DatagramOutcome::Received(msg) => {
                if w.link.current_pod_state.is_error_state() {
                    effects.push(UdpEffect::RequestCan(CanMessage::ChangeState(PodState::SystemFailure)));
                    assert(effects@ =~= seq![
                        UdpEffect::RequestCan(CanMessage::ChangeState(PodState::SystemFailure)),
                    ]);
                    return UdpStep { next: WorkerState::Connected(w), effects };
                }
                match msg {
                    None => {
                        effects.push(UdpEffect::ProtocolViolation);
                        assert(effects@ =~= seq![UdpEffect::ProtocolViolation]);
                        UdpStep { next: WorkerState::Connected(w), effects }
                    },
                    Some(m) => {
                        match decide_request(
                            w.link.current_pod_state,
                            w.link.next_pod_state,
                            m.requested_state,
                        ) {
                            Decision::Steady => {
                                w.link.last_received_telemetry_timestamp = m.most_recent_timestamp;
                                w.link.timeout_counter = 0;
                                assert(effects@ =~= Seq::<UdpEffect>::empty());
                                UdpStep { next: WorkerState::Connected(w), effects }
                            },
                            Decision::Trigger => {
                                effects.push(
                                    UdpEffect::RequestCan(CanMessage::ChangeState(m.requested_state)),
                                );
                                w.link.next_pod_state = m.requested_state;
                                w.link.last_received_telemetry_timestamp = m.most_recent_timestamp;
                                w.link.timeout_counter = 0;
                                assert(effects@ =~= seq![
                                    UdpEffect::RequestCan(CanMessage::ChangeState(m.requested_state)),
                                ]);
                                UdpStep { next: WorkerState::Connected(w), effects }
                            },
                            Decision::Invalid => {
                                effects.push(UdpEffect::NotifyTcp(TcpMessage::EnteringRecovery));
                                w.link.errno = UdpErrno::InvalidTransitionRequest;
                                assert(effects@ =~= seq![
                                    UdpEffect::NotifyTcp(TcpMessage::EnteringRecovery),
                                ]);
                                UdpStep { next: WorkerState::Recovery(w.enter()), effects }
                            },
                        }
                    },
                }
            },
            DatagramOutcome::TimedOut => {
                if w.link.timeout_counter < u32::MAX {
                    w.link.timeout_counter = w.link.timeout_counter + 1;
                }
                if w.link.timeout_counter >= w.link.udp_max_number_timeouts {
                    effects.push(UdpEffect::NotifyTcp(TcpMessage::EnteringRecovery));
                    w.link.errno = UdpErrno::ControllerTimeout;
                    assert(effects@ =~= seq![UdpEffect::NotifyTcp(TcpMessage::EnteringRecovery)]);
                    UdpStep { next: WorkerState::Recovery(w.enter()), effects }
                } else {
                    assert(effects@ =~= Seq::<UdpEffect>::empty());
                    UdpStep { next: WorkerState::Connected(w), effects }
                }
            },
            DatagramOutcome::Failed => {
                assert(effects@ =~= Seq::<UdpEffect>::empty());
                UdpStep { next: WorkerState::Connected(w), effects }
            },
        }
    }
}

impl UdpWorker<Recovery> {
    /// The state report of this iteration, flagged as recovering.
    pub fn report(&self) -> (r: PodStateMessage)
        ensures
            r == report_of(self@, true),
    {
        report(&self.link, true)
    }

    /// Handles one drained notification.
    pub fn handle_message(&mut self, message: UDPMessage)
        ensures
            final(self)@ == recovery_message(old(self)@, message),
    {
        match message {
            UDPMessage::PodStateChangeAck => {
                self.link.current_pod_state = self.link.next_pod_state;
                if self.link.current_pod_state.is_error_state() {
                    self.link.errno = UdpErrno::GeneralPodFailure;
                }
            },
            UDPMessage::TelemetryDataAvailable(data, timestamp) => {
                self.link.current_pod_data = data;
                self.link.current_telemetry_timestamp = timestamp;
            },
            UDPMessage::SystemFault => {
                self.link.current_pod_state = PodState::SystemFailure;
            },
            _ => {},
        }
    }

    /// Takes one step of the recovery script: back in the safe state the
    /// recovery is over; otherwise one transition toward it is requested,
    /// unless it is already pending.
    pub fn recovery_step(self) -> (r: UdpStep)
        ensures
            step_view(r) == recovery_script(self@),
    {
        let mut w = self;
        let mut effects: Vec<UdpEffect> = Vec::new();
        if w.link.current_pod_state == INITIAL_POD_STATE {
            effects.push(UdpEffect::NotifyTcp(TcpMessage::RecoveryComplete));
            assert(effects@ =~= seq![UdpEffect::NotifyTcp(TcpMessage::RecoveryComplete)]);
            return UdpStep { next: WorkerState::Disconnected(w.enter()), effects };
        }
        let target = match w.link.current_pod_state {
            PodState::Armed => Some(PodState::LowVoltage),
            PodState::AutoPilot => Some(PodState::Braking),
            PodState::Braking => Some(PodState::LowVoltage),
            _ => None,
        };
        if let Some(target) = target {
            if w.link.next_pod_state != target {
                effects.push(UdpEffect::RequestCan(CanMessage::ChangeState(target)));
                w.link.next_pod_state = target;
                assert(effects@ =~= seq![UdpEffect::RequestCan(CanMessage::ChangeState(target))]);
                return UdpStep { next: WorkerState::Recovery(w), effects };
            }
        }
        assert(effects@ =~= Seq::<UdpEffect>::empty());
        UdpStep { next: WorkerState::Recovery(w), effects }
    }
}

/// A desktop asking for the state the pod is in, with nothing pending,
/// keeps the session: its timestamp is recorded, the timeout count is
/// cleared, and nothing is sent anywhere.
pub proof fn lemma_steady_request_keeps_session(l: UdpLinkState, m: DesktopStateMessage)
    requires
        !error_state(l.current_pod_state),
        l.next_pod_state == l.current_pod_state,
        m.requested_state == l.current_pod_state,
    ensures
        connected_datagram(l, DatagramOutcome::Received(Some(m))) == (
            LinkPhase::Connected,
            UdpLinkState {
                last_received_telemetry_timestamp: m.most_recent_timestamp,
                timeout_counter: 0,
                ..l
            },
            Seq::<UdpEffect>::empty(),
        ),
{
}

/// A legal request with nothing pending asks the bus worker for exactly
/// that transition and makes it the pending state, without recovery.
pub proof fn lemma_legal_request_triggers_transition(l: UdpLinkState, m: DesktopStateMessage)
    requires
        !error_state(l.current_pod_state),
        l.next_pod_state == l.current_pod_state,
        m.requested_state != l.current_pod_state,
        legal_transition(l.current_pod_state, m.requested_state),
    ensures
        connected_datagram(l, DatagramOutcome::Received(Some(m))) == (
            LinkPhase::Connected,
            UdpLinkState {
                next_pod_state: m.requested_state,
                last_received_telemetry_timestamp: m.most_recent_timestamp,
                timeout_counter: 0,
                ..l
            },
            seq![UdpEffect::RequestCan(CanMessage::ChangeState(m.requested_state))],
        ),
{
}

/// An illegal request sends the worker into recovery with the
/// invalid-transition code, and the control link is told.
pub proof fn lemma_illegal_request_enters_recovery(l: UdpLinkState, m: DesktopStateMessage)
    requires
        !error_state(l.current_pod_state),
        m.requested_state != l.current_pod_state,
        !legal_transition(l.current_pod_state, m.requested_state),
    ensures
        connected_datagram(l, DatagramOutcome::Received(Some(m))) == (
            LinkPhase::Recovery,
            UdpLinkState { errno: UdpErrno::InvalidTransitionRequest, ..l },
            seq![UdpEffect::NotifyTcp(TcpMessage::EnteringRecovery)],
        ),
{
}

/// Each timeout counts one; the one that brings the count to the maximum
/// declares a controller timeout and enters recovery, the ones before it
/// keep the session.
pub proof fn lemma_timeouts_enter_recovery(l: UdpLinkState)
    requires
        l.timeout_counter < u32::MAX,
    ensures
        l.timeout_counter + 1 >= l.udp_max_number_timeouts ==> connected_datagram(
            l,
            DatagramOutcome::TimedOut,
        ) == (
            LinkPhase::Recovery,
            UdpLinkState {
                timeout_counter: (l.timeout_counter + 1) as u32,
                errno: UdpErrno::ControllerTimeout,
                ..l
            },
            seq![UdpEffect::NotifyTcp(TcpMessage::EnteringRecovery)],
        ),
        l.timeout_counter + 1 < l.udp_max_number_timeouts ==> connected_datagram(
            l,
            DatagramOutcome::TimedOut,
        ) == (
            LinkPhase::Connected,
            UdpLinkState { timeout_counter: (l.timeout_counter + 1) as u32, ..l },
            Seq::<UdpEffect>::empty(),
        ),
{
}

/// In recovery, an acknowledgement of a transition into `LowVoltage`
/// completes the recovery: the control link is told and the worker is
/// disconnected.
pub proof fn lemma_low_voltage_ack_completes_recovery(l: UdpLinkState)
    requires
        l.next_pod_state == PodState::LowVoltage,
    ensures
        recovery_message(l, UDPMessage::PodStateChangeAck).current_pod_state == PodState::LowVoltage,
        recovery_script(recovery_message(l, UDPMessage::PodStateChangeAck)).0
            == LinkPhase::Disconnected,
        recovery_script(recovery_message(l, UDPMessage::PodStateChangeAck)).2 == seq![
            UdpEffect::NotifyTcp(TcpMessage::RecoveryComplete),
        ],
{
}

} // verus!
