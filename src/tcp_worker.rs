use vstd::prelude::*;
use vstd::string::StringSliceAdditionalSpecFns;

use core::marker::PhantomData;

use crate::messages::{TcpMessage, UDPMessage};
use crate::requests::{is_line_end, RequestParser, RequestParserResult};
use crate::worker_state::{Connected, Disconnected, Recovery, Startup, WorkerState};

verus! {

/// Requests the control link understands.
#[derive(PartialEq, Eq, Structural, Debug, Copy, Clone)]
pub enum RequestTypes {
    Connect,
    Disconnect,
    /// The line a failed read is replaced with.
    Unknown,
}

pub const CONNECT_REQUEST: &'static str = "CONNECT\r\n";
pub const DISCONNECT_REQUEST: &'static str = "DISCONNECT\r\n";
/// Written in place of a request that could not be read.
pub const FAILED_REQUEST: &'static str = "@@Failed@@\r\n";
/// The port the desktop's datagram endpoint is reached at.
pub const DESKTOP_UDP_PORT: u16 = 8081;

/// Replies on the control link.
#[derive(PartialEq, Eq, Structural, Debug, Copy, Clone)]
pub enum TcpReply {
    /// A session starts; names the ports to use.
    SessionStarted,
    Disconnected,
    AlreadyConnected,
}

pub open spec fn reply_text(r: TcpReply) -> &'static str {
    match r {
        TcpReply::SessionStarted => "OK 8090 8080",
        TcpReply::Disconnected => "DISCONNECTED",
        TcpReply::AlreadyConnected => "ERROR POD Already Connected to Controller",
    }
}

impl TcpReply {
    pub fn text(&self) -> (r: &'static str)
        ensures
            r == reply_text(*self),
    {
        match self {
            TcpReply::SessionStarted => "OK 8090 8080",
            TcpReply::Disconnected => "DISCONNECTED",
            TcpReply::AlreadyConnected => "ERROR POD Already Connected to Controller",
        }
    }
}

/// Something the control-link worker asks its caller to do.
#[derive(PartialEq, Eq, Structural, Debug, Copy, Clone)]
pub enum TcpEffect {
    /// Tell the telemetry link to bind to the requesting peer at `port`.
    ConnectUdp { port: u16 },
    NotifyUdp(UDPMessage),
    Reply(TcpReply),
}

/// The requests the control link understands, by their line.
pub open spec fn request_table() -> Map<Seq<u8>, RequestTypes> {
    map![
        CONNECT_REQUEST.spec_bytes() => RequestTypes::Connect,
        DISCONNECT_REQUEST.spec_bytes() => RequestTypes::Disconnect,
        FAILED_REQUEST.spec_bytes() => RequestTypes::Unknown,
    ]
}

/// The request named by the first line of `request`, if the table has it.
pub open spec fn request_kind(request: Seq<u8>) -> Option<RequestTypes> {
    if exists|k: int| is_line_end(request, k) && request_table().contains_key(request.subrange(0, k + 1)) {
        let k = choose|k: int|
            is_line_end(request, k) && request_table().contains_key(request.subrange(0, k + 1));
        Some(request_table()[request.subrange(0, k + 1)])
    } else {
        None
    }
}

/// The control-link worker in the state `State`.
pub struct TcpWorker<State> {
    request_parser: RequestParser<RequestTypes>,
    state: PhantomData<State>,
}

pub type TcpWorkerState = WorkerState<
    TcpWorker<Startup>,
    TcpWorker<Recovery>,
    TcpWorker<Connected>,
    TcpWorker<Disconnected>,
>;

#[derive(PartialEq, Eq, Structural, Debug, Copy, Clone)]
pub enum TcpPhase {
    Startup,
    Disconnected,
    Connected,
    Recovery,
}

pub open spec fn tcp_phase(s: TcpWorkerState) -> TcpPhase {
    match s {
        WorkerState::Startup(_) => TcpPhase::Startup,
        WorkerState::Disconnected(_) => TcpPhase::Disconnected,
        WorkerState::Connected(_) => TcpPhase::Connected,
        WorkerState::Recovery(_) => TcpPhase::Recovery,
    }
}

pub open spec fn tcp_wf(s: TcpWorkerState) -> bool {
    match s {
        WorkerState::Startup(w) => w.wf(),
        WorkerState::Disconnected(w) => w.wf(),
        WorkerState::Connected(w) => w.wf(),
        WorkerState::Recovery(w) => w.wf(),
    }
}

/// What came of a notification: the next state, and whether the iteration
/// ends without looking at the listener.
pub struct TcpNotice {
    pub next: TcpWorkerState,
    pub iteration_over: bool,
}

/// What came of a request: the next state, what to do, and the request
/// understood (`None` when the first line names no request).
pub struct TcpStep {
    pub next: TcpWorkerState,
    pub effects: Vec<TcpEffect>,
    pub request: Option<RequestTypes>,
}

impl<State> TcpWorker<State> {
    pub closed spec fn wf(&self) -> bool {
        self.request_parser.wf() && self.request_parser@ == request_table()
    }

    fn enter<Next>(self) -> (r: TcpWorker<Next>)
        requires
            self.wf(),
        ensures
            r.wf(),
    {
        TcpWorker { request_parser: self.request_parser, state: PhantomData }
    }

    fn classify(&self, request: &[u8]) -> (r: Option<RequestTypes>)
        requires
            self.wf(),
        ensures
            r == request_kind(request@),
    {
        match self.request_parser.strip_line_and_get_value(request) {
            RequestParserResult::Success((value, _rest)) => Some(*value),
            _ => None,
        }
    }
}

/// Builds the request table.
fn request_parser() -> (r: RequestParser<RequestTypes>)
    ensures
        r.wf(),
        r@ == request_table(),
{
    let mut parser = RequestParser::new();
    proof {
        reveal_strlit("CONNECT\r\n");
        reveal_strlit("DISCONNECT\r\n");
        reveal_strlit("@@Failed@@\r\n");
        vstd::string::is_ascii_spec_bytes(CONNECT_REQUEST);
        vstd::string::is_ascii_spec_bytes(DISCONNECT_REQUEST);
        vstd::string::is_ascii_spec_bytes(FAILED_REQUEST);
    }
    parser.insert(CONNECT_REQUEST, RequestTypes::Connect);
    parser.insert(DISCONNECT_REQUEST, RequestTypes::Disconnect);
    parser.insert(FAILED_REQUEST, RequestTypes::Unknown);
    assert(parser@ =~= request_table());
    parser
}

impl TcpWorkerState {
    /// A worker waiting for a connection.
    pub fn new() -> (r: TcpWorkerState)
        ensures
            tcp_phase(r) == TcpPhase::Disconnected,
            tcp_wf(r),
    {
        WorkerState::Disconnected(TcpWorker { request_parser: request_parser(), state: PhantomData })
    }
}

impl TcpWorker<Disconnected> {
    /// Any notification ends the iteration; entering recovery moves there.
    pub fn handle_notification(self, message: TcpMessage) -> (r: TcpNotice)
        requires
            self.wf(),
        ensures
            tcp_wf(r.next),
            r.iteration_over,
            tcp_phase(r.next) == if message == TcpMessage::EnteringRecovery {
                TcpPhase::Recovery
            } else {
                TcpPhase::Disconnected
            },
    {
        match message {
            TcpMessage::EnteringRecovery => TcpNotice {
                next: WorkerState::Recovery(self.enter()),
                iteration_over: true,
            },
            _ => TcpNotice { next: WorkerState::Disconnected(self), iteration_over: true },
        }
    }

    /// A request on a new connection. `CONNECT` starts a session: the
    /// telemetry link is told to bind, the ports are sent back, and the
    /// worker is connected. `DISCONNECT` is answered as already done.
    pub fn handle_request(self, request: &[u8]) -> (r: TcpStep)
        requires
            self.wf(),
        ensures
            tcp_wf(r.next),
            r.request == request_kind(request@),
            tcp_phase(r.next) == if r.request == Some(RequestTypes::Connect) {
                TcpPhase::Connected
            } else {
                TcpPhase::Disconnected
            },
            r.effects@ == match r.request {
                Some(RequestTypes::Connect) => seq![
                    TcpEffect::ConnectUdp { port: DESKTOP_UDP_PORT },
                    TcpEffect::Reply(TcpReply::SessionStarted),
                ],
                Some(RequestTypes::Disconnect) => seq![TcpEffect::Reply(TcpReply::Disconnected)],
                _ => Seq::<TcpEffect>::empty(),
            },
    {
        let kind = self.classify(request);
        let mut effects: Vec<TcpEffect> = Vec::new();
        match kind {
            Some(RequestTypes::Connect) => {
                effects.push(TcpEffect::ConnectUdp { port: DESKTOP_UDP_PORT });
                effects.push(TcpEffect::Reply(TcpReply::SessionStarted));
                assert(effects@ =~= seq![
                    TcpEffect::ConnectUdp { port: DESKTOP_UDP_PORT },
                    TcpEffect::Reply(TcpReply::SessionStarted),
                ]);
                TcpStep { next: WorkerState::Connected(self.enter()), effects, request: kind }
            },
            Some(RequestTypes::Disconnect) => {
                effects.push(TcpEffect::Reply(TcpReply::Disconnected));
                assert(effects@ =~= seq![TcpEffect::Reply(TcpReply::Disconnected)]);
                TcpStep { next: WorkerState::Disconnected(self), effects, request: kind }
            },
            _ => {
                assert(effects@ =~= Seq::<TcpEffect>::empty());
                TcpStep { next: WorkerState::Disconnected(self), effects, request: kind }
            },
        }
    }
}

impl TcpWorker<Connected> {
    /// Any notification ends the iteration: entering recovery moves there,
    /// the others end the session.
    pub fn handle_notification(self, message: TcpMessage) -> (r: TcpNotice)
        requires
            self.wf(),
        ensures
            tcp_wf(r.next),
            r.iteration_over,
            tcp_phase(r.next) == if message == TcpMessage::EnteringRecovery {
                TcpPhase::Recovery
            } else {
                TcpPhase::Disconnected
            },
    {
        match message {
            TcpMessage::EnteringRecovery => TcpNotice {
                next: WorkerState::Recovery(self.enter()),
                iteration_over: true,
            },
            _ => TcpNotice { next: WorkerState::Disconnected(self.enter()), iteration_over: true },
        }
    }

    /// A request on a new connection: a second `CONNECT` is refused;
    /// `DISCONNECT` tells the telemetry link and ends the session.
    pub fn handle_request(self, request: &[u8]) -> (r: TcpStep)
        requires
            self.wf(),
        ensures
            tcp_wf(r.next),
            r.request == request_kind(request@),
            tcp_phase(r.next) == if r.request == Some(RequestTypes::Disconnect) {
                TcpPhase::Disconnected
            } else {
                TcpPhase::Connected
            },
            r.effects@ == match r.request {
                Some(RequestTypes::Connect) => seq![TcpEffect::Reply(TcpReply::AlreadyConnected)],
                Some(RequestTypes::Disconnect) => seq![
                    TcpEffect::NotifyUdp(UDPMessage::DisconnectFromHost),
                    TcpEffect::Reply(TcpReply::Disconnected),
                ],
                _ => Seq::<TcpEffect>::empty(),
            },
    {
        let kind = self.classify(request);
        let mut effects: Vec<TcpEffect> = Vec::new();
        match kind {
            Some(RequestTypes::Connect) => {
                effects.push(TcpEffect::Reply(TcpReply::AlreadyConnected));
                assert(effects@ =~= seq![TcpEffect::Reply(TcpReply::AlreadyConnected)]);
                TcpStep { next: WorkerState::Connected(self), effects, request: kind }
            },
            Some(RequestTypes::Disconnect) => {
                effects.push(TcpEffect::NotifyUdp(UDPMessage::DisconnectFromHost));
                effects.push(TcpEffect::Reply(TcpReply::Disconnected));
                assert(effects@ =~= seq![
                    TcpEffect::NotifyUdp(UDPMessage::DisconnectFromHost),
                    TcpEffect::Reply(TcpReply::Disconnected),
                ]);
                TcpStep { next: WorkerState::Disconnected(self.enter()), effects, request: kind }
            },
            _ => {
                assert(effects@ =~= Seq::<TcpEffect>::empty());
                TcpStep { next: WorkerState::Connected(self), effects, request: kind }
            },
        }
    }
}

impl TcpWorker<Recovery> {
    /// Recovery ends on its completion; a failed bind is absorbed and the
    /// draining goes on.
    pub fn handle_notification(self, message: TcpMessage) -> (r: TcpNotice)
        requires
            self.wf(),
        ensures
            tcp_wf(r.next),
            r.iteration_over == (message != TcpMessage::UdpFailedToConnect),
            tcp_phase(r.next) == if message == TcpMessage::RecoveryComplete {
                TcpPhase::Disconnected
            } else {
                TcpPhase::Recovery
            },
    {
        match message {
            TcpMessage::EnteringRecovery => TcpNotice {
                next: WorkerState::Recovery(self),
                iteration_over: true,
            },
            TcpMessage::RecoveryComplete => TcpNotice {
                next: WorkerState::Disconnected(self.enter()),
                iteration_over: true,
            },
            TcpMessage::UdpFailedToConnect => TcpNotice {
                next: WorkerState::Recovery(self),
                iteration_over: false,
            },
        }
    }

    /// A request during recovery is answered but starts nothing.
    pub fn handle_request(self, request: &[u8]) -> (r: TcpStep)
        requires
            self.wf(),
        ensures
            tcp_wf(r.next),
            r.request == request_kind(request@),
            tcp_phase(r.next) == TcpPhase::Recovery,
            r.effects@ == match r.request {
                Some(RequestTypes::Connect) => seq![TcpEffect::Reply(TcpReply::AlreadyConnected)],
                Some(RequestTypes::Disconnect) => seq![TcpEffect::Reply(TcpReply::Disconnected)],
                _ => Seq::<TcpEffect>::empty(),
            },
    {
        let kind = self.classify(request);
        let mut effects: Vec<TcpEffect> = Vec::new();
        match kind {
            Some(RequestTypes::Connect) => {
                effects.push(TcpEffect::Reply(TcpReply::AlreadyConnected));
                assert(effects@ =~= seq![TcpEffect::Reply(TcpReply::AlreadyConnected)]);
            },
            Some(RequestTypes::Disconnect) => {
                effects.push(TcpEffect::Reply(TcpReply::Disconnected));
                assert(effects@ =~= seq![TcpEffect::Reply(TcpReply::Disconnected)]);
            },
            _ => {
                assert(effects@ =~= Seq::<TcpEffect>::empty());
            },
        }
        TcpStep { next: WorkerState::Recovery(self), effects, request: kind }
    }
}

} // verus!
