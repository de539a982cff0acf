use vstd::prelude::*;

use crate::pod_data::PodData;
use crate::pod_states::PodState;

verus! {

/// Notifications to the control-link worker.
#[derive(PartialEq, Eq, Structural, Debug, Copy, Clone)]
pub enum TcpMessage {
    EnteringRecovery,
    RecoveryComplete,
    UdpFailedToConnect,
}

/// Requests to the bus worker.
#[derive(PartialEq, Eq, Structural, Debug, Copy, Clone)]
pub enum CanMessage {
    ChangeState(PodState),
    DeviceLost,
}

/// Notifications to the telemetry-link worker. A request to connect to the
/// desktop carries the desktop's address and is handled by whoever owns the
/// socket; the worker learns whether the bind succeeded.
#[derive(PartialEq, Eq, Structural, Debug, Copy, Clone)]
pub enum UDPMessage {
    DisconnectFromHost,
    StartupComplete,
    PodStateChangeAck,
    /// A sanitized snapshot and the time it was received (unix seconds).
    TelemetryDataAvailable(PodData, i64),
    SystemFault,
}

} // verus!
