use vstd::prelude::*;

use crate::errno::UdpErrno;
use crate::pod_data::PodData;
use crate::pod_states::PodState;

verus! {

/// The state report the pod sends to the desktop every cycle.
#[derive(PartialEq, Eq, Structural, Debug, Copy, Clone)]
pub struct PodStateMessage {
    pub current_state: PodState,
    pub pending_next_state: PodState,
    pub errno: UdpErrno,
    pub telemetry: Option<PodData>,
    /// Unix seconds.
    pub telemetry_timestamp: i64,
    pub recovering: bool,
}

impl PodStateMessage {
    pub fn new(
        current_state: PodState,
        pending_next_state: PodState,
        errno: UdpErrno,
        telemetry: &PodData,
        telemetry_timestamp: i64,
        recovering: bool,
    ) -> (r: PodStateMessage)
        ensures
            r == (PodStateMessage {
                current_state,
                pending_next_state,
                errno,
                telemetry: Some(*telemetry),
                telemetry_timestamp,
                recovering,
            }),
    {
        PodStateMessage {
            current_state,
            pending_next_state,
            errno,
            telemetry: Some(*telemetry),
            telemetry_timestamp,
            recovering,
        }
    }

    pub fn new_no_telemetry(
        current_state: PodState,
        pending_next_state: PodState,
        errno: UdpErrno,
        telemetry_timestamp: i64,
        recovering: bool,
    ) -> (r: PodStateMessage)
        ensures
            r == (PodStateMessage {
                current_state,
                pending_next_state,
                errno,
                telemetry: None,
                telemetry_timestamp,
                recovering,
            }),
    {
        PodStateMessage {
            current_state,
            pending_next_state,
            errno,
            telemetry: None,
            telemetry_timestamp,
            recovering,
        }
    }
}

} // verus!
