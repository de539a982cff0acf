use vstd::prelude::*;

verus! {

/// Marks a worker that waits for the rest of the system to start.
pub struct Startup;

/// Marks a worker with no desktop session.
pub struct Disconnected;

/// Marks a worker with a desktop session.
pub struct Connected;

/// Marks a worker that brings the pod back to a safe state.
pub struct Recovery;

/// A worker in exactly one of its four states. Moving to another state
/// consumes the worker and builds it anew under the other marker.
pub enum WorkerState<S, R, C, D> {
    Startup(S),
    Recovery(R),
    Connected(C),
    Disconnected(D),
}

} // verus!
