//! Onboard relay controller of the pod: the state machine of the vehicle,
//! the field-bus frame codec, the telemetry aggregator with its device
//! watchdog, and the decision cores of the control-link and telemetry-link
//! workers. All I/O is left to the caller.

pub mod pod_states;
pub mod board_states;
pub mod errno;
pub mod ack_nack;
pub mod fault_reports;
pub mod can_command;
pub mod float_bits;
pub mod device_watchdog;
pub mod pod_data;
pub mod aggregator;
pub mod messages;
pub mod pod_state_message;
pub mod worker_state;
pub mod desktop_state_message;
pub mod udp_worker;
pub mod requests;
pub mod can_worker;
pub mod tcp_worker;
pub mod stream_utils;
