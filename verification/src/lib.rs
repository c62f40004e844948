//! Decision core of an asynchronous network client: WebSocket lifecycle,
//! sending, reconnecting, proxy tunnels and network status, as plain state
//! machines with proved contracts.
use vstd::prelude::*;

pub mod build_config;
pub mod callback_lane;
pub mod client_config;
pub mod client_laws;
pub mod clock;
pub mod connect_cycle;
pub mod connection_failure;
pub mod connection_status;
pub mod ip_stack;
pub mod dispatch_phase;
pub mod handshake_request;
pub mod heartbeat_state;
pub mod http_client;
pub mod io_stop;
pub mod net_error;
pub mod network_io;
pub mod network_status;
pub mod net_status_client;
pub mod network_config;
pub mod network_gate;
pub mod network_source;
pub mod permits;
pub mod proxy;
pub mod queued_request;
pub mod reconnect;
pub mod refresh_trigger;
pub mod registered_send;
pub mod retry;
pub mod send_admission;
pub mod send_flow;
pub mod task_event;
pub mod task_observer;
pub mod text;
pub mod transport;
pub mod worker_action;
pub mod worker_ending_laws;
pub mod worker_laws;
pub mod worker_order_laws;
pub mod worker_outcome_laws;
pub mod worker_turn;
pub mod ws_client_inner;
pub mod ws_client_worker;
pub mod ws_read;
pub mod ws_write;

pub use ip_stack::IpStack;
pub use net_error::{HttpError, NetError};

verus! {

} // verus!
