//! A client-side framework for a callback-driven real-time audio server.
//!
//! Applications implement the handler traits with ordinary typed objects;
//! the active-client state machine owns those handlers while the client is
//! activated and hands them back, with all accumulated state, on
//! deactivation. The server's control side is modeled deterministically, so
//! every dispatch a session performs is specified and proved, down to the
//! exact handler state deactivation returns.

pub mod async_client;
pub mod client;
pub mod client_options;
pub mod client_status;
pub mod control;
pub mod counter;
pub mod handler;
pub mod laws;
pub mod port;
pub mod server;
