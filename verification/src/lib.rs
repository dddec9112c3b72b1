//! Session synchronization and membership enforcement for a chat-protocol
//! bot: the bootstrap sequence that logs in and enters the continuous sync
//! loop, the invitation handler with bounded exponential-backoff retry, and
//! the immutable session state shared by every handler.
//!
//! All network traffic goes through an outside protocol client; this crate
//! holds the decisions. Each network-facing procedure is modelled as a state
//! machine whose step function is verified: the surrounding program performs
//! the returned action and feeds the observed outcome back in as an event.

pub mod bootstrap;
pub mod config;
pub mod invite;
pub mod state;

pub use config::Config;
pub use state::State;
