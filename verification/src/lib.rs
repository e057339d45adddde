//! Local bridge layer for a desktop web-UI shell: resolves asset requests,
//! bridges JSON calls between the UI and the host, and models the event
//! dispatch loop that serializes host events into UI script deliveries.

pub mod environment;
pub mod event_loop;
pub mod paths;
pub mod server;
