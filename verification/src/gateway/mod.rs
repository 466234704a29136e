//! An RDP gateway's decisions: who may reach which host, the steps of a
//! connection from the client's request to the relay, and the relay's view
//! of the WebSocket as a byte stream. Authentication and authorization sit
//! behind traits; a TOML-backed rule set is provided.

pub mod auth;
pub mod handshake;
pub mod policy;
pub mod relay;
pub mod session;
pub mod static_policy;
pub mod ws_stream;
