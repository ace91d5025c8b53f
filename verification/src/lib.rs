//! Lighter Protocol SDK core: transaction construction, validation and
//! hashing, request framing for the HTTP API, and the state kept from the
//! WebSocket streams.

pub mod client;
pub mod constants;
pub mod crypto;
pub mod errors;
pub mod text;
pub mod types;
pub mod ws_client;
