//! Verified core of a small ESP32 access-point node: the websocket
//! guessing endpoint's decisions, the access-point settings, the protocol
//! workers and the helper conversions they share.
pub mod config;
pub mod guess_socket;
pub mod helpers;
pub mod network;
pub mod protocols;
pub mod uuid;
