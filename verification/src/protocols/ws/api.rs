//! The websocket operations a protocol worker relies on. Each call blocks
//! until the operation is done.
use vstd::prelude::*;
use crate::protocols::ProtocolError;

verus! {

/// A websocket endpoint that exchanges messages with connected clients.
pub trait WebSocket {
    /// Sends a message to a connected client over WebSocket.
    fn send_async(&mut self, client_id: &str, message: &[u8]) -> Result<(), ProtocolError>;

    /// Receives a message from a connected client.
    fn receive_async(&mut self, client_id: &str) -> Result<Vec<u8>, ProtocolError>;

    /// Disconnects the WebSocket connection with a client.
    fn disconnect_async(&mut self, client_id: &str) -> Result<(), ProtocolError>;
}

/// The side that accepts clients (relics and luminas).
pub trait WebSocketClientListerApi: WebSocket {
    /// Accepts an incoming WebSocket connection from a client and returns its id.
    fn accept_async(&mut self) -> Result<String, ProtocolError>;
}

/// The side that talks to the upstream server.
pub trait WebSocketServerApi: WebSocket {
    /// Establishes a WebSocket connection to the DataHaven server.
    fn connect_to_server_async(&mut self) -> Result<(), ProtocolError>;
}

} // verus!
