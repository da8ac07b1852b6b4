//! The ESP32 websocket front: every websocket event that the HTTP server
//! reports is queued as a session for the workers. The front does not
//! implement the websocket operations of [`super::WebSocket`] and its
//! sub-traits yet.
//!
//! The queue is a plain value here; sharing it between the server's handler
//! threads and the workers (behind a lock) is the firmware's concern.
use vstd::prelude::*;
use std::collections::VecDeque;

verus! {

/// A websocket session reported by the server.
#[derive(Debug, Clone, Copy, PartialEq, Eq)]
pub struct WebSocketSession {}

/// The sessions reported by the ESP32 HTTP server, oldest first.
pub struct Esp32SyncWebSocketProtocolApi {
    queue: VecDeque<WebSocketSession>,
}

impl Esp32SyncWebSocketProtocolApi {
    /// The queued sessions, oldest first.
    pub closed spec fn sessions(&self) -> Seq<WebSocketSession> {
        self.queue@
    }

    /// A front with no session queued yet.
    pub fn new() -> (res: Self)
        ensures
            res.sessions() == Seq::<WebSocketSession>::empty(),
    {
        Esp32SyncWebSocketProtocolApi { queue: VecDeque::new() }
    }

    /// Records one websocket event reported by the server: a new session
    /// joins the back of the queue.
    pub fn enqueue_session(&mut self)
        ensures
            final(self).sessions() == old(self).sessions().push(WebSocketSession {}),
    {
        self.queue.push_back(WebSocketSession {});
    }

    /// The number of queued sessions.
    pub fn pending_sessions(&self) -> (res: usize)
        ensures
            res == self.sessions().len(),
    {
        self.queue.len()
    }
}

} // verus!
