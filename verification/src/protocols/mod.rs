//! The protocols the node speaks and the workers that serve them.
//!
//! The ESP32 websocket front ([`ws::Esp32SyncWebSocketProtocolApi`]) only
//! queues the sessions the server reports; it does not implement the
//! websocket operations ([`ws::WebSocket`], [`ws::WebSocketClientListerApi`],
//! [`ws::WebSocketServerApi`]): those operations are not written for this
//! front yet, and a stand-in that panics on every call has no place in
//! verified code. So the websocket worker built over it, [`Esp32WebSocketWorker`],
//! is not a [`ProtocolWorker`], and [`ProtocolManager`] keeps its workers as
//! that concrete type rather than as type-erased protocol workers.
//!
//! Each websocket worker listens to the server through its two sides. The
//! firmware registers one server handler per side, and each handler reports
//! its events with [`ProtocolManager::record_session`].
use vstd::prelude::*;
use self::ws::{session_recorded, Esp32SyncWebSocketProtocolApi, WebSocketProtocolWorker};

pub mod ws;

verus! {

/// An error raised by a protocol worker, carrying a human-readable message.
#[derive(Debug)]
pub struct ProtocolError {
    message: String,
}

impl ProtocolError {
    /// The message this error carries.
    pub closed spec fn message_view(&self) -> Seq<char> {
        self.message@
    }

    /// Makes an error that carries `message`.
    pub fn new(message: String) -> (res: Self)
        ensures
            res.message_view() == message@,
    {
        Self { message }
    }
}

/// A long-running task that serves one protocol.
pub trait ProtocolWorker {
    /// Serves the protocol until it stops or fails.
    fn run(&mut self) -> Result<(), ProtocolError>;
}

/// The protocols a node can serve.
#[derive(Debug, Clone, Copy, PartialEq, Eq)]
pub enum ProtocolType {
    WebSocket,
}

/// The worker that serves the websocket protocol on the ESP32.
pub type Esp32WebSocketWorker = WebSocketProtocolWorker<
    Esp32SyncWebSocketProtocolApi,
    Esp32SyncWebSocketProtocolApi,
>;

/// Whether `worker` is a websocket worker whose two sides have no session
/// queued yet.
pub open spec fn is_fresh_ws_worker(worker: Esp32WebSocketWorker) -> bool {
    &&& worker.client_lister().sessions() == Seq::<crate::protocols::ws::WebSocketSession>::empty()
    &&& worker.server().sessions() == Seq::<crate::protocols::ws::WebSocketSession>::empty()
}

/// The worker that serves a websocket protocol entry.
fn default_ws() -> (res: Esp32WebSocketWorker)
    ensures
        is_fresh_ws_worker(res),
{
    WebSocketProtocolWorker::new(
        Esp32SyncWebSocketProtocolApi::new(),
        Esp32SyncWebSocketProtocolApi::new(),
    )
}

/// The workers of a node, one per protocol it serves.
pub struct ProtocolManager {
    protocol_entries: Vec<Esp32WebSocketWorker>,
}

impl ProtocolManager {
    /// The workers, in the order of the protocols they serve.
    pub closed spec fn entries(&self) -> Seq<Esp32WebSocketWorker> {
        self.protocol_entries@
    }

    /// One fresh worker for each of `protocols`, in the same order.
    pub fn new(protocols: &[ProtocolType]) -> (res: Self)
        ensures
            res.entries().len() == protocols@.len(),
            forall|i: int| 0 <= i < protocols@.len() ==> is_fresh_ws_worker(#[trigger] res.entries()[i]),
    {
        let mut protocol_entries: Vec<Esp32WebSocketWorker> = Vec::new();
        let mut i: usize = 0;
        while i < protocols.len()
            invariant
                i <= protocols@.len(),
                protocol_entries@.len() == i,
                forall|j: int| 0 <= j < i ==> is_fresh_ws_worker(#[trigger] protocol_entries@[j]),
            decreases protocols@.len() - i,
        {
            let entry = match protocols[i] {
                ProtocolType::WebSocket => default_ws(),
            };
            protocol_entries.push(entry);
            i = i + 1;
        }
        Self { protocol_entries }
    }

    /// Records a websocket event that the server reported to the worker at
    /// `index`: it joins the queue of that worker's server side when
    /// `server_side`, else the queue of its client side. Every other worker
    /// stays as it was.
    pub fn record_session(&mut self, index: usize, server_side: bool)
        requires
            index < old(self).entries().len(),
        ensures
            final(self).entries().len() == old(self).entries().len(),
            forall|j: int|
                0 <= j < old(self).entries().len() && j != index ==> #[trigger] final(self).entries()[j]
                    == old(self).entries()[j],
            session_recorded(
                old(self).entries()[index as int],
                final(self).entries()[index as int],
                server_side,
            ),
    {
        let mut worker = self.protocol_entries.remove(index);
        worker.record_session(server_side);
        self.protocol_entries.insert(index, worker);
    }

    /// The number of sessions queued on the server side (when `server_side`)
    /// or on the client side of the worker at `index`.
    pub fn pending_sessions(&self, index: usize, server_side: bool) -> (res: usize)
        requires
            index < self.entries().len(),
        ensures
            res == if server_side {
                self.entries()[index as int].server().sessions().len()
            } else {
                self.entries()[index as int].client_lister().sessions().len()
            },
    {
        let worker = &self.protocol_entries[index];
        if server_side {
            worker.server_api().pending_sessions()
        } else {
            worker.client_lister_api().pending_sessions()
        }
    }

    /// The number of workers.
    pub fn len(&self) -> (res: usize)
        ensures
            res == self.entries().len(),
    {
        self.protocol_entries.len()
    }
}

} // verus!
