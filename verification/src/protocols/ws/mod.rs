mod api;
mod impl_esp32;

pub use self::api::{WebSocket, WebSocketClientListerApi, WebSocketServerApi};
pub use self::impl_esp32::{Esp32SyncWebSocketProtocolApi, WebSocketSession};

use vstd::prelude::*;
use crate::protocols::{ProtocolError, ProtocolWorker};

verus! {

/// A worker that links the clients of the node to the upstream server.
pub struct WebSocketProtocolWorker<ClientListerApi, ServerApi> {
    client_lister_api: ClientListerApi,
    server_api: ServerApi,
}

impl<ClientListerApi, ServerApi> WebSocketProtocolWorker<ClientListerApi, ServerApi> {
    /// The side that accepts clients.
    pub closed spec fn client_lister(&self) -> ClientListerApi {
        self.client_lister_api
    }

    /// The side that talks to the server.
    pub closed spec fn server(&self) -> ServerApi {
        self.server_api
    }

    /// The side that accepts clients.
    pub fn client_lister_api(&self) -> (res: &ClientListerApi)
        ensures
            *res == self.client_lister(),
    {
        &self.client_lister_api
    }

    /// The side that talks to the server.
    pub fn server_api(&self) -> (res: &ServerApi)
        ensures
            *res == self.server(),
    {
        &self.server_api
    }

    /// A worker over the two given sides.
    pub fn new(client_lister_api: ClientListerApi, server_api: ServerApi) -> (res: Self)
        ensures
            res.client_lister() == client_lister_api,
            res.server() == server_api,
    {
        Self { client_lister_api, server_api }
    }

    /// A worker over the default value of each side.
    pub fn default() -> (res: WebSocketProtocolWorker<ClientListerApi, ServerApi>) where
        ClientListerApi: WebSocketClientListerApi + Send + Default,
        ServerApi: WebSocketServerApi + Send + Default,

        ensures
            call_ensures(ClientListerApi::default, (), res.client_lister()),
            call_ensures(ServerApi::default, (), res.server()),
    {
        Self { client_lister_api: ClientListerApi::default(), server_api: ServerApi::default() }
    }
}

/// Whether `after` is `before` with one more session queued on the server
/// side (when `server_side`) or on the client side, the other side unchanged.
pub open spec fn session_recorded(
    before: WebSocketProtocolWorker<Esp32SyncWebSocketProtocolApi, Esp32SyncWebSocketProtocolApi>,
    after: WebSocketProtocolWorker<Esp32SyncWebSocketProtocolApi, Esp32SyncWebSocketProtocolApi>,
    server_side: bool,
) -> bool {
    if server_side {
        &&& after.server().sessions() == before.server().sessions().push(WebSocketSession {})
        &&& after.client_lister() == before.client_lister()
    } else {
        &&& after.client_lister().sessions() == before.client_lister().sessions().push(
            WebSocketSession {},
        )
        &&& after.server() == before.server()
    }
}

impl WebSocketProtocolWorker<Esp32SyncWebSocketProtocolApi, Esp32SyncWebSocketProtocolApi> {
    /// Records a websocket event that the server reported to one of the two
    /// sides: the server side when `server_side`, else the client side.
    pub fn record_session(&mut self, server_side: bool)
        ensures
            session_recorded(*old(self), *final(self), server_side),
    {
        if server_side {
            self.server_api.enqueue_session();
        } else {
            self.client_lister_api.enqueue_session();
        }
    }
}

impl<ClientListerApi, ServerApi> ProtocolWorker for WebSocketProtocolWorker<
    ClientListerApi,
    ServerApi,
> where ClientListerApi: WebSocketClientListerApi + Send, ServerApi: WebSocketServerApi + Send {
    /// Runs the worker; it has nothing to do yet and succeeds at once.
    fn run(&mut self) -> (res: Result<(), ProtocolError>)
        ensures
            res is Ok,
            *final(self) == *old(self),
    {
        Ok(())
    }
}

} // verus!
