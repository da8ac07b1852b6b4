use relic_node::protocols::ws::{
    Esp32SyncWebSocketProtocolApi, WebSocket, WebSocketClientListerApi, WebSocketProtocolWorker,
    WebSocketServerApi,
};
use relic_node::protocols::{ProtocolError, ProtocolManager, ProtocolType, ProtocolWorker};

#[derive(Default, Debug, PartialEq)]
struct Loopback {
    tag: u8,
}

impl WebSocket for Loopback {
    fn send_async(&mut self, _client_id: &str, _message: &[u8]) -> Result<(), ProtocolError> {
        Ok(())
    }
    fn receive_async(&mut self, _client_id: &str) -> Result<Vec<u8>, ProtocolError> {
        Ok(Vec::new())
    }
    fn disconnect_async(&mut self, _client_id: &str) -> Result<(), ProtocolError> {
        Ok(())
    }
}

impl WebSocketClientListerApi for Loopback {
    fn accept_async(&mut self) -> Result<String, ProtocolError> {
        Ok(String::from("relic"))
    }
}

impl WebSocketServerApi for Loopback {
    fn connect_to_server_async(&mut self) -> Result<(), ProtocolError> {
        Ok(())
    }
}

#[test]
fn protocol_error_keeps_its_message() {
    let e = ProtocolError::new(String::from("socket gone"));
    assert!(format!("{:?}", e).contains("socket gone"));
}

#[test]
fn worker_runs_successfully() {
    let mut w = WebSocketProtocolWorker::new(Loopback { tag: 1 }, Loopback { tag: 2 });
    assert!(w.run().is_ok());
    assert!(w.run().is_ok());
}

#[test]
fn default_worker_runs() {
    let mut w: WebSocketProtocolWorker<Loopback, Loopback> = WebSocketProtocolWorker::default();
    assert!(w.run().is_ok());
}

#[test]
fn one_worker_per_protocol() {
    assert_eq!(ProtocolManager::new(&[]).len(), 0);
    assert_eq!(ProtocolManager::new(&[ProtocolType::WebSocket]).len(), 1);
    let m = ProtocolManager::new(&[ProtocolType::WebSocket, ProtocolType::WebSocket]);
    assert_eq!(m.len(), 2);
}

#[test]
fn sessions_queue_up() {
    let mut api = Esp32SyncWebSocketProtocolApi::new();
    assert_eq!(api.pending_sessions(), 0);
    api.enqueue_session();
    api.enqueue_session();
    assert_eq!(api.pending_sessions(), 2);
}

#[test]
fn manager_records_sessions_per_worker_and_side() {
    let mut m = ProtocolManager::new(&[ProtocolType::WebSocket, ProtocolType::WebSocket]);
    for i in 0..2 {
        assert_eq!(m.pending_sessions(i, false), 0);
        assert_eq!(m.pending_sessions(i, true), 0);
    }
    m.record_session(1, true);
    m.record_session(1, true);
    m.record_session(0, false);
    assert_eq!(m.len(), 2);
    assert_eq!(m.pending_sessions(0, false), 1);
    assert_eq!(m.pending_sessions(0, true), 0);
    assert_eq!(m.pending_sessions(1, false), 0);
    assert_eq!(m.pending_sessions(1, true), 2);
}

#[test]
fn worker_records_on_the_chosen_side() {
    let mut w = WebSocketProtocolWorker::new(
        Esp32SyncWebSocketProtocolApi::new(),
        Esp32SyncWebSocketProtocolApi::new(),
    );
    w.record_session(false);
    assert_eq!(w.client_lister_api().pending_sessions(), 1);
    assert_eq!(w.server_api().pending_sessions(), 0);
    w.record_session(true);
    assert_eq!(w.server_api().pending_sessions(), 1);
}

#[test]
fn worker_sides_are_kept() {
    let w = WebSocketProtocolWorker::new(Loopback { tag: 1 }, Loopback { tag: 2 });
    assert_eq!(w.client_lister_api(), &Loopback { tag: 1 });
    assert_eq!(w.server_api(), &Loopback { tag: 2 });
}
