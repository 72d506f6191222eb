use flo_core::lobby::{DisconnectReason, LobbyConn, LobbyError, LobbyState, NetState,
    OutgoingMessage};
use flo_core::node::PingUpdate;

#[test]
fn fresh_state_is_disconnected() {
    let state = LobbyState::new("lobby.example".to_string());
    assert_eq!(state.get_sender_cloned(), None);
}

#[test]
fn connect_then_send_uses_the_stream_sender() {
    let mut state = LobbyState::new("lobby.example".to_string());
    state.connect(LobbyConn {
        stream_id: 5,
        ws_sender_id: 9,
    });
    assert_eq!(state.get_sender_cloned(), Some(5));
}

#[test]
fn close_emits_one_disconnect_notice() {
    let mut state = LobbyState::new("lobby.example".to_string());
    state.connect(LobbyConn {
        stream_id: 5,
        ws_sender_id: 9,
    });
    let (ws, notice) = state.close().unwrap();
    assert_eq!(ws, 9);
    assert_eq!(notice.reason, DisconnectReason::Unknown);
    assert_eq!(notice.message, "Server connection closed unexpectedly");
    // The connection is gone; a second close has nothing to say.
    assert!(state.close().is_none());
    assert_eq!(state.get_sender_cloned(), None);
}

#[test]
fn ping_updates_reach_the_ui_only_while_connected() {
    let mut state = LobbyState::new("lobby.example".to_string());
    let update = PingUpdate {
        node_id: 1,
        ping: Some(12),
    };
    assert!(state.forward_ping(update).is_none());
    state.connect(LobbyConn {
        stream_id: 5,
        ws_sender_id: 9,
    });
    let (ws, msg) = state.forward_ping(update).unwrap();
    assert_eq!(ws, 9);
    match msg {
        OutgoingMessage::PingUpdate(u) => assert_eq!(u, update),
        _ => panic!("expected a ping update"),
    }
}

#[test]
fn lobby_send_without_connection_is_refused() {
    let net = NetState::init("lobby.example".to_string());
    assert_eq!(
        net.lobby_sender().unwrap_err(),
        LobbyError::ServerNotConnected
    );
}

#[test]
fn lobby_send_with_connection_hands_out_the_sender() {
    let mut net = NetState::init("lobby.example".to_string());
    net.connect_lobby(LobbyConn {
        stream_id: 77,
        ws_sender_id: 3,
    });
    assert_eq!(net.lobby_sender().unwrap(), 77);
}
