use flo_core::bridge::{bridge_step, BridgeAction, BridgeError, BridgeEvent, BridgeState,
    FrameQueue, DEFAULT_QUEUE_DEPTH};
use flo_core::codec::Packet;
use flo_core::constants::PacketTypeId;

fn action_frame(n: u8) -> Packet {
    Packet {
        type_id: PacketTypeId::OutgoingAction,
        payload: vec![n],
    }
}

#[test]
fn bridge_walks_the_whole_lifecycle() {
    let s = BridgeState::Idle;
    let (s, a) = bridge_step(s, BridgeEvent::GameAssigned);
    assert_eq!(s, BridgeState::Advertising);
    assert_eq!(a, Some(BridgeAction::AdvertiseGame));
    let (s, a) = bridge_step(s, BridgeEvent::ClientReqJoin);
    assert_eq!(s, BridgeState::Joining);
    assert_eq!(a, Some(BridgeAction::SendSlotInfoJoin));
    let (s, a) = bridge_step(s, BridgeEvent::PlayerInfoComplete);
    assert_eq!(s, BridgeState::InLobby);
    assert_eq!(a, None);
    let (s, a) = bridge_step(s, BridgeEvent::NodeCountDownEnd);
    assert_eq!(s, BridgeState::Loading);
    assert_eq!(a, None);
    let (s, a) = bridge_step(s, BridgeEvent::AllPlayersLoaded);
    assert_eq!(s, BridgeState::Playing);
    assert_eq!(a, None);
    let (s, a) = bridge_step(s, BridgeEvent::ClientLeaveReq);
    assert_eq!(s, BridgeState::Leaving);
    assert_eq!(a, Some(BridgeAction::SendLeaveAck));
    let (s, a) = bridge_step(s, BridgeEvent::TransportClosed);
    assert_eq!(s, BridgeState::Closed);
    assert_eq!(a, Some(BridgeAction::EmitPlayerLeft));
}

#[test]
fn node_terminate_and_stall_leave_playing() {
    let (s, a) = bridge_step(BridgeState::Playing, BridgeEvent::NodeTerminate);
    assert_eq!(s, BridgeState::Leaving);
    assert_eq!(a, Some(BridgeAction::SendLeaveAck));
    let (s, a) = bridge_step(BridgeState::Playing, BridgeEvent::StallTimeout);
    assert_eq!(s, BridgeState::Leaving);
    assert_eq!(a, None);
}

#[test]
fn unexpected_events_change_nothing() {
    let (s, a) = bridge_step(BridgeState::Idle, BridgeEvent::ClientLeaveReq);
    assert_eq!(s, BridgeState::Idle);
    assert_eq!(a, None);
    let (s, a) = bridge_step(BridgeState::Closed, BridgeEvent::GameAssigned);
    assert_eq!(s, BridgeState::Closed);
    assert_eq!(a, None);
}

#[test]
fn queue_preserves_arrival_order() {
    // A thousand frames pushed in order come out in the same order.
    let mut q = FrameQueue::new(DEFAULT_QUEUE_DEPTH);
    for i in 0..1000u32 {
        q.push_frame(action_frame((i % 256) as u8)).unwrap();
    }
    assert_eq!(q.len(), 1000);
    for i in 0..1000u32 {
        let f = q.pop_frame().unwrap();
        assert_eq!(f.payload, vec![(i % 256) as u8]);
        assert_eq!(f.type_id, PacketTypeId::OutgoingAction);
    }
    assert!(q.pop_frame().is_none());
}

#[test]
fn full_queue_reports_backpressure() {
    let mut q = FrameQueue::new(4);
    for i in 0..4 {
        q.push_frame(action_frame(i)).unwrap();
    }
    // The fifth push fails cleanly: no panic, no silent drop.
    assert_eq!(
        q.push_frame(action_frame(9)).unwrap_err(),
        BridgeError::BackpressureExceeded
    );
    assert_eq!(q.len(), 4);
    // Draining one slot makes room again.
    let first = q.pop_frame().unwrap();
    assert_eq!(first.payload, vec![0]);
    q.push_frame(action_frame(9)).unwrap();
    assert_eq!(q.len(), 4);
}
