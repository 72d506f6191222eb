//! LAN bridge: the per-connection state machine of the local component that
//! impersonates a LAN host to the game client, and the bounded frame queues
//! it moves packets through.
//!
//! The bridge carries no game logic. Its life is the chain Idle →
//! Advertising → Joining → InLobby → Loading → Playing → Leaving → Closed;
//! each direction of traffic runs through a bounded first-in-first-out
//! queue, so frames are delivered in arrival order and a stalled peer is
//! surfaced as backpressure instead of unbounded buffering.

use vstd::prelude::*;

use crate::codec::Packet;

verus! {

/// Suggested depth of each direction's frame queue.
pub const DEFAULT_QUEUE_DEPTH: usize = 1024;

/// The connection states of one bridged client.
#[derive(Debug, Clone, Copy, PartialEq, Eq, Structural)]
pub enum BridgeState {
    Idle,
    Advertising,
    Joining,
    InLobby,
    Loading,
    Playing,
    Leaving,
    Closed,
}

/// The happenings a bridge reacts to.
#[derive(Debug, Clone, Copy, PartialEq, Eq, Structural)]
pub enum BridgeEvent {
    /// The platform assigned a node and asks the bridge to advertise.
    GameAssigned,
    /// The client sent its join request.
    ClientReqJoin,
    /// Player-info frames for all peers have been emitted.
    PlayerInfoComplete,
    /// The node announced the end of the lobby countdown.
    NodeCountDownEnd,
    /// Every member, self included, reported its load finished.
    AllPlayersLoaded,
    /// The client asked to leave.
    ClientLeaveReq,
    /// The node terminated the session.
    NodeTerminate,
    /// A direction stalled past its deadline.
    StallTimeout,
    /// The transport finished closing.
    TransportClosed,
}

/// What the surrounding tasks must do after a transition.
#[derive(Debug, Clone, Copy, PartialEq, Eq, Structural)]
pub enum BridgeAction {
    /// Advertise the synthetic game on the LAN.
    AdvertiseGame,
    /// Answer the join with the slot plan.
    SendSlotInfoJoin,
    /// Acknowledge the leave to the client.
    SendLeaveAck,
    /// Tell the remaining peers the player left, then close the transport.
    EmitPlayerLeft,
}

/// The transition table of the bridge. Events that a state does not expect
/// leave it unchanged and ask for nothing.
pub open spec fn bridge_step_spec(s: BridgeState, e: BridgeEvent) -> (BridgeState, Option<
    BridgeAction,
>) {
    match (s, e) {
        (BridgeState::Idle, BridgeEvent::GameAssigned) => (
            BridgeState::Advertising,
            Some(BridgeAction::AdvertiseGame),
        ),
        (BridgeState::Advertising, BridgeEvent::ClientReqJoin) => (
            BridgeState::Joining,
            Some(BridgeAction::SendSlotInfoJoin),
        ),
        (BridgeState::Joining, BridgeEvent::PlayerInfoComplete) => (BridgeState::InLobby, None),
        (BridgeState::InLobby, BridgeEvent::NodeCountDownEnd) => (BridgeState::Loading, None),
        (BridgeState::Loading, BridgeEvent::AllPlayersLoaded) => (BridgeState::Playing, None),
        (BridgeState::Playing, BridgeEvent::ClientLeaveReq) => (
            BridgeState::Leaving,
            Some(BridgeAction::SendLeaveAck),
        ),
        (BridgeState::Playing, BridgeEvent::NodeTerminate) => (
            BridgeState::Leaving,
            Some(BridgeAction::SendLeaveAck),
        ),
        (BridgeState::Playing, BridgeEvent::StallTimeout) => (BridgeState::Leaving, None),
        (BridgeState::Leaving, BridgeEvent::TransportClosed) => (
            BridgeState::Closed,
            Some(BridgeAction::EmitPlayerLeft),
        ),
        _ => (s, None),
    }
}

/// Advances the bridge by one event.
pub fn bridge_step(s: BridgeState, e: BridgeEvent) -> (r: (BridgeState, Option<BridgeAction>))
    ensures
        r == bridge_step_spec(s, e),
{
    match (s, e) {
        (BridgeState::Idle, BridgeEvent::GameAssigned) => (
            BridgeState::Advertising,
            Some(BridgeAction::AdvertiseGame),
        ),
        (BridgeState::Advertising, BridgeEvent::ClientReqJoin) => (
            BridgeState::Joining,
            Some(BridgeAction::SendSlotInfoJoin),
        ),
        (BridgeState::Joining, BridgeEvent::PlayerInfoComplete) => (BridgeState::InLobby, None),
        (BridgeState::InLobby, BridgeEvent::NodeCountDownEnd) => (BridgeState::Loading, None),
        (BridgeState::Loading, BridgeEvent::AllPlayersLoaded) => (BridgeState::Playing, None),
        (BridgeState::Playing, BridgeEvent::ClientLeaveReq) => (
            BridgeState::Leaving,
            Some(BridgeAction::SendLeaveAck),
        ),
        (BridgeState::Playing, BridgeEvent::NodeTerminate) => (
            BridgeState::Leaving,
            Some(BridgeAction::SendLeaveAck),
        ),
        (BridgeState::Playing, BridgeEvent::StallTimeout) => (BridgeState::Leaving, None),
        (BridgeState::Leaving, BridgeEvent::TransportClosed) => (
            BridgeState::Closed,
            Some(BridgeAction::EmitPlayerLeft),
        ),
        _ => (s, None),
    }
}

/// Law: `Closed` is terminal — no event leads the bridge out of it.
pub proof fn lemma_closed_is_terminal(e: BridgeEvent)
    ensures
        bridge_step_spec(BridgeState::Closed, e).0 == BridgeState::Closed,
{
}

/// Failures of the frame queues.
#[derive(Debug, Clone, Copy, PartialEq, Eq, Structural)]
pub enum BridgeError {
    /// The queue is full: the peer stalled longer than the depth absorbs.
    BackpressureExceeded,
}

/// A bounded first-in-first-out queue of frames for one direction.
#[derive(Debug)]
pub struct FrameQueue {
    pub frames: Vec<Packet>,
    pub capacity: usize,
}

impl FrameQueue {
    /// An empty queue of the given depth.
    pub fn new(capacity: usize) -> (r: FrameQueue)
        ensures
            r.frames@.len() == 0,
            r.capacity == capacity,
    {
        FrameQueue { frames: Vec::new(), capacity }
    }

    /// How many frames wait in the queue.
    pub fn len(&self) -> (r: usize)
        ensures
            r == self.frames@.len(),
    {
        self.frames.len()
    }

    /// Accepts a frame at the back, or reports backpressure on a full
    /// queue — never a panic, never a silent drop.
    pub fn push_frame(&mut self, f: Packet) -> (r: Result<(), BridgeError>)
        ensures
            match r {
                Ok(()) => {
                    &&& old(self).frames@.len() < old(self).capacity
                    &&& final(self).frames@ == old(self).frames@.push(f)
                    &&& final(self).capacity == old(self).capacity
                },
                Err(e) => {
                    &&& e == BridgeError::BackpressureExceeded
                    &&& old(self).frames@.len() >= old(self).capacity
                    &&& *final(self) == *old(self)
                },
            },
    {
        if self.frames.len() >= self.capacity {
            return Err(BridgeError::BackpressureExceeded);
        }
        self.frames.push(f);
        Ok(())
    }

    /// Takes the frame that arrived first, preserving arrival order.
    pub fn pop_frame(&mut self) -> (r: Option<Packet>)
        ensures
            final(self).capacity == old(self).capacity,
            match r {
                Some(f) => {
                    &&& old(self).frames@.len() > 0
                    &&& f == old(self).frames@[0]
                    &&& final(self).frames@ == old(self).frames@.subrange(
                        1,
                        old(self).frames@.len() as int,
                    )
                },
                None => {
                    &&& old(self).frames@.len() == 0
                    &&& *final(self) == *old(self)
                },
            },
    {
        if self.frames.len() == 0 {
            return None;
        }
        let f = self.frames.remove(0);
        proof {
            assert(self.frames@ =~= old(self).frames@.subrange(
                1,
                old(self).frames@.len() as int,
            ));
        }
        Some(f)
    }
}

} // verus!
