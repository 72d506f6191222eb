//! Controller-side game registry: the authoritative in-memory index of
//! active games, keyed by game id.
//!
//! Each entry records status, host player, member players and assigned node.
//! The registry enforces the single-host invariant (at most one active game
//! per host player), drives the status lifecycle Preparing → Created →
//! Running → Ended forward only, and computes the fan-out targets of
//! state-change frames. All mutations are meant to be funneled through one
//! writer; the persistent store that issues game ids and rows sits outside.

use vstd::prelude::*;

verus! {

/// Lifecycle status of a game. Transitions may only move forward.
#[derive(Debug, Clone, Copy, PartialEq, Eq, Structural)]
pub enum GameStatus {
    Preparing,
    Created,
    Running,
    Ended,
}

impl GameStatus {
    /// Position of this status in the lifecycle order.
    pub open spec fn rank(self) -> int {
        match self {
            GameStatus::Preparing => 0,
            GameStatus::Created => 1,
            GameStatus::Running => 2,
            GameStatus::Ended => 3,
        }
    }

    /// Computes the lifecycle position of this status.
    pub fn rank_u8(self) -> (r: u8)
        ensures
            r == self.rank(),
    {
        match self {
            GameStatus::Preparing => 0,
            GameStatus::Created => 1,
            GameStatus::Running => 2,
            GameStatus::Ended => 3,
        }
    }
}

/// A game row as the persistent store hands it back: identity, lifecycle
/// status, host, members and assigned node.
#[derive(Debug, Clone)]
pub struct Game {
    pub id: i32,
    pub status: GameStatus,
    pub host_player_id: i32,
    pub players: Vec<i32>,
    pub node_id: Option<i32>,
}

impl Game {
    /// The host is always one of the members, and a running game has a node.
    pub open spec fn wf(self) -> bool {
        &&& self.players@.contains(self.host_player_id)
        &&& (self.status == GameStatus::Running ==> self.node_id is Some)
    }
}

/// Parameters of a player-initiated game creation.
#[derive(Debug, Clone)]
pub struct CreateGameParams {
    pub player_id: i32,
    pub name: String,
}

/// A player's request to create a game.
#[derive(Debug, Clone)]
pub struct CreateGame {
    pub params: CreateGameParams,
}

/// Parameters of a bot-initiated game creation; the node may be pre-assigned.
#[derive(Debug, Clone)]
pub struct CreateGameAsBotParams {
    pub name: String,
    pub node_id: Option<i32>,
    pub player_ids: Vec<i32>,
}

/// An API client's request to create a game on behalf of players.
#[derive(Debug, Clone)]
pub struct CreateGameAsBot {
    pub api_client_id: i32,
    pub api_player_id: i32,
    pub params: CreateGameAsBotParams,
}

/// One registry entry: the in-memory record of a registered game.
#[derive(Debug, Clone)]
pub struct Register {
    pub id: i32,
    pub status: GameStatus,
    pub host_player: i32,
    pub players: Vec<i32>,
    pub node_id: Option<i32>,
}

/// An entry that is still in play.
pub open spec fn active(e: Register) -> bool {
    e.status != GameStatus::Ended
}

/// The host belongs to the members, and a running entry has a node.
pub open spec fn entry_wf(e: Register) -> bool {
    &&& e.players@.contains(e.host_player)
    &&& (e.status == GameStatus::Running ==> e.node_id is Some)
}

/// Whether an entry carries exactly these fields (members compared as
/// sequences).
pub open spec fn entry_like(
    e: Register,
    id: i32,
    status: GameStatus,
    host: i32,
    players: Seq<i32>,
    node_id: Option<i32>,
) -> bool {
    &&& e.id == id
    &&& e.status == status
    &&& e.host_player == host
    &&& e.players@ == players
    &&& e.node_id == node_id
}

/// Structured failures of the registry; reported to the caller, never
/// retried.
#[derive(Debug, Clone, Copy, PartialEq, Eq, Structural)]
pub enum RegistryError {
    /// The host already owns an active game.
    GameExistsForHost,
    /// No game of that id is registered.
    UnknownGame,
    /// The requested status move is retrograde, or runs without a node.
    InvalidTransition,
}

/// A control frame fanned out to member players' lobby streams.
#[derive(Debug, Clone, Copy, PartialEq, Eq, Structural)]
pub enum LobbyFrame {
    /// The player's current-game reference changed.
    SessionUpdate { game_id: Option<i32> },
    /// A full game-state snapshot is available for this game.
    GameInfo { game_id: i32 },
}

/// What a successful creation asks the transport to do: send `frames`, in
/// order, to every player in `recipients`.
#[derive(Debug, Clone)]
pub struct CreateOutcome {
    pub recipients: Vec<i32>,
    pub frames: Vec<LobbyFrame>,
}

/// The authoritative in-memory index of registered games.
#[derive(Debug)]
pub struct GameRegistry {
    pub entries: Vec<Register>,
}

impl GameRegistry {
    /// Some entry carries this game id.
    pub open spec fn contains_id(self, id: i32) -> bool {
        exists|k: int| 0 <= k < self.entries@.len() && (#[trigger] self.entries@[k]).id == id
    }

    /// The index of the entry with this id (well defined under `wf`).
    pub open spec fn index_of(self, id: i32) -> int {
        choose|k: int| 0 <= k < self.entries@.len() && (#[trigger] self.entries@[k]).id == id
    }

    /// Some active entry is hosted by this player.
    pub open spec fn host_has_active(self, host: i32) -> bool {
        exists|k: int|
            0 <= k < self.entries@.len() && active(#[trigger] self.entries@[k])
                && self.entries@[k].host_player == host
    }

    /// Registry invariant: ids are unique, hosts own at most one active
    /// game, and every entry is well formed.
    pub open spec fn wf(self) -> bool {
        &&& forall|a: int, b: int|
            0 <= a < b < self.entries@.len() ==> (#[trigger] self.entries@[a]).id != (
            #[trigger] self.entries@[b]).id
        &&& forall|a: int, b: int|
            0 <= a < b < self.entries@.len() ==> !(active(#[trigger] self.entries@[a]) && active(
                #[trigger] self.entries@[b],
            ) && self.entries@[a].host_player == self.entries@[b].host_player)
        &&& forall|k: int| 0 <= k < self.entries@.len() ==> entry_wf(#[trigger] self.entries@[k])
    }

    /// An empty registry.
    pub fn new() -> (r: GameRegistry)
        ensures
            r.wf(),
            r.entries@.len() == 0,
    {
        GameRegistry { entries: Vec::new() }
    }

    /// Finds the entry of a game id, if any.
    fn find_index(&self, game_id: i32) -> (r: Option<usize>)
        ensures
            match r {
                Some(k) => k < self.entries@.len() && self.entries@[k as int].id == game_id,
                None => !self.contains_id(game_id),
            },
    {
        let mut k: usize = 0;
        while k < self.entries.len()
            invariant
                k <= self.entries@.len(),
                forall|q: int| 0 <= q < k ==> (#[trigger] self.entries@[q]).id != game_id,
            decreases self.entries@.len() - k,
        {
            if self.entries[k].id == game_id {
                return Some(k);
            }
            k = k + 1;
        }
        None
    }

    /// Registers a game under a fresh id. Fails with `GameExistsForHost`
    /// when the entry is active and its host already owns an active game;
    /// the registry is then unchanged.
    pub fn register(&mut self, reg: Register) -> (r: Result<(), RegistryError>)
        requires
            old(self).wf(),
            entry_wf(reg),
            !old(self).contains_id(reg.id),
        ensures
            match r {
                Ok(()) => {
                    &&& !(active(reg) && old(self).host_has_active(reg.host_player))
                    &&& final(self).entries@ == old(self).entries@.push(reg)
                    &&& final(self).wf()
                },
                Err(e) => {
                    &&& e == RegistryError::GameExistsForHost
                    &&& active(reg) && old(self).host_has_active(reg.host_player)
                    &&& *final(self) == *old(self)
                },
            },
    {
        let is_active = !matches!(reg.status, GameStatus::Ended);
        if is_active {
            let mut k: usize = 0;
            while k < self.entries.len()
                invariant
                    k <= self.entries@.len(),
                    active(reg),
                    *self == *old(self),
                    forall|q: int|
                        0 <= q < k ==> !(active(#[trigger] self.entries@[q]) && self.entries@[
                            q
                        ].host_player == reg.host_player),
                decreases self.entries@.len() - k,
            {
                let e = &self.entries[k];
                if !matches!(e.status, GameStatus::Ended) && e.host_player == reg.host_player {
                    proof {
                        assert(active(old(self).entries@[k as int]) && old(self).entries@[
                            k as int
                        ].host_player == reg.host_player);
                    }
                    return Err(RegistryError::GameExistsForHost);
                }
                k = k + 1;
            }
        }
        let ghost pre = self.entries@;
        self.entries.push(reg);
        proof {
            assert forall|a: int, b: int|
                0 <= a < b < self.entries@.len() implies (#[trigger] self.entries@[a]).id != (
            #[trigger] self.entries@[b]).id by {
                if b < pre.len() {
                } else {
                    assert(self.entries@[b] == reg);
                    assert(old(self).contains_id(reg.id) == false);
                    assert(self.entries@[a] == pre[a]);
                }
            }
            assert forall|a: int, b: int|
                0 <= a < b < self.entries@.len() implies !(active(#[trigger] self.entries@[a])
                && active(#[trigger] self.entries@[b]) && self.entries@[a].host_player
                == self.entries@[b].host_player) by {
                if b == pre.len() && active(reg) {
                    assert(!old(self).host_has_active(reg.host_player));
                    assert(self.entries@[a] == pre[a]);
                }
            }
        }
        Ok(())
    }

    /// Moves a game's status forward. The lifecycle is a one-way chain:
    /// a move is accepted exactly when its rank strictly increases and a
    /// move to `Running` finds a node assigned. On failure the registry is
    /// unchanged.
    pub fn update_status(&mut self, game_id: i32, new_status: GameStatus) -> (r: Result<
        (),
        RegistryError,
    >)
        requires
            old(self).wf(),
        ensures
            match r {
                Ok(()) => {
                    let k = old(self).index_of(game_id);
                    let e = old(self).entries@[k];
                    &&& old(self).contains_id(game_id)
                    &&& new_status.rank() > e.status.rank()
                    &&& (new_status == GameStatus::Running ==> e.node_id is Some)
                    &&& final(self).entries@.len() == old(self).entries@.len()
                    &&& forall|q: int|
                        0 <= q < old(self).entries@.len() && q != k ==> final(self).entries@[q]
                            == old(self).entries@[q]
                    &&& entry_like(
                        final(self).entries@[k],
                        e.id,
                        new_status,
                        e.host_player,
                        e.players@,
                        e.node_id,
                    )
                    &&& final(self).wf()
                },
                Err(RegistryError::UnknownGame) => {
                    &&& !old(self).contains_id(game_id)
                    &&& *final(self) == *old(self)
                },
                Err(RegistryError::InvalidTransition) => {
                    let k = old(self).index_of(game_id);
                    let e = old(self).entries@[k];
                    &&& old(self).contains_id(game_id)
                    &&& (new_status.rank() <= e.status.rank() || (new_status == GameStatus::Running
                        && e.node_id is None))
                    &&& *final(self) == *old(self)
                },
                Err(RegistryError::GameExistsForHost) => false,
            },
    {
        let k = match self.find_index(game_id) {
            Some(k) => k,
            None => {
                return Err(RegistryError::UnknownGame);
            },
        };
        proof {
            assert(self.contains_id(game_id));
            let c = self.index_of(game_id);
            assert(self.entries@[c].id == game_id);
            if c != k {
                assert(self.entries@[c].id != self.entries@[k as int].id);
            }
        }
        let e = &self.entries[k];
        if new_status.rank_u8() <= e.status.rank_u8() {
            return Err(RegistryError::InvalidTransition);
        }
        if matches!(new_status, GameStatus::Running) && e.node_id.is_none() {
            return Err(RegistryError::InvalidTransition);
        }
        let updated = Register {
            id: e.id,
            status: new_status,
            host_player: e.host_player,
            players: copy_ids(&e.players),
            node_id: e.node_id,
        };
        let ghost pre = self.entries@;
        self.entries.set(k, updated);
        proof {
            assert(self.entries@ =~= pre.update(k as int, updated));
            assert forall|a: int, b: int|
                0 <= a < b < self.entries@.len() implies !(active(#[trigger] self.entries@[a])
                && active(#[trigger] self.entries@[b]) && self.entries@[a].host_player
                == self.entries@[b].host_player) by {
                assert(active(pre[k as int]));
                if a != k && b != k {
                    assert(self.entries@[a] == pre[a] && self.entries@[b] == pre[b]);
                }
            }
        }
        Ok(())
    }

    /// Assigns (or reassigns) the node a game will run on. Fails with
    /// `UnknownGame` when no such game is registered.
    pub fn assign_node(&mut self, game_id: i32, node_id: i32) -> (r: Result<(), RegistryError>)
        requires
            old(self).wf(),
        ensures
            match r {
                Ok(()) => {
                    let k = old(self).index_of(game_id);
                    let e = old(self).entries@[k];
                    &&& old(self).contains_id(game_id)
                    &&& final(self).entries@.len() == old(self).entries@.len()
                    &&& forall|q: int|
                        0 <= q < old(self).entries@.len() && q != k ==> final(self).entries@[q]
                            == old(self).entries@[q]
                    &&& entry_like(
                        final(self).entries@[k],
                        e.id,
                        e.status,
                        e.host_player,
                        e.players@,
                        Some(node_id),
                    )
                    &&& final(self).wf()
                },
                Err(e) => {
                    &&& e == RegistryError::UnknownGame
                    &&& !old(self).contains_id(game_id)
                    &&& *final(self) == *old(self)
                },
            },
    {
        let k = match self.find_index(game_id) {
            Some(k) => k,
            None => {
                return Err(RegistryError::UnknownGame);
            },
        };
        proof {
            let c = self.index_of(game_id);
            assert(self.entries@[c].id == game_id);
            if c != k {
                assert(self.entries@[c].id != self.entries@[k as int].id);
            }
        }
        let e = &self.entries[k];
        let updated = Register {
            id: e.id,
            status: e.status,
            host_player: e.host_player,
            players: copy_ids(&e.players),
            node_id: Some(node_id),
        };
        let ghost pre = self.entries@;
        self.entries.set(k, updated);
        proof {
            assert(self.entries@ =~= pre.update(k as int, updated));
            assert forall|a: int, b: int|
                0 <= a < b < self.entries@.len() implies !(active(#[trigger] self.entries@[a])
                && active(#[trigger] self.entries@[b]) && self.entries@[a].host_player
                == self.entries@[b].host_player) by {
                if a != k && b != k {
                    assert(self.entries@[a] == pre[a] && self.entries@[b] == pre[b]);
                }
            }
        }
        Ok(())
    }

    /// Removes a game and returns the members owed a terminal notification.
    /// After a dissolve the id is gone: a later broadcast to it fails.
    pub fn dissolve(&mut self, game_id: i32) -> (r: Result<Vec<i32>, RegistryError>)
        requires
            old(self).wf(),
        ensures
            match r {
                Ok(members) => {
                    let k = old(self).index_of(game_id);
                    &&& old(self).contains_id(game_id)
                    &&& members@ == old(self).entries@[k].players@
                    &&& final(self).entries@ == old(self).entries@.remove(k)
                    &&& final(self).wf()
                    &&& !final(self).contains_id(game_id)
                },
                Err(e) => {
                    &&& e == RegistryError::UnknownGame
                    &&& !old(self).contains_id(game_id)
                    &&& *final(self) == *old(self)
                },
            },
    {
        let k = match self.find_index(game_id) {
            Some(k) => k,
            None => {
                return Err(RegistryError::UnknownGame);
            },
        };
        proof {
            let c = self.index_of(game_id);
            assert(self.entries@[c].id == game_id);
            if c != k {
                assert(self.entries@[c].id != self.entries@[k as int].id);
            }
        }
        let members = copy_ids(&self.entries[k].players);
        let ghost pre = self.entries@;
        let _ = self.entries.remove(k);
        proof {
            pre.remove_ensures(k as int);
            assert forall|q: int| 0 <= q < self.entries@.len() implies (
            #[trigger] self.entries@[q]).id != game_id by {
                if q < k {
                    assert(self.entries@[q] == pre[q]);
                    if pre[q].id == game_id {
                        assert(pre[q].id != pre[k as int].id);
                    }
                } else {
                    assert(self.entries@[q] == pre[q + 1]);
                    if pre[q + 1].id == game_id {
                        assert(pre[k as int].id != pre[q + 1].id);
                    }
                }
            }
        }
        Ok(members)
    }

    /// The fan-out targets of a state-change broadcast: every member of the
    /// game. A dissolved or never-registered game is refused, so a broadcast
    /// can never target one.
    pub fn broadcast_targets(&self, game_id: i32) -> (r: Result<Vec<i32>, RegistryError>)
        requires
            self.wf(),
        ensures
            match r {
                Ok(members) => {
                    &&& self.contains_id(game_id)
                    &&& members@ == self.entries@[self.index_of(game_id)].players@
                },
                Err(e) => {
                    &&& e == RegistryError::UnknownGame
                    &&& !self.contains_id(game_id)
                },
            },
    {
        let k = match self.find_index(game_id) {
            Some(k) => k,
            None => {
                return Err(RegistryError::UnknownGame);
            },
        };
        proof {
            let c = self.index_of(game_id);
            assert(self.entries@[c].id == game_id);
            if c != k {
                assert(self.entries@[c].id != self.entries@[k as int].id);
            }
        }
        Ok(copy_ids(&self.entries[k].players))
    }
}

/// The two frames every successful creation fans out: the creator's session
/// now references the game, and a snapshot of the game is available.
pub open spec fn creation_frames(game_id: i32) -> Seq<LobbyFrame> {
    seq![
        LobbyFrame::SessionUpdate { game_id: Some(game_id) },
        LobbyFrame::GameInfo { game_id },
    ]
}

impl GameRegistry {
    /// Handles a player's game creation once the store has persisted the
    /// row: registers the game as `Preparing` with no node, and directs the
    /// session-update and game-info frames to the creating host alone.
    pub fn handle_create_game(&mut self, game: &Game) -> (r: Result<CreateOutcome, RegistryError>)
        requires
            old(self).wf(),
            game.wf(),
            !old(self).contains_id(game.id),
        ensures
            match r {
                Ok(outcome) => {
                    &&& !old(self).host_has_active(game.host_player_id)
                    &&& final(self).entries@.len() == old(self).entries@.len() + 1
                    &&& forall|q: int|
                        0 <= q < old(self).entries@.len() ==> final(self).entries@[q] == old(
                            self,
                        ).entries@[q]
                    &&& entry_like(
                        final(self).entries@.last(),
                        game.id,
                        GameStatus::Preparing,
                        game.host_player_id,
                        game.players@,
                        None,
                    )
                    &&& final(self).wf()
                    &&& outcome.recipients@ == seq![game.host_player_id]
                    &&& outcome.frames@ == creation_frames(game.id)
                },
                Err(e) => {
                    &&& e == RegistryError::GameExistsForHost
                    &&& old(self).host_has_active(game.host_player_id)
                    &&& *final(self) == *old(self)
                },
            },
    {
        let reg = Register {
            id: game.id,
            status: GameStatus::Preparing,
            host_player: game.host_player_id,
            players: copy_ids(&game.players),
            node_id: None,
        };
        proof {
            assert(reg.players@ == game.players@);
        }
        match self.register(reg) {
            Ok(()) => {},
            Err(e) => {
                return Err(e);
            },
        }
        let mut recipients: Vec<i32> = Vec::new();
        recipients.push(game.host_player_id);
        let mut frames: Vec<LobbyFrame> = Vec::new();
        frames.push(LobbyFrame::SessionUpdate { game_id: Some(game.id) });
        frames.push(LobbyFrame::GameInfo { game_id: game.id });
        proof {
            assert(recipients@ =~= seq![game.host_player_id]);
            assert(frames@ =~= creation_frames(game.id));
        }
        Ok(CreateOutcome { recipients, frames })
    }

    /// Handles a bot-initiated creation: the node may come pre-assigned from
    /// the parameters, and the frames are broadcast to every member player.
    pub fn handle_create_game_as_bot(&mut self, game: &Game) -> (r: Result<
        CreateOutcome,
        RegistryError,
    >)
        requires
            old(self).wf(),
            game.wf(),
            !old(self).contains_id(game.id),
        ensures
            match r {
                Ok(outcome) => {
                    &&& !old(self).host_has_active(game.host_player_id)
                    &&& final(self).entries@.len() == old(self).entries@.len() + 1
                    &&& forall|q: int|
                        0 <= q < old(self).entries@.len() ==> final(self).entries@[q] == old(
                            self,
                        ).entries@[q]
                    &&& entry_like(
                        final(self).entries@.last(),
                        game.id,
                        GameStatus::Preparing,
                        game.host_player_id,
                        game.players@,
                        game.node_id,
                    )
                    &&& final(self).wf()
                    &&& outcome.recipients@ == game.players@
                    &&& outcome.frames@ == creation_frames(game.id)
                },
                Err(e) => {
                    &&& e == RegistryError::GameExistsForHost
                    &&& old(self).host_has_active(game.host_player_id)
                    &&& *final(self) == *old(self)
                },
            },
    {
        let reg = Register {
            id: game.id,
            status: GameStatus::Preparing,
            host_player: game.host_player_id,
            players: copy_ids(&game.players),
            node_id: game.node_id,
        };
        proof {
            assert(reg.players@ == game.players@);
        }
        match self.register(reg) {
            Ok(()) => {},
            Err(e) => {
                return Err(e);
            },
        }
        let recipients = copy_ids(&game.players);
        let mut frames: Vec<LobbyFrame> = Vec::new();
        frames.push(LobbyFrame::SessionUpdate { game_id: Some(game.id) });
        frames.push(LobbyFrame::GameInfo { game_id: game.id });
        proof {
            assert(frames@ =~= creation_frames(game.id));
        }
        Ok(CreateOutcome { recipients, frames })
    }
}

/// Law: a well-formed registry holds at most one active game per host — two
/// active entries with the same host are the same entry.
pub proof fn lemma_single_active_game_per_host(r: GameRegistry, a: int, b: int)
    requires
        r.wf(),
        0 <= a < r.entries@.len(),
        0 <= b < r.entries@.len(),
        active(r.entries@[a]),
        active(r.entries@[b]),
        r.entries@[a].host_player == r.entries@[b].host_player,
    ensures
        a == b,
{
}

/// Copies a list of player ids.
fn copy_ids(v: &Vec<i32>) -> (r: Vec<i32>)
    ensures
        r@ == v@,
{
    let mut r: Vec<i32> = Vec::new();
    let mut i: usize = 0;
    while i < v.len()
        invariant
            i <= v@.len(),
            r@ == v@.take(i as int),
        decreases v@.len() - i,
    {
        r.push(v[i]);
        proof {
            assert(v@.take(i + 1) =~= v@.take(i as int).push(v@[i as int]));
        }
        i = i + 1;
    }
    proof {
        assert(v@.take(v@.len() as int) =~= v@);
    }
    r
}

} // verus!
