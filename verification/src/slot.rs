//! The slot planner: computes the 24-slot LAN `SlotInfo` from a platform
//! game's seat list, places the synthetic stream-observer slot when one is
//! available, and resolves the caller's own slot.
//!
//! Player ids are one-based and always equal the slot index plus one. Race,
//! color, team and handicap bytes are copied verbatim. The observer slot,
//! when present, sits at index 23 and never displaces a seat that is not
//! open there.

use vstd::prelude::*;

use crate::codec::SlotData;
use crate::codec::SlotInfo;
use crate::constants::AI;
use crate::constants::RACE_RANDOM;
use crate::constants::SlotStatus;

verus! {

/// Index of the synthetic stream-observer slot.
pub const STREAM_OB_SLOT_INDEX: usize = 23;

/// Turns a zero-based slot index into the one-based LAN player id.
pub fn index_to_player_id(index: usize) -> (id: u8)
    requires
        index < 24,
    ensures
        id == index + 1,
{
    (index + 1) as u8
}

/// A platform player sitting in a seat.
#[derive(Debug, Clone)]
pub struct PlayerRef {
    pub id: i32,
    pub name: String,
}

/// Settings of one platform seat. The race byte is a raw bitflag set.
#[derive(Debug, Clone, Copy)]
pub struct SlotSettings {
    pub status: SlotStatus,
    pub team: u8,
    pub color: u8,
    pub race: u8,
    pub handicap: u8,
    pub computer: AI,
}

/// One platform seat: its settings and, for a human seat, its player.
#[derive(Debug, Clone)]
pub struct Slot {
    pub player: Option<PlayerRef>,
    pub settings: SlotSettings,
}

/// The caller a slot plan is computed for: a seated player, or the synthetic
/// stream observer.
#[derive(Debug, Clone, Copy, PartialEq, Eq, Structural)]
pub enum SelfPlayer {
    Player(i32),
    StreamObserver,
}

impl From<i32> for SelfPlayer {
    /// A plain player id names a player caller.
    fn from(id: i32) -> (r: SelfPlayer) {
        SelfPlayer::Player(id)
    }
}

impl vstd::std_specs::convert::FromSpecImpl<i32> for SelfPlayer {
    open spec fn obeys_from_spec() -> bool {
        true
    }

    open spec fn from_spec(id: i32) -> SelfPlayer {
        SelfPlayer::Player(id)
    }
}

/// One row of the plan's player table: where a platform player ended up.
#[derive(Debug, Clone)]
pub struct LanSlotPlayerInfo {
    pub slot_player_id: u8,
    pub slot_index: usize,
    pub player_id: i32,
    pub name: String,
}

/// The planner's output: the caller's LAN player id and slot, the full wire
/// slot layout, the player table, and the stream-observer slot if placed.
#[derive(Debug, Clone)]
pub struct LanSlotInfo {
    pub my_slot_player_id: u8,
    pub slot_info: SlotInfo,
    pub my_slot: SlotData,
    pub player_infos: Vec<LanSlotPlayerInfo>,
    pub stream_ob_slot: Option<usize>,
}

/// Failures of the slot planner; each is fatal to the join attempt.
#[derive(Debug, Clone, Copy, PartialEq, Eq, Structural)]
pub enum SlotError {
    /// The seat list holds no occupied seat.
    NoPlayerSlot,
    /// The caller is the stream observer but all 24 seats are occupied.
    NoVacantSlotForObserver,
    /// The caller matches no seat of the plan.
    SelfNotResolved,
}

/// An occupied platform seat.
pub open spec fn occupied(s: Slot) -> bool {
    s.settings.status == SlotStatus::Occupied
}

/// How many seats of the list are occupied.
pub open spec fn occupied_count(s: Seq<Slot>) -> int
    decreases s.len(),
{
    if s.len() == 0 {
        0
    } else {
        occupied_count(s.drop_last()) + if occupied(s.last()) {
            1int
        } else {
            0int
        }
    }
}

/// How many occupied seats sit on a playing team (team 24 is the observers').
pub open spec fn num_players_of(s: Seq<Slot>) -> int
    decreases s.len(),
{
    if s.len() == 0 {
        0
    } else {
        num_players_of(s.drop_last()) + if occupied(s.last()) && s.last().settings.team != 24 {
            1int
        } else {
            0int
        }
    }
}

/// Whether the game already holds a human observer (an occupied seat on
/// team 24).
pub open spec fn has_obs_player(s: Seq<Slot>) -> bool {
    exists|i: int| 0 <= i < s.len() && occupied(#[trigger] s[i]) && s[i].settings.team == 24
}

/// Whether seat 23 is free for the synthetic observer: absent from the input
/// or explicitly open. A closed or occupied seat there is never displaced.
pub open spec fn ob_slot_open(s: Seq<Slot>) -> bool {
    s.len() <= 23 || s[23].settings.status == SlotStatus::Open
}

/// The stream-observer slot the plan ends with. A stream-observer caller asks
/// for it unconditionally; a player caller only when no human observer is
/// already seated. Either way it is dropped when seat 23 is not open.
pub open spec fn ob_slot_of(sp: SelfPlayer, s: Seq<Slot>) -> Option<int> {
    let requested = match sp {
        SelfPlayer::StreamObserver => true,
        SelfPlayer::Player(_) => !has_obs_player(s),
    };
    if requested && ob_slot_open(s) {
        Some(23int)
    } else {
        None
    }
}

/// The fresh slot record every output slot starts as.
pub open spec fn default_slot() -> SlotData {
    SlotData {
        player_id: 0,
        download_status: 0,
        slot_status: SlotStatus::Open,
        computer: false,
        team: 0,
        color: 0,
        race: 0,
        computer_type: AI::ComputerEasy,
        handicap: 0,
    }
}

/// The record an occupied seat is written as: a human seat gets its one-based
/// player id and full download; a computer seat gets the computer mark and
/// its difficulty. Race, color, team and handicap are copied verbatim.
pub open spec fn placed_slot(s: Slot, i: int) -> SlotData {
    SlotData {
        player_id: if s.player is Some {
            (i + 1) as u8
        } else {
            0
        },
        download_status: 100,
        slot_status: SlotStatus::Occupied,
        computer: s.player is None,
        team: s.settings.team,
        color: s.settings.color,
        race: s.settings.race,
        computer_type: if s.player is Some {
            AI::ComputerEasy
        } else {
            s.settings.computer
        },
        handicap: s.settings.handicap,
    }
}

/// Output slot `i` after every occupied seat is placed, before the observer
/// slot is written.
pub open spec fn planned_slot(s: Seq<Slot>, i: int) -> SlotData {
    if 0 <= i < s.len() && occupied(s[i]) {
        placed_slot(s[i], i)
    } else {
        default_slot()
    }
}

/// The record the synthetic stream observer occupies: seat 24, team 24,
/// random race, color 0.
pub open spec fn ob_slot_data() -> SlotData {
    SlotData {
        player_id: 24,
        download_status: 0,
        slot_status: SlotStatus::Occupied,
        computer: false,
        team: 24,
        color: 0,
        race: RACE_RANDOM,
        computer_type: AI::ComputerEasy,
        handicap: 0,
    }
}

/// Output slot `i` of the finished plan.
pub open spec fn final_slot(sp: SelfPlayer, s: Seq<Slot>, i: int) -> SlotData {
    if ob_slot_of(sp, s) is Some && i == 23 {
        ob_slot_data()
    } else {
        planned_slot(s, i)
    }
}

/// Whether seat `j` of the input seats platform player `pid`.
pub open spec fn seat_matches(s: Seq<Slot>, j: int, pid: i32) -> bool {
    s[j].player is Some && s[j].player->0.id == pid
}

/// No seat below `m` seats platform player `pid`.
pub open spec fn no_seat_match_below(s: Seq<Slot>, m: int, pid: i32) -> bool {
    forall|j: int| 0 <= j < m ==> !(#[trigger] seat_matches(s, j, pid))
}

/// No output slot with index in `[m, 24)` sits on the observer team.
pub open spec fn no_team24_from(sp: SelfPlayer, s: Seq<Slot>, m: int) -> bool {
    forall|i: int| m <= i < 24 ==> (#[trigger] final_slot(sp, s, i)).team != 24
}

/// The indices of the occupied human seats, in increasing order.
pub open spec fn human_indices(s: Seq<Slot>) -> Seq<int>
    decreases s.len(),
{
    if s.len() == 0 {
        Seq::empty()
    } else {
        let rest = human_indices(s.drop_last());
        if occupied(s.last()) && s.last().player is Some {
            rest.push(s.len() - 1)
        } else {
            rest
        }
    }
}

/// Every listed index names an occupied human seat of the input.
pub proof fn lemma_human_indices_range(s: Seq<Slot>)
    ensures
        forall|k: int|
            0 <= k < human_indices(s).len() ==> {
                let i = #[trigger] human_indices(s)[k];
                &&& 0 <= i < s.len()
                &&& occupied(s[i])
                &&& s[i].player is Some
            },
    decreases s.len(),
{
    if s.len() > 0 {
        lemma_human_indices_range(s.drop_last());
    }
}

/// The expected fields of row `k` of the player table.
pub open spec fn player_info_matches(s: Seq<Slot>, k: int, info: LanSlotPlayerInfo) -> bool {
    let i = human_indices(s)[k];
    &&& info.slot_index == i
    &&& info.slot_player_id == i + 1
    &&& info.player_id == s[i].player->0.id
    &&& info.name@ == s[i].player->0.name@
}

/// Computes the LAN slot plan of a platform seat list.
///
/// On success: the 24 output slots carry every occupied seat at its own
/// index, the observer slot when kept, and fresh records elsewhere; the
/// player table lists the occupied human seats in order; and the caller's
/// slot is resolved (a player by seat scan, the stream observer by the
/// highest team-24 slot). Failures, in order of precedence: no occupied
/// seat; a stream-observer caller with all 24 seats occupied; a caller that
/// matches no seat.
pub fn build_player_slot_info(self_player: SelfPlayer, random_seed: i32, slots: &Vec<Slot>) -> (r:
    Result<LanSlotInfo, SlotError>)
    requires
        slots@.len() <= 24,
    ensures
        match r {
            Ok(plan) => {
                let s = slots@;
                let my_idx = plan.my_slot_player_id - 1;
                &&& occupied_count(s) > 0
                &&& plan.slot_info.wf()
                &&& plan.slot_info.random_seed == random_seed
                &&& plan.slot_info.num_players == num_players_of(s)
                &&& plan.slot_info.slot_layout == 0
                &&& forall|i: int|
                    0 <= i < 24 ==> #[trigger] plan.slot_info.slots@[i] == final_slot(
                        self_player,
                        s,
                        i,
                    )
                &&& (plan.stream_ob_slot is Some) == (ob_slot_of(self_player, s) is Some)
                &&& (plan.stream_ob_slot is Some ==> plan.stream_ob_slot->0 == 23)
                &&& plan.player_infos@.len() == human_indices(s).len()
                &&& forall|k: int|
                    0 <= k < human_indices(s).len() ==> player_info_matches(
                        s,
                        k,
                        #[trigger] plan.player_infos@[k],
                    )
                &&& 0 <= my_idx < 24
                &&& plan.my_slot == plan.slot_info.slots@[my_idx]
                &&& match self_player {
                    SelfPlayer::Player(pid) => {
                        &&& my_idx < s.len()
                        &&& seat_matches(s, my_idx, pid)
                        &&& no_seat_match_below(s, my_idx as int, pid)
                    },
                    SelfPlayer::StreamObserver => {
                        &&& final_slot(self_player, s, my_idx).team == 24
                        &&& no_team24_from(self_player, s, my_idx + 1)
                    },
                }
            },
            Err(e) => {
                let s = slots@;
                match e {
                    SlotError::NoPlayerSlot => occupied_count(s) == 0,
                    SlotError::NoVacantSlotForObserver => {
                        &&& occupied_count(s) > 0
                        &&& self_player == SelfPlayer::StreamObserver
                        &&& occupied_count(s) > 23
                    },
                    SlotError::SelfNotResolved => {
                        &&& occupied_count(s) > 0
                        &&& match self_player {
                            SelfPlayer::Player(pid) => no_seat_match_below(
                                s,
                                s.len() as int,
                                pid,
                            ),
                            SelfPlayer::StreamObserver => {
                                &&& occupied_count(s) <= 23
                                &&& no_team24_from(self_player, s, 0)
                            },
                        }
                    },
                }
            },
        },
{
    let n = slots.len();
    let mut occupied_n: usize = 0;
    let mut players_n: usize = 0;
    let mut has_obs: bool = false;
    let mut i: usize = 0;
    while i < n
        invariant
            n == slots@.len() <= 24,
            i <= n,
            occupied_n == occupied_count(slots@.take(i as int)),
            players_n == num_players_of(slots@.take(i as int)),
            has_obs == has_obs_player(slots@.take(i as int)),
            occupied_n <= i,
            players_n <= i,
        decreases n - i,
    {
        proof {
            assert(slots@.take(i + 1).drop_last() =~= slots@.take(i as int));
            assert(slots@.take(i + 1).last() == slots@[i as int]);
        }
        let seat = &slots[i];
        if matches!(seat.settings.status, SlotStatus::Occupied) {
            occupied_n = occupied_n + 1;
            if seat.settings.team != 24 {
                players_n = players_n + 1;
            } else {
                has_obs = true;
            }
        }
        proof {
            let t = slots@.take(i + 1);
            if has_obs_player(t) && !has_obs_player(slots@.take(i as int)) {
                let w = choose|k: int|
                    0 <= k < t.len() && occupied(#[trigger] t[k]) && t[k].settings.team == 24;
                assert(w == i);
            }
            if has_obs_player(slots@.take(i as int)) {
                let w = choose|k: int|
                    0 <= k < i && occupied(#[trigger] slots@.take(i as int)[k]) && slots@.take(
                        i as int,
                    )[k].settings.team == 24;
                assert(0 <= w < t.len() && occupied(t[w]) && t[w].settings.team == 24);
            }
        }
        i = i + 1;
    }
    proof {
        assert(slots@.take(n as int) =~= slots@);
    }
    if occupied_n == 0 {
        return Err(SlotError::NoPlayerSlot);
    }
    let ob_requested: bool = match self_player {
        SelfPlayer::StreamObserver => {
            if occupied_n > 23 {
                return Err(SlotError::NoVacantSlotForObserver);
            }
            true
        },
        SelfPlayer::Player(_) => !has_obs,
    };
    let ob_open: bool = n <= STREAM_OB_SLOT_INDEX || matches!(
        slots[STREAM_OB_SLOT_INDEX].settings.status,
        SlotStatus::Open,
    );
    let ob_kept: bool = ob_requested && ob_open;
    proof {
        assert(ob_kept == (ob_slot_of(self_player, slots@) is Some));
    }
    let mut out_slots: Vec<SlotData> = Vec::new();
    let mut i: usize = 0;
    while i < 24
        invariant
            n == slots@.len() <= 24,
            i <= 24,
            out_slots@.len() == i,
            forall|k: int| 0 <= k < i ==> out_slots@[k] == planned_slot(slots@, k),
        decreases 24 - i,
    {
        if i < n && matches!(slots[i].settings.status, SlotStatus::Occupied) {
            let seat = &slots[i];
            let is_human = seat.player.is_some();
            out_slots.push(
                SlotData {
                    player_id: if is_human {
                        index_to_player_id(i)
                    } else {
                        0
                    },
                    download_status: 100,
                    slot_status: SlotStatus::Occupied,
                    computer: !is_human,
                    team: seat.settings.team,
                    color: seat.settings.color,
                    race: seat.settings.race,
                    computer_type: if is_human {
                        AI::ComputerEasy
                    } else {
                        seat.settings.computer
                    },
                    handicap: seat.settings.handicap,
                },
            );
        } else {
            out_slots.push(
                SlotData {
                    player_id: 0,
                    download_status: 0,
                    slot_status: SlotStatus::Open,
                    computer: false,
                    team: 0,
                    color: 0,
                    race: 0,
                    computer_type: AI::ComputerEasy,
                    handicap: 0,
                },
            );
        }
        i = i + 1;
    }
    if ob_kept {
        out_slots.set(
            STREAM_OB_SLOT_INDEX,
            SlotData {
                player_id: 24,
                download_status: 0,
                slot_status: SlotStatus::Occupied,
                computer: false,
                team: 24,
                color: 0,
                race: RACE_RANDOM,
                computer_type: AI::ComputerEasy,
                handicap: 0,
            },
        );
        proof {
            assert(planned_slot(slots@, 23) == default_slot());
            assert(out_slots@[23] == ob_slot_data());
        }
    }
    proof {
        assert(forall|k: int|
            0 <= k < 24 ==> out_slots@[k] == final_slot(self_player, slots@, k));
    }
    let slot_info = SlotInfo {
        slots: out_slots,
        random_seed,
        slot_layout: 0,
        num_players: players_n as u8,
    };
    let mut player_infos: Vec<LanSlotPlayerInfo> = Vec::new();
    let mut i: usize = 0;
    while i < n
        invariant
            n == slots@.len() <= 24,
            i <= n,
            player_infos@.len() == human_indices(slots@.take(i as int)).len(),
            forall|k: int|
                0 <= k < player_infos@.len() ==> player_info_matches(
                    slots@,
                    k,
                    #[trigger] player_infos@[k],
                ),
            forall|k: int|
                0 <= k < human_indices(slots@.take(i as int)).len() ==> #[trigger] human_indices(
                    slots@.take(i as int),
                )[k] == human_indices(slots@)[k],
        decreases n - i,
    {
        let ghost a = human_indices(slots@.take(i as int));
        let ghost b = human_indices(slots@.take(i + 1));
        proof {
            assert(slots@.take(i + 1).drop_last() =~= slots@.take(i as int));
            assert(slots@.take(i + 1).last() == slots@[i as int]);
            lemma_human_indices_prefix(slots@, i + 1);
            if occupied(slots@[i as int]) && slots@[i as int].player is Some {
                assert(b =~= a.push(i as int));
            } else {
                assert(b =~= a);
            }
        }
        let seat = &slots[i];
        if matches!(seat.settings.status, SlotStatus::Occupied) {
            if let Some(p) = &seat.player {
                player_infos.push(
                    LanSlotPlayerInfo {
                        slot_player_id: index_to_player_id(i),
                        slot_index: i,
                        player_id: p.id,
                        name: p.name.clone(),
                    },
                );
                proof {
                    assert(b[a.len() as int] == i);
                    assert(human_indices(slots@)[a.len() as int] == i);
                }
            }
        }
        i = i + 1;
    }
    proof {
        assert(slots@.take(n as int) =~= slots@);
    }
    let my_idx: usize = match self_player {
        SelfPlayer::Player(pid) => {
            let mut j: usize = 0;
            let mut found: Option<usize> = None;
            while j < n
                invariant
                    n == slots@.len(),
                    j <= n,
                    match found {
                        Some(f) => {
                            &&& f < j
                            &&& seat_matches(slots@, f as int, pid)
                            &&& forall|q: int| 0 <= q < f ==> !seat_matches(slots@, q, pid)
                        },
                        None => forall|q: int| 0 <= q < j ==> !seat_matches(slots@, q, pid),
                    },
                decreases n - j,
            {
                if found.is_none() {
                    let seat = &slots[j];
                    if let Some(p) = &seat.player {
                        if p.id == pid {
                            found = Some(j);
                        }
                    }
                }
                j = j + 1;
            }
            match found {
                Some(f) => f,
                None => {
                    return Err(SlotError::SelfNotResolved);
                },
            }
        },
        SelfPlayer::StreamObserver => {
            let mut j: usize = 24;
            let mut found: Option<usize> = None;
            while j > 0
                invariant
                    j <= 24,
                    slot_info.slots@.len() == 24,
                    forall|k: int|
                        0 <= k < 24 ==> slot_info.slots@[k] == final_slot(self_player, slots@, k),
                    match found {
                        Some(f) => {
                            &&& j <= f < 24
                            &&& final_slot(self_player, slots@, f as int).team == 24
                            &&& forall|q: int|
                                f < q < 24 ==> final_slot(self_player, slots@, q).team != 24
                        },
                        None => forall|q: int|
                            j <= q < 24 ==> final_slot(self_player, slots@, q).team != 24,
                    },
                decreases j,
            {
                if found.is_none() {
                    if slot_info.slots[j - 1].team == 24 {
                        found = Some(j - 1);
                    }
                }
                j = j - 1;
            }
            match found {
                Some(f) => f,
                None => {
                    return Err(SlotError::SelfNotResolved);
                },
            }
        },
    };
    let my_slot = slot_info.slots[my_idx];
    let my_slot_player_id = index_to_player_id(my_idx);
    Ok(
        LanSlotInfo {
            my_slot_player_id,
            slot_info,
            my_slot,
            player_infos,
            stream_ob_slot: if ob_kept {
                Some(23)
            } else {
                None
            },
        },
    )
}

/// A prefix of the seat list contributes a prefix of the human-seat indices.
proof fn lemma_human_indices_prefix(s: Seq<Slot>, m: int)
    requires
        0 <= m <= s.len(),
    ensures
        human_indices(s.take(m)).len() <= human_indices(s).len(),
        forall|k: int|
            0 <= k < human_indices(s.take(m)).len() ==> #[trigger] human_indices(s.take(m))[k]
                == human_indices(s)[k],
    decreases s.len() - m,
{
    if m < s.len() {
        lemma_human_indices_prefix(s, m + 1);
        assert(s.take(m + 1).drop_last() =~= s.take(m));
        assert(s.take(m + 1).last() == s[m]);
        let a = human_indices(s.take(m));
        let b = human_indices(s.take(m + 1));
        if occupied(s[m]) && s[m].player is Some {
            assert(b =~= a.push(m));
        } else {
            assert(b =~= a);
        }
        assert(forall|k: int| 0 <= k < a.len() ==> a[k] == b[k]);
    } else {
        assert(s.take(m) =~= s);
    }
}

} // verus!
