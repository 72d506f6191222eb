use flo_core::constants::{SlotStatus, AI, RACE_RANDOM};
use flo_core::slot::{build_player_slot_info, index_to_player_id, PlayerRef, SelfPlayer, Slot,
    SlotError, SlotSettings};

fn open_slot() -> Slot {
    Slot {
        player: None,
        settings: SlotSettings {
            status: SlotStatus::Open,
            team: 0,
            color: 0,
            race: 0,
            handicap: 100,
            computer: AI::ComputerEasy,
        },
    }
}

fn closed_slot() -> Slot {
    let mut s = open_slot();
    s.settings.status = SlotStatus::Closed;
    s
}

fn player_slot(id: i32, name: &str, team: u8, color: u8) -> Slot {
    Slot {
        player: Some(PlayerRef {
            id,
            name: name.to_string(),
        }),
        settings: SlotSettings {
            status: SlotStatus::Occupied,
            team,
            color,
            race: RACE_RANDOM,
            handicap: 100,
            computer: AI::ComputerEasy,
        },
    }
}

#[test]
fn index_to_player_id_is_one_based() {
    assert_eq!(index_to_player_id(0), 1);
    assert_eq!(index_to_player_id(22), 23);
    assert_eq!(index_to_player_id(23), 24);
}

#[test]
fn plan_without_observer_in_game() {
    // Four occupied player seats on teams 0, 0, 1, 1, one closed seat, the
    // rest open; the caller sits in seat 2.
    let mut slots = vec![
        player_slot(101, "alpha", 0, 0),
        player_slot(102, "bravo", 0, 1),
        player_slot(103, "charlie", 1, 2),
        player_slot(104, "delta", 1, 3),
        closed_slot(),
    ];
    while slots.len() < 24 {
        slots.push(open_slot());
    }
    let plan = build_player_slot_info(SelfPlayer::Player(103), 7, &slots).unwrap();
    assert_eq!(plan.my_slot_player_id, 3);
    assert_eq!(plan.slot_info.num_players, 4);
    assert_eq!(plan.slot_info.random_seed, 7);
    assert_eq!(plan.stream_ob_slot, Some(23));
    for i in 0..4 {
        let s = &plan.slot_info.slots[i];
        assert_eq!(s.player_id, (i + 1) as u8);
        assert_eq!(s.slot_status, SlotStatus::Occupied);
        assert_eq!(s.download_status, 100);
        assert!(!s.computer);
    }
    assert_eq!(plan.slot_info.slots[0].team, 0);
    assert_eq!(plan.slot_info.slots[1].team, 0);
    assert_eq!(plan.slot_info.slots[2].team, 1);
    assert_eq!(plan.slot_info.slots[3].team, 1);
    let ob = &plan.slot_info.slots[23];
    assert_eq!(ob.team, 24);
    assert_eq!(ob.race, RACE_RANDOM);
    assert_eq!(ob.color, 0);
    assert_eq!(ob.slot_status, SlotStatus::Occupied);
    assert_eq!(ob.player_id, 24);
    // The untouched middle stays open.
    assert_eq!(plan.slot_info.slots[10].slot_status, SlotStatus::Open);
    // The player table lists the four human seats in order.
    assert_eq!(plan.player_infos.len(), 4);
    assert_eq!(plan.player_infos[2].player_id, 103);
    assert_eq!(plan.player_infos[2].slot_index, 2);
    assert_eq!(plan.player_infos[2].slot_player_id, 3);
    assert_eq!(plan.player_infos[2].name, "charlie");
    assert_eq!(plan.my_slot, plan.slot_info.slots[2]);
}

#[test]
fn plan_with_observer_already_present() {
    // An occupied seat on team 24 (a real human observer): the synthetic
    // observer slot is not added.
    let slots = vec![
        player_slot(1, "host", 0, 0),
        player_slot(2, "watcher", 24, 1),
    ];
    let plan = build_player_slot_info(SelfPlayer::Player(1), 0, &slots).unwrap();
    assert_eq!(plan.stream_ob_slot, None);
    assert_eq!(plan.slot_info.slots[23].slot_status, SlotStatus::Open);
    assert_eq!(plan.slot_info.slots[23].team, 0);
    assert_eq!(plan.slot_info.num_players, 1);
}

#[test]
fn plan_with_observer_slot_closed() {
    // Seat 23 is closed: the observer slot is dropped silently and seat 23
    // is left untouched.
    let mut slots = vec![player_slot(1, "host", 0, 0)];
    while slots.len() < 23 {
        slots.push(open_slot());
    }
    slots.push(closed_slot());
    let plan = build_player_slot_info(SelfPlayer::Player(1), 0, &slots).unwrap();
    assert_eq!(plan.stream_ob_slot, None);
    let s23 = &plan.slot_info.slots[23];
    assert_eq!(s23.slot_status, SlotStatus::Open);
    assert_eq!(s23.team, 0);
    assert_eq!(s23.player_id, 0);
}

#[test]
fn observer_caller_with_full_game() {
    // A stream-observer caller with all 24 seats occupied is refused.
    let mut slots = Vec::new();
    for i in 0..24 {
        slots.push(player_slot(100 + i as i32, "p", 0, i as u8));
    }
    let err = build_player_slot_info(SelfPlayer::StreamObserver, 0, &slots).unwrap_err();
    assert_eq!(err, SlotError::NoVacantSlotForObserver);
}

#[test]
fn observer_caller_takes_slot_24() {
    let slots = vec![player_slot(1, "host", 0, 0), player_slot(2, "peer", 1, 1)];
    let plan = build_player_slot_info(SelfPlayer::StreamObserver, 0, &slots).unwrap();
    assert_eq!(plan.stream_ob_slot, Some(23));
    // The caller resolves to the highest slot on team 24: the observer's.
    assert_eq!(plan.my_slot_player_id, 24);
    assert_eq!(plan.my_slot.team, 24);
    assert_eq!(plan.slot_info.num_players, 2);
}

#[test]
fn no_player_slot_at_all() {
    let slots = vec![open_slot(), closed_slot()];
    let err = build_player_slot_info(SelfPlayer::Player(1), 0, &slots).unwrap_err();
    assert_eq!(err, SlotError::NoPlayerSlot);
}

#[test]
fn self_not_resolved() {
    let slots = vec![player_slot(1, "host", 0, 0)];
    let err = build_player_slot_info(SelfPlayer::Player(99), 0, &slots).unwrap_err();
    assert_eq!(err, SlotError::SelfNotResolved);
}

#[test]
fn computer_seat_is_placed_as_computer() {
    let mut comp = open_slot();
    comp.settings.status = SlotStatus::Occupied;
    comp.settings.team = 1;
    comp.settings.color = 5;
    comp.settings.computer = AI::ComputerInsane;
    let slots = vec![player_slot(1, "host", 0, 0), comp];
    let plan = build_player_slot_info(SelfPlayer::Player(1), 0, &slots).unwrap();
    let c = &plan.slot_info.slots[1];
    assert!(c.computer);
    assert_eq!(c.computer_type, AI::ComputerInsane);
    assert_eq!(c.player_id, 0);
    assert_eq!(c.slot_status, SlotStatus::Occupied);
    assert_eq!(c.color, 5);
    // Computer seats do not appear in the player table.
    assert_eq!(plan.player_infos.len(), 1);
    assert_eq!(plan.slot_info.num_players, 2);
}

#[test]
fn self_player_from_id() {
    let sp = SelfPlayer::from(7);
    assert_eq!(sp, SelfPlayer::Player(7));
}
