use flo_core::constants::{LeaveReason, MessageType, RejectReason, SlotStatus, AI,
    GAME_FLAG_CREATOR_MASK, GAME_FLAG_CREATOR_USER, GAME_FLAG_OBS_FULL, GAME_FLAG_OBS_MASK,
    GAME_FLAG_OBS_NONE, GAME_FLAG_OBS_ON_DEFEAT, GAME_SETTING_OBS_MASK,
    GAME_SETTING_OBS_REFEREES, GAME_SETTING_SPEED_FAST, GAME_SETTING_TERRAIN_DEFAULT,
    PROTOCOL_SIG, RACE_HUMAN, RACE_ORC, RACE_RANDOM, RACE_SELECTABLE,
    SLOT_LAYOUT_CUSTOM_FORCES, SLOT_LAYOUT_LADDER};

#[test]
fn protocol_signature() {
    assert_eq!(PROTOCOL_SIG, 0xF7);
}

#[test]
fn slot_status_wire_values() {
    assert_eq!(SlotStatus::Open.to_u8(), 0);
    assert_eq!(SlotStatus::Closed.to_u8(), 1);
    assert_eq!(SlotStatus::Occupied.to_u8(), 2);
    assert_eq!(SlotStatus::from_u8(2), SlotStatus::Occupied);
    assert_eq!(SlotStatus::from_u8(9), SlotStatus::UnknownValue(9));
    assert_eq!(SlotStatus::UnknownValue(9).to_u8(), 9);
}

#[test]
fn ai_wire_values() {
    assert_eq!(AI::ComputerEasy.to_u8(), 0);
    assert_eq!(AI::ComputerNormal.to_u8(), 1);
    assert_eq!(AI::ComputerInsane.to_u8(), 2);
    assert_eq!(AI::from_u8(1), AI::ComputerNormal);
    assert_eq!(AI::from_u8(7), AI::UnknownValue(7));
}

#[test]
fn reject_reason_wire_values() {
    assert_eq!(RejectReason::JoinInvalid.to_u8(), 0x07);
    assert_eq!(RejectReason::JoinFull.to_u8(), 0x09);
    assert_eq!(RejectReason::JoinStarted.to_u8(), 0x0A);
    assert_eq!(RejectReason::JoinWrongKey.to_u8(), 0x1B);
}

#[test]
fn leave_reason_wire_values() {
    assert_eq!(LeaveReason::LeaveDisconnect.to_u8(), 0x01);
    assert_eq!(LeaveReason::LeaveLost.to_u8(), 0x07);
    assert_eq!(LeaveReason::LeaveLostBuildings.to_u8(), 0x08);
    assert_eq!(LeaveReason::LeaveWon.to_u8(), 0x09);
    assert_eq!(LeaveReason::LeaveDraw.to_u8(), 0x0A);
    assert_eq!(LeaveReason::LeaveObserver.to_u8(), 0x0B);
    assert_eq!(LeaveReason::LeaveInvalidSaveGame.to_u8(), 0x0C);
    assert_eq!(LeaveReason::LeaveLobby.to_u8(), 0x0D);
}

#[test]
fn message_type_wire_values() {
    assert_eq!(MessageType::Chat.to_u8(), 0x10);
    assert_eq!(MessageType::TeamChange.to_u8(), 0x11);
    assert_eq!(MessageType::ColorChange.to_u8(), 0x12);
    assert_eq!(MessageType::RaceChange.to_u8(), 0x13);
    assert_eq!(MessageType::HandicapChange.to_u8(), 0x14);
    assert_eq!(MessageType::ChatExtra.to_u8(), 0x20);
}

#[test]
fn race_and_layout_bitflags() {
    assert_eq!(RACE_HUMAN, 0x01);
    assert_eq!(RACE_ORC, 0x02);
    assert_eq!(RACE_RANDOM, 0x20);
    assert_eq!(RACE_SELECTABLE, 0x40);
    assert_eq!(SLOT_LAYOUT_CUSTOM_FORCES, 0x01);
    assert_eq!(SLOT_LAYOUT_LADDER, 0xCC);
}

#[test]
fn game_bitflag_masks_cover_their_members() {
    assert_eq!(
        GAME_FLAG_OBS_FULL | GAME_FLAG_OBS_ON_DEFEAT | GAME_FLAG_OBS_NONE,
        GAME_FLAG_OBS_MASK
    );
    assert_eq!(GAME_FLAG_CREATOR_USER & GAME_FLAG_CREATOR_MASK, GAME_FLAG_CREATOR_USER);
    assert_eq!(GAME_SETTING_SPEED_FAST, 0x00000002);
    assert_eq!(GAME_SETTING_TERRAIN_DEFAULT, 0x00000800);
    assert_eq!(GAME_SETTING_OBS_REFEREES & GAME_SETTING_OBS_MASK, GAME_SETTING_OBS_REFEREES);
}
