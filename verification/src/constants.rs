//! Protocol constants of the W3GS LAN wire format: the packet type registry,
//! slot and AI discriminants, reject/leave/message codes, and the raw bitflag
//! values used by slot and game records. Bit-flag fields are carried as raw
//! integers and never normalized.

use vstd::prelude::*;

verus! {

/// W3GS magic number used in the packet header.
pub const PROTOCOL_SIG: u8 = 0xF7;

/// W3GS packet type identifier. Unknown ids decode into `UnknownValue` so
/// that unrecognized packets survive a decode/encode round trip.
#[derive(Debug, Clone, Copy, PartialEq, Eq, Structural)]
pub enum PacketTypeId {
    PingFromHost,
    SlotInfoJoin,
    RejectJoin,
    PlayerInfo,
    PlayerLeft,
    PlayerLoaded,
    SlotInfo,
    CountDownStart,
    CountDownEnd,
    IncomingAction,
    Desync,
    ChatFromHost,
    StartLag,
    StopLag,
    GameOver,
    PlayerKicked,
    LeaveAck,
    ReqJoin,
    LeaveReq,
    GameLoadedSelf,
    OutgoingAction,
    OutgoingKeepAlive,
    ChatToHost,
    DropReq,
    SearchGame,
    GameInfo,
    CreateGame,
    RefreshGame,
    DecreateGame,
    ChatFromOthers,
    PingFromOthers,
    PongToOthers,
    ClientInfo,
    PeerSet,
    MapCheck,
    StartDownload,
    MapSize,
    MapPart,
    MapPartOK,
    MapPartError,
    PongToHost,
    IncomingAction2,
    ProtoBuf,
    UnknownValue(u8),
}

impl PacketTypeId {
    /// The one-byte id this packet type is written as on the wire.
    pub open spec fn as_u8(self) -> u8 {
        match self {
            PacketTypeId::PingFromHost => 0x01,
            PacketTypeId::SlotInfoJoin => 0x04,
            PacketTypeId::RejectJoin => 0x05,
            PacketTypeId::PlayerInfo => 0x06,
            PacketTypeId::PlayerLeft => 0x07,
            PacketTypeId::PlayerLoaded => 0x08,
            PacketTypeId::SlotInfo => 0x09,
            PacketTypeId::CountDownStart => 0x0A,
            PacketTypeId::CountDownEnd => 0x0B,
            PacketTypeId::IncomingAction => 0x0C,
            PacketTypeId::Desync => 0x0D,
            PacketTypeId::ChatFromHost => 0x0F,
            PacketTypeId::StartLag => 0x10,
            PacketTypeId::StopLag => 0x11,
            PacketTypeId::GameOver => 0x14,
            PacketTypeId::PlayerKicked => 0x1C,
            PacketTypeId::LeaveAck => 0x1B,
            PacketTypeId::ReqJoin => 0x1E,
            PacketTypeId::LeaveReq => 0x21,
            PacketTypeId::GameLoadedSelf => 0x23,
            PacketTypeId::OutgoingAction => 0x26,
            PacketTypeId::OutgoingKeepAlive => 0x27,
            PacketTypeId::ChatToHost => 0x28,
            PacketTypeId::DropReq => 0x29,
            PacketTypeId::SearchGame => 0x2F,
            PacketTypeId::GameInfo => 0x30,
            PacketTypeId::CreateGame => 0x31,
            PacketTypeId::RefreshGame => 0x32,
            PacketTypeId::DecreateGame => 0x33,
            PacketTypeId::ChatFromOthers => 0x34,
            PacketTypeId::PingFromOthers => 0x35,
            PacketTypeId::PongToOthers => 0x36,
            PacketTypeId::ClientInfo => 0x37,
            PacketTypeId::PeerSet => 0x3B,
            PacketTypeId::MapCheck => 0x3D,
            PacketTypeId::StartDownload => 0x3F,
            PacketTypeId::MapSize => 0x42,
            PacketTypeId::MapPart => 0x43,
            PacketTypeId::MapPartOK => 0x44,
            PacketTypeId::MapPartError => 0x45,
            PacketTypeId::PongToHost => 0x46,
            PacketTypeId::IncomingAction2 => 0x48,
            PacketTypeId::ProtoBuf => 0x59,
            PacketTypeId::UnknownValue(b) => b,
        }
    }

    /// The packet type a one-byte wire id decodes to.
    pub open spec fn from_u8_spec(v: u8) -> PacketTypeId {
        if v == 0x01 {
            PacketTypeId::PingFromHost
        } else if v == 0x04 {
            PacketTypeId::SlotInfoJoin
        } else if v == 0x05 {
            PacketTypeId::RejectJoin
        } else if v == 0x06 {
            PacketTypeId::PlayerInfo
        } else if v == 0x07 {
            PacketTypeId::PlayerLeft
        } else if v == 0x08 {
            PacketTypeId::PlayerLoaded
        } else if v == 0x09 {
            PacketTypeId::SlotInfo
        } else if v == 0x0A {
            PacketTypeId::CountDownStart
        } else if v == 0x0B {
            PacketTypeId::CountDownEnd
        } else if v == 0x0C {
            PacketTypeId::IncomingAction
        } else if v == 0x0D {
            PacketTypeId::Desync
        } else if v == 0x0F {
            PacketTypeId::ChatFromHost
        } else if v == 0x10 {
            PacketTypeId::StartLag
        } else if v == 0x11 {
            PacketTypeId::StopLag
        } else if v == 0x14 {
            PacketTypeId::GameOver
        } else if v == 0x1C {
            PacketTypeId::PlayerKicked
        } else if v == 0x1B {
            PacketTypeId::LeaveAck
        } else if v == 0x1E {
            PacketTypeId::ReqJoin
        } else if v == 0x21 {
            PacketTypeId::LeaveReq
        } else if v == 0x23 {
            PacketTypeId::GameLoadedSelf
        } else if v == 0x26 {
            PacketTypeId::OutgoingAction
        } else if v == 0x27 {
            PacketTypeId::OutgoingKeepAlive
        } else if v == 0x28 {
            PacketTypeId::ChatToHost
        } else if v == 0x29 {
            PacketTypeId::DropReq
        } else if v == 0x2F {
            PacketTypeId::SearchGame
        } else if v == 0x30 {
            PacketTypeId::GameInfo
        } else if v == 0x31 {
            PacketTypeId::CreateGame
        } else if v == 0x32 {
            PacketTypeId::RefreshGame
        } else if v == 0x33 {
            PacketTypeId::DecreateGame
        } else if v == 0x34 {
            PacketTypeId::ChatFromOthers
        } else if v == 0x35 {
            PacketTypeId::PingFromOthers
        } else if v == 0x36 {
            PacketTypeId::PongToOthers
        } else if v == 0x37 {
            PacketTypeId::ClientInfo
        } else if v == 0x3B {
            PacketTypeId::PeerSet
        } else if v == 0x3D {
            PacketTypeId::MapCheck
        } else if v == 0x3F {
            PacketTypeId::StartDownload
        } else if v == 0x42 {
            PacketTypeId::MapSize
        } else if v == 0x43 {
            PacketTypeId::MapPart
        } else if v == 0x44 {
            PacketTypeId::MapPartOK
        } else if v == 0x45 {
            PacketTypeId::MapPartError
        } else if v == 0x46 {
            PacketTypeId::PongToHost
        } else if v == 0x48 {
            PacketTypeId::IncomingAction2
        } else if v == 0x59 {
            PacketTypeId::ProtoBuf
        } else {
            PacketTypeId::UnknownValue(v)
        }
    }

    /// A value is canonical when `UnknownValue` carries only ids that no
    /// named variant owns; decoding always yields canonical values.
    pub open spec fn wf(self) -> bool {
        match self {
            PacketTypeId::UnknownValue(b) => PacketTypeId::from_u8_spec(b) == PacketTypeId::UnknownValue(b),
            _ => true,
        }
    }

    /// Encodes this packet type as its wire id.
    pub fn to_u8(self) -> (v: u8)
        ensures
            v == self.as_u8(),
    {
        match self {
            PacketTypeId::PingFromHost => 0x01,
            PacketTypeId::SlotInfoJoin => 0x04,
            PacketTypeId::RejectJoin => 0x05,
            PacketTypeId::PlayerInfo => 0x06,
            PacketTypeId::PlayerLeft => 0x07,
            PacketTypeId::PlayerLoaded => 0x08,
            PacketTypeId::SlotInfo => 0x09,
            PacketTypeId::CountDownStart => 0x0A,
            PacketTypeId::CountDownEnd => 0x0B,
            PacketTypeId::IncomingAction => 0x0C,
            PacketTypeId::Desync => 0x0D,
            PacketTypeId::ChatFromHost => 0x0F,
            PacketTypeId::StartLag => 0x10,
            PacketTypeId::StopLag => 0x11,
            PacketTypeId::GameOver => 0x14,
            PacketTypeId::PlayerKicked => 0x1C,
            PacketTypeId::LeaveAck => 0x1B,
            PacketTypeId::ReqJoin => 0x1E,
            PacketTypeId::LeaveReq => 0x21,
            PacketTypeId::GameLoadedSelf => 0x23,
            PacketTypeId::OutgoingAction => 0x26,
            PacketTypeId::OutgoingKeepAlive => 0x27,
            PacketTypeId::ChatToHost => 0x28,
            PacketTypeId::DropReq => 0x29,
            PacketTypeId::SearchGame => 0x2F,
            PacketTypeId::GameInfo => 0x30,
            PacketTypeId::CreateGame => 0x31,
            PacketTypeId::RefreshGame => 0x32,
            PacketTypeId::DecreateGame => 0x33,
            PacketTypeId::ChatFromOthers => 0x34,
            PacketTypeId::PingFromOthers => 0x35,
            PacketTypeId::PongToOthers => 0x36,
            PacketTypeId::ClientInfo => 0x37,
            PacketTypeId::PeerSet => 0x3B,
            PacketTypeId::MapCheck => 0x3D,
            PacketTypeId::StartDownload => 0x3F,
            PacketTypeId::MapSize => 0x42,
            PacketTypeId::MapPart => 0x43,
            PacketTypeId::MapPartOK => 0x44,
            PacketTypeId::MapPartError => 0x45,
            PacketTypeId::PongToHost => 0x46,
            PacketTypeId::IncomingAction2 => 0x48,
            PacketTypeId::ProtoBuf => 0x59,
            PacketTypeId::UnknownValue(b) => b,
        }
    }

    /// Decodes a wire id into a packet type; ids outside the registry come
    /// back as `UnknownValue`.
    pub fn from_u8(v: u8) -> (t: PacketTypeId)
        ensures
            t == PacketTypeId::from_u8_spec(v),
            t.wf(),
            t.as_u8() == v,
    {
        match v {
            0x01 => PacketTypeId::PingFromHost,
            0x04 => PacketTypeId::SlotInfoJoin,
            0x05 => PacketTypeId::RejectJoin,
            0x06 => PacketTypeId::PlayerInfo,
            0x07 => PacketTypeId::PlayerLeft,
            0x08 => PacketTypeId::PlayerLoaded,
            0x09 => PacketTypeId::SlotInfo,
            0x0A => PacketTypeId::CountDownStart,
            0x0B => PacketTypeId::CountDownEnd,
            0x0C => PacketTypeId::IncomingAction,
            0x0D => PacketTypeId::Desync,
            0x0F => PacketTypeId::ChatFromHost,
            0x10 => PacketTypeId::StartLag,
            0x11 => PacketTypeId::StopLag,
            0x14 => PacketTypeId::GameOver,
            0x1C => PacketTypeId::PlayerKicked,
            0x1B => PacketTypeId::LeaveAck,
            0x1E => PacketTypeId::ReqJoin,
            0x21 => PacketTypeId::LeaveReq,
            0x23 => PacketTypeId::GameLoadedSelf,
            0x26 => PacketTypeId::OutgoingAction,
            0x27 => PacketTypeId::OutgoingKeepAlive,
            0x28 => PacketTypeId::ChatToHost,
            0x29 => PacketTypeId::DropReq,
            0x2F => PacketTypeId::SearchGame,
            0x30 => PacketTypeId::GameInfo,
            0x31 => PacketTypeId::CreateGame,
            0x32 => PacketTypeId::RefreshGame,
            0x33 => PacketTypeId::DecreateGame,
            0x34 => PacketTypeId::ChatFromOthers,
            0x35 => PacketTypeId::PingFromOthers,
            0x36 => PacketTypeId::PongToOthers,
            0x37 => PacketTypeId::ClientInfo,
            0x3B => PacketTypeId::PeerSet,
            0x3D => PacketTypeId::MapCheck,
            0x3F => PacketTypeId::StartDownload,
            0x42 => PacketTypeId::MapSize,
            0x43 => PacketTypeId::MapPart,
            0x44 => PacketTypeId::MapPartOK,
            0x45 => PacketTypeId::MapPartError,
            0x46 => PacketTypeId::PongToHost,
            0x48 => PacketTypeId::IncomingAction2,
            0x59 => PacketTypeId::ProtoBuf,
            _ => PacketTypeId::UnknownValue(v),
        }
    }
}

/// Every canonical packet type survives an encode/decode round trip.
pub proof fn lemma_packet_type_id_round_trip(t: PacketTypeId)
    requires
        t.wf(),
    ensures
        PacketTypeId::from_u8_spec(t.as_u8()) == t,
{
}

/// Every wire id survives a decode/encode round trip.
pub proof fn lemma_packet_type_u8_round_trip(v: u8)
    ensures
        PacketTypeId::from_u8_spec(v).as_u8() == v,
{
}

/// Sub-type byte of the `ProtoBuf` (0x59) envelope.
#[derive(Debug, Clone, Copy, PartialEq, Eq, Structural)]
pub enum ProtoBufMessageTypeId {
    Unknown2,
    PlayerProfile,
    PlayerSkins,
    PlayerUnknown5,
    UnknownValue(u8),
}

impl ProtoBufMessageTypeId {
    /// The one-byte sub-type id written on the wire.
    pub open spec fn as_u8(self) -> u8 {
        match self {
            ProtoBufMessageTypeId::Unknown2 => 0x02,
            ProtoBufMessageTypeId::PlayerProfile => 0x03,
            ProtoBufMessageTypeId::PlayerSkins => 0x04,
            ProtoBufMessageTypeId::PlayerUnknown5 => 0x05,
            ProtoBufMessageTypeId::UnknownValue(b) => b,
        }
    }

    /// The sub-type a one-byte wire id decodes to.
    pub open spec fn from_u8_spec(v: u8) -> ProtoBufMessageTypeId {
        if v == 0x02 {
            ProtoBufMessageTypeId::Unknown2
        } else if v == 0x03 {
            ProtoBufMessageTypeId::PlayerProfile
        } else if v == 0x04 {
            ProtoBufMessageTypeId::PlayerSkins
        } else if v == 0x05 {
            ProtoBufMessageTypeId::PlayerUnknown5
        } else {
            ProtoBufMessageTypeId::UnknownValue(v)
        }
    }

    /// Encodes this sub-type as its wire id.
    pub fn to_u8(self) -> (v: u8)
        ensures
            v == self.as_u8(),
    {
        match self {
            ProtoBufMessageTypeId::Unknown2 => 0x02,
            ProtoBufMessageTypeId::PlayerProfile => 0x03,
            ProtoBufMessageTypeId::PlayerSkins => 0x04,
            ProtoBufMessageTypeId::PlayerUnknown5 => 0x05,
            ProtoBufMessageTypeId::UnknownValue(b) => b,
        }
    }

    /// Decodes a wire id into a sub-type.
    pub fn from_u8(v: u8) -> (t: ProtoBufMessageTypeId)
        ensures
            t == ProtoBufMessageTypeId::from_u8_spec(v),
            t.as_u8() == v,
    {
        match v {
            0x02 => ProtoBufMessageTypeId::Unknown2,
            0x03 => ProtoBufMessageTypeId::PlayerProfile,
            0x04 => ProtoBufMessageTypeId::PlayerSkins,
            0x05 => ProtoBufMessageTypeId::PlayerUnknown5,
            _ => ProtoBufMessageTypeId::UnknownValue(v),
        }
    }
}

/// Status byte of a LAN slot record.
#[derive(Debug, Clone, Copy, PartialEq, Eq, Structural)]
pub enum SlotStatus {
    Open,
    Closed,
    Occupied,
    UnknownValue(u8),
}

impl SlotStatus {
    /// The one-byte status written on the wire.
    pub open spec fn as_u8(self) -> u8 {
        match self {
            SlotStatus::Open => 0,
            SlotStatus::Closed => 1,
            SlotStatus::Occupied => 2,
            SlotStatus::UnknownValue(b) => b,
        }
    }

    /// The status a one-byte wire value decodes to.
    pub open spec fn from_u8_spec(v: u8) -> SlotStatus {
        if v == 0 {
            SlotStatus::Open
        } else if v == 1 {
            SlotStatus::Closed
        } else if v == 2 {
            SlotStatus::Occupied
        } else {
            SlotStatus::UnknownValue(v)
        }
    }

    /// A value is canonical when `UnknownValue` carries only bytes that no
    /// named variant owns; decoding always yields canonical values.
    pub open spec fn wf(self) -> bool {
        match self {
            SlotStatus::UnknownValue(b) => b != 0 && b != 1 && b != 2,
            _ => true,
        }
    }

    /// Encodes this status as its wire value.
    pub fn to_u8(self) -> (v: u8)
        ensures
            v == self.as_u8(),
    {
        match self {
            SlotStatus::Open => 0,
            SlotStatus::Closed => 1,
            SlotStatus::Occupied => 2,
            SlotStatus::UnknownValue(b) => b,
        }
    }

    /// Decodes a wire value into a status.
    pub fn from_u8(v: u8) -> (s: SlotStatus)
        ensures
            s == SlotStatus::from_u8_spec(v),
            s.as_u8() == v,
    {
        match v {
            0 => SlotStatus::Open,
            1 => SlotStatus::Closed,
            2 => SlotStatus::Occupied,
            _ => SlotStatus::UnknownValue(v),
        }
    }
}

/// Difficulty byte of a computer-controlled slot.
#[derive(Debug, Clone, Copy, PartialEq, Eq, Structural)]
pub enum AI {
    ComputerEasy,
    ComputerNormal,
    ComputerInsane,
    UnknownValue(u8),
}

impl AI {
    /// The one-byte difficulty written on the wire.
    pub open spec fn as_u8(self) -> u8 {
        match self {
            AI::ComputerEasy => 0,
            AI::ComputerNormal => 1,
            AI::ComputerInsane => 2,
            AI::UnknownValue(b) => b,
        }
    }

    /// The difficulty a one-byte wire value decodes to.
    pub open spec fn from_u8_spec(v: u8) -> AI {
        if v == 0 {
            AI::ComputerEasy
        } else if v == 1 {
            AI::ComputerNormal
        } else if v == 2 {
            AI::ComputerInsane
        } else {
            AI::UnknownValue(v)
        }
    }

    /// A value is canonical when `UnknownValue` carries only bytes that no
    /// named variant owns; decoding always yields canonical values.
    pub open spec fn wf(self) -> bool {
        match self {
            AI::UnknownValue(b) => b != 0 && b != 1 && b != 2,
            _ => true,
        }
    }

    /// Encodes this difficulty as its wire value.
    pub fn to_u8(self) -> (v: u8)
        ensures
            v == self.as_u8(),
    {
        match self {
            AI::ComputerEasy => 0,
            AI::ComputerNormal => 1,
            AI::ComputerInsane => 2,
            AI::UnknownValue(b) => b,
        }
    }

    /// Decodes a wire value into a difficulty.
    pub fn from_u8(v: u8) -> (a: AI)
        ensures
            a == AI::from_u8_spec(v),
            a.as_u8() == v,
    {
        match v {
            0 => AI::ComputerEasy,
            1 => AI::ComputerNormal,
            2 => AI::ComputerInsane,
            _ => AI::UnknownValue(v),
        }
    }
}

/// Reason byte carried by a `RejectJoin` packet.
#[derive(Debug, Clone, Copy, PartialEq, Eq, Structural)]
pub enum RejectReason {
    JoinInvalid,
    JoinFull,
    JoinStarted,
    JoinWrongKey,
}

impl RejectReason {
    /// The one-byte reason written on the wire.
    pub open spec fn as_u8(self) -> u8 {
        match self {
            RejectReason::JoinInvalid => 0x07,
            RejectReason::JoinFull => 0x09,
            RejectReason::JoinStarted => 0x0A,
            RejectReason::JoinWrongKey => 0x1B,
        }
    }

    /// Encodes this reason as its wire value.
    pub fn to_u8(self) -> (v: u8)
        ensures
            v == self.as_u8(),
    {
        match self {
            RejectReason::JoinInvalid => 0x07,
            RejectReason::JoinFull => 0x09,
            RejectReason::JoinStarted => 0x0A,
            RejectReason::JoinWrongKey => 0x1B,
        }
    }
}

/// Reason byte carried by a `LeaveReq`/`PlayerLeft` packet.
#[derive(Debug, Clone, Copy, PartialEq, Eq, Structural)]
pub enum LeaveReason {
    LeaveDisconnect,
    LeaveLost,
    LeaveLostBuildings,
    LeaveWon,
    LeaveDraw,
    LeaveObserver,
    LeaveInvalidSaveGame,
    LeaveLobby,
}

impl LeaveReason {
    /// The one-byte reason written on the wire.
    pub open spec fn as_u8(self) -> u8 {
        match self {
            LeaveReason::LeaveDisconnect => 0x01,
            LeaveReason::LeaveLost => 0x07,
            LeaveReason::LeaveLostBuildings => 0x08,
            LeaveReason::LeaveWon => 0x09,
            LeaveReason::LeaveDraw => 0x0A,
            LeaveReason::LeaveObserver => 0x0B,
            LeaveReason::LeaveInvalidSaveGame => 0x0C,
            LeaveReason::LeaveLobby => 0x0D,
        }
    }

    /// Encodes this reason as its wire value.
    pub fn to_u8(self) -> (v: u8)
        ensures
            v == self.as_u8(),
    {
        match self {
            LeaveReason::LeaveDisconnect => 0x01,
            LeaveReason::LeaveLost => 0x07,
            LeaveReason::LeaveLostBuildings => 0x08,
            LeaveReason::LeaveWon => 0x09,
            LeaveReason::LeaveDraw => 0x0A,
            LeaveReason::LeaveObserver => 0x0B,
            LeaveReason::LeaveInvalidSaveGame => 0x0C,
            LeaveReason::LeaveLobby => 0x0D,
        }
    }
}

/// Kind byte of an in-lobby chat/config message.
#[derive(Debug, Clone, Copy, PartialEq, Eq, Structural)]
pub enum MessageType {
    Chat,
    TeamChange,
    ColorChange,
    RaceChange,
    HandicapChange,
    ChatExtra,
}

impl MessageType {
    /// The one-byte kind written on the wire.
    pub open spec fn as_u8(self) -> u8 {
        match self {
            MessageType::Chat => 0x10,
            MessageType::TeamChange => 0x11,
            MessageType::ColorChange => 0x12,
            MessageType::RaceChange => 0x13,
            MessageType::HandicapChange => 0x14,
            MessageType::ChatExtra => 0x20,
        }
    }

    /// Encodes this kind as its wire value.
    pub fn to_u8(self) -> (v: u8)
        ensures
            v == self.as_u8(),
    {
        match self {
            MessageType::Chat => 0x10,
            MessageType::TeamChange => 0x11,
            MessageType::ColorChange => 0x12,
            MessageType::RaceChange => 0x13,
            MessageType::HandicapChange => 0x14,
            MessageType::ChatExtra => 0x20,
        }
    }
}

// Race-preference bitflags of a slot record (a raw set over u8).
pub const RACE_HUMAN: u8 = 0x01;

pub const RACE_ORC: u8 = 0x02;

pub const RACE_NIGHTELF: u8 = 0x04;

pub const RACE_UNDEAD: u8 = 0x08;

pub const RACE_DEMON: u8 = 0x10;

pub const RACE_RANDOM: u8 = 0x20;

pub const RACE_SELECTABLE: u8 = 0x40;

// Slot-layout bitflags of a `SlotInfo` record.
pub const SLOT_LAYOUT_MELEE: u32 = 0x00;

pub const SLOT_LAYOUT_CUSTOM_FORCES: u32 = 0x01;

pub const SLOT_LAYOUT_FIXED_PLAYER_SETTINGS: u32 = 0x02;

pub const SLOT_LAYOUT_LADDER: u32 = 0xCC;

// Game bitflags of an advertised game (a raw set over u32).
pub const GAME_FLAG_CUSTOM_GAME: u32 = 0x000001;

pub const GAME_FLAG_SINGLE_PLAYER: u32 = 0x000005;

pub const GAME_FLAG_LADDER_1V1: u32 = 0x000010;

pub const GAME_FLAG_LADDER_2V2: u32 = 0x000020;

pub const GAME_FLAG_LADDER_3V3: u32 = 0x000040;

pub const GAME_FLAG_LADDER_4V4: u32 = 0x000080;

pub const GAME_FLAG_SAVED_GAME: u32 = 0x000200;

pub const GAME_FLAG_TYPE_MASK: u32 = 0x0002F5;

pub const GAME_FLAG_SIGNED_MAP: u32 = 0x000008;

pub const GAME_FLAG_PRIVATE_GAME: u32 = 0x000800;

pub const GAME_FLAG_CREATOR_USER: u32 = 0x002000;

pub const GAME_FLAG_CREATOR_BLIZZARD: u32 = 0x004000;

pub const GAME_FLAG_CREATOR_MASK: u32 = 0x006000;

pub const GAME_FLAG_MAP_TYPE_MELEE: u32 = 0x008000;

pub const GAME_FLAG_MAP_TYPE_SCENARIO: u32 = 0x010000;

pub const GAME_FLAG_MAP_TYPE_MASK: u32 = 0x018000;

pub const GAME_FLAG_SIZE_SMALL: u32 = 0x020000;

pub const GAME_FLAG_SIZE_MEDIUM: u32 = 0x040000;

pub const GAME_FLAG_SIZE_LARGE: u32 = 0x080000;

pub const GAME_FLAG_SIZE_MASK: u32 = 0x0E0000;

pub const GAME_FLAG_OBS_FULL: u32 = 0x100000;

pub const GAME_FLAG_OBS_ON_DEFEAT: u32 = 0x200000;

pub const GAME_FLAG_OBS_NONE: u32 = 0x400000;

pub const GAME_FLAG_OBS_MASK: u32 = 0x700000;

// Game-setting bitflags of a lobby's configuration (a raw set over u32).
pub const GAME_SETTING_SPEED_SLOW: u32 = 0x00000000;

pub const GAME_SETTING_SPEED_NORMAL: u32 = 0x00000001;

pub const GAME_SETTING_SPEED_FAST: u32 = 0x00000002;

pub const GAME_SETTING_SPEED_MASK: u32 = 0x0000000F;

pub const GAME_SETTING_TERRAIN_HIDDEN: u32 = 0x00000100;

pub const GAME_SETTING_TERRAIN_EXPLORED: u32 = 0x00000200;

pub const GAME_SETTING_TERRAIN_VISIBLE: u32 = 0x00000400;

pub const GAME_SETTING_TERRAIN_DEFAULT: u32 = 0x00000800;

pub const GAME_SETTING_TERRAIN_MASK: u32 = 0x00000F00;

pub const GAME_SETTING_OBS_NONE: u32 = 0x00000000;

pub const GAME_SETTING_OBS_ENABLED: u32 = 0x00001000;

pub const GAME_SETTING_OBS_ON_DEFEAT: u32 = 0x00002000;

pub const GAME_SETTING_OBS_FULL: u32 = 0x00003000;

pub const GAME_SETTING_OBS_REFEREES: u32 = 0x40000000;

pub const GAME_SETTING_OBS_MASK: u32 = 0x40003000;

pub const GAME_SETTING_TEAMS_TOGETHER: u32 = 0x00004000;

pub const GAME_SETTING_TEAMS_FIXED: u32 = 0x00060000;

pub const GAME_SETTING_SHARED_CONTROL: u32 = 0x01000000;

pub const GAME_SETTING_RANDOM_HERO: u32 = 0x02000000;

pub const GAME_SETTING_RANDOM_RACE: u32 = 0x04000000;

} // verus!
