//! W3GS wire codec: a bit-exact framing layer for the LAN game protocol.
//!
//! Every frame begins with the header `[0xF7, type_id, length: u16 LE]` where
//! `length` counts the whole frame, header included. Unknown type ids decode
//! into `PacketTypeId::UnknownValue` carrying the raw payload, so unrecognized
//! packets survive a decode/encode round trip byte for byte.
//!
//! The module also carries the composite `SlotInfo` payload: a `u32` LE length
//! of the following bytes, a slot count, 24 nine-byte slot records, a random
//! seed (`i32` LE), a layout byte and a player count.

use vstd::prelude::*;

use crate::constants::AI;
use crate::constants::PROTOCOL_SIG;
use crate::constants::PacketTypeId;
use crate::constants::SlotStatus;

verus! {

/// Failures of the wire codec. All are reported to the caller; none aborts.
#[derive(Debug, Clone, Copy, PartialEq, Eq, Structural)]
pub enum CodecError {
    /// Byte 0 of the frame is not the protocol signature 0xF7.
    BadSignature,
    /// Fewer bytes are available than the header, or than the declared length.
    ShortFrame,
    /// The declared frame length is smaller than the header itself.
    LengthUnderflow,
    /// An embedded length field disagrees with the actual remainder.
    LengthMismatch,
}

/// The little-endian value of two bytes.
pub open spec fn le16_val(lo: u8, hi: u8) -> int {
    lo + 256 * hi
}

/// The two little-endian bytes of a value below 2^16.
pub open spec fn u16_le_of(n: int) -> Seq<u8> {
    seq![(n % 256) as u8, ((n / 256) % 256) as u8]
}

/// The little-endian value of four bytes.
pub open spec fn le32_val(b0: u8, b1: u8, b2: u8, b3: u8) -> int {
    b0 + 256 * b1 + 65536 * b2 + 16777216 * b3
}

/// The four little-endian bytes of a value below 2^32.
pub open spec fn u32_le_of(n: int) -> Seq<u8> {
    seq![
        (n % 256) as u8,
        ((n / 256) % 256) as u8,
        ((n / 65536) % 256) as u8,
        ((n / 16777216) % 256) as u8,
    ]
}

/// The unsigned 32-bit image of a signed 32-bit value (two's complement).
pub open spec fn i32_bits(x: int) -> int {
    if x >= 0 {
        x
    } else {
        x + 0x1_0000_0000
    }
}

/// The four little-endian bytes of a signed 32-bit value.
pub open spec fn i32_le_of(x: int) -> Seq<u8> {
    u32_le_of(i32_bits(x))
}

/// A W3GS frame: a typed header and the raw, type-specific payload.
#[derive(Debug, Clone)]
pub struct Packet {
    pub type_id: PacketTypeId,
    pub payload: Vec<u8>,
}

impl Packet {
    /// The declared length of the frame: header plus payload.
    pub open spec fn wire_len(self) -> int {
        4 + self.payload@.len() as int
    }

    /// The exact bytes this packet is written as.
    pub open spec fn wire_bytes(self) -> Seq<u8> {
        seq![PROTOCOL_SIG, self.type_id.as_u8()] + u16_le_of(self.wire_len()) + self.payload@
    }

    /// Encodable packets: the type id is canonical and the frame length fits
    /// the 16-bit length field.
    pub open spec fn wf(self) -> bool {
        &&& self.type_id.wf()
        &&& self.wire_len() <= 0xFFFF
    }
}

/// Whether a byte string starts with one complete, well-formed frame.
pub open spec fn decode_ok(b: Seq<u8>) -> bool {
    &&& b.len() >= 4
    &&& b[0] == PROTOCOL_SIG
    &&& le16_val(b[2], b[3]) >= 4
    &&& le16_val(b[2], b[3]) <= b.len()
}

/// The declared frame length of a byte string (defined when `b.len() >= 4`).
pub open spec fn frame_len(b: Seq<u8>) -> int {
    le16_val(b[2], b[3])
}

/// The error a malformed byte string decodes to.
pub open spec fn decode_err(b: Seq<u8>) -> CodecError {
    if b.len() >= 1 && b[0] != PROTOCOL_SIG {
        CodecError::BadSignature
    } else if b.len() < 4 {
        CodecError::ShortFrame
    } else if frame_len(b) < 4 {
        CodecError::LengthUnderflow
    } else {
        CodecError::ShortFrame
    }
}

/// Encodes a packet as one wire frame.
pub fn encode(p: &Packet) -> (out: Vec<u8>)
    requires
        p.wire_len() <= 0xFFFF,
    ensures
        out@ == p.wire_bytes(),
{
    let mut out: Vec<u8> = Vec::new();
    out.push(PROTOCOL_SIG);
    out.push(p.type_id.to_u8());
    let total: u16 = (p.payload.len() + 4) as u16;
    out.push((total % 256) as u8);
    out.push((total / 256) as u8);
    let ghost head: Seq<u8> = out@;
    let mut i: usize = 0;
    while i < p.payload.len()
        invariant
            i <= p.payload@.len(),
            out@ == head + p.payload@.subrange(0, i as int),
        decreases p.payload@.len() - i,
    {
        let b = p.payload[i];
        out.push(b);
        proof {
            assert(p.payload@.subrange(0, i + 1) =~= p.payload@.subrange(0, i as int).push(b));
        }
        i = i + 1;
    }
    proof {
        assert(p.payload@.subrange(0, p.payload@.len() as int) =~= p.payload@);
        assert(out@ =~= p.wire_bytes());
    }
    out
}

/// Decodes one frame from the front of a byte string, returning the packet
/// and the number of bytes consumed.
///
/// On success the re-encoding of the result is exactly the consumed prefix
/// of the input, so decoding either fails cleanly or yields a packet whose
/// encoding is a prefix of (or equal to) the input.
pub fn decode(bytes: &Vec<u8>) -> (r: Result<(Packet, usize), CodecError>)
    ensures
        match r {
            Ok(pn) => {
                &&& decode_ok(bytes@)
                &&& pn.1 == frame_len(bytes@)
                &&& pn.0.wf()
                &&& pn.0.type_id == PacketTypeId::from_u8_spec(bytes@[1])
                &&& pn.0.payload@ == bytes@.subrange(4, pn.1 as int)
                &&& pn.0.wire_bytes() == bytes@.subrange(0, pn.1 as int)
            },
            Err(e) => {
                &&& !decode_ok(bytes@)
                &&& e == decode_err(bytes@)
            },
        },
{
    if bytes.len() >= 1 && bytes[0] != PROTOCOL_SIG {
        return Err(CodecError::BadSignature);
    }
    if bytes.len() < 4 {
        return Err(CodecError::ShortFrame);
    }
    let lo = bytes[2];
    let hi = bytes[3];
    let total: usize = lo as usize + 256 * (hi as usize);
    if total < 4 {
        return Err(CodecError::LengthUnderflow);
    }
    if total > bytes.len() {
        return Err(CodecError::ShortFrame);
    }
    let type_id = PacketTypeId::from_u8(bytes[1]);
    let mut payload: Vec<u8> = Vec::new();
    let mut i: usize = 4;
    while i < total
        invariant
            4 <= i <= total,
            total <= bytes@.len(),
            payload@ == bytes@.subrange(4, i as int),
        decreases total - i,
    {
        let b = bytes[i];
        payload.push(b);
        proof {
            assert(bytes@.subrange(4, i + 1) =~= bytes@.subrange(4, i as int).push(b));
        }
        i = i + 1;
    }
    let p = Packet { type_id, payload };
    proof {
        assert(p.wire_len() == total);
        assert(total % 256 == lo as int && total / 256 == hi as int) by (nonlinear_arith)
            requires
                total == lo as int + 256 * (hi as int),
                0 <= lo < 256,
                0 <= hi < 256,
        ;
        assert(p.wire_bytes() =~= bytes@.subrange(0, total as int));
    }
    Ok((p, total))
}

/// Law: a well-formed packet survives an encode/decode round trip. The frame
/// produced by `encode` decodes successfully, consumes the whole frame, and
/// pins the decoded type id and payload to the originals.
pub proof fn lemma_packet_round_trip(p: Packet)
    requires
        p.wf(),
    ensures
        decode_ok(p.wire_bytes()),
        frame_len(p.wire_bytes()) == p.wire_len(),
        PacketTypeId::from_u8_spec(p.wire_bytes()[1]) == p.type_id,
        p.wire_bytes().subrange(4, p.wire_len()) == p.payload@,
{
    let b = p.wire_bytes();
    let n = p.wire_len();
    assert(b[2] == (n % 256) as u8 && b[3] == ((n / 256) % 256) as u8);
    assert(le16_val(b[2], b[3]) == n) by (nonlinear_arith)
        requires
            4 <= n <= 0xFFFF,
            b[2] == (n % 256) as u8,
            b[3] == ((n / 256) % 256) as u8,
    ;
    crate::constants::lemma_packet_type_id_round_trip(p.type_id);
    assert(b.subrange(4, n) =~= p.payload@);
}

/// One nine-byte LAN slot record.
#[derive(Debug, Clone, Copy, PartialEq, Eq, Structural)]
pub struct SlotData {
    pub player_id: u8,
    pub download_status: u8,
    pub slot_status: SlotStatus,
    pub computer: bool,
    pub team: u8,
    pub color: u8,
    pub race: u8,
    pub computer_type: AI,
    pub handicap: u8,
}

impl SlotData {
    /// The nine wire bytes of this record, in protocol order.
    pub open spec fn wire_bytes(self) -> Seq<u8> {
        seq![
            self.player_id,
            self.download_status,
            self.slot_status.as_u8(),
            if self.computer { 1u8 } else { 0u8 },
            self.team,
            self.color,
            self.race,
            self.computer_type.as_u8(),
            self.handicap,
        ]
    }

    /// Records whose enum fields are canonical; decoding always yields them.
    pub open spec fn wf(self) -> bool {
        &&& self.slot_status.wf()
        &&& self.computer_type.wf()
    }

    /// Appends the nine wire bytes of this record.
    pub fn encode_into(&self, out: &mut Vec<u8>)
        ensures
            final(out)@ == old(out)@ + self.wire_bytes(),
    {
        out.push(self.player_id);
        out.push(self.download_status);
        out.push(self.slot_status.to_u8());
        out.push(if self.computer { 1 } else { 0 });
        out.push(self.team);
        out.push(self.color);
        out.push(self.race);
        out.push(self.computer_type.to_u8());
        out.push(self.handicap);
        proof {
            assert(out@ =~= old(out)@ + self.wire_bytes());
        }
    }
}

/// The record nine bytes decode to (defined when `b.len() == 9`). A nonzero
/// computer byte reads as true.
pub open spec fn slot_data_of(b: Seq<u8>) -> SlotData {
    SlotData {
        player_id: b[0],
        download_status: b[1],
        slot_status: SlotStatus::from_u8_spec(b[2]),
        computer: b[3] != 0,
        team: b[4],
        color: b[5],
        race: b[6],
        computer_type: AI::from_u8_spec(b[7]),
        handicap: b[8],
    }
}

/// Reads the nine-byte slot record at `offset`.
pub fn decode_slot_data(bytes: &Vec<u8>, offset: usize) -> (s: SlotData)
    requires
        offset + 9 <= bytes@.len(),
    ensures
        s == slot_data_of(bytes@.subrange(offset as int, offset + 9)),
{
    let len = bytes.len();
    assert(offset + 9 <= len);
    let s = SlotData {
        player_id: bytes[offset],
        download_status: bytes[offset + 1],
        slot_status: SlotStatus::from_u8(bytes[offset + 2]),
        computer: bytes[offset + 3] != 0,
        team: bytes[offset + 4],
        color: bytes[offset + 5],
        race: bytes[offset + 6],
        computer_type: AI::from_u8(bytes[offset + 7]),
        handicap: bytes[offset + 8],
    };
    proof {
        let b = bytes@.subrange(offset as int, offset + 9);
        assert(b[0] == bytes@[offset as int] && b[1] == bytes@[offset + 1] && b[2] == bytes@[
            offset + 2
        ] && b[3] == bytes@[offset + 3] && b[4] == bytes@[offset + 4] && b[5] == bytes@[offset + 5]
            && b[6] == bytes@[offset + 6] && b[7] == bytes@[offset + 7] && b[8] == bytes@[offset
            + 9 - 1]);
    }
    s
}

/// Law: a canonical slot record survives an encode/decode round trip.
pub proof fn lemma_slot_data_round_trip(s: SlotData)
    requires
        s.wf(),
    ensures
        slot_data_of(s.wire_bytes()) == s,
{
}

/// The concatenated wire bytes of a sequence of slot records.
pub open spec fn slots_wire_bytes(s: Seq<SlotData>) -> Seq<u8>
    decreases s.len(),
{
    if s.len() == 0 {
        Seq::empty()
    } else {
        slots_wire_bytes(s.drop_last()) + s.last().wire_bytes()
    }
}

/// Each slot record contributes exactly nine bytes.
pub proof fn lemma_slots_wire_bytes_len(s: Seq<SlotData>)
    ensures
        slots_wire_bytes(s).len() == 9 * s.len(),
    decreases s.len(),
{
    if s.len() > 0 {
        lemma_slots_wire_bytes_len(s.drop_last());
    }
}

/// The bytes of record `k` stand at offset `9 * k` of the concatenation.
pub proof fn lemma_slots_wire_bytes_index(s: Seq<SlotData>, k: int)
    requires
        0 <= k < s.len(),
    ensures
        slots_wire_bytes(s).subrange(9 * k, 9 * k + 9) == s[k].wire_bytes(),
    decreases s.len(),
{
    lemma_slots_wire_bytes_len(s);
    lemma_slots_wire_bytes_len(s.drop_last());
    if k == s.len() - 1 {
        assert(slots_wire_bytes(s).subrange(9 * k, 9 * k + 9) =~= s[k].wire_bytes());
    } else {
        lemma_slots_wire_bytes_index(s.drop_last(), k);
        assert(slots_wire_bytes(s).subrange(9 * k, 9 * k + 9) =~= slots_wire_bytes(
            s.drop_last(),
        ).subrange(9 * k, 9 * k + 9));
    }
}

/// The wire image of the 24-slot layout sent in `SlotInfoJoin`/`SlotInfo`.
#[derive(Debug, Clone)]
pub struct SlotInfo {
    pub slots: Vec<SlotData>,
    pub random_seed: i32,
    pub slot_layout: u8,
    pub num_players: u8,
}

impl SlotInfo {
    /// A slot info always carries exactly 24 slot records.
    pub open spec fn wf(self) -> bool {
        self.slots@.len() == 24
    }

    /// The bytes that follow the embedded length field.
    pub open spec fn inner_bytes(self) -> Seq<u8> {
        seq![self.slots@.len() as u8] + slots_wire_bytes(self.slots@) + i32_le_of(
            self.random_seed as int,
        ) + seq![self.slot_layout, self.num_players]
    }

    /// The exact wire bytes: the length of the remainder, then the remainder.
    /// The length is computed, never taken from input.
    pub open spec fn wire_bytes(self) -> Seq<u8> {
        u32_le_of(self.inner_bytes().len() as int) + self.inner_bytes()
    }
}

/// Encodes a slot info as the payload of a slot-carrying packet.
pub fn encode_slot_info(info: &SlotInfo) -> (out: Vec<u8>)
    requires
        info.wf(),
    ensures
        out@ == info.wire_bytes(),
        out@.len() == 227,
{
    proof {
        lemma_slots_wire_bytes_len(info.slots@);
        assert(info.inner_bytes().len() == 223);
    }
    let mut out: Vec<u8> = Vec::new();
    // 223 = 1 (slot count) + 24 * 9 (records) + 4 (seed) + 1 (layout) + 1 (players)
    out.push(223);
    out.push(0);
    out.push(0);
    out.push(0);
    out.push(24);
    let ghost head: Seq<u8> = out@;
    let mut i: usize = 0;
    while i < info.slots.len()
        invariant
            i <= info.slots@.len(),
            info.slots@.len() == 24,
            out@ == head + slots_wire_bytes(info.slots@.take(i as int)),
        decreases info.slots@.len() - i,
    {
        info.slots[i].encode_into(&mut out);
        proof {
            assert(info.slots@.take(i + 1).drop_last() =~= info.slots@.take(i as int));
            assert(info.slots@.take(i + 1).last() == info.slots@[i as int]);
        }
        i = i + 1;
    }
    proof {
        assert(info.slots@.take(info.slots@.len() as int) =~= info.slots@);
    }
    let wide: i64 = info.random_seed as i64;
    let bits: u32 = if wide >= 0 {
        wide as u32
    } else {
        (wide + 0x1_0000_0000i64) as u32
    };
    proof {
        assert(bits as int == i32_bits(info.random_seed as int));
    }
    out.push((bits % 256) as u8);
    out.push(((bits / 256) % 256) as u8);
    out.push(((bits / 65536) % 256) as u8);
    out.push(((bits / 16777216) % 256) as u8);
    out.push(info.slot_layout);
    out.push(info.num_players);
    proof {
        assert(out@ =~= info.wire_bytes());
    }
    out
}

/// Whether a byte string is exactly one well-formed slot-info payload.
pub open spec fn slot_info_decode_ok(b: Seq<u8>) -> bool {
    &&& b.len() >= 5
    &&& le32_val(b[0], b[1], b[2], b[3]) == b.len() - 4
    &&& b.len() - 5 == 6 + 9 * b[4]
}

/// The error a malformed slot-info payload decodes to.
pub open spec fn slot_info_decode_err(b: Seq<u8>) -> CodecError {
    if b.len() < 4 {
        CodecError::ShortFrame
    } else if le32_val(b[0], b[1], b[2], b[3]) != b.len() - 4 {
        CodecError::LengthMismatch
    } else if b.len() < 5 {
        CodecError::ShortFrame
    } else {
        CodecError::LengthMismatch
    }
}

/// The nine bytes of slot record `k` inside a slot-info payload.
pub open spec fn slot_record_bytes(b: Seq<u8>, k: int) -> Seq<u8> {
    b.subrange(5 + 9 * k, 14 + 9 * k)
}

/// Decodes a whole slot-info payload. The embedded length must match the
/// remainder exactly; a disagreement fails with `LengthMismatch`.
pub fn decode_slot_info(bytes: &Vec<u8>) -> (r: Result<SlotInfo, CodecError>)
    ensures
        match r {
            Ok(info) => {
                &&& slot_info_decode_ok(bytes@)
                &&& info.slots@.len() == bytes@[4]
                &&& forall|k: int|
                    0 <= k < info.slots@.len() ==> info.slots@[k] == slot_data_of(
                        #[trigger] slot_record_bytes(bytes@, k),
                    )
                &&& i32_bits(info.random_seed as int) == le32_val(
                    bytes@[bytes@.len() - 6],
                    bytes@[bytes@.len() - 5],
                    bytes@[bytes@.len() - 4],
                    bytes@[bytes@.len() - 3],
                )
                &&& info.slot_layout == bytes@[bytes@.len() - 2]
                &&& info.num_players == bytes@[bytes@.len() - 1]
            },
            Err(e) => {
                &&& !slot_info_decode_ok(bytes@)
                &&& e == slot_info_decode_err(bytes@)
            },
        },
{
    if bytes.len() < 4 {
        return Err(CodecError::ShortFrame);
    }
    let inner: u64 = bytes[0] as u64 + 256 * (bytes[1] as u64) + 65536 * (bytes[2] as u64)
        + 16777216 * (bytes[3] as u64);
    if inner != (bytes.len() - 4) as u64 {
        return Err(CodecError::LengthMismatch);
    }
    if bytes.len() < 5 {
        return Err(CodecError::ShortFrame);
    }
    let num_slots = bytes[4];
    if bytes.len() - 5 != 6 + 9 * (num_slots as usize) {
        return Err(CodecError::LengthMismatch);
    }
    let n = num_slots as usize;
    let mut slots: Vec<SlotData> = Vec::new();
    let mut i: usize = 0;
    while i < n
        invariant
            i <= n,
            n <= 255,
            bytes@.len() == 11 + 9 * n,
            slots@.len() == i,
            forall|k: int|
                0 <= k < i ==> slots@[k] == slot_data_of(#[trigger] slot_record_bytes(bytes@, k)),
        decreases n - i,
    {
        let s = decode_slot_data(bytes, 5 + 9 * i);
        slots.push(s);
        i = i + 1;
    }
    let tail = bytes.len() - 6;
    let bits: u32 = bytes[tail] as u32 + 256 * (bytes[tail + 1] as u32) + 65536 * (bytes[tail
        + 2] as u32) + 16777216 * (bytes[tail + 3] as u32);
    let random_seed: i32 = if bits <= 0x7FFF_FFFF {
        bits as i32
    } else {
        ((bits as i64) - 0x1_0000_0000i64) as i32
    };
    let info = SlotInfo {
        slots,
        random_seed,
        slot_layout: bytes[tail + 4],
        num_players: bytes[tail + 5],
    };
    Ok(info)
}

/// Builds the `SlotInfoJoin` reply a host answers a join request with: one
/// frame whose payload is the wire image of the slot plan.
pub fn slot_info_join_packet(info: &SlotInfo) -> (p: Packet)
    requires
        info.wf(),
    ensures
        p.wf(),
        p.type_id == PacketTypeId::SlotInfoJoin,
        p.payload@ == info.wire_bytes(),
{
    Packet { type_id: PacketTypeId::SlotInfoJoin, payload: encode_slot_info(info) }
}

/// Law: a well-formed slot info survives an encode/decode round trip: its
/// wire image is accepted, and every decoded field equals the original
/// (slot records up to canonicality of their enum bytes).
pub proof fn lemma_slot_info_round_trip(info: SlotInfo)
    requires
        info.wf(),
        forall|k: int| 0 <= k < info.slots@.len() ==> (#[trigger] info.slots@[k]).wf(),
    ensures
        slot_info_decode_ok(info.wire_bytes()),
        info.wire_bytes()[4] == info.slots@.len(),
        forall|k: int|
            0 <= k < info.slots@.len() ==> slot_data_of(
                #[trigger] slot_record_bytes(info.wire_bytes(), k),
            ) == info.slots@[k],
        le32_val(
            info.wire_bytes()[info.wire_bytes().len() - 6],
            info.wire_bytes()[info.wire_bytes().len() - 5],
            info.wire_bytes()[info.wire_bytes().len() - 4],
            info.wire_bytes()[info.wire_bytes().len() - 3],
        ) == i32_bits(info.random_seed as int),
        info.wire_bytes()[info.wire_bytes().len() - 2] == info.slot_layout,
        info.wire_bytes()[info.wire_bytes().len() - 1] == info.num_players,
{
    lemma_slots_wire_bytes_len(info.slots@);
    let b = info.wire_bytes();
    assert(info.inner_bytes().len() == 223);
    assert(b.len() == 227);
    assert(b[0] == 223 && b[1] == 0 && b[2] == 0 && b[3] == 0);
    assert(le32_val(b[0], b[1], b[2], b[3]) == 223);
    assert(b[4] == 24);
    assert forall|k: int| 0 <= k < info.slots@.len() implies slot_data_of(
        #[trigger] slot_record_bytes(b, k),
    ) == info.slots@[k] by {
        lemma_slots_wire_bytes_index(info.slots@, k);
        assert(slot_record_bytes(b, k) =~= slots_wire_bytes(info.slots@).subrange(
            9 * k,
            9 * k + 9,
        ));
        lemma_slot_data_round_trip(info.slots@[k]);
    }
    let bits = i32_bits(info.random_seed as int);
    assert(0 <= bits < 0x1_0000_0000);
    assert(le32_val(b[221], b[222], b[223], b[224]) == bits) by (nonlinear_arith)
        requires
            0 <= bits < 0x1_0000_0000,
            b[221] == (bits % 256) as u8,
            b[222] == ((bits / 256) % 256) as u8,
            b[223] == ((bits / 65536) % 256) as u8,
            b[224] == ((bits / 16777216) % 256) as u8,
    ;
}

} // verus!
