//! The ping and pong messages and their form on the wire.
//!
//! A message travels as a FlatBuffers buffer that holds one table with a
//! union field. Two slots of the table's vtable are used: the first holds
//! the union's tag (1 for a ping, 2 for a pong), the second the offset to the
//! payload table, whose only field is the 32-bit nonce. All numbers are
//! little-endian. A field that is left out stands for zero.

use vstd::prelude::*;

verus! {

/// What a peer may send.
#[derive(Clone, Copy, Debug, PartialEq, Eq, Structural)]
pub enum Message {
    /// Bytes that are no ping and no pong.
    Unknown,
    /// A challenge.
    Ping { nonce: u32 },
    /// The answer to the challenge with the same nonce.
    Pong { nonce: u32 },
}

/// The union tag of a ping.
pub const TAG_PING: u8 = 1;

/// The union tag of a pong.
pub const TAG_PONG: u8 = 2;

/// The vtable slot of the first field of a table.
pub const FIRST_SLOT: u64 = 4;

/// The vtable slot of the second field of a table.
pub const SECOND_SLOT: u64 = 6;

/// Whether `len` bytes from position `pos` on lie inside `buf`.
pub open spec fn in_bounds(buf: Seq<u8>, pos: int, len: int) -> bool {
    0 <= pos && pos + len <= buf.len()
}

/// The 16-bit number at `pos`.
pub open spec fn u16_at(buf: Seq<u8>, pos: int) -> int {
    buf[pos] as int + 256 * (buf[pos + 1] as int)
}

/// The 32-bit number at `pos`.
pub open spec fn u32_at(buf: Seq<u8>, pos: int) -> int {
    buf[pos] as int + 256 * (buf[pos + 1] as int) + 65536 * (buf[pos + 2] as int) + 16777216 * (
    buf[pos + 3] as int)
}

/// Where the vtable of the table at `table` starts. A table begins with the
/// signed distance back to its vtable; the vtable begins with its own length
/// in bytes. `None` where the table's first four bytes, the vtable's header
/// or the vtable's stated length do not lie inside the buffer.
pub open spec fn vtable_of(buf: Seq<u8>, table: int) -> Option<int> {
    if !in_bounds(buf, table, 4) {
        None
    } else {
        let raw = u32_at(buf, table);
        let back = if raw < 0x8000_0000 {
            raw
        } else {
            raw - 0x1_0000_0000
        };
        let vtable = table - back;
        if in_bounds(buf, vtable, 4) && u16_at(buf, vtable) >= 4 && vtable + u16_at(buf, vtable)
            <= buf.len() {
            Some(vtable)
        } else {
            None
        }
    }
}

/// The distance from a table's start to the field of `slot`, as the vtable
/// at `vtable` gives it; zero where the vtable ends before the slot.
pub open spec fn field_offset(buf: Seq<u8>, vtable: int, slot: int) -> int {
    if slot + 2 <= u16_at(buf, vtable) {
        u16_at(buf, vtable + slot)
    } else {
        0
    }
}

/// The nonce of the payload table at `table`: zero where the field is left
/// out, `None` where the table cannot be read.
pub open spec fn nonce_of_table(buf: Seq<u8>, table: int) -> Option<u32> {
    match vtable_of(buf, table) {
        None => None,
        Some(vtable) => {
            let off = field_offset(buf, vtable, FIRST_SLOT as int);
            if off == 0 {
                Some(0u32)
            } else if in_bounds(buf, table + off, 4) {
                Some(u32_at(buf, table + off) as u32)
            } else {
                None
            }
        },
    }
}

/// The message that a buffer holds. Every buffer holds one: whatever cannot
/// be read as a ping or a pong is `Message::Unknown`.
pub open spec fn decode_spec(buf: Seq<u8>) -> Message {
    if !in_bounds(buf, 0, 4) {
        Message::Unknown
    } else {
        let root = u32_at(buf, 0);
        match vtable_of(buf, root) {
            None => Message::Unknown,
            Some(vtable) => {
                let tag_off = field_offset(buf, vtable, FIRST_SLOT as int);
                let payload_off = field_offset(buf, vtable, SECOND_SLOT as int);
                if tag_off == 0 || payload_off == 0 || !in_bounds(buf, root + tag_off, 1)
                    || !in_bounds(buf, root + payload_off, 4) {
                    Message::Unknown
                } else {
                    let tag = buf[root + tag_off];
                    let payload = root + payload_off + u32_at(buf, root + payload_off);
                    match nonce_of_table(buf, payload) {
                        None => Message::Unknown,
                        Some(nonce) => if tag == TAG_PING {
                            Message::Ping { nonce }
                        } else if tag == TAG_PONG {
                            Message::Pong { nonce }
                        } else {
                            Message::Unknown
                        },
                    }
                }
            },
        }
    }
}

/// The four bytes of a nonce, lowest first.
pub open spec fn nonce_bytes(nonce: u32) -> Seq<u8> {
    seq![
        (nonce % 256) as u8,
        ((nonce / 256) % 256) as u8,
        ((nonce / 65536) % 256) as u8,
        (nonce / 16777216) as u8,
    ]
}

/// The buffer for a ping or a pong with the given union tag. The root table
/// comes first, then the payload table; a nonce of zero is left out of the
/// payload table.
pub open spec fn frame(tag: u8, nonce: u32) -> Seq<u8> {
    if nonce == 0 {
        seq![
            12u8, 0, 0, 0,
            8, 0, 12, 0, 11, 0, 4, 0,
            8, 0, 0, 0, 12, 0, 0, 0, 0, 0, 0, tag,
            4, 0, 4, 0,
            4, 0, 0, 0,
        ]
    } else {
        seq![
            12u8, 0, 0, 0,
            8, 0, 10, 0, 9, 0, 4, 0,
            8, 0, 0, 0, 12, 0, 0, 0, 0, tag,
            6, 0, 8, 0, 4, 0,
            6, 0, 0, 0,
        ] + nonce_bytes(nonce)
    }
}

/// The bytes of a message. `Message::Unknown` is a root table without fields.
pub open spec fn encode_spec(m: Message) -> Seq<u8> {
    match m {
        Message::Unknown => seq![8u8, 0, 0, 0, 4, 0, 4, 0, 4, 0, 0, 0],
        Message::Ping { nonce } => frame(TAG_PING, nonce),
        Message::Pong { nonce } => frame(TAG_PONG, nonce),
    }
}

/// Reading back what `encode_spec` wrote gives the message that was written,
/// with its variant and its nonce.
pub proof fn law_decode_inverts_encode(m: Message)
    ensures
        decode_spec(encode_spec(m)) == m,
{
    let buf = encode_spec(m);
    match m {
        Message::Unknown => {
            assert(vtable_of(buf, 8) == Some(4int));
        },
        Message::Ping { nonce } => {
            lemma_frame_reads_back(TAG_PING, nonce);
        },
        Message::Pong { nonce } => {
            lemma_frame_reads_back(TAG_PONG, nonce);
        },
    }
}

/// A buffer too short to hold its first offset is neither a ping nor a pong.
pub proof fn law_short_buffer_is_unknown(buf: Seq<u8>)
    requires
        buf.len() < 4,
    ensures
        decode_spec(buf) == Message::Unknown,
{
}

/// A buffer whose root table names another tag than that of a ping or a pong
/// is neither, whatever else it holds.
pub proof fn law_other_tag_is_unknown(buf: Seq<u8>)
    requires
        in_bounds(buf, 0, 4),
        vtable_of(buf, u32_at(buf, 0)) is Some,
        ({
            let root = u32_at(buf, 0);
            let tag_off = field_offset(buf, vtable_of(buf, root).unwrap(), FIRST_SLOT as int);
            in_bounds(buf, root + tag_off, 1) && buf[root + tag_off] != TAG_PING && buf[root
                + tag_off] != TAG_PONG
        }),
    ensures
        decode_spec(buf) == Message::Unknown,
{
}

/// The four bytes of a nonce put together again give the nonce.
proof fn lemma_nonce_bytes(nonce: u32)
    ensures
        nonce_bytes(nonce).len() == 4,
        u32_at(nonce_bytes(nonce), 0) == nonce,
{
}

proof fn lemma_frame_reads_back(tag: u8, nonce: u32)
    ensures
        vtable_of(frame(tag, nonce), 12) == Some(4int),
        field_offset(frame(tag, nonce), 4, FIRST_SLOT as int) != 0,
        field_offset(frame(tag, nonce), 4, SECOND_SLOT as int) == 4,
        frame(tag, nonce)[12 + field_offset(frame(tag, nonce), 4, FIRST_SLOT as int)] == tag,
        nonce_of_table(frame(tag, nonce), 28) == Some(nonce),
        u32_at(frame(tag, nonce), 0) == 12,
        u32_at(frame(tag, nonce), 16) == 12,
        frame(tag, nonce).len() >= 32,
{
    let buf = frame(tag, nonce);
    if nonce == 0 {
        assert(buf.len() == 32);
        assert(vtable_of(buf, 28) == Some(24int));
    } else {
        lemma_nonce_bytes(nonce);
        let tail = nonce_bytes(nonce);
        assert(buf.len() == 36);
        assert(buf[32] == tail[0] && buf[33] == tail[1] && buf[34] == tail[2] && buf[35] == tail[3]);
        assert(u32_at(buf, 32) == nonce);
        assert(vtable_of(buf, 28) == Some(22int));
    }
}

fn read_u16(buf: &[u8], pos: u64) -> (r: u16)
    requires
        pos + 2 <= buf.len(),
    ensures
        r == u16_at(buf@, pos as int),
{
    let lo = buf[pos as usize] as u16;
    let hi = buf[(pos + 1) as usize] as u16;
    lo + 256 * hi
}

fn read_u32(buf: &[u8], pos: u64) -> (r: u32)
    requires
        pos + 4 <= buf.len(),
    ensures
        r == u32_at(buf@, pos as int),
{
    let b0 = buf[pos as usize] as u32;
    let b1 = buf[(pos + 1) as usize] as u32;
    let b2 = buf[(pos + 2) as usize] as u32;
    let b3 = buf[(pos + 3) as usize] as u32;
    b0 + 256 * b1 + 65536 * b2 + 16777216 * b3
}

fn fits(buf: &[u8], pos: u64, len: u64) -> (r: bool)
    requires
        len <= 0x1_0000,
    ensures
        r == in_bounds(buf@, pos as int, len as int),
{
    let size = buf.len() as u64;
    pos <= size && size - pos >= len
}

fn find_vtable(buf: &[u8], table: u64) -> (r: Option<u64>)
    requires
        table <= 0x4_0000_0000,
    ensures
        match r {
            Some(v) => vtable_of(buf@, table as int) == Some(v as int) && v + 4 <= buf.len(),
            None => vtable_of(buf@, table as int) is None,
        },
{
    if !fits(buf, table, 4) {
        return None;
    }
    let raw = read_u32(buf, table);
    let vtable: u64 = if raw < 0x8000_0000 {
        if raw as u64 > table {
            return None;
        }
        table - raw as u64
    } else {
        table + (0x1_0000_0000 - raw as u64)
    };
    if !fits(buf, vtable, 4) {
        return None;
    }
    let len = read_u16(buf, vtable);
    if len >= 4 && fits(buf, vtable, len as u64) {
        Some(vtable)
    } else {
        None
    }
}

fn read_field_offset(buf: &[u8], vtable: u64, slot: u64) -> (r: u16)
    requires
        slot == FIRST_SLOT || slot == SECOND_SLOT,
        vtable + 4 <= buf.len(),
        vtable + u16_at(buf@, vtable as int) <= buf.len(),
    ensures
        r == field_offset(buf@, vtable as int, slot as int),
{
    let len = read_u16(buf, vtable);
    if slot + 2 <= len as u64 {
        read_u16(buf, vtable + slot)
    } else {
        0
    }
}

fn read_nonce(buf: &[u8], table: u64) -> (r: Option<u32>)
    requires
        table <= 0x4_0000_0000,
    ensures
        r == nonce_of_table(buf@, table as int),
{
    match find_vtable(buf, table) {
        None => None,
        Some(vtable) => {
            let off = read_field_offset(buf, vtable, FIRST_SLOT);
            if off == 0 {
                Some(0)
            } else if fits(buf, table + off as u64, 4) {
                Some(read_u32(buf, table + off as u64))
            } else {
                None
            }
        },
    }
}

impl Message {
    /// Reads a message from the bytes of one frame. Never fails: bytes that
    /// hold no ping and no pong give `Message::Unknown`.
    pub fn decode(buf: &[u8]) -> (m: Message)
        ensures
            m == decode_spec(buf@),
    {
        if !fits(buf, 0, 4) {
            return Message::Unknown;
        }
        let root = read_u32(buf, 0) as u64;
        let vtable = match find_vtable(buf, root) {
            None => {
                return Message::Unknown;
            },
            Some(v) => v,
        };
        let tag_off = read_field_offset(buf, vtable, FIRST_SLOT) as u64;
        let payload_off = read_field_offset(buf, vtable, SECOND_SLOT) as u64;
        if tag_off == 0 || payload_off == 0 || !fits(buf, root + tag_off, 1) || !fits(
            buf,
            root + payload_off,
            4,
        ) {
            return Message::Unknown;
        }
        let tag = buf[(root + tag_off) as usize];
        let payload = root + payload_off + read_u32(buf, root + payload_off) as u64;
        match read_nonce(buf, payload) {
            None => Message::Unknown,
            Some(nonce) => if tag == TAG_PING {
                Message::Ping { nonce }
            } else if tag == TAG_PONG {
                Message::Pong { nonce }
            } else {
                Message::Unknown
            },
        }
    }

    /// The bytes of this message, to be sent as one frame.
    pub fn encode(&self) -> (bytes: Vec<u8>)
        ensures
            bytes@ == encode_spec(*self),
    {
        match self {
            Message::Unknown => {
                let bytes: Vec<u8> = vec![8u8, 0, 0, 0, 4, 0, 4, 0, 4, 0, 0, 0];
                assert(bytes@ =~= encode_spec(*self));
                bytes
            },
            Message::Ping { nonce } => build_frame(TAG_PING, *nonce),
            Message::Pong { nonce } => build_frame(TAG_PONG, *nonce),
        }
    }
}

fn build_frame(tag: u8, nonce: u32) -> (bytes: Vec<u8>)
    ensures
        bytes@ == frame(tag, nonce),
{
    if nonce == 0 {
        let bytes: Vec<u8> = vec![
            12u8, 0, 0, 0,
            8, 0, 12, 0, 11, 0, 4, 0,
            8, 0, 0, 0, 12, 0, 0, 0, 0, 0, 0, tag,
            4, 0, 4, 0,
            4, 0, 0, 0,
        ];
        assert(bytes@ =~= frame(tag, nonce));
        bytes
    } else {
        let mut bytes: Vec<u8> = vec![
            12u8, 0, 0, 0,
            8, 0, 10, 0, 9, 0, 4, 0,
            8, 0, 0, 0, 12, 0, 0, 0, 0, tag,
            6, 0, 8, 0, 4, 0,
            6, 0, 0, 0,
        ];
        bytes.push((nonce % 256) as u8);
        bytes.push(((nonce / 256) % 256) as u8);
        bytes.push(((nonce / 65536) % 256) as u8);
        bytes.push((nonce / 16777216) as u8);
        assert(bytes@ =~= frame(tag, nonce));
        bytes
    }
}

} // verus!
