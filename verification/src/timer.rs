//! The guest-visible timer record: a byte-exact memory-mapped structure of
//! three reserved words, a 64-bit time value, a parameter word, one more
//! reserved word, and the callback word. Field order, offsets and total size
//! are part of the guest memory contract, so the record is serialized field
//! by field at fixed little-endian offsets, never by reinterpretation.

use vstd::prelude::*;

use crate::arena::{splice, valid_range, Arena};
use crate::base::{WIPICErrorKind, WIPICWord};
use crate::codec::{
    le32_bytes, le64_bytes, lemma_le32_round_trip, lemma_le64_round_trip, push_le32, push_le64,
    read_le32, read_le64,
};

verus! {

/// Total size of the record in guest memory, in bytes.
pub const TIMER_RECORD_SIZE: u32 = 32;

/// The memory-mapped timer record, written by "define timer" and read back
/// by "set timer"; guest code may read or write this memory directly.
#[derive(Clone, Copy, PartialEq, Eq, Structural, Debug)]
pub struct WIPICTimer {
    /// Reserved word at offset 0.
    pub unk1: WIPICWord,
    /// Reserved word at offset 4.
    pub unk2: WIPICWord,
    /// Reserved word at offset 8.
    pub unk3: WIPICWord,
    /// 64-bit time value at offset 12.
    pub time: u64,
    /// Parameter word at offset 20.
    pub param: WIPICWord,
    /// Reserved word at offset 24.
    pub unk4: WIPICWord,
    /// Callback word at offset 28.
    pub fn_callback: WIPICWord,
}

/// The exact 32-byte wire image of a timer record.
pub open spec fn timer_bytes(t: WIPICTimer) -> Seq<u8> {
    le32_bytes(t.unk1) + le32_bytes(t.unk2) + le32_bytes(t.unk3) + le64_bytes(t.time) + le32_bytes(
        t.param,
    ) + le32_bytes(t.unk4) + le32_bytes(t.fn_callback)
}

/// A timer record's wire image is always exactly 32 bytes.
pub proof fn lemma_timer_bytes_len(t: WIPICTimer)
    ensures
        timer_bytes(t).len() == TIMER_RECORD_SIZE,
{
}

/// The record whose wire image a 32-byte sequence is.
pub open spec fn timer_of_bytes(b: Seq<u8>) -> WIPICTimer {
    WIPICTimer {
        unk1: crate::codec::word_of_le(b[0], b[1], b[2], b[3]),
        unk2: crate::codec::word_of_le(b[4], b[5], b[6], b[7]),
        unk3: crate::codec::word_of_le(b[8], b[9], b[10], b[11]),
        time: crate::codec::u64_of_le(b[12], b[13], b[14], b[15], b[16], b[17], b[18], b[19]),
        param: crate::codec::word_of_le(b[20], b[21], b[22], b[23]),
        unk4: crate::codec::word_of_le(b[24], b[25], b[26], b[27]),
        fn_callback: crate::codec::word_of_le(b[28], b[29], b[30], b[31]),
    }
}

/// Serializing a record and reading it back is the identity, so guest code
/// sees through the byte image exactly the fields that were written.
pub proof fn lemma_timer_round_trip(t: WIPICTimer)
    ensures
        timer_of_bytes(timer_bytes(t)) == t,
{
    lemma_le32_round_trip(t.unk1);
    lemma_le32_round_trip(t.unk2);
    lemma_le32_round_trip(t.unk3);
    lemma_le64_round_trip(t.time);
    lemma_le32_round_trip(t.param);
    lemma_le32_round_trip(t.unk4);
    lemma_le32_round_trip(t.fn_callback);
}

impl WIPICTimer {
    /// Serializes the record into its 32-byte wire image.
    pub fn to_bytes(&self) -> (r: Vec<u8>)
        ensures
            r@ == timer_bytes(*self),
    {
        let mut out: Vec<u8> = Vec::new();
        push_le32(&mut out, self.unk1);
        push_le32(&mut out, self.unk2);
        push_le32(&mut out, self.unk3);
        push_le64(&mut out, self.time);
        push_le32(&mut out, self.param);
        push_le32(&mut out, self.unk4);
        push_le32(&mut out, self.fn_callback);
        assert(out@ =~= timer_bytes(*self));
        out
    }

    /// Deserializes the record from a 32-byte wire image; the image of the
    /// result is the input, so the layout round-trips byte for byte.
    pub fn from_bytes(bytes: &[u8]) -> (r: WIPICTimer)
        requires
            bytes@.len() == TIMER_RECORD_SIZE,
        ensures
            timer_bytes(r) == bytes@,
    {
        let t = WIPICTimer {
            unk1: read_le32(bytes, 0),
            unk2: read_le32(bytes, 4),
            unk3: read_le32(bytes, 8),
            time: read_le64(bytes, 12),
            param: read_le32(bytes, 20),
            unk4: read_le32(bytes, 24),
            fn_callback: read_le32(bytes, 28),
        };
        proof {
            crate::codec::lemma_word_of_le_bytes(bytes@[0], bytes@[1], bytes@[2], bytes@[3]);
            crate::codec::lemma_word_of_le_bytes(bytes@[4], bytes@[5], bytes@[6], bytes@[7]);
            crate::codec::lemma_word_of_le_bytes(bytes@[8], bytes@[9], bytes@[10], bytes@[11]);
            lemma_le64_of_bytes(
                bytes@[12],
                bytes@[13],
                bytes@[14],
                bytes@[15],
                bytes@[16],
                bytes@[17],
                bytes@[18],
                bytes@[19],
            );
            crate::codec::lemma_word_of_le_bytes(bytes@[20], bytes@[21], bytes@[22], bytes@[23]);
            crate::codec::lemma_word_of_le_bytes(bytes@[24], bytes@[25], bytes@[26], bytes@[27]);
            crate::codec::lemma_word_of_le_bytes(bytes@[28], bytes@[29], bytes@[30], bytes@[31]);
            assert(timer_bytes(t) =~= bytes@);
        }
        t
    }
}

/// The little-endian bytes of a 64-bit value read from eight bytes are those
/// bytes.
pub proof fn lemma_le64_of_bytes(b0: u8, b1: u8, b2: u8, b3: u8, b4: u8, b5: u8, b6: u8, b7: u8)
    ensures
        le64_bytes(crate::codec::u64_of_le(b0, b1, b2, b3, b4, b5, b6, b7)) == seq![
            b0,
            b1,
            b2,
            b3,
            b4,
            b5,
            b6,
            b7,
        ],
{
    let v = crate::codec::u64_of_le(b0, b1, b2, b3, b4, b5, b6, b7);
    assert(((((b0 as u64) | ((b1 as u64) << 8) | ((b2 as u64) << 16) | ((b3 as u64) << 24) | ((
    b4 as u64) << 32) | ((b5 as u64) << 40) | ((b6 as u64) << 48) | ((b7 as u64) << 56)))
        & 0xff) as u8 == b0) by (bit_vector);
    assert(((((b0 as u64) | ((b1 as u64) << 8) | ((b2 as u64) << 16) | ((b3 as u64) << 24) | ((
    b4 as u64) << 32) | ((b5 as u64) << 40) | ((b6 as u64) << 48) | ((b7 as u64) << 56)) >> 8)
        & 0xff) as u8 == b1) by (bit_vector);
    assert(((((b0 as u64) | ((b1 as u64) << 8) | ((b2 as u64) << 16) | ((b3 as u64) << 24) | ((
    b4 as u64) << 32) | ((b5 as u64) << 40) | ((b6 as u64) << 48) | ((b7 as u64) << 56)) >> 16)
        & 0xff) as u8 == b2) by (bit_vector);
    assert(((((b0 as u64) | ((b1 as u64) << 8) | ((b2 as u64) << 16) | ((b3 as u64) << 24) | ((
    b4 as u64) << 32) | ((b5 as u64) << 40) | ((b6 as u64) << 48) | ((b7 as u64) << 56)) >> 24)
        & 0xff) as u8 == b3) by (bit_vector);
    assert(((((b0 as u64) | ((b1 as u64) << 8) | ((b2 as u64) << 16) | ((b3 as u64) << 24) | ((
    b4 as u64) << 32) | ((b5 as u64) << 40) | ((b6 as u64) << 48) | ((b7 as u64) << 56)) >> 32)
        & 0xff) as u8 == b4) by (bit_vector);
    assert(((((b0 as u64) | ((b1 as u64) << 8) | ((b2 as u64) << 16) | ((b3 as u64) << 24) | ((
    b4 as u64) << 32) | ((b5 as u64) << 40) | ((b6 as u64) << 48) | ((b7 as u64) << 56)) >> 40)
        & 0xff) as u8 == b5) by (bit_vector);
    assert(((((b0 as u64) | ((b1 as u64) << 8) | ((b2 as u64) << 16) | ((b3 as u64) << 24) | ((
    b4 as u64) << 32) | ((b5 as u64) << 40) | ((b6 as u64) << 48) | ((b7 as u64) << 56)) >> 48)
        & 0xff) as u8 == b6) by (bit_vector);
    assert(((((b0 as u64) | ((b1 as u64) << 8) | ((b2 as u64) << 16) | ((b3 as u64) << 24) | ((
    b4 as u64) << 32) | ((b5 as u64) << 40) | ((b6 as u64) << 48) | ((b7 as u64) << 56)) >> 56)
        & 0xff) as u8 == b7) by (bit_vector);
    assert(le64_bytes(v) =~= seq![b0, b1, b2, b3, b4, b5, b6, b7]);
}

/// Writes a timer record's wire image at a guest address; succeeds exactly
/// when the 32 bytes fit, and changes no other byte.
pub fn write_timer(arena: &mut Arena, addr: WIPICWord, t: &WIPICTimer) -> (r: Result<
    (),
    WIPICErrorKind,
>)
    requires
        old(arena).wf(),
    ensures
        final(arena).wf(),
        final(arena).allocs@ == old(arena).allocs@,
        final(arena).next == old(arena).next,
        r is Ok <==> valid_range(old(arena).mem@, addr as int, TIMER_RECORD_SIZE as int),
        match r {
            Ok(()) => final(arena).mem@ == splice(old(arena).mem@, addr as int, timer_bytes(*t)),
            Err(k) => {
                &&& k == WIPICErrorKind::InvalidAddress
                &&& final(arena).mem@ == old(arena).mem@
            },
        },
{
    let bytes = t.to_bytes();
    arena.write_bytes(addr, bytes.as_slice())
}

/// Reads the timer record whose wire image lies at a guest address;
/// succeeds exactly when the 32 bytes are in bounds.
pub fn read_timer(arena: &Arena, addr: WIPICWord) -> (r: Result<WIPICTimer, WIPICErrorKind>)
    requires
        arena.wf(),
    ensures
        r is Ok <==> valid_range(arena.mem@, addr as int, TIMER_RECORD_SIZE as int),
        match r {
            Ok(t) => {
                &&& timer_bytes(t) == arena.mem@.subrange(addr as int, addr + TIMER_RECORD_SIZE)
                &&& t == timer_of_bytes(
                    arena.mem@.subrange(addr as int, addr + TIMER_RECORD_SIZE),
                )
            },
            Err(k) => k == WIPICErrorKind::InvalidAddress,
        },
{
    let bytes = match arena.read_bytes(addr, TIMER_RECORD_SIZE) {
        Ok(b) => b,
        Err(k) => {
            return Err(k);
        },
    };
    let t = WIPICTimer::from_bytes(bytes.as_slice());
    proof {
        lemma_timer_round_trip(t);
    }
    Ok(t)
}

} // verus!
