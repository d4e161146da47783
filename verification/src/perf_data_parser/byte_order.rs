use vstd::prelude::*;

verus! {

/// Whether `count` bytes starting at `at` lie inside `bytes`.
pub open spec fn fits(bytes: Seq<u8>, at: int, count: int) -> bool {
    0 <= at && 0 <= count && at + count <= bytes.len()
}

/// The 16-bit integer stored at `at`, least significant byte first.
///
/// Every multi-byte integer of a trace is little-endian: the byte order of
/// the machines that record them.
pub open spec fn u16_le(bytes: Seq<u8>, at: int) -> u16 {
    (bytes[at] as int + 0x100 * bytes[at + 1] as int) as u16
}

/// The 32-bit integer stored at `at`, least significant byte first.
pub open spec fn u32_le(bytes: Seq<u8>, at: int) -> u32 {
    (u16_le(bytes, at) as int + 0x1_0000 * u16_le(bytes, at + 2) as int) as u32
}

/// The 64-bit integer stored at `at`, least significant byte first.
pub open spec fn u64_le(bytes: Seq<u8>, at: int) -> u64 {
    (u32_le(bytes, at) as int + 0x1_0000_0000 * u32_le(bytes, at + 4) as int) as u64
}

/// The byte at `at`, if there is one.
pub open spec fn u8_at(bytes: Seq<u8>, at: int) -> Option<u8> {
    if fits(bytes, at, 1) {
        Some(bytes[at])
    } else {
        None
    }
}

/// The 16-bit integer at `at`, if two bytes are there.
pub open spec fn u16_at(bytes: Seq<u8>, at: int) -> Option<u16> {
    if fits(bytes, at, 2) {
        Some(u16_le(bytes, at))
    } else {
        None
    }
}

/// The 32-bit integer at `at`, if four bytes are there.
pub open spec fn u32_at(bytes: Seq<u8>, at: int) -> Option<u32> {
    if fits(bytes, at, 4) {
        Some(u32_le(bytes, at))
    } else {
        None
    }
}

/// The 64-bit integer at `at`, if eight bytes are there.
pub open spec fn u64_at(bytes: Seq<u8>, at: int) -> Option<u64> {
    if fits(bytes, at, 8) {
        Some(u64_le(bytes, at))
    } else {
        None
    }
}

/// The two bytes that store `value`, least significant byte first.
pub open spec fn u16_bytes(value: u16) -> Seq<u8> {
    seq![(value % 0x100) as u8, (value / 0x100) as u8]
}

/// The four bytes that store `value`, least significant byte first.
pub open spec fn u32_bytes(value: u32) -> Seq<u8> {
    u16_bytes((value % 0x1_0000) as u16) + u16_bytes((value / 0x1_0000) as u16)
}

/// The eight bytes that store `value`, least significant byte first.
pub open spec fn u64_bytes(value: u64) -> Seq<u8> {
    u32_bytes((value % 0x1_0000_0000) as u32) + u32_bytes((value / 0x1_0000_0000) as u32)
}

/// Whether `bytes` holds `piece` at `at`.
pub open spec fn holds_at(bytes: Seq<u8>, at: int, piece: Seq<u8>) -> bool {
    fits(bytes, at, piece.len() as int) && bytes.subrange(at, at + piece.len()) == piece
}

/// Bytes that hold two pieces in a row hold each of them, the second one
/// behind the first.
pub proof fn lemma_holds_both(bytes: Seq<u8>, at: int, first: Seq<u8>, second: Seq<u8>)
    requires
        holds_at(bytes, at, first + second),
    ensures
        holds_at(bytes, at, first),
        holds_at(bytes, at + first.len(), second),
{
    let whole = bytes.subrange(at, at + (first + second).len());
    assert(bytes.subrange(at, at + first.len()) =~= first) by {
        assert forall|i: int| 0 <= i < first.len() implies bytes[at + i] == first[i] by {
            assert(whole[i] == bytes[at + i]);
        }
    }
    assert(bytes.subrange(at + first.len(), at + first.len() + second.len()) =~= second) by {
        assert forall|i: int| 0 <= i < second.len() implies bytes[at + first.len() + i]
            == second[i] by {
            assert(whole[first.len() + i] == bytes[at + first.len() + i]);
        }
    }
}

/// The 16-bit integer that is stored in bytes is the one that is read from
/// them.
pub proof fn lemma_u16_round_trip(bytes: Seq<u8>, at: int, value: u16)
    requires
        holds_at(bytes, at, u16_bytes(value)),
    ensures
        fits(bytes, at, 2),
        u16_le(bytes, at) == value,
{
    let window = bytes.subrange(at, at + 2);
    assert(window[0] == bytes[at]);
    assert(window[1] == bytes[at + 1]);
}

/// The 32-bit integer that is stored in bytes is the one that is read from
/// them.
pub proof fn lemma_u32_round_trip(bytes: Seq<u8>, at: int, value: u32)
    requires
        holds_at(bytes, at, u32_bytes(value)),
    ensures
        fits(bytes, at, 4),
        u32_le(bytes, at) == value,
{
    let low = (value % 0x1_0000) as u16;
    let high = (value / 0x1_0000) as u16;
    lemma_holds_both(bytes, at, u16_bytes(low), u16_bytes(high));
    lemma_u16_round_trip(bytes, at, low);
    lemma_u16_round_trip(bytes, at + 2, high);
}

/// The 64-bit integer that is stored in bytes is the one that is read from
/// them.
pub proof fn lemma_u64_round_trip(bytes: Seq<u8>, at: int, value: u64)
    requires
        holds_at(bytes, at, u64_bytes(value)),
    ensures
        fits(bytes, at, 8),
        u64_le(bytes, at) == value,
{
    let low = (value % 0x1_0000_0000) as u32;
    let high = (value / 0x1_0000_0000) as u32;
    lemma_holds_both(bytes, at, u32_bytes(low), u32_bytes(high));
    lemma_u32_round_trip(bytes, at, low);
    lemma_u32_round_trip(bytes, at + 4, high);
}

/// The index of the first `byte` between `from` and `to`, and `to` where
/// there is none.
pub open spec fn first_byte(bytes: Seq<u8>, byte: u8, from: int, to: int) -> int
    decreases to - from,
{
    if from >= to {
        to
    } else if bytes[from] == byte {
        from
    } else {
        first_byte(bytes, byte, from + 1, to)
    }
}

/// `first_byte` stays between its bounds, and finds a byte that is there.
pub proof fn lemma_first_byte(bytes: Seq<u8>, byte: u8, from: int, to: int)
    requires
        0 <= from <= to <= bytes.len(),
    ensures
        from <= first_byte(bytes, byte, from, to) <= to,
        first_byte(bytes, byte, from, to) < to ==> bytes[first_byte(bytes, byte, from, to)] == byte,
        forall|i: int| from <= i < first_byte(bytes, byte, from, to) ==> bytes[i] != byte,
    decreases to - from,
{
    if from < to && bytes[from] != byte {
        lemma_first_byte(bytes, byte, from + 1, to);
    }
}

/// Whether `count` bytes can be taken from `data` at `at`.
pub fn has_room(data: &[u8], at: usize, count: usize) -> (r: bool)
    ensures
        r == fits(data@, at as int, count as int),
        r ==> at + count <= usize::MAX,
{
    at <= data.len() && count <= data.len() - at
}

/// The little-endian 16-bit integer at `at`, where two bytes are there.
pub(crate) fn get_u16(data: &[u8], at: usize) -> (r: u16)
    requires
        fits(data@, at as int, 2),
    ensures
        r == u16_le(data@, at as int),
{
    assert(data@.len() == data.len());
    let b0: u16 = data[at] as u16;
    let b1: u16 = data[at + 1] as u16;
    b0 + 0x100 * b1
}

/// The little-endian 32-bit integer at `at`, where four bytes are there.
pub(crate) fn get_u32(data: &[u8], at: usize) -> (r: u32)
    requires
        fits(data@, at as int, 4),
    ensures
        r == u32_le(data@, at as int),
{
    assert(data@.len() == data.len());
    let low: u32 = get_u16(data, at) as u32;
    let high: u32 = get_u16(data, at + 2) as u32;
    low + 0x1_0000 * high
}

/// The little-endian 64-bit integer at `at`, where eight bytes are there.
pub(crate) fn get_u64(data: &[u8], at: usize) -> (r: u64)
    requires
        fits(data@, at as int, 8),
    ensures
        r == u64_le(data@, at as int),
{
    assert(data@.len() == data.len());
    let low: u64 = get_u32(data, at) as u64;
    let high: u64 = get_u32(data, at + 4) as u64;
    low + 0x1_0000_0000 * high
}

/// The byte at `at`, if there is one.
pub fn peek_u8(data: &[u8], at: usize) -> (r: Option<u8>)
    ensures
        r == u8_at(data@, at as int),
{
    if has_room(data, at, 1) {
        Some(data[at])
    } else {
        None
    }
}

/// The little-endian 16-bit integer at `at`, if two bytes are there.
pub fn peek_u16(data: &[u8], at: usize) -> (r: Option<u16>)
    ensures
        r == u16_at(data@, at as int),
{
    if has_room(data, at, 2) {
        Some(get_u16(data, at))
    } else {
        None
    }
}

/// The little-endian 32-bit integer at `at`, if four bytes are there.
pub fn peek_u32(data: &[u8], at: usize) -> (r: Option<u32>)
    ensures
        r == u32_at(data@, at as int),
{
    if has_room(data, at, 4) {
        Some(get_u32(data, at))
    } else {
        None
    }
}

/// The little-endian 64-bit integer at `at`, if eight bytes are there.
pub fn peek_u64(data: &[u8], at: usize) -> (r: Option<u64>)
    ensures
        r == u64_at(data@, at as int),
{
    if has_room(data, at, 8) {
        Some(get_u64(data, at))
    } else {
        None
    }
}

/// The index of the first `byte` of `data` between `from` and `to`.
pub(crate) fn find_byte(data: &[u8], byte: u8, from: usize, to: usize) -> (r: usize)
    requires
        from <= to <= data.len(),
    ensures
        r == first_byte(data@, byte, from as int, to as int),
        from <= r <= to,
{
    let mut i: usize = from;
    while i < to && data[i] != byte
        invariant
            from <= i <= to <= data.len(),
            first_byte(data@, byte, from as int, to as int) == first_byte(
                data@,
                byte,
                i as int,
                to as int,
            ),
        decreases to - i,
    {
        i = i + 1;
    }
    i
}

} // verus!
