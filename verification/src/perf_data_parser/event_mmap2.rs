use super::byte_order::{
    find_byte, first_byte, fits, get_u32, get_u64, has_room, u32_le, u64_le,
};
use super::byte_reader::ByteSource;
use super::error::{IoError, PerfError};
use super::header::ReadExt;
use vstd::prelude::*;
use vstd::string::StringSliceAdditionalSpecFns;

verus! {

/// What a process may do with a mapped region.
#[derive(Clone, Copy, Debug, PartialEq, Eq)]
pub struct MemoryProtection {
    pub bits: u32,
}

impl MemoryProtection {
    pub const PROT_READ: u32 = 0x1;

    pub const PROT_WRITE: u32 = 0x2;

    pub const PROT_EXEC: u32 = 0x4;

    /// Every permission that is decoded.
    pub const ALL: u32 = 0x7;

    /// Whether every permission of `flags` is given.
    pub open spec fn has(self, flags: u32) -> bool {
        self.bits & flags == flags
    }

    /// The set that `bits` stands for, without the bits that stand for no
    /// permission.
    pub fn from_bits_truncate(bits: u32) -> (r: Self)
        ensures
            r.bits == bits & Self::ALL,
    {
        MemoryProtection { bits: bits & Self::ALL }
    }

    /// The bits of the set.
    pub fn bits(&self) -> (r: u32)
        ensures
            r == self.bits,
    {
        self.bits
    }

    /// Whether every flag of `flags` is in the set.
    pub fn contains(&self, flags: u32) -> (r: bool)
        ensures
            r == self.has(flags),
    {
        self.bits & flags == flags
    }
}

/// The number of bytes of a memory-map record before its file name: process
/// and thread id, address, length, file offset, device numbers, inode and
/// its generation, protection and flags.
pub const MMAP2_FIXED_LEN: usize = 64;

/// The index of the zero byte that ends the text that starts at `from`, and
/// the length of `bytes` where none ends it.
pub open spec fn first_nul(bytes: Seq<u8>, from: int) -> int {
    first_byte(bytes, 0, from, bytes.len() as int)
}

/// Whether `needle` occurs in `haystack` as a run of neighbouring bytes.
pub open spec fn contains_bytes(haystack: Seq<u8>, needle: Seq<u8>) -> bool {
    exists|i: int| occurs_at(haystack, needle, i)
}

/// Whether `needle` occurs in `haystack` at index `i`.
pub open spec fn occurs_at(haystack: Seq<u8>, needle: Seq<u8>, i: int) -> bool {
    0 <= i && i + needle.len() <= haystack.len() && haystack.subrange(i, i + needle.len())
        == needle
}

/// The file name of the memory-map record whose payload starts at `at`: the
/// bytes before the first zero byte.
pub open spec fn mmap2_filename(bytes: Seq<u8>, at: int) -> Seq<u8> {
    bytes.subrange(at + MMAP2_FIXED_LEN, first_nul(bytes, at + MMAP2_FIXED_LEN))
}

/// Whether the memory-map record whose payload starts at `at` maps the
/// binary called `name` for execution: its file name contains `name`, and
/// its protection includes execution.
pub open spec fn maps_binary(bytes: Seq<u8>, at: int, name: Seq<u8>) -> bool {
    contains_bytes(mmap2_filename(bytes, at), name) && (MemoryProtection {
        bits: u32_le(bytes, at + 56) & MemoryProtection::ALL,
    }).has(MemoryProtection::PROT_EXEC)
}

/// The memory-map record whose payload starts at `at`: the number of bytes
/// that it takes, which are the fixed fields, the file name and the zero byte
/// that ends it; and the address of the mapping where it maps the binary
/// called `name` for execution.
pub open spec fn mmap2_at(bytes: Seq<u8>, at: int, name: Seq<u8>) -> Result<
    (int, Option<u64>),
    PerfError,
> {
    if !fits(bytes, at, MMAP2_FIXED_LEN as int) || first_nul(bytes, at + MMAP2_FIXED_LEN)
        >= bytes.len() {
        Err(PerfError::Io(IoError::UnexpectedEof))
    } else {
        Ok(
            (
                MMAP2_FIXED_LEN + mmap2_filename(bytes, at).len() + 1,
                if maps_binary(bytes, at, name) {
                    Some(u64_le(bytes, at + 8))
                } else {
                    None
                },
            ),
        )
    }
}

/// A memory-map record gives an address exactly where its file name
/// contains the name of the binary and its protection includes execution,
/// and the address is then that of its mapping. A record without the
/// permission to execute gives none, and so does one of another file.
pub proof fn lemma_mmap2_candidate(bytes: Seq<u8>, at: int, name: Seq<u8>)
    requires
        mmap2_at(bytes, at, name) is Ok,
    ensures
        mmap2_at(bytes, at, name)->Ok_0.1 is Some <==> contains_bytes(
            mmap2_filename(bytes, at),
            name,
        ) && u32_le(bytes, at + 56) & MemoryProtection::PROT_EXEC == MemoryProtection::PROT_EXEC,
        mmap2_at(bytes, at, name)->Ok_0.1 is Some ==> mmap2_at(bytes, at, name)->Ok_0.1
            == Some(u64_le(bytes, at + 8)),
{
    let protection = u32_le(bytes, at + 56);
    assert(((protection & 0x7) & 0x4 == 0x4) <==> (protection & 0x4 == 0x4)) by (bit_vector);
}

/// Whether `needle` lies in `haystack` at index `at`.
fn matches_at(haystack: &[u8], at: usize, needle: &[u8]) -> (r: bool)
    requires
        at + needle.len() <= haystack.len(),
    ensures
        r == (haystack@.subrange(at as int, at + needle@.len()) == needle@),
{
    let mut j: usize = 0;
    while j < needle.len()
        invariant
            j <= needle.len(),
            at + needle.len() <= haystack.len(),
            forall|k: int| 0 <= k < j ==> haystack@[at + k] == needle@[k],
        decreases needle@.len() - j,
    {
        if haystack[at + j] != needle[j] {
            proof {
                let window = haystack@.subrange(at as int, at + needle@.len());
                assert(window[j as int] == haystack@[at + j]);
            }
            return false;
        }
        j = j + 1;
    }
    assert(haystack@.subrange(at as int, at + needle@.len()) =~= needle@);
    true
}

/// Whether `needle` occurs between `from` and `to` in `data`.
fn window_contains(data: &[u8], from: usize, to: usize, needle: &[u8]) -> (r: bool)
    requires
        from <= to <= data.len(),
    ensures
        r == contains_bytes(data@.subrange(from as int, to as int), needle@),
{
    let ghost haystack = data@.subrange(from as int, to as int);
    if needle.len() > to - from {
        assert(forall|i: int| !occurs_at(haystack, needle@, i));
        return false;
    }
    if needle.len() == 0 {
        assert(haystack.subrange(0, 0) =~= needle@);
        assert(occurs_at(haystack, needle@, 0));
        return true;
    }
    let last = to - needle.len();
    let mut i: usize = from;
    while i <= last
        invariant
            from <= i <= last + 1,
            last + needle.len() == to,
            0 < needle.len(),
            to <= data.len(),
            haystack == data@.subrange(from as int, to as int),
            forall|k: int| 0 <= k < i - from ==> !occurs_at(haystack, needle@, k),
        decreases last + 1 - i,
    {
        proof {
            assert(haystack.subrange(i - from, i - from + needle@.len()) =~= data@.subrange(
                i as int,
                i + needle@.len(),
            ));
        }
        if matches_at(data, i, needle) {
            assert(occurs_at(haystack, needle@, i - from));
            return true;
        }
        i = i + 1;
    }
    assert(forall|k: int| !occurs_at(haystack, needle@, k));
    false
}

/// Decodes the memory-map record whose payload starts at `at`, for the
/// binary whose file name is `name`.
pub fn decode_mmap2(data: &[u8], at: usize, name: &[u8]) -> (r: Result<
    (u64, Option<u64>),
    PerfError,
>)
    ensures
        match mmap2_at(data@, at as int, name@) {
            Ok((len, candidate)) => r matches Ok((consumed, found)) && consumed == len && found
                == candidate && at + len <= data@.len(),
            Err(error) => r == Err::<(u64, Option<u64>), PerfError>(error),
        },
{
    if !has_room(data, at, MMAP2_FIXED_LEN) {
        return Err(PerfError::Io(IoError::UnexpectedEof));
    }
    assert(data@.len() == data.len());
    let name_at = at + MMAP2_FIXED_LEN;
    let name_end = find_byte(data, 0, name_at, data.len());
    if name_end >= data.len() {
        return Err(PerfError::Io(IoError::UnexpectedEof));
    }
    let address = get_u64(data, at + 8);
    let protection = MemoryProtection::from_bits_truncate(get_u32(data, at + 56));
    let mapped = window_contains(data, name_at, name_end, name) && protection.contains(
        MemoryProtection::PROT_EXEC,
    );
    let consumed = (name_end - at + 1) as u64;
    Ok(
        (
            consumed,
            if mapped {
                Some(address)
            } else {
                None
            },
        ),
    )
}

/// Memory-map records, read at the cursor.
pub trait ReadMmap2EventExt: ReadExt {
    /// Reads the payload of a memory-map record. Returns the number of bytes
    /// read and, where the record maps the binary for execution, the address
    /// of the mapping: the candidate for the binary's load address.
    ///
    /// The binary is known by `object_path`, the last component of its path.
    /// It is looked for in the record's file name as a run of bytes, in the
    /// encoding that a `str` has: a loose match, which a longer name that
    /// holds it meets too.
    fn read_mmap2_event(&mut self, object_path: &str) -> (r: Result<(u64, Option<u64>), PerfError>)
        ensures
            final(self).source() == old(self).source(),
            match mmap2_at(old(self).source(), old(self).cursor(), object_path.spec_bytes()) {
                Ok((len, candidate)) => r matches Ok((consumed, found)) && consumed == len
                    && found == candidate && final(self).cursor() == old(self).cursor() + len,
                Err(error) => r == Err::<(u64, Option<u64>), PerfError>(error)
                    && final(self).cursor() == old(self).cursor(),
            },
    {
        let at = self.offset();
        let (consumed, candidate) = decode_mmap2(self.bytes(), at, object_path.as_bytes())?;
        self.seek(at as u64 + consumed)?;
        Ok((consumed, candidate))
    }
}

} // verus!
