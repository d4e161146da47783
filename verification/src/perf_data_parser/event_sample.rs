use super::byte_order::{fits, get_u32, get_u64, has_room, peek_u32, peek_u64, u32_le, u64_le};
use super::byte_reader::ByteSource;
use super::error::{FormatError, IoError, PerfError};
use super::header::ReadExt;
use super::symbolicator::{Symbolicator, SymbolicatorView};
use vstd::prelude::*;

verus! {

/// The fields that a sample record carries.
#[derive(Clone, Copy, Debug, PartialEq, Eq)]
pub struct SampleType {
    pub bits: u64,
}

impl SampleType {
    pub const IP: u64 = 0x1;

    pub const TID: u64 = 0x2;

    pub const TIME: u64 = 0x4;

    pub const ADDR: u64 = 0x8;

    pub const READ: u64 = 0x10;

    pub const CALLCHAIN: u64 = 0x20;

    pub const ID: u64 = 0x40;

    pub const CPU: u64 = 0x80;

    pub const PERIOD: u64 = 0x100;

    pub const STREAM_ID: u64 = 0x200;

    pub const RAW: u64 = 0x400;

    pub const BRANCH_STACK: u64 = 0x800;

    pub const REGS_USER: u64 = 0x1000;

    pub const STACK_USER: u64 = 0x2000;

    pub const WEIGHT: u64 = 0x4000;

    pub const DATA_SRC: u64 = 0x8000;

    pub const IDENTIFIER: u64 = 0x1_0000;

    pub const TRANSACTION: u64 = 0x2_0000;

    pub const REGS_INTR: u64 = 0x4_0000;

    pub const PHYS_ADDR: u64 = 0x8_0000;

    pub const AUX: u64 = 0x10_0000;

    pub const CGROUP: u64 = 0x20_0000;

    pub const DATA_PAGE_SIZE: u64 = 0x40_0000;

    pub const CODE_PAGE_SIZE: u64 = 0x80_0000;

    pub const WEIGHT_STRUCT: u64 = 0x100_0000;

    /// Every field that the format defines.
    pub const ALL: u64 = 0x1FF_FFFF;

    /// Whether every field of `flags` is carried.
    pub open spec fn has(self, flags: u64) -> bool {
        self.bits & flags == flags
    }

    /// The set that `bits` stands for, without the bits that stand for no field.
    pub fn from_bits_truncate(bits: u64) -> (r: Self)
        ensures
            r.bits == bits & Self::ALL,
    {
        SampleType { bits: bits & Self::ALL }
    }

    /// The bits of the set.
    pub fn bits(&self) -> (r: u64)
        ensures
            r == self.bits,
    {
        self.bits
    }

    /// Whether every flag of `flags` is in the set.
    pub fn contains(&self, flags: u64) -> (r: bool)
        ensures
            r == self.has(flags),
    {
        self.bits & flags == flags
    }
}


/// The fields of a sample record that have a fixed size, each present where
/// the record's `SampleType` has its flag.
#[derive(Clone, Copy, Debug, PartialEq, Eq)]
pub struct SampleFields {
    pub identifier: Option<u64>,
    pub ip: Option<u64>,
    pub pid: Option<u32>,
    pub tid: Option<u32>,
    pub time: Option<u64>,
    pub addr: Option<u64>,
    pub id: Option<u64>,
    pub stream_id: Option<u64>,
    pub cpu: Option<u32>,
    pub res: Option<u32>,
    pub period: Option<u64>,
}

/// A sample record as it is stored: its fixed-size fields, its call chain and
/// the declared size of its raw payload, which is skipped.
#[derive(Clone, Debug, PartialEq, Eq)]
pub struct SampleRecord {
    pub fields: SampleFields,
    pub callchain: Option<Vec<u64>>,
    pub raw_size: Option<u32>,
}

/// What a sample record is to the contracts.
pub struct SampleRecordView {
    pub fields: SampleFields,
    pub callchain: Option<Seq<u64>>,
    pub raw_size: Option<u32>,
}

impl View for SampleRecord {
    type V = SampleRecordView;

    open spec fn view(&self) -> SampleRecordView {
        SampleRecordView {
            fields: self.fields,
            callchain: match self.callchain {
                Some(chain) => Some(chain@),
                None => None,
            },
            raw_size: self.raw_size,
        }
    }
}

/// One captured call stack, with the thread that it was taken on and the
/// time at which it was taken.
#[derive(Clone, Debug, PartialEq, Eq)]
pub struct Sample {
    pub tid: u32,
    pub timestamp: u64,
    /// The names of the functions of the call chain, in its order.
    pub stacktrace: Vec<String>,
}

/// What a sample is to the contracts.
pub struct SampleView {
    pub tid: u32,
    pub timestamp: u64,
    pub stacktrace: Seq<Seq<char>>,
}

impl View for Sample {
    type V = SampleView;

    open spec fn view(&self) -> SampleView {
        SampleView {
            tid: self.tid,
            timestamp: self.timestamp,
            stacktrace: self.stacktrace@.map_values(|name: String| name@),
        }
    }
}

/// The view of a sample that may be absent.
pub open spec fn sample_view(sample: Option<Sample>) -> Option<SampleView> {
    match sample {
        Some(sample) => Some(sample@),
        None => None,
    }
}

/// The views of samples, in their order.
pub open spec fn sample_views(samples: Seq<Sample>) -> Seq<SampleView> {
    samples.map_values(|sample: Sample| sample@)
}

/// The number of bytes that the field of `flag` takes in a record of `mask`,
/// for a field of eight bytes.
pub open spec fn width(mask: SampleType, flag: u64) -> int {
    if mask.has(flag) {
        8
    } else {
        0
    }
}

/// The offset of the instruction pointer from the start of the payload.
///
/// The format fixes the order of the fixed-size fields: identifier,
/// instruction pointer, process and thread id, time, address, id, stream id,
/// cpu, period. A field starts where the ones before it end.
pub open spec fn ip_offset(mask: SampleType) -> int {
    width(mask, SampleType::IDENTIFIER)
}

/// The offset of the process and thread id.
pub open spec fn tid_offset(mask: SampleType) -> int {
    ip_offset(mask) + width(mask, SampleType::IP)
}

/// The offset of the time.
pub open spec fn time_offset(mask: SampleType) -> int {
    tid_offset(mask) + width(mask, SampleType::TID)
}

/// The offset of the address.
pub open spec fn addr_offset(mask: SampleType) -> int {
    time_offset(mask) + width(mask, SampleType::TIME)
}

/// The offset of the id.
pub open spec fn id_offset(mask: SampleType) -> int {
    addr_offset(mask) + width(mask, SampleType::ADDR)
}

/// The offset of the stream id.
pub open spec fn stream_id_offset(mask: SampleType) -> int {
    id_offset(mask) + width(mask, SampleType::ID)
}

/// The offset of the cpu.
pub open spec fn cpu_offset(mask: SampleType) -> int {
    stream_id_offset(mask) + width(mask, SampleType::STREAM_ID)
}

/// The offset of the period.
pub open spec fn period_offset(mask: SampleType) -> int {
    cpu_offset(mask) + width(mask, SampleType::CPU)
}

/// The number of bytes that the fixed-size fields take together.
pub open spec fn fixed_len(mask: SampleType) -> int {
    period_offset(mask) + width(mask, SampleType::PERIOD)
}

/// The 64-bit field of `flag` stored at `at`, where `mask` has the flag.
pub open spec fn u64_field(bytes: Seq<u8>, at: int, mask: SampleType, flag: u64) -> Option<u64> {
    if mask.has(flag) {
        Some(u64_le(bytes, at))
    } else {
        None
    }
}

/// The 32-bit field of `flag` stored at `at`, where `mask` has the flag.
pub open spec fn u32_field(bytes: Seq<u8>, at: int, mask: SampleType, flag: u64) -> Option<u32> {
    if mask.has(flag) {
        Some(u32_le(bytes, at))
    } else {
        None
    }
}

/// The fixed-size fields of the record of `mask` whose payload starts at `at`.
pub open spec fn fixed_fields_at(bytes: Seq<u8>, at: int, mask: SampleType) -> SampleFields {
    SampleFields {
        identifier: u64_field(bytes, at, mask, SampleType::IDENTIFIER),
        ip: u64_field(bytes, at + ip_offset(mask), mask, SampleType::IP),
        pid: u32_field(bytes, at + tid_offset(mask), mask, SampleType::TID),
        tid: u32_field(bytes, at + tid_offset(mask) + 4, mask, SampleType::TID),
        time: u64_field(bytes, at + time_offset(mask), mask, SampleType::TIME),
        addr: u64_field(bytes, at + addr_offset(mask), mask, SampleType::ADDR),
        id: u64_field(bytes, at + id_offset(mask), mask, SampleType::ID),
        stream_id: u64_field(bytes, at + stream_id_offset(mask), mask, SampleType::STREAM_ID),
        cpu: u32_field(bytes, at + cpu_offset(mask), mask, SampleType::CPU),
        res: u32_field(bytes, at + cpu_offset(mask) + 4, mask, SampleType::CPU),
        period: u64_field(bytes, at + period_offset(mask), mask, SampleType::PERIOD),
    }
}

/// The call chain stored at `at`: a 64-bit count, then that many 64-bit
/// instruction pointers. `None` where it is not there whole.
pub open spec fn callchain_at(bytes: Seq<u8>, at: int) -> Option<Seq<u64>> {
    if fits(bytes, at, 8) && fits(bytes, at + 8, 8 * u64_le(bytes, at)) {
        Some(Seq::new(u64_le(bytes, at) as nat, |i: int| u64_le(bytes, at + 8 + 8 * i)))
    } else {
        None
    }
}

/// The number of bytes that a call chain of `count` instruction pointers
/// takes, its count included.
pub open spec fn callchain_len(count: int) -> int {
    8 * (count + 1)
}

/// The number of bytes that a raw payload of `size` bytes takes: the
/// payload is padded to the next multiple of eight.
pub open spec fn padded_len(size: int) -> int {
    (size + 7) / 8 * 8
}

/// The declared size of the raw payload stored at `at`: a 32-bit size, then
/// the padded payload. `None` where it is not there whole.
pub open spec fn raw_size_at(bytes: Seq<u8>, at: int) -> Option<u32> {
    if fits(bytes, at, 4) && fits(bytes, at + 4, padded_len(u32_le(bytes, at) as int)) {
        Some(u32_le(bytes, at))
    } else {
        None
    }
}

/// The number of bytes that a raw payload of `size` bytes takes, its size
/// field included.
pub open spec fn raw_len(size: int) -> int {
    4 + padded_len(size)
}

/// The sample record of `mask` whose payload starts at `at`, and the number
/// of bytes of the payload that it takes.
///
/// The fields come in the order that the format fixes: the fixed-size
/// fields, the values read for the event's counters, the call chain, the raw
/// payload. The size of the counters' values is not known here, so a record
/// that carries them is rejected. The fields that the format puts behind the
/// raw payload are not decoded: they are not counted, and whoever reads the
/// record skips them by the record's declared size.
pub open spec fn sample_record_at(bytes: Seq<u8>, at: int, mask: SampleType) -> Result<
    (SampleRecordView, int),
    PerfError,
> {
    let chain_at = at + fixed_len(mask);
    let chain = callchain_at(bytes, chain_at);
    let raw_at = if mask.has(SampleType::CALLCHAIN) && chain is Some {
        chain_at + callchain_len(chain->0.len() as int)
    } else {
        chain_at
    };
    let raw = raw_size_at(bytes, raw_at);
    if !fits(bytes, at, fixed_len(mask)) {
        Err(PerfError::Io(IoError::UnexpectedEof))
    } else if mask.has(SampleType::READ) {
        Err(PerfError::Format(FormatError::UnsupportedSampleField))
    } else if mask.has(SampleType::CALLCHAIN) && chain is None {
        Err(PerfError::Io(IoError::UnexpectedEof))
    } else if mask.has(SampleType::RAW) && raw is None {
        Err(PerfError::Io(IoError::UnexpectedEof))
    } else {
        Ok(
            (
                SampleRecordView {
                    fields: fixed_fields_at(bytes, at, mask),
                    callchain: if mask.has(SampleType::CALLCHAIN) {
                        chain
                    } else {
                        None
                    },
                    raw_size: if mask.has(SampleType::RAW) {
                        raw
                    } else {
                        None
                    },
                },
                if mask.has(SampleType::RAW) {
                    raw_at + raw_len(raw->0 as int) - at
                } else {
                    raw_at - at
                },
            ),
        )
    }
}

/// The sample that a record gives: one that carries a thread id, a time and
/// a call chain gives a sample, with the call chain's instruction pointers
/// named in their order; any other record gives none.
pub open spec fn sample_of(record: SampleRecordView, symbolicator: SymbolicatorView) -> Option<
    SampleView,
> {
    if record.fields.tid is Some && record.fields.time is Some && record.callchain is Some {
        Some(
            SampleView {
                tid: record.fields.tid->0,
                timestamp: record.fields.time->0,
                stacktrace: symbolicator.resolve_all(record.callchain->0),
            },
        )
    } else {
        None
    }
}

/// A record gives a sample exactly where it carries a thread id, a time and
/// a call chain. The sample keeps the thread id and the time, and its stack
/// trace has one name for each instruction pointer of the call chain.
pub proof fn lemma_sample_of_record(record: SampleRecordView, symbolicator: SymbolicatorView)
    ensures
        sample_of(record, symbolicator) is Some <==> record.fields.tid is Some
            && record.fields.time is Some && record.callchain is Some,
        sample_of(record, symbolicator) matches Some(sample) ==> sample.tid
            == record.fields.tid->0 && sample.timestamp == record.fields.time->0
            && sample.stacktrace.len() == record.callchain->0.len(),
{
}

/// The number of bytes that a raw payload of `size` bytes is padded to.
pub fn raw_padded_len(size: u32) -> (r: u64)
    ensures
        r == padded_len(size as int),
        r % 8 == 0,
        size <= r < size + 8,
        1 <= size <= 8 ==> r == 8,
{
    (size as u64 + 7) / 8 * 8
}

/// Takes the 64-bit field of a flag at `*at`, if `present`, and moves `*at`
/// behind it.
fn take_u64(data: &[u8], at: &mut usize, present: bool) -> (r: Result<Option<u64>, PerfError>)
    ensures
        match r {
            Ok(value) => if present {
                fits(data@, *old(at) as int, 8) && value == Some(u64_le(data@, *old(at) as int))
                    && *final(at) == *old(at) + 8
            } else {
                value is None && *final(at) == *old(at)
            },
            Err(error) => present && !fits(data@, *old(at) as int, 8) && error == PerfError::Io(
                IoError::UnexpectedEof,
            ) && *final(at) == *old(at),
        },
{
    if !present {
        return Ok(None);
    }
    match peek_u64(data, *at) {
        Some(value) => {
            assert(data@.len() == data.len());
            *at = *at + 8;
            Ok(Some(value))
        },
        None => Err(PerfError::Io(IoError::UnexpectedEof)),
    }
}

/// Takes the two 32-bit halves of a flag's field at `*at`, if `present`, and
/// moves `*at` behind them.
fn take_u32_pair(data: &[u8], at: &mut usize, present: bool) -> (r: Result<
    (Option<u32>, Option<u32>),
    PerfError,
>)
    ensures
        match r {
            Ok((first, second)) => if present {
                fits(data@, *old(at) as int, 8) && first == Some(u32_le(data@, *old(at) as int))
                    && second == Some(u32_le(data@, *old(at) + 4)) && *final(at) == *old(at) + 8
            } else {
                first is None && second is None && *final(at) == *old(at)
            },
            Err(error) => present && !fits(data@, *old(at) as int, 8) && error == PerfError::Io(
                IoError::UnexpectedEof,
            ) && *final(at) == *old(at),
        },
{
    if !present {
        return Ok((None, None));
    }
    if !has_room(data, *at, 8) {
        return Err(PerfError::Io(IoError::UnexpectedEof));
    }
    let first = get_u32(data, *at);
    let second = get_u32(data, *at + 4);
    *at = *at + 8;
    Ok((Some(first), Some(second)))
}

/// Decodes the call chain stored at `at`.
fn decode_callchain(data: &[u8], at: usize) -> (r: Option<Vec<u64>>)
    ensures
        match callchain_at(data@, at as int) {
            Some(chain) => r matches Some(found) && found@ == chain,
            None => r is None,
        },
{
    let count = match peek_u64(data, at) {
        Some(count) => count,
        None => {
            return None;
        },
    };
    assert(data@.len() == data.len());
    let first = at + 8;
    let room = data.len() - first;
    if count > (room / 8) as u64 {
        return None;
    }
    let mut chain: Vec<u64> = Vec::new();
    let mut i: usize = 0;
    while i < count as usize
        invariant
            i <= count,
            first == at + 8,
            first + 8 * count <= data@.len() <= usize::MAX,
            chain.len() == i,
            forall|j: int| 0 <= j < i ==> #[trigger] chain[j] == u64_le(data@, first + 8 * j),
        decreases count - i,
    {
        chain.push(get_u64(data, first + 8 * i));
        i = i + 1;
    }
    assert(chain@ =~= callchain_at(data@, at as int)->0);
    Some(chain)
}

/// Decodes the fixed-size fields of the record of `mask` whose payload starts
/// at `at`, and tells where they end.
fn decode_fixed_fields(data: &[u8], at: usize, mask: SampleType) -> (r: Result<
    (SampleFields, usize),
    PerfError,
>)
    ensures
        match r {
            Ok((fields, end)) => fits(data@, at as int, fixed_len(mask)) && fields
                == fixed_fields_at(data@, at as int, mask) && end == at + fixed_len(mask),
            Err(error) => !fits(data@, at as int, fixed_len(mask)) && error == PerfError::Io(
                IoError::UnexpectedEof,
            ),
        },
{
    if !has_room(data, at, 0) {
        return Err(PerfError::Io(IoError::UnexpectedEof));
    }
    let mut next: usize = at;
    let identifier = take_u64(data, &mut next, mask.contains(SampleType::IDENTIFIER))?;
    assert(next == at + ip_offset(mask));
    let ip = take_u64(data, &mut next, mask.contains(SampleType::IP))?;
    assert(next == at + tid_offset(mask));
    let (pid, tid) = take_u32_pair(data, &mut next, mask.contains(SampleType::TID))?;
    assert(next == at + time_offset(mask));
    let time = take_u64(data, &mut next, mask.contains(SampleType::TIME))?;
    assert(next == at + addr_offset(mask));
    let addr = take_u64(data, &mut next, mask.contains(SampleType::ADDR))?;
    assert(next == at + id_offset(mask));
    let id = take_u64(data, &mut next, mask.contains(SampleType::ID))?;
    assert(next == at + stream_id_offset(mask));
    let stream_id = take_u64(data, &mut next, mask.contains(SampleType::STREAM_ID))?;
    assert(next == at + cpu_offset(mask));
    let (cpu, res) = take_u32_pair(data, &mut next, mask.contains(SampleType::CPU))?;
    assert(next == at + period_offset(mask));
    let period = take_u64(data, &mut next, mask.contains(SampleType::PERIOD))?;
    assert(next == at + fixed_len(mask));
    Ok(
        (
            SampleFields { identifier, ip, pid, tid, time, addr, id, stream_id, cpu, res, period },
            next,
        ),
    )
}

/// Decodes the sample record of `mask` whose payload starts at `at`, and
/// tells how many bytes of the payload it takes.
pub fn decode_sample_record(data: &[u8], at: usize, mask: SampleType) -> (r: Result<
    (SampleRecord, u64),
    PerfError,
>)
    ensures
        match sample_record_at(data@, at as int, mask) {
            Ok((record, len)) => r matches Ok((found, consumed)) && found@ == record && consumed
                == len,
            Err(error) => r matches Err(found) && found == error,
        },
{
    let length = data.len();
    let (fields, fixed_end) = decode_fixed_fields(data, at, mask)?;
    let mut next: usize = fixed_end;
    if mask.contains(SampleType::READ) {
        return Err(PerfError::Format(FormatError::UnsupportedSampleField));
    }
    let mut callchain: Option<Vec<u64>> = None;
    if mask.contains(SampleType::CALLCHAIN) {
        match decode_callchain(data, next) {
            Some(chain) => {
                next = next + 8 * (chain.len() + 1);
                callchain = Some(chain);
            },
            None => {
                return Err(PerfError::Io(IoError::UnexpectedEof));
            },
        }
    }
    let mut raw_size: Option<u32> = None;
    if mask.contains(SampleType::RAW) {
        let size = match peek_u32(data, next) {
            Some(size) => size,
            None => {
                return Err(PerfError::Io(IoError::UnexpectedEof));
            },
        };
        let padded = raw_padded_len(size);
        if padded > (length - (next + 4)) as u64 {
            return Err(PerfError::Io(IoError::UnexpectedEof));
        }
        next = next + 4 + padded as usize;
        raw_size = Some(size);
    }
    Ok((SampleRecord { fields, callchain, raw_size }, (next - at) as u64))
}

/// The sample that `record` gives, with its call chain named by
/// `symbolicator`.
pub fn symbolize(record: &SampleRecord, symbolicator: &Symbolicator) -> (r: Option<Sample>)
    ensures
        sample_view(r) == sample_of(record@, symbolicator@),
{
    match (record.fields.tid, record.fields.time, &record.callchain) {
        (Some(tid), Some(timestamp), Some(chain)) => Some(
            Sample { tid, timestamp, stacktrace: symbolicator.lookup_symbols(chain) },
        ),
        _ => None,
    }
}

/// Sample records, read at the cursor.
pub trait ReadSampleEventExt: ReadExt {
    /// Reads the payload of a sample record whose fields `sample_type`
    /// names. Returns the number of bytes of the payload that were read,
    /// and the sample where the record gives one.
    ///
    /// The cursor stops behind the last field that is decoded, which need
    /// not be the end of the record.
    fn read_sample_event(&mut self, sample_type: SampleType, symbolicator: &Symbolicator) -> (r:
        Result<(u64, Option<Sample>), PerfError>)
        ensures
            final(self).source() == old(self).source(),
            match sample_record_at(old(self).source(), old(self).cursor(), sample_type) {
                Ok((record, len)) => r matches Ok((consumed, sample)) && consumed == len
                    && sample_view(sample) == sample_of(record, symbolicator@)
                    && final(self).cursor() == old(self).cursor() + len,
                Err(error) => r matches Err(found) && found == error && final(self).cursor()
                    == old(self).cursor(),
            },
    {
        let at = self.offset();
        let (record, consumed) = decode_sample_record(self.bytes(), at, sample_type)?;
        let sample = symbolize(&record, symbolicator);
        self.seek(at as u64 + consumed)?;
        Ok((consumed, sample))
    }
}

} // verus!
