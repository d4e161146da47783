use super::byte_order::{
    fits, get_u16, get_u64, has_room, peek_u16, peek_u32, peek_u64, peek_u8, u16_at, u16_le,
    u32_at, u32_le, u64_at, u64_le, u8_at,
};
use super::byte_reader::ByteSource;
use super::error::{FormatError, IoError, PerfError};
use super::event_sample::SampleType;
use vstd::prelude::*;

verus! {

/// The mask with only bit `n` set.
pub fn bit(n: u64) -> (r: u64)
    requires
        n < 64,
    ensures
        r == 1u64 << n,
{
    1u64 << n
}

/// Which optional metadata blocks follow the data section.
#[derive(Clone, Copy, Debug, PartialEq, Eq)]
pub struct ExtraHeadersPresent {
    pub bits: u64,
}

impl ExtraHeadersPresent {
    pub const TRACING_DATA: u64 = 0x2;

    pub const BUILD_ID: u64 = 0x4;

    pub const HOSTNAME: u64 = 0x8;

    pub const OSRELEASE: u64 = 0x10;

    pub const VERSION: u64 = 0x20;

    pub const ARCH: u64 = 0x40;

    pub const NRCPUS: u64 = 0x80;

    pub const CPUDESC: u64 = 0x100;

    pub const CPUID: u64 = 0x200;

    pub const TOTAL_MEM: u64 = 0x400;

    pub const CMDLINE: u64 = 0x800;

    pub const EVENT_DESC: u64 = 0x1000;

    pub const CPU_TOPOLOGY: u64 = 0x2000;

    pub const NUMA_TOPOLOGY: u64 = 0x4000;

    pub const BRANCH_STACK: u64 = 0x8000;

    pub const PMU_MAPPINGS: u64 = 0x1_0000;

    pub const GROUP_DESC: u64 = 0x2_0000;

    pub const AUXTRACE: u64 = 0x4_0000;

    pub const STAT: u64 = 0x8_0000;

    pub const CACHE: u64 = 0x10_0000;

    pub const SAMPLE_TIME: u64 = 0x20_0000;

    pub const MEM_TOPOLOGY: u64 = 0x40_0000;

    pub const CLOCKID: u64 = 0x80_0000;

    pub const DIR_FORMAT: u64 = 0x100_0000;

    pub const BPF_PROG_INFO: u64 = 0x200_0000;

    pub const BPF_BTF: u64 = 0x400_0000;

    pub const COMPRESSED: u64 = 0x800_0000;

    pub const CPU_PMU_CAPS: u64 = 0x1000_0000;

    pub const CLOCK_DATA: u64 = 0x2000_0000;

    pub const HYBRID_TOPOLOGY: u64 = 0x4000_0000;

    pub const HYBRID_CPU_PMU_CAPS: u64 = 0x8000_0000;

    /// Every block that the format defines.
    pub const ALL: u64 = 0xFFFF_FFFE;

    /// Whether every block of `flags` is present.
    pub open spec fn has(self, flags: u64) -> bool {
        self.bits & flags == flags
    }

    /// The set that `bits` stands for, without the bits that stand for no block.
    pub fn from_bits_truncate(bits: u64) -> (r: Self)
        ensures
            r.bits == bits & Self::ALL,
    {
        ExtraHeadersPresent { bits: bits & Self::ALL }
    }

    /// The bits of the set.
    pub fn bits(&self) -> (r: u64)
        ensures
            r == self.bits,
    {
        self.bits
    }

    /// Whether every flag of `flags` is in the set.
    pub fn contains(&self, flags: u64) -> (r: bool)
        ensures
            r == self.has(flags),
    {
        self.bits & flags == flags
    }
}

/// Where a region of the file starts, and how many bytes it has.
#[derive(Clone, Copy, Debug, PartialEq, Eq)]
pub struct SectionInfo {
    pub offset: u64,
    pub size: u64,
}

/// What the file header says of the rest of the file.
#[derive(Clone, Copy, Debug, PartialEq, Eq)]
pub struct Header {
    /// The size of one record of the attribute section.
    pub attribute_size: u64,
    pub attribute_section: SectionInfo,
    pub data_section: SectionInfo,
    pub extra_headers_present: ExtraHeadersPresent,
}

/// One event configuration of the attribute section.
#[derive(Clone, Copy, Debug, PartialEq, Eq)]
pub struct Attribute {
    /// The sampling frequency, or the sampling period.
    pub frequency: u64,
    /// The fields that every sample record of the data section carries.
    pub sample_type: SampleType,
}

/// The kinds of record that the format defines.
#[allow(non_camel_case_types)]
#[derive(Clone, Copy, Debug, PartialEq, Eq)]
pub enum EventType {
    MMAP,
    LOST,
    COMM,
    EXIT,
    THROTTLE,
    UNTHROTTLE,
    FORK,
    READ,
    SAMPLE,
    MMAP2,
    AUX,
    ITRACE_START,
    LOST_SAMPLES,
    SWITCH,
    SWITCH_CPU_WIDE,
    NAMESPACES,
    KSYMBOL,
    BPF_EVENT,
    CGROUP,
    TEXT_POKE,
    AUX_OUTPUT_HW_ID,
    HEADER_ATTR,
    HEADER_EVENT_TYPE,
    HEADER_TRACING_DATA,
    HEADER_BUILD_ID,
    FINISHED_ROUND,
    ID_INDEX,
    AUXTRACE_INFO,
    AUXTRACE,
    AUXTRACE_ERROR,
    THREAD_MAP,
    CPU_MAP,
    STAT_CONFIG,
    STAT,
    STAT_ROUND,
    EVENT_UPDATE,
    TIME_CONV,
    HEADER_FEATURE,
    COMPRESSED,
}

/// Whether the format defines a kind of record with this code.
pub open spec fn is_event_code(code: u32) -> bool {
    1 <= code <= 21 || 64 <= code <= 81
}

impl EventType {
    /// The number that stands for this kind of record in an event header.
    pub open spec fn code(self) -> u32 {
        match self {
            EventType::MMAP => 1,
            EventType::LOST => 2,
            EventType::COMM => 3,
            EventType::EXIT => 4,
            EventType::THROTTLE => 5,
            EventType::UNTHROTTLE => 6,
            EventType::FORK => 7,
            EventType::READ => 8,
            EventType::SAMPLE => 9,
            EventType::MMAP2 => 10,
            EventType::AUX => 11,
            EventType::ITRACE_START => 12,
            EventType::LOST_SAMPLES => 13,
            EventType::SWITCH => 14,
            EventType::SWITCH_CPU_WIDE => 15,
            EventType::NAMESPACES => 16,
            EventType::KSYMBOL => 17,
            EventType::BPF_EVENT => 18,
            EventType::CGROUP => 19,
            EventType::TEXT_POKE => 20,
            EventType::AUX_OUTPUT_HW_ID => 21,
            EventType::HEADER_ATTR => 64,
            EventType::HEADER_EVENT_TYPE => 65,
            EventType::HEADER_TRACING_DATA => 66,
            EventType::HEADER_BUILD_ID => 67,
            EventType::FINISHED_ROUND => 68,
            EventType::ID_INDEX => 69,
            EventType::AUXTRACE_INFO => 70,
            EventType::AUXTRACE => 71,
            EventType::AUXTRACE_ERROR => 72,
            EventType::THREAD_MAP => 73,
            EventType::CPU_MAP => 74,
            EventType::STAT_CONFIG => 75,
            EventType::STAT => 76,
            EventType::STAT_ROUND => 77,
            EventType::EVENT_UPDATE => 78,
            EventType::TIME_CONV => 79,
            EventType::HEADER_FEATURE => 80,
            EventType::COMPRESSED => 81,
        }
    }

    /// The kind of record that `code` stands for. A code that the format
    /// does not define is an error: it shows that the trace is of another
    /// format, or that the decoder has lost its place.
    pub fn from_code(code: u32) -> (r: Result<EventType, PerfError>)
        ensures
            match r {
                Ok(event_type) => event_type.code() == code,
                Err(error) => error == PerfError::Format(FormatError::UnknownEventType(code)),
            },
            r is Ok <==> is_event_code(code),
    {
        match code {
            1 => Ok(EventType::MMAP),
            2 => Ok(EventType::LOST),
            3 => Ok(EventType::COMM),
            4 => Ok(EventType::EXIT),
            5 => Ok(EventType::THROTTLE),
            6 => Ok(EventType::UNTHROTTLE),
            7 => Ok(EventType::FORK),
            8 => Ok(EventType::READ),
            9 => Ok(EventType::SAMPLE),
            10 => Ok(EventType::MMAP2),
            11 => Ok(EventType::AUX),
            12 => Ok(EventType::ITRACE_START),
            13 => Ok(EventType::LOST_SAMPLES),
            14 => Ok(EventType::SWITCH),
            15 => Ok(EventType::SWITCH_CPU_WIDE),
            16 => Ok(EventType::NAMESPACES),
            17 => Ok(EventType::KSYMBOL),
            18 => Ok(EventType::BPF_EVENT),
            19 => Ok(EventType::CGROUP),
            20 => Ok(EventType::TEXT_POKE),
            21 => Ok(EventType::AUX_OUTPUT_HW_ID),
            64 => Ok(EventType::HEADER_ATTR),
            65 => Ok(EventType::HEADER_EVENT_TYPE),
            66 => Ok(EventType::HEADER_TRACING_DATA),
            67 => Ok(EventType::HEADER_BUILD_ID),
            68 => Ok(EventType::FINISHED_ROUND),
            69 => Ok(EventType::ID_INDEX),
            70 => Ok(EventType::AUXTRACE_INFO),
            71 => Ok(EventType::AUXTRACE),
            72 => Ok(EventType::AUXTRACE_ERROR),
            73 => Ok(EventType::THREAD_MAP),
            74 => Ok(EventType::CPU_MAP),
            75 => Ok(EventType::STAT_CONFIG),
            76 => Ok(EventType::STAT),
            77 => Ok(EventType::STAT_ROUND),
            78 => Ok(EventType::EVENT_UPDATE),
            79 => Ok(EventType::TIME_CONV),
            80 => Ok(EventType::HEADER_FEATURE),
            81 => Ok(EventType::COMPRESSED),
            _ => Err(PerfError::Format(FormatError::UnknownEventType(code))),
        }
    }
}

/// The codes that the format defines are those of the kinds of record, and
/// no two kinds share a code.
pub proof fn lemma_event_codes(a: EventType, b: EventType)
    ensures
        is_event_code(a.code()),
        a.code() == b.code() ==> a == b,
{
}

/// What every record of the data section starts with.
#[derive(Clone, Copy, Debug, PartialEq, Eq)]
pub struct EventHeader {
    pub event_type: EventType,
    /// The size of the record in bytes, these eight included.
    pub event_size: u16,
}

/// The token that a trace starts with: the ASCII letters of `PERFILE2`.
pub open spec fn magic() -> Seq<u8> {
    seq![0x50u8, 0x45u8, 0x52u8, 0x46u8, 0x49u8, 0x4cu8, 0x45u8, 0x32u8]
}

/// The number of bytes of the file header that are decoded.
pub const HEADER_LEN: usize = 80;

/// The number of bytes of an event header.
pub const EVENT_HEADER_LEN: usize = 8;

/// The section descriptor stored at `at`.
pub open spec fn section_info_le(bytes: Seq<u8>, at: int) -> SectionInfo {
    SectionInfo { offset: u64_le(bytes, at), size: u64_le(bytes, at + 8) }
}

/// The section descriptor at `at`, if its sixteen bytes are there.
pub open spec fn section_info_at(bytes: Seq<u8>, at: int) -> Option<SectionInfo> {
    if fits(bytes, at, 16) {
        Some(section_info_le(bytes, at))
    } else {
        None
    }
}

/// The eight bytes at `at`, if they are there.
pub open spec fn version_at(bytes: Seq<u8>, at: int) -> Option<Seq<u8>> {
    if fits(bytes, at, 8) {
        Some(bytes.subrange(at, at + 8))
    } else {
        None
    }
}

/// The file header stored at `at`: the magic token, the header's size, the
/// size of an attribute record, the descriptors of the attribute section, of
/// the data section and of a third, reserved section, and the mask of the
/// metadata blocks.
pub open spec fn header_at(bytes: Seq<u8>, at: int) -> Result<Header, PerfError> {
    if !fits(bytes, at, 8) {
        Err(PerfError::Io(IoError::UnexpectedEof))
    } else if bytes.subrange(at, at + 8) != magic() {
        Err(PerfError::Format(FormatError::BadMagic))
    } else if !fits(bytes, at, HEADER_LEN as int) {
        Err(PerfError::Io(IoError::UnexpectedEof))
    } else {
        Ok(
            Header {
                attribute_size: u64_le(bytes, at + 16),
                attribute_section: section_info_le(bytes, at + 24),
                data_section: section_info_le(bytes, at + 40),
                extra_headers_present: ExtraHeadersPresent {
                    bits: u64_le(bytes, at + 72) & ExtraHeadersPresent::ALL,
                },
            },
        )
    }
}

/// The code and the size of the event header stored at `at`: a 32-bit type
/// code, sixteen bits that are not decoded, and the 16-bit size.
pub open spec fn event_header_at(bytes: Seq<u8>, at: int) -> Result<(u32, u16), PerfError> {
    if !fits(bytes, at, 4) {
        Err(PerfError::Io(IoError::UnexpectedEof))
    } else if !is_event_code(u32_le(bytes, at)) {
        Err(PerfError::Format(FormatError::UnknownEventType(u32_le(bytes, at))))
    } else if !fits(bytes, at, EVENT_HEADER_LEN as int) {
        Err(PerfError::Io(IoError::UnexpectedEof))
    } else {
        Ok((u32_le(bytes, at), u16_le(bytes, at + 6)))
    }
}

/// A header that is there whole is rejected exactly where its first eight
/// bytes are not the magic token, and a header that is cut short is always
/// rejected: as a short read, unless eight bytes are there that are not the
/// token.
pub proof fn lemma_header_rejection(bytes: Seq<u8>, at: int)
    requires
        0 <= at,
    ensures
        fits(bytes, at, HEADER_LEN as int) ==> (header_at(bytes, at) is Err <==> bytes.subrange(
            at,
            at + 8,
        ) != magic()),
        fits(bytes, at, HEADER_LEN as int) && header_at(bytes, at) is Err ==> header_at(bytes, at)
            == Err::<Header, PerfError>(PerfError::Format(FormatError::BadMagic)),
        !fits(bytes, at, HEADER_LEN as int) ==> header_at(bytes, at) is Err,
        !fits(bytes, at, HEADER_LEN as int) && !(fits(bytes, at, 8) && bytes.subrange(at, at + 8)
            != magic()) ==> header_at(bytes, at) == Err::<Header, PerfError>(
            PerfError::Io(IoError::UnexpectedEof),
        ),
{
}

/// Whether the eight bytes at `at` are the magic token.
fn starts_with_magic(data: &[u8], at: usize) -> (r: bool)
    requires
        fits(data@, at as int, 8),
    ensures
        r == (data@.subrange(at as int, at + 8) == magic()),
{
    let found = data[at] == 0x50 && data[at + 1] == 0x45 && data[at + 2] == 0x52 && data[at + 3]
        == 0x46 && data[at + 4] == 0x49 && data[at + 5] == 0x4c && data[at + 6] == 0x45 && data[at
        + 7] == 0x32;
    proof {
        let window = data@.subrange(at as int, at + 8);
        if found {
            assert(window =~= magic());
        } else {
            assert(window[0] == data@[at as int]);
            assert(window[1] == data@[at + 1]);
            assert(window[2] == data@[at + 2]);
            assert(window[3] == data@[at + 3]);
            assert(window[4] == data@[at + 4]);
            assert(window[5] == data@[at + 5]);
            assert(window[6] == data@[at + 6]);
            assert(window[7] == data@[at + 7]);
        }
    }
    found
}

/// The fixed-size values of a trace, read at the cursor.
///
/// Each method decodes the value that starts at the cursor and moves the
/// cursor behind it. Where the value is not there whole, or is not valid,
/// the method fails and the cursor stays.
pub trait ReadExt: ByteSource {
    fn read_u8(&mut self) -> (r: Result<u8, PerfError>)
        ensures
            final(self).source() == old(self).source(),
            match u8_at(old(self).source(), old(self).cursor()) {
                Some(value) => r == Ok::<u8, PerfError>(value) && final(self).cursor() == old(
                    self,
                ).cursor() + 1,
                None => r == Err::<u8, PerfError>(PerfError::Io(IoError::UnexpectedEof))
                    && final(self).cursor() == old(self).cursor(),
            },
    {
        let at = self.offset();
        match peek_u8(self.bytes(), at) {
            Some(value) => {
                self.seek((at + 1) as u64)?;
                Ok(value)
            },
            None => Err(PerfError::Io(IoError::UnexpectedEof)),
        }
    }

    fn read_u16(&mut self) -> (r: Result<u16, PerfError>)
        ensures
            final(self).source() == old(self).source(),
            match u16_at(old(self).source(), old(self).cursor()) {
                Some(value) => r == Ok::<u16, PerfError>(value) && final(self).cursor() == old(
                    self,
                ).cursor() + 2,
                None => r == Err::<u16, PerfError>(PerfError::Io(IoError::UnexpectedEof))
                    && final(self).cursor() == old(self).cursor(),
            },
    {
        let at = self.offset();
        match peek_u16(self.bytes(), at) {
            Some(value) => {
                self.seek((at + 2) as u64)?;
                Ok(value)
            },
            None => Err(PerfError::Io(IoError::UnexpectedEof)),
        }
    }

    fn read_u32(&mut self) -> (r: Result<u32, PerfError>)
        ensures
            final(self).source() == old(self).source(),
            match u32_at(old(self).source(), old(self).cursor()) {
                Some(value) => r == Ok::<u32, PerfError>(value) && final(self).cursor() == old(
                    self,
                ).cursor() + 4,
                None => r == Err::<u32, PerfError>(PerfError::Io(IoError::UnexpectedEof))
                    && final(self).cursor() == old(self).cursor(),
            },
    {
        let at = self.offset();
        match peek_u32(self.bytes(), at) {
            Some(value) => {
                self.seek((at + 4) as u64)?;
                Ok(value)
            },
            None => Err(PerfError::Io(IoError::UnexpectedEof)),
        }
    }

    fn read_u64(&mut self) -> (r: Result<u64, PerfError>)
        ensures
            final(self).source() == old(self).source(),
            match u64_at(old(self).source(), old(self).cursor()) {
                Some(value) => r == Ok::<u64, PerfError>(value) && final(self).cursor() == old(
                    self,
                ).cursor() + 8,
                None => r == Err::<u64, PerfError>(PerfError::Io(IoError::UnexpectedEof))
                    && final(self).cursor() == old(self).cursor(),
            },
    {
        let at = self.offset();
        match peek_u64(self.bytes(), at) {
            Some(value) => {
                self.seek((at + 8) as u64)?;
                Ok(value)
            },
            None => Err(PerfError::Io(IoError::UnexpectedEof)),
        }
    }

    /// Reads the eight bytes that hold the magic token, whatever they are.
    fn read_version(&mut self) -> (r: Result<[u8; 8], PerfError>)
        ensures
            final(self).source() == old(self).source(),
            match version_at(old(self).source(), old(self).cursor()) {
                Some(token) => r matches Ok(found) && found@ == token && final(self).cursor()
                    == old(self).cursor() + 8,
                None => r matches Err(error) && error == PerfError::Io(IoError::UnexpectedEof)
                    && final(self).cursor() == old(self).cursor(),
            },
    {
        let at = self.offset();
        let data = self.bytes();
        if !has_room(data, at, 8) {
            return Err(PerfError::Io(IoError::UnexpectedEof));
        }
        let token: [u8; 8] = [
            data[at],
            data[at + 1],
            data[at + 2],
            data[at + 3],
            data[at + 4],
            data[at + 5],
            data[at + 6],
            data[at + 7],
        ];
        assert(token@ =~= data@.subrange(at as int, at + 8));
        self.seek((at + 8) as u64)?;
        Ok(token)
    }

    fn read_section_info(&mut self) -> (r: Result<SectionInfo, PerfError>)
        ensures
            final(self).source() == old(self).source(),
            match section_info_at(old(self).source(), old(self).cursor()) {
                Some(info) => r == Ok::<SectionInfo, PerfError>(info) && final(self).cursor()
                    == old(self).cursor() + 16,
                None => r == Err::<SectionInfo, PerfError>(PerfError::Io(IoError::UnexpectedEof))
                    && final(self).cursor() == old(self).cursor(),
            },
    {
        let at = self.offset();
        let data = self.bytes();
        if !has_room(data, at, 16) {
            return Err(PerfError::Io(IoError::UnexpectedEof));
        }
        let info = SectionInfo { offset: get_u64(data, at), size: get_u64(data, at + 8) };
        self.seek((at + 16) as u64)?;
        Ok(info)
    }

    fn read_extra_headers_present(&mut self) -> (r: Result<ExtraHeadersPresent, PerfError>)
        ensures
            final(self).source() == old(self).source(),
            match u64_at(old(self).source(), old(self).cursor()) {
                Some(bits) => r == Ok::<ExtraHeadersPresent, PerfError>(
                    ExtraHeadersPresent { bits: bits & ExtraHeadersPresent::ALL },
                ) && final(self).cursor() == old(self).cursor() + 8,
                None => r == Err::<ExtraHeadersPresent, PerfError>(
                    PerfError::Io(IoError::UnexpectedEof),
                ) && final(self).cursor() == old(self).cursor(),
            },
    {
        match self.read_u64() {
            Ok(bits) => Ok(ExtraHeadersPresent::from_bits_truncate(bits)),
            Err(error) => Err(error),
        }
    }

    /// Reads the file header. It is there whole or not at all: the magic
    /// token is tested first, and a file that starts with another token is
    /// rejected as being of another format.
    fn read_header(&mut self) -> (r: Result<Header, PerfError>)
        ensures
            final(self).source() == old(self).source(),
            r == header_at(old(self).source(), old(self).cursor()),
            final(self).cursor() == if r is Ok {
                old(self).cursor() + HEADER_LEN
            } else {
                old(self).cursor()
            },
    {
        let at = self.offset();
        let data = self.bytes();
        if !has_room(data, at, 8) {
            return Err(PerfError::Io(IoError::UnexpectedEof));
        }
        if !starts_with_magic(data, at) {
            return Err(PerfError::Format(FormatError::BadMagic));
        }
        if !has_room(data, at, HEADER_LEN) {
            return Err(PerfError::Io(IoError::UnexpectedEof));
        }
        let header = Header {
            attribute_size: get_u64(data, at + 16),
            attribute_section: SectionInfo {
                offset: get_u64(data, at + 24),
                size: get_u64(data, at + 32),
            },
            data_section: SectionInfo {
                offset: get_u64(data, at + 40),
                size: get_u64(data, at + 48),
            },
            extra_headers_present: ExtraHeadersPresent::from_bits_truncate(
                get_u64(data, at + 72),
            ),
        };
        self.seek((at + HEADER_LEN) as u64)?;
        Ok(header)
    }

    /// Reads the header of an event record.
    fn read_event_header(&mut self) -> (r: Result<EventHeader, PerfError>)
        ensures
            final(self).source() == old(self).source(),
            match event_header_at(old(self).source(), old(self).cursor()) {
                Ok((code, size)) => r matches Ok(header) && header.event_type.code() == code
                    && header.event_size == size && final(self).cursor() == old(self).cursor()
                    + EVENT_HEADER_LEN,
                Err(error) => r == Err::<EventHeader, PerfError>(error) && final(self).cursor()
                    == old(self).cursor(),
            },
    {
        let at = self.offset();
        let data = self.bytes();
        let code = match peek_u32(data, at) {
            Some(code) => code,
            None => {
                return Err(PerfError::Io(IoError::UnexpectedEof));
            },
        };
        let event_type = match EventType::from_code(code) {
            Ok(event_type) => event_type,
            Err(error) => {
                return Err(error);
            },
        };
        if !has_room(data, at, EVENT_HEADER_LEN) {
            return Err(PerfError::Io(IoError::UnexpectedEof));
        }
        let event_size = get_u16(data, at + 6);
        self.seek((at + EVENT_HEADER_LEN) as u64)?;
        Ok(EventHeader { event_type, event_size })
    }

    /// Reads the metadata blocks that `header` declares. None of them is
    /// decoded yet: nothing is read.
    fn read_extra_headers(&mut self, header: &Header) -> (r: Result<(), PerfError>)
        ensures
            r is Ok,
            final(self).source() == old(self).source(),
            final(self).cursor() == old(self).cursor(),
    {
        Ok(())
    }
}

} // verus!
