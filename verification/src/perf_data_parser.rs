//! Decoding of `perf.data` traces.
//!
//! A trace is held in memory by a [`ByteReader`]. The traits [`ReadExt`],
//! [`ReadMmap2EventExt`], [`ReadSampleEventExt`] and [`ReadSectionExt`] read
//! its parts at the reader's cursor, and [`convert_perf_data_to_wtf`] reads a
//! whole trace. What each of them returns is stated over the bytes by the
//! functions whose names end in `_at`, `_from` and `_of`.

pub mod byte_order;
pub mod byte_reader;
pub mod error;
pub mod event_mmap2;
pub mod event_sample;
pub mod header;
pub mod perf_data_parser;
pub mod perf_json_parser;
pub mod sample_encoding;
pub mod symbolicator;

pub use byte_reader::{ByteReader, ByteSource};
pub use error::{FormatError, IoError, PerfError, SymbolizationFailure};
pub use event_mmap2::{MemoryProtection, ReadMmap2EventExt};
pub use event_sample::{ReadSampleEventExt, Sample, SampleFields, SampleRecord, SampleType};
pub use header::{
    bit, Attribute, EventHeader, EventType, ExtraHeadersPresent, Header, ReadExt, SectionInfo,
};
pub use perf_data_parser::{
    convert_perf_data_to_samples, convert_perf_data_to_wtf, ReadSectionExt,
};
pub use perf_json_parser::{Headers, Profile, Symbol};
pub use symbolicator::Symbolicator;
