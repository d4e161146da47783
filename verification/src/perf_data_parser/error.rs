use vstd::prelude::*;

verus! {

/// A trace whose contents break the format.
#[derive(Clone, Copy, Debug, PartialEq, Eq)]
pub enum FormatError {
    /// The file does not start with the magic token.
    BadMagic,
    /// An event record carries a type code that the format does not define.
    UnknownEventType(u32),
    /// A sample record carries a field whose length this decoder cannot tell.
    UnsupportedSampleField,
    /// The attribute section is not empty, but its records have size zero.
    ZeroAttributeSize,
    /// The attribute section declares no event configuration.
    NoAttributes,
}

/// A read or a seek that the input is too short for.
#[derive(Clone, Copy, Debug, PartialEq, Eq)]
pub enum IoError {
    /// Fewer bytes are left than the value needs.
    UnexpectedEof,
    /// The target of a seek lies behind the last byte.
    SeekPastEnd,
}

/// The profiled binary cannot be used to name addresses.
#[derive(Clone, Copy, Debug, PartialEq, Eq)]
pub enum SymbolizationFailure {
    /// The binary is not an object file of a known format.
    UnreadableObject,
    /// The binary's debug sections could not be parsed.
    UnreadableDebugData,
    /// The binary has no executable-code section.
    MissingTextSection,
}

/// Why a conversion stopped. Every variant is fatal: nothing is retried.
#[derive(Clone, Copy, Debug, PartialEq, Eq)]
pub enum PerfError {
    Format(FormatError),
    Io(IoError),
    Symbolization(SymbolizationFailure),
    /// A record's decoder consumed more bytes than the record declares.
    Synchronization,
}

impl PerfError {
    /// The text of `message`.
    pub open spec fn message_text(self) -> Seq<char> {
        match self {
            PerfError::Format(FormatError::BadMagic) => "invalid perf.data magic: expected PERFILE2"@,
            PerfError::Format(FormatError::UnknownEventType(_)) => "unknown event type"@,
            PerfError::Format(FormatError::UnsupportedSampleField) => "sample records carry a field that cannot be skipped"@,
            PerfError::Format(FormatError::ZeroAttributeSize) => "attribute records of size zero"@,
            PerfError::Format(FormatError::NoAttributes) => "no attributes found"@,
            PerfError::Io(IoError::UnexpectedEof) => "unexpected end of file"@,
            PerfError::Io(IoError::SeekPastEnd) => "seek past the end of the file"@,
            PerfError::Symbolization(SymbolizationFailure::UnreadableObject) => "the profiled binary is not a known object file"@,
            PerfError::Symbolization(SymbolizationFailure::UnreadableDebugData) => "the profiled binary's debug data cannot be parsed"@,
            PerfError::Symbolization(SymbolizationFailure::MissingTextSection) => ".text section not found"@,
            PerfError::Synchronization => "an event decoder ran past the end of its record"@,
        }
    }

    /// A human-readable description of the failure.
    pub fn message(&self) -> (r: String)
        ensures
            r@ == self.message_text(),
    {
        match self {
            PerfError::Format(FormatError::BadMagic) => String::from_str("invalid perf.data magic: expected PERFILE2"),
            PerfError::Format(FormatError::UnknownEventType(_)) => String::from_str("unknown event type"),
            PerfError::Format(FormatError::UnsupportedSampleField) => String::from_str("sample records carry a field that cannot be skipped"),
            PerfError::Format(FormatError::ZeroAttributeSize) => String::from_str("attribute records of size zero"),
            PerfError::Format(FormatError::NoAttributes) => String::from_str("no attributes found"),
            PerfError::Io(IoError::UnexpectedEof) => String::from_str("unexpected end of file"),
            PerfError::Io(IoError::SeekPastEnd) => String::from_str("seek past the end of the file"),
            PerfError::Symbolization(SymbolizationFailure::UnreadableObject) => String::from_str("the profiled binary is not a known object file"),
            PerfError::Symbolization(SymbolizationFailure::UnreadableDebugData) => String::from_str("the profiled binary's debug data cannot be parsed"),
            PerfError::Symbolization(SymbolizationFailure::MissingTextSection) => String::from_str(".text section not found"),
            PerfError::Synchronization => String::from_str("an event decoder ran past the end of its record"),
        }
    }
}

} // verus!
