use what_the_fn::perf_data_parser::{
    convert_perf_data_to_samples, convert_perf_data_to_wtf, Attribute, ByteReader, ByteSource, ExtraHeadersPresent,
    FormatError, Header, IoError, PerfError, ReadExt, ReadSectionExt, Sample, SampleType,
    SectionInfo, Symbolicator, SymbolizationFailure,
};

fn section_header(name: u32, kind: u32, flags: u64, address: u64, offset: u64, size: u64) -> Vec<u8> {
    let mut bytes = Vec::new();
    bytes.extend_from_slice(&u32::to_le_bytes(name));
    bytes.extend_from_slice(&u32::to_le_bytes(kind));
    for value in [flags, address, offset, size] {
        bytes.extend_from_slice(&u64::to_le_bytes(value));
    }
    bytes.extend_from_slice(&u32::to_le_bytes(0));
    bytes.extend_from_slice(&u32::to_le_bytes(0));
    bytes.extend_from_slice(&u64::to_le_bytes(1));
    bytes.extend_from_slice(&u64::to_le_bytes(0));
    bytes
}

fn elf_with_section(names: &[u8]) -> Vec<u8> {
    let mut bytes = vec![0x7f, b'E', b'L', b'F', 2, 1, 1, 0, 0, 0, 0, 0, 0, 0, 0, 0];
    bytes.extend_from_slice(&u16::to_le_bytes(2));
    bytes.extend_from_slice(&u16::to_le_bytes(0x3e));
    bytes.extend_from_slice(&u32::to_le_bytes(1));
    bytes.extend_from_slice(&u64::to_le_bytes(0x1000));
    bytes.extend_from_slice(&u64::to_le_bytes(0));
    bytes.extend_from_slice(&u64::to_le_bytes(88));
    bytes.extend_from_slice(&u32::to_le_bytes(0));
    for value in [64u16, 56, 0, 64, 3, 2] {
        bytes.extend_from_slice(&u16::to_le_bytes(value));
    }
    bytes.extend_from_slice(&[0xc3, 0x90, 0x90, 0x90]);
    bytes.extend_from_slice(names);
    while bytes.len() < 88 {
        bytes.push(0);
    }
    bytes.extend_from_slice(&[0u8; 64]);
    bytes.extend_from_slice(&section_header(1, 1, 6, 0x1000, 64, 4));
    bytes.extend_from_slice(&section_header(7, 3, 0, 0, 68, names.len() as u64));
    bytes
}

fn small_elf() -> Vec<u8> {
    elf_with_section(b"\0.text\0.shstrtab\0")
}

fn header_of(attribute_size: u64, attributes: (u64, u64), data: (u64, u64)) -> Header {
    Header {
        attribute_size,
        attribute_section: SectionInfo { offset: attributes.0, size: attributes.1 },
        data_section: SectionInfo { offset: data.0, size: data.1 },
        extra_headers_present: ExtraHeadersPresent::from_bits_truncate(0),
    }
}

fn attribute_record(size: usize, frequency: u64, sample_type: u64) -> Vec<u8> {
    let mut bytes = Vec::new();
    bytes.extend_from_slice(&u32::to_le_bytes(0));
    bytes.extend_from_slice(&u32::to_le_bytes(size as u32));
    bytes.extend_from_slice(&u64::to_le_bytes(0));
    bytes.extend_from_slice(&u64::to_le_bytes(frequency));
    bytes.extend_from_slice(&u64::to_le_bytes(sample_type));
    bytes.resize(size.max(32), 0xee);
    bytes
}

fn event(code: u32, payload: &[u8]) -> Vec<u8> {
    event_of_size(code, (8 + payload.len()) as u16, payload)
}

fn event_of_size(code: u32, size: u16, payload: &[u8]) -> Vec<u8> {
    let mut bytes = Vec::new();
    bytes.extend_from_slice(&u32::to_le_bytes(code));
    bytes.extend_from_slice(&u16::to_le_bytes(2));
    bytes.extend_from_slice(&u16::to_le_bytes(size));
    bytes.extend_from_slice(payload);
    bytes
}

fn mmap2_payload(address: u64, protection: u32, filename: &[u8]) -> Vec<u8> {
    let mut bytes = Vec::new();
    bytes.extend_from_slice(&u32::to_le_bytes(100));
    bytes.extend_from_slice(&u32::to_le_bytes(101));
    bytes.extend_from_slice(&u64::to_le_bytes(address));
    bytes.extend_from_slice(&u64::to_le_bytes(0x2000));
    bytes.extend_from_slice(&u64::to_le_bytes(0));
    bytes.extend_from_slice(&u32::to_le_bytes(8));
    bytes.extend_from_slice(&u32::to_le_bytes(1));
    bytes.extend_from_slice(&u64::to_le_bytes(4242));
    bytes.extend_from_slice(&u64::to_le_bytes(0));
    bytes.extend_from_slice(&u32::to_le_bytes(protection));
    bytes.extend_from_slice(&u32::to_le_bytes(2));
    bytes.extend_from_slice(filename);
    bytes.push(0);
    bytes
}

fn sample_payload(tid: u32, time: u64, chain: &[u64]) -> Vec<u8> {
    let mut bytes = Vec::new();
    bytes.extend_from_slice(&u32::to_le_bytes(tid + 1000));
    bytes.extend_from_slice(&u32::to_le_bytes(tid));
    bytes.extend_from_slice(&u64::to_le_bytes(time));
    bytes.extend_from_slice(&u64::to_le_bytes(chain.len() as u64));
    for ip in chain {
        bytes.extend_from_slice(&u64::to_le_bytes(*ip));
    }
    bytes
}

fn sample_mask() -> SampleType {
    SampleType::from_bits_truncate(SampleType::TID | SampleType::TIME | SampleType::CALLCHAIN)
}

fn trace_of(attributes: &[Vec<u8>], attribute_size: u64, events: &[Vec<u8>]) -> Vec<u8> {
    let attribute_len: usize = attributes.iter().map(|a| a.len()).sum();
    let data_len: usize = events.iter().map(|e| e.len()).sum();
    let mut bytes = b"PERFILE2".to_vec();
    for value in [
        104,
        attribute_size,
        80,
        attribute_len as u64,
        80 + attribute_len as u64,
        data_len as u64,
        0,
        0,
        0,
    ] {
        bytes.extend_from_slice(&u64::to_le_bytes(value));
    }
    for attribute in attributes {
        bytes.extend_from_slice(attribute);
    }
    for event in events {
        bytes.extend_from_slice(event);
    }
    bytes
}

fn unknown(count: usize) -> Vec<String> {
    vec!["[unknown]".to_string(); count]
}

#[test]
fn attribute_section_of_whole_records() {
    let mut bytes = vec![0xaa; 10];
    bytes.extend_from_slice(&attribute_record(40, 4000, SampleType::TID | SampleType::TIME));
    bytes.extend_from_slice(&attribute_record(40, 1, SampleType::IP));
    bytes.extend_from_slice(&attribute_record(40, 99, u64::MAX));
    bytes.extend_from_slice(&[0xbb; 5]);
    let mut reader = ByteReader::new(bytes);
    let attributes = reader.read_attribute_section(&header_of(40, (10, 120), (0, 0))).unwrap();
    assert_eq!(
        attributes,
        vec![
            Attribute { frequency: 4000, sample_type: SampleType { bits: 6 } },
            Attribute { frequency: 1, sample_type: SampleType { bits: 1 } },
            Attribute { frequency: 99, sample_type: SampleType { bits: SampleType::ALL } },
        ]
    );
    assert_eq!(attributes.len() as u64, 120 / 40);
    assert_eq!(reader.offset(), 10 + 120);
}

#[test]
fn attribute_section_of_records_of_their_decoded_size() {
    let mut bytes = attribute_record(32, 7, 2);
    bytes.extend_from_slice(&attribute_record(32, 8, 4));
    let mut reader = ByteReader::new(bytes);
    let attributes = reader.read_attribute_section(&header_of(32, (0, 64), (0, 0))).unwrap();
    assert_eq!(attributes.len(), 2);
    assert_eq!(attributes[1].frequency, 8);
    assert_eq!(reader.offset(), 64);
}

#[test]
fn attribute_section_that_ends_in_a_record() {
    let mut bytes = attribute_record(40, 7, 2);
    bytes.extend_from_slice(&attribute_record(40, 8, 4));
    let mut reader = ByteReader::new(bytes);
    let attributes = reader.read_attribute_section(&header_of(40, (0, 41), (0, 0))).unwrap();
    assert_eq!(attributes.len(), 2);
    assert_eq!(reader.offset(), 80);
}

#[test]
fn attribute_section_without_records() {
    let mut reader = ByteReader::new(vec![1, 2, 3]);
    assert_eq!(reader.read_attribute_section(&header_of(0, (2, 0), (0, 0))), Ok(Vec::new()));
    assert_eq!(reader.offset(), 2);
}

#[test]
fn attribute_records_of_size_zero_are_rejected() {
    let mut reader = ByteReader::new(attribute_record(32, 7, 2));
    assert_eq!(
        reader.read_attribute_section(&header_of(0, (0, 32), (0, 0))),
        Err(PerfError::Format(FormatError::ZeroAttributeSize))
    );
    assert_eq!(reader.offset(), 0);
    assert_eq!(
        PerfError::Format(FormatError::ZeroAttributeSize).message(),
        "attribute records of size zero"
    );
}

#[test]
fn attribute_section_outside_the_file() {
    let mut reader = ByteReader::new(attribute_record(40, 7, 2));
    reader.seek(3).unwrap();
    assert_eq!(
        reader.read_attribute_section(&header_of(40, (41, 40), (0, 0))),
        Err(PerfError::Io(IoError::SeekPastEnd))
    );
    assert_eq!(
        reader.read_attribute_section(&header_of(40, (0, 80), (0, 0))),
        Err(PerfError::Io(IoError::UnexpectedEof))
    );
    assert_eq!(
        reader.read_attribute_section(&header_of(48, (0, 48), (0, 0))),
        Err(PerfError::Io(IoError::SeekPastEnd))
    );
    assert_eq!(
        reader.read_attribute_section(&header_of(40, (20, 40), (0, 0))),
        Err(PerfError::Io(IoError::UnexpectedEof))
    );
    assert_eq!(reader.offset(), 3);
}

#[test]
fn mapping_and_sample_give_one_sample() {
    let events = [
        event(10, &mmap2_payload(0x5555_5555_4000, 5, b"/home/user/target/debug/prog")),
        event(9, &sample_payload(77, 123_456, &[0x5555_5555_5010, 0x5555_5555_5020, 0x7fff_0000])),
    ];
    let trace = trace_of(&[attribute_record(136, 4000, sample_mask().bits())], 136, &events);
    let samples = convert_perf_data_to_wtf(trace, "prog", &small_elf()).unwrap();
    assert_eq!(
        samples,
        vec![Sample { tid: 77, timestamp: 123_456, stacktrace: unknown(3) }]
    );
}

#[test]
fn samples_come_in_the_order_of_their_records() {
    let events = [
        event(9, &sample_payload(1, 10, &[1])),
        event(3, &[0u8; 24]),
        event(10, &mmap2_payload(0x4000, 1, b"/usr/bin/prog")),
        event(9, &sample_payload(2, 20, &[1, 2])),
        event(10, &mmap2_payload(0x4000, 5, b"/usr/lib/libc.so.6")),
        event(9, &sample_payload(3, 30, &[])),
        event(10, &mmap2_payload(0x4000, 5, b"/usr/bin/prog")),
        event(9, &sample_payload(4, 40, &[1, 2])),
        event(68, &[]),
        event(10, &mmap2_payload(0x9000, 5, b"/usr/bin/prog")),
        event(9, &sample_payload(5, 50, &[])),
        event(1, &[0u8; 40]),
    ];
    let trace = trace_of(&[attribute_record(40, 1, sample_mask().bits())], 40, &events);
    let samples = convert_perf_data_to_wtf(trace, "prog", &small_elf()).unwrap();
    assert_eq!(
        samples,
        vec![
            Sample { tid: 4, timestamp: 40, stacktrace: unknown(2) },
            Sample { tid: 5, timestamp: 50, stacktrace: Vec::new() },
        ]
    );
}

#[test]
fn record_without_thread_gives_no_sample() {
    let events = [
        event(10, &mmap2_payload(0x4000, 4, b"prog")),
        event(9, &[0u8; 16]),
        event(9, &[1u8; 16]),
    ];
    let mask = SampleType::TIME | SampleType::IP;
    let trace = trace_of(&[attribute_record(40, 1, mask)], 40, &events);
    assert_eq!(convert_perf_data_to_wtf(trace, "prog", &small_elf()), Ok(Vec::new()));
}

#[test]
fn what_a_decoder_leaves_of_a_record_is_skipped() {
    let mut long_sample = sample_payload(8, 80, &[5]);
    long_sample.extend_from_slice(&[0xab; 24]);
    let mut long_mapping = mmap2_payload(0x4000, 4, b"prog");
    long_mapping.extend_from_slice(&[0xcd; 11]);
    let events = [
        event(10, &long_mapping),
        event(9, &long_sample),
        event(9, &sample_payload(9, 90, &[])),
    ];
    let trace = trace_of(&[attribute_record(40, 1, sample_mask().bits())], 40, &events);
    let samples = convert_perf_data_to_wtf(trace, "prog", &small_elf()).unwrap();
    assert_eq!(
        samples,
        vec![
            Sample { tid: 8, timestamp: 80, stacktrace: unknown(1) },
            Sample { tid: 9, timestamp: 90, stacktrace: Vec::new() },
        ]
    );
}

#[test]
fn first_attribute_tells_the_sample_fields() {
    let events = [
        event(10, &mmap2_payload(0x4000, 4, b"prog")),
        event(9, &sample_payload(8, 80, &[5, 6])),
    ];
    let attributes = [
        attribute_record(40, 1, sample_mask().bits()),
        attribute_record(40, 1, SampleType::IP),
    ];
    let trace = trace_of(&attributes, 40, &events);
    let samples = convert_perf_data_to_wtf(trace, "prog", &small_elf()).unwrap();
    assert_eq!(samples, vec![Sample { tid: 8, timestamp: 80, stacktrace: unknown(2) }]);
}

#[test]
fn trace_without_attributes_is_rejected() {
    let events = [event(9, &sample_payload(8, 80, &[5, 6]))];
    let trace = trace_of(&[], 40, &events);
    assert_eq!(
        convert_perf_data_to_wtf(trace, "prog", &small_elf()),
        Err(PerfError::Format(FormatError::NoAttributes))
    );
}

#[test]
fn trace_with_another_magic_is_rejected() {
    let mut trace = trace_of(&[attribute_record(40, 1, 6)], 40, &[]);
    trace[0] = b'p';
    assert_eq!(
        convert_perf_data_to_wtf(trace, "prog", &small_elf()),
        Err(PerfError::Format(FormatError::BadMagic))
    );
    assert_eq!(
        convert_perf_data_to_wtf(b"PERFILE2".to_vec(), "prog", &small_elf()),
        Err(PerfError::Io(IoError::UnexpectedEof))
    );
    assert_eq!(
        convert_perf_data_to_wtf(Vec::new(), "prog", &small_elf()),
        Err(PerfError::Io(IoError::UnexpectedEof))
    );
}

#[test]
fn trace_without_events_gives_no_samples() {
    let trace = trace_of(&[attribute_record(40, 1, 6)], 40, &[]);
    assert_eq!(convert_perf_data_to_wtf(trace, "prog", &[]), Ok(Vec::new()));
}

#[test]
fn unknown_event_code_stops_the_conversion() {
    let events = [event(10, &mmap2_payload(0x4000, 4, b"prog")), event(22, &[0u8; 8])];
    let trace = trace_of(&[attribute_record(40, 1, 6)], 40, &events);
    assert_eq!(
        convert_perf_data_to_wtf(trace, "prog", &small_elf()),
        Err(PerfError::Format(FormatError::UnknownEventType(22)))
    );
}

#[test]
fn record_smaller_than_its_payload_is_a_synchronization_error() {
    let payload = sample_payload(8, 80, &[5, 6]);
    let events = [
        event(10, &mmap2_payload(0x4000, 4, b"prog")),
        event_of_size(9, (8 + payload.len() - 8) as u16, &payload),
    ];
    let trace = trace_of(&[attribute_record(40, 1, sample_mask().bits())], 40, &events);
    assert_eq!(
        convert_perf_data_to_wtf(trace, "prog", &small_elf()),
        Err(PerfError::Synchronization)
    );
    let mapping = mmap2_payload(0x4000, 1, b"prog");
    let events = [event_of_size(10, 72, &mapping), event(68, &[])];
    let trace = trace_of(&[attribute_record(40, 1, 6)], 40, &events);
    assert_eq!(
        convert_perf_data_to_wtf(trace, "prog", &small_elf()),
        Err(PerfError::Synchronization)
    );
}

#[test]
fn record_smaller_than_its_header_is_a_synchronization_error() {
    for size in [0, 4, 7] {
        let events = [event_of_size(3, size, &[0u8; 16])];
        let trace = trace_of(&[attribute_record(40, 1, 6)], 40, &events);
        assert_eq!(
            convert_perf_data_to_wtf(trace, "prog", &small_elf()),
            Err(PerfError::Synchronization)
        );
    }
}

#[test]
fn record_that_ends_behind_the_file_is_rejected() {
    let events = [event_of_size(3, 100, &[0u8; 16])];
    let trace = trace_of(&[attribute_record(40, 1, 6)], 40, &events);
    assert_eq!(
        convert_perf_data_to_wtf(trace, "prog", &small_elf()),
        Err(PerfError::Io(IoError::SeekPastEnd))
    );
}

#[test]
fn truncated_record_is_a_short_read() {
    let events = [
        event(10, &mmap2_payload(0x4000, 4, b"prog")),
        event_of_size(9, 200, &sample_payload(8, 80, &[5, 6])[..20]),
    ];
    let trace = trace_of(&[attribute_record(40, 1, sample_mask().bits())], 40, &events);
    assert_eq!(
        convert_perf_data_to_wtf(trace, "prog", &small_elf()),
        Err(PerfError::Io(IoError::UnexpectedEof))
    );
}

#[test]
fn binary_that_is_no_object_file_stops_the_conversion() {
    let events = [event(10, &mmap2_payload(0x4000, 4, b"prog"))];
    let trace = trace_of(&[attribute_record(40, 1, 6)], 40, &events);
    assert_eq!(
        convert_perf_data_to_wtf(trace.clone(), "prog", b"#!/bin/sh\n"),
        Err(PerfError::Symbolization(SymbolizationFailure::UnreadableObject))
    );
    assert_eq!(
        convert_perf_data_to_wtf(trace.clone(), "prog", &elf_with_section(b"\0.data\0.shstrtab\0")),
        Err(PerfError::Symbolization(SymbolizationFailure::MissingTextSection))
    );
    assert_eq!(convert_perf_data_to_wtf(trace, "other", b"#!/bin/sh\n"), Ok(Vec::new()));
    assert_eq!(
        PerfError::Symbolization(SymbolizationFailure::UnreadableObject).message(),
        "the profiled binary is not a known object file"
    );
    assert_eq!(
        PerfError::Symbolization(SymbolizationFailure::UnreadableDebugData).message(),
        "the profiled binary's debug data cannot be parsed"
    );
}

#[test]
fn events_can_be_read_one_by_one() {
    let mut bytes = vec![0u8; 4];
    bytes.extend_from_slice(&event(9, &sample_payload(1, 10, &[1])));
    bytes.extend_from_slice(&event(10, &mmap2_payload(0x4000, 4, b"prog")));
    bytes.extend_from_slice(&event(9, &sample_payload(2, 20, &[1, 2])));
    let image = small_elf();
    let mut reader = ByteReader::new(bytes);
    reader.seek(4).unwrap();
    let mut symbolicator: Option<Symbolicator> = None;
    assert_eq!(
        reader.read_event(sample_mask(), &mut symbolicator, "prog", &image),
        Ok((8 + 32, None))
    );
    assert!(symbolicator.is_none());
    assert_eq!(reader.offset(), 4 + 40);
    assert_eq!(
        reader.read_event(sample_mask(), &mut symbolicator, "prog", &image),
        Ok((8 + 65 + 4, None))
    );
    assert_eq!(symbolicator.as_ref().map(|s| s.load_bias()), Some(0x4000 + 0x1000 - 0x7D1E40));
    assert_eq!(
        reader.read_event(sample_mask(), &mut symbolicator, "prog", &image),
        Ok((8 + 40, Some(Sample { tid: 2, timestamp: 20, stacktrace: unknown(2) })))
    );
    let end = reader.offset();
    assert_eq!(
        reader.read_event(sample_mask(), &mut symbolicator, "prog", &image),
        Err(PerfError::Io(IoError::UnexpectedEof))
    );
    assert_eq!(reader.offset(), end);
}

#[test]
fn symbolicator_is_made_once() {
    let mut bytes = event(10, &mmap2_payload(0x4000, 4, b"prog"));
    bytes.extend_from_slice(&event(10, &mmap2_payload(0x9000, 4, b"prog")));
    let image = small_elf();
    let mut reader = ByteReader::new(bytes);
    let mut symbolicator: Option<Symbolicator> = None;
    reader.read_event(sample_mask(), &mut symbolicator, "prog", &image).unwrap();
    reader.read_event(sample_mask(), &mut symbolicator, "prog", &image).unwrap();
    assert_eq!(symbolicator.map(|s| s.load_bias()), Some(0x4000 + 0x1000 - 0x7D1E40));
}

#[test]
fn failed_event_changes_nothing() {
    let mut bytes = event(10, &mmap2_payload(0x4000, 4, b"prog"));
    let len = bytes.len() as u16;
    bytes[6..8].copy_from_slice(&u16::to_le_bytes(len - 1));
    let image = small_elf();
    let mut reader = ByteReader::new(bytes);
    let mut symbolicator: Option<Symbolicator> = None;
    assert_eq!(
        reader.read_event(sample_mask(), &mut symbolicator, "prog", &image),
        Err(PerfError::Synchronization)
    );
    assert!(symbolicator.is_none());
    assert_eq!(reader.offset(), 0);
}

#[test]
fn data_section_is_read_from_its_offset() {
    let mut bytes = vec![0xee; 7];
    let events = [
        event(10, &mmap2_payload(0x4000, 4, b"prog")),
        event(9, &sample_payload(2, 20, &[1, 2])),
        event(9, &sample_payload(3, 30, &[1])),
    ];
    let data_len: usize = events.iter().map(|e| e.len()).sum();
    for event in &events {
        bytes.extend_from_slice(event);
    }
    bytes.extend_from_slice(&event(9, &sample_payload(4, 40, &[1])));
    let mut reader = ByteReader::new(bytes);
    let header = header_of(40, (0, 0), (7, data_len as u64));
    let samples = reader.read_data_section(&header, sample_mask(), "prog", &small_elf()).unwrap();
    assert_eq!(samples.len(), 2);
    assert_eq!(samples[0].tid, 2);
    assert_eq!(samples[1].tid, 3);
    assert_eq!(reader.offset(), 7 + data_len);
    let header = header_of(40, (0, 0), (7, data_len as u64 + 1));
    reader.seek(1).unwrap();
    let samples = reader.read_data_section(&header, sample_mask(), "prog", &small_elf()).unwrap();
    assert_eq!(samples.len(), 3);
    let header = header_of(40, (0, 0), (7, data_len as u64 + 100));
    reader.seek(1).unwrap();
    assert_eq!(
        reader.read_data_section(&header, sample_mask(), "prog", &small_elf()),
        Err(PerfError::Io(IoError::UnexpectedEof))
    );
    assert_eq!(reader.offset(), 1);
    let header = header_of(40, (0, 0), (100_000, 8));
    assert_eq!(
        reader.read_data_section(&header, sample_mask(), "prog", &small_elf()),
        Err(PerfError::Io(IoError::SeekPastEnd))
    );
    assert_eq!(reader.offset(), 1);
}

#[test]
fn stack_trace_names_the_functions_of_the_binary() {
    let abbreviations = [
        0x01, 0x11, 0x01, 0x11, 0x01, 0x12, 0x07, 0x00, 0x00, //
        0x02, 0x2e, 0x00, 0x03, 0x08, 0x11, 0x01, 0x12, 0x07, 0x00, 0x00, //
        0x00,
    ];
    let mut unit = Vec::new();
    unit.extend_from_slice(&u16::to_le_bytes(4));
    unit.extend_from_slice(&u32::to_le_bytes(0));
    unit.push(8);
    unit.push(1);
    unit.extend_from_slice(&u64::to_le_bytes(0x1000));
    unit.extend_from_slice(&u64::to_le_bytes(0x100));
    unit.push(2);
    unit.extend_from_slice(b"main\0");
    unit.extend_from_slice(&u64::to_le_bytes(0x1000));
    unit.extend_from_slice(&u64::to_le_bytes(0x10));
    unit.push(2);
    unit.extend_from_slice(b"work\0");
    unit.extend_from_slice(&u64::to_le_bytes(0x1010));
    unit.extend_from_slice(&u64::to_le_bytes(0x10));
    unit.push(0);
    let mut info = u32::to_le_bytes(unit.len() as u32).to_vec();
    info.extend_from_slice(&unit);

    let names = b"\0.text\0.debug_abbrev\0.debug_info\0.shstrtab\0";
    let mut contents = vec![0x90u8; 8];
    let abbreviations_offset = 64 + contents.len() as u64;
    contents.extend_from_slice(&abbreviations);
    let info_offset = 64 + contents.len() as u64;
    contents.extend_from_slice(&info);
    let names_offset = 64 + contents.len() as u64;
    contents.extend_from_slice(names);
    while contents.len() % 8 != 0 {
        contents.push(0);
    }
    let mut image = vec![0x7f, b'E', b'L', b'F', 2, 1, 1, 0, 0, 0, 0, 0, 0, 0, 0, 0];
    image.extend_from_slice(&u16::to_le_bytes(2));
    image.extend_from_slice(&u16::to_le_bytes(0x3e));
    image.extend_from_slice(&u32::to_le_bytes(1));
    image.extend_from_slice(&u64::to_le_bytes(0x1000));
    image.extend_from_slice(&u64::to_le_bytes(0));
    image.extend_from_slice(&u64::to_le_bytes(64 + contents.len() as u64));
    image.extend_from_slice(&u32::to_le_bytes(0));
    for value in [64u16, 56, 0, 64, 5, 4] {
        image.extend_from_slice(&u16::to_le_bytes(value));
    }
    image.extend_from_slice(&contents);
    image.extend_from_slice(&[0u8; 64]);
    image.extend_from_slice(&section_header(1, 1, 6, 0x1000, 64, 8));
    image.extend_from_slice(&section_header(7, 1, 0, 0, abbreviations_offset, abbreviations.len() as u64));
    image.extend_from_slice(&section_header(21, 1, 0, 0, info_offset, info.len() as u64));
    image.extend_from_slice(&section_header(33, 3, 0, 0, names_offset, names.len() as u64));

    let base = 0x7D1E40 + 0x4000;
    let events = [
        event(10, &mmap2_payload(base, 5, b"/home/user/target/debug/prog")),
        event(9, &sample_payload(7, 1_000, &[0x6015, 0x6001, 0x9999])),
        event(9, &sample_payload(8, 2_000, &[0x600f])),
    ];
    let trace = trace_of(&[attribute_record(136, 4000, sample_mask().bits())], 136, &events);
    let samples = convert_perf_data_to_wtf(trace, "prog", &image).unwrap();
    assert_eq!(
        samples,
        vec![
            Sample {
                tid: 7,
                timestamp: 1_000,
                stacktrace: vec!["work".to_string(), "main".to_string(), "[unknown]".to_string()],
            },
            Sample { tid: 8, timestamp: 2_000, stacktrace: vec!["main".to_string()] },
        ]
    );
}

#[test]
fn samples_before_a_failure_are_kept() {
    let events = [
        event(10, &mmap2_payload(0x4000, 4, b"prog")),
        event(9, &sample_payload(1, 10, &[1, 2])),
        event(3, &[0u8; 24]),
        event(9, &sample_payload(2, 20, &[])),
        event(22, &[0u8; 8]),
        event(9, &sample_payload(3, 30, &[7])),
    ];
    let trace = trace_of(&[attribute_record(40, 1, sample_mask().bits())], 40, &events);
    let (samples, failure) = convert_perf_data_to_samples(trace.clone(), "prog", &small_elf());
    assert_eq!(
        samples,
        vec![
            Sample { tid: 1, timestamp: 10, stacktrace: unknown(2) },
            Sample { tid: 2, timestamp: 20, stacktrace: Vec::new() },
        ]
    );
    assert_eq!(failure, Some(PerfError::Format(FormatError::UnknownEventType(22))));
    assert_eq!(
        convert_perf_data_to_wtf(trace, "prog", &small_elf()),
        Err(PerfError::Format(FormatError::UnknownEventType(22)))
    );
}

#[test]
fn samples_of_a_whole_trace_come_without_a_failure() {
    let events = [
        event(10, &mmap2_payload(0x4000, 4, b"prog")),
        event(9, &sample_payload(1, 10, &[1, 2])),
        event(9, &sample_payload(2, 20, &[3])),
    ];
    let trace = trace_of(&[attribute_record(40, 1, sample_mask().bits())], 40, &events);
    let (samples, failure) = convert_perf_data_to_samples(trace.clone(), "prog", &small_elf());
    assert_eq!(failure, None);
    assert_eq!(Ok(samples), convert_perf_data_to_wtf(trace, "prog", &small_elf()));
}

#[test]
fn trace_that_fails_before_its_data_gives_no_samples() {
    let events = [event(9, &sample_payload(1, 10, &[1, 2]))];
    let trace = trace_of(&[], 40, &events);
    assert_eq!(
        convert_perf_data_to_samples(trace, "prog", &small_elf()),
        (Vec::new(), Some(PerfError::Format(FormatError::NoAttributes)))
    );
    assert_eq!(
        convert_perf_data_to_samples(b"PERFILE1".to_vec(), "prog", &small_elf()),
        (Vec::new(), Some(PerfError::Format(FormatError::BadMagic)))
    );
    let events = [event(10, &mmap2_payload(0x4000, 4, b"prog")), event(9, &[0u8; 8])];
    let trace = trace_of(&[attribute_record(40, 1, sample_mask().bits())], 40, &events);
    assert_eq!(
        convert_perf_data_to_samples(trace, "prog", b"no object"),
        (
            Vec::new(),
            Some(PerfError::Symbolization(SymbolizationFailure::UnreadableObject))
        )
    );
}

#[test]
fn failed_section_keeps_the_cursor() {
    let mut bytes = vec![0xee; 5];
    bytes.extend_from_slice(&event(10, &mmap2_payload(0x4000, 4, b"prog")));
    bytes.extend_from_slice(&event(9, &sample_payload(1, 10, &[1])));
    let data_len = bytes.len() as u64 - 5;
    let mut reader = ByteReader::new(bytes);
    reader.seek(2).unwrap();
    let header = header_of(40, (0, 0), (5, data_len + 8));
    let (samples, failure) = reader.read_samples(&header, sample_mask(), "prog", &small_elf());
    assert_eq!(samples.len(), 1);
    assert_eq!(failure, Some(PerfError::Io(IoError::UnexpectedEof)));
    assert_eq!(reader.offset(), 2);
    let header = header_of(40, (0, 0), (5, data_len));
    let (samples, failure) = reader.read_samples(&header, sample_mask(), "prog", &small_elf());
    assert_eq!(samples.len(), 1);
    assert_eq!(failure, None);
    assert_eq!(reader.offset() as u64, 5 + data_len);
    let header = header_of(40, (0, 0), (1_000_000, 8));
    assert_eq!(
        reader.read_samples(&header, sample_mask(), "prog", &small_elf()),
        (Vec::new(), Some(PerfError::Io(IoError::SeekPastEnd)))
    );
}
