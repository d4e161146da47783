use what_the_fn::perf_data_parser::symbolicator::{
    frame_label, load_bias, probe_address, LOAD_BIAS_CORRECTION,
};
use what_the_fn::perf_data_parser::{PerfError, Symbolicator, SymbolizationFailure};

fn section_header(name: u32, kind: u32, flags: u64, address: u64, offset: u64, size: u64) -> Vec<u8> {
    let mut bytes = Vec::new();
    bytes.extend_from_slice(&u32::to_le_bytes(name));
    bytes.extend_from_slice(&u32::to_le_bytes(kind));
    for value in [flags, address, offset, size] {
        bytes.extend_from_slice(&u64::to_le_bytes(value));
    }
    bytes.extend_from_slice(&u32::to_le_bytes(0));
    bytes.extend_from_slice(&u32::to_le_bytes(0));
    bytes.extend_from_slice(&u64::to_le_bytes(1));
    bytes.extend_from_slice(&u64::to_le_bytes(0));
    bytes
}

/// A 64-bit little-endian ELF file with the given sections, each with its
/// name, its link-time address and its contents, and the table of section
/// names behind them.
fn elf_of(sections: &[(&str, u64, &[u8])]) -> Vec<u8> {
    let mut names = vec![0u8];
    let mut name_offsets = Vec::new();
    for (name, _, _) in sections {
        name_offsets.push(names.len() as u32);
        names.extend_from_slice(name.as_bytes());
        names.push(0);
    }
    let names_name = names.len() as u32;
    names.extend_from_slice(b".shstrtab\0");

    let mut contents = Vec::new();
    let mut content_offsets = Vec::new();
    for (_, _, data) in sections {
        content_offsets.push(64 + contents.len() as u64);
        contents.extend_from_slice(data);
    }
    let names_offset = 64 + contents.len() as u64;
    contents.extend_from_slice(&names);
    while contents.len() % 8 != 0 {
        contents.push(0);
    }
    let headers_offset = 64 + contents.len() as u64;
    let section_count = sections.len() as u16 + 2;

    let mut bytes = vec![0x7f, b'E', b'L', b'F', 2, 1, 1, 0, 0, 0, 0, 0, 0, 0, 0, 0];
    bytes.extend_from_slice(&u16::to_le_bytes(2));
    bytes.extend_from_slice(&u16::to_le_bytes(0x3e));
    bytes.extend_from_slice(&u32::to_le_bytes(1));
    bytes.extend_from_slice(&u64::to_le_bytes(0));
    bytes.extend_from_slice(&u64::to_le_bytes(0));
    bytes.extend_from_slice(&u64::to_le_bytes(headers_offset));
    bytes.extend_from_slice(&u32::to_le_bytes(0));
    for value in [64u16, 56, 0, 64, section_count, section_count - 1] {
        bytes.extend_from_slice(&u16::to_le_bytes(value));
    }
    assert_eq!(bytes.len(), 64);
    bytes.extend_from_slice(&contents);
    bytes.extend_from_slice(&[0u8; 64]);
    for (i, (_, address, data)) in sections.iter().enumerate() {
        let flags = if *address != 0 { 6 } else { 0 };
        bytes.extend_from_slice(&section_header(
            name_offsets[i],
            1,
            flags,
            *address,
            content_offsets[i],
            data.len() as u64,
        ));
    }
    bytes.extend_from_slice(&section_header(names_name, 3, 0, 0, names_offset, names.len() as u64));
    bytes
}

/// An ELF file with one section of code, and no debug sections.
fn small_elf(code_section: &str, code_address: u64) -> Vec<u8> {
    elf_of(&[(code_section, code_address, &[0xc3, 0x90, 0x90, 0x90])])
}

#[test]
fn load_bias_is_base_plus_text_minus_correction() {
    assert_eq!(LOAD_BIAS_CORRECTION, 0x7D1E40);
    assert_eq!(load_bias(0x7D1E40, 0), 0);
    assert_eq!(load_bias(0x5555_5555_4000, 0x8000), 0x5555_5555_4000 + 0x8000 - 0x7D1E40);
    assert_eq!(load_bias(0, 0), -0x7D1E40);
    assert_eq!(load_bias(u64::MAX, u64::MAX), 2 * (u64::MAX as i128) - 0x7D1E40);
}

#[test]
fn probe_is_the_pointer_without_the_bias() {
    assert_eq!(probe_address(0x1000, 0x400), Some(0xc00));
    assert_eq!(probe_address(0x1000, 0x1000), Some(0));
    assert_eq!(probe_address(0x1000, 0x1001), None);
    assert_eq!(probe_address(0, -1), Some(1));
    assert_eq!(probe_address(u64::MAX, -1), None);
    assert_eq!(probe_address(u64::MAX, 0), None);
    assert_eq!(probe_address(u64::MAX, 1), Some(u64::MAX - 1));
    assert_eq!(probe_address(u64::MAX - 1, 0), Some(u64::MAX - 1));
    assert_eq!(probe_address(0, -(u64::MAX as i128)), None);
    assert_eq!(probe_address(0, -(u64::MAX as i128) + 1), Some(u64::MAX - 1));
    assert_eq!(probe_address(0, -(u64::MAX as i128) - 1), None);
    assert_eq!(probe_address(5, i128::MIN), None);
    assert_eq!(probe_address(5, i128::MAX), None);
}

#[test]
fn frame_without_a_name_is_unknown() {
    assert_eq!(frame_label(Some("main".to_string())), "main");
    assert_eq!(frame_label(Some(String::new())), "");
    assert_eq!(frame_label(None), "[unknown]");
}

#[test]
fn symbolicator_takes_the_text_address() {
    let image = small_elf(".text", 0x40_1000);
    let symbolicator = Symbolicator::new(&image, 0x5000_0000).unwrap();
    assert_eq!(symbolicator.load_bias(), 0x5000_0000 + 0x40_1000 - 0x7D1E40);
    let symbolicator = Symbolicator::new(&small_elf(".text", 0x10), 0).unwrap();
    assert_eq!(symbolicator.load_bias(), 0x10 - 0x7D1E40);
}

#[test]
fn address_outside_the_debug_ranges_is_unknown() {
    let image = small_elf(".text", 0x1000);
    let symbolicator = Symbolicator::new(&image, 0x7D1E40).unwrap();
    assert_eq!(symbolicator.lookup_symbol(0x1000), "[unknown]");
    assert_eq!(symbolicator.lookup_symbol(0), "[unknown]");
    assert_eq!(symbolicator.lookup_symbol(u64::MAX), "[unknown]");
    assert_eq!(
        symbolicator.lookup_symbols(&vec![1, 0x2000, 3]),
        vec!["[unknown]".to_string(), "[unknown]".to_string(), "[unknown]".to_string()]
    );
    assert_eq!(symbolicator.lookup_symbols(&Vec::new()), Vec::<String>::new());
}

#[test]
fn image_that_is_no_object_file_is_rejected() {
    for image in [Vec::new(), b"not an object file".to_vec(), vec![0x7f, b'E', b'L', b'F']] {
        assert_eq!(
            Symbolicator::new(&image, 0).err(),
            Some(PerfError::Symbolization(SymbolizationFailure::UnreadableObject))
        );
    }
}

#[test]
fn image_without_text_section_is_rejected() {
    let image = small_elf(".code", 0x1000);
    assert_eq!(
        Symbolicator::new(&image, 0).err(),
        Some(PerfError::Symbolization(SymbolizationFailure::MissingTextSection))
    );
    assert_eq!(
        PerfError::Symbolization(SymbolizationFailure::MissingTextSection).message(),
        ".text section not found"
    );
}

#[test]
fn image_with_broken_debug_data_is_rejected() {
    let image = elf_of(&[
        (".text", 0x1000, &[0xc3, 0x90, 0x90, 0x90]),
        (".debug_info", 0, &[0x40, 0, 0, 0, 5, 0, 1, 8]),
    ]);
    assert_eq!(
        Symbolicator::new(&image, 0).err(),
        Some(PerfError::Symbolization(SymbolizationFailure::UnreadableDebugData))
    );
}

#[test]
fn image_with_empty_debug_data_is_accepted() {
    let image = elf_of(&[
        (".text", 0x1000, &[0xc3, 0x90, 0x90, 0x90]),
        (".debug_info", 0, &[]),
        (".debug_abbrev", 0, &[0]),
    ]);
    let symbolicator = Symbolicator::new(&image, 0x7D1E40).unwrap();
    assert_eq!(symbolicator.load_bias(), 0x1000);
    assert_eq!(symbolicator.lookup_symbol(0x2000), "[unknown]");
}

/// Debug sections that describe one compilation unit of `0x100` bytes at
/// `unit_start` with two functions: `main` in its first sixteen bytes, and
/// one with a mangled name from its byte `0x20` to its byte `0x40`.
fn debug_sections_at(unit_start: u64) -> (Vec<u8>, Vec<u8>) {
    let abbreviations = vec![
        0x01, 0x11, 0x01, 0x11, 0x01, 0x12, 0x07, 0x00, 0x00, //
        0x02, 0x2e, 0x00, 0x03, 0x08, 0x11, 0x01, 0x12, 0x07, 0x00, 0x00, //
        0x00,
    ];
    let mut unit = Vec::new();
    unit.extend_from_slice(&u16::to_le_bytes(4));
    unit.extend_from_slice(&u32::to_le_bytes(0));
    unit.push(8);
    unit.push(1);
    unit.extend_from_slice(&u64::to_le_bytes(unit_start));
    unit.extend_from_slice(&u64::to_le_bytes(0x100));
    unit.push(2);
    unit.extend_from_slice(b"main\0");
    unit.extend_from_slice(&u64::to_le_bytes(unit_start));
    unit.extend_from_slice(&u64::to_le_bytes(0x10));
    unit.push(2);
    unit.extend_from_slice(b"_ZN3foo3barE\0");
    unit.extend_from_slice(&u64::to_le_bytes(unit_start + 0x20));
    unit.extend_from_slice(&u64::to_le_bytes(0x20));
    unit.push(0);
    let mut info = u32::to_le_bytes(unit.len() as u32).to_vec();
    info.extend_from_slice(&unit);
    (abbreviations, info)
}

fn debug_sections() -> (Vec<u8>, Vec<u8>) {
    debug_sections_at(0x1000)
}

#[test]
fn address_in_a_function_gets_its_name() {
    let (abbreviations, info) = debug_sections();
    let image = elf_of(&[
        (".text", 0x1000, &[0x90; 16]),
        (".debug_abbrev", 0, &abbreviations),
        (".debug_info", 0, &info),
    ]);
    let symbolicator = Symbolicator::new(&image, 0x7D1E40 + 0x4000).unwrap();
    assert_eq!(symbolicator.load_bias(), 0x5000);
    assert_eq!(symbolicator.lookup_symbol(0x6000), "main");
    assert_eq!(symbolicator.lookup_symbol(0x600f), "main");
    assert_eq!(symbolicator.lookup_symbol(0x6010), "[unknown]");
    assert_eq!(symbolicator.lookup_symbol(0x5fff), "[unknown]");
    assert_eq!(symbolicator.lookup_symbol(0x6020), "foo::bar");
    assert_eq!(symbolicator.lookup_symbol(0x603f), "foo::bar");
    assert_eq!(symbolicator.lookup_symbol(0x6040), "[unknown]");
    assert_eq!(symbolicator.lookup_symbol(0x1000), "[unknown]");
    assert_eq!(symbolicator.lookup_symbol(0), "[unknown]");
    assert_eq!(
        symbolicator.lookup_symbols(&vec![0x6025, 0x6001, 0x7000]),
        vec!["foo::bar".to_string(), "main".to_string(), "[unknown]".to_string()]
    );
}

#[test]
fn last_address_is_unknown_under_any_bias() {
    let (abbreviations, info) = debug_sections();
    let image = elf_of(&[
        (".text", 0x1000, &[0x90; 16]),
        (".debug_abbrev", 0, &abbreviations),
        (".debug_info", 0, &info),
    ]);
    let symbolicator = Symbolicator::new(&image, 0x7D1E40 - 0x1000).unwrap();
    assert_eq!(symbolicator.load_bias(), 0);
    assert_eq!(symbolicator.lookup_symbol(u64::MAX), "[unknown]");
    assert_eq!(symbolicator.lookup_symbol(u64::MAX - 1), "[unknown]");
    assert_eq!(symbolicator.lookup_symbol(0x1000), "main");
    let symbolicator = Symbolicator::new(&image, 0).unwrap();
    assert_eq!(symbolicator.load_bias(), 0x1000 - 0x7D1E40);
    assert_eq!(symbolicator.lookup_symbol(u64::MAX), "[unknown]");
    assert_eq!(symbolicator.lookup_symbol(0), "[unknown]");
    assert_eq!(symbolicator.lookup_symbol(u64::MAX - 0x7D0E40), "[unknown]");
    assert_eq!(symbolicator.lookup_symbol(u64::MAX - 0x7D0E40 - 1), "[unknown]");
}

#[test]
fn unit_that_ends_behind_the_last_address_covers_nothing() {
    let (abbreviations, info) = debug_sections_at(0xFFFF_FFFF_FFFF_FF00);
    let image = elf_of(&[
        (".text", 0x1000, &[0x90; 16]),
        (".debug_abbrev", 0, &abbreviations),
        (".debug_info", 0, &info),
    ]);
    let symbolicator = Symbolicator::new(&image, 0x7D1E40 - 0x1000).unwrap();
    assert_eq!(symbolicator.load_bias(), 0);
    assert_eq!(symbolicator.lookup_symbol(0xFFFF_FFFF_FFFF_FF05), "[unknown]");
    assert_eq!(symbolicator.lookup_symbol(0xFFFF_FFFF_FFFF_FF25), "[unknown]");
    assert_eq!(symbolicator.lookup_symbol(0xFFFF_FFFF_FFFF_FF50), "[unknown]");
    assert_eq!(symbolicator.lookup_symbol(0xFFFF_FFFF_FFFF_FFFE), "[unknown]");
    assert_eq!(symbolicator.lookup_symbol(u64::MAX), "[unknown]");
    assert_eq!(symbolicator.lookup_symbol(0x1000), "[unknown]");
}

#[test]
fn function_that_ends_behind_the_last_address_covers_nothing() {
    let abbreviations = [
        0x01, 0x11, 0x01, 0x11, 0x01, 0x12, 0x07, 0x00, 0x00, //
        0x02, 0x2e, 0x00, 0x03, 0x08, 0x11, 0x01, 0x12, 0x07, 0x00, 0x00, //
        0x00,
    ];
    let mut unit = Vec::new();
    unit.extend_from_slice(&u16::to_le_bytes(4));
    unit.extend_from_slice(&u32::to_le_bytes(0));
    unit.push(8);
    unit.push(1);
    unit.extend_from_slice(&u64::to_le_bytes(0x1000));
    unit.extend_from_slice(&u64::to_le_bytes(0x100));
    unit.push(2);
    unit.extend_from_slice(b"main\0");
    unit.extend_from_slice(&u64::to_le_bytes(0x1000));
    unit.extend_from_slice(&u64::to_le_bytes(0x10));
    unit.push(2);
    unit.extend_from_slice(b"wide\0");
    unit.extend_from_slice(&u64::to_le_bytes(u64::MAX));
    unit.extend_from_slice(&u64::to_le_bytes(u64::MAX));
    unit.push(0);
    let mut info = u32::to_le_bytes(unit.len() as u32).to_vec();
    info.extend_from_slice(&unit);
    let image = elf_of(&[
        (".text", 0x1000, &[0x90; 16]),
        (".debug_abbrev", 0, &abbreviations),
        (".debug_info", 0, &info),
    ]);
    let symbolicator = Symbolicator::new(&image, 0x7D1E40 - 0x1000).unwrap();
    assert_eq!(symbolicator.lookup_symbol(0x1005), "main");
    assert_eq!(symbolicator.lookup_symbol(0x1050), "[unknown]");
    assert_eq!(symbolicator.lookup_symbol(u64::MAX), "[unknown]");
}

#[test]
fn big_endian_image_is_read_in_its_byte_order() {
    let mut image = small_elf(".text", 0x1000);
    image[5] = 2;
    assert_eq!(
        Symbolicator::new(&image, 0).err(),
        Some(PerfError::Symbolization(SymbolizationFailure::UnreadableObject))
    );
}
