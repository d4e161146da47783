use super::error::{PerfError, SymbolizationFailure};
use addr2line::gimli::{EndianRcSlice, RunTimeEndian};
use addr2line::Context;
use vstd::prelude::*;

verus! {

/// The debug information of one object file: an `addr2line::Context`, as it
/// is once it has parsed the file's debug sections.
///
/// The verifier sees nothing of what is inside. What the contracts say of it,
/// they say through `frame_names`.
#[verifier::external_body]
pub struct DebugTables {
    context: Context<EndianRcSlice<RunTimeEndian>>,
}

/// What debug tables hold: for every address that they know a named
/// function for, the demangled name of the innermost function that covers it.
/// It is what `Context::find_frames` finds, address by address.
pub uninterp spec fn frame_names(tables: DebugTables) -> Map<u64, Seq<char>>;

/// Whether the object file `image` stores its integers least significant
/// byte first, as `object` tells it; `None` where `object::File::parse` does
/// not take the bytes for an object file of a format that it knows.
pub uninterp spec fn little_endian_of(image: Seq<u8>) -> Option<bool>;

/// The contents that `object` finds for the section called `name` in the
/// object file `image`, decompressed where the file stores them compressed;
/// `None` where the file cannot be parsed, has no such section, or stores
/// contents that cannot be decompressed.
pub uninterp spec fn section_contents_of(image: Seq<u8>, name: Seq<char>) -> Option<Seq<u8>>;

/// The link-time address that `object` finds for the section called `name`
/// in the object file `image`; `None` where the file cannot be parsed or has
/// no such section.
pub uninterp spec fn section_address_of(image: Seq<u8>, name: Seq<char>) -> Option<u64>;

/// What `addr2line::Context::from_sections` makes of the contents of the
/// debug sections, given in the order of `DebugSections`, and of their byte
/// order: the contents of the debug tables, and `None` where the sections
/// cannot be parsed.
pub uninterp spec fn debug_tables_of(sections: Seq<Seq<u8>>, little_endian: bool) -> Option<
    Map<u64, Seq<char>>,
>;

/// The contents of the sections that the debug tables are made of.
pub struct DebugSections {
    pub debug_abbrev: Vec<u8>,
    pub debug_addr: Vec<u8>,
    pub debug_aranges: Vec<u8>,
    pub debug_info: Vec<u8>,
    pub debug_line: Vec<u8>,
    pub debug_line_str: Vec<u8>,
    pub debug_ranges: Vec<u8>,
    pub debug_rnglists: Vec<u8>,
    pub debug_str: Vec<u8>,
    pub debug_str_offsets: Vec<u8>,
}

impl View for DebugSections {
    type V = Seq<Seq<u8>>;

    open spec fn view(&self) -> Seq<Seq<u8>> {
        seq![
            self.debug_abbrev@,
            self.debug_addr@,
            self.debug_aranges@,
            self.debug_info@,
            self.debug_line@,
            self.debug_line_str@,
            self.debug_ranges@,
            self.debug_rnglists@,
            self.debug_str@,
            self.debug_str_offsets@,
        ]
    }
}

/// Parses `image` with `object::File::parse` and asks
/// `Object::is_little_endian` for the byte order of the parsed file.
#[verifier::external_body]
fn object_little_endian(image: &[u8]) -> (r: Option<bool>)
    ensures
        r == little_endian_of(image@),
{
    let file = object::File::parse(image).ok()?;
    Some(object::Object::is_little_endian(&file))
}

/// Parses `image` with `object::File::parse`, looks the section up with
/// `Object::section_by_name` and returns what
/// `ObjectSection::uncompressed_data` gives for it.
#[verifier::external_body]
fn section_contents(image: &[u8], name: &str) -> (r: Option<Vec<u8>>)
    ensures
        match r {
            Some(contents) => section_contents_of(image@, name@) == Some(contents@),
            None => section_contents_of(image@, name@) is None,
        },
{
    let file = object::File::parse(image).ok()?;
    let section = object::Object::section_by_name(&file, name)?;
    match object::ObjectSection::uncompressed_data(&section) {
        Ok(contents) => Some(contents.into_owned()),
        Err(_) => None,
    }
}

/// Parses `image` with `object::File::parse`, looks the section up with
/// `Object::section_by_name` and returns what `ObjectSection::address` gives
/// for it.
#[verifier::external_body]
fn find_section_address(image: &[u8], name: &str) -> (r: Option<u64>)
    ensures
        r == section_address_of(image@, name@),
{
    let file = object::File::parse(image).ok()?;
    let section = object::Object::section_by_name(&file, name)?;
    Some(object::ObjectSection::address(&section))
}

/// Builds the debug tables with `addr2line::Context::from_sections`. Each
/// section is handed over as a `gimli::EndianRcSlice` of its contents in the
/// byte order asked for, which `gimli` takes as a `RunTimeEndian`; the
/// sections that are not among `DebugSections` are handed over empty.
#[verifier::external_body]
fn build_tables(sections: &DebugSections, little_endian: bool) -> (r: Option<DebugTables>)
    ensures
        match r {
            Some(tables) => debug_tables_of(sections@, little_endian) == Some(frame_names(tables)),
            None => debug_tables_of(sections@, little_endian) is None,
        },
{
    let order = if little_endian { RunTimeEndian::Little } else { RunTimeEndian::Big };
    let part = |contents: &[u8]| EndianRcSlice::new(contents.into(), order);
    let context = Context::from_sections(
        part(&sections.debug_abbrev).into(),
        part(&sections.debug_addr).into(),
        part(&sections.debug_aranges).into(),
        part(&sections.debug_info).into(),
        part(&sections.debug_line).into(),
        part(&sections.debug_line_str).into(),
        part(&sections.debug_ranges).into(),
        part(&sections.debug_rnglists).into(),
        part(&sections.debug_str).into(),
        part(&sections.debug_str_offsets).into(), part(&[]),
    );
    Some(DebugTables { context: context.ok()? })
}

/// Asks `Context::find_frames` for the frames at `probe`, without loading
/// what is stored in other files (`LookupResult::skip_all_loads`), and
/// returns the demangled name (`FunctionName::demangle`) of the first frame,
/// which is the innermost. `None` where the query fails, yields no frame, or
/// yields a frame without a name.
///
/// The query adds one to `probe`, so the last address is left out.
#[verifier::external_body]
fn innermost_frame(tables: &DebugTables, probe: u64) -> (r: Option<String>)
    requires
        probe < u64::MAX,
    ensures
        match r {
            Some(name) => frame_names(*tables).contains_key(probe) && frame_names(*tables)[probe]
                == name@,
            None => !frame_names(*tables).contains_key(probe),
        },
{
    let mut frames = tables.context.find_frames(probe).skip_all_loads().ok()?;
    let frame = frames.next().ok()??;
    match frame.function?.demangle() {
        Ok(name) => Some(name.into_owned()),
        Err(_) => None,
    }
}

/// The distance between the load bias and the sum of the runtime base address
/// and the link-time address of the code section, for the toolchain whose
/// binaries this profiler reads.
pub const LOAD_BIAS_CORRECTION: u64 = 0x7D1E40;

/// The load bias of a binary mapped at `base_address` whose code section was
/// linked at `text_address`.
pub open spec fn load_bias_of(base_address: u64, text_address: u64) -> int {
    base_address + text_address - LOAD_BIAS_CORRECTION
}

/// The label of a frame that could not be named.
pub open spec fn unknown_label() -> Seq<char> {
    "[unknown]"@
}

/// What a symbolicator is to the contracts: the names that its debug tables
/// hold, and its load bias.
pub struct SymbolicatorView {
    pub frames: Map<u64, Seq<char>>,
    pub load_bias: int,
}

impl SymbolicatorView {
    /// The address in the debug tables that stands for the runtime address
    /// `instruction_pointer`, where there is one.
    pub open spec fn probe(self, instruction_pointer: u64) -> Option<u64> {
        probe_of(instruction_pointer, self.load_bias)
    }

    /// The name of the function at the runtime address `instruction_pointer`:
    /// that of the innermost frame where it lies in an inlined call, and
    /// `"[unknown]"` where the tables know none.
    pub open spec fn resolve(self, instruction_pointer: u64) -> Seq<char> {
        match self.probe(instruction_pointer) {
            Some(probe) => if self.frames.contains_key(probe) {
                self.frames[probe]
            } else {
                unknown_label()
            },
            None => unknown_label(),
        }
    }

    /// The names of a call chain, in its order.
    pub open spec fn resolve_all(self, call_chain: Seq<u64>) -> Seq<Seq<char>> {
        Seq::new(call_chain.len(), |i: int| self.resolve(call_chain[i]))
    }
}

/// An instruction pointer that the debug tables cover no function for gets
/// the label `"[unknown]"`, whatever the load bias is.
pub proof fn lemma_unknown_outside_tables(symbolicator: SymbolicatorView, instruction_pointer: u64)
    requires
        forall|probe: u64|
            symbolicator.probe(instruction_pointer) == Some(probe)
                ==> !symbolicator.frames.contains_key(probe),
    ensures
        symbolicator.resolve(instruction_pointer) == unknown_label(),
{
}

/// The address that stands for `instruction_pointer` under `load_bias`: their
/// difference, where it is an address that a function can cover. A function
/// covers the addresses from its first one up to, but without, its end, so
/// none covers the last address that there is.
pub open spec fn probe_of(instruction_pointer: u64, load_bias: int) -> Option<u64> {
    if 0 <= instruction_pointer - load_bias < u64::MAX {
        Some((instruction_pointer - load_bias) as u64)
    } else {
        None
    }
}

/// The contents of the debug section called `name` of the object file
/// `image`: a section that is not there, or that cannot be decompressed, is
/// taken as empty.
pub open spec fn debug_section_of(image: Seq<u8>, name: Seq<char>) -> Seq<u8> {
    match section_contents_of(image, name) {
        Some(contents) => contents,
        None => Seq::empty(),
    }
}

/// The contents of the sections of the object file `image` that the debug
/// tables are made of, in the order of `DebugSections`.
pub open spec fn debug_sections_of(image: Seq<u8>) -> Seq<Seq<u8>> {
    seq![
        debug_section_of(image, ".debug_abbrev"@),
        debug_section_of(image, ".debug_addr"@),
        debug_section_of(image, ".debug_aranges"@),
        debug_section_of(image, ".debug_info"@),
        debug_section_of(image, ".debug_line"@),
        debug_section_of(image, ".debug_line_str"@),
        debug_section_of(image, ".debug_ranges"@),
        debug_section_of(image, ".debug_rnglists"@),
        debug_section_of(image, ".debug_str"@),
        debug_section_of(image, ".debug_str_offsets"@),
    ]
}

/// What `Symbolicator::new` returns for an object file and a base address.
pub open spec fn symbolicator_for(image: Seq<u8>, base_address: u64) -> Result<
    SymbolicatorView,
    SymbolizationFailure,
> {
    match little_endian_of(image) {
        None => Err(SymbolizationFailure::UnreadableObject),
        Some(little_endian) => match (
            debug_tables_of(debug_sections_of(image), little_endian),
            section_address_of(image, ".text"@),
        ) {
            (None, _) => Err(SymbolizationFailure::UnreadableDebugData),
            (Some(_), None) => Err(SymbolizationFailure::MissingTextSection),
            (Some(frames), Some(text_address)) => Ok(
                SymbolicatorView { frames, load_bias: load_bias_of(base_address, text_address) },
            ),
        },
    }
}

/// The contents of the debug section called `name` of the object file
/// `image`.
fn read_debug_section(image: &[u8], name: &str) -> (r: Vec<u8>)
    ensures
        r@ == debug_section_of(image@, name@),
{
    match section_contents(image, name) {
        Some(contents) => contents,
        None => Vec::new(),
    }
}

/// The contents of the sections of the object file `image` that the debug
/// tables are made of.
fn read_debug_sections(image: &[u8]) -> (r: DebugSections)
    ensures
        r@ == debug_sections_of(image@),
{
    DebugSections {
        debug_abbrev: read_debug_section(image, ".debug_abbrev"),
        debug_addr: read_debug_section(image, ".debug_addr"),
        debug_aranges: read_debug_section(image, ".debug_aranges"),
        debug_info: read_debug_section(image, ".debug_info"),
        debug_line: read_debug_section(image, ".debug_line"),
        debug_line_str: read_debug_section(image, ".debug_line_str"),
        debug_ranges: read_debug_section(image, ".debug_ranges"),
        debug_rnglists: read_debug_section(image, ".debug_rnglists"),
        debug_str: read_debug_section(image, ".debug_str"),
        debug_str_offsets: read_debug_section(image, ".debug_str_offsets"),
    }
}

/// The load bias of a binary mapped at `base_address` whose code section was
/// linked at `text_address`. It can be negative, and is never truncated.
pub fn load_bias(base_address: u64, text_address: u64) -> (r: i128)
    ensures
        r == load_bias_of(base_address, text_address),
{
    base_address as i128 + text_address as i128 - LOAD_BIAS_CORRECTION as i128
}

/// The address to look up for `instruction_pointer` under `load_bias`; `None`
/// where the difference is no address.
pub fn probe_address(instruction_pointer: u64, load_bias: i128) -> (r: Option<u64>)
    ensures
        r == probe_of(instruction_pointer, load_bias as int),
{
    if load_bias > instruction_pointer as i128 || load_bias < -(u64::MAX as i128) {
        return None;
    }
    let probe: i128 = instruction_pointer as i128 - load_bias;
    if probe < u64::MAX as i128 {
        Some(probe as u64)
    } else {
        None
    }
}

/// The label of a frame, given what the debug tables found for it.
pub fn frame_label(found: Option<String>) -> (r: String)
    ensures
        r@ == match found {
            Some(name) => name@,
            None => unknown_label(),
        },
{
    match found {
        Some(name) => name,
        None => String::from_str("[unknown]"),
    }
}

/// Names instruction pointers of one profiled binary.
pub struct Symbolicator {
    tables: DebugTables,
    load_bias: i128,
}

impl View for Symbolicator {
    type V = SymbolicatorView;

    closed spec fn view(&self) -> SymbolicatorView {
        SymbolicatorView { frames: frame_names(self.tables), load_bias: self.load_bias as int }
    }
}

/// The view of a symbolicator that may not have been made yet.
pub open spec fn symbolicator_view(symbolicator: Option<Symbolicator>) -> Option<
    SymbolicatorView,
> {
    match symbolicator {
        Some(symbolicator) => Some(symbolicator@),
        None => None,
    }
}

impl Symbolicator {
    /// The symbolicator of the binary whose file holds `object_image`, and
    /// which the profiled process had mapped at `object_base_address`.
    ///
    /// Fails where the image is no object file, where its debug data cannot
    /// be parsed, and where it has no `.text` section.
    pub fn new(object_image: &[u8], object_base_address: u64) -> (r: Result<Self, PerfError>)
        ensures
            match symbolicator_for(object_image@, object_base_address) {
                Ok(view) => r matches Ok(symbolicator) && symbolicator@ == view,
                Err(failure) => r matches Err(error) && error == PerfError::Symbolization(failure),
            },
    {
        let little_endian = match object_little_endian(object_image) {
            Some(little_endian) => little_endian,
            None => {
                return Err(PerfError::Symbolization(SymbolizationFailure::UnreadableObject));
            },
        };
        let sections = read_debug_sections(object_image);
        let tables = match build_tables(&sections, little_endian) {
            Some(tables) => tables,
            None => {
                return Err(PerfError::Symbolization(SymbolizationFailure::UnreadableDebugData));
            },
        };
        match find_section_address(object_image, ".text") {
            Some(text_address) => Ok(
                Symbolicator { tables, load_bias: load_bias(object_base_address, text_address) },
            ),
            None => Err(PerfError::Symbolization(SymbolizationFailure::MissingTextSection)),
        }
    }

    /// The offset that is subtracted from a runtime address before it is
    /// looked up in the debug tables.
    pub fn load_bias(&self) -> (r: i128)
        ensures
            r == self@.load_bias,
    {
        self.load_bias
    }

    /// The name of the function that `instruction_pointer` lies in. An
    /// address that the debug data does not cover gets the label
    /// `"[unknown]"`: a lookup never fails.
    pub fn lookup_symbol(&self, instruction_pointer: u64) -> (r: String)
        ensures
            r@ == self@.resolve(instruction_pointer),
    {
        match probe_address(instruction_pointer, self.load_bias) {
            Some(probe) => frame_label(innermost_frame(&self.tables, probe)),
            None => frame_label(None),
        }
    }

    /// The names of the functions of a call chain, in its order.
    pub fn lookup_symbols(&self, call_chain: &Vec<u64>) -> (r: Vec<String>)
        ensures
            r@.map_values(|name: String| name@) == self@.resolve_all(call_chain@),
    {
        let mut names: Vec<String> = Vec::new();
        let mut i: usize = 0;
        while i < call_chain.len()
            invariant
                i <= call_chain.len(),
                names.len() == i,
                forall|j: int| 0 <= j < i ==> (#[trigger] names[j])@ == self@.resolve(call_chain[j]),
            decreases call_chain.len() - i,
        {
            names.push(self.lookup_symbol(call_chain[i]));
            i = i + 1;
        }
        assert(names@.map_values(|name: String| name@) =~= self@.resolve_all(call_chain@));
        names
    }
}

} // verus!
