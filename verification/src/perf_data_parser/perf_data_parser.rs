use super::byte_order::{fits, get_u64, has_room, u64_le};
use super::byte_reader::{ByteReader, ByteSource};
use super::error::{FormatError, IoError, PerfError};
use super::event_mmap2::{mmap2_at, ReadMmap2EventExt};
use super::event_sample::{
    sample_of, sample_record_at, sample_view, sample_views, ReadSampleEventExt, Sample,
    SampleType, SampleView,
};
use super::header::{
    event_header_at, header_at, Attribute, EventType, Header, ReadExt, EVENT_HEADER_LEN,
};
use super::symbolicator::{
    symbolicator_for, symbolicator_view, Symbolicator, SymbolicatorView,
};
use vstd::prelude::*;
use vstd::string::StringSliceAdditionalSpecFns;

verus! {

impl ReadExt for ByteReader {

}

impl ReadMmap2EventExt for ByteReader {

}

impl ReadSampleEventExt for ByteReader {

}

impl ReadSectionExt for ByteReader {

}

/// The number of bytes of an attribute record that are decoded: type, size,
/// configuration, sampling frequency or period, and sample type.
pub const ATTRIBUTE_DECODED_LEN: usize = 32;

/// What is left of `remaining` bytes of a section once a record of `taken`
/// bytes has been read: a record that reaches past the section's declared
/// size ends it.
pub open spec fn left_after(remaining: nat, taken: nat) -> nat {
    if taken >= remaining {
        0
    } else {
        (remaining - taken) as nat
    }
}

/// The attribute record stored at `at`, if its decoded part is there whole.
pub open spec fn attribute_at(bytes: Seq<u8>, at: int) -> Option<Attribute> {
    if fits(bytes, at, ATTRIBUTE_DECODED_LEN as int) {
        Some(
            Attribute {
                frequency: u64_le(bytes, at + 16),
                sample_type: SampleType { bits: u64_le(bytes, at + 24) & SampleType::ALL },
            },
        )
    } else {
        None
    }
}

/// The attribute records of `record_size` bytes each that start at `at`,
/// while `remaining` bytes of their section are left; and the offset that
/// the last of them ends at.
///
/// A record is decoded at its start, whatever its declared size, and the
/// next one starts `record_size` bytes behind it.
pub open spec fn attributes_from(bytes: Seq<u8>, at: int, record_size: u64, remaining: nat) -> Result<
    (Seq<Attribute>, int),
    PerfError,
>
    decreases remaining,
{
    if remaining == 0 {
        Ok((Seq::empty(), at))
    } else if record_size == 0 {
        Err(PerfError::Format(FormatError::ZeroAttributeSize))
    } else if attribute_at(bytes, at) is None {
        Err(PerfError::Io(IoError::UnexpectedEof))
    } else if at + record_size > bytes.len() {
        Err(PerfError::Io(IoError::SeekPastEnd))
    } else {
        match attributes_from(
            bytes,
            at + record_size,
            record_size,
            left_after(remaining, record_size as nat),
        ) {
            Ok((rest, end)) => Ok((seq![attribute_at(bytes, at)->0] + rest, end)),
            Err(error) => Err(error),
        }
    }
}

/// The attributes of the section that `header` declares, and the offset that
/// the section's last record ends at.
pub open spec fn attribute_section_of(bytes: Seq<u8>, header: Header) -> Result<
    (Seq<Attribute>, int),
    PerfError,
> {
    if header.attribute_section.offset > bytes.len() {
        Err(PerfError::Io(IoError::SeekPastEnd))
    } else {
        attributes_from(
            bytes,
            header.attribute_section.offset as int,
            header.attribute_size,
            header.attribute_section.size as nat,
        )
    }
}

/// The records of a section of `count` whole records.
proof fn lemma_attribute_records(bytes: Seq<u8>, at: int, record_size: u64, count: nat)
    requires
        record_size > 0,
        attributes_from(bytes, at, record_size, count * (record_size as nat)) is Ok,
    ensures
        attributes_from(bytes, at, record_size, count * (record_size as nat))->Ok_0.0.len()
            == count,
        attributes_from(bytes, at, record_size, count * (record_size as nat))->Ok_0.1 == at + count
            * record_size,
    decreases count,
{
    if count > 0 {
        assert(count * (record_size as nat) == (count - 1) as nat * (record_size as nat)
            + record_size) by (nonlinear_arith)
            requires
                count > 0,
        ;
        assert(left_after(count * (record_size as nat), record_size as nat) == (count - 1) as nat
            * (record_size as nat));
        lemma_attribute_records(bytes, at + record_size, record_size, (count - 1) as nat);
    } else {
        assert(count * (record_size as nat) == 0) by (nonlinear_arith)
            requires
                count == 0,
        ;
    }
}

/// An attribute section whose length is a multiple of its records' size
/// gives one attribute for each record, and decoding it ends at the
/// section's end: as many bytes are consumed as the section has.
pub proof fn lemma_attribute_section_whole(
    bytes: Seq<u8>,
    at: int,
    record_size: u64,
    section_len: nat,
)
    requires
        record_size > 0,
        section_len % (record_size as nat) == 0,
        attributes_from(bytes, at, record_size, section_len) is Ok,
    ensures
        attributes_from(bytes, at, record_size, section_len)->Ok_0.0.len() == section_len / (
        record_size as nat),
        attributes_from(bytes, at, record_size, section_len)->Ok_0.1 == at + section_len,
{
    let size = record_size as int;
    let count = section_len as int / size;
    vstd::arithmetic::div_mod::lemma_fundamental_div_mod(section_len as int, size);
    vstd::arithmetic::div_mod::lemma_div_pos_is_pos(section_len as int, size);
    assert(section_len == (count as nat) * (record_size as nat)) by (nonlinear_arith)
        requires
            section_len == size * count + 0,
            count >= 0,
            size == record_size,
    ;
    lemma_attribute_records(bytes, at, record_size, count as nat);
}

/// A section of whole records that lies inside the file is decoded without
/// an error, where a record is at least as long as its decoded part.
pub proof fn lemma_attribute_section_decodes(
    bytes: Seq<u8>,
    at: int,
    record_size: u64,
    count: nat,
)
    requires
        record_size >= ATTRIBUTE_DECODED_LEN,
        fits(bytes, at, (count * (record_size as nat)) as int),
    ensures
        attributes_from(bytes, at, record_size, count * (record_size as nat)) is Ok,
    decreases count,
{
    if count > 0 {
        assert(count * (record_size as nat) == (count - 1) as nat * (record_size as nat)
            + record_size) by (nonlinear_arith)
            requires
                count > 0,
        ;
        assert(left_after(count * (record_size as nat), record_size as nat) == (count - 1) as nat
            * (record_size as nat));
        lemma_attribute_section_decodes(bytes, at + record_size, record_size, (count - 1) as nat);
    } else {
        assert(count * (record_size as nat) == 0) by (nonlinear_arith)
            requires
                count == 0,
        ;
    }
}

/// What is left of a symbolicator after a memory-map record: the first
/// record that gives a candidate for the load address makes it, and it stays
/// as it is from then on.
pub open spec fn symbolicator_after(
    current: Option<SymbolicatorView>,
    candidate: Option<u64>,
    image: Seq<u8>,
) -> Result<Option<SymbolicatorView>, PerfError> {
    if current is None && candidate is Some {
        match symbolicator_for(image, candidate->0) {
            Ok(made) => Ok(Some(made)),
            Err(failure) => Err(PerfError::Symbolization(failure)),
        }
    } else {
        Ok(current)
    }
}

/// What a record gives once its payload has been decoded: its sample, after
/// the test that the decoder has not read more than the record holds, and
/// that the record ends inside the file.
pub open spec fn event_end(
    bytes: Seq<u8>,
    at: int,
    size: u16,
    consumed: int,
    symbolicator: Option<SymbolicatorView>,
    sample: Option<SampleView>,
) -> Result<(int, Option<SymbolicatorView>, Option<SampleView>), PerfError> {
    if size < EVENT_HEADER_LEN + consumed {
        Err(PerfError::Synchronization)
    } else if at + size > bytes.len() {
        Err(PerfError::Io(IoError::SeekPastEnd))
    } else {
        Ok((size as int, symbolicator, sample))
    }
}

/// What the event record stored at `at` gives: its size, the symbolicator
/// that is there behind it, and its sample.
///
/// A memory-map record is decoded, and makes the symbolicator where it is
/// the first to map the binary called `name`, whose file holds `image`. A
/// sample record is decoded once there is a symbolicator, and dropped until
/// then. Records of the other kinds are skipped by their size. Whatever a
/// decoder leaves of a record is skipped too.
#[verifier::opaque]
pub open spec fn event_at(
    bytes: Seq<u8>,
    at: int,
    mask: SampleType,
    name: Seq<u8>,
    image: Seq<u8>,
    symbolicator: Option<SymbolicatorView>,
) -> Result<(int, Option<SymbolicatorView>, Option<SampleView>), PerfError> {
    match event_header_at(bytes, at) {
        Err(error) => Err(error),
        Ok((code, size)) => if code == EventType::MMAP2.code() {
            match mmap2_at(bytes, at + EVENT_HEADER_LEN, name) {
                Err(error) => Err(error),
                Ok((consumed, candidate)) => match symbolicator_after(
                    symbolicator,
                    candidate,
                    image,
                ) {
                    Err(error) => Err(error),
                    Ok(next) => event_end(bytes, at, size, consumed, next, None),
                },
            }
        } else if code == EventType::SAMPLE.code() && symbolicator is Some {
            match sample_record_at(bytes, at + EVENT_HEADER_LEN, mask) {
                Err(error) => Err(error),
                Ok((record, consumed)) => event_end(
                    bytes,
                    at,
                    size,
                    consumed,
                    symbolicator,
                    sample_of(record, symbolicator->0),
                ),
            }
        } else {
            event_end(bytes, at, size, 0, symbolicator, None)
        },
    }
}

/// The samples, in a sequence of none or one.
pub open spec fn sample_seq(sample: Option<SampleView>) -> Seq<SampleView> {
    match sample {
        Some(sample) => seq![sample],
        None => Seq::empty(),
    }
}

/// The samples of the event records that start at `at`, while `remaining`
/// bytes of the data section are left, and the offset that the last record
/// ends at.
pub open spec fn events_from(
    bytes: Seq<u8>,
    at: int,
    remaining: nat,
    mask: SampleType,
    name: Seq<u8>,
    image: Seq<u8>,
    symbolicator: Option<SymbolicatorView>,
) -> Result<(Seq<SampleView>, int), PerfError>
    decreases remaining,
{
    if remaining == 0 {
        Ok((Seq::empty(), at))
    } else {
        match event_at(bytes, at, mask, name, image, symbolicator) {
            Err(error) => Err(error),
            Ok((size, next, sample)) => if size < EVENT_HEADER_LEN {
                Err(PerfError::Synchronization)
            } else {
                match events_from(
                    bytes,
                    at + size,
                    left_after(remaining, size as nat),
                    mask,
                    name,
                    image,
                    next,
                ) {
                    Err(error) => Err(error),
                    Ok((rest, end)) => Ok((sample_seq(sample) + rest, end)),
                }
            },
        }
    }
}

/// Decoding a data section reads whole records, each of them to its
/// declared end: it stops where a record ends, at the section's declared
/// length or less than one record behind it.
pub proof fn lemma_data_section_consumed(
    bytes: Seq<u8>,
    at: int,
    remaining: nat,
    mask: SampleType,
    name: Seq<u8>,
    image: Seq<u8>,
    symbolicator: Option<SymbolicatorView>,
)
    requires
        events_from(bytes, at, remaining, mask, name, image, symbolicator) is Ok,
    ensures
        remaining == 0 ==> events_from(bytes, at, remaining, mask, name, image, symbolicator)->Ok_0.1
            == at,
        at + remaining <= events_from(
            bytes,
            at,
            remaining,
            mask,
            name,
            image,
            symbolicator,
        )->Ok_0.1 <= at + remaining + u16::MAX,
    decreases remaining,
{
    if remaining > 0 {
        reveal(event_at);
        let event = event_at(bytes, at, mask, name, image, symbolicator)->Ok_0;
        lemma_data_section_consumed(
            bytes,
            at + event.0,
            left_after(remaining, event.0 as nat),
            mask,
            name,
            image,
            event.1,
        );
    }
}

/// The samples of the event records that start at `at`, up to the first
/// record that cannot be decoded, and how decoding them ends: with the
/// offset that the last record ends at, or with the failure of a record.
pub open spec fn samples_until_failure(
    bytes: Seq<u8>,
    at: int,
    remaining: nat,
    mask: SampleType,
    name: Seq<u8>,
    image: Seq<u8>,
    symbolicator: Option<SymbolicatorView>,
) -> (Seq<SampleView>, Result<int, PerfError>)
    decreases remaining,
{
    if remaining == 0 {
        (Seq::empty(), Ok(at))
    } else {
        match event_at(bytes, at, mask, name, image, symbolicator) {
            Err(error) => (Seq::empty(), Err(error)),
            Ok((size, next, sample)) => if size < EVENT_HEADER_LEN {
                (Seq::empty(), Err(PerfError::Synchronization))
            } else {
                let rest = samples_until_failure(
                    bytes,
                    at + size,
                    left_after(remaining, size as nat),
                    mask,
                    name,
                    image,
                    next,
                );
                (sample_seq(sample) + rest.0, rest.1)
            },
        }
    }
}

/// Records that are all decoded give the samples that come before a
/// failure, and records of which one fails give its failure: reading the
/// samples one by one and reading them all end alike.
pub proof fn lemma_samples_until_failure(
    bytes: Seq<u8>,
    at: int,
    remaining: nat,
    mask: SampleType,
    name: Seq<u8>,
    image: Seq<u8>,
    symbolicator: Option<SymbolicatorView>,
)
    ensures
        events_from(bytes, at, remaining, mask, name, image, symbolicator) == match samples_until_failure(
            bytes,
            at,
            remaining,
            mask,
            name,
            image,
            symbolicator,
        ).1 {
            Ok(end) => Ok::<(Seq<SampleView>, int), PerfError>(
                (
                    samples_until_failure(bytes, at, remaining, mask, name, image, symbolicator).0,
                    end,
                ),
            ),
            Err(error) => Err::<(Seq<SampleView>, int), PerfError>(error),
        },
    decreases remaining,
{
    if remaining > 0 {
        let event = event_at(bytes, at, mask, name, image, symbolicator);
        if event is Ok && event->Ok_0.0 >= EVENT_HEADER_LEN {
            lemma_samples_until_failure(
                bytes,
                at + event->Ok_0.0,
                left_after(remaining, event->Ok_0.0 as nat),
                mask,
                name,
                image,
                event->Ok_0.1,
            );
        }
    }
}

/// The samples of the data section that `header` declares, up to the first
/// record that cannot be decoded, and how decoding the section ends.
pub open spec fn data_samples_of(
    bytes: Seq<u8>,
    header: Header,
    mask: SampleType,
    name: Seq<u8>,
    image: Seq<u8>,
) -> (Seq<SampleView>, Result<int, PerfError>) {
    if header.data_section.offset > bytes.len() {
        (Seq::empty(), Err(PerfError::Io(IoError::SeekPastEnd)))
    } else {
        samples_until_failure(
            bytes,
            header.data_section.offset as int,
            header.data_section.size as nat,
            mask,
            name,
            image,
            None,
        )
    }
}

/// The samples of the trace `bytes` up to its first failure, and the
/// failure, if there is one.
pub open spec fn samples_of_trace(bytes: Seq<u8>, name: Seq<u8>, image: Seq<u8>) -> (
    Seq<SampleView>,
    Option<PerfError>,
) {
    match header_at(bytes, 0) {
        Err(error) => (Seq::empty(), Some(error)),
        Ok(header) => match attribute_section_of(bytes, header) {
            Err(error) => (Seq::empty(), Some(error)),
            Ok((attributes, _)) => if attributes.len() == 0 {
                (Seq::empty(), Some(PerfError::Format(FormatError::NoAttributes)))
            } else {
                let read = data_samples_of(bytes, header, attributes[0].sample_type, name, image);
                (
                    read.0,
                    match read.1 {
                        Ok(_) => None,
                        Err(error) => Some(error),
                    },
                )
            },
        },
    }
}

/// The samples of the data section that `header` declares, and the offset
/// that the section's last record ends at.
pub open spec fn data_section_of(
    bytes: Seq<u8>,
    header: Header,
    mask: SampleType,
    name: Seq<u8>,
    image: Seq<u8>,
) -> Result<(Seq<SampleView>, int), PerfError> {
    if header.data_section.offset > bytes.len() {
        Err(PerfError::Io(IoError::SeekPastEnd))
    } else {
        events_from(
            bytes,
            header.data_section.offset as int,
            header.data_section.size as nat,
            mask,
            name,
            image,
            None,
        )
    }
}

/// The samples of the trace `bytes`, taken of the binary called `name`
/// whose file holds `image`: the header is read at the start of the trace,
/// the first attribute tells the fields of the sample records, and the data
/// section gives the samples.
pub open spec fn conversion_of(bytes: Seq<u8>, name: Seq<u8>, image: Seq<u8>) -> Result<
    Seq<SampleView>,
    PerfError,
> {
    match header_at(bytes, 0) {
        Err(error) => Err(error),
        Ok(header) => match attribute_section_of(bytes, header) {
            Err(error) => Err(error),
            Ok((attributes, _)) => if attributes.len() == 0 {
                Err(PerfError::Format(FormatError::NoAttributes))
            } else {
                match data_section_of(bytes, header, attributes[0].sample_type, name, image) {
                    Err(error) => Err(error),
                    Ok((samples, _)) => Ok(samples),
                }
            },
        },
    }
}

/// The sections of a trace.
///
/// A method that fails leaves the cursor where it was.
pub trait ReadSectionExt: ReadExt + ReadMmap2EventExt + ReadSampleEventExt {
    /// Reads the attribute section that `header` declares. The cursor stops
    /// behind its last record. A section without records is no error here.
    fn read_attribute_section(&mut self, header: &Header) -> (r: Result<Vec<Attribute>, PerfError>)
        ensures
            final(self).source() == old(self).source(),
            match attribute_section_of(old(self).source(), *header) {
                Ok((attributes, end)) => r matches Ok(found) && found@ == attributes
                    && final(self).cursor() == end,
                Err(error) => r matches Err(found) && found == error && final(self).cursor()
                    == old(self).cursor(),
            },
    {
        let data = self.bytes();
        let length = data.len();
        if header.attribute_section.offset > length as u64 {
            return Err(PerfError::Io(IoError::SeekPastEnd));
        }
        let record_size = header.attribute_size;
        let mut at: usize = header.attribute_section.offset as usize;
        let mut remaining: u64 = header.attribute_section.size;
        let mut attributes: Vec<Attribute> = Vec::new();
        while remaining > 0
            invariant
                data@ == self.source(),
                length == data@.len(),
                at <= length,
                record_size == header.attribute_size,
                attribute_section_of(data@, *header) == match attributes_from(
                    data@,
                    at as int,
                    record_size,
                    remaining as nat,
                ) {
                    Ok((rest, end)) => Ok::<(Seq<Attribute>, int), PerfError>(
                        (attributes@ + rest, end),
                    ),
                    Err(error) => Err::<(Seq<Attribute>, int), PerfError>(error),
                },
            decreases remaining,
        {
            if record_size == 0 {
                return Err(PerfError::Format(FormatError::ZeroAttributeSize));
            }
            if !has_room(data, at, ATTRIBUTE_DECODED_LEN) {
                return Err(PerfError::Io(IoError::UnexpectedEof));
            }
            if record_size > (length - at) as u64 {
                return Err(PerfError::Io(IoError::SeekPastEnd));
            }
            let ghost before = attributes@;
            let ghost rest = attributes_from(
                data@,
                at + record_size,
                record_size,
                left_after(remaining as nat, record_size as nat),
            );
            let attribute = Attribute {
                frequency: get_u64(data, at + 16),
                sample_type: SampleType::from_bits_truncate(get_u64(data, at + 24)),
            };
            attributes.push(attribute);
            proof {
                assert(attributes_from(data@, at as int, record_size, remaining as nat) == match rest {
                    Ok((tail, end)) => Ok::<(Seq<Attribute>, int), PerfError>(
                        (seq![attribute] + tail, end),
                    ),
                    Err(error) => Err::<(Seq<Attribute>, int), PerfError>(error),
                });
                if rest is Ok {
                    assert(before.push(attribute) + rest->Ok_0.0 =~= before + (seq![attribute]
                        + rest->Ok_0.0));
                }
            }
            at = at + record_size as usize;
            remaining = if record_size >= remaining {
                0
            } else {
                remaining - record_size
            };
        }
        proof {
            assert(attributes@ + Seq::<Attribute>::empty() =~= attributes@);
        }
        self.seek(at as u64)?;
        Ok(attributes)
    }

    /// Reads the event record at the cursor, the next one of the data
    /// section: its header, its payload where its kind is decoded, and past
    /// whatever is left of it. Returns the record's size and, where it is a
    /// sample record that gives one, its sample.
    ///
    /// `symbolicator` is the one that an earlier record made, if any. The
    /// first memory-map record that maps the binary whose file name is
    /// `binary_name` for execution makes it, from `binary_image`, the bytes
    /// of the binary's file.
    fn read_event(
        &mut self,
        sample_type: SampleType,
        symbolicator: &mut Option<Symbolicator>,
        binary_name: &str,
        binary_image: &[u8],
    ) -> (r: Result<(u16, Option<Sample>), PerfError>)
        ensures
            final(self).source() == old(self).source(),
            match event_at(
                old(self).source(),
                old(self).cursor(),
                sample_type,
                binary_name.spec_bytes(),
                binary_image@,
                symbolicator_view(*old(symbolicator)),
            ) {
                Ok((size, next, sample)) => r matches Ok((found_size, found)) && found_size
                    == size && size >= EVENT_HEADER_LEN && sample_view(found) == sample
                    && symbolicator_view(*final(symbolicator)) == next
                    && final(self).cursor() == old(self).cursor() + size,
                Err(error) => r matches Err(found) && found == error && *final(symbolicator)
                    == *old(symbolicator) && final(self).cursor() == old(self).cursor(),
            },
    {
        proof {
            reveal(event_at);
        }
        let start = self.offset();
        let length = self.bytes().len();
        let header = self.read_event_header()?;
        let mut consumed: u64 = 0;
        let mut sample: Option<Sample> = None;
        let mut made: Option<Symbolicator> = None;
        match header.event_type {
            EventType::MMAP2 => {
                let candidate = match self.read_mmap2_event(binary_name) {
                    Ok((bytes_read, candidate)) => {
                        consumed = bytes_read;
                        candidate
                    },
                    Err(error) => {
                        self.seek(start as u64)?;
                        return Err(error);
                    },
                };
                match candidate {
                    Some(base_address) => {
                        if symbolicator.is_none() {
                            match Symbolicator::new(binary_image, base_address) {
                                Ok(symbolicator) => {
                                    made = Some(symbolicator);
                                },
                                Err(error) => {
                                    self.seek(start as u64)?;
                                    return Err(error);
                                },
                            }
                        }
                    },
                    None => {},
                }
            },
            EventType::SAMPLE => {
                match symbolicator.as_ref() {
                    Some(current) => {
                        match self.read_sample_event(sample_type, current) {
                            Ok((bytes_read, found)) => {
                                consumed = bytes_read;
                                sample = found;
                            },
                            Err(error) => {
                                self.seek(start as u64)?;
                                return Err(error);
                            },
                        }
                    },
                    None => {},
                }
            },
            _ => {},
        }
        let size = header.event_size;
        if (size as u64) < consumed || size as u64 - consumed < EVENT_HEADER_LEN as u64 {
            self.seek(start as u64)?;
            return Err(PerfError::Synchronization);
        }
        if size as usize > length - start {
            self.seek(start as u64)?;
            return Err(PerfError::Io(IoError::SeekPastEnd));
        }
        self.seek((start + size as usize) as u64)?;
        if made.is_some() {
            *symbolicator = made;
        }
        Ok((size, sample))
    }

    /// Reads the data section that `header` declares as far as it can be
    /// decoded. Returns the samples of the records that were decoded, in the
    /// order of their records, and the failure of the first record that was
    /// not, if there is one.
    ///
    /// The cursor stops behind the section's last record, and stays where it
    /// was where a record fails.
    fn read_samples(
        &mut self,
        header: &Header,
        sample_type: SampleType,
        binary_name: &str,
        binary_image: &[u8],
    ) -> (r: (Vec<Sample>, Option<PerfError>))
        ensures
            final(self).source() == old(self).source(),
            sample_views(r.0@) == data_samples_of(
                old(self).source(),
                *header,
                sample_type,
                binary_name.spec_bytes(),
                binary_image@,
            ).0,
            match data_samples_of(
                old(self).source(),
                *header,
                sample_type,
                binary_name.spec_bytes(),
                binary_image@,
            ).1 {
                Ok(end) => r.1 is None && final(self).cursor() == end,
                Err(error) => r.1 == Some(error) && final(self).cursor() == old(self).cursor(),
            },
    {
        let start = self.offset();
        let mut samples: Vec<Sample> = Vec::new();
        match self.seek(header.data_section.offset) {
            Ok(_) => {},
            Err(error) => {
                return (samples, Some(error));
            },
        }
        let mut symbolicator: Option<Symbolicator> = None;
        let mut remaining: u64 = header.data_section.size;
        let mut failure: Option<PerfError> = None;
        let ghost bytes = self.source();
        let ghost name = binary_name.spec_bytes();
        let ghost expected = data_samples_of(bytes, *header, sample_type, name, binary_image@);
        while remaining > 0 && failure.is_none()
            invariant
                self.source() == bytes,
                bytes == old(self).source(),
                start == old(self).cursor(),
                start <= bytes.len(),
                name == binary_name.spec_bytes(),
                expected == data_samples_of(bytes, *header, sample_type, name, binary_image@),
                failure is Some ==> expected == (sample_views(samples@), Err::<int, PerfError>(
                    failure->0,
                )) && self.cursor() == start,
                failure is None ==> expected == ({
                    let rest = samples_until_failure(
                        bytes,
                        self.cursor(),
                        remaining as nat,
                        sample_type,
                        name,
                        binary_image@,
                        symbolicator_view(symbolicator),
                    );
                    (sample_views(samples@) + rest.0, rest.1)
                }),
            decreases remaining + if failure is None { 1int } else { 0int },
        {
            let ghost before = samples@;
            match self.read_event(sample_type, &mut symbolicator, binary_name, binary_image) {
                Ok((size, sample)) => {
                    match sample {
                        Some(sample) => {
                            samples.push(sample);
                            assert(sample_views(samples@) =~= sample_views(before) + seq![
                                sample@,
                            ]);
                        },
                        None => {
                            assert(sample_views(before) + Seq::<SampleView>::empty()
                                =~= sample_views(before));
                        },
                    }
                    proof {
                        let rest = samples_until_failure(
                            bytes,
                            self.cursor(),
                            left_after(remaining as nat, size as nat),
                            sample_type,
                            name,
                            binary_image@,
                            symbolicator_view(symbolicator),
                        );
                        assert((sample_views(before) + sample_seq(sample_view(sample))) + rest.0
                            =~= sample_views(before) + (sample_seq(sample_view(sample)) + rest.0));
                    }
                    remaining = if size as u64 >= remaining {
                        0
                    } else {
                        remaining - size as u64
                    };
                },
                Err(error) => {
                    proof {
                        assert(sample_views(before) + Seq::<SampleView>::empty()
                            =~= sample_views(before));
                    }
                    match self.seek(start as u64) {
                        Ok(_) => {},
                        Err(_) => {},
                    }
                    failure = Some(error);
                },
            }
        }
        proof {
            assert(sample_views(samples@) + Seq::<SampleView>::empty() =~= sample_views(samples@));
        }
        (samples, failure)
    }

    /// Reads the data section that `header` declares, and returns its
    /// samples in the order of their records. The cursor stops behind the
    /// section's last record.
    ///
    /// `sample_type` names the fields of the section's sample records.
    /// `binary_name` is the last component of the profiled binary's path, and
    /// `binary_image` holds the bytes of its file.
    fn read_data_section(
        &mut self,
        header: &Header,
        sample_type: SampleType,
        binary_name: &str,
        binary_image: &[u8],
    ) -> (r: Result<Vec<Sample>, PerfError>)
        ensures
            final(self).source() == old(self).source(),
            match data_section_of(
                old(self).source(),
                *header,
                sample_type,
                binary_name.spec_bytes(),
                binary_image@,
            ) {
                Ok((samples, end)) => r matches Ok(found) && sample_views(found@) == samples
                    && final(self).cursor() == end,
                Err(error) => r matches Err(found) && found == error && final(self).cursor()
                    == old(self).cursor(),
            },
    {
        proof {
            lemma_samples_until_failure(
                self.source(),
                header.data_section.offset as int,
                header.data_section.size as nat,
                sample_type,
                binary_name.spec_bytes(),
                binary_image@,
                None,
            );
        }
        let (samples, failure) = self.read_samples(
            header,
            sample_type,
            binary_name,
            binary_image,
        );
        match failure {
            None => Ok(samples),
            Some(error) => Err(error),
        }
    }
}

/// Converts a trace to the samples that it holds.
///
/// `trace` holds the bytes of the trace file, `binary_name` is the last
/// component of the profiled binary's path, and `binary_image` holds the
/// bytes of the binary's file. The trace's first attribute tells the fields
/// of its sample records: a trace without attributes is rejected.
pub fn convert_perf_data_to_wtf(trace: Vec<u8>, binary_name: &str, binary_image: &[u8]) -> (r:
    Result<Vec<Sample>, PerfError>)
    ensures
        match conversion_of(trace@, binary_name.spec_bytes(), binary_image@) {
            Ok(samples) => r matches Ok(found) && sample_views(found@) == samples,
            Err(error) => r matches Err(found) && found == error,
        },
{
    let mut file = ByteReader::new(trace);
    let header = file.read_header()?;
    let attributes = file.read_attribute_section(&header)?;
    if attributes.len() == 0 {
        return Err(PerfError::Format(FormatError::NoAttributes));
    }
    let sample_type = attributes[0].sample_type;
    file.read_data_section(&header, sample_type, binary_name, binary_image)
}

/// Converts a trace to the samples that it holds before anything fails, and
/// tells what failed: a trace of which a late record cannot be decoded
/// still gives the samples of the records before it.
pub fn convert_perf_data_to_samples(trace: Vec<u8>, binary_name: &str, binary_image: &[u8]) -> (r:
    (Vec<Sample>, Option<PerfError>))
    ensures
        sample_views(r.0@) == samples_of_trace(trace@, binary_name.spec_bytes(), binary_image@).0,
        r.1 == samples_of_trace(trace@, binary_name.spec_bytes(), binary_image@).1,
{
    let mut file = ByteReader::new(trace);
    let header = match file.read_header() {
        Ok(header) => header,
        Err(error) => {
            return (Vec::new(), Some(error));
        },
    };
    let attributes = match file.read_attribute_section(&header) {
        Ok(attributes) => attributes,
        Err(error) => {
            return (Vec::new(), Some(error));
        },
    };
    if attributes.len() == 0 {
        return (Vec::new(), Some(PerfError::Format(FormatError::NoAttributes)));
    }
    let sample_type = attributes[0].sample_type;
    file.read_samples(&header, sample_type, binary_name, binary_image)
}

} // verus!
