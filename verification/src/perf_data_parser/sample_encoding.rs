use super::byte_order::{
    fits, holds_at, lemma_holds_both, lemma_u32_round_trip, lemma_u64_round_trip, u32_bytes,
    u32_le, u64_bytes, u64_le,
};
use super::error::PerfError;
use super::event_sample::{
    addr_offset, callchain_at, callchain_len, cpu_offset, fixed_fields_at, fixed_len, id_offset,
    ip_offset, padded_len, period_offset, raw_len, raw_size_at, sample_record_at,
    stream_id_offset, tid_offset, time_offset, SampleFields, SampleRecordView, SampleType,
};
use vstd::prelude::*;

verus! {

/// The bytes of a 64-bit field: none where the record does not carry it.
pub open spec fn u64_field_bytes(field: Option<u64>) -> Seq<u8> {
    match field {
        Some(value) => u64_bytes(value),
        None => Seq::empty(),
    }
}

/// The bytes of a 32-bit field: none where the record does not carry it.
pub open spec fn u32_field_bytes(field: Option<u32>) -> Seq<u8> {
    match field {
        Some(value) => u32_bytes(value),
        None => Seq::empty(),
    }
}

/// The bytes of the fixed-size fields of a sample record, in the order that
/// the format fixes.
pub open spec fn fixed_fields_bytes(fields: SampleFields) -> Seq<u8> {
    u64_field_bytes(fields.identifier) + u64_field_bytes(fields.ip) + u32_field_bytes(fields.pid)
        + u32_field_bytes(fields.tid) + u64_field_bytes(fields.time) + u64_field_bytes(
        fields.addr,
    ) + u64_field_bytes(fields.id) + u64_field_bytes(fields.stream_id) + u32_field_bytes(
        fields.cpu,
    ) + u32_field_bytes(fields.res) + u64_field_bytes(fields.period)
}

/// The bytes of instruction pointers, one behind the other.
pub open spec fn pointers_bytes(pointers: Seq<u64>) -> Seq<u8>
    decreases pointers.len(),
{
    if pointers.len() == 0 {
        Seq::empty()
    } else {
        pointers_bytes(pointers.drop_last()) + u64_bytes(pointers.last())
    }
}

/// The bytes of a call chain: its count, then its instruction pointers.
pub open spec fn callchain_bytes(callchain: Option<Seq<u64>>) -> Seq<u8> {
    match callchain {
        Some(pointers) => u64_bytes(pointers.len() as u64) + pointers_bytes(pointers),
        None => Seq::empty(),
    }
}

/// The bytes of a raw payload: its declared size, then the payload with its
/// padding.
pub open spec fn raw_bytes(raw_size: Option<u32>, padded_payload: Seq<u8>) -> Seq<u8> {
    match raw_size {
        Some(size) => u32_bytes(size) + padded_payload,
        None => Seq::empty(),
    }
}

/// The payload of the sample record that carries the fields of `record`, and
/// `padded_payload` as its raw payload.
pub open spec fn sample_record_bytes(record: SampleRecordView, padded_payload: Seq<u8>) -> Seq<u8> {
    fixed_fields_bytes(record.fields) + callchain_bytes(record.callchain) + raw_bytes(
        record.raw_size,
        padded_payload,
    )
}

/// Whether `record` carries the fields that `mask` names and no others, with
/// `padded_payload` as its raw payload, and can be decoded.
pub open spec fn carries(record: SampleRecordView, mask: SampleType, padded_payload: Seq<u8>) -> bool {
    &&& !mask.has(SampleType::READ)
    &&& record.fields.identifier is Some <==> mask.has(SampleType::IDENTIFIER)
    &&& record.fields.ip is Some <==> mask.has(SampleType::IP)
    &&& record.fields.pid is Some <==> mask.has(SampleType::TID)
    &&& record.fields.tid is Some <==> mask.has(SampleType::TID)
    &&& record.fields.time is Some <==> mask.has(SampleType::TIME)
    &&& record.fields.addr is Some <==> mask.has(SampleType::ADDR)
    &&& record.fields.id is Some <==> mask.has(SampleType::ID)
    &&& record.fields.stream_id is Some <==> mask.has(SampleType::STREAM_ID)
    &&& record.fields.cpu is Some <==> mask.has(SampleType::CPU)
    &&& record.fields.res is Some <==> mask.has(SampleType::CPU)
    &&& record.fields.period is Some <==> mask.has(SampleType::PERIOD)
    &&& record.callchain is Some <==> mask.has(SampleType::CALLCHAIN)
    &&& record.callchain is Some ==> record.callchain->0.len() <= u64::MAX
    &&& record.raw_size is Some <==> mask.has(SampleType::RAW)
    &&& record.raw_size is Some ==> padded_payload.len() == padded_len(record.raw_size->0 as int)
}

proof fn lemma_u64_field(bytes: Seq<u8>, at: int, field: Option<u64>)
    requires
        holds_at(bytes, at, u64_field_bytes(field)),
    ensures
        u64_field_bytes(field).len() == if field is Some {
            8int
        } else {
            0int
        },
        field is Some ==> fits(bytes, at, 8) && u64_le(bytes, at) == field->0,
{
    if field is Some {
        lemma_u64_round_trip(bytes, at, field->0);
    }
}

proof fn lemma_u32_field(bytes: Seq<u8>, at: int, field: Option<u32>)
    requires
        holds_at(bytes, at, u32_field_bytes(field)),
    ensures
        u32_field_bytes(field).len() == if field is Some {
            4int
        } else {
            0int
        },
        field is Some ==> fits(bytes, at, 4) && u32_le(bytes, at) == field->0,
{
    if field is Some {
        lemma_u32_round_trip(bytes, at, field->0);
    }
}

/// The fixed-size fields that are stored in bytes are the ones that are read
/// from them.
proof fn lemma_fixed_fields_round_trip(
    bytes: Seq<u8>,
    at: int,
    mask: SampleType,
    record: SampleRecordView,
    padded_payload: Seq<u8>,
)
    requires
        carries(record, mask, padded_payload),
        holds_at(bytes, at, fixed_fields_bytes(record.fields)),
    ensures
        fixed_fields_bytes(record.fields).len() == fixed_len(mask),
        fits(bytes, at, fixed_len(mask)),
        fixed_fields_at(bytes, at, mask) == record.fields,
{
    let fields = record.fields;
    let to_ip = u64_field_bytes(fields.identifier);
    let to_pid = to_ip + u64_field_bytes(fields.ip);
    let to_tid = to_pid + u32_field_bytes(fields.pid);
    let to_time = to_tid + u32_field_bytes(fields.tid);
    let to_addr = to_time + u64_field_bytes(fields.time);
    let to_id = to_addr + u64_field_bytes(fields.addr);
    let to_stream_id = to_id + u64_field_bytes(fields.id);
    let to_cpu = to_stream_id + u64_field_bytes(fields.stream_id);
    let to_res = to_cpu + u32_field_bytes(fields.cpu);
    let to_period = to_res + u32_field_bytes(fields.res);
    lemma_holds_both(bytes, at, to_period, u64_field_bytes(fields.period));
    lemma_holds_both(bytes, at, to_res, u32_field_bytes(fields.res));
    lemma_holds_both(bytes, at, to_cpu, u32_field_bytes(fields.cpu));
    lemma_holds_both(bytes, at, to_stream_id, u64_field_bytes(fields.stream_id));
    lemma_holds_both(bytes, at, to_id, u64_field_bytes(fields.id));
    lemma_holds_both(bytes, at, to_addr, u64_field_bytes(fields.addr));
    lemma_holds_both(bytes, at, to_time, u64_field_bytes(fields.time));
    lemma_holds_both(bytes, at, to_tid, u32_field_bytes(fields.tid));
    lemma_holds_both(bytes, at, to_pid, u32_field_bytes(fields.pid));
    lemma_holds_both(bytes, at, to_ip, u64_field_bytes(fields.ip));
    lemma_u64_field(bytes, at, fields.identifier);
    lemma_u64_field(bytes, at + to_ip.len(), fields.ip);
    lemma_u32_field(bytes, at + to_pid.len(), fields.pid);
    lemma_u32_field(bytes, at + to_tid.len(), fields.tid);
    lemma_u64_field(bytes, at + to_time.len(), fields.time);
    lemma_u64_field(bytes, at + to_addr.len(), fields.addr);
    lemma_u64_field(bytes, at + to_id.len(), fields.id);
    lemma_u64_field(bytes, at + to_stream_id.len(), fields.stream_id);
    lemma_u32_field(bytes, at + to_cpu.len(), fields.cpu);
    lemma_u32_field(bytes, at + to_res.len(), fields.res);
    lemma_u64_field(bytes, at + to_period.len(), fields.period);
    assert(to_ip.len() == ip_offset(mask));
    assert(to_pid.len() == tid_offset(mask));
    assert(to_time.len() == time_offset(mask));
    assert(to_addr.len() == addr_offset(mask));
    assert(to_id.len() == id_offset(mask));
    assert(to_stream_id.len() == stream_id_offset(mask));
    assert(to_cpu.len() == cpu_offset(mask));
    assert(to_period.len() == period_offset(mask));
}

/// The instruction pointers that are stored in bytes are the ones that are
/// read from them.
proof fn lemma_pointers_round_trip(bytes: Seq<u8>, at: int, pointers: Seq<u64>)
    requires
        holds_at(bytes, at, pointers_bytes(pointers)),
    ensures
        pointers_bytes(pointers).len() == 8 * pointers.len(),
        forall|i: int| 0 <= i < pointers.len() ==> u64_le(bytes, at + 8 * i) == #[trigger] pointers[i],
    decreases pointers.len(),
{
    if pointers.len() > 0 {
        let front = pointers.drop_last();
        lemma_holds_both(bytes, at, pointers_bytes(front), u64_bytes(pointers.last()));
        lemma_pointers_round_trip(bytes, at, front);
        lemma_u64_round_trip(bytes, at + 8 * front.len(), pointers.last());
        assert forall|i: int| 0 <= i < pointers.len() implies u64_le(bytes, at + 8 * i)
            == #[trigger] pointers[i] by {
            if i < front.len() {
                assert(front[i] == pointers[i]);
            }
        }
    }
}

/// The call chain that is stored in bytes is the one that is read from them.
proof fn lemma_callchain_round_trip(bytes: Seq<u8>, at: int, pointers: Seq<u64>)
    requires
        pointers.len() <= u64::MAX,
        holds_at(bytes, at, callchain_bytes(Some(pointers))),
    ensures
        callchain_bytes(Some(pointers)).len() == callchain_len(pointers.len() as int),
        callchain_at(bytes, at) == Some(pointers),
{
    lemma_holds_both(bytes, at, u64_bytes(pointers.len() as u64), pointers_bytes(pointers));
    lemma_u64_round_trip(bytes, at, pointers.len() as u64);
    lemma_pointers_round_trip(bytes, at + 8, pointers);
    assert(callchain_at(bytes, at)->0 =~= pointers);
}

/// Where the raw payload of `record` starts in a record of `mask` whose
/// payload starts at `at`.
pub open spec fn raw_start(at: int, mask: SampleType, record: SampleRecordView) -> int {
    at + fixed_len(mask) + if mask.has(SampleType::CALLCHAIN) {
        callchain_len(record.callchain->0.len() as int)
    } else {
        0
    }
}

/// The raw payload that is stored in bytes is found when they are read.
proof fn lemma_raw_round_trip(bytes: Seq<u8>, at: int, size: u32, padded_payload: Seq<u8>)
    requires
        padded_payload.len() == padded_len(size as int),
        holds_at(bytes, at, raw_bytes(Some(size), padded_payload)),
    ensures
        raw_bytes(Some(size), padded_payload).len() == raw_len(size as int),
        raw_size_at(bytes, at) == Some(size),
{
    lemma_holds_both(bytes, at, u32_bytes(size), padded_payload);
    lemma_u32_round_trip(bytes, at, size);
}

/// A record whose parts are read as they are is read as it is.
proof fn lemma_record_of_parts(bytes: Seq<u8>, at: int, mask: SampleType, record: SampleRecordView)
    requires
        !mask.has(SampleType::READ),
        fits(bytes, at, fixed_len(mask)),
        fixed_fields_at(bytes, at, mask) == record.fields,
        record.callchain is Some <==> mask.has(SampleType::CALLCHAIN),
        record.callchain is Some ==> callchain_at(bytes, at + fixed_len(mask)) == record.callchain,
        record.raw_size is Some <==> mask.has(SampleType::RAW),
        record.raw_size is Some ==> raw_size_at(bytes, raw_start(at, mask, record))
            == record.raw_size,
    ensures
        sample_record_at(bytes, at, mask) == Ok::<(SampleRecordView, int), PerfError>(
            (
                record,
                raw_start(at, mask, record) - at + if mask.has(SampleType::RAW) {
                    raw_len(record.raw_size->0 as int)
                } else {
                    0
                },
            ),
        ),
{
}

/// Decoding the bytes of a sample record gives the record back, and takes as
/// many bytes as the record was stored in: whatever fields its sample type
/// names, whatever values they have, and whatever stands before and behind
/// the record.
pub proof fn lemma_sample_round_trip(
    bytes: Seq<u8>,
    at: int,
    mask: SampleType,
    record: SampleRecordView,
    padded_payload: Seq<u8>,
)
    requires
        carries(record, mask, padded_payload),
        holds_at(bytes, at, sample_record_bytes(record, padded_payload)),
    ensures
        sample_record_at(bytes, at, mask) == Ok::<(SampleRecordView, int), PerfError>(
            (record, sample_record_bytes(record, padded_payload).len() as int),
        ),
{
    let fixed = fixed_fields_bytes(record.fields);
    let chain = callchain_bytes(record.callchain);
    let raw = raw_bytes(record.raw_size, padded_payload);
    lemma_holds_both(bytes, at, fixed + chain, raw);
    lemma_holds_both(bytes, at, fixed, chain);
    lemma_fixed_fields_round_trip(bytes, at, mask, record, padded_payload);
    if record.callchain is Some {
        lemma_callchain_round_trip(bytes, at + fixed_len(mask), record.callchain->0);
    }
    assert(at + fixed.len() + chain.len() == raw_start(at, mask, record));
    if record.raw_size is Some {
        lemma_raw_round_trip(bytes, raw_start(at, mask, record), record.raw_size->0, padded_payload);
    }
    lemma_record_of_parts(bytes, at, mask, record);
}

} // verus!
