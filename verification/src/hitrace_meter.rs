//! The trace event emitter and the sink it writes to.
//!
//! Five operations emit events: a synchronous span start and end, an
//! asynchronous span start and end keyed by a task id, and a signed counter
//! sample.  Each event is framed as one text record and appended to a
//! [`TraceSink`], the in-memory model of the trace log:
//!
//! * sync begin: `B|<pid>|H:<name>|`
//! * sync end: `E|<pid>|`
//! * async begin, async end, counter: `<type>|<pid>|H:<name>|<value>|`,
//!   with `<type>` one of `S`, `F`, `C`.
//!
//! Events are fire-and-forget: nothing is buffered and nothing is reported
//! back to the caller.  A record is only written while tracing is switched
//! on and the event's category label overlaps the sink's tag mask, mirroring
//! the enable switch and category bitmask of a real trace log.

use vstd::prelude::*;
use vstd::string::*;
use vstd::utf8::encode_utf8;

use crate::decimal::{dec_digits, dec_signed, push_bytes, push_dec_i64, push_dec_u64};
use crate::search::{contains_bytes, contains_seq, lemma_contains_self};

verus! {

/// The category label of general tracing, used by the examples and tests.
pub const HITRACE_TAG_OHOS: u64 = 0x4000_0000;

/// The task id the examples and tests key asynchronous events by.
pub const HITRACE_TASK_ID: i32 = 666;

/// The in-memory trace sink: the records written so far, the process id
/// they are stamped with, and the two switches that gate writing.
pub struct TraceSink {
    /// The process id stamped into every record.
    pub pid: u32,
    /// Whether tracing is switched on at all.
    pub enabled: bool,
    /// The category bitmask: an event is recorded only when its label
    /// overlaps this mask.
    pub tag_mask: u64,
    /// The records written so far, oldest first.
    pub records: Vec<Vec<u8>>,
}

impl TraceSink {
    /// The records as a sequence of byte sequences.
    pub open spec fn recs(self) -> Seq<Seq<u8>> {
        self.records.deep_view()
    }

    /// A fresh sink for process `pid`: no records, tracing switched off,
    /// empty tag mask.
    pub fn new(pid: u32) -> (r: Self)
        ensures
            r.pid == pid,
            !r.enabled,
            r.tag_mask == 0,
            r.recs() == Seq::<Seq<u8>>::empty(),
    {
        let r = TraceSink { pid, enabled: false, tag_mask: 0, records: Vec::new() };
        proof {
            assert(r.recs() =~= Seq::<Seq<u8>>::empty());
        }
        r
    }
}

/// Whether the sink records an event carrying the category label `label`:
/// tracing is on and the label overlaps the tag mask.
pub open spec fn spec_emits(s: TraceSink, label: u64) -> bool {
    s.enabled && (label & s.tag_mask) != 0
}

/// The record of a synchronous span start: `B|<pid>|H:<name>|`.
pub open spec fn spec_sync_begin_record(pid: u32, name: Seq<u8>) -> Seq<u8> {
    seq![66u8, 124u8] + dec_digits(pid as nat) + seq![124u8, 72u8, 58u8] + name + seq![124u8]
}

/// The record of a synchronous span end: `E|<pid>|`.
pub open spec fn spec_sync_end_record(pid: u32) -> Seq<u8> {
    seq![69u8, 124u8] + dec_digits(pid as nat) + seq![124u8]
}

/// The record of an async start (`S`), async end (`F`) or counter sample
/// (`C`): `<type>|<pid>|H:<name>|<value>|`.
pub open spec fn spec_tagged_record(t: u8, pid: u32, name: Seq<u8>, value: int) -> Seq<u8> {
    seq![t, 124u8] + dec_digits(pid as nat) + seq![124u8, 72u8, 58u8] + name + seq![124u8]
        + dec_signed(value) + seq![124u8]
}

/// Builds a `<type>|<pid>|H:<name>|<value>|` record.
fn build_tagged(t: u8, pid: u32, name: &str, value: i64) -> (r: Vec<u8>)
    ensures
        r@ == spec_tagged_record(t, pid, name.spec_bytes(), value as int),
{
    let mut out: Vec<u8> = Vec::new();
    out.push(t);
    out.push(124u8);
    proof {
        assert(out@ =~= seq![t, 124u8]);
    }
    push_dec_u64(&mut out, pid as u64);
    out.push(124u8);
    out.push(72u8);
    out.push(58u8);
    proof {
        assert(out@ =~= (seq![t, 124u8] + dec_digits(pid as nat)) + seq![124u8, 72u8, 58u8]);
    }
    push_bytes(&mut out, name.as_bytes());
    out.push(124u8);
    proof {
        assert(out@ =~= (seq![t, 124u8] + dec_digits(pid as nat) + seq![124u8, 72u8, 58u8]
            + name.spec_bytes()) + seq![124u8]);
    }
    push_dec_i64(&mut out, value);
    out.push(124u8);
    proof {
        assert(out@ =~= spec_tagged_record(t, pid, name.spec_bytes(), value as int));
    }
    out
}

/// Builds a `B|<pid>|H:<name>|` record.
fn build_sync_begin(pid: u32, name: &str) -> (r: Vec<u8>)
    ensures
        r@ == spec_sync_begin_record(pid, name.spec_bytes()),
{
    let mut out: Vec<u8> = Vec::new();
    out.push(66u8);
    out.push(124u8);
    proof {
        assert(out@ =~= seq![66u8, 124u8]);
    }
    push_dec_u64(&mut out, pid as u64);
    out.push(124u8);
    out.push(72u8);
    out.push(58u8);
    proof {
        assert(out@ =~= (seq![66u8, 124u8] + dec_digits(pid as nat)) + seq![124u8, 72u8, 58u8]);
    }
    push_bytes(&mut out, name.as_bytes());
    out.push(124u8);
    proof {
        assert(out@ =~= spec_sync_begin_record(pid, name.spec_bytes()));
    }
    out
}

/// Builds an `E|<pid>|` record.
fn build_sync_end(pid: u32) -> (r: Vec<u8>)
    ensures
        r@ == spec_sync_end_record(pid),
{
    let mut out: Vec<u8> = Vec::new();
    out.push(69u8);
    out.push(124u8);
    proof {
        assert(out@ =~= seq![69u8, 124u8]);
    }
    push_dec_u64(&mut out, pid as u64);
    out.push(124u8);
    proof {
        assert(out@ =~= spec_sync_end_record(pid));
    }
    out
}

/// Appends `rec` to the sink's records.
fn append_record(sink: &mut TraceSink, rec: Vec<u8>)
    ensures
        final(sink).pid == old(sink).pid,
        final(sink).enabled == old(sink).enabled,
        final(sink).tag_mask == old(sink).tag_mask,
        final(sink).recs() == old(sink).recs().push(rec@),
{
    let ghost grec: Seq<u8> = rec@;
    sink.records.push(rec);
    proof {
        assert(sink.recs() =~~= old(sink).recs().push(grec));
    }
}

/// Tracks the beginning of a synchronous context: appends the record
/// `B|<pid>|H:<value>|` when the sink records events labelled `label`.
/// A `value` holding a NUL character cannot cross the native transport, so
/// the contract rejects it before anything is emitted.
pub fn start_trace(sink: &mut TraceSink, label: u64, value: &str)
    requires
        !value@.contains('\0'),
    ensures
        final(sink).pid == old(sink).pid,
        final(sink).enabled == old(sink).enabled,
        final(sink).tag_mask == old(sink).tag_mask,
        spec_emits(*old(sink), label) ==> final(sink).recs() == old(sink).recs().push(
            spec_sync_begin_record(old(sink).pid, value.spec_bytes()),
        ),
        !spec_emits(*old(sink), label) ==> final(sink).recs() == old(sink).recs(),
{
    if sink.enabled && (label & sink.tag_mask) != 0 {
        let rec = build_sync_begin(sink.pid, value);
        append_record(sink, rec);
    }
}

/// Tracks the end of the most recently begun synchronous context: appends
/// the record `E|<pid>|` when the sink records events labelled `label`.
/// Pairing with an earlier begin is the caller's business; an unpaired end
/// is forwarded as-is.
pub fn finish_trace(sink: &mut TraceSink, label: u64)
    ensures
        final(sink).pid == old(sink).pid,
        final(sink).enabled == old(sink).enabled,
        final(sink).tag_mask == old(sink).tag_mask,
        spec_emits(*old(sink), label) ==> final(sink).recs() == old(sink).recs().push(
            spec_sync_end_record(old(sink).pid),
        ),
        !spec_emits(*old(sink), label) ==> final(sink).recs() == old(sink).recs(),
{
    if sink.enabled && (label & sink.tag_mask) != 0 {
        let rec = build_sync_end(sink.pid);
        append_record(sink, rec);
    }
}

/// Tracks the beginning of an asynchronous event, keyed by `task_id` so
/// that several open events with the same name can be told apart: appends
/// the record `S|<pid>|H:<value>|<task_id>|` when the sink records events
/// labelled `label`.  A `value` holding a NUL character cannot cross the
/// native transport, so the contract rejects it before anything is emitted.
pub fn start_trace_async(sink: &mut TraceSink, label: u64, value: &str, task_id: i32)
    requires
        !value@.contains('\0'),
    ensures
        final(sink).pid == old(sink).pid,
        final(sink).enabled == old(sink).enabled,
        final(sink).tag_mask == old(sink).tag_mask,
        spec_emits(*old(sink), label) ==> final(sink).recs() == old(sink).recs().push(
            spec_tagged_record(83u8, old(sink).pid, value.spec_bytes(), task_id as int),
        ),
        !spec_emits(*old(sink), label) ==> final(sink).recs() == old(sink).recs(),
{
    if sink.enabled && (label & sink.tag_mask) != 0 {
        let rec = build_tagged(83u8, sink.pid, value, task_id as i64);
        append_record(sink, rec);
    }
}

/// Tracks the end of an asynchronous event; `value` and `task_id` must
/// match the earlier begin for correct correlation, which is entirely the
/// reader's business.  Appends the record `F|<pid>|H:<value>|<task_id>|`
/// when the sink records events labelled `label`.  A `value` holding a NUL
/// character cannot cross the native transport, so the contract rejects it
/// before anything is emitted.
pub fn finish_trace_async(sink: &mut TraceSink, label: u64, value: &str, task_id: i32)
    requires
        !value@.contains('\0'),
    ensures
        final(sink).pid == old(sink).pid,
        final(sink).enabled == old(sink).enabled,
        final(sink).tag_mask == old(sink).tag_mask,
        spec_emits(*old(sink), label) ==> final(sink).recs() == old(sink).recs().push(
            spec_tagged_record(70u8, old(sink).pid, value.spec_bytes(), task_id as int),
        ),
        !spec_emits(*old(sink), label) ==> final(sink).recs() == old(sink).recs(),
{
    if sink.enabled && (label & sink.tag_mask) != 0 {
        let rec = build_tagged(70u8, sink.pid, value, task_id as i64);
        append_record(sink, rec);
    }
}

/// Tracks a signed 64-bit counter sample under `name`: appends the record
/// `C|<pid>|H:<name>|<count>|` when the sink records events labelled
/// `label`.  A `name` holding a NUL character cannot cross the native
/// transport, so the contract rejects it before anything is emitted.
pub fn count_trace(sink: &mut TraceSink, label: u64, name: &str, count: i64)
    requires
        !name@.contains('\0'),
    ensures
        final(sink).pid == old(sink).pid,
        final(sink).enabled == old(sink).enabled,
        final(sink).tag_mask == old(sink).tag_mask,
        spec_emits(*old(sink), label) ==> final(sink).recs() == old(sink).recs().push(
            spec_tagged_record(67u8, old(sink).pid, name.spec_bytes(), count as int),
        ),
        !spec_emits(*old(sink), label) ==> final(sink).recs() == old(sink).recs(),
{
    if sink.enabled && (label & sink.tag_mask) != 0 {
        let rec = build_tagged(67u8, sink.pid, name, count);
        append_record(sink, rec);
    }
}

/// Switches tracing on or off, leaving everything else untouched.
pub fn switch_trace_on(sink: &mut TraceSink, trace_on: bool) -> (r: bool)
    ensures
        r,
        final(sink).pid == old(sink).pid,
        final(sink).enabled == trace_on,
        final(sink).tag_mask == old(sink).tag_mask,
        final(sink).recs() == old(sink).recs(),
{
    sink.enabled = trace_on;
    true
}

/// Replaces the category tag mask, leaving everything else untouched.
pub fn set_trace_tag(sink: &mut TraceSink, tag: u64) -> (r: bool)
    ensures
        r,
        final(sink).pid == old(sink).pid,
        final(sink).enabled == old(sink).enabled,
        final(sink).tag_mask == tag,
        final(sink).recs() == old(sink).recs(),
{
    sink.tag_mask = tag;
    true
}

/// Discards every record written so far, leaving the switches untouched.
pub fn clear_trace_buf(sink: &mut TraceSink) -> (r: bool)
    ensures
        r,
        final(sink).pid == old(sink).pid,
        final(sink).enabled == old(sink).enabled,
        final(sink).tag_mask == old(sink).tag_mask,
        final(sink).recs() == Seq::<Seq<u8>>::empty(),
{
    sink.records.clear();
    proof {
        assert(sink.recs() =~= Seq::<Seq<u8>>::empty());
    }
    true
}

/// Whether some record of the sink holds `target_str` as a contiguous run
/// of bytes.
pub fn find_trace_content(sink: &TraceSink, target_str: &[u8]) -> (r: bool)
    ensures
        r == (exists|k: int| 0 <= k < sink.recs().len() && contains_seq(sink.recs()[k], target_str@)),
{
    let n: usize = sink.records.len();
    let mut k: usize = 0;
    while k < n
        invariant
            n == sink.records.len(),
            k <= n,
            forall|j: int| 0 <= j < k ==> !contains_seq(sink.recs()[j], target_str@),
        decreases n - k,
    {
        if contains_bytes(&sink.records[k], target_str) {
            proof {
                assert(sink.recs()[k as int] == sink.records@[k as int]@);
                assert(0 <= k < sink.recs().len() && contains_seq(sink.recs()[k as int], target_str@));
            }
            return true;
        }
        proof {
            assert(sink.recs()[k as int] == sink.records@[k as int]@);
        }
        k = k + 1;
    }
    false
}

/// What one expected trace record is made of: the record type character,
/// the event name, and the event value (meaningful for the `S`, `F` and `C`
/// record types).
pub struct TraceInfo {
    /// The record type: `B`, `E`, `S`, `F` or `C`.
    pub trace_type: char,
    /// The event name.
    pub name: String,
    /// The event value, written into `S`, `F` and `C` records.
    pub value: i32,
}

/// The record that an event described by `info` leaves in the sink of
/// process `pid`; `None` when `info.trace_type` is not a record type.
pub open spec fn spec_trace_record(info: TraceInfo, pid: u32) -> Option<Seq<u8>> {
    if info.trace_type == 'B' {
        Some(spec_sync_begin_record(pid, encode_utf8(info.name@)))
    } else if info.trace_type == 'E' {
        Some(spec_sync_end_record(pid))
    } else if info.trace_type == 'S' {
        Some(spec_tagged_record(83u8, pid, encode_utf8(info.name@), info.value as int))
    } else if info.trace_type == 'F' {
        Some(spec_tagged_record(70u8, pid, encode_utf8(info.name@), info.value as int))
    } else if info.trace_type == 'C' {
        Some(spec_tagged_record(67u8, pid, encode_utf8(info.name@), info.value as int))
    } else {
        None
    }
}

/// Builds the record that an event described by `trace_info` leaves in the
/// sink of process `pid`, or `None` when `trace_info.trace_type` is not a
/// record type.  A name holding a NUL character can never reach the sink,
/// so the contract rejects it.
pub fn create_trace_record(trace_info: &TraceInfo, pid: u32) -> (r: Option<Vec<u8>>)
    requires
        !trace_info.name@.contains('\0'),
    ensures
        (r matches Some(v) && spec_trace_record(*trace_info, pid) matches Some(s) && v@ == s) || (r
            is None && spec_trace_record(*trace_info, pid) is None),
{
    match trace_info.trace_type {
        'B' => Some(build_sync_begin(pid, trace_info.name.as_str())),
        'E' => Some(build_sync_end(pid)),
        'S' => Some(build_tagged(83u8, pid, trace_info.name.as_str(), trace_info.value as i64)),
        'F' => Some(build_tagged(70u8, pid, trace_info.name.as_str(), trace_info.value as i64)),
        'C' => Some(build_tagged(67u8, pid, trace_info.name.as_str(), trace_info.value as i64)),
        _ => None,
    }
}

/// The synchronous scenario: a paired `start_trace` and `finish_trace`
/// leave the sink holding the `B|<pid>|H:<name>|` record and then the
/// `E|<pid>|` record, and `find_trace_content` finds both.  Returns true
/// whenever the sink is switched on and its tag mask covers the label.
pub fn test_body01(sink: &mut TraceSink) -> (r: bool)
    requires
        old(sink).enabled,
        (HITRACE_TAG_OHOS & old(sink).tag_mask) != 0,
    ensures
        r,
        final(sink).pid == old(sink).pid,
        final(sink).enabled == old(sink).enabled,
        final(sink).tag_mask == old(sink).tag_mask,
        final(sink).recs() == old(sink).recs().push(
            spec_sync_begin_record(old(sink).pid, "hitrace_meter_rust_unit_test_001".spec_bytes()),
        ).push(spec_sync_end_record(old(sink).pid)),
{
    proof {
        reveal_strlit("hitrace_meter_rust_unit_test_001");
    }
    start_trace(sink, HITRACE_TAG_OHOS, "hitrace_meter_rust_unit_test_001");
    finish_trace(sink, HITRACE_TAG_OHOS);
    let pid: u32 = sink.pid;
    let start_record = create_trace_record(
        &TraceInfo {
            trace_type: 'B',
            name: "hitrace_meter_rust_unit_test_001".to_owned(),
            value: HITRACE_TASK_ID,
        },
        pid,
    );
    let rec_begin = match start_record {
        Some(rec) => rec,
        None => {
            return false;
        },
    };
    proof {
        let n = sink.recs().len();
        lemma_contains_self(rec_begin@);
        assert(0 <= n - 2 < n && contains_seq(sink.recs()[n - 2], rec_begin@));
    }
    let found_start = find_trace_content(sink, rec_begin.as_slice());
    let finish_record = create_trace_record(
        &TraceInfo {
            trace_type: 'E',
            name: "hitrace_meter_rust_unit_test_001".to_owned(),
            value: HITRACE_TASK_ID,
        },
        pid,
    );
    let rec_end = match finish_record {
        Some(rec) => rec,
        None => {
            return false;
        },
    };
    proof {
        let n = sink.recs().len();
        lemma_contains_self(rec_end@);
        assert(0 <= n - 1 < n && contains_seq(sink.recs()[n - 1], rec_end@));
    }
    let found_finish = find_trace_content(sink, rec_end.as_slice());
    found_start && found_finish
}

/// The asynchronous scenario: a paired `start_trace_async` and
/// `finish_trace_async` keyed by the same task id leave the sink holding
/// the `S|<pid>|H:<name>|<task>|` record and then the matching `F` record,
/// and `find_trace_content` finds both.  Returns true whenever the sink is
/// switched on and its tag mask covers the label.
pub fn test_body02(sink: &mut TraceSink) -> (r: bool)
    requires
        old(sink).enabled,
        (HITRACE_TAG_OHOS & old(sink).tag_mask) != 0,
    ensures
        r,
        final(sink).pid == old(sink).pid,
        final(sink).enabled == old(sink).enabled,
        final(sink).tag_mask == old(sink).tag_mask,
        final(sink).recs() == old(sink).recs().push(
            spec_tagged_record(
                83u8,
                old(sink).pid,
                "hitrace_meter_rust_unit_test_002".spec_bytes(),
                HITRACE_TASK_ID as int,
            ),
        ).push(
            spec_tagged_record(
                70u8,
                old(sink).pid,
                "hitrace_meter_rust_unit_test_002".spec_bytes(),
                HITRACE_TASK_ID as int,
            ),
        ),
{
    proof {
        reveal_strlit("hitrace_meter_rust_unit_test_002");
    }
    start_trace_async(sink, HITRACE_TAG_OHOS, "hitrace_meter_rust_unit_test_002", HITRACE_TASK_ID);
    finish_trace_async(sink, HITRACE_TAG_OHOS, "hitrace_meter_rust_unit_test_002", HITRACE_TASK_ID);
    let pid: u32 = sink.pid;
    let start_record = create_trace_record(
        &TraceInfo {
            trace_type: 'S',
            name: "hitrace_meter_rust_unit_test_002".to_owned(),
            value: HITRACE_TASK_ID,
        },
        pid,
    );
    if start_record.is_none() {
        return false;
    }
    let rec_start = match start_record {
        Some(rec) => rec,
        None => {
            return false;
        },
    };
    proof {
        let n = sink.recs().len();
        lemma_contains_self(rec_start@);
        assert(0 <= n - 2 < n && contains_seq(sink.recs()[n - 2], rec_start@));
    }
    let found_start = find_trace_content(sink, rec_start.as_slice());
    let finish_record = create_trace_record(
        &TraceInfo {
            trace_type: 'F',
            name: "hitrace_meter_rust_unit_test_002".to_owned(),
            value: HITRACE_TASK_ID,
        },
        pid,
    );
    let rec_finish = match finish_record {
        Some(rec) => rec,
        None => {
            return false;
        },
    };
    proof {
        let n = sink.recs().len();
        lemma_contains_self(rec_finish@);
        assert(0 <= n - 1 < n && contains_seq(sink.recs()[n - 1], rec_finish@));
    }
    let found_finish = find_trace_content(sink, rec_finish.as_slice());
    found_start && found_finish
}

/// The counter scenario: one `count_trace` sample leaves the sink holding
/// the `C|<pid>|H:<name>|<count>|` record, and `find_trace_content` finds
/// it.  Returns true whenever the sink is switched on and its tag mask
/// covers the label.
pub fn test_body03(sink: &mut TraceSink) -> (r: bool)
    requires
        old(sink).enabled,
        (HITRACE_TAG_OHOS & old(sink).tag_mask) != 0,
    ensures
        r,
        final(sink).pid == old(sink).pid,
        final(sink).enabled == old(sink).enabled,
        final(sink).tag_mask == old(sink).tag_mask,
        final(sink).recs() == old(sink).recs().push(
            spec_tagged_record(
                67u8,
                old(sink).pid,
                "hitrace_meter_rust_unit_test_003".spec_bytes(),
                2,
            ),
        ),
{
    proof {
        reveal_strlit("hitrace_meter_rust_unit_test_003");
    }
    count_trace(sink, HITRACE_TAG_OHOS, "hitrace_meter_rust_unit_test_003", 2);
    let pid: u32 = sink.pid;
    let count_record = create_trace_record(
        &TraceInfo {
            trace_type: 'C',
            name: "hitrace_meter_rust_unit_test_003".to_owned(),
            value: 2,
        },
        pid,
    );
    let rec_count = match count_record {
        Some(rec) => rec,
        None => {
            return false;
        },
    };
    proof {
        let n = sink.recs().len();
        lemma_contains_self(rec_count@);
        assert(0 <= n - 1 < n && contains_seq(sink.recs()[n - 1], rec_count@));
    }
    find_trace_content(sink, rec_count.as_slice())
}

} // verus!
