use hitrace::hitrace_meter::{
    clear_trace_buf, count_trace, create_trace_record, find_trace_content, finish_trace,
    finish_trace_async, set_trace_tag, start_trace, start_trace_async, switch_trace_on, TraceInfo,
    TraceSink,
};
use hitrace::hitracechain::{
    bytes_to_id, id_to_bytes, HiTraceChain, HiTraceFlag, HiTraceIdStruct,
};

fn traced_sink(pid: u32, tag: u64) -> TraceSink {
    let mut sink = TraceSink::new(pid);
    switch_trace_on(&mut sink, true);
    set_trace_tag(&mut sink, tag);
    sink
}

#[test]
fn begin_yields_valid_identifier() {
    let mut chain = HiTraceChain::new();
    let id = chain.begin("job", HiTraceFlag::Default.bits());
    assert!(id.get_chain_id() != 0);
    assert!(id.is_valid());
    assert_eq!(id.get_span_id(), 0);
    assert_eq!(id.get_parent_span_id(), 0);
    assert_eq!(id.get_flags(), 0);
}

#[test]
fn clear_on_uninitialized_slot_is_noop() {
    let mut chain = HiTraceChain::new();
    assert!(!chain.get_id().is_valid());
    chain.clear_id();
    assert!(!chain.get_id().is_valid());
}

#[test]
fn create_span_links_to_installed_span() {
    let mut chain = HiTraceChain::new();
    let mut id = chain.begin("job", HiTraceFlag::Default.bits());
    id.set_span_id(7);
    chain.set_id(&id);
    let before = chain.get_id();
    let span = chain.create_span();
    assert_eq!(span.get_chain_id(), before.get_chain_id());
    assert_eq!(span.get_parent_span_id(), 7);
    assert!(span.is_valid());
    // the slot itself is untouched
    assert_eq!(chain.get_id().get_span_id(), 7);
}

#[test]
fn set_id_ignores_invalid_identifier() {
    let mut chain = HiTraceChain::new();
    let id = chain.begin("job", HiTraceFlag::Default.bits());
    let invalid = bytes_to_id(&[0u8; 4]);
    assert!(!invalid.is_valid());
    chain.set_id(&invalid);
    assert_eq!(chain.get_id(), id);
}

#[test]
fn end_ignores_invalid_identifier() {
    let mut chain = HiTraceChain::new();
    let id = chain.begin("job", HiTraceFlag::Default.bits());
    let invalid = bytes_to_id(&[0u8; 4]);
    chain.end(&invalid);
    assert_eq!(chain.get_id(), id);
    chain.end(&id);
    assert!(!chain.get_id().is_valid());
}

#[test]
fn flags_compose_by_bitwise_or() {
    let mut chain = HiTraceChain::new();
    let mut id = chain.begin("job", HiTraceFlag::Default.bits());
    id.set_flags(HiTraceFlag::IncludeAsync.bitor(HiTraceFlag::TpInfo));
    assert_eq!(id.get_flags(), 1 | 4);
    assert!(id.is_flag_enabled(HiTraceFlag::IncludeAsync));
    assert!(id.is_flag_enabled(HiTraceFlag::TpInfo));
    assert!(!id.is_flag_enabled(HiTraceFlag::DoNotCreateSpan));
    assert!(!id.is_flag_enabled(HiTraceFlag::D2dTpInfo));
    assert!(!id.is_flag_enabled(HiTraceFlag::Default));
}

#[test]
fn flag_bit_values() {
    assert_eq!(HiTraceFlag::Default.bits(), 0);
    assert_eq!(HiTraceFlag::IncludeAsync.bits(), 1);
    assert_eq!(HiTraceFlag::DoNotCreateSpan.bits(), 2);
    assert_eq!(HiTraceFlag::TpInfo.bits(), 4);
    assert_eq!(HiTraceFlag::NoBeInfo.bits(), 8);
    assert_eq!(HiTraceFlag::DoNotEnableLog.bits(), 16);
    assert_eq!(HiTraceFlag::FaultTrigger.bits(), 32);
    assert_eq!(HiTraceFlag::D2dTpInfo.bits(), 64);
    assert_eq!(HiTraceFlag::Default.bitor(HiTraceFlag::IncludeAsync), 1);
}

#[test]
fn setters_truncate_to_field_width() {
    let mut chain = HiTraceChain::new();
    let mut id = chain.begin("job", HiTraceFlag::Default.bits());
    id.set_chain_id(u64::MAX);
    assert_eq!(id.get_chain_id(), 0x0FFF_FFFF_FFFF_FFFF);
    id.set_span_id(u64::MAX);
    assert_eq!(id.get_span_id(), 0x03FF_FFFF);
    id.set_parent_span_id(u64::MAX);
    assert_eq!(id.get_parent_span_id(), 0x03FF_FFFF);
    id.set_flags(-1);
    assert_eq!(id.get_flags(), 0x0FFF);
}

#[test]
fn id_bytes_round_trip_restores_every_field() {
    let mut chain = HiTraceChain::new();
    let mut id = chain.begin("job", HiTraceFlag::IncludeAsync.bitor(HiTraceFlag::NoBeInfo));
    id.set_span_id(1025);
    id.set_parent_span_id(1026);
    let mut buf = vec![0u8; 16];
    assert_eq!(id_to_bytes(&id, &mut buf), 16);
    let back = bytes_to_id(&buf);
    assert_eq!(back, id);
    assert_eq!(back.get_chain_id(), id.get_chain_id());
    assert_eq!(back.get_span_id(), 1025);
    assert_eq!(back.get_parent_span_id(), 1026);
    assert_eq!(back.get_flags(), 1 | 8);
}

#[test]
fn id_bytes_round_trip_with_longer_buffer() {
    let mut chain = HiTraceChain::new();
    let id = chain.begin("job", HiTraceFlag::Default.bits());
    let mut buf = vec![0xAAu8; 24];
    assert_eq!(id_to_bytes(&id, &mut buf), 16);
    // bytes past the canonical width stay as they were
    assert!(buf[16..].iter().all(|&b| b == 0xAA));
    assert_eq!(bytes_to_id(&buf), id);
}

#[test]
fn short_buffer_is_refused_deterministically() {
    let mut chain = HiTraceChain::new();
    let id = chain.begin("job", HiTraceFlag::Default.bits());
    let mut buf = vec![0x55u8; 8];
    assert_eq!(id_to_bytes(&id, &mut buf), 0);
    assert!(buf.iter().all(|&b| b == 0x55));
    let back = bytes_to_id(&buf);
    assert!(!back.is_valid());
    assert_eq!(back, bytes_to_id(&[]));
}

#[test]
fn invalid_identifier_is_not_serialized() {
    let invalid = bytes_to_id(&[0u8; 4]);
    let mut buf = vec![0x55u8; 16];
    assert_eq!(id_to_bytes(&invalid, &mut buf), 0);
    assert!(buf.iter().all(|&b| b == 0x55));
}

#[test]
fn sync_records_have_documented_shape() {
    let mut sink = traced_sink(42, 1 << 30);
    let mut chain = HiTraceChain::new();
    let id = chain.begin("t", HiTraceFlag::Default.bits());
    start_trace(&mut sink, 1 << 30, "evt");
    finish_trace(&mut sink, 1 << 30);
    chain.end(&id);
    assert_eq!(sink.records.len(), 2);
    assert_eq!(sink.records[0], b"B|42|H:evt|".to_vec());
    assert_eq!(sink.records[1], b"E|42|".to_vec());
}

#[test]
fn async_records_have_documented_shape() {
    let mut sink = traced_sink(42, 1 << 30);
    start_trace_async(&mut sink, 1 << 30, "evt", 42);
    finish_trace_async(&mut sink, 1 << 30, "evt", 42);
    assert_eq!(sink.records.len(), 2);
    assert_eq!(sink.records[0], b"S|42|H:evt|42|".to_vec());
    assert_eq!(sink.records[1], b"F|42|H:evt|42|".to_vec());
}

#[test]
fn counter_record_has_documented_shape() {
    let mut sink = traced_sink(42, 1 << 30);
    count_trace(&mut sink, 1 << 30, "evt", 7);
    assert_eq!(sink.records.len(), 1);
    assert_eq!(sink.records[0], b"C|42|H:evt|7|".to_vec());
}

#[test]
fn counter_records_carry_signed_values() {
    let mut sink = traced_sink(9, u64::MAX);
    count_trace(&mut sink, 1, "load", -7);
    count_trace(&mut sink, 1, "load", 0);
    count_trace(&mut sink, 1, "load", i64::MIN);
    count_trace(&mut sink, 1, "load", i64::MAX);
    assert_eq!(sink.records[0], b"C|9|H:load|-7|".to_vec());
    assert_eq!(sink.records[1], b"C|9|H:load|0|".to_vec());
    assert_eq!(
        sink.records[2],
        b"C|9|H:load|-9223372036854775808|".to_vec()
    );
    assert_eq!(sink.records[3], b"C|9|H:load|9223372036854775807|".to_vec());
}

#[test]
fn events_are_dropped_while_tracing_is_off() {
    let mut sink = TraceSink::new(42);
    set_trace_tag(&mut sink, u64::MAX);
    start_trace(&mut sink, 1 << 30, "evt");
    count_trace(&mut sink, 1 << 30, "evt", 1);
    assert!(sink.records.is_empty());
}

#[test]
fn events_outside_the_tag_mask_are_dropped() {
    let mut sink = TraceSink::new(42);
    switch_trace_on(&mut sink, true);
    set_trace_tag(&mut sink, 1 << 30);
    start_trace(&mut sink, 1 << 3, "evt");
    assert!(sink.records.is_empty());
    start_trace(&mut sink, (1 << 30) | (1 << 3), "evt");
    assert_eq!(sink.records.len(), 1);
}

#[test]
fn clear_trace_buf_discards_records_only() {
    let mut sink = traced_sink(42, u64::MAX);
    count_trace(&mut sink, 1, "evt", 1);
    assert_eq!(sink.records.len(), 1);
    assert!(clear_trace_buf(&mut sink));
    assert!(sink.records.is_empty());
    count_trace(&mut sink, 1, "evt", 2);
    assert_eq!(sink.records.len(), 1);
}

#[test]
fn create_trace_record_matches_sink_records() {
    let b = create_trace_record(
        &TraceInfo {
            trace_type: 'B',
            name: String::from("evt"),
            value: 0,
        },
        42,
    );
    assert_eq!(b, Some(b"B|42|H:evt|".to_vec()));
    let e = create_trace_record(
        &TraceInfo {
            trace_type: 'E',
            name: String::from("evt"),
            value: 0,
        },
        42,
    );
    assert_eq!(e, Some(b"E|42|".to_vec()));
    let c = create_trace_record(
        &TraceInfo {
            trace_type: 'C',
            name: String::from("evt"),
            value: -3,
        },
        42,
    );
    assert_eq!(c, Some(b"C|42|H:evt|-3|".to_vec()));
    let unknown = create_trace_record(
        &TraceInfo {
            trace_type: 'X',
            name: String::from("evt"),
            value: 0,
        },
        42,
    );
    assert_eq!(unknown, None);
}

#[test]
fn find_trace_content_looks_for_substrings() {
    let mut sink = traced_sink(42, u64::MAX);
    count_trace(&mut sink, 1, "alpha", 7);
    assert!(find_trace_content(&sink, b"C|42|H:alpha|7|"));
    assert!(find_trace_content(&sink, b"H:alpha"));
    assert!(find_trace_content(&sink, b""));
    assert!(!find_trace_content(&sink, b"H:beta"));
    assert!(!find_trace_content(&sink, b"C|42|H:alpha|7||"));
}

#[test]
fn identifiers_travel_between_slots_as_bytes() {
    let mut sender = HiTraceChain::new();
    let id = sender.begin("rpc", HiTraceFlag::TpInfo.bits());
    let mut wire = vec![0u8; 16];
    assert_eq!(id_to_bytes(&id, &mut wire), 16);

    let mut receiver = HiTraceChain::new();
    let delivered = bytes_to_id(&wire);
    assert!(delivered.is_valid());
    receiver.set_id(&delivered);
    assert_eq!(receiver.get_id(), id);
    let span: HiTraceIdStruct = receiver.create_span();
    assert_eq!(span.get_chain_id(), id.get_chain_id());
    assert_eq!(span.get_parent_span_id(), id.get_span_id());
}
