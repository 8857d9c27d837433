use hitrace::hitracechain::{HiTraceChain, HiTraceFlag};

#[test]
fn hitracechain_rust_unit_test_001() {
    let mut chain = HiTraceChain::new();
    let trace_id = chain.begin("hitracechain_rust_unit_test_001", HiTraceFlag::Default.bits());
    assert!(chain.get_id().get_chain_id() == trace_id.get_chain_id());
    assert!(chain.get_id().is_valid());
    chain.end(&trace_id);
    assert!(!chain.get_id().is_valid());
}

#[test]
fn hitracechain_rust_unit_test_002() {
    let mut chain = HiTraceChain::new();
    let mut trace_id = chain.begin(
        "hitracechain_rust_unit_test_002",
        HiTraceFlag::IncludeAsync.bits(),
    );
    assert!(trace_id.is_flag_enabled(HiTraceFlag::IncludeAsync));
    assert!(!trace_id.is_flag_enabled(HiTraceFlag::DoNotCreateSpan));
    trace_id.enable_flag(HiTraceFlag::DoNotCreateSpan);
    assert!(trace_id.is_flag_enabled(HiTraceFlag::DoNotCreateSpan));
    chain.end(&trace_id);
}

#[test]
fn hitracechain_rust_unit_test_003() {
    let mut chain = HiTraceChain::new();
    let mut trace_id = chain.begin("hitracechain_rust_unit_test_003", HiTraceFlag::Default.bits());
    assert!(trace_id.is_valid());
    trace_id.set_flags(HiTraceFlag::IncludeAsync.bitor(HiTraceFlag::TpInfo));
    assert!(trace_id.get_flags() == HiTraceFlag::IncludeAsync.bitor(HiTraceFlag::TpInfo));
    trace_id.set_chain_id(1024u64);
    assert!(trace_id.get_chain_id() == 1024u64);
    trace_id.set_span_id(1025u64);
    assert!(trace_id.get_span_id() == 1025u64);
    trace_id.set_parent_span_id(1026u64);
    assert!(trace_id.get_parent_span_id() == 1026u64);
    chain.end(&trace_id);
}

#[test]
fn hitracechain_rust_unit_test_004() {
    let mut chain = HiTraceChain::new();
    let mut trace_id = chain.begin("hitracechain_rust_unit_test_004", HiTraceFlag::Default.bits());
    assert!(trace_id.is_valid());
    chain.clear_id();
    trace_id = chain.get_id();
    assert!(!trace_id.is_valid());
}

#[test]
fn hitracechain_rust_unit_test_005() {
    let mut chain = HiTraceChain::new();
    let trace_id = chain.begin("hitracechain_rust_unit_test_005", HiTraceFlag::Default.bits());
    assert!(trace_id.is_valid());
    let trace_span_id = chain.create_span();
    assert!(trace_span_id.is_valid());
    assert!(trace_span_id.get_parent_span_id() == trace_id.get_span_id());
    chain.end(&trace_id);
}

#[test]
fn hitracechain_rust_unit_test_006() {
    let mut chain = HiTraceChain::new();
    let trace_id = chain.begin("hitracechain_rust_unit_test_006", HiTraceFlag::Default.bits());
    let mut persist_dest_arr = vec![0u8; 16];
    hitrace::hitracechain::id_to_bytes(&trace_id, &mut persist_dest_arr);
    let trace_id_from_arr = hitrace::hitracechain::bytes_to_id(&persist_dest_arr);
    assert!(trace_id_from_arr.get_chain_id() == trace_id.get_chain_id());
    chain.end(&trace_id);
}

#[test]
fn hitracechain_rust_unit_test_007() {
    let mut chain = HiTraceChain::new();
    let trace_id = chain.begin(
        "hitracechain_rust_unit_test_007",
        HiTraceFlag::IncludeAsync.bitor(HiTraceFlag::TpInfo),
    );
    println!(
        "chain id of current trace is {:#x}, span id is {:#x}, parent span id is {:#x}",
        trace_id.get_chain_id(),
        trace_id.get_span_id(),
        trace_id.get_parent_span_id()
    );
    chain.end(&trace_id);
}
