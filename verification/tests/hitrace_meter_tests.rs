use hitrace::hitrace_meter::{
    clear_trace_buf, set_trace_tag, switch_trace_on, test_body01, test_body02, test_body03,
    TraceSink, HITRACE_TAG_OHOS,
};

fn before_all(sink: &mut TraceSink) -> bool {
    println!("before_all {}", HITRACE_TAG_OHOS);
    if !set_trace_tag(sink, HITRACE_TAG_OHOS) {
        println!("failed set trace tag");
        return false;
    }
    if !switch_trace_on(sink, true) {
        println!("failed enable trace");
        return false;
    }
    if !clear_trace_buf(sink) {
        println!("failed clear trace buffer");
    }
    true
}

#[test]
fn hitrace_meter_rust_unit_test01() {
    let mut sink = TraceSink::new(1234);
    assert!(before_all(&mut sink));
    assert!(test_body01(&mut sink));
}

#[test]
fn hitrace_meter_rust_unit_test02() {
    let mut sink = TraceSink::new(1234);
    assert!(before_all(&mut sink));
    assert!(test_body02(&mut sink));
}

#[test]
fn hitrace_meter_rust_unit_test03() {
    let mut sink = TraceSink::new(1234);
    assert!(before_all(&mut sink));
    assert!(test_body03(&mut sink));
}
