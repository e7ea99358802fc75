use timeline::decimal::u64_to_dec;
use timeline::trace::{compile_trace_line, gc_trace_line};
use timeline::{gc_reason, include_type_label, timeline_minit, ZEND_INCLUDE, ZEND_REQUIRE};

#[test]
fn include_labels_for_the_distinguished_codes() {
    assert_eq!(include_type_label(ZEND_INCLUDE as i32), "include");
    assert_eq!(include_type_label(ZEND_REQUIRE as i32), "require");
    assert_eq!(include_type_label(0), "");
    assert_eq!(include_type_label(1), "");
    assert_eq!(include_type_label(4), "");
    assert_eq!(include_type_label(-1), "");
}

#[test]
fn gc_reason_matches_only_the_trigger_name() {
    assert_eq!(gc_reason(Some(&String::from("gc_collect_cycles"))), "induced");
    assert_eq!(gc_reason(Some(&String::from("gc_collect_cycles "))), "engine");
    assert_eq!(gc_reason(Some(&String::from("GC_COLLECT_CYCLES"))), "engine");
    assert_eq!(gc_reason(Some(&String::from(""))), "engine");
    assert_eq!(gc_reason(None), "engine");
}

#[test]
fn decimal_rendering_is_exact() {
    assert_eq!(u64_to_dec(0), "0");
    assert_eq!(u64_to_dec(7), "7");
    assert_eq!(u64_to_dec(10), "10");
    assert_eq!(u64_to_dec(1_500_000), "1500000");
    assert_eq!(u64_to_dec(u64::MAX), "18446744073709551615");
}

#[test]
fn trace_lines_are_exact() {
    assert_eq!(
        compile_trace_line(&String::from("/app/index.php"), "include", 1_500_000),
        "Compile file \"/app/index.php\" with include type \"include\" took 1500000 nanoseconds"
    );
    assert_eq!(
        gc_trace_line("engine", 250),
        "Garbage collection with reason \"engine\" took 250 nanoseconds"
    );
}

#[test]
fn minit_captures_the_previous_slot_values() {
    fn compile_handler() -> u32 {
        1
    }
    fn gc_handler() -> i32 {
        2
    }
    let hooks = timeline_minit(
        Some(compile_handler as fn() -> u32),
        Some(gc_handler as fn() -> i32),
    );
    assert!(hooks.prev_zend_compile_file.is_some());
    assert!(hooks.prev_gc_collect_cycles.is_some());
    assert_eq!((hooks.prev_zend_compile_file.unwrap())(), 1);
    assert_eq!((hooks.prev_gc_collect_cycles.unwrap())(), 2);

    let empty = timeline_minit(None::<fn() -> u32>, None::<fn() -> i32>);
    assert!(empty.prev_zend_compile_file.is_none());
    assert!(empty.prev_gc_collect_cycles.is_none());
}
