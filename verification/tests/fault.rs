use aux7::broker::ResourceBroker;
use aux7::fault::{location, prefix, trap_script, FaultRecord, TrapStep};
use aux7::hardware::{TraceView, TRACE_UNIT_BASE};
use aux7::init;

fn record(message: &str, file: &str, line: u32, column: u32) -> FaultRecord {
    FaultRecord { message: message.to_string(), file: file.to_string(), line, column }
}

#[test]
fn divide_by_zero_is_reported_in_order() {
    let script = trap_script(&record("divide by zero", "main", 10, 5));
    assert_eq!(
        script.steps,
        vec![
            TrapStep::Emit("PANIC at '".to_string()),
            TrapStep::Emit("divide by zero".to_string()),
            TrapStep::Emit("', main:10:5\n".to_string()),
            TrapStep::Breakpoint,
            TrapStep::Spin,
        ]
    );
}

#[test]
fn trap_writes_to_the_trace_unit() {
    let script = trap_script(&record("divide by zero", "main", 10, 5));
    assert_eq!(script.unit.base(), TRACE_UNIT_BASE);
    assert_eq!(script.unit, TraceView::unchecked());
}

#[test]
fn trap_ends_in_the_endless_loop() {
    let script = trap_script(&record("overflow", "src/lib.rs", 1, 1));
    assert_eq!(script.steps.len(), 5);
    assert_eq!(script.steps[3], TrapStep::Breakpoint);
    assert_eq!(script.steps[4], TrapStep::Spin);
    assert_eq!(script.steps.iter().filter(|step| **step == TrapStep::Spin).count(), 1);
}

#[test]
fn empty_message_is_still_written() {
    let script = trap_script(&record("", "", 0, 0));
    assert_eq!(script.steps[1], TrapStep::Emit(String::new()));
    assert_eq!(script.steps[2], TrapStep::Emit("', :0:0\n".to_string()));
}

#[test]
fn message_is_written_as_it_is() {
    let script = trap_script(&record("index out of bounds: 'a' \u{e9}", "main", 3, 4));
    assert_eq!(script.steps[1], TrapStep::Emit("index out of bounds: 'a' \u{e9}".to_string()));
}

#[test]
fn prefix_is_the_fixed_text() {
    assert_eq!(prefix(), "PANIC at '");
}

#[test]
fn location_is_file_line_and_column() {
    assert_eq!(location("main", 10, 5), "', main:10:5\n");
    assert_eq!(location("src/07-registers/src/main.rs", 123, 45), "', src/07-registers/src/main.rs:123:45\n");
}

#[test]
fn location_takes_the_largest_numbers() {
    assert_eq!(location("f", u32::MAX, u32::MAX), "', f:4294967295:4294967295\n");
}

#[test]
fn location_agrees_with_the_formatter() {
    for line in [0u32, 1, 9, 10, 11, 99, 100, 101, 1000, 65535, 65536] {
        for column in [0u32, 5, 10, 80, 120] {
            assert_eq!(location("main", line, column), format!("', {}:{}:{}\n", "main", line, column));
        }
    }
}

#[test]
fn trap_reaches_the_unit_that_start_up_hands_out() {
    let (unit, _) = init(&mut ResourceBroker::new()).outcome.unwrap();
    let script = trap_script(&record("divide by zero", "main", 10, 5));
    assert_eq!(script.unit.base(), unit.base());
}

#[test]
fn trap_after_a_failed_start_up_reports_the_fault() {
    let mut broker = ResourceBroker::new();
    assert!(init(&mut broker).outcome.is_ok());
    assert!(init(&mut broker).outcome.is_err());
    let script = trap_script(&record("called `Option::unwrap()` on a `None` value", "src/lib.rs", 21, 45));
    assert_eq!(script.steps[1], TrapStep::Emit("called `Option::unwrap()` on a `None` value".to_string()));
    assert_eq!(script.steps[2], TrapStep::Emit("', src/lib.rs:21:45\n".to_string()));
    assert_eq!(script.steps[4], TrapStep::Spin);
}
