use pty_supervisor::lifecycle::exit_code_value;
use pty_supervisor::lifecycle::ExitRecord;

#[test]
fn exit_code_is_the_reported_status() {
    assert_eq!(exit_code_value(Some(0)), 0);
    assert_eq!(exit_code_value(Some(3)), 3);
    assert_eq!(exit_code_value(Some(137)), 137);
}

#[test]
fn failed_wait_yields_the_indeterminate_sentinel() {
    assert_eq!(exit_code_value(None), -1);
}

#[test]
fn reported_status_is_coerced_to_signed() {
    // The coercion wraps: a status of u32::MAX lands on -1, which is why
    // callers must treat the sentinel as "indeterminate", never as a code.
    assert_eq!(exit_code_value(Some(4_294_967_295)), -1);
    assert_eq!(exit_code_value(Some(2_147_483_647)), 2_147_483_647);
}

#[test]
fn status_is_not_yet_exited_while_running() {
    let record = ExitRecord::new();
    assert!(!record.is_exited());
    assert_eq!(record.status(), None);
    // A snapshot read changes nothing: ask as often as you like.
    assert_eq!(record.status(), None);
}

#[test]
fn status_returns_the_stored_code_idempotently() {
    let mut record = ExitRecord::new();
    record.record_exit(5);
    assert!(record.is_exited());
    assert_eq!(record.status(), Some(5));
    assert_eq!(record.status(), Some(5));
    assert_eq!(record.status(), Some(5));
}

#[test]
fn recording_again_is_a_no_op() {
    let mut record = ExitRecord::new();
    record.record_exit(7);
    // A later attempt — a terminate racing the monitor, say — changes nothing.
    record.record_exit(0);
    record.record_exit(-1);
    assert_eq!(record.status(), Some(7));
}
