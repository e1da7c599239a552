use loon::cancel::{cancel, init, is_cancelled, request_cancel, reset, reset_cancel_pending, CancelFlags};

#[test]
fn nothing_happens_before_init() {
    let mut f = CancelFlags::new();
    assert!(!request_cancel(&mut f));
    assert!(!request_cancel(&mut f));
    cancel(&mut f);
    assert!(!is_cancelled(&f));
}

#[test]
fn second_press_cancels() {
    let mut f = CancelFlags::new();
    init(&mut f);
    assert!(!is_cancelled(&f));
    assert!(!request_cancel(&mut f));
    assert!(!is_cancelled(&f));
    assert!(request_cancel(&mut f));
    assert!(is_cancelled(&f));
}

#[test]
fn reset_clears_both_flags() {
    let mut f = CancelFlags::new();
    init(&mut f);
    assert!(!request_cancel(&mut f));
    assert!(request_cancel(&mut f));
    reset(&mut f);
    assert!(!is_cancelled(&f));
    assert!(!request_cancel(&mut f));
    assert!(!is_cancelled(&f));
}

#[test]
fn reset_pending_rearms_first_press() {
    let mut f = CancelFlags::new();
    init(&mut f);
    assert!(!request_cancel(&mut f));
    reset_cancel_pending(&mut f);
    assert!(!request_cancel(&mut f));
    assert!(!is_cancelled(&f));
}

#[test]
fn second_init_keeps_state() {
    let mut f = CancelFlags::new();
    init(&mut f);
    cancel(&mut f);
    init(&mut f);
    assert!(is_cancelled(&f));
}
