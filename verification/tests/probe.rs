use clone_probe::probe::{kprobe__sys_clone, on_trace_event, Outcome, HANDLED};
use clone_probe::{HelperCall, MESSAGE, MESSAGE_LEN, TRACE_PRINTK};

/// A stand-in for the host: keeps every request put to it and answers `answer`.
fn run_with_double(ctx: usize, answer: i32, seen: &mut Vec<HelperCall>) -> i32 {
    kprobe__sys_clone(ctx, |call: HelperCall| {
        seen.push(call);
        answer
    })
}

#[test]
fn returns_zero_for_null_context() {
    let mut seen = Vec::new();
    assert_eq!(run_with_double(0, 0, &mut seen), 0);
    assert_eq!(on_trace_event(0).status, 0);
}

#[test]
fn returns_zero_for_any_context() {
    for ctx in [0usize, 1, 17, 0xdead_beef, usize::MAX - 1, usize::MAX] {
        let mut seen = Vec::new();
        assert_eq!(run_with_double(ctx, 0, &mut seen), 0);
        assert_eq!(on_trace_event(ctx).status, 0);
    }
}

#[test]
fn handled_status_is_zero() {
    assert_eq!(HANDLED, 0);
}

#[test]
fn end_to_end_null_context() {
    let mut seen = Vec::new();
    let status = run_with_double(0, 0, &mut seen);
    assert_eq!(status, 0);
    assert_eq!(seen.len(), 1);
    assert_eq!(seen[0].slot, 6);
    assert_eq!(seen[0].message, *b"hello from rust\n\0");
    assert_eq!(seen[0].message.len(), 17);
    assert_eq!(seen[0].len, 17);
}

#[test]
fn one_helper_call_per_invocation() {
    let mut seen = Vec::new();
    for round in 1..=5usize {
        run_with_double(round, 0, &mut seen);
        assert_eq!(seen.len(), round);
    }
    for call in &seen {
        assert_eq!(*call, seen[0]);
    }
}

#[test]
fn helper_answer_is_dropped() {
    for answer in [0, 1, -1, 17, i32::MIN, i32::MAX] {
        let mut seen = Vec::new();
        assert_eq!(run_with_double(0, answer, &mut seen), 0);
        assert_eq!(seen.len(), 1);
    }
}

#[test]
fn request_is_the_fixed_trace_print() {
    let expected = HelperCall { slot: TRACE_PRINTK, message: MESSAGE, len: MESSAGE_LEN };
    let mut seen = Vec::new();
    run_with_double(42, 0, &mut seen);
    assert_eq!(seen, vec![expected]);
}

#[test]
fn decision_holds_request_and_status() {
    let expected = Outcome {
        call: HelperCall { slot: 6, message: *b"hello from rust\n\0", len: 17 },
        status: 0,
    };
    assert_eq!(on_trace_event(0), expected);
    assert_eq!(on_trace_event(usize::MAX), expected);
}

#[test]
fn declared_length_is_the_buffer_length() {
    let outcome = on_trace_event(0);
    assert_eq!(outcome.call.len as usize, outcome.call.message.len());
    assert_eq!(outcome.call.message[outcome.call.message.len() - 1], 0);
}

#[test]
fn repeated_invocations_agree() {
    let first = on_trace_event(1);
    let second = on_trace_event(2);
    let third = on_trace_event(1);
    assert_eq!(first, second);
    assert_eq!(first, third);
}

#[test]
fn invocations_do_not_interfere() {
    let mut left = Vec::new();
    let mut right = Vec::new();
    let a = run_with_double(1, 5, &mut left);
    let b = run_with_double(2, -5, &mut right);
    let c = run_with_double(3, 5, &mut left);
    assert_eq!((a, b, c), (0, 0, 0));
    assert_eq!(left.len(), 2);
    assert_eq!(right.len(), 1);
    assert_eq!(left[0], right[0]);
    assert_eq!(left[0], left[1]);
}
