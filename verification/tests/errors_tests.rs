use mux_os::{CallKind, ErrorContext, MAX_CONTEXT_CALLS};

#[test]
fn new_context_is_empty() {
    let ctx = ErrorContext::new();
    assert_eq!(ctx.len(), 0);
    assert!(ctx.calls().is_empty());
}

#[test]
fn add_call_keeps_order() {
    let mut ctx = ErrorContext::new();
    ctx.add_call(CallKind::App);
    ctx.add_call(CallKind::Pty);
    ctx.add_call(CallKind::Screen);
    assert_eq!(
        ctx.calls(),
        &vec![CallKind::App, CallKind::Pty, CallKind::Screen]
    );
}

#[test]
fn capacity_is_bounded_and_oldest_is_evicted() {
    let mut ctx = ErrorContext::new();
    for _ in 0..MAX_CONTEXT_CALLS {
        ctx.add_call(CallKind::App);
    }
    assert_eq!(ctx.len(), MAX_CONTEXT_CALLS);
    ctx.add_call(CallKind::SignalHandler);
    assert_eq!(ctx.len(), MAX_CONTEXT_CALLS);
    // The newest entry is at the end; one of the oldest entries left.
    assert_eq!(ctx.calls()[MAX_CONTEXT_CALLS - 1], CallKind::SignalHandler);
    assert_eq!(ctx.calls()[0], CallKind::App);
    ctx.add_call(CallKind::StdinHandler);
    assert_eq!(ctx.len(), MAX_CONTEXT_CALLS);
    assert_eq!(ctx.calls()[MAX_CONTEXT_CALLS - 2], CallKind::SignalHandler);
    assert_eq!(ctx.calls()[MAX_CONTEXT_CALLS - 1], CallKind::StdinHandler);
}

#[test]
fn duplicate_is_equal_and_independent() {
    let mut ctx = ErrorContext::new();
    ctx.add_call(CallKind::IpcServer);
    let copy = ctx.duplicate();
    assert_eq!(copy.calls(), ctx.calls());
    ctx.add_call(CallKind::Screen);
    // The copy holds the trace as it was at the moment of duplication.
    assert_eq!(copy.calls(), &vec![CallKind::IpcServer]);
    assert_eq!(ctx.len(), 2);
}
