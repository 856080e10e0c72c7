use raw_gl_context::error::XLibError;
use raw_gl_context::native::{ContextState, Reply, ThreadBinding};
use raw_gl_context::x11::{Action, Call, Fault, GlContext, Operation, OperationProgress, OperationStage};

fn glx_context(context: usize, window: u64) -> GlContext {
    GlContext { window, display: 0x7000, context }
}

fn answer(status: i32, error: Option<u8>) -> Reply {
    Reply { status, address: 0, error }
}

/// Runs an operation: the callback that was installed is at 0xAAAA.
fn perform(operation: Operation, work: Reply, thread: &mut ThreadBinding) -> (Vec<Call>, Result<(), Fault>) {
    let mut calls: Vec<Call> = Vec::new();
    let replies = vec![Reply { status: 0, address: 0xAAAA, error: None }, work, answer(0, None)];
    let mut current = operation;
    for reply in replies {
        calls.push(current.call());
        match current.advance(reply, thread) {
            OperationProgress::Pending(next) => current = next,
            OperationProgress::Finished(outcome) => return (calls, outcome),
        }
    }
    unreachable!()
}

#[test]
fn make_current_runs_inside_a_scope() {
    let context = glx_context(0xC1, 7);
    let mut thread = ThreadBinding::new();
    let (calls, outcome) = perform(context.make_current(), answer(1, None), &mut thread);
    assert_eq!(
        calls,
        vec![
            Call::InstallErrorHandler { display: 0x7000 },
            Call::MakeCurrent { display: 0x7000, window: 7, context: 0xC1 },
            Call::RestoreErrorHandler { handler: 0xAAAA },
        ]
    );
    assert_eq!(outcome, Ok(()));
    assert_eq!(thread.state(0xC1), ContextState::Current);
}

#[test]
fn make_not_current_releases_the_thread() {
    let context = glx_context(0xC1, 7);
    let mut thread = ThreadBinding { current: Some(0xC1) };
    let (calls, outcome) = perform(context.make_not_current(), answer(1, None), &mut thread);
    assert_eq!(calls[1], Call::MakeCurrent { display: 0x7000, window: 0, context: 0 });
    assert_eq!(outcome, Ok(()));
    assert_eq!(thread.state(0xC1), ContextState::NotCurrent);
    assert_eq!(thread.current, None);
}

#[test]
fn the_cycle_can_be_repeated() {
    let context = glx_context(0xC1, 7);
    let mut thread = ThreadBinding::new();
    for _ in 0..25 {
        assert_eq!(thread.state(0xC1), ContextState::NotCurrent);
        assert_eq!(perform(context.make_current(), answer(1, None), &mut thread).1, Ok(()));
        assert_eq!(thread.state(0xC1), ContextState::Current);
        assert_eq!(perform(context.make_not_current(), answer(1, None), &mut thread).1, Ok(()));
    }
    assert_eq!(thread.state(0xC1), ContextState::NotCurrent);
}

#[test]
fn two_contexts_take_turns_on_one_thread() {
    let first = glx_context(0xC1, 7);
    let second = glx_context(0xC2, 8);
    let mut thread = ThreadBinding::new();
    assert_eq!(perform(first.make_current(), answer(1, None), &mut thread).1, Ok(()));
    assert_eq!(thread.state(0xC1), ContextState::Current);
    assert_eq!(thread.state(0xC2), ContextState::NotCurrent);
    assert_eq!(perform(first.make_not_current(), answer(1, None), &mut thread).1, Ok(()));
    assert_eq!(perform(second.make_current(), answer(1, None), &mut thread).1, Ok(()));
    assert_eq!(thread.state(0xC1), ContextState::NotCurrent);
    assert_eq!(thread.state(0xC2), ContextState::Current);
    assert_eq!(perform(first.make_current(), answer(1, None), &mut thread).1, Ok(()));
    assert_eq!(thread.state(0xC1), ContextState::Current);
    assert_eq!(thread.state(0xC2), ContextState::NotCurrent);
}

#[test]
fn a_protocol_error_is_a_fault_and_the_callback_still_goes_back() {
    let context = glx_context(0xC1, 7);
    let mut thread = ThreadBinding::new();
    let (calls, outcome) = perform(context.make_current(), answer(1, Some(8)), &mut thread);
    assert_eq!(outcome, Err(Fault::Protocol(XLibError { error_code: 8 })));
    assert_eq!(calls[2], Call::RestoreErrorHandler { handler: 0xAAAA });
}

#[test]
fn a_refused_binding_is_a_fault() {
    let context = glx_context(0xC1, 7);
    let mut thread = ThreadBinding::new();
    let (_, outcome) = perform(context.make_current(), answer(0, None), &mut thread);
    assert_eq!(outcome, Err(Fault::Refused));
    assert_eq!(thread.current, None);
    let (_, outcome) = perform(context.make_not_current(), answer(0, None), &mut thread);
    assert_eq!(outcome, Err(Fault::Refused));
}

#[test]
fn swap_buffers_presents_the_window() {
    let context = glx_context(0xC1, 7);
    let mut thread = ThreadBinding { current: Some(0xC1) };
    let (calls, outcome) = perform(context.swap_buffers(), answer(0, None), &mut thread);
    assert_eq!(calls[1], Call::SwapBuffers { display: 0x7000, window: 7 });
    assert_eq!(outcome, Ok(()));
    assert_eq!(thread.current, Some(0xC1));
    let (_, outcome) = perform(context.swap_buffers(), answer(0, Some(9)), &mut thread);
    assert_eq!(outcome, Err(Fault::Protocol(XLibError { error_code: 9 })));
}

#[test]
fn an_operation_begins_by_installing_the_callback() {
    let context = glx_context(0xC1, 7);
    let operation = context.swap_buffers();
    assert_eq!(operation.action, Action::SwapBuffers);
    assert_eq!(operation.stage, OperationStage::Installing);
    assert_eq!(operation.display, context.display);
    assert_eq!(operation.window, context.window);
    assert_eq!(operation.context, context.context);
}

#[test]
fn an_unknown_symbol_resolves_to_null() {
    let context = glx_context(0xC1, 7);
    assert_eq!(context.get_proc_address(None), 0);
    assert_eq!(context.get_proc_address(Some(0xF00D)), 0xF00D);
}

#[test]
fn dropping_a_glx_context_releases_nothing() {
    let context = glx_context(0xC1, 7);
    assert_eq!(context.teardown(), Vec::<Call>::new());
}
