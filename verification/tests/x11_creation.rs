use raw_gl_context::config::{GlConfig, Profile};
use raw_gl_context::error::{CreationFailedError, GlError, XLibError};
use raw_gl_context::handle::WindowHandle;
use raw_gl_context::native::{ContextState, Reply, ThreadBinding};
use raw_gl_context::x11::{Call, Extension, GlContext, Negotiation, Progress};

const DISPLAY: usize = 0x7000;
const WINDOW: u64 = 0x42;
const PREVIOUS: usize = 0xAAAA;
const CONTEXT: usize = 0xC0DE;
const CONFIGS: usize = 0xF0;

fn glx_config(vsync: bool) -> GlConfig {
    GlConfig {
        version: (3, 2),
        profile: Profile::Core,
        red_bits: 8,
        green_bits: 8,
        blue_bits: 8,
        alpha_bits: 8,
        depth_bits: 24,
        stencil_bits: 8,
        samples: None,
        srgb: true,
        double_buffer: true,
        vsync,
    }
}

fn status(status: i32) -> Reply {
    Reply { status, address: 0, error: None }
}

fn address(address: usize) -> Reply {
    Reply { status: 0, address, error: None }
}

fn configs(count: i32) -> Reply {
    Reply { status: count, address: CONFIGS, error: None }
}

fn with_error(reply: Reply, code: u8) -> Reply {
    Reply { error: Some(code), ..reply }
}

fn begin(vsync: bool) -> Negotiation {
    GlContext::create(&WindowHandle::Xlib { display: DISPLAY, window: WINDOW }, glx_config(vsync)).unwrap()
}

/// The replies of a creation in which every call does its work.
fn quiet_replies() -> Vec<Reply> {
    vec![
        address(PREVIOUS),
        configs(3),
        address(0x100),
        address(0x200),
        address(CONTEXT),
        status(1),
        status(0),
        status(1),
        status(0),
    ]
}

/// Answers the calls of a creation with `replies`, until it ends or they run out.
fn drive_glx(
    start: Negotiation,
    replies: &[Reply],
    thread: &mut ThreadBinding,
) -> (Vec<Call>, Option<Result<GlContext, GlError>>) {
    let mut calls: Vec<Call> = Vec::new();
    let mut current = start;
    for reply in replies {
        calls.push(current.call());
        match current.advance(*reply, thread) {
            Progress::Pending(next) => current = next,
            Progress::Finished(outcome) => return (calls, Some(outcome)),
        }
    }
    (calls, None)
}

fn failure(reason: CreationFailedError) -> Option<Result<GlContext, GlError>> {
    Some(Err(GlError::CreationFailed(reason)))
}

fn restore() -> Call {
    Call::RestoreErrorHandler { handler: PREVIOUS }
}

#[test]
fn a_quiet_creation_makes_nine_calls_in_order() {
    let mut thread = ThreadBinding::new();
    let (calls, outcome) = drive_glx(begin(true), &quiet_replies(), &mut thread);
    assert_eq!(
        calls,
        vec![
            Call::InstallErrorHandler { display: DISPLAY },
            Call::ChooseFbConfig { display: DISPLAY },
            Call::GetProcAddress { extension: Extension::CreateContextAttribs },
            Call::GetProcAddress { extension: Extension::SwapInterval },
            Call::CreateContextAttribs { display: DISPLAY, entry: 0x100, configs: CONFIGS },
            Call::MakeCurrent { display: DISPLAY, window: WINDOW, context: CONTEXT },
            Call::SwapInterval { display: DISPLAY, window: WINDOW, interval: 1, entry: 0x200 },
            Call::MakeCurrent { display: DISPLAY, window: 0, context: 0 },
            Call::RestoreErrorHandler { handler: PREVIOUS },
        ]
    );
    assert_eq!(outcome, Some(Ok(GlContext { window: WINDOW, display: DISPLAY, context: CONTEXT })));
}

#[test]
fn a_new_context_is_not_current() {
    let mut thread = ThreadBinding { current: Some(0x999) };
    let (_, outcome) = drive_glx(begin(false), &quiet_replies(), &mut thread);
    let made = outcome.unwrap().unwrap();
    assert_eq!(thread.current, None);
    assert_eq!(thread.state(made.context), ContextState::NotCurrent);
}

#[test]
fn the_context_is_current_while_the_swap_interval_is_set() {
    let mut thread = ThreadBinding::new();
    let (calls, outcome) = drive_glx(begin(false), &quiet_replies()[..6], &mut thread);
    assert_eq!(outcome, None);
    assert_eq!(calls.len(), 6);
    assert_eq!(thread.current, Some(CONTEXT));
}

#[test]
fn vsync_off_asks_for_interval_zero() {
    let mut thread = ThreadBinding::new();
    let (calls, _) = drive_glx(begin(false), &quiet_replies(), &mut thread);
    assert_eq!(
        calls[6],
        Call::SwapInterval { display: DISPLAY, window: WINDOW, interval: 0, entry: 0x200 }
    );
}

#[test]
fn no_matching_configuration_fails_with_invalid_fb_config() {
    let mut thread = ThreadBinding::new();
    let replies = vec![address(PREVIOUS), configs(0), status(0)];
    let (calls, outcome) = drive_glx(begin(false), &replies, &mut thread);
    assert_eq!(outcome, failure(CreationFailedError::InvalidFBConfig));
    assert_eq!(calls.len(), 3);
    assert_eq!(calls[2], restore());
}

#[test]
fn a_negative_number_of_configurations_fails_too() {
    let mut thread = ThreadBinding::new();
    let replies = vec![address(PREVIOUS), configs(-1), status(0)];
    let (_, outcome) = drive_glx(begin(false), &replies, &mut thread);
    assert_eq!(outcome, failure(CreationFailedError::InvalidFBConfig));
}

#[test]
fn a_protocol_error_on_choosing_comes_before_the_count() {
    let mut thread = ThreadBinding::new();
    let replies = vec![address(PREVIOUS), with_error(configs(0), 8), status(0)];
    let (calls, outcome) = drive_glx(begin(false), &replies, &mut thread);
    assert_eq!(outcome, failure(CreationFailedError::X11Error(XLibError { error_code: 8 })));
    assert_eq!(calls[2], restore());
}

#[test]
fn an_unresolved_create_function_fails() {
    let mut thread = ThreadBinding::new();
    let replies = vec![address(PREVIOUS), configs(1), address(0), status(0)];
    let (calls, outcome) = drive_glx(begin(false), &replies, &mut thread);
    assert_eq!(outcome, failure(CreationFailedError::GetProcAddressFailed));
    assert_eq!(calls[3], restore());
}

#[test]
fn an_unresolved_swap_interval_function_fails() {
    let mut thread = ThreadBinding::new();
    let replies = vec![address(PREVIOUS), configs(1), address(0x100), address(0), status(0)];
    let (calls, outcome) = drive_glx(begin(false), &replies, &mut thread);
    assert_eq!(outcome, failure(CreationFailedError::GetProcAddressFailed));
    assert_eq!(calls[4], restore());
}

#[test]
fn an_error_while_resolving_ends_the_creation_at_once() {
    let mut thread = ThreadBinding::new();
    let replies = vec![
        address(PREVIOUS),
        configs(1),
        with_error(address(0x100), 17),
        status(0),
    ];
    let (calls, outcome) = drive_glx(begin(false), &replies, &mut thread);
    assert_eq!(outcome, failure(CreationFailedError::X11Error(XLibError { error_code: 17 })));
    assert_eq!(calls.len(), 4);
    assert_eq!(calls[3], restore());
}

#[test]
fn a_null_function_with_a_protocol_error_reports_the_error() {
    let mut thread = ThreadBinding::new();
    let replies = vec![address(PREVIOUS), configs(1), with_error(address(0), 17), status(0)];
    let (_, outcome) = drive_glx(begin(false), &replies, &mut thread);
    assert_eq!(outcome, failure(CreationFailedError::X11Error(XLibError { error_code: 17 })));
    let replies = vec![
        address(PREVIOUS),
        configs(1),
        address(0x100),
        with_error(address(0), 18),
        status(0),
    ];
    let (calls, outcome) = drive_glx(begin(false), &replies, &mut thread);
    assert_eq!(outcome, failure(CreationFailedError::X11Error(XLibError { error_code: 18 })));
    assert_eq!(calls[4], restore());
}

#[test]
fn a_null_list_of_configurations_fails_with_invalid_fb_config() {
    let mut thread = ThreadBinding::new();
    let replies = vec![address(PREVIOUS), status(2), status(0)];
    let (_, outcome) = drive_glx(begin(false), &replies, &mut thread);
    assert_eq!(outcome, failure(CreationFailedError::InvalidFBConfig));
}

#[test]
fn a_null_context_fails_with_context_creation_failed() {
    let mut thread = ThreadBinding::new();
    let replies =
        vec![address(PREVIOUS), configs(1), address(0x100), address(0x200), address(0), status(0)];
    let (calls, outcome) = drive_glx(begin(false), &replies, &mut thread);
    assert_eq!(outcome, failure(CreationFailedError::ContextCreationFailed));
    assert_eq!(calls[5], restore());
}

#[test]
fn a_protocol_error_on_creating_the_context_is_reported() {
    let mut thread = ThreadBinding::new();
    let replies = vec![
        address(PREVIOUS),
        configs(1),
        address(0x100),
        address(0x200),
        with_error(address(CONTEXT), 167),
        status(0),
    ];
    let (_, outcome) = drive_glx(begin(false), &replies, &mut thread);
    assert_eq!(outcome, failure(CreationFailedError::X11Error(XLibError { error_code: 167 })));
}

#[test]
fn a_refused_binding_fails_with_make_current_failed() {
    let mut thread = ThreadBinding { current: Some(0x999) };
    let mut replies = quiet_replies();
    replies[5] = status(0);
    let (calls, outcome) = drive_glx(begin(false), &replies, &mut thread);
    assert_eq!(outcome, failure(CreationFailedError::MakeCurrentFailed));
    assert_eq!(calls.len(), 7);
    assert_eq!(calls[6], restore());
    assert_eq!(thread.current, Some(0x999));
}

#[test]
fn a_protocol_error_on_the_swap_interval_is_reported() {
    let mut thread = ThreadBinding::new();
    let mut replies = quiet_replies();
    replies[6] = with_error(status(0), 2);
    let (calls, outcome) = drive_glx(begin(false), &replies, &mut thread);
    assert_eq!(outcome, failure(CreationFailedError::X11Error(XLibError { error_code: 2 })));
    assert_eq!(calls.len(), 8);
    assert_eq!(thread.current, Some(CONTEXT));
}

#[test]
fn a_refused_release_fails_with_make_current_failed() {
    let mut thread = ThreadBinding::new();
    let mut replies = quiet_replies();
    replies[7] = status(0);
    let (_, outcome) = drive_glx(begin(false), &replies, &mut thread);
    assert_eq!(outcome, failure(CreationFailedError::MakeCurrentFailed));
}

#[test]
fn a_refused_release_with_a_protocol_error_reports_the_error() {
    let mut thread = ThreadBinding::new();
    let mut replies = quiet_replies();
    replies[7] = with_error(status(0), 13);
    let (_, outcome) = drive_glx(begin(false), &replies, &mut thread);
    assert_eq!(outcome, failure(CreationFailedError::X11Error(XLibError { error_code: 13 })));
}

#[test]
fn a_protocol_error_on_a_release_that_worked_is_reported() {
    let mut thread = ThreadBinding::new();
    let mut replies = quiet_replies();
    replies[7] = with_error(status(1), 13);
    let (calls, outcome) = drive_glx(begin(false), &replies, &mut thread);
    assert_eq!(outcome, failure(CreationFailedError::X11Error(XLibError { error_code: 13 })));
    assert_eq!(calls.len(), 9);
    assert_eq!(calls[8], restore());
}

#[test]
fn a_protocol_error_at_any_call_fails_the_creation() {
    for at in 1..8 {
        let mut thread = ThreadBinding::new();
        let mut replies = quiet_replies();
        replies[at] = with_error(replies[at], 40);
        let (calls, outcome) = drive_glx(begin(false), &replies, &mut thread);
        assert_eq!(outcome, failure(CreationFailedError::X11Error(XLibError { error_code: 40 })));
        assert_eq!(calls.len(), at + 2);
        assert_eq!(calls[at + 1], restore());
    }
}

#[test]
fn errors_before_the_callback_is_installed_are_not_read() {
    let mut thread = ThreadBinding::new();
    let mut replies = quiet_replies();
    replies[0] = with_error(address(PREVIOUS), 99);
    let (_, outcome) = drive_glx(begin(false), &replies, &mut thread);
    assert!(matches!(outcome, Some(Ok(_))));
}
