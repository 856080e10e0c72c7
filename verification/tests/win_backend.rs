use raw_gl_context::config::{GlConfig, Profile};
use raw_gl_context::error::{CreationFailedError, GlError};
use raw_gl_context::handle::WindowHandle;
use raw_gl_context::native::{ContextState, Reply, ThreadBinding};
use raw_gl_context::win::{
    follow, Call, GlContext, Negotiation, Progress, Resolution, CREATE_CONTEXT_ATTRIBS, GL_LIBRARY,
    WINDOW_CLASS,
};

const HWND: usize = 0x5000;
const TMP_HWND: usize = 0x51;
const TMP_HDC: usize = 0x52;
const TMP_HGLRC: usize = 0x53;
const ENTRY: usize = 0x54;
const HDC: usize = 0x55;
const HGLRC: usize = 0x56;
const LIBRARY: usize = 0x57;

fn wgl_config() -> GlConfig {
    GlConfig {
        version: (3, 2),
        profile: Profile::Core,
        red_bits: 8,
        green_bits: 8,
        blue_bits: 8,
        alpha_bits: 8,
        depth_bits: 24,
        stencil_bits: 8,
        samples: None,
        srgb: true,
        double_buffer: true,
        vsync: false,
    }
}

fn ok(status: i32, address: usize) -> Reply {
    Reply { status, address, error: None }
}

fn start() -> Negotiation {
    GlContext::create(&WindowHandle::Windows { hwnd: HWND }, wgl_config()).unwrap()
}

/// The replies of a creation in which every call does its work.
fn good_replies() -> Vec<Reply> {
    vec![
        ok(1, 0),
        ok(0, TMP_HWND),
        ok(0, TMP_HDC),
        ok(5, 0),
        ok(1, 0),
        ok(0, TMP_HGLRC),
        ok(1, 0),
        ok(0, ENTRY),
        ok(1, 0),
        ok(1, 0),
        ok(1, 0),
        ok(1, 0),
        ok(0, HDC),
        ok(9, 0),
        ok(1, 0),
        ok(0, HGLRC),
        ok(0, LIBRARY),
    ]
}

/// Answers the calls of a creation with `replies`, and with success once they run out.
fn drive_wgl(replies: &[Reply], thread: &mut ThreadBinding) -> (Vec<Call>, Result<GlContext, GlError>) {
    let mut calls: Vec<Call> = Vec::new();
    let mut current = start();
    let mut next_reply: usize = 0;
    loop {
        assert!(calls.len() < 40);
        calls.push(current.call());
        let reply = if next_reply < replies.len() { replies[next_reply] } else { ok(1, 1) };
        next_reply += 1;
        match current.advance(reply, thread) {
            Progress::Pending(next) => current = next,
            Progress::Finished(outcome) => return (calls, outcome),
        }
    }
}

#[test]
fn a_good_creation_bootstraps_and_then_creates() {
    let mut thread = ThreadBinding { current: Some(0x999) };
    let (calls, outcome) = drive_wgl(&good_replies(), &mut thread);
    assert_eq!(
        calls,
        vec![
            Call::RegisterClass,
            Call::CreateWindow,
            Call::GetDc { hwnd: TMP_HWND },
            Call::ChoosePixelFormat { hdc: TMP_HDC, legacy: true },
            Call::SetPixelFormat { hdc: TMP_HDC, format: 5, legacy: true },
            Call::CreateContext { hdc: TMP_HDC },
            Call::MakeCurrent { hdc: TMP_HDC, hglrc: TMP_HGLRC },
            Call::ResolveCreateContextAttribs,
            Call::MakeCurrent { hdc: TMP_HDC, hglrc: 0 },
            Call::DeleteContext { hglrc: TMP_HGLRC },
            Call::ReleaseDc { hwnd: TMP_HWND, hdc: TMP_HDC },
            Call::DestroyWindow { hwnd: TMP_HWND },
            Call::GetDc { hwnd: HWND },
            Call::ChoosePixelFormat { hdc: HDC, legacy: false },
            Call::SetPixelFormat { hdc: HDC, format: 9, legacy: false },
            Call::CreateContextAttribs { entry: ENTRY, hdc: HDC },
            Call::LoadLibrary,
        ]
    );
    assert_eq!(outcome, Ok(GlContext { hwnd: HWND, hdc: HDC, hglrc: HGLRC, gl_library: LIBRARY }));
    assert_eq!(thread.current, None);
    assert_eq!(thread.state(HGLRC), ContextState::NotCurrent);
}

#[test]
fn registering_the_class_twice_is_tolerated() {
    let mut replies = good_replies();
    replies[0] = ok(0, 0);
    let mut thread = ThreadBinding::new();
    let (_, outcome) = drive_wgl(&replies, &mut thread);
    assert!(outcome.is_ok());
}

#[test]
fn a_null_throw_away_window_fails_at_once() {
    let mut thread = ThreadBinding::new();
    let (calls, outcome) = drive_wgl(&[ok(1, 0), ok(0, 0)], &mut thread);
    assert_eq!(outcome, Err(GlError::CreationFailed(CreationFailedError::ContextCreationFailed)));
    assert_eq!(calls, vec![Call::RegisterClass, Call::CreateWindow]);
}

#[test]
fn a_null_legacy_context_releases_the_device_context_and_the_window() {
    let mut replies = good_replies();
    replies[5] = ok(0, 0);
    let mut thread = ThreadBinding::new();
    let (calls, outcome) = drive_wgl(&replies[..6], &mut thread);
    assert_eq!(outcome, Err(GlError::CreationFailed(CreationFailedError::ContextCreationFailed)));
    assert_eq!(
        calls[6..],
        [Call::ReleaseDc { hwnd: TMP_HWND, hdc: TMP_HDC }, Call::DestroyWindow { hwnd: TMP_HWND }]
    );
}

#[test]
fn no_pixel_format_fails_with_invalid_fb_config() {
    let mut replies = good_replies();
    replies[3] = ok(0, 0);
    let mut thread = ThreadBinding::new();
    let (calls, outcome) = drive_wgl(&replies[..4], &mut thread);
    assert_eq!(outcome, Err(GlError::CreationFailed(CreationFailedError::InvalidFBConfig)));
    assert_eq!(calls.len(), 6);
    let mut replies = good_replies();
    replies[14] = ok(0, 0);
    let (calls, outcome) = drive_wgl(&replies[..15], &mut thread);
    assert_eq!(outcome, Err(GlError::CreationFailed(CreationFailedError::InvalidFBConfig)));
    assert_eq!(calls[15..], [Call::ReleaseDc { hwnd: HWND, hdc: HDC }]);
}

#[test]
fn a_refused_binding_of_the_legacy_context_fails() {
    let mut replies = good_replies();
    replies[6] = ok(0, 0);
    let mut thread = ThreadBinding { current: Some(0x999) };
    let (calls, outcome) = drive_wgl(&replies[..7], &mut thread);
    assert_eq!(outcome, Err(GlError::CreationFailed(CreationFailedError::MakeCurrentFailed)));
    assert_eq!(
        calls[7..],
        [
            Call::DeleteContext { hglrc: TMP_HGLRC },
            Call::ReleaseDc { hwnd: TMP_HWND, hdc: TMP_HDC },
            Call::DestroyWindow { hwnd: TMP_HWND },
        ]
    );
    assert_eq!(thread.current, Some(0x999));
}

#[test]
fn an_unresolved_entry_point_fails_after_the_bootstrap_is_undone() {
    let mut replies = good_replies();
    replies[7] = ok(0, 0);
    let mut thread = ThreadBinding::new();
    let (calls, outcome) = drive_wgl(&replies[..8], &mut thread);
    assert_eq!(outcome, Err(GlError::CreationFailed(CreationFailedError::GetProcAddressFailed)));
    assert_eq!(
        calls[8..],
        [
            Call::MakeCurrent { hdc: TMP_HDC, hglrc: 0 },
            Call::DeleteContext { hglrc: TMP_HGLRC },
            Call::ReleaseDc { hwnd: TMP_HWND, hdc: TMP_HDC },
            Call::DestroyWindow { hwnd: TMP_HWND },
        ]
    );
    assert_eq!(thread.current, None);
}

#[test]
fn a_null_context_releases_the_device_context() {
    let mut replies = good_replies();
    replies[15] = ok(0, 0);
    let mut thread = ThreadBinding::new();
    let (calls, outcome) = drive_wgl(&replies[..16], &mut thread);
    assert_eq!(outcome, Err(GlError::CreationFailed(CreationFailedError::ContextCreationFailed)));
    assert_eq!(calls[16..], [Call::ReleaseDc { hwnd: HWND, hdc: HDC }]);
}

#[test]
fn a_library_that_does_not_load_undoes_the_context() {
    let mut replies = good_replies();
    replies[16] = ok(0, 0);
    let mut thread = ThreadBinding::new();
    let (calls, outcome) = drive_wgl(&replies, &mut thread);
    assert_eq!(outcome, Err(GlError::CreationFailed(CreationFailedError::ContextCreationFailed)));
    assert_eq!(
        calls[17..],
        [Call::DeleteContext { hglrc: HGLRC }, Call::ReleaseDc { hwnd: HWND, hdc: HDC }]
    );
}

#[test]
fn a_legacy_context_that_stays_bound_is_unbound_by_its_deletion() {
    let mut replies = good_replies();
    replies[8] = ok(0, 0);
    let mut thread = ThreadBinding::new();
    let (_, outcome) = drive_wgl(&replies, &mut thread);
    assert!(outcome.is_ok());
    assert_eq!(thread.current, None);
}

#[test]
fn wgl_calls_of_an_existing_context() {
    let context = GlContext { hwnd: HWND, hdc: HDC, hglrc: HGLRC, gl_library: LIBRARY };
    assert_eq!(context.make_current(), Call::MakeCurrent { hdc: HDC, hglrc: HGLRC });
    assert_eq!(context.make_not_current(), Call::MakeCurrent { hdc: HDC, hglrc: 0 });
    assert_eq!(context.swap_buffers(), Call::SwapBuffers { hdc: HDC });
}

#[test]
fn wgl_binding_follows_the_calls() {
    let context = GlContext { hwnd: HWND, hdc: HDC, hglrc: HGLRC, gl_library: LIBRARY };
    let mut thread = ThreadBinding::new();
    follow(&context.make_current(), &ok(1, 0), &mut thread);
    assert_eq!(thread.state(HGLRC), ContextState::Current);
    follow(&context.swap_buffers(), &ok(1, 0), &mut thread);
    assert_eq!(thread.state(HGLRC), ContextState::Current);
    follow(&context.make_not_current(), &ok(0, 0), &mut thread);
    assert_eq!(thread.state(HGLRC), ContextState::Current);
    follow(&context.make_not_current(), &ok(1, 0), &mut thread);
    assert_eq!(thread.state(HGLRC), ContextState::NotCurrent);
    follow(&context.make_current(), &ok(0, 0), &mut thread);
    assert_eq!(thread.current, None);
}

#[test]
fn extension_functions_come_from_the_resolver() {
    let context = GlContext { hwnd: HWND, hdc: HDC, hglrc: HGLRC, gl_library: LIBRARY };
    assert_eq!(context.get_proc_address(0xF00D), Resolution::Found(0xF00D));
}

#[test]
fn old_functions_fall_back_to_the_library() {
    let context = GlContext { hwnd: HWND, hdc: HDC, hglrc: HGLRC, gl_library: LIBRARY };
    assert_eq!(
        context.get_proc_address(0),
        Resolution::AskLibrary(Call::GetProcAddress { module: LIBRARY })
    );
}

#[test]
fn dropping_a_wgl_context_detaches_and_releases_what_it_owns() {
    let context = GlContext { hwnd: HWND, hdc: HDC, hglrc: HGLRC, gl_library: LIBRARY };
    let calls = context.teardown();
    assert_eq!(
        calls,
        vec![
            Call::MakeCurrent { hdc: 0, hglrc: 0 },
            Call::FreeLibrary { module: LIBRARY },
            Call::DeleteContext { hglrc: HGLRC },
            Call::ReleaseDc { hwnd: HWND, hdc: HDC },
        ]
    );
    let mut thread = ThreadBinding { current: Some(HGLRC) };
    for call in calls.iter() {
        follow(call, &ok(1, 0), &mut thread);
    }
    assert_eq!(thread.current, None);
}

#[test]
fn what_a_created_context_owns_is_released_once_each() {
    let mut thread = ThreadBinding::new();
    let (_, outcome) = drive_wgl(&good_replies(), &mut thread);
    let calls = outcome.unwrap().teardown();
    let frees = calls.iter().filter(|call| **call == Call::FreeLibrary { module: LIBRARY }).count();
    let deletes = calls.iter().filter(|call| **call == Call::DeleteContext { hglrc: HGLRC }).count();
    let releases = calls.iter().filter(|call| **call == Call::ReleaseDc { hwnd: HWND, hdc: HDC }).count();
    assert_eq!((frees, deletes, releases), (1, 1, 1));
    assert_eq!(calls.len(), 4);
}

#[test]
fn dropping_a_context_that_was_never_current_leaves_another_thread_binding_detached() {
    let context = GlContext { hwnd: HWND, hdc: HDC, hglrc: HGLRC, gl_library: LIBRARY };
    let mut thread = ThreadBinding { current: Some(0x999) };
    for call in context.teardown().iter() {
        follow(call, &ok(1, 0), &mut thread);
    }
    assert_eq!(thread.current, None);
}

#[test]
fn wgl_names() {
    assert_eq!(WINDOW_CLASS, "raw-gl-context-window");
    assert_eq!(CREATE_CONTEXT_ATTRIBS, "wglCreateContextAttribsARB");
    assert_eq!(GL_LIBRARY, "opengl32.dll");
}
