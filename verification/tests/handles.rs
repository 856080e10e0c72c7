use raw_gl_context::config::{GlConfig, Profile};
use raw_gl_context::error::GlError;
use raw_gl_context::handle::{Platform, WindowHandle};
use raw_gl_context::{macos, win, x11, Creation, GlContext};

fn plain_config() -> GlConfig {
    GlConfig {
        version: (3, 2),
        profile: Profile::Core,
        red_bits: 8,
        green_bits: 8,
        blue_bits: 8,
        alpha_bits: 8,
        depth_bits: 24,
        stencil_bits: 8,
        samples: None,
        srgb: true,
        double_buffer: true,
        vsync: false,
    }
}

fn all_platforms() -> Vec<Platform> {
    vec![Platform::Windows, Platform::MacOs, Platform::X11]
}

#[test]
fn null_display_is_invalid() {
    let handle = WindowHandle::Xlib { display: 0, window: 7 };
    assert_eq!(x11::GlContext::create(&handle, plain_config()).err(), Some(GlError::InvalidWindowHandle));
    assert_eq!(handle.validate(Platform::X11), Err(GlError::InvalidWindowHandle));
}

#[test]
fn null_window_is_invalid() {
    let handle = WindowHandle::Xlib { display: 0x1000, window: 0 };
    assert_eq!(x11::GlContext::create(&handle, plain_config()).err(), Some(GlError::InvalidWindowHandle));
}

#[test]
fn null_hwnd_is_invalid() {
    let handle = WindowHandle::Windows { hwnd: 0 };
    assert_eq!(win::GlContext::create(&handle, plain_config()).err(), Some(GlError::InvalidWindowHandle));
}

#[test]
fn null_view_is_invalid() {
    let handle = WindowHandle::MacOS { ns_view: 0 };
    assert_eq!(macos::GlContext::create(&handle, plain_config()).err(), Some(GlError::InvalidWindowHandle));
}

#[test]
fn null_fields_are_invalid_on_every_platform() {
    let handles = vec![
        WindowHandle::Xlib { display: 0, window: 0 },
        WindowHandle::Xlib { display: 0, window: 1 },
        WindowHandle::Xlib { display: 1, window: 0 },
        WindowHandle::Windows { hwnd: 0 },
        WindowHandle::MacOS { ns_view: 0 },
    ];
    for handle in handles.iter() {
        for platform in all_platforms() {
            let created = GlContext::create(platform, handle, plain_config());
            assert_eq!(created.err(), Some(GlError::InvalidWindowHandle));
        }
    }
}

#[test]
fn x11_handle_is_invalid_on_windows_and_macos() {
    let handle = WindowHandle::Xlib { display: 0x1000, window: 7 };
    assert_eq!(win::GlContext::create(&handle, plain_config()).err(), Some(GlError::InvalidWindowHandle));
    assert_eq!(macos::GlContext::create(&handle, plain_config()).err(), Some(GlError::InvalidWindowHandle));
    assert_eq!(
        GlContext::create(Platform::Windows, &handle, plain_config()).err(),
        Some(GlError::InvalidWindowHandle)
    );
    assert_eq!(
        GlContext::create(Platform::MacOs, &handle, plain_config()).err(),
        Some(GlError::InvalidWindowHandle)
    );
}

#[test]
fn windows_and_macos_handles_are_invalid_on_x11() {
    let windows = WindowHandle::Windows { hwnd: 0x2000 };
    let macos_view = WindowHandle::MacOS { ns_view: 0x3000 };
    assert_eq!(x11::GlContext::create(&windows, plain_config()).err(), Some(GlError::InvalidWindowHandle));
    assert_eq!(x11::GlContext::create(&macos_view, plain_config()).err(), Some(GlError::InvalidWindowHandle));
    assert_eq!(win::GlContext::create(&macos_view, plain_config()).err(), Some(GlError::InvalidWindowHandle));
    assert_eq!(macos::GlContext::create(&windows, plain_config()).err(), Some(GlError::InvalidWindowHandle));
}

#[test]
fn handles_of_other_window_systems_are_invalid_everywhere() {
    for platform in all_platforms() {
        assert_eq!(WindowHandle::Other.validate(platform), Err(GlError::InvalidWindowHandle));
        assert_eq!(
            GlContext::create(platform, &WindowHandle::Other, plain_config()).err(),
            Some(GlError::InvalidWindowHandle)
        );
    }
}

#[test]
fn matching_handles_are_accepted() {
    let xlib = WindowHandle::Xlib { display: 0x1000, window: 7 };
    let windows = WindowHandle::Windows { hwnd: 0x2000 };
    let view = WindowHandle::MacOS { ns_view: 0x3000 };
    assert_eq!(xlib.validate(Platform::X11), Ok(()));
    assert_eq!(windows.validate(Platform::Windows), Ok(()));
    assert_eq!(view.validate(Platform::MacOs), Ok(()));
    assert!(matches!(GlContext::create(Platform::X11, &xlib, plain_config()), Ok(Creation::X11(_))));
    assert!(matches!(
        GlContext::create(Platform::Windows, &windows, plain_config()),
        Ok(Creation::Windows(_))
    ));
    assert!(matches!(GlContext::create(Platform::MacOs, &view, plain_config()), Ok(Creation::MacOs(_))));
}

#[test]
fn a_creation_begins_with_the_window_and_the_config() {
    let mut config = plain_config();
    config.vsync = true;
    let handle = WindowHandle::Xlib { display: 0x1000, window: 7 };
    let begun = x11::GlContext::create(&handle, config).unwrap();
    assert_eq!(begun.display, 0x1000);
    assert_eq!(begun.window, 7);
    assert_eq!(begun.config, config);
    assert_eq!(begun.stage, x11::Stage::Installing);
    let begun = win::GlContext::create(&WindowHandle::Windows { hwnd: 0x2000 }, config).unwrap();
    assert_eq!(begun.hwnd, 0x2000);
    assert_eq!(begun.stage, win::Stage::RegisteringClass);
    let begun = macos::GlContext::create(&WindowHandle::MacOS { ns_view: 0x3000 }, config).unwrap();
    assert_eq!(begun.parent, 0x3000);
    assert_eq!(begun.stage, macos::Stage::CreatingPixelFormat);
}
