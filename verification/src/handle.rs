//! The native window a context is to be bound to.

use vstd::prelude::*;
use crate::error::GlError;

verus! {

/// The native protocol a backend speaks.
#[derive(Clone, Copy, Debug, PartialEq, Eq, Structural)]
pub enum Platform {
    Windows,
    MacOs,
    X11,
}

/// A native window, tagged by the window system it belongs to.
///
/// Pointers are held as integers, with 0 for null. `Other` stands for the
/// window systems that no backend speaks.
#[derive(Clone, Copy, Debug, PartialEq, Eq)]
pub enum WindowHandle {
    Xlib { display: usize, window: u64 },
    Windows { hwnd: usize },
    MacOS { ns_view: usize },
    Other,
}

impl WindowHandle {
    /// The platform whose backend speaks this handle's window system, if any
    /// does.
    pub open spec fn platform_of(self) -> Option<Platform> {
        match self {
            WindowHandle::Xlib { .. } => Some(Platform::X11),
            WindowHandle::Windows { .. } => Some(Platform::Windows),
            WindowHandle::MacOS { .. } => Some(Platform::MacOs),
            WindowHandle::Other => None,
        }
    }

    /// Whether a field that a backend needs is null: the display or the
    /// window of an X11 handle, the window of a Windows handle, the view of a
    /// macOS handle.
    pub open spec fn has_null_field(self) -> bool {
        match self {
            WindowHandle::Xlib { display, window } => display == 0 || window == 0,
            WindowHandle::Windows { hwnd } => hwnd == 0,
            WindowHandle::MacOS { ns_view } => ns_view == 0,
            WindowHandle::Other => false,
        }
    }

    /// Whether the backend of `platform` can bind a context to this window:
    /// the handle is of that platform and no field it needs is null.
    pub open spec fn usable_on(self, platform: Platform) -> bool {
        self.platform_of() == Some(platform) && !self.has_null_field()
    }

    /// Accepts the handle for `platform`, or rejects it as invalid.
    pub fn validate(&self, platform: Platform) -> (r: Result<(), GlError>)
        ensures
            self.usable_on(platform) ==> r == Ok::<(), GlError>(()),
            !self.usable_on(platform) ==> r == Err::<(), GlError>(GlError::InvalidWindowHandle),
    {
        let usable = match self {
            WindowHandle::Xlib { display, window } => platform == Platform::X11 && *display != 0
                && *window != 0,
            WindowHandle::Windows { hwnd } => platform == Platform::Windows && *hwnd != 0,
            WindowHandle::MacOS { ns_view } => platform == Platform::MacOs && *ns_view != 0,
            WindowHandle::Other => false,
        };
        if usable {
            Ok(())
        } else {
            Err(GlError::InvalidWindowHandle)
        }
    }
}

} // verus!
