//! Why creating a context failed.

use vstd::prelude::*;

verus! {

/// A protocol error that the X server reported while a request was
/// intercepted, by its code.
#[derive(Clone, Copy, Debug, PartialEq, Eq, Structural)]
pub struct XLibError {
    pub error_code: u8,
}

/// The step of context creation that failed.
#[derive(Clone, Copy, Debug, PartialEq, Eq, Structural)]
pub enum CreationFailedError {
    /// No framebuffer configuration or pixel format matches the request.
    InvalidFBConfig,
    /// A required extension function could not be resolved.
    GetProcAddressFailed,
    /// The new context could not be bound or released.
    MakeCurrentFailed,
    /// The native call that makes the context, or an object it needs,
    /// returned null.
    ContextCreationFailed,
    /// The X server reported a protocol error.
    X11Error(XLibError),
}

/// What a caller of this library can be told went wrong.
#[derive(Clone, Copy, Debug, PartialEq, Eq, Structural)]
pub enum GlError {
    /// The window handle is of another platform, or a field it must carry is
    /// null.
    InvalidWindowHandle,
    CreationFailed(CreationFailedError),
}

impl From<XLibError> for GlError {
    fn from(e: XLibError) -> (r: GlError) {
        GlError::CreationFailed(CreationFailedError::X11Error(e))
    }
}

impl vstd::std_specs::convert::FromSpecImpl<XLibError> for GlError {
    open spec fn obeys_from_spec() -> bool {
        true
    }

    open spec fn from_spec(e: XLibError) -> GlError {
        GlError::CreationFailed(CreationFailedError::X11Error(e))
    }
}

} // verus!
