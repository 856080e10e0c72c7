//! The WGL backend.
//!
//! The entry point that creates a context with attributes is itself an
//! extension function, and extension functions resolve only while some
//! context is current. So creation has two phases: a throw-away window with a
//! legacy context, made current just long enough to resolve that entry point,
//! and then the context proper on the caller's window.

use vstd::prelude::*;
use crate::config::{GlConfig, Profile};
use crate::error::{CreationFailedError, GlError};
use crate::handle::{Platform, WindowHandle};
use crate::native::{ContextState, Reply, ThreadBinding};

verus! {

pub const PFD_DOUBLEBUFFER: u32 = 0x1;
pub const PFD_DRAW_TO_WINDOW: u32 = 0x4;
pub const PFD_SUPPORT_OPENGL: u32 = 0x20;
pub const PFD_TYPE_RGBA: u8 = 0;
pub const PFD_MAIN_PLANE: u8 = 0;
pub const WGL_CONTEXT_MAJOR_VERSION_ARB: i32 = 0x2091;
pub const WGL_CONTEXT_MINOR_VERSION_ARB: i32 = 0x2092;
pub const WGL_CONTEXT_PROFILE_MASK_ARB: i32 = 0x9126;
pub const WGL_CONTEXT_CORE_PROFILE_BIT_ARB: i32 = 0x1;
pub const WGL_CONTEXT_COMPATIBILITY_PROFILE_BIT_ARB: i32 = 0x2;

/// The class of the throw-away window.
pub const WINDOW_CLASS: &'static str = "raw-gl-context-window";

/// The name of the entry point that creates a context with attributes.
pub const CREATE_CONTEXT_ATTRIBS: &'static str = "wglCreateContextAttribsARB";

/// The system's GL library, which exports the functions that the resolver of
/// extension functions does not know.
pub const GL_LIBRARY: &'static str = "opengl32.dll";

/// The fields of a pixel format descriptor that creation fills in; the
/// driver leaves the others at zero, but for the size and the version 1.
#[derive(Clone, Copy, Debug, PartialEq, Eq, Structural)]
pub struct PixelFormat {
    pub flags: u32,
    pub pixel_type: u8,
    pub color_bits: u8,
    pub alpha_bits: u8,
    pub depth_bits: u8,
    pub stencil_bits: u8,
    pub layer_type: u8,
}

/// The pixel format of the throw-away window: 32 bits of colour, 8 of alpha,
/// 24 of depth, 8 of stencil, double-buffered.
pub open spec fn legacy_pixel_format_of() -> PixelFormat {
    PixelFormat {
        flags: 0x25,
        pixel_type: PFD_TYPE_RGBA,
        color_bits: 32,
        alpha_bits: 8,
        depth_bits: 24,
        stencil_bits: 8,
        layer_type: PFD_MAIN_PLANE,
    }
}

/// The pixel format asked for the caller's window. Depth, stencil and double
/// buffering follow `config`; the colour depth is fixed at 32 bits, and alpha,
/// multisampling and sRGB are not asked for through a descriptor.
pub open spec fn pixel_format_of(config: GlConfig) -> PixelFormat {
    PixelFormat {
        flags: if config.double_buffer { 0x25u32 } else { 0x24u32 },
        pixel_type: PFD_TYPE_RGBA,
        color_bits: 32,
        alpha_bits: 0,
        depth_bits: config.depth_bits,
        stencil_bits: config.stencil_bits,
        layer_type: PFD_MAIN_PLANE,
    }
}

/// The bit that stands for `profile` in a context's profile mask.
pub open spec fn profile_mask_of(profile: Profile) -> i32 {
    match profile {
        Profile::Core => WGL_CONTEXT_CORE_PROFILE_BIT_ARB,
        Profile::Compatibility => WGL_CONTEXT_COMPATIBILITY_PROFILE_BIT_ARB,
    }
}

/// The attribute list of the context that `config` asks for: its version and
/// its profile, closed by 0.
pub open spec fn ctx_attribs_of(config: GlConfig) -> Seq<i32> {
    seq![
        WGL_CONTEXT_MAJOR_VERSION_ARB, config.version.0 as i32,
        WGL_CONTEXT_MINOR_VERSION_ARB, config.version.1 as i32,
        WGL_CONTEXT_PROFILE_MASK_ARB, profile_mask_of(config.profile),
        0i32,
    ]
}

/// Builds the descriptor that [`legacy_pixel_format_of`] describes.
pub fn legacy_pixel_format() -> (r: PixelFormat)
    ensures
        r == legacy_pixel_format_of(),
        r.flags == PFD_DRAW_TO_WINDOW | PFD_SUPPORT_OPENGL | PFD_DOUBLEBUFFER,
{
    assert(0x4u32 | 0x20u32 | 0x1u32 == 0x25u32) by (bit_vector);
    PixelFormat {
        flags: 0x25,
        pixel_type: PFD_TYPE_RGBA,
        color_bits: 32,
        alpha_bits: 8,
        depth_bits: 24,
        stencil_bits: 8,
        layer_type: PFD_MAIN_PLANE,
    }
}

/// Builds the descriptor that [`pixel_format_of`] describes.
pub fn pixel_format(config: &GlConfig) -> (r: PixelFormat)
    ensures
        r == pixel_format_of(*config),
        config.double_buffer ==> r.flags == PFD_DRAW_TO_WINDOW | PFD_SUPPORT_OPENGL
            | PFD_DOUBLEBUFFER,
        !config.double_buffer ==> r.flags == PFD_DRAW_TO_WINDOW | PFD_SUPPORT_OPENGL,
{
    assert(0x4u32 | 0x20u32 | 0x1u32 == 0x25u32) by (bit_vector);
    assert(0x4u32 | 0x20u32 == 0x24u32) by (bit_vector);
    PixelFormat {
        flags: if config.double_buffer { 0x25 } else { 0x24 },
        pixel_type: PFD_TYPE_RGBA,
        color_bits: 32,
        alpha_bits: 0,
        depth_bits: config.depth_bits,
        stencil_bits: config.stencil_bits,
        layer_type: PFD_MAIN_PLANE,
    }
}

/// Builds the list that [`ctx_attribs_of`] describes.
pub fn ctx_attribs(config: &GlConfig) -> (r: Vec<i32>)
    ensures
        r@ == ctx_attribs_of(*config),
{
    let mask: i32 = match config.profile {
        Profile::Core => WGL_CONTEXT_CORE_PROFILE_BIT_ARB,
        Profile::Compatibility => WGL_CONTEXT_COMPATIBILITY_PROFILE_BIT_ARB,
    };
    let r = vec![
        WGL_CONTEXT_MAJOR_VERSION_ARB, config.version.0 as i32,
        WGL_CONTEXT_MINOR_VERSION_ARB, config.version.1 as i32,
        WGL_CONTEXT_PROFILE_MASK_ARB, mask,
        0,
    ];
    assert(r@ =~= ctx_attribs_of(*config));
    r
}

/// A native call that the driver is asked to perform. A handle or pointer
/// that a call returns is the `address` of the reply, an integer or boolean
/// its `status`.
#[derive(Clone, Copy, Debug, PartialEq, Eq, Structural)]
pub enum Call {
    /// Register the class [`WINDOW_CLASS`] of the throw-away window, with the
    /// default window procedure. The class may be registered already: the reply is not read.
    RegisterClass,
    /// Create the throw-away window, invisible and of that class.
    CreateWindow,
    GetDc { hwnd: usize },
    /// Choose a pixel format for [`legacy_pixel_format`] where `legacy`
    /// holds, and for [`pixel_format`] otherwise.
    ChoosePixelFormat { hdc: usize, legacy: bool },
    /// Set the pixel format `format`, chosen for the same descriptor.
    SetPixelFormat { hdc: usize, format: i32, legacy: bool },
    /// Create a legacy context.
    CreateContext { hdc: usize },
    /// Make `hglrc` current, or nothing where it is 0.
    MakeCurrent { hdc: usize, hglrc: usize },
    /// Resolve the entry point [`CREATE_CONTEXT_ATTRIBS`].
    ResolveCreateContextAttribs,
    /// Call that entry point, found at `entry`, with [`ctx_attribs`] and no
    /// context to share with.
    CreateContextAttribs { entry: usize, hdc: usize },
    /// Load [`GL_LIBRARY`].
    LoadLibrary,
    /// Free the library `module`, loaded by this context.
    FreeLibrary { module: usize },
    DeleteContext { hglrc: usize },
    ReleaseDc { hwnd: usize, hdc: usize },
    DestroyWindow { hwnd: usize },
    SwapBuffers { hdc: usize },
    /// Look the symbol up among the exports of the library `module`.
    GetProcAddress { module: usize },
}

/// The context that is current on a thread bound as `thread` once `call` has
/// been answered by `reply`. A context becomes current, and nothing does,
/// where the call that asks for it reports success; a context that is
/// deleted while current is current no more.
pub open spec fn binding_after_call(call: Call, reply: Reply, thread: ThreadBinding) -> ThreadBinding {
    match call {
        Call::MakeCurrent { hdc, hglrc } => if reply.status == 0 {
            thread
        } else if hglrc == 0 {
            thread.released()
        } else {
            thread.bound(hglrc)
        },
        Call::DeleteContext { hglrc } => if thread.current == Some(hglrc) {
            thread.released()
        } else {
            thread
        },
        _ => thread,
    }
}

/// Follows the binding of the calling thread over one native call.
pub fn follow(call: &Call, reply: &Reply, thread: &mut ThreadBinding)
    ensures
        *final(thread) == binding_after_call(*call, *reply, *old(thread)),
{
    match call {
        Call::MakeCurrent { hdc, hglrc } => {
            if reply.status != 0 {
                if *hglrc == 0 {
                    thread.current = None;
                } else {
                    thread.current = Some(*hglrc);
                }
            }
        },
        Call::DeleteContext { hglrc } => {
            let deleted_is_current = match thread.current {
                Some(c) => c == *hglrc,
                None => false,
            };
            if deleted_is_current {
                thread.current = None;
            }
        },
        _ => {},
    }
}

/// A context bound to the device context of a window, with the GL library
/// that symbols fall back to. The handle owns the library, the context and
/// the device context, acquired in the reverse of this order; the window is
/// the caller's. A handle cannot be duplicated, and is gone once
/// it is torn down.
#[derive(Debug, PartialEq, Eq, Structural)]
pub struct GlContext {
    pub hwnd: usize,
    pub hdc: usize,
    pub hglrc: usize,
    pub gl_library: usize,
}

/// How far the creation of a context has come.
#[derive(Clone, Copy, Debug, PartialEq, Eq, Structural)]
pub enum Stage {
    RegisteringClass,
    CreatingWindow,
    GettingTmpDc,
    ChoosingTmpFormat,
    SettingTmpFormat,
    CreatingTmpContext,
    BindingTmp,
    Resolving,
    /// Releasing what is held and no longer needed, last acquired first.
    Dismantling,
    GettingDc,
    ChoosingFormat,
    SettingFormat,
    CreatingContext,
    LoadingLibrary,
}

/// A creation under way. A handle that is 0 is not held. `failure` holds the
/// reason once the creation has failed and only releases what it holds.
#[derive(Clone, Copy, Debug, PartialEq, Eq)]
pub struct Negotiation {
    pub hwnd: usize,
    pub config: GlConfig,
    pub stage: Stage,
    pub tmp_hwnd: usize,
    pub tmp_hdc: usize,
    pub tmp_hglrc: usize,
    pub tmp_bound: bool,
    pub entry: usize,
    pub hdc: usize,
    pub hglrc: usize,
    pub format: i32,
    pub failure: Option<CreationFailedError>,
}

/// Where a creation stands after a reply.
#[derive(Debug, PartialEq, Eq)]
pub enum Progress {
    Pending(Negotiation),
    Finished(Result<GlContext, GlError>),
}

impl Negotiation {
    /// The creation at another stage.
    pub open spec fn at(self, stage: Stage) -> Negotiation {
        Negotiation { stage, ..self }
    }

    /// The release that comes next while dismantling, if anything is left to
    /// release: the throw-away context is unbound, deleted, its device context
    /// released and its window destroyed; after a failure the context proper
    /// and its device context go too.
    pub open spec fn release_of(self) -> Option<Call> {
        if self.tmp_bound {
            Some(Call::MakeCurrent { hdc: self.tmp_hdc, hglrc: 0 })
        } else if self.tmp_hglrc != 0 {
            Some(Call::DeleteContext { hglrc: self.tmp_hglrc })
        } else if self.tmp_hdc != 0 {
            Some(Call::ReleaseDc { hwnd: self.tmp_hwnd, hdc: self.tmp_hdc })
        } else if self.tmp_hwnd != 0 {
            Some(Call::DestroyWindow { hwnd: self.tmp_hwnd })
        } else if self.failure is Some && self.hglrc != 0 {
            Some(Call::DeleteContext { hglrc: self.hglrc })
        } else if self.failure is Some && self.hdc != 0 {
            Some(Call::ReleaseDc { hwnd: self.hwnd, hdc: self.hdc })
        } else {
            None
        }
    }

    /// The creation once the release that [`Negotiation::release_of`] names
    /// has been made.
    pub open spec fn let_go(self) -> Negotiation {
        if self.tmp_bound {
            Negotiation { tmp_bound: false, ..self }
        } else if self.tmp_hglrc != 0 {
            Negotiation { tmp_hglrc: 0, ..self }
        } else if self.tmp_hdc != 0 {
            Negotiation { tmp_hdc: 0, ..self }
        } else if self.tmp_hwnd != 0 {
            Negotiation { tmp_hwnd: 0, ..self }
        } else if self.failure is Some && self.hglrc != 0 {
            Negotiation { hglrc: 0, ..self }
        } else if self.failure is Some && self.hdc != 0 {
            Negotiation { hdc: 0, ..self }
        } else {
            self
        }
    }

    /// Where a creation stands that may have nothing left to release: it
    /// fails with its reason, or goes on to the caller's window.
    pub open spec fn resumed(self) -> Progress {
        if self.stage == Stage::Dismantling && self.release_of() is None {
            match self.failure {
                Some(reason) => Progress::Finished(Err(GlError::CreationFailed(reason))),
                None => Progress::Pending(self.at(Stage::GettingDc)),
            }
        } else {
            Progress::Pending(self)
        }
    }

    /// Where the creation stands once it has failed for `reason`.
    pub open spec fn failed(self, reason: CreationFailedError) -> Progress {
        Negotiation { failure: Some(reason), stage: Stage::Dismantling, ..self }.resumed()
    }

    /// The native call that the creation waits for. A creation that is
    /// dismantling waits for its next release; it is never left in that stage
    /// with nothing to release.
    pub open spec fn call_of(self) -> Call {
        match self.stage {
            Stage::RegisteringClass => Call::RegisterClass,
            Stage::CreatingWindow => Call::CreateWindow,
            Stage::GettingTmpDc => Call::GetDc { hwnd: self.tmp_hwnd },
            Stage::ChoosingTmpFormat => Call::ChoosePixelFormat { hdc: self.tmp_hdc, legacy: true },
            Stage::SettingTmpFormat => Call::SetPixelFormat {
                hdc: self.tmp_hdc,
                format: self.format,
                legacy: true,
            },
            Stage::CreatingTmpContext => Call::CreateContext { hdc: self.tmp_hdc },
            Stage::BindingTmp => Call::MakeCurrent { hdc: self.tmp_hdc, hglrc: self.tmp_hglrc },
            Stage::Resolving => Call::ResolveCreateContextAttribs,
            Stage::Dismantling => match self.release_of() {
                Some(call) => call,
                None => Call::RegisterClass,
            },
            Stage::GettingDc => Call::GetDc { hwnd: self.hwnd },
            Stage::ChoosingFormat => Call::ChoosePixelFormat { hdc: self.hdc, legacy: false },
            Stage::SettingFormat => Call::SetPixelFormat {
                hdc: self.hdc,
                format: self.format,
                legacy: false,
            },
            Stage::CreatingContext => Call::CreateContextAttribs { entry: self.entry, hdc: self.hdc },
            Stage::LoadingLibrary => Call::LoadLibrary,
        }
    }

    /// The context that a creation which has come through hands out.
    pub open spec fn made(self, gl_library: usize) -> GlContext {
        GlContext { hwnd: self.hwnd, hdc: self.hdc, hglrc: self.hglrc, gl_library }
    }

    /// Where the creation stands once the call it waited for has been
    /// answered by `reply`.
    ///
    /// A native call that returns a null handle, no pixel format or failure
    /// ends the creation: a window, a device context, a context or the
    /// library that is null with `ContextCreationFailed`, a pixel format that
    /// cannot be chosen or set with `InvalidFBConfig`, a binding that is
    /// refused with `MakeCurrentFailed`, an entry point that is not found
    /// with `GetProcAddressFailed`. What the creation holds by then is
    /// released first. The replies to releases are not read.
    pub open spec fn step(self, reply: Reply) -> Progress {
        match self.stage {
            Stage::RegisteringClass => Progress::Pending(self.at(Stage::CreatingWindow)),
            Stage::CreatingWindow => if reply.address == 0 {
                self.failed(CreationFailedError::ContextCreationFailed)
            } else {
                Progress::Pending(
                    Negotiation { tmp_hwnd: reply.address, ..self }.at(Stage::GettingTmpDc),
                )
            },
            Stage::GettingTmpDc => if reply.address == 0 {
                self.failed(CreationFailedError::ContextCreationFailed)
            } else {
                Progress::Pending(
                    Negotiation { tmp_hdc: reply.address, ..self }.at(Stage::ChoosingTmpFormat),
                )
            },
            Stage::ChoosingTmpFormat => if reply.status == 0 {
                self.failed(CreationFailedError::InvalidFBConfig)
            } else {
                Progress::Pending(
                    Negotiation { format: reply.status, ..self }.at(Stage::SettingTmpFormat),
                )
            },
            Stage::SettingTmpFormat => if reply.status == 0 {
                self.failed(CreationFailedError::InvalidFBConfig)
            } else {
                Progress::Pending(self.at(Stage::CreatingTmpContext))
            },
            Stage::CreatingTmpContext => if reply.address == 0 {
                self.failed(CreationFailedError::ContextCreationFailed)
            } else {
                Progress::Pending(
                    Negotiation { tmp_hglrc: reply.address, ..self }.at(Stage::BindingTmp),
                )
            },
            Stage::BindingTmp => if reply.status == 0 {
                self.failed(CreationFailedError::MakeCurrentFailed)
            } else {
                Progress::Pending(Negotiation { tmp_bound: true, ..self }.at(Stage::Resolving))
            },
            Stage::Resolving => if reply.address == 0 {
                self.failed(CreationFailedError::GetProcAddressFailed)
            } else {
                Negotiation { entry: reply.address, ..self }.at(Stage::Dismantling).resumed()
            },
            Stage::Dismantling => self.let_go().resumed(),
            Stage::GettingDc => if reply.address == 0 {
                self.failed(CreationFailedError::ContextCreationFailed)
            } else {
                Progress::Pending(
                    Negotiation { hdc: reply.address, ..self }.at(Stage::ChoosingFormat),
                )
            },
            Stage::ChoosingFormat => if reply.status == 0 {
                self.failed(CreationFailedError::InvalidFBConfig)
            } else {
                Progress::Pending(
                    Negotiation { format: reply.status, ..self }.at(Stage::SettingFormat),
                )
            },
            Stage::SettingFormat => if reply.status == 0 {
                self.failed(CreationFailedError::InvalidFBConfig)
            } else {
                Progress::Pending(self.at(Stage::CreatingContext))
            },
            Stage::CreatingContext => if reply.address == 0 {
                self.failed(CreationFailedError::ContextCreationFailed)
            } else {
                Progress::Pending(
                    Negotiation { hglrc: reply.address, ..self }.at(Stage::LoadingLibrary),
                )
            },
            Stage::LoadingLibrary => if reply.address == 0 {
                self.failed(CreationFailedError::ContextCreationFailed)
            } else {
                Progress::Finished(Ok(self.made(reply.address)))
            },
        }
    }

    /// Computes [`Negotiation::release_of`].
    fn release(&self) -> (r: Option<Call>)
        ensures
            r == self.release_of(),
    {
        if self.tmp_bound {
            Some(Call::MakeCurrent { hdc: self.tmp_hdc, hglrc: 0 })
        } else if self.tmp_hglrc != 0 {
            Some(Call::DeleteContext { hglrc: self.tmp_hglrc })
        } else if self.tmp_hdc != 0 {
            Some(Call::ReleaseDc { hwnd: self.tmp_hwnd, hdc: self.tmp_hdc })
        } else if self.tmp_hwnd != 0 {
            Some(Call::DestroyWindow { hwnd: self.tmp_hwnd })
        } else if self.failure.is_some() && self.hglrc != 0 {
            Some(Call::DeleteContext { hglrc: self.hglrc })
        } else if self.failure.is_some() && self.hdc != 0 {
            Some(Call::ReleaseDc { hwnd: self.hwnd, hdc: self.hdc })
        } else {
            None
        }
    }

    /// Computes [`Negotiation::resumed`].
    fn resume(self) -> (r: Progress)
        ensures
            r == self.resumed(),
    {
        let dismantling = match self.stage {
            Stage::Dismantling => true,
            _ => false,
        };
        if dismantling && self.release().is_none() {
            match self.failure {
                Some(reason) => Progress::Finished(Err(GlError::CreationFailed(reason))),
                None => {
                    let mut next = self;
                    next.stage = Stage::GettingDc;
                    Progress::Pending(next)
                },
            }
        } else {
            Progress::Pending(self)
        }
    }

    /// Computes [`Negotiation::failed`].
    fn fail(self, reason: CreationFailedError) -> (r: Progress)
        ensures
            r == self.failed(reason),
    {
        let mut next = self;
        next.failure = Some(reason);
        next.stage = Stage::Dismantling;
        next.resume()
    }

    /// Moves the creation on to `stage`.
    fn proceed(self, stage: Stage) -> (r: Progress)
        ensures
            r == Progress::Pending(self.at(stage)),
    {
        let mut next = self;
        next.stage = stage;
        Progress::Pending(next)
    }

    /// The native call to perform next.
    pub fn call(&self) -> (r: Call)
        ensures
            r == self.call_of(),
    {
        match self.stage {
            Stage::RegisteringClass => Call::RegisterClass,
            Stage::CreatingWindow => Call::CreateWindow,
            Stage::GettingTmpDc => Call::GetDc { hwnd: self.tmp_hwnd },
            Stage::ChoosingTmpFormat => Call::ChoosePixelFormat { hdc: self.tmp_hdc, legacy: true },
            Stage::SettingTmpFormat => Call::SetPixelFormat {
                hdc: self.tmp_hdc,
                format: self.format,
                legacy: true,
            },
            Stage::CreatingTmpContext => Call::CreateContext { hdc: self.tmp_hdc },
            Stage::BindingTmp => Call::MakeCurrent { hdc: self.tmp_hdc, hglrc: self.tmp_hglrc },
            Stage::Resolving => Call::ResolveCreateContextAttribs,
            Stage::Dismantling => match self.release() {
                Some(call) => call,
                None => Call::RegisterClass,
            },
            Stage::GettingDc => Call::GetDc { hwnd: self.hwnd },
            Stage::ChoosingFormat => Call::ChoosePixelFormat { hdc: self.hdc, legacy: false },
            Stage::SettingFormat => Call::SetPixelFormat {
                hdc: self.hdc,
                format: self.format,
                legacy: false,
            },
            Stage::CreatingContext => Call::CreateContextAttribs { entry: self.entry, hdc: self.hdc },
            Stage::LoadingLibrary => Call::LoadLibrary,
        }
    }

    /// Takes the reply to the call that [`Negotiation::call`] asked for, and
    /// follows the binding of the calling thread.
    pub fn advance(self, reply: Reply, thread: &mut ThreadBinding) -> (r: Progress)
        ensures
            r == self.step(reply),
            *final(thread) == binding_after_call(self.call_of(), reply, *old(thread)),
    {
        let call = self.call();
        follow(&call, &reply, thread);
        let mut next = self;
        match self.stage {
            Stage::RegisteringClass => self.proceed(Stage::CreatingWindow),
            Stage::CreatingWindow => if reply.address == 0 {
                self.fail(CreationFailedError::ContextCreationFailed)
            } else {
                next.tmp_hwnd = reply.address;
                next.proceed(Stage::GettingTmpDc)
            },
            Stage::GettingTmpDc => if reply.address == 0 {
                self.fail(CreationFailedError::ContextCreationFailed)
            } else {
                next.tmp_hdc = reply.address;
                next.proceed(Stage::ChoosingTmpFormat)
            },
            Stage::ChoosingTmpFormat => if reply.status == 0 {
                self.fail(CreationFailedError::InvalidFBConfig)
            } else {
                next.format = reply.status;
                next.proceed(Stage::SettingTmpFormat)
            },
            Stage::SettingTmpFormat => if reply.status == 0 {
                self.fail(CreationFailedError::InvalidFBConfig)
            } else {
                self.proceed(Stage::CreatingTmpContext)
            },
            Stage::CreatingTmpContext => if reply.address == 0 {
                self.fail(CreationFailedError::ContextCreationFailed)
            } else {
                next.tmp_hglrc = reply.address;
                next.proceed(Stage::BindingTmp)
            },
            Stage::BindingTmp => if reply.status == 0 {
                self.fail(CreationFailedError::MakeCurrentFailed)
            } else {
                next.tmp_bound = true;
                next.proceed(Stage::Resolving)
            },
            Stage::Resolving => if reply.address == 0 {
                self.fail(CreationFailedError::GetProcAddressFailed)
            } else {
                next.entry = reply.address;
                next.stage = Stage::Dismantling;
                next.resume()
            },
            Stage::Dismantling => {
                if self.tmp_bound {
                    next.tmp_bound = false;
                } else if self.tmp_hglrc != 0 {
                    next.tmp_hglrc = 0;
                } else if self.tmp_hdc != 0 {
                    next.tmp_hdc = 0;
                } else if self.tmp_hwnd != 0 {
                    next.tmp_hwnd = 0;
                } else if self.failure.is_some() && self.hglrc != 0 {
                    next.hglrc = 0;
                } else if self.failure.is_some() && self.hdc != 0 {
                    next.hdc = 0;
                }
                next.resume()
            },
            Stage::GettingDc => if reply.address == 0 {
                self.fail(CreationFailedError::ContextCreationFailed)
            } else {
                next.hdc = reply.address;
                next.proceed(Stage::ChoosingFormat)
            },
            Stage::ChoosingFormat => if reply.status == 0 {
                self.fail(CreationFailedError::InvalidFBConfig)
            } else {
                next.format = reply.status;
                next.proceed(Stage::SettingFormat)
            },
            Stage::SettingFormat => if reply.status == 0 {
                self.fail(CreationFailedError::InvalidFBConfig)
            } else {
                self.proceed(Stage::CreatingContext)
            },
            Stage::CreatingContext => if reply.address == 0 {
                self.fail(CreationFailedError::ContextCreationFailed)
            } else {
                next.hglrc = reply.address;
                next.proceed(Stage::LoadingLibrary)
            },
            Stage::LoadingLibrary => if reply.address == 0 {
                self.fail(CreationFailedError::ContextCreationFailed)
            } else {
                Progress::Finished(
                    Ok(
                        GlContext {
                            hwnd: self.hwnd,
                            hdc: self.hdc,
                            hglrc: self.hglrc,
                            gl_library: reply.address,
                        },
                    ),
                )
            },
        }
    }
}

/// What beginning a creation for `handle` gives: a creation that holds
/// nothing and waits for the window class to be registered, or the rejection
/// of the handle.
pub open spec fn begun(handle: WindowHandle, config: GlConfig) -> Result<Negotiation, GlError> {
    match handle {
        WindowHandle::Windows { hwnd } if hwnd != 0 => Ok(
            Negotiation {
                hwnd,
                config,
                stage: Stage::RegisteringClass,
                tmp_hwnd: 0,
                tmp_hdc: 0,
                tmp_hglrc: 0,
                tmp_bound: false,
                entry: 0,
                hdc: 0,
                hglrc: 0,
                format: 0,
                failure: None,
            },
        ),
        _ => Err(GlError::InvalidWindowHandle),
    }
}

/// Where a symbol is found.
#[derive(Clone, Copy, Debug, PartialEq, Eq, Structural)]
pub enum Resolution {
    /// At this address.
    Found(usize),
    /// Among the exports of the GL library, if anywhere: the driver makes
    /// the call held, and null from there is the answer.
    AskLibrary(Call),
}

impl GlContext {
    /// Begins the creation of a context for the window `handle`.
    ///
    /// A handle of another window system, or one whose window is null, is
    /// rejected here, before any native call is asked for.
    pub fn create(handle: &WindowHandle, config: GlConfig) -> (r: Result<Negotiation, GlError>)
        ensures
            r == begun(*handle, config),
            r is Ok <==> handle.usable_on(Platform::Windows),
            r is Err ==> r == Err::<Negotiation, GlError>(GlError::InvalidWindowHandle),
    {
        match handle {
            WindowHandle::Windows { hwnd } => {
                if *hwnd == 0 {
                    return Err(GlError::InvalidWindowHandle);
                }
                Ok(
                    Negotiation {
                        hwnd: *hwnd,
                        config,
                        stage: Stage::RegisteringClass,
                        tmp_hwnd: 0,
                        tmp_hdc: 0,
                        tmp_hglrc: 0,
                        tmp_bound: false,
                        entry: 0,
                        hdc: 0,
                        hglrc: 0,
                        format: 0,
                        failure: None,
                    },
                )
            },
            _ => Err(GlError::InvalidWindowHandle),
        }
    }

    /// The call that makes the context current on the calling thread.
    pub fn make_current(&self) -> (r: Call)
        ensures
            r == (Call::MakeCurrent { hdc: self.hdc, hglrc: self.hglrc }),
    {
        Call::MakeCurrent { hdc: self.hdc, hglrc: self.hglrc }
    }

    /// The call that makes nothing current on the calling thread.
    pub fn make_not_current(&self) -> (r: Call)
        ensures
            r == (Call::MakeCurrent { hdc: self.hdc, hglrc: 0 }),
    {
        Call::MakeCurrent { hdc: self.hdc, hglrc: 0 }
    }

    /// The call that presents the back buffer.
    pub fn swap_buffers(&self) -> (r: Call)
        ensures
            r == (Call::SwapBuffers { hdc: self.hdc }),
    {
        Call::SwapBuffers { hdc: self.hdc }
    }

    /// Where a symbol is found, from what the resolver of extension functions
    /// answered for it. That resolver knows nothing of the functions that GL
    /// has had since version 1.1: where it answers null, the library is asked.
    pub fn get_proc_address(&self, from_extensions: usize) -> (r: Resolution)
        ensures
            from_extensions != 0 ==> r == Resolution::Found(from_extensions),
            from_extensions == 0 ==> r == Resolution::AskLibrary(
                Call::GetProcAddress { module: self.gl_library },
            ),
    {
        if from_extensions != 0 {
            Resolution::Found(from_extensions)
        } else {
            Resolution::AskLibrary(Call::GetProcAddress { module: self.gl_library })
        }
    }

    /// The releases that dropping the handle takes, in order.
    pub open spec fn teardown_of(self) -> Seq<Call> {
        seq![
            Call::MakeCurrent { hdc: 0, hglrc: 0 },
            Call::FreeLibrary { module: self.gl_library },
            Call::DeleteContext { hglrc: self.hglrc },
            Call::ReleaseDc { hwnd: self.hwnd, hdc: self.hdc },
        ]
    }

    /// The native calls that release what the handle owns, in the order in
    /// which to make them: whatever is current on the thread is detached,
    /// whether or not it is this context; then what the handle owns goes,
    /// last acquired first: the library is freed, the context is deleted,
    /// the device context is released. Each is named once, and nothing else
    /// is released.
    pub fn teardown(self) -> (r: Vec<Call>)
        ensures
            r@ == self.teardown_of(),
    {
        let r = vec![
            Call::MakeCurrent { hdc: 0, hglrc: 0 },
            Call::FreeLibrary { module: self.gl_library },
            Call::DeleteContext { hglrc: self.hglrc },
            Call::ReleaseDc { hwnd: self.hwnd, hdc: self.hdc },
        ];
        assert(r@ =~= self.teardown_of());
        r
    }
}

/// The stages on the caller's window.
pub open spec fn after_bootstrap(stage: Stage) -> bool {
    stage == Stage::GettingDc || stage == Stage::ChoosingFormat || stage == Stage::SettingFormat
        || stage == Stage::CreatingContext || stage == Stage::LoadingLibrary
}

/// What holds between a creation that has not failed and the thread it runs
/// on: while the throw-away context is bound it is the one current; while it
/// is dismantled nothing else is; and once the creation has turned to the
/// caller's window nothing is current at all.
pub open spec fn in_step(negotiation: Negotiation, thread: ThreadBinding) -> bool {
    &&& negotiation.stage == Stage::Resolving ==> negotiation.tmp_bound
    &&& negotiation.stage == Stage::BindingTmp ==> negotiation.tmp_hglrc != 0
    &&& negotiation.tmp_bound ==> (negotiation.stage == Stage::Resolving || negotiation.stage
        == Stage::Dismantling) && negotiation.tmp_hglrc != 0 && thread.current == Some(
        negotiation.tmp_hglrc,
    )
    &&& negotiation.stage == Stage::Dismantling && negotiation.failure is None
        && !negotiation.tmp_bound ==> thread.current is None || (negotiation.tmp_hglrc != 0
        && thread.current == Some(negotiation.tmp_hglrc))
    &&& after_bootstrap(negotiation.stage) ==> thread.current is None && negotiation.failure
        is None
    &&& negotiation.stage != Stage::Dismantling ==> negotiation.failure is None
}

/// A creation that has just begun is in step with any thread.
pub proof fn lemma_creation_begins_in_step(
    handle: WindowHandle,
    config: GlConfig,
    thread: ThreadBinding,
)
    ensures
        begun(handle, config) matches Ok(negotiation) ==> in_step(negotiation, thread),
{
}

/// Every reply keeps a creation in step with its thread, and a creation that
/// succeeds hands out a context of the window it was begun for and leaves
/// nothing current on the thread: the new context is not current.
pub proof fn lemma_created_is_not_current(
    negotiation: Negotiation,
    reply: Reply,
    thread: ThreadBinding,
)
    requires
        in_step(negotiation, thread),
    ensures
        match negotiation.step(reply) {
            Progress::Pending(next) => in_step(
                next,
                binding_after_call(negotiation.call_of(), reply, thread),
            ) && next.hwnd == negotiation.hwnd,
            Progress::Finished(Ok(made)) => binding_after_call(
                negotiation.call_of(),
                reply,
                thread,
            ).state_of(made.hglrc) == ContextState::NotCurrent && made.hwnd == negotiation.hwnd,
            Progress::Finished(Err(_)) => true,
        },
{
}

/// Making a context current and not current again, with calls that report
/// success, binds it to the thread and releases it.
pub proof fn lemma_binding_follows_calls(context: GlContext, reply: Reply, thread: ThreadBinding)
    requires
        context.hglrc != 0,
        reply.status != 0,
    ensures
        binding_after_call(
            Call::MakeCurrent { hdc: context.hdc, hglrc: context.hglrc },
            reply,
            thread,
        ) == thread.bound(context.hglrc),
        binding_after_call(Call::MakeCurrent { hdc: context.hdc, hglrc: 0 }, reply, thread)
            == thread.released(),
{
}

/// Whether `call` releases a resource, as against binding or detaching.
pub open spec fn releases(call: Call) -> bool {
    call is FreeLibrary || call is DeleteContext || call is ReleaseDc || call is DestroyWindow
}

/// The binding of a thread after the calls `calls`, answered by `replies`.
pub open spec fn binding_after_calls(calls: Seq<Call>, replies: Seq<Reply>, thread: ThreadBinding) -> ThreadBinding
    decreases calls.len(),
{
    if calls.len() == 0 || replies.len() == 0 {
        thread
    } else {
        binding_after_calls(
            calls.drop_first(),
            replies.drop_first(),
            binding_after_call(calls[0], replies[0], thread),
        )
    }
}

/// Dropping a handle detaches whatever is current and then releases the
/// library, the context and the device context that the handle owns, once
/// each, last acquired first, and nothing besides. The context is not current
/// afterwards, whether or not it was ever made current and whatever the
/// native calls answer.
pub proof fn lemma_teardown_releases_once(context: GlContext, replies: Seq<Reply>, thread: ThreadBinding)
    requires
        replies.len() == 4,
    ensures
        context.teardown_of().len() == 4,
        !releases(context.teardown_of()[0]),
        context.teardown_of()[1] == (Call::FreeLibrary { module: context.gl_library }),
        context.teardown_of()[2] == (Call::DeleteContext { hglrc: context.hglrc }),
        context.teardown_of()[3] == (Call::ReleaseDc { hwnd: context.hwnd, hdc: context.hdc }),
        binding_after_calls(context.teardown_of(), replies, thread).state_of(context.hglrc)
            == ContextState::NotCurrent,
{
    reveal_with_fuel(binding_after_calls, 5);
}

/// Where `progress` stands after one more reply: a creation that has
/// finished reads no reply.
pub open spec fn then(progress: Progress, reply: Reply) -> Progress {
    match progress {
        Progress::Pending(negotiation) => negotiation.step(reply),
        finished => finished,
    }
}

/// Where `progress` stands after the replies `replies`, in order.
pub open spec fn ran(progress: Progress, replies: Seq<Reply>) -> Progress
    decreases replies.len(),
{
    if replies.len() == 0 {
        progress
    } else {
        ran(then(progress, replies[0]), replies.drop_first())
    }
}

/// The context that is current on the thread after the replies `replies`
/// to a creation that stands at `progress`.
pub open spec fn bound_after(progress: Progress, replies: Seq<Reply>, thread: ThreadBinding) -> ThreadBinding
    decreases replies.len(),
{
    if replies.len() == 0 {
        thread
    } else {
        bound_after(
            then(progress, replies[0]),
            replies.drop_first(),
            match progress {
                Progress::Pending(waiting) => binding_after_call(
                    waiting.call_of(),
                    replies[0],
                    thread,
                ),
                _ => thread,
            },
        )
    }
}

/// Whether `replies` are those of a creation in which every native call
/// that acquires something does what it is asked: the handles are not null,
/// the pixel formats are chosen and set, and the throw-away context is
/// bound. Nothing is asked of the replies to releases.
pub open spec fn all_succeed(replies: Seq<Reply>) -> bool {
    &&& replies.len() == 17
    &&& replies[1].address != 0
    &&& replies[2].address != 0
    &&& replies[3].status != 0
    &&& replies[4].status != 0
    &&& replies[5].address != 0
    &&& replies[6].status != 0
    &&& replies[7].address != 0
    &&& replies[12].address != 0
    &&& replies[13].status != 0
    &&& replies[14].status != 0
    &&& replies[15].address != 0
    &&& replies[16].address != 0
}

/// A creation in which every native call does what it is asked takes
/// seventeen calls and hands out the context that the entry point made, on
/// the device context of the caller's window, with the library that was
/// loaded. Nothing is current on the thread by then, whatever was before:
/// the new context is not current.
pub proof fn lemma_creation_succeeds(
    hwnd: usize,
    config: GlConfig,
    replies: Seq<Reply>,
    thread: ThreadBinding,
)
    requires
        hwnd != 0,
        all_succeed(replies),
    ensures
        ({
            &&& begun(WindowHandle::Windows { hwnd }, config) matches Ok(negotiation)
            &&& ran(Progress::Pending(negotiation), replies) == Progress::Finished(
                Ok(
                    GlContext {
                        hwnd,
                        hdc: replies[12].address,
                        hglrc: replies[15].address,
                        gl_library: replies[16].address,
                    },
                ),
            )
            &&& bound_after(Progress::Pending(negotiation), replies, thread).current is None
            &&& bound_after(Progress::Pending(negotiation), replies, thread).state_of(
                replies[15].address,
            ) == ContextState::NotCurrent
        }),
{
    reveal_with_fuel(ran, 18);
    reveal_with_fuel(bound_after, 18);
}

/// 1 where `held` holds, 0 where not.
pub open spec fn one_if(held: bool) -> nat {
    if held { 1 } else { 0 }
}

/// The number of handles that a creation holds, the binding of the
/// throw-away context counted as one.
pub open spec fn held(negotiation: Negotiation) -> nat {
    one_if(negotiation.tmp_bound) + one_if(negotiation.tmp_hglrc != 0) + one_if(
        negotiation.tmp_hdc != 0,
    ) + one_if(negotiation.tmp_hwnd != 0) + one_if(negotiation.hglrc != 0) + one_if(
        negotiation.hdc != 0,
    )
}

/// A bound on the number of native calls that a creation can still ask for.
pub open spec fn calls_left(negotiation: Negotiation) -> nat {
    match negotiation.stage {
        Stage::RegisteringClass => 30,
        Stage::CreatingWindow => 29,
        Stage::GettingTmpDc => 28,
        Stage::ChoosingTmpFormat => 27,
        Stage::SettingTmpFormat => 26,
        Stage::CreatingTmpContext => 25,
        Stage::BindingTmp => 24,
        Stage::Resolving => 23,
        Stage::Dismantling => if negotiation.failure is None {
            16 + held(negotiation)
        } else {
            held(negotiation)
        },
        Stage::GettingDc => 15,
        Stage::ChoosingFormat => 14,
        Stage::SettingFormat => 13,
        Stage::CreatingContext => 12,
        Stage::LoadingLibrary => 11,
    }
}

/// A release leaves a creation with one handle less, and a creation never
/// holds more than six.
proof fn lemma_release_lets_go(negotiation: Negotiation)
    ensures
        held(negotiation) <= 6,
        negotiation.release_of() is Some ==> held(negotiation.let_go()) + 1 == held(negotiation),
        negotiation.release_of() is None ==> negotiation.let_go() == negotiation,
        negotiation.let_go().stage == negotiation.stage,
        negotiation.let_go().failure == negotiation.failure,
{
}

/// Every reply brings a creation nearer its end, whether it goes on or
/// releases what it holds: a driver that answers each call is done after
/// thirty of them at most.
pub proof fn lemma_creation_ends(negotiation: Negotiation, reply: Reply)
    ensures
        negotiation.step(reply) matches Progress::Pending(next) ==> calls_left(next) < calls_left(
            negotiation,
        ),
{
    lemma_release_lets_go(negotiation);
    if negotiation.stage == Stage::Dismantling {
        let next = negotiation.let_go();
        lemma_release_lets_go(next);
        assert(negotiation.step(reply) == next.resumed());
        if negotiation.release_of() is None {
            assert(next.resumed() !is Pending || next.resumed() == Progress::Pending(
                next.at(Stage::GettingDc),
            ));
        }
    } else {
        let failing = Negotiation {
            failure: negotiation.failure,
            stage: Stage::Dismantling,
            ..negotiation
        };
        assert(held(failing) == held(negotiation));
        let entered = Negotiation { entry: reply.address, ..negotiation }.at(Stage::Dismantling);
        assert(held(entered) == held(negotiation));
    }
}


/// Whether a creation that is dismantling has something left to release.
/// Where this holds, the call that the creation waits for is that release.
pub open spec fn has_work(negotiation: Negotiation) -> bool {
    negotiation.stage == Stage::Dismantling ==> negotiation.release_of() is Some
}

/// A creation never waits without a call to make: one that has just begun
/// has work, and every reply leaves it with work or ends it.
pub proof fn lemma_creation_has_work(
    handle: WindowHandle,
    config: GlConfig,
    negotiation: Negotiation,
    reply: Reply,
)
    ensures
        begun(handle, config) matches Ok(first) ==> has_work(first),
        negotiation.step(reply) matches Progress::Pending(next) ==> has_work(next),
{
}

} // verus!
