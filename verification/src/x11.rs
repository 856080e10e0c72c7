//! The GLX backend.

use vstd::prelude::*;
use crate::config::{flag, flag_value, GlConfig, Profile};
use crate::error::{CreationFailedError, GlError, XLibError};
use crate::handle::{Platform, WindowHandle};
use crate::native::{ContextState, Reply, ThreadBinding};
use crate::x11::errors::XErrorHandler;

pub mod errors;

verus! {

pub const GLX_X_RENDERABLE: i32 = 0x8012;
pub const GLX_X_VISUAL_TYPE: i32 = 0x22;
pub const GLX_TRUE_COLOR: i32 = 0x8002;
pub const GLX_DRAWABLE_TYPE: i32 = 0x8010;
pub const GLX_WINDOW_BIT: i32 = 0x1;
pub const GLX_RENDER_TYPE: i32 = 0x8011;
pub const GLX_RGBA_BIT: i32 = 0x1;
pub const GLX_RED_SIZE: i32 = 8;
pub const GLX_GREEN_SIZE: i32 = 9;
pub const GLX_BLUE_SIZE: i32 = 10;
pub const GLX_ALPHA_SIZE: i32 = 11;
pub const GLX_DEPTH_SIZE: i32 = 12;
pub const GLX_STENCIL_SIZE: i32 = 13;
pub const GLX_DOUBLEBUFFER: i32 = 5;
pub const GLX_SAMPLE_BUFFERS: i32 = 100000;
pub const GLX_SAMPLES: i32 = 100001;
pub const GLX_FRAMEBUFFER_SRGB_CAPABLE_ARB: i32 = 0x20B2;
pub const GLX_CONTEXT_MAJOR_VERSION_ARB: i32 = 0x2091;
pub const GLX_CONTEXT_MINOR_VERSION_ARB: i32 = 0x2092;
pub const GLX_CONTEXT_PROFILE_MASK_ARB: i32 = 0x9126;
pub const GLX_CONTEXT_CORE_PROFILE_BIT_ARB: i32 = 0x1;
pub const GLX_CONTEXT_COMPATIBILITY_PROFILE_BIT_ARB: i32 = 0x2;

/// The number of samples a framebuffer is asked for: 0 without multisampling.
pub open spec fn sample_count(config: GlConfig) -> i32 {
    match config.samples {
        Some(n) => n as i32,
        None => 0i32,
    }
}

/// The attribute list of the framebuffer configurations that suit `config`:
/// pairs of a name and a value, closed by 0. The surface is a window that is
/// drawn to in true-colour RGBA; the rest is taken from `config`.
pub open spec fn fb_attribs_of(config: GlConfig) -> Seq<i32> {
    seq![
        GLX_X_RENDERABLE, 1i32,
        GLX_X_VISUAL_TYPE, GLX_TRUE_COLOR,
        GLX_DRAWABLE_TYPE, GLX_WINDOW_BIT,
        GLX_RENDER_TYPE, GLX_RGBA_BIT,
        GLX_RED_SIZE, config.red_bits as i32,
        GLX_GREEN_SIZE, config.green_bits as i32,
        GLX_BLUE_SIZE, config.blue_bits as i32,
        GLX_ALPHA_SIZE, config.alpha_bits as i32,
        GLX_DEPTH_SIZE, config.depth_bits as i32,
        GLX_STENCIL_SIZE, config.stencil_bits as i32,
        GLX_DOUBLEBUFFER, flag_value(config.double_buffer),
        GLX_SAMPLE_BUFFERS, flag_value(config.samples is Some),
        GLX_SAMPLES, sample_count(config),
        GLX_FRAMEBUFFER_SRGB_CAPABLE_ARB, flag_value(config.srgb),
        0i32,
    ]
}

/// The bit that stands for `profile` in a context's profile mask.
pub open spec fn profile_mask_of(profile: Profile) -> i32 {
    match profile {
        Profile::Core => GLX_CONTEXT_CORE_PROFILE_BIT_ARB,
        Profile::Compatibility => GLX_CONTEXT_COMPATIBILITY_PROFILE_BIT_ARB,
    }
}

/// The attribute list of the context that `config` asks for: its version and
/// its profile, closed by 0.
pub open spec fn ctx_attribs_of(config: GlConfig) -> Seq<i32> {
    seq![
        GLX_CONTEXT_MAJOR_VERSION_ARB, config.version.0 as i32,
        GLX_CONTEXT_MINOR_VERSION_ARB, config.version.1 as i32,
        GLX_CONTEXT_PROFILE_MASK_ARB, profile_mask_of(config.profile),
        0i32,
    ]
}

/// Computes [`profile_mask_of`].
pub fn profile_mask(profile: Profile) -> (r: i32)
    ensures
        r == profile_mask_of(profile),
{
    match profile {
        Profile::Core => GLX_CONTEXT_CORE_PROFILE_BIT_ARB,
        Profile::Compatibility => GLX_CONTEXT_COMPATIBILITY_PROFILE_BIT_ARB,
    }
}

/// Builds the list that [`fb_attribs_of`] describes.
pub fn fb_attribs(config: &GlConfig) -> (r: Vec<i32>)
    ensures
        r@ == fb_attribs_of(*config),
{
    let samples: i32 = match config.samples {
        Some(n) => n as i32,
        None => 0,
    };
    let r = vec![
        GLX_X_RENDERABLE, 1,
        GLX_X_VISUAL_TYPE, GLX_TRUE_COLOR,
        GLX_DRAWABLE_TYPE, GLX_WINDOW_BIT,
        GLX_RENDER_TYPE, GLX_RGBA_BIT,
        GLX_RED_SIZE, config.red_bits as i32,
        GLX_GREEN_SIZE, config.green_bits as i32,
        GLX_BLUE_SIZE, config.blue_bits as i32,
        GLX_ALPHA_SIZE, config.alpha_bits as i32,
        GLX_DEPTH_SIZE, config.depth_bits as i32,
        GLX_STENCIL_SIZE, config.stencil_bits as i32,
        GLX_DOUBLEBUFFER, flag(config.double_buffer),
        GLX_SAMPLE_BUFFERS, flag(config.samples.is_some()),
        GLX_SAMPLES, samples,
        GLX_FRAMEBUFFER_SRGB_CAPABLE_ARB, flag(config.srgb),
        0,
    ];
    assert(r@ =~= fb_attribs_of(*config));
    r
}

/// Builds the list that [`ctx_attribs_of`] describes.
pub fn ctx_attribs(config: &GlConfig) -> (r: Vec<i32>)
    ensures
        r@ == ctx_attribs_of(*config),
{
    let r = vec![
        GLX_CONTEXT_MAJOR_VERSION_ARB, config.version.0 as i32,
        GLX_CONTEXT_MINOR_VERSION_ARB, config.version.1 as i32,
        GLX_CONTEXT_PROFILE_MASK_ARB, profile_mask(config.profile),
        0,
    ];
    assert(r@ =~= ctx_attribs_of(*config));
    r
}


/// An extension function that creation has to resolve by name.
#[derive(Clone, Copy, Debug, PartialEq, Eq, Structural)]
pub enum Extension {
    CreateContextAttribs,
    SwapInterval,
}

impl Extension {
    /// The name under which the GL implementation exports the function.
    pub fn name(&self) -> (r: &'static str)
        ensures
            *self == Extension::CreateContextAttribs ==> r@ == "glXCreateContextAttribsARB"@,
            *self == Extension::SwapInterval ==> r@ == "glXSwapIntervalEXT"@,
    {
        match self {
            Extension::CreateContextAttribs => "glXCreateContextAttribsARB",
            Extension::SwapInterval => "glXSwapIntervalEXT",
        }
    }
}

/// A native call that the driver is asked to perform. After each one it
/// forces a round trip with the server and replies with what the call
/// returned and what the error callback recorded.
#[derive(Clone, Copy, Debug, PartialEq, Eq, Structural)]
pub enum Call {
    /// Install the recording error callback; `address` of the reply is the
    /// callback it replaced.
    InstallErrorHandler { display: usize },
    /// Choose the framebuffer configurations that match [`fb_attribs`];
    /// `status` of the reply is their number, `address` where their list is.
    ChooseFbConfig { display: usize },
    /// Resolve an extension function; `address` of the reply is where it is.
    GetProcAddress { extension: Extension },
    /// Call the function at `entry` to create a context on the first
    /// configuration of the list at `configs`, with [`ctx_attribs`];
    /// `address` of the reply is the context.
    CreateContextAttribs { display: usize, entry: usize, configs: usize },
    /// Bind `context` to `window` on this thread, or, where both are 0,
    /// release what is bound; `status` of the reply is 0 on failure.
    MakeCurrent { display: usize, window: u64, context: usize },
    /// Call the function at `entry` to set the swap interval of `window`.
    SwapInterval { display: usize, window: u64, interval: i32, entry: usize },
    /// Present the back buffer of `window`.
    SwapBuffers { display: usize, window: u64 },
    /// Install `handler` again, the callback that was replaced.
    RestoreErrorHandler { handler: usize },
}

/// A context bound to a window of an X display. The context and the
/// connection are the window system's: dropping the handle releases nothing.
/// A handle cannot be duplicated, and is gone once it is torn down.
#[derive(Debug, PartialEq, Eq, Structural)]
pub struct GlContext {
    pub window: u64,
    pub display: usize,
    pub context: usize,
}

/// How far the creation of a context has come.
#[derive(Clone, Copy, Debug, PartialEq, Eq)]
pub enum Stage {
    Installing,
    ChoosingConfig,
    ResolvingCreate,
    ResolvingSwapInterval,
    CreatingContext,
    Binding,
    SettingInterval,
    Unbinding,
    /// The creation has come through, or has failed with the error held; the
    /// earlier error callback is still to go back.
    Restoring(Result<(), GlError>),
}

/// A creation under way: the window, the request, the stage reached, the
/// interception scope that spans the whole of it, and what the native calls
/// have handed out so far, 0 for what is still to come.
#[derive(Clone, Copy, Debug, PartialEq, Eq)]
pub struct Negotiation {
    pub display: usize,
    pub window: u64,
    pub config: GlConfig,
    pub stage: Stage,
    pub handler: XErrorHandler,
    pub configs: usize,
    pub create_entry: usize,
    pub swap_entry: usize,
    pub context: usize,
}

/// Where a creation stands after a reply.
#[derive(Debug, PartialEq, Eq)]
pub enum Progress {
    Pending(Negotiation),
    Finished(Result<GlContext, GlError>),
}

/// The failure that stands for the stage `reason`.
pub open spec fn failed<T>(reason: CreationFailedError) -> Result<T, GlError> {
    Err(GlError::CreationFailed(reason))
}

impl Negotiation {
    /// The creation at another stage.
    pub open spec fn at(self, stage: Stage) -> Negotiation {
        Negotiation { stage, ..self }
    }

    /// The creation once the error callback has seen `delivered`.
    pub open spec fn heard(self, delivered: Option<u8>) -> Negotiation {
        Negotiation { handler: self.handler.delivered(delivered), ..self }
    }

    /// The creation after a check of the interception scope.
    pub open spec fn checked(self) -> Negotiation {
        Negotiation { handler: XErrorHandler::opened(self.handler.previous), ..self }
    }

    /// The creation with its outcome known.
    pub open spec fn settled(self, outcome: Result<(), GlError>) -> Negotiation {
        self.at(Stage::Restoring(outcome))
    }

    /// Why the answer `reply` to the call of this stage ends the creation,
    /// if it does: no configuration, a function or a context that is null, a
    /// binding or a release that is refused.
    pub open spec fn refusal_of(self, reply: Reply) -> Option<CreationFailedError> {
        match self.stage {
            Stage::ChoosingConfig if reply.status <= 0 || reply.address == 0 => Some(
                CreationFailedError::InvalidFBConfig,
            ),
            Stage::ResolvingCreate if reply.address == 0 => Some(
                CreationFailedError::GetProcAddressFailed,
            ),
            Stage::ResolvingSwapInterval if reply.address == 0 => Some(
                CreationFailedError::GetProcAddressFailed,
            ),
            Stage::CreatingContext if reply.address == 0 => Some(
                CreationFailedError::ContextCreationFailed,
            ),
            Stage::Binding if reply.status == 0 => Some(CreationFailedError::MakeCurrentFailed),
            Stage::Unbinding if reply.status == 0 => Some(CreationFailedError::MakeCurrentFailed),
            _ => None,
        }
    }

    /// The creation once it has taken what `reply` hands out and moved on to
    /// its next stage.
    pub open spec fn accepted(self, reply: Reply) -> Negotiation {
        match self.stage {
            Stage::ChoosingConfig => Negotiation { configs: reply.address, ..self }.at(
                Stage::ResolvingCreate,
            ),
            Stage::ResolvingCreate => Negotiation { create_entry: reply.address, ..self }.at(
                Stage::ResolvingSwapInterval,
            ),
            Stage::ResolvingSwapInterval => Negotiation { swap_entry: reply.address, ..self }.at(
                Stage::CreatingContext,
            ),
            Stage::CreatingContext => Negotiation { context: reply.address, ..self }.at(
                Stage::Binding,
            ),
            Stage::Binding => self.at(Stage::SettingInterval),
            Stage::SettingInterval => self.at(Stage::Unbinding),
            Stage::Unbinding => self.settled(Ok(())),
            _ => self,
        }
    }

    /// The native call that the creation waits for.
    pub open spec fn call_of(self) -> Call {
        match self.stage {
            Stage::Installing => Call::InstallErrorHandler { display: self.display },
            Stage::ChoosingConfig => Call::ChooseFbConfig { display: self.display },
            Stage::ResolvingCreate => Call::GetProcAddress {
                extension: Extension::CreateContextAttribs,
            },
            Stage::ResolvingSwapInterval => Call::GetProcAddress {
                extension: Extension::SwapInterval,
            },
            Stage::CreatingContext => Call::CreateContextAttribs {
                display: self.display,
                entry: self.create_entry,
                configs: self.configs,
            },
            Stage::Binding => Call::MakeCurrent {
                display: self.display,
                window: self.window,
                context: self.context,
            },
            Stage::SettingInterval => Call::SwapInterval {
                display: self.display,
                window: self.window,
                interval: flag_value(self.config.vsync),
                entry: self.swap_entry,
            },
            Stage::Unbinding => Call::MakeCurrent { display: self.display, window: 0, context: 0 },
            Stage::Restoring(_) => Call::RestoreErrorHandler { handler: self.handler.previous },
        }
    }

    /// The context that a creation which has come through hands out.
    pub open spec fn made(self) -> GlContext {
        GlContext { window: self.window, display: self.display, context: self.context }
    }

    /// Where the creation stands once the call it waited for has been
    /// answered by `reply`.
    ///
    /// The whole creation runs inside one interception scope, and the scope
    /// is checked after every native call in it. A protocol error that the
    /// server raised ends the creation with that error, whatever the call
    /// itself returned. Without one, the call's own answer can end it: see
    /// [`Negotiation::refusal_of`]. Whatever the outcome, the earlier error
    /// callback is asked back before it is handed out.
    pub open spec fn step(self, reply: Reply) -> Progress {
        let heard = self.heard(reply.error);
        match self.stage {
            Stage::Installing => Progress::Pending(
                Negotiation { handler: XErrorHandler::opened(reply.address), ..self }.at(
                    Stage::ChoosingConfig,
                ),
            ),
            Stage::Restoring(outcome) => Progress::Finished(
                match outcome {
                    Ok(()) => Ok(self.made()),
                    Err(e) => Err(e),
                },
            ),
            _ => Progress::Pending(
                match heard.handler.error {
                    Some(e) => heard.checked().settled(failed(CreationFailedError::X11Error(e))),
                    None => match heard.refusal_of(reply) {
                        Some(reason) => heard.settled(failed(reason)),
                        None => heard.accepted(reply),
                    },
                },
            ),
        }
    }

    /// The context that is current on the thread once `reply` has come: the
    /// new one after it was bound, none after it was released.
    pub open spec fn binding_after(self, reply: Reply, thread: ThreadBinding) -> ThreadBinding {
        match self.stage {
            Stage::Binding if reply.status != 0 => thread.bound(self.context),
            Stage::Unbinding if reply.status != 0 => thread.released(),
            _ => thread,
        }
    }

    /// The native call to perform next.
    pub fn call(&self) -> (r: Call)
        ensures
            r == self.call_of(),
    {
        match self.stage {
            Stage::Installing => Call::InstallErrorHandler { display: self.display },
            Stage::ChoosingConfig => Call::ChooseFbConfig { display: self.display },
            Stage::ResolvingCreate => Call::GetProcAddress {
                extension: Extension::CreateContextAttribs,
            },
            Stage::ResolvingSwapInterval => Call::GetProcAddress {
                extension: Extension::SwapInterval,
            },
            Stage::CreatingContext => Call::CreateContextAttribs {
                display: self.display,
                entry: self.create_entry,
                configs: self.configs,
            },
            Stage::Binding => Call::MakeCurrent {
                display: self.display,
                window: self.window,
                context: self.context,
            },
            Stage::SettingInterval => Call::SwapInterval {
                display: self.display,
                window: self.window,
                interval: flag(self.config.vsync),
                entry: self.swap_entry,
            },
            Stage::Unbinding => Call::MakeCurrent { display: self.display, window: 0, context: 0 },
            Stage::Restoring(_) => Call::RestoreErrorHandler { handler: self.handler.previous },
        }
    }

    /// Computes [`Negotiation::refusal_of`].
    fn refusal(&self, reply: &Reply) -> (r: Option<CreationFailedError>)
        ensures
            r == self.refusal_of(*reply),
    {
        match self.stage {
            Stage::ChoosingConfig => if reply.status <= 0 || reply.address == 0 {
                Some(CreationFailedError::InvalidFBConfig)
            } else {
                None
            },
            Stage::ResolvingCreate => if reply.address == 0 {
                Some(CreationFailedError::GetProcAddressFailed)
            } else {
                None
            },
            Stage::ResolvingSwapInterval => if reply.address == 0 {
                Some(CreationFailedError::GetProcAddressFailed)
            } else {
                None
            },
            Stage::CreatingContext => if reply.address == 0 {
                Some(CreationFailedError::ContextCreationFailed)
            } else {
                None
            },
            Stage::Binding => if reply.status == 0 {
                Some(CreationFailedError::MakeCurrentFailed)
            } else {
                None
            },
            Stage::Unbinding => if reply.status == 0 {
                Some(CreationFailedError::MakeCurrentFailed)
            } else {
                None
            },
            _ => None,
        }
    }

    /// Computes [`Negotiation::accepted`].
    fn accept(self, reply: &Reply) -> (r: Negotiation)
        ensures
            r == self.accepted(*reply),
    {
        let mut next = self;
        match self.stage {
            Stage::ChoosingConfig => {
                next.configs = reply.address;
                next.stage = Stage::ResolvingCreate;
            },
            Stage::ResolvingCreate => {
                next.create_entry = reply.address;
                next.stage = Stage::ResolvingSwapInterval;
            },
            Stage::ResolvingSwapInterval => {
                next.swap_entry = reply.address;
                next.stage = Stage::CreatingContext;
            },
            Stage::CreatingContext => {
                next.context = reply.address;
                next.stage = Stage::Binding;
            },
            Stage::Binding => {
                next.stage = Stage::SettingInterval;
            },
            Stage::SettingInterval => {
                next.stage = Stage::Unbinding;
            },
            Stage::Unbinding => {
                next.stage = Stage::Restoring(Ok(()));
            },
            _ => {},
        }
        next
    }

    /// Takes the reply to the call that [`Negotiation::call`] asked for, and
    /// follows the binding of the calling thread.
    pub fn advance(self, reply: Reply, thread: &mut ThreadBinding) -> (r: Progress)
        ensures
            r == self.step(reply),
            *final(thread) == self.binding_after(reply, *old(thread)),
    {
        match self.stage {
            Stage::Installing => {
                let mut next = self;
                next.handler = XErrorHandler::install(reply.address);
                next.stage = Stage::ChoosingConfig;
                Progress::Pending(next)
            },
            Stage::Restoring(Ok(())) => Progress::Finished(
                Ok(GlContext { window: self.window, display: self.display, context: self.context }),
            ),
            Stage::Restoring(Err(e)) => Progress::Finished(Err(e)),
            _ => {
                if reply.status != 0 {
                    match self.stage {
                        Stage::Binding => {
                            thread.current = Some(self.context);
                        },
                        Stage::Unbinding => {
                            thread.current = None;
                        },
                        _ => {},
                    }
                }
                let mut heard = self;
                heard.handler.deliver(reply.error);
                match heard.handler.check() {
                    Err(e) => {
                        heard.stage = Stage::Restoring(Err(GlError::from(e)));
                    },
                    Ok(()) => match heard.refusal(&reply) {
                        Some(reason) => {
                            heard.stage = Stage::Restoring(Err(GlError::CreationFailed(reason)));
                        },
                        None => {
                            heard = heard.accept(&reply);
                        },
                    },
                }
                Progress::Pending(heard)
            },
        }
    }
}

/// What beginning a creation for `handle` gives: a creation that waits for the
/// error callback to be installed, or the rejection of the handle.
pub open spec fn begun(handle: WindowHandle, config: GlConfig) -> Result<Negotiation, GlError> {
    match handle {
        WindowHandle::Xlib { display, window } if display != 0 && window != 0 => Ok(
            Negotiation {
                display,
                window,
                config,
                stage: Stage::Installing,
                handler: XErrorHandler::opened(0),
                configs: 0,
                create_entry: 0,
                swap_entry: 0,
                context: 0,
            },
        ),
        _ => Err(GlError::InvalidWindowHandle),
    }
}

impl GlContext {
    /// Begins the creation of a context for the window `handle`.
    ///
    /// A handle of another window system, or one whose display or window is
    /// null, is rejected here, before any native call is asked for.
    pub fn create(handle: &WindowHandle, config: GlConfig) -> (r: Result<Negotiation, GlError>)
        ensures
            r == begun(*handle, config),
            r is Ok <==> handle.usable_on(Platform::X11),
            r is Err ==> r == Err::<Negotiation, GlError>(GlError::InvalidWindowHandle),
    {
        match handle {
            WindowHandle::Xlib { display, window } => {
                if *display == 0 || *window == 0 {
                    return Err(GlError::InvalidWindowHandle);
                }
                Ok(
                    Negotiation {
                        display: *display,
                        window: *window,
                        config,
                        stage: Stage::Installing,
                        handler: XErrorHandler::install(0),
                        configs: 0,
                        create_entry: 0,
                        swap_entry: 0,
                        context: 0,
                    },
                )
            },
            _ => Err(GlError::InvalidWindowHandle),
        }
    }
}

/// What is asked of a context once it exists.
#[derive(Clone, Copy, Debug, PartialEq, Eq, Structural)]
pub enum Action {
    MakeCurrent,
    MakeNotCurrent,
    SwapBuffers,
}

/// Why an operation on an existing context did not do its work. Nothing can
/// be done about either: the driver is expected to abort.
#[derive(Clone, Copy, Debug, PartialEq, Eq, Structural)]
pub enum Fault {
    /// The X server reported a protocol error.
    Protocol(XLibError),
    /// The native call reported failure.
    Refused,
}

/// How far an operation has come.
#[derive(Clone, Copy, Debug, PartialEq, Eq)]
pub enum OperationStage {
    Installing,
    Calling,
    /// The outcome is known; the earlier error callback is still to go back.
    Restoring(Result<(), Fault>),
}

/// An operation under way on the context `context` of the window `window`,
/// inside an interception scope of its own.
#[derive(Clone, Copy, Debug, PartialEq, Eq)]
pub struct Operation {
    pub display: usize,
    pub window: u64,
    pub context: usize,
    pub action: Action,
    pub stage: OperationStage,
    pub handler: XErrorHandler,
}

/// Where an operation stands after a reply.
#[derive(Clone, Copy, Debug, PartialEq, Eq)]
pub enum OperationProgress {
    Pending(Operation),
    Finished(Result<(), Fault>),
}

impl Operation {
    /// The native call that does the work of the operation.
    pub open spec fn work_of(self) -> Call {
        match self.action {
            Action::MakeCurrent => Call::MakeCurrent {
                display: self.display,
                window: self.window,
                context: self.context,
            },
            Action::MakeNotCurrent => Call::MakeCurrent {
                display: self.display,
                window: 0,
                context: 0,
            },
            Action::SwapBuffers => Call::SwapBuffers {
                display: self.display,
                window: self.window,
            },
        }
    }

    /// The native call that the operation waits for.
    pub open spec fn call_of(self) -> Call {
        match self.stage {
            OperationStage::Installing => Call::InstallErrorHandler {
                display: self.display,
            },
            OperationStage::Calling => self.work_of(),
            OperationStage::Restoring(_) => Call::RestoreErrorHandler {
                handler: self.handler.previous,
            },
        }
    }

    /// The operation once the error callback is in, in place of the one that
    /// `installed` names.
    pub open spec fn called(self, installed: Reply) -> Operation {
        Operation {
            stage: OperationStage::Calling,
            handler: XErrorHandler::opened(installed.address),
            ..self
        }
    }

    /// What the answer `reply` to the operation's work amounts to, as the
    /// scope hands it out when it closes around the call's status: a protocol
    /// error comes in place of the status; without one, a status of 0 is a
    /// refusal for the two that bind and release.
    pub open spec fn judged(self, reply: Reply) -> Result<(), Fault> {
        match self.handler.delivered(reply.error).verdict(reply.status) {
            Err(e) => Err(Fault::Protocol(e)),
            Ok(status) => if self.action != Action::SwapBuffers && status == 0 {
                Err(Fault::Refused)
            } else {
                Ok(())
            },
        }
    }

    /// Where the operation stands once the call it waited for has been
    /// answered by `reply`.
    pub open spec fn step(self, reply: Reply) -> OperationProgress {
        match self.stage {
            OperationStage::Installing => OperationProgress::Pending(self.called(reply)),
            OperationStage::Calling => OperationProgress::Pending(
                Operation {
                    stage: OperationStage::Restoring(self.judged(reply)),
                    handler: XErrorHandler::opened(self.handler.previous),
                    ..self
                },
            ),
            OperationStage::Restoring(outcome) => OperationProgress::Finished(outcome),
        }
    }

    /// The context that is current on the thread once `reply` has come.
    pub open spec fn binding_after(self, reply: Reply, thread: ThreadBinding) -> ThreadBinding {
        match (self.stage, self.action) {
            (OperationStage::Calling, Action::MakeCurrent) if reply.status != 0 => thread.bound(
                self.context,
            ),
            (OperationStage::Calling, Action::MakeNotCurrent) if reply.status != 0 => {
                thread.released()
            },
            _ => thread,
        }
    }

    /// The native call to perform next.
    pub fn call(&self) -> (r: Call)
        ensures
            r == self.call_of(),
    {
        match self.stage {
            OperationStage::Installing => Call::InstallErrorHandler {
                display: self.display,
            },
            OperationStage::Calling => match self.action {
                Action::MakeCurrent => Call::MakeCurrent {
                    display: self.display,
                    window: self.window,
                    context: self.context,
                },
                Action::MakeNotCurrent => Call::MakeCurrent {
                    display: self.display,
                    window: 0,
                    context: 0,
                },
                Action::SwapBuffers => Call::SwapBuffers {
                    display: self.display,
                    window: self.window,
                },
            },
            OperationStage::Restoring(_) => Call::RestoreErrorHandler {
                handler: self.handler.previous,
            },
        }
    }

    /// Takes the reply to the call that [`Operation::call`] asked for, and
    /// follows the binding of the calling thread.
    pub fn advance(self, reply: Reply, thread: &mut ThreadBinding) -> (r: OperationProgress)
        ensures
            r == self.step(reply),
            *final(thread) == self.binding_after(reply, *old(thread)),
    {
        match self.stage {
            OperationStage::Installing => {
                let mut next = self;
                next.stage = OperationStage::Calling;
                next.handler = XErrorHandler::install(reply.address);
                OperationProgress::Pending(next)
            },
            OperationStage::Calling => {
                if reply.status != 0 {
                    match self.action {
                        Action::MakeCurrent => {
                            thread.current = Some(self.context);
                        },
                        Action::MakeNotCurrent => {
                            thread.current = None;
                        },
                        Action::SwapBuffers => {},
                    }
                }
                let mut scope = self.handler;
                scope.deliver(reply.error);
                let (previous, verdict) = scope.finish(reply.status);
                let presenting = match self.action {
                    Action::SwapBuffers => true,
                    _ => false,
                };
                let outcome = match verdict {
                    Err(e) => Err(Fault::Protocol(e)),
                    Ok(status) => if !presenting && status == 0 {
                        Err(Fault::Refused)
                    } else {
                        Ok(())
                    },
                };
                let mut next = self;
                next.handler = XErrorHandler::install(previous);
                next.stage = OperationStage::Restoring(outcome);
                OperationProgress::Pending(next)
            },
            OperationStage::Restoring(outcome) => OperationProgress::Finished(outcome),
        }
    }
}

impl GlContext {
    /// The operation `action` on this context, about to begin.
    pub open spec fn operation(self, action: Action) -> Operation {
        Operation {
            display: self.display,
            window: self.window,
            context: self.context,
            action,
            stage: OperationStage::Installing,
            handler: XErrorHandler::opened(0),
        }
    }

    /// Begins making the context current on the calling thread.
    pub fn make_current(&self) -> (r: Operation)
        ensures
            r == self.operation(Action::MakeCurrent),
    {
        Operation {
            display: self.display,
            window: self.window,
            context: self.context,
            action: Action::MakeCurrent,
            stage: OperationStage::Installing,
            handler: XErrorHandler::install(0),
        }
    }

    /// Begins making nothing current on the calling thread.
    pub fn make_not_current(&self) -> (r: Operation)
        ensures
            r == self.operation(Action::MakeNotCurrent),
    {
        Operation {
            display: self.display,
            window: self.window,
            context: self.context,
            action: Action::MakeNotCurrent,
            stage: OperationStage::Installing,
            handler: XErrorHandler::install(0),
        }
    }

    /// Begins presenting the back buffer.
    pub fn swap_buffers(&self) -> (r: Operation)
        ensures
            r == self.operation(Action::SwapBuffers),
    {
        Operation {
            display: self.display,
            window: self.window,
            context: self.context,
            action: Action::SwapBuffers,
            stage: OperationStage::Installing,
            handler: XErrorHandler::install(0),
        }
    }

    /// The address of a GL function, from what the GL implementation
    /// answered when asked for it by name: 0 where it exports no such name.
    pub fn get_proc_address(&self, resolved: Option<usize>) -> (r: usize)
        ensures
            resolved matches Some(address) ==> r == address,
            resolved is None ==> r == 0,
    {
        match resolved {
            Some(address) => address,
            None => 0,
        }
    }

    /// The native resources to release when the handle goes: none, since the
    /// context and the connection belong to the window system.
    pub fn teardown(self) -> (r: Vec<Call>)
        ensures
            r@ == Seq::<Call>::empty(),
    {
        Vec::new()
    }
}

/// An operation answered by `installed`, `answered` and `restored` in turn:
/// its outcome, and the binding of the thread after it.
pub open spec fn performed(
    operation: Operation,
    replies: (Reply, Reply, Reply),
    thread: ThreadBinding,
) -> (OperationProgress, ThreadBinding) {
    match operation.step(replies.0) {
        OperationProgress::Pending(calling) => match calling.step(replies.1) {
            OperationProgress::Pending(restoring) => (
                restoring.step(replies.2),
                restoring.binding_after(
                    replies.2,
                    calling.binding_after(
                        replies.1,
                        operation.binding_after(replies.0, thread),
                    ),
                ),
            ),
            finished => (finished, thread),
        },
        finished => (finished, thread),
    }
}

/// An operation takes three native calls: the error callback goes in, the
/// work is done, and the callback that was there before goes back, whatever
/// the work came to. The outcome is what the answer to the work amounts to.
/// Where the work raised no protocol error and was not refused, the operation
/// succeeds, and the context is then current after `make_current` and not
/// current after `make_not_current`.
pub proof fn lemma_operation_runs_in_scope(
    context: GlContext,
    action: Action,
    replies: (Reply, Reply, Reply),
    thread: ThreadBinding,
)
    ensures
        context.operation(action).call_of() == (Call::InstallErrorHandler {
            display: context.display,
        }),
        context.operation(action).step(replies.0) == OperationProgress::Pending(
            context.operation(action).called(replies.0),
        ),
        context.operation(action).called(replies.0).call_of() == context.operation(
            action,
        ).work_of(),
        ({
            &&& context.operation(action).called(replies.0).step(replies.1)
                matches OperationProgress::Pending(restoring)
            &&& restoring.call_of() == (Call::RestoreErrorHandler { handler: replies.0.address })
        }),
        performed(context.operation(action), replies, thread).0 == OperationProgress::Finished(
            context.operation(action).called(replies.0).judged(replies.1),
        ),
        replies.1.error is None && replies.1.status != 0 ==> performed(
            context.operation(action),
            replies,
            thread,
        ).0 == OperationProgress::Finished(Ok(())),
        replies.1.error is None && replies.1.status != 0 && action == Action::MakeCurrent
            ==> performed(context.operation(action), replies, thread).1 == thread.bound(
            context.context,
        ),
        replies.1.error is None && replies.1.status != 0 && action == Action::MakeNotCurrent
            ==> performed(context.operation(action), replies, thread).1 == thread.released(),
        action == Action::SwapBuffers ==> performed(
            context.operation(action),
            replies,
            thread,
        ).1 == thread,
{
}

/// What holds between a creation under way and the thread it runs on: once
/// the creation has come through, and only the error callback is still to go
/// back, nothing is current on the thread.
pub open spec fn in_step(negotiation: Negotiation, thread: ThreadBinding) -> bool {
    negotiation.stage matches Stage::Restoring(Ok(_)) ==> thread.current is None
}

/// A creation that has just begun is in step with any thread.
pub proof fn lemma_creation_begins_in_step(
    handle: WindowHandle,
    config: GlConfig,
    thread: ThreadBinding,
)
    ensures
        begun(handle, config) matches Ok(negotiation) ==> in_step(negotiation, thread),
{
}

/// Every reply keeps a creation in step with its thread, and a creation that
/// succeeds hands out a context of the window it was begun for and leaves
/// nothing current on the thread: the new context is not current.
pub proof fn lemma_created_is_not_current(
    negotiation: Negotiation,
    reply: Reply,
    thread: ThreadBinding,
)
    requires
        in_step(negotiation, thread),
    ensures
        match negotiation.step(reply) {
            Progress::Pending(next) => in_step(next, negotiation.binding_after(reply, thread))
                && next.window == negotiation.window && next.display == negotiation.display,
            Progress::Finished(Ok(made)) => negotiation.binding_after(reply, thread).state_of(
                made.context,
            ) == ContextState::NotCurrent && made.window == negotiation.window && made.display
                == negotiation.display,
            Progress::Finished(Err(_)) => true,
        },
{
}

/// A protocol error that the server raised during any native call of a
/// creation ends the creation with that error, whatever the call returned:
/// all that is left to ask for is the earlier error callback, and the
/// outcome is the error.
pub proof fn lemma_protocol_error_fails_creation(
    negotiation: Negotiation,
    reply: Reply,
    code: u8,
    last: Reply,
)
    requires
        negotiation.stage != Stage::Installing,
        negotiation.stage !is Restoring,
        negotiation.handler.error is None,
        reply.error == Some(code),
    ensures
        ({
            &&& negotiation.step(reply) matches Progress::Pending(next)
            &&& next.call_of() == (Call::RestoreErrorHandler {
                handler: negotiation.handler.previous,
            })
            &&& next.step(last) == Progress::Finished(protocol_failure(code))
        }),
{
}

/// No reply leaves an error behind in the scope: each is reported by the
/// check that follows the call it came with.
pub proof fn lemma_no_error_is_left_behind(negotiation: Negotiation, reply: Reply)
    requires
        negotiation.handler.error is None,
    ensures
        negotiation.step(reply) matches Progress::Pending(next) ==> next.handler.error is None,
{
}

/// A creation puts the earlier error callback back before it hands out its
/// outcome, whatever the outcome is: the call before the end asks for the
/// callback that the first reply named, and no reply in between changes
/// which one that is.
pub proof fn lemma_creation_restores_callback(negotiation: Negotiation, reply: Reply)
    ensures
        match negotiation.step(reply) {
            Progress::Pending(next) => next.handler.previous == if negotiation.stage
                == Stage::Installing {
                reply.address
            } else {
                negotiation.handler.previous
            },
            Progress::Finished(outcome) => negotiation.stage is Restoring
                && negotiation.call_of() == (Call::RestoreErrorHandler {
                handler: negotiation.handler.previous,
            }),
        },
{
}

/// Where no framebuffer configuration matches and the server raised no
/// error, the creation fails for want of a configuration, and asks for
/// nothing more than the earlier error callback.
pub proof fn lemma_no_configuration_fails(negotiation: Negotiation, reply: Reply, last: Reply)
    requires
        negotiation.stage == Stage::ChoosingConfig,
        negotiation.handler.error is None,
        reply.error is None,
        reply.status <= 0,
    ensures
        ({
            &&& negotiation.step(reply) matches Progress::Pending(next)
            &&& next.call_of() == (Call::RestoreErrorHandler {
                handler: negotiation.handler.previous,
            })
            &&& next.step(last) == Progress::Finished(
                failed(CreationFailedError::InvalidFBConfig),
            )
        }),
{
}

/// What the native calls of one creation answered, in the order in which a
/// creation that gets that far makes them.
pub struct Transcript {
    /// To installing the error callback.
    pub install: Reply,
    /// To choosing the framebuffer configurations.
    pub configs: Reply,
    /// To resolving the function that creates a context.
    pub create_entry: Reply,
    /// To resolving the function that sets the swap interval.
    pub swap_entry: Reply,
    /// To creating the context.
    pub context: Reply,
    /// To binding it.
    pub bind: Reply,
    /// To setting the swap interval.
    pub interval: Reply,
    /// To releasing the context.
    pub release: Reply,
}

impl Transcript {
    /// The answer to the `i`-th native call, counted from 0.
    pub open spec fn answer(self, i: nat) -> Reply {
        if i == 0 {
            self.install
        } else if i == 1 {
            self.configs
        } else if i == 2 {
            self.create_entry
        } else if i == 3 {
            self.swap_entry
        } else if i == 4 {
            self.context
        } else if i == 5 {
            self.bind
        } else if i == 6 {
            self.interval
        } else {
            self.release
        }
    }

    /// Whether every call does its work and the server raises no error.
    pub open spec fn all_succeed(self) -> bool {
        &&& forall|i: nat| 1 <= i < 8 ==> (#[trigger] self.answer(i)).error is None
        &&& self.configs.status > 0
        &&& self.configs.address != 0
        &&& self.create_entry.address != 0
        &&& self.swap_entry.address != 0
        &&& self.context.address != 0
        &&& self.bind.status != 0
        &&& self.release.status != 0
    }
}

/// The failure that stands for the protocol error `code`.
pub open spec fn protocol_failure(code: u8) -> Result<GlContext, GlError> {
    failed(CreationFailedError::X11Error(XLibError { error_code: code }))
}

/// What the answer `reply` to one call of a creation comes to, where it ends
/// the creation: the protocol error that came with it, or else the failure
/// `refused` where `refuses` holds.
pub open spec fn ended_by(reply: Reply, refuses: bool, refused: CreationFailedError) -> Option<
    Result<GlContext, GlError>,
> {
    match reply.error {
        Some(code) => Some(protocol_failure(code)),
        None => if refuses {
            Some(failed(refused))
        } else {
            None
        },
    }
}

/// The first of two ends.
pub open spec fn or_else(
    first: Option<Result<GlContext, GlError>>,
    second: Option<Result<GlContext, GlError>>,
) -> Option<Result<GlContext, GlError>> {
    match first {
        Some(end) => Some(end),
        None => second,
    }
}

/// What a creation for the window `window` of `display` comes to, given what
/// the native calls answer. The first answer that ends the creation decides,
/// and with each answer a protocol error comes before the call's own
/// failure: no configuration, an extension function that is null, a context
/// that is null, a binding that is refused, a release that is refused.
/// Where no answer ends it, the context is handed out.
pub open spec fn outcome_of(display: usize, window: u64, answers: Transcript) -> Result<
    GlContext,
    GlError,
> {
    let end = or_else(
        ended_by(
            answers.configs,
            answers.configs.status <= 0 || answers.configs.address == 0,
            CreationFailedError::InvalidFBConfig,
        ),
        or_else(
            ended_by(
                answers.create_entry,
                answers.create_entry.address == 0,
                CreationFailedError::GetProcAddressFailed,
            ),
            or_else(
                ended_by(
                    answers.swap_entry,
                    answers.swap_entry.address == 0,
                    CreationFailedError::GetProcAddressFailed,
                ),
                or_else(
                    ended_by(
                        answers.context,
                        answers.context.address == 0,
                        CreationFailedError::ContextCreationFailed,
                    ),
                    or_else(
                        ended_by(
                            answers.bind,
                            answers.bind.status == 0,
                            CreationFailedError::MakeCurrentFailed,
                        ),
                        or_else(
                            ended_by(
                                answers.interval,
                                false,
                                CreationFailedError::MakeCurrentFailed,
                            ),
                            ended_by(
                                answers.release,
                                answers.release.status == 0,
                                CreationFailedError::MakeCurrentFailed,
                            ),
                        ),
                    ),
                ),
            ),
        ),
    );
    match end {
        Some(failure) => failure,
        None => Ok(GlContext { window, display, context: answers.context.address }),
    }
}

/// Where `progress` stands after one more reply: a creation that has
/// finished reads no reply.
pub open spec fn then(progress: Progress, reply: Reply) -> Progress {
    match progress {
        Progress::Pending(negotiation) => negotiation.step(reply),
        finished => finished,
    }
}

/// Where a creation stands after the first `n` answers of `answers`. A
/// creation that fails early reads the answers that follow as replies to
/// putting the error callback back, and to nothing.
pub open spec fn stood(negotiation: Negotiation, answers: Transcript, n: nat) -> Progress
    decreases n,
{
    if n == 0 {
        Progress::Pending(negotiation)
    } else {
        then(stood(negotiation, answers, (n - 1) as nat), answers.answer((n - 1) as nat))
    }
}

/// The context that is current on the thread after the first `n` answers.
pub open spec fn bound_after(
    negotiation: Negotiation,
    answers: Transcript,
    n: nat,
    thread: ThreadBinding,
) -> ThreadBinding
    decreases n,
{
    if n == 0 {
        thread
    } else {
        let before = bound_after(negotiation, answers, (n - 1) as nat, thread);
        match stood(negotiation, answers, (n - 1) as nat) {
            Progress::Pending(waiting) => waiting.binding_after(
                answers.answer((n - 1) as nat),
                before,
            ),
            _ => before,
        }
    }
}

/// Where a creation stands after the answers of `answers` and the reply
/// `restored` to putting the error callback back.
pub open spec fn ran(negotiation: Negotiation, answers: Transcript, restored: Reply) -> Progress {
    then(stood(negotiation, answers, 8), restored)
}

/// A creation that is driven to its end comes to what [`outcome_of`] says,
/// in nine native calls at most.
pub proof fn lemma_creation_comes_to_outcome(
    display: usize,
    window: u64,
    config: GlConfig,
    answers: Transcript,
    restored: Reply,
)
    requires
        display != 0,
        window != 0,
    ensures
        begun(WindowHandle::Xlib { display, window }, config) matches Ok(negotiation) && ran(
            negotiation,
            answers,
            restored,
        ) == Progress::Finished(outcome_of(display, window, answers)),
{
    reveal_with_fuel(stood, 9);
}

/// A creation in which every call does its work and the server raises no
/// error takes nine native calls. After the context is made it is bound to
/// the window, the swap interval that the configuration asks for is set,
/// and the context is released, in this order; then the earlier error
/// callback goes back. The context is handed out, and nothing is current
/// on the thread: the new context is not current.
pub proof fn lemma_creation_succeeds(
    display: usize,
    window: u64,
    config: GlConfig,
    answers: Transcript,
    restored: Reply,
    thread: ThreadBinding,
)
    requires
        display != 0,
        window != 0,
        answers.all_succeed(),
    ensures
        ({
            &&& begun(WindowHandle::Xlib { display, window }, config) matches Ok(negotiation)
            &&& stood(negotiation, answers, 5) matches Progress::Pending(binding)
            &&& binding.call_of() == (Call::MakeCurrent {
                display,
                window,
                context: answers.context.address,
            })
            &&& stood(negotiation, answers, 6) matches Progress::Pending(pacing)
            &&& pacing.call_of() == (Call::SwapInterval {
                display,
                window,
                interval: flag_value(config.vsync),
                entry: answers.swap_entry.address,
            })
            &&& stood(negotiation, answers, 7) matches Progress::Pending(releasing)
            &&& releasing.call_of() == (Call::MakeCurrent { display, window: 0, context: 0 })
            &&& stood(negotiation, answers, 8) matches Progress::Pending(restoring)
            &&& restoring.call_of() == (Call::RestoreErrorHandler {
                handler: answers.install.address,
            })
            &&& ran(negotiation, answers, restored) == Progress::Finished(
                Ok(GlContext { window, display, context: answers.context.address }),
            )
            &&& bound_after(negotiation, answers, 8, thread).current is None
            &&& bound_after(negotiation, answers, 8, thread).state_of(answers.context.address)
                == ContextState::NotCurrent
        }),
{
    reveal_with_fuel(stood, 9);
    reveal_with_fuel(bound_after, 9);
    assert(answers.answer(1).error is None);
    assert(answers.answer(2).error is None);
    assert(answers.answer(3).error is None);
    assert(answers.answer(4).error is None);
    assert(answers.answer(5).error is None);
    assert(answers.answer(6).error is None);
    assert(answers.answer(7).error is None);
}

/// The number of native calls that a creation at `stage` can still ask for.
pub open spec fn calls_left(stage: Stage) -> nat {
    match stage {
        Stage::Installing => 9,
        Stage::ChoosingConfig => 8,
        Stage::ResolvingCreate => 7,
        Stage::ResolvingSwapInterval => 6,
        Stage::CreatingContext => 5,
        Stage::Binding => 4,
        Stage::SettingInterval => 3,
        Stage::Unbinding => 2,
        Stage::Restoring(_) => 1,
    }
}

/// Every reply brings a creation nearer its end: a driver that answers each
/// call is done after nine of them at most.
pub proof fn lemma_creation_ends(negotiation: Negotiation, reply: Reply)
    ensures
        negotiation.step(reply) matches Progress::Pending(next) ==> calls_left(next.stage)
            < calls_left(negotiation.stage),
{
}

} // verus!
