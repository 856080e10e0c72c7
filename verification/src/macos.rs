//! The NSOpenGL backend.

use vstd::prelude::*;
use crate::config::{GlConfig, Profile};
use crate::error::{CreationFailedError, GlError};
use crate::handle::{Platform, WindowHandle};
use crate::native::{ContextState, Reply, ThreadBinding};

verus! {

pub const NS_OPENGL_PFA_DOUBLE_BUFFER: u32 = 5;
pub const NS_OPENGL_PFA_COLOR_SIZE: u32 = 8;
pub const NS_OPENGL_PFA_ALPHA_SIZE: u32 = 11;
pub const NS_OPENGL_PFA_ACCELERATED: u32 = 73;
pub const NS_OPENGL_PFA_OPENGL_PROFILE: u32 = 99;
pub const NS_OPENGL_PROFILE_VERSION_LEGACY: u32 = 0x1000;
pub const NS_OPENGL_PROFILE_VERSION_3_2_CORE: u32 = 0x3200;

/// The identifier of the system's OpenGL framework, in whose bundle symbols
/// are looked up.
pub const OPENGL_FRAMEWORK: &'static str = "com.apple.opengl";

/// The profile version that stands for `profile`.
pub open spec fn profile_version_of(profile: Profile) -> u32 {
    match profile {
        Profile::Core => NS_OPENGL_PROFILE_VERSION_3_2_CORE,
        Profile::Compatibility => NS_OPENGL_PROFILE_VERSION_LEGACY,
    }
}

/// The attribute list of the pixel format asked for, closed by 0: the profile
/// of `config`, 24 bits of colour, 8 of alpha, double-buffered and
/// accelerated. Nothing else of `config` is asked for.
pub open spec fn pixel_format_attribs_of(config: GlConfig) -> Seq<u32> {
    seq![
        NS_OPENGL_PFA_OPENGL_PROFILE, profile_version_of(config.profile),
        NS_OPENGL_PFA_COLOR_SIZE, 24u32,
        NS_OPENGL_PFA_ALPHA_SIZE, 8u32,
        NS_OPENGL_PFA_DOUBLE_BUFFER,
        NS_OPENGL_PFA_ACCELERATED,
        0u32,
    ]
}

/// Builds the list that [`pixel_format_attribs_of`] describes.
pub fn pixel_format_attribs(config: &GlConfig) -> (r: Vec<u32>)
    ensures
        r@ == pixel_format_attribs_of(*config),
{
    let version: u32 = match config.profile {
        Profile::Core => NS_OPENGL_PROFILE_VERSION_3_2_CORE,
        Profile::Compatibility => NS_OPENGL_PROFILE_VERSION_LEGACY,
    };
    let r = vec![
        NS_OPENGL_PFA_OPENGL_PROFILE, version,
        NS_OPENGL_PFA_COLOR_SIZE, 24,
        NS_OPENGL_PFA_ALPHA_SIZE, 8,
        NS_OPENGL_PFA_DOUBLE_BUFFER,
        NS_OPENGL_PFA_ACCELERATED,
        0,
    ];
    assert(r@ =~= pixel_format_attribs_of(*config));
    r
}

/// A native call that the driver is asked to perform. An object that a call
/// returns is the `address` of the reply.
#[derive(Clone, Copy, Debug, PartialEq, Eq, Structural)]
pub enum Call {
    /// Make a pixel format from [`pixel_format_attribs`].
    CreatePixelFormat,
    /// Make a GL view with the frame of `parent` and the pixel format.
    CreateView { parent: usize, pixel_format: usize },
    Retain { object: usize },
    Release { object: usize },
    /// Have the view display itself for the first time.
    Display { view: usize },
    AddSubview { parent: usize, view: usize },
    /// Ask the view for its context.
    GetContext { view: usize },
    MakeCurrentContext { context: usize },
    ClearCurrentContext,
    FlushBuffer { context: usize },
    /// Mark the view as in need of display.
    SetNeedsDisplay { view: usize },
    /// Look the symbol up in `bundle`, the system's OpenGL framework.
    GetFunctionPointer { bundle: usize },
}

/// The context that is current on a thread bound as `thread` once `call` has
/// been made.
pub open spec fn binding_after_call(call: Call, thread: ThreadBinding) -> ThreadBinding {
    match call {
        Call::MakeCurrentContext { context } => thread.bound(context),
        Call::ClearCurrentContext => thread.released(),
        _ => thread,
    }
}

/// Follows the binding of the calling thread over one native call.
pub fn follow(call: &Call, thread: &mut ThreadBinding)
    ensures
        *final(thread) == binding_after_call(*call, *old(thread)),
{
    match call {
        Call::MakeCurrentContext { context } => {
            thread.current = Some(*context);
        },
        Call::ClearCurrentContext => {
            thread.current = None;
        },
        _ => {},
    }
}

/// A context with the view it draws to, both owned: the view sits in the
/// hierarchy of the caller's view. A handle cannot be duplicated, and is gone
/// once it is torn down.
#[derive(Debug, PartialEq, Eq, Structural)]
pub struct GlContext {
    pub view: usize,
    pub context: usize,
}

/// How far the creation of a context has come.
#[derive(Clone, Copy, Debug, PartialEq, Eq, Structural)]
pub enum Stage {
    CreatingPixelFormat,
    CreatingView,
    RetainingView,
    Displaying,
    Inserting,
    GettingContext,
    RetainingContext,
    ReleasingPixelFormat,
    /// The creation has failed for the reason held and releases what it
    /// holds, last acquired first.
    Dismantling(CreationFailedError),
}

/// A creation under way. An object that is 0 is not held.
#[derive(Clone, Copy, Debug, PartialEq, Eq)]
pub struct Negotiation {
    pub parent: usize,
    pub config: GlConfig,
    pub stage: Stage,
    pub pixel_format: usize,
    pub view: usize,
    pub context: usize,
}

/// Where a creation stands after a reply.
#[derive(Debug, PartialEq, Eq)]
pub enum Progress {
    Pending(Negotiation),
    Finished(Result<GlContext, GlError>),
}

impl Negotiation {
    /// The creation at another stage.
    pub open spec fn at(self, stage: Stage) -> Negotiation {
        Negotiation { stage, ..self }
    }

    /// The object that a failed creation releases next, if it holds any: the
    /// view before the pixel format.
    pub open spec fn release_of(self) -> Option<usize> {
        if self.view != 0 {
            Some(self.view)
        } else if self.pixel_format != 0 {
            Some(self.pixel_format)
        } else {
            None
        }
    }

    /// The creation once the release that [`Negotiation::release_of`] names
    /// has been made.
    pub open spec fn let_go(self) -> Negotiation {
        if self.view != 0 {
            Negotiation { view: 0, ..self }
        } else {
            Negotiation { pixel_format: 0, ..self }
        }
    }

    /// Where a creation that has failed for `reason` stands: it releases what
    /// it holds, and then reports the failure.
    pub open spec fn failed(self, reason: CreationFailedError) -> Progress {
        if self.release_of() is None {
            Progress::Finished(Err(GlError::CreationFailed(reason)))
        } else {
            Progress::Pending(self.at(Stage::Dismantling(reason)))
        }
    }

    /// The native call that the creation waits for.
    pub open spec fn call_of(self) -> Call {
        match self.stage {
            Stage::CreatingPixelFormat => Call::CreatePixelFormat,
            Stage::CreatingView => Call::CreateView {
                parent: self.parent,
                pixel_format: self.pixel_format,
            },
            Stage::RetainingView => Call::Retain { object: self.view },
            Stage::Displaying => Call::Display { view: self.view },
            Stage::Inserting => Call::AddSubview { parent: self.parent, view: self.view },
            Stage::GettingContext => Call::GetContext { view: self.view },
            Stage::RetainingContext => Call::Retain { object: self.context },
            Stage::ReleasingPixelFormat => Call::Release { object: self.pixel_format },
            Stage::Dismantling(_) => Call::Release {
                object: if self.view != 0 {
                    self.view
                } else {
                    self.pixel_format
                },
            },
        }
    }

    /// Where the creation stands once the call it waited for has been
    /// answered by `reply`.
    ///
    /// A pixel format that is null ends the creation with `InvalidFBConfig`,
    /// a view or a context that is null with `ContextCreationFailed`, once
    /// what the creation holds by then is released. The replies to the other
    /// calls are not read.
    pub open spec fn step(self, reply: Reply) -> Progress {
        match self.stage {
            Stage::CreatingPixelFormat => if reply.address == 0 {
                self.failed(CreationFailedError::InvalidFBConfig)
            } else {
                Progress::Pending(
                    Negotiation { pixel_format: reply.address, ..self }.at(Stage::CreatingView),
                )
            },
            Stage::CreatingView => if reply.address == 0 {
                self.failed(CreationFailedError::ContextCreationFailed)
            } else {
                Progress::Pending(
                    Negotiation { view: reply.address, ..self }.at(Stage::RetainingView),
                )
            },
            Stage::RetainingView => Progress::Pending(self.at(Stage::Displaying)),
            Stage::Displaying => Progress::Pending(self.at(Stage::Inserting)),
            Stage::Inserting => Progress::Pending(self.at(Stage::GettingContext)),
            Stage::GettingContext => if reply.address == 0 {
                self.failed(CreationFailedError::ContextCreationFailed)
            } else {
                Progress::Pending(
                    Negotiation { context: reply.address, ..self }.at(Stage::RetainingContext),
                )
            },
            Stage::RetainingContext => Progress::Pending(self.at(Stage::ReleasingPixelFormat)),
            Stage::ReleasingPixelFormat => Progress::Finished(
                Ok(GlContext { view: self.view, context: self.context }),
            ),
            Stage::Dismantling(reason) => self.let_go().failed(reason),
        }
    }

    /// Computes [`Negotiation::failed`].
    fn fail(self, reason: CreationFailedError) -> (r: Progress)
        ensures
            r == self.failed(reason),
    {
        if self.view == 0 && self.pixel_format == 0 {
            Progress::Finished(Err(GlError::CreationFailed(reason)))
        } else {
            let mut next = self;
            next.stage = Stage::Dismantling(reason);
            Progress::Pending(next)
        }
    }

    /// Moves the creation on to `stage`.
    fn proceed(self, stage: Stage) -> (r: Progress)
        ensures
            r == Progress::Pending(self.at(stage)),
    {
        let mut next = self;
        next.stage = stage;
        Progress::Pending(next)
    }

    /// The native call to perform next.
    pub fn call(&self) -> (r: Call)
        ensures
            r == self.call_of(),
    {
        match self.stage {
            Stage::CreatingPixelFormat => Call::CreatePixelFormat,
            Stage::CreatingView => Call::CreateView {
                parent: self.parent,
                pixel_format: self.pixel_format,
            },
            Stage::RetainingView => Call::Retain { object: self.view },
            Stage::Displaying => Call::Display { view: self.view },
            Stage::Inserting => Call::AddSubview { parent: self.parent, view: self.view },
            Stage::GettingContext => Call::GetContext { view: self.view },
            Stage::RetainingContext => Call::Retain { object: self.context },
            Stage::ReleasingPixelFormat => Call::Release { object: self.pixel_format },
            Stage::Dismantling(_) => Call::Release {
                object: if self.view != 0 {
                    self.view
                } else {
                    self.pixel_format
                },
            },
        }
    }

    /// Takes the reply to the call that [`Negotiation::call`] asked for.
    pub fn advance(self, reply: Reply) -> (r: Progress)
        ensures
            r == self.step(reply),
    {
        let mut next = self;
        match self.stage {
            Stage::CreatingPixelFormat => if reply.address == 0 {
                self.fail(CreationFailedError::InvalidFBConfig)
            } else {
                next.pixel_format = reply.address;
                next.proceed(Stage::CreatingView)
            },
            Stage::CreatingView => if reply.address == 0 {
                self.fail(CreationFailedError::ContextCreationFailed)
            } else {
                next.view = reply.address;
                next.proceed(Stage::RetainingView)
            },
            Stage::RetainingView => self.proceed(Stage::Displaying),
            Stage::Displaying => self.proceed(Stage::Inserting),
            Stage::Inserting => self.proceed(Stage::GettingContext),
            Stage::GettingContext => if reply.address == 0 {
                self.fail(CreationFailedError::ContextCreationFailed)
            } else {
                next.context = reply.address;
                next.proceed(Stage::RetainingContext)
            },
            Stage::RetainingContext => self.proceed(Stage::ReleasingPixelFormat),
            Stage::ReleasingPixelFormat => Progress::Finished(
                Ok(GlContext { view: self.view, context: self.context }),
            ),
            Stage::Dismantling(reason) => {
                if self.view != 0 {
                    next.view = 0;
                } else {
                    next.pixel_format = 0;
                }
                next.fail(reason)
            },
        }
    }
}

/// What beginning a creation for `handle` gives: a creation that holds
/// nothing and waits for the pixel format, or the rejection of the handle.
pub open spec fn begun(handle: WindowHandle, config: GlConfig) -> Result<Negotiation, GlError> {
    match handle {
        WindowHandle::MacOS { ns_view } if ns_view != 0 => Ok(
            Negotiation {
                parent: ns_view,
                config,
                stage: Stage::CreatingPixelFormat,
                pixel_format: 0,
                view: 0,
                context: 0,
            },
        ),
        _ => Err(GlError::InvalidWindowHandle),
    }
}

impl GlContext {
    /// Begins the creation of a context for the view `handle`.
    ///
    /// A handle of another window system, or one whose view is null, is
    /// rejected here, before any native call is asked for.
    pub fn create(handle: &WindowHandle, config: GlConfig) -> (r: Result<Negotiation, GlError>)
        ensures
            r == begun(*handle, config),
            r is Ok <==> handle.usable_on(Platform::MacOs),
            r is Err ==> r == Err::<Negotiation, GlError>(GlError::InvalidWindowHandle),
    {
        match handle {
            WindowHandle::MacOS { ns_view } => {
                if *ns_view == 0 {
                    return Err(GlError::InvalidWindowHandle);
                }
                Ok(
                    Negotiation {
                        parent: *ns_view,
                        config,
                        stage: Stage::CreatingPixelFormat,
                        pixel_format: 0,
                        view: 0,
                        context: 0,
                    },
                )
            },
            _ => Err(GlError::InvalidWindowHandle),
        }
    }

    /// The call that makes the context current on the calling thread.
    pub fn make_current(&self) -> (r: Call)
        ensures
            r == (Call::MakeCurrentContext { context: self.context }),
    {
        Call::MakeCurrentContext { context: self.context }
    }

    /// The call that makes nothing current on the calling thread.
    pub fn make_not_current(&self) -> (r: Call)
        ensures
            r == Call::ClearCurrentContext,
    {
        Call::ClearCurrentContext
    }

    /// The calls that presenting takes, in order.
    pub open spec fn presentation_of(self) -> Seq<Call> {
        seq![Call::FlushBuffer { context: self.context }, Call::SetNeedsDisplay { view: self.view }]
    }

    /// The calls that present the back buffer, in the order in which to make
    /// them: the context is flushed, and the view is then marked as in need of
    /// display, without which the host may not draw it again.
    pub fn swap_buffers(&self) -> (r: Vec<Call>)
        ensures
            r@ == self.presentation_of(),
    {
        let r = vec![
            Call::FlushBuffer { context: self.context },
            Call::SetNeedsDisplay { view: self.view },
        ];
        assert(r@ =~= self.presentation_of());
        r
    }

    /// The lookup of a symbol in `bundle`, the bundle of [`OPENGL_FRAMEWORK`]
    /// as the driver found it. Without the framework there is nothing to ask:
    /// the symbol is not found, and its address is null.
    pub fn get_proc_address(&self, bundle: usize) -> (r: Option<Call>)
        ensures
            bundle == 0 ==> r is None,
            bundle != 0 ==> r == Some(Call::GetFunctionPointer { bundle }),
    {
        if bundle == 0 {
            None
        } else {
            Some(Call::GetFunctionPointer { bundle })
        }
    }

    /// The releases that dropping the handle takes, in order.
    pub open spec fn teardown_of(self) -> Seq<Call> {
        seq![Call::Release { object: self.context }, Call::Release { object: self.view }]
    }

    /// The native calls that release what the handle owns, in the order in
    /// which to make them: the context, then the view. Each is named once,
    /// and the hierarchy that the view sits in is not touched.
    pub fn teardown(self) -> (r: Vec<Call>)
        ensures
            r@ == self.teardown_of(),
    {
        let r = vec![Call::Release { object: self.context }, Call::Release { object: self.view }];
        assert(r@ =~= self.teardown_of());
        r
    }
}

/// A creation never asks for a call that binds or releases a context: the
/// thread is bound after it as it was before. A context that succeeds in
/// being created is therefore not current, unless the thread was bound to
/// its address already.
pub proof fn lemma_creation_leaves_binding(negotiation: Negotiation, thread: ThreadBinding)
    ensures
        binding_after_call(negotiation.call_of(), thread) == thread,
{
}

/// Every reply keeps a creation on the view it was begun for, and a creation
/// that succeeds hands out the view and the context that it was given.
pub proof fn lemma_created_holds_what_it_made(negotiation: Negotiation, reply: Reply)
    ensures
        match negotiation.step(reply) {
            Progress::Pending(next) => next.parent == negotiation.parent && next.config
                == negotiation.config,
            Progress::Finished(Ok(made)) => made.view == negotiation.view && made.context
                == negotiation.context,
            Progress::Finished(Err(_)) => true,
        },
{
}

/// Making a context current binds it to the thread, clearing the current
/// context releases it, and presenting leaves the binding alone.
pub proof fn lemma_binding_follows_calls(context: GlContext, thread: ThreadBinding)
    ensures
        binding_after_call(
            Call::MakeCurrentContext { context: context.context },
            thread,
        ).state_of(context.context) == ContextState::Current,
        binding_after_call(Call::ClearCurrentContext, thread).state_of(context.context)
            == ContextState::NotCurrent,
        binding_after_call(context.presentation_of()[0], thread) == thread,
        binding_after_call(context.presentation_of()[1], thread) == thread,
{
}


/// A bound on the number of native calls that a creation can still ask for.
pub open spec fn calls_left(negotiation: Negotiation) -> nat {
    match negotiation.stage {
        Stage::CreatingPixelFormat => 10,
        Stage::CreatingView => 9,
        Stage::RetainingView => 8,
        Stage::Displaying => 7,
        Stage::Inserting => 6,
        Stage::GettingContext => 5,
        Stage::RetainingContext => 4,
        Stage::ReleasingPixelFormat => 3,
        Stage::Dismantling(_) => if negotiation.view != 0 && negotiation.pixel_format != 0 {
            2
        } else {
            1
        },
    }
}

/// Every reply brings a creation nearer its end, whether it goes on or
/// releases what it holds.
pub proof fn lemma_creation_ends(negotiation: Negotiation, reply: Reply)
    ensures
        negotiation.step(reply) matches Progress::Pending(next) ==> calls_left(next) < calls_left(
            negotiation,
        ),
{
}

/// A failed creation releases the view, where it holds one, before the pixel
/// format, and reports the reason it failed for once it holds neither.
pub proof fn lemma_failure_releases_in_order(
    negotiation: Negotiation,
    reason: CreationFailedError,
    first: Reply,
    second: Reply,
)
    requires
        negotiation.stage == Stage::Dismantling(reason),
        negotiation.view != 0,
        negotiation.pixel_format != 0,
    ensures
        negotiation.call_of() == (Call::Release { object: negotiation.view }),
        ({
            &&& negotiation.step(first) matches Progress::Pending(next)
            &&& next.call_of() == (Call::Release { object: negotiation.pixel_format })
            &&& next.step(second) == Progress::Finished(Err(GlError::CreationFailed(reason)))
        }),
{
}


/// Whether a creation that is dismantling has something left to release.
/// Where this holds, the call that the creation waits for is that release.
pub open spec fn has_work(negotiation: Negotiation) -> bool {
    negotiation.stage is Dismantling ==> negotiation.release_of() is Some
}

/// A creation never waits without a call to make: one that has just begun
/// has work, and every reply leaves it with work or ends it.
pub proof fn lemma_creation_has_work(
    handle: WindowHandle,
    config: GlConfig,
    negotiation: Negotiation,
    reply: Reply,
)
    ensures
        begun(handle, config) matches Ok(first) ==> has_work(first),
        negotiation.step(reply) matches Progress::Pending(next) ==> has_work(next),
{
}


/// Where `progress` stands after one more reply: a creation that has
/// finished reads no reply.
pub open spec fn then(progress: Progress, reply: Reply) -> Progress {
    match progress {
        Progress::Pending(negotiation) => negotiation.step(reply),
        finished => finished,
    }
}

/// Where `progress` stands after the replies `replies`, in order.
pub open spec fn ran(progress: Progress, replies: Seq<Reply>) -> Progress
    decreases replies.len(),
{
    if replies.len() == 0 {
        progress
    } else {
        ran(then(progress, replies[0]), replies.drop_first())
    }
}

/// The context that is current on the thread after the replies `replies`
/// to a creation that stands at `progress`.
pub open spec fn bound_after(progress: Progress, replies: Seq<Reply>, thread: ThreadBinding) -> ThreadBinding
    decreases replies.len(),
{
    if replies.len() == 0 {
        thread
    } else {
        bound_after(
            then(progress, replies[0]),
            replies.drop_first(),
            match progress {
                Progress::Pending(waiting) => binding_after_call(waiting.call_of(), thread),
                _ => thread,
            },
        )
    }
}

/// A creation in which the pixel format, the view and the context are not
/// null takes eight calls and hands out the view and its context. The thread
/// is bound after it as it was before: the new context is not current,
/// unless the thread was bound to the address that the context got.
pub proof fn lemma_creation_succeeds(
    ns_view: usize,
    config: GlConfig,
    replies: Seq<Reply>,
    thread: ThreadBinding,
)
    requires
        ns_view != 0,
        replies.len() == 8,
        replies[0].address != 0,
        replies[1].address != 0,
        replies[5].address != 0,
    ensures
        ({
            &&& begun(WindowHandle::MacOS { ns_view }, config) matches Ok(negotiation)
            &&& ran(Progress::Pending(negotiation), replies) == Progress::Finished(
                Ok(GlContext { view: replies[1].address, context: replies[5].address }),
            )
            &&& bound_after(Progress::Pending(negotiation), replies, thread) == thread
            &&& thread.current != Some(replies[5].address) ==> bound_after(
                Progress::Pending(negotiation),
                replies,
                thread,
            ).state_of(replies[5].address) == ContextState::NotCurrent
        }),
{
    reveal_with_fuel(ran, 9);
    reveal_with_fuel(bound_after, 9);
}

} // verus!
