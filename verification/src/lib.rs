//! Platform-uniform creation and driving of an OpenGL context bound to an
//! existing native window.
//!
//! The library holds the decisions of the three native protocols (GLX, WGL and
//! NSOpenGL): which native call comes next, with which arguments, and what each
//! reply means. A driver performs the calls and hands the replies back.

use vstd::prelude::*;
use crate::config::GlConfig;
use crate::error::GlError;
use crate::handle::{Platform, WindowHandle};
use crate::native::{exportable, is_exportable, ContextState, Reply, ThreadBinding};

pub mod config;
pub mod error;
pub mod handle;
pub mod macos;
pub mod native;
pub mod win;
pub mod x11;

verus! {

/// The context of one of the backends.
#[derive(Debug, PartialEq, Eq)]
pub enum Backend {
    X11(x11::GlContext),
    Windows(win::GlContext),
    MacOs(macos::GlContext),
}

/// A creation under way in one of the backends.
#[derive(Clone, Copy, Debug, PartialEq, Eq)]
pub enum Creation {
    X11(x11::Negotiation),
    Windows(win::Negotiation),
    MacOs(macos::Negotiation),
}

/// A native call of one of the backends.
#[derive(Clone, Copy, Debug, PartialEq, Eq)]
pub enum Call {
    X11(x11::Call),
    Windows(win::Call),
    MacOs(macos::Call),
}

/// Where a creation stands after a reply.
pub enum Progress {
    Pending(Creation),
    Finished(Result<GlContext, GlError>),
}

/// What a reply makes of a creation: it goes on, or it ends with the context
/// of its backend or with an error.
pub enum Stepped {
    Pending(Creation),
    Made(Backend),
    Failed(GlError),
}

/// What a backend asks for to bind, release or present: an operation in an
/// interception scope, or plain calls to make in order.
pub enum Request {
    /// No native call at all.
    Nothing,
    X11(x11::Operation),
    Windows(Vec<win::Call>),
    MacOs(Vec<macos::Call>),
}

/// Where a symbol is found.
#[derive(Clone, Copy, Debug, PartialEq, Eq)]
pub enum Lookup {
    /// At this address, null where the symbol is not exported.
    Found(usize),
    /// Where the native call held finds it.
    Ask(Call),
}

/// A context of the backend that was chosen at creation. It is driven from
/// one thread at a time: it cannot be copied, nor sent to another thread.
pub struct GlContext {
    pub context: Backend,
    pub phantom: std::marker::PhantomData<std::rc::Rc<()>>,
}

/// What beginning a creation on `platform` gives.
pub open spec fn begun(platform: Platform, handle: WindowHandle, config: GlConfig) -> Result<
    Creation,
    GlError,
> {
    match platform {
        Platform::X11 => match x11::begun(handle, config) {
            Ok(n) => Ok(Creation::X11(n)),
            Err(e) => Err(e),
        },
        Platform::Windows => match win::begun(handle, config) {
            Ok(n) => Ok(Creation::Windows(n)),
            Err(e) => Err(e),
        },
        Platform::MacOs => match macos::begun(handle, config) {
            Ok(n) => Ok(Creation::MacOs(n)),
            Err(e) => Err(e),
        },
    }
}

impl Creation {
    /// The native call that the creation waits for.
    pub open spec fn call_of(self) -> Call {
        match self {
            Creation::X11(n) => Call::X11(n.call_of()),
            Creation::Windows(n) => Call::Windows(n.call_of()),
            Creation::MacOs(n) => Call::MacOs(n.call_of()),
        }
    }

    /// What the backend makes of `reply`.
    pub open spec fn step(self, reply: Reply) -> Stepped {
        match self {
            Creation::X11(n) => match n.step(reply) {
                x11::Progress::Pending(next) => Stepped::Pending(Creation::X11(next)),
                x11::Progress::Finished(Ok(made)) => Stepped::Made(Backend::X11(made)),
                x11::Progress::Finished(Err(e)) => Stepped::Failed(e),
            },
            Creation::Windows(n) => match n.step(reply) {
                win::Progress::Pending(next) => Stepped::Pending(Creation::Windows(next)),
                win::Progress::Finished(Ok(made)) => Stepped::Made(Backend::Windows(made)),
                win::Progress::Finished(Err(e)) => Stepped::Failed(e),
            },
            Creation::MacOs(n) => match n.step(reply) {
                macos::Progress::Pending(next) => Stepped::Pending(Creation::MacOs(next)),
                macos::Progress::Finished(Ok(made)) => Stepped::Made(Backend::MacOs(made)),
                macos::Progress::Finished(Err(e)) => Stepped::Failed(e),
            },
        }
    }

    /// The context that is current on the thread once `reply` has come.
    pub open spec fn binding_after(self, reply: Reply, thread: ThreadBinding) -> ThreadBinding {
        match self {
            Creation::X11(n) => n.binding_after(reply, thread),
            Creation::Windows(n) => win::binding_after_call(n.call_of(), reply, thread),
            Creation::MacOs(n) => thread,
        }
    }

    /// The native call to perform next.
    pub fn call(&self) -> (r: Call)
        ensures
            r == self.call_of(),
    {
        match self {
            Creation::X11(n) => Call::X11(n.call()),
            Creation::Windows(n) => Call::Windows(n.call()),
            Creation::MacOs(n) => Call::MacOs(n.call()),
        }
    }

    /// Hands the reply to the backend, and wraps what it makes of it.
    pub fn advance(self, reply: Reply, thread: &mut ThreadBinding) -> (r: Progress)
        ensures
            *final(thread) == self.binding_after(reply, *old(thread)),
            match self.step(reply) {
                Stepped::Pending(next) => r matches Progress::Pending(c) && c == next,
                Stepped::Made(made) => r matches Progress::Finished(Ok(c)) && c.context == made,
                Stepped::Failed(e) => r matches Progress::Finished(Err(f)) && f == e,
            },
    {
        match self {
            Creation::X11(n) => match n.advance(reply, thread) {
                x11::Progress::Pending(next) => Progress::Pending(Creation::X11(next)),
                x11::Progress::Finished(Ok(made)) => Progress::Finished(
                    Ok(GlContext { context: Backend::X11(made), phantom: std::marker::PhantomData }),
                ),
                x11::Progress::Finished(Err(e)) => Progress::Finished(Err(e)),
            },
            Creation::Windows(n) => match n.advance(reply, thread) {
                win::Progress::Pending(next) => Progress::Pending(Creation::Windows(next)),
                win::Progress::Finished(Ok(made)) => Progress::Finished(
                    Ok(
                        GlContext {
                            context: Backend::Windows(made),
                            phantom: std::marker::PhantomData,
                        },
                    ),
                ),
                win::Progress::Finished(Err(e)) => Progress::Finished(Err(e)),
            },
            Creation::MacOs(n) => match n.advance(reply) {
                macos::Progress::Pending(next) => Progress::Pending(Creation::MacOs(next)),
                macos::Progress::Finished(Ok(made)) => Progress::Finished(
                    Ok(
                        GlContext {
                            context: Backend::MacOs(made),
                            phantom: std::marker::PhantomData,
                        },
                    ),
                ),
                macos::Progress::Finished(Err(e)) => Progress::Finished(Err(e)),
            },
        }
    }
}

impl GlContext {
    /// Begins the creation of a context on `platform` for the window `handle`.
    ///
    /// A handle of another platform, or one with a field that the platform
    /// needs and that is null, is rejected here, before any native call is
    /// asked for. Any other handle goes to the backend of `platform`.
    pub fn create(platform: Platform, handle: &WindowHandle, config: GlConfig) -> (r: Result<
        Creation,
        GlError,
    >)
        ensures
            r == begun(platform, *handle, config),
            r is Ok <==> handle.usable_on(platform),
            r is Err ==> r == Err::<Creation, GlError>(GlError::InvalidWindowHandle),
    {
        match handle.validate(platform) {
            Err(e) => return Err(e),
            Ok(()) => {},
        }
        match platform {
            Platform::X11 => match x11::GlContext::create(handle, config) {
                Ok(n) => Ok(Creation::X11(n)),
                Err(e) => Err(e),
            },
            Platform::Windows => match win::GlContext::create(handle, config) {
                Ok(n) => Ok(Creation::Windows(n)),
                Err(e) => Err(e),
            },
            Platform::MacOs => match macos::GlContext::create(handle, config) {
                Ok(n) => Ok(Creation::MacOs(n)),
                Err(e) => Err(e),
            },
        }
    }

    /// What the backend asks for to make the context current.
    pub fn make_current(&self) -> (r: Request)
        ensures
            match self.context {
                Backend::X11(c) => r matches Request::X11(op) && op == c.operation(
                    x11::Action::MakeCurrent,
                ),
                Backend::Windows(c) => r matches Request::Windows(calls) && calls@ == seq![
                    win::Call::MakeCurrent { hdc: c.hdc, hglrc: c.hglrc },
                ],
                Backend::MacOs(c) => r matches Request::MacOs(calls) && calls@ == seq![
                    macos::Call::MakeCurrentContext { context: c.context },
                ],
            },
    {
        match &self.context {
            Backend::X11(c) => Request::X11(c.make_current()),
            Backend::Windows(c) => {
                let calls = vec![c.make_current()];
                assert(calls@ =~= seq![win::Call::MakeCurrent { hdc: c.hdc, hglrc: c.hglrc }]);
                Request::Windows(calls)
            },
            Backend::MacOs(c) => {
                let calls = vec![c.make_current()];
                assert(calls@ =~= seq![macos::Call::MakeCurrentContext { context: c.context }]);
                Request::MacOs(calls)
            },
        }
    }

    /// What the backend asks for to make nothing current.
    pub fn make_not_current(&self) -> (r: Request)
        ensures
            match self.context {
                Backend::X11(c) => r matches Request::X11(op) && op == c.operation(
                    x11::Action::MakeNotCurrent,
                ),
                Backend::Windows(c) => r matches Request::Windows(calls) && calls@ == seq![
                    win::Call::MakeCurrent { hdc: c.hdc, hglrc: 0 },
                ],
                Backend::MacOs(c) => r matches Request::MacOs(calls) && calls@ == seq![
                    macos::Call::ClearCurrentContext,
                ],
            },
    {
        match &self.context {
            Backend::X11(c) => Request::X11(c.make_not_current()),
            Backend::Windows(c) => {
                let calls = vec![c.make_not_current()];
                assert(calls@ =~= seq![win::Call::MakeCurrent { hdc: c.hdc, hglrc: 0 }]);
                Request::Windows(calls)
            },
            Backend::MacOs(c) => {
                let calls = vec![c.make_not_current()];
                assert(calls@ =~= seq![macos::Call::ClearCurrentContext]);
                Request::MacOs(calls)
            },
        }
    }

    /// What the backend asks for to present the back buffer.
    pub fn swap_buffers(&self) -> (r: Request)
        ensures
            match self.context {
                Backend::X11(c) => r matches Request::X11(op) && op == c.operation(
                    x11::Action::SwapBuffers,
                ),
                Backend::Windows(c) => r matches Request::Windows(calls) && calls@ == seq![
                    win::Call::SwapBuffers { hdc: c.hdc },
                ],
                Backend::MacOs(c) => r matches Request::MacOs(calls) && calls@
                    == c.presentation_of(),
            },
    {
        match &self.context {
            Backend::X11(c) => Request::X11(c.swap_buffers()),
            Backend::Windows(c) => {
                let calls = vec![c.swap_buffers()];
                assert(calls@ =~= seq![win::Call::SwapBuffers { hdc: c.hdc }]);
                Request::Windows(calls)
            },
            Backend::MacOs(c) => Request::MacOs(c.swap_buffers()),
        }
    }

    /// Where the symbol named `symbol` is found, as the backend answers for
    /// the first answer that the driver got.
    pub open spec fn lookup_of(self, symbol: Seq<u8>, answer: usize) -> Lookup {
        if !exportable(symbol) {
            Lookup::Found(0)
        } else {
            match self.context {
                Backend::X11(c) => Lookup::Found(answer),
                Backend::Windows(c) => if answer != 0 {
                    Lookup::Found(answer)
                } else {
                    Lookup::Ask(Call::Windows(win::Call::GetProcAddress { module: c.gl_library }))
                },
                Backend::MacOs(c) => if answer != 0 {
                    Lookup::Ask(Call::MacOs(macos::Call::GetFunctionPointer { bundle: answer }))
                } else {
                    Lookup::Found(0)
                },
            }
        }
    }

    /// Where the symbol named `symbol` is found. A name with a zero byte in
    /// it names nothing, and its address is null: the driver asks nothing for
    /// it. For any other name `answer` is the first answer that the driver
    /// got: the address that GLX or the resolver of WGL gave, with 0 for
    /// none, or the address of the system's OpenGL framework on macOS.
    pub fn get_proc_address(&self, symbol: &[u8], answer: usize) -> (r: Lookup)
        ensures
            r == self.lookup_of(symbol@, answer),
    {
        if !is_exportable(symbol) {
            return Lookup::Found(0);
        }
        match &self.context {
            Backend::X11(c) => Lookup::Found(
                c.get_proc_address(
                    if answer != 0 {
                        Some(answer)
                    } else {
                        None
                    },
                ),
            ),
            Backend::Windows(c) => match c.get_proc_address(answer) {
                win::Resolution::Found(address) => Lookup::Found(address),
                win::Resolution::AskLibrary(call) => Lookup::Ask(Call::Windows(call)),
            },
            Backend::MacOs(c) => match c.get_proc_address(answer) {
                Some(call) => Lookup::Ask(Call::MacOs(call)),
                None => Lookup::Found(0),
            },
        }
    }

    /// What the backend asks for to release what the handle owns.
    pub fn teardown(self) -> (r: Request)
        ensures
            match self.context {
                Backend::X11(c) => r is Nothing,
                Backend::Windows(c) => r matches Request::Windows(calls) && calls@
                    == c.teardown_of(),
                Backend::MacOs(c) => r matches Request::MacOs(calls) && calls@ == c.teardown_of(),
            },
    {
        match self.context {
            Backend::X11(c) => Request::Nothing,
            Backend::Windows(c) => Request::Windows(c.teardown()),
            Backend::MacOs(c) => Request::MacOs(c.teardown()),
        }
    }
}


/// A handle with a null field that its backend needs is rejected as invalid
/// on every platform, before a creation exists that could ask for a native
/// call.
pub proof fn lemma_null_handles_are_rejected(
    platform: Platform,
    handle: WindowHandle,
    config: GlConfig,
)
    requires
        handle.has_null_field(),
    ensures
        begun(platform, handle, config) == Err::<Creation, GlError>(GlError::InvalidWindowHandle),
        x11::begun(handle, config) is Err,
        win::begun(handle, config) is Err,
        macos::begun(handle, config) is Err,
{
}

/// A handle of another platform than the backend's is rejected as invalid,
/// whatever it holds.
pub proof fn lemma_foreign_handles_are_rejected(
    platform: Platform,
    handle: WindowHandle,
    config: GlConfig,
)
    requires
        handle.platform_of() != Some(platform),
    ensures
        begun(platform, handle, config) == Err::<Creation, GlError>(GlError::InvalidWindowHandle),
        platform == Platform::X11 ==> x11::begun(handle, config) == Err::<
            x11::Negotiation,
            GlError,
        >(GlError::InvalidWindowHandle),
        platform == Platform::Windows ==> win::begun(handle, config) == Err::<
            win::Negotiation,
            GlError,
        >(GlError::InvalidWindowHandle),
        platform == Platform::MacOs ==> macos::begun(handle, config) == Err::<
            macos::Negotiation,
            GlError,
        >(GlError::InvalidWindowHandle),
{
}

/// A handle of the backend's platform with no null field is accepted, and
/// the creation that begins is the backend's.
pub proof fn lemma_usable_handles_are_accepted(
    platform: Platform,
    handle: WindowHandle,
    config: GlConfig,
)
    requires
        handle.usable_on(platform),
    ensures
        begun(platform, handle, config) is Ok,
        platform == Platform::X11 ==> begun(platform, handle, config)->Ok_0 is X11,
        platform == Platform::Windows ==> begun(platform, handle, config)->Ok_0 is Windows,
        platform == Platform::MacOs ==> begun(platform, handle, config)->Ok_0 is MacOs,
{
}


/// What holds between a creation under way and the thread it runs on, by
/// its backend.
pub open spec fn in_step(creation: Creation, thread: ThreadBinding) -> bool {
    match creation {
        Creation::X11(n) => x11::in_step(n, thread),
        Creation::Windows(n) => win::in_step(n, thread),
        Creation::MacOs(n) => true,
    }
}

/// A creation begins in step with any thread, every reply keeps it so, and
/// the context that it ends with is not current: on X11 and on Windows
/// nothing is current on the thread by then, and on macOS the creation has
/// left the thread bound as it was.
pub proof fn lemma_created_is_not_current(
    platform: Platform,
    handle: WindowHandle,
    config: GlConfig,
    creation: Creation,
    reply: Reply,
    thread: ThreadBinding,
)
    requires
        in_step(creation, thread),
    ensures
        begun(platform, handle, config) matches Ok(first) ==> in_step(first, thread),
        match creation.step(reply) {
            Stepped::Pending(next) => in_step(next, creation.binding_after(reply, thread)),
            Stepped::Made(Backend::X11(made)) => creation.binding_after(reply, thread).state_of(
                made.context,
            ) == ContextState::NotCurrent,
            Stepped::Made(Backend::Windows(made)) => creation.binding_after(
                reply,
                thread,
            ).state_of(made.hglrc) == ContextState::NotCurrent,
            Stepped::Made(Backend::MacOs(made)) => creation.binding_after(reply, thread) == thread,
            Stepped::Failed(_) => true,
        },
{
    x11::lemma_creation_begins_in_step(handle, config, thread);
    win::lemma_creation_begins_in_step(handle, config, thread);
    match creation {
        Creation::X11(n) => x11::lemma_created_is_not_current(n, reply, thread),
        Creation::Windows(n) => win::lemma_created_is_not_current(n, reply, thread),
        Creation::MacOs(n) => {},
    }
}


/// A symbol that is not found resolves to null, never to an address that no
/// native lookup gave: a lookup answers with the address that the driver
/// was given, with null, or with one more native call to make, whose answer
/// is the address. A name with a zero byte in it always resolves to null.
pub proof fn lemma_lookup_makes_up_no_address(context: GlContext, symbol: Seq<u8>, answer: usize)
    ensures
        context.lookup_of(symbol, answer) matches Lookup::Found(address) ==> address == 0
            || address == answer,
        !exportable(symbol) ==> context.lookup_of(symbol, answer) == Lookup::Found(0),
        answer == 0 && context.context is X11 ==> context.lookup_of(symbol, answer)
            == Lookup::Found(0),
{
}

} // verus!
