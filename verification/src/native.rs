//! What passes between the library and the driver that performs native calls.

use vstd::prelude::*;

verus! {

/// What a native call returned.
///
/// `status` holds an integer result (a count, a boolean, a pixel format),
/// `address` a pointer or handle as an integer with 0 for null, and `error` the
/// code of the first protocol error that the X server delivered since the last
/// reply, if any. A field that the call does not produce is left at 0 or `None`.
#[derive(Clone, Copy, Debug, PartialEq, Eq)]
pub struct Reply {
    pub status: i32,
    pub address: usize,
    pub error: Option<u8>,
}

/// The context that is current on the calling thread, by its native address.
#[derive(Clone, Copy, Debug, PartialEq, Eq)]
pub struct ThreadBinding {
    pub current: Option<usize>,
}

/// Whether a context is the one its thread renders with.
#[derive(Clone, Copy, Debug, PartialEq, Eq, Structural)]
pub enum ContextState {
    NotCurrent,
    Current,
}

impl ThreadBinding {
    /// The state of the context at `context` on this thread.
    pub open spec fn state_of(self, context: usize) -> ContextState {
        if self.current == Some(context) {
            ContextState::Current
        } else {
            ContextState::NotCurrent
        }
    }

    /// The thread once the context at `context` has been made current on it.
    pub open spec fn bound(self, context: usize) -> ThreadBinding {
        ThreadBinding { current: Some(context) }
    }

    /// The thread once what was current on it has been made not current.
    pub open spec fn released(self) -> ThreadBinding {
        ThreadBinding { current: None }
    }

    /// The thread after `rounds` rounds of making the context at `context`
    /// current and then not current.
    pub open spec fn cycled(self, context: usize, rounds: nat) -> ThreadBinding
        decreases rounds,
    {
        if rounds == 0 {
            self
        } else {
            self.bound(context).released().cycled(context, (rounds - 1) as nat)
        }
    }

    /// A thread on which nothing is current.
    pub fn new() -> (r: ThreadBinding)
        ensures
            r.current is None,
    {
        ThreadBinding { current: None }
    }

    /// Computes [`ThreadBinding::state_of`].
    pub fn state(&self, context: usize) -> (r: ContextState)
        ensures
            r == self.state_of(context),
    {
        match self.current {
            Some(c) => if c == context {
                ContextState::Current
            } else {
                ContextState::NotCurrent
            },
            None => ContextState::NotCurrent,
        }
    }
}


/// Whether `name` can be the name of an exported symbol: a native lookup
/// takes a name that ends at its first zero byte, so a name with a zero byte
/// in it names nothing.
pub open spec fn exportable(name: Seq<u8>) -> bool {
    forall|i: int| 0 <= i < name.len() ==> name[i] != 0
}

/// Computes [`exportable`]. Where it does not hold the driver asks for no
/// lookup: the address of the symbol is null.
pub fn is_exportable(name: &[u8]) -> (r: bool)
    ensures
        r == exportable(name@),
{
    let mut i: usize = 0;
    while i < name.len()
        invariant
            i <= name.len(),
            forall|j: int| 0 <= j < i ==> name@[j] != 0,
        decreases name.len() - i,
    {
        if name[i] == 0 {
            return false;
        }
        i += 1;
    }
    true
}

/// A context that is not current becomes current when it is made so, and not
/// current again when that is undone, as many times over as one likes.
pub proof fn lemma_current_cycle_repeats(thread: ThreadBinding, context: usize, rounds: nat)
    requires
        thread.state_of(context) == ContextState::NotCurrent,
    ensures
        thread.bound(context).state_of(context) == ContextState::Current,
        thread.bound(context).released().state_of(context) == ContextState::NotCurrent,
        thread.cycled(context, rounds).state_of(context) == ContextState::NotCurrent,
        thread.cycled(context, rounds).bound(context).state_of(context) == ContextState::Current,
    decreases rounds,
{
    if rounds > 0 {
        lemma_current_cycle_repeats(
            thread.bound(context).released(),
            context,
            (rounds - 1) as nat,
        );
    }
}

/// Two contexts can be driven in turn from one thread: whichever was made
/// current last is current, the other is not, and neither stands in the way
/// of the other being made current afterwards.
pub proof fn lemma_contexts_take_turns(thread: ThreadBinding, first: usize, second: usize)
    requires
        first != second,
    ensures
        thread.bound(first).state_of(first) == ContextState::Current,
        thread.bound(first).state_of(second) == ContextState::NotCurrent,
        thread.bound(first).released().bound(second).state_of(second) == ContextState::Current,
        thread.bound(first).released().bound(second).state_of(first) == ContextState::NotCurrent,
        thread.bound(first).bound(second).state_of(second) == ContextState::Current,
        thread.bound(first).bound(second).state_of(first) == ContextState::NotCurrent,
        thread.bound(first).bound(second).bound(first).state_of(first) == ContextState::Current,
{
}

} // verus!
