//! Turning the X server's process-wide, asynchronous error callback into the
//! result of one operation.
//!
//! A scope opens when the driver has installed a callback that only records,
//! and has learned which callback was installed before. It closes when the
//! driver has forced a round trip with the server: what the callback recorded
//! decides the scope's result, and the earlier callback goes back in place.

use vstd::prelude::*;
use crate::error::XLibError;

verus! {

/// An open interception scope: the callback to put back, and the first error
/// recorded since the last check.
#[derive(Clone, Copy, Debug, PartialEq, Eq)]
pub struct XErrorHandler {
    pub previous: usize,
    pub error: Option<XLibError>,
}

impl XErrorHandler {
    /// The scope after the callback has been told of `delivered`: the first
    /// error stays, later ones are dropped.
    pub open spec fn delivered(self, delivered: Option<u8>) -> XErrorHandler {
        match (self.error, delivered) {
            (None, Some(code)) => XErrorHandler {
                previous: self.previous,
                error: Some(XLibError { error_code: code }),
            },
            _ => self,
        }
    }

    /// A scope that has just opened over the callback `previous`.
    pub open spec fn opened(previous: usize) -> XErrorHandler {
        XErrorHandler { previous, error: None }
    }

    /// What the scope hands back when it closes around `result`.
    pub open spec fn verdict<T>(self, result: T) -> Result<T, XLibError> {
        match self.error {
            Some(e) => Err(e),
            None => Ok(result),
        }
    }

    /// Opens a scope. `previous` is the callback that the recording one
    /// replaced.
    pub fn install(previous: usize) -> (r: XErrorHandler)
        ensures
            r == Self::opened(previous),
    {
        XErrorHandler { previous, error: None }
    }

    /// Takes in what the callback saw during the last native call.
    pub fn deliver(&mut self, delivered: Option<u8>)
        ensures
            *final(self) == old(self).delivered(delivered),
    {
        if self.error.is_none() {
            if let Some(code) = delivered {
                self.error = Some(XLibError { error_code: code });
            }
        }
    }

    /// Reports the recorded error, if any, and forgets it. The driver forces
    /// a round trip before it delivers, so that the error of a call has
    /// arrived by the time of the check that follows it.
    pub fn check(&mut self) -> (r: Result<(), XLibError>)
        ensures
            r == old(self).verdict(()),
            final(self).previous == old(self).previous,
            final(self).error is None,
    {
        let error = self.error;
        self.error = None;
        match error {
            Some(e) => Err(e),
            None => Ok(()),
        }
    }

    /// Closes the scope around the wrapped operation's `result`: hands back
    /// the callback to install again and, where an error was recorded, that
    /// error in place of the result.
    pub fn finish<T>(self, result: T) -> (r: (usize, Result<T, XLibError>))
        ensures
            r.0 == self.previous,
            r.1 == self.verdict(result),
    {
        let previous = self.previous;
        match self.error {
            Some(e) => (previous, Err(e)),
            None => (previous, Ok(result)),
        }
    }
}

/// A scope around an operation during which the server raises no error
/// hands back the operation's own result, and names the callback that was
/// installed before it as the one to install again.
pub proof fn lemma_quiet_scope_is_transparent<T>(previous: usize, result: T)
    ensures
        XErrorHandler::opened(previous).delivered(None).verdict(result) == Ok::<T, XLibError>(
            result,
        ),
        XErrorHandler::opened(previous).delivered(None).previous == previous,
{
}

/// Whatever the server raises, a scope goes on naming the same callback as
/// the one to install again.
pub proof fn lemma_scope_keeps_its_callback(scope: XErrorHandler, delivered: Option<u8>)
    ensures
        scope.delivered(delivered).previous == scope.previous,
{
}

/// Of several errors raised inside one scope, the first is the one reported.
pub proof fn lemma_first_error_wins<T>(scope: XErrorHandler, first: u8, second: Option<u8>, result: T)
    requires
        scope.error is None,
    ensures
        scope.delivered(Some(first)).delivered(second).verdict(result) == Err::<T, XLibError>(
            XLibError { error_code: first },
        ),
{
}

} // verus!
