use vstd::prelude::*;

use crate::error::Error;

verus! {

/// The slot of the error callback: set once, never replaced.
pub struct ErrorReporter<C> {
    handler: Option<C>,
}

/// What registering `candidate` leaves in a slot that held `slot`, and what
/// the registration returns.
pub open spec fn register_outcome<C>(slot: Option<C>, candidate: C) -> (Option<C>, Result<(), Error>) {
    match slot {
        None => (Some(candidate), Ok(())),
        Some(c) => (Some(c), Err(Error::HandlerAlreadyRegistered)),
    }
}

/// Registering a second callback fails with `HandlerAlreadyRegistered`, and
/// the first one stays in effect.
pub proof fn lemma_register_twice<C>(slot: Option<C>, first: C, second: C)
    requires
        slot is None,
    ensures
        register_outcome(slot, first).1 == Ok::<(), Error>(()),
        register_outcome(register_outcome(slot, first).0, second).1 == Err::<(), Error>(
            Error::HandlerAlreadyRegistered,
        ),
        register_outcome(register_outcome(slot, first).0, second).0 == Some(first),
{
}

impl<C> ErrorReporter<C> {
    /// The registered callback, if any.
    pub closed spec fn handler(&self) -> Option<C> {
        self.handler
    }

    /// A slot with no callback.
    pub fn new() -> (r: Self)
        ensures
            r.handler() is None,
    {
        ErrorReporter { handler: None }
    }

    /// Registers the callback; the first registration wins, and any later one
    /// fails with `HandlerAlreadyRegistered` and changes nothing.
    pub fn register(&mut self, handler: C) -> (r: Result<(), Error>)
        ensures
            (final(self).handler(), r) == register_outcome(old(self).handler(), handler),
    {
        if self.handler.is_some() {
            Err(Error::HandlerAlreadyRegistered)
        } else {
            self.handler = Some(handler);
            Ok(())
        }
    }

    /// The callback to notify of a failure, or `None` when none is registered.
    pub fn get(&self) -> (r: Option<&C>)
        ensures
            match r {
                None => self.handler() is None,
                Some(c) => self.handler() == Some(*c),
            },
    {
        self.handler.as_ref()
    }
}

} // verus!
