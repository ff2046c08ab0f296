//! How a handler is run: its arguments are extracted from the request, it is called with them, and
//! what it returns is what came of the request.
//!
//! Extraction and call are made outside, since they may have to wait. The decisions in between are
//! made here.

use crate::error::Error;
use vstd::prelude::*;

verus! {

/// A function that handles requests
pub struct Handler<F> {
    hnd: F,
}

/// What is to be done once the arguments of a handler have been extracted
pub enum HandlerStep<T, B> {
    /// Call the handler with the arguments.
    Call(T),
    /// Do not call the handler: this came of the request.
    Fail(Error<B>),
}

impl<F> Handler<F> {
    pub closed spec fn spec_hnd(&self) -> F {
        self.hnd
    }

    pub fn new(hnd: F) -> (res: Self)
        ensures
            res.spec_hnd() == hnd,
    {
        Handler { hnd }
    }

    /// The function that is called.
    pub fn hnd(&self) -> (res: &F)
        ensures
            *res == self.spec_hnd(),
    {
        &self.hnd
    }

    /// What is to be done with what the extraction of the arguments returned.
    pub fn after_extraction<T, B>(extracted: Result<T, Error<B>>) -> (res: HandlerStep<T, B>)
        ensures
            res == (match extracted {
                Ok(arguments) => HandlerStep::Call::<T, B>(arguments),
                Err(e) => HandlerStep::Fail(e),
            }),
    {
        match extracted {
            Ok(arguments) => HandlerStep::Call(arguments),
            Err(e) => HandlerStep::Fail(e),
        }
    }

    /// What came of the request, given what the function returned: its error is turned into an
    /// error object.
    pub fn after_call<S, E, B>(called: Result<S, E>) -> (res: Result<S, Error<B>>) where
        Error<B>: From<E>,

        ensures
            match (called, res) {
                (Ok(value), Ok(out)) => out == value,
                (Err(e), Err(error)) => call_ensures(<Error<B> as From<E>>::from, (e,), error),
                _ => false,
            },
    {
        match called {
            Ok(value) => Ok(value),
            Err(e) => Err(Error::from(e)),
        }
    }
}

} // verus!
