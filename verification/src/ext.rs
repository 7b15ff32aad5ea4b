//! The earlier extension-trait vocabulary: the target error type is an
//! associated type of the conversion itself, and option adapters use a
//! dedicated placeholder error.

use vstd::prelude::*;

verus! {

/// The placeholder source for an error raised from an empty option.
#[derive(Debug, Clone, Copy, PartialEq, Eq, Structural)]
pub struct NoneError;

impl NoneError {
    /// A human-readable description of the placeholder.
    pub fn message(&self) -> String {
        String::from_str("a placeholder for a none source error variant")
    }
}

/// A context value plus a source value yields the error value.
pub trait IntoError {
    type Error;

    type Source;

    fn into_error(self, source: Self::Source) -> Self::Error;
}

/// Attaches a context to a `Result`'s error side.
pub trait ResultExt<T, E>: Sized {
    fn context<C: IntoError<Source = E>>(self, context: C) -> Result<T, C::Error>;
}

impl<T, E> ResultExt<T, E> for Result<T, E> {
    fn context<C: IntoError<Source = E>>(self, context: C) -> (r: Result<T, C::Error>)
        ensures
            self is Ok ==> (r matches Ok(v) && v == self->Ok_0),
            self is Err ==> r is Err,
    {
        match self {
            Ok(v) => Ok(v),
            Err(e) => Err(context.into_error(e)),
        }
    }
}

/// Attaches a context to an empty option, with [`NoneError`] as the source.
pub trait OptionExt<T>: Sized {
    fn context<C: IntoError<Source = NoneError>>(self, context: C) -> Result<T, C::Error>;
}

impl<T> OptionExt<T> for Option<T> {
    fn context<C: IntoError<Source = NoneError>>(self, context: C) -> (r: Result<T, C::Error>)
        ensures
            self is Some ==> (r matches Ok(v) && v == self->0),
            self is None ==> r is Err,
    {
        match self {
            Some(v) => Ok(v),
            None => Err(context.into_error(NoneError)),
        }
    }
}

} // verus!
