//! Expansion engine for error-context derivation.
//!
//! An annotated error declaration (a struct or an enum) is expanded into one
//! auxiliary "context" type per variant, together with the conversions that
//! build the error from a context value and a source value.  The engine
//! consumes a fully parsed declaration ([`ast::ContainerDecl`]) and produces
//! the synthesized declarations as plain data ([`expand::Expansion`]); the
//! host language's own parser and pretty-printer stay outside.
//!
//! The runtime side of the crate is the small trait vocabulary the generated
//! code implements and callers use: [`IntoError`], [`WithContext`] and their
//! companions.

use vstd::prelude::*;

pub mod ast;
pub mod classify;
pub mod emit;
pub mod expand;
pub mod ext;
pub mod generics;
pub mod infer;
pub mod inherit;
pub mod options;
pub mod synth;

verus! {

/// A value of any type that has one to give: the default.  The
/// compile-time checks use it to conjure a value of a generated type.
pub fn any<T: Default>() -> T {
    T::default()
}

/// The marker value used as the conversion source when a context has no
/// source field.
#[derive(Debug, Clone, Copy, PartialEq, Eq, Structural)]
pub struct NoneSource;

impl Default for NoneSource {
    /// The only value of the type.
    fn default() -> (r: NoneSource)
        ensures
            r == NoneSource,
    {
        NoneSource
    }
}

/// Implemented by every generated context type, once per conversion target:
/// a context value plus a source value yields the target error value.
pub trait IntoError<E>: Sized {
    /// The declared type of the source field, or [`NoneSource`] when the
    /// context has none.
    type Source;

    fn into_error(self, source: Self::Source) -> E;
}

/// The convenience path for contexts without a source field: the marker
/// source is supplied automatically.
pub trait BuildError<E>: IntoError<E, Source = NoneSource> {
    fn build(self) -> E;

    fn fail<T>(self) -> (r: Result<T, E>)
        ensures
            r is Err,
    ;
}

impl<E, C: IntoError<E, Source = NoneSource>> BuildError<E> for C {
    fn build(self) -> E {
        self.into_error(NoneSource)
    }

    fn fail<T>(self) -> (r: Result<T, E>)
        ensures
            r is Err,
    {
        Err(self.into_error(NoneSource))
    }
}

/// Attaches a context to a fallible value: the error side is fed to the
/// context as its source.
pub trait WithContext: Sized {
    type Good;

    type Bad;

    fn context<E, C: IntoError<E, Source = Self::Bad>>(self, context: C) -> Result<
        Self::Good,
        E,
    >;
}

impl<T, Err0> WithContext for Result<T, Err0> {
    type Good = T;

    type Bad = Err0;

    fn context<E, C: IntoError<E, Source = Err0>>(self, context: C) -> (r: Result<T, E>)
        ensures
            self is Ok ==> (r matches Ok(v) && v == self->Ok_0),
            self is Err ==> r is Err,
    {
        match self {
            Ok(v) => Ok(v),
            Err(e) => Err(context.into_error(e)),
        }
    }
}

impl<T> WithContext for Option<T> {
    type Good = T;

    type Bad = NoneSource;

    fn context<E, C: IntoError<E, Source = NoneSource>>(self, context: C) -> (r: Result<T, E>)
        ensures
            self is Some ==> (r matches Ok(v) && v == self->0),
            self is None ==> r is Err,
    {
        match self {
            Some(v) => Ok(v),
            None => Err(context.into_error(NoneSource)),
        }
    }
}

/// The successor conversion vocabulary: the target error type is an
/// associated type of the context instead of a trait parameter.
pub trait IntoErrorNext: Sized {
    type Target;

    type Source;

    fn into_error(self, source: Self::Source) -> Self::Target;
}

/// The convenience path of [`IntoErrorNext`] for contexts without a source
/// field.
pub trait BuildErrorNext: IntoErrorNext<Source = NoneSource> {
    fn build(self) -> Self::Target;

    fn fail<T>(self) -> (r: Result<T, Self::Target>)
        ensures
            r is Err,
    ;
}

impl<C: IntoErrorNext<Source = NoneSource>> BuildErrorNext for C {
    fn build(self) -> Self::Target {
        self.into_error(NoneSource)
    }

    fn fail<T>(self) -> (r: Result<T, Self::Target>)
        ensures
            r is Err,
    {
        Err(self.into_error(NoneSource))
    }
}

/// A deferred-set slot: a field excluded from the context type and filled
/// in after construction.
pub trait Optional: Default {
    type Inner;

    fn set(&mut self, value: Self::Inner) -> Option<Self::Inner>;
}

impl<T> Optional for Option<T> {
    type Inner = T;

    fn set(&mut self, value: T) -> (r: Option<T>)
        ensures
            *final(self) == Some(value),
            r == *old(self),
    {
        let mut prev: Option<T> = Some(value);
        core::mem::swap(self, &mut prev);
        prev
    }
}

/// Implemented by a generated error type for each deferred-set slot it
/// owns: hands the value to the matching variant's slot, or returns it
/// unchanged.
pub trait WithOptional<T> {
    fn with_optional(&mut self, value: T) -> Option<T>;
}

/// [`WithContext`] for the successor vocabulary, with deferred-slot
/// provisioning.  Implemented by adapters the generated code is used
/// through; the error side is fed to the context as its source, and
/// `provide` hands a value to a deferred slot of the error, if one is
/// there.
pub trait WithContextNext: Sized {
    type Good;

    type Bad;

    fn attach<C: IntoErrorNext<Source = Self::Bad>>(self, context: C) -> Result<
        Self::Good,
        C::Target,
    >;

    fn provide<C>(self, value: C) -> Self where Self::Bad: WithOptional<C>;
}

impl<T, Err0> WithContextNext for Result<T, Err0> {
    type Good = T;

    type Bad = Err0;

    fn attach<C: IntoErrorNext<Source = Err0>>(self, context: C) -> (r: Result<T, C::Target>)
        ensures
            self is Ok ==> (r matches Ok(v) && v == self->Ok_0),
            self is Err ==> r is Err,
    {
        match self {
            Ok(v) => Ok(v),
            Err(e) => Err(context.into_error(e)),
        }
    }

    fn provide<C>(self, value: C) -> (r: Self) where Err0: WithOptional<C>
        ensures
            self is Ok ==> r == self,
            self is Err ==> r is Err,
    {
        match self {
            Ok(v) => Ok(v),
            Err(e) => {
                let mut e2 = e;
                e2.with_optional(value);
                Err(e2)
            },
        }
    }
}

impl<T> WithContextNext for Option<T> {
    type Good = T;

    type Bad = NoneSource;

    fn attach<C: IntoErrorNext<Source = NoneSource>>(self, context: C) -> (r: Result<
        T,
        C::Target,
    >)
        ensures
            self is Some ==> (r matches Ok(v) && v == self->0),
            self is None ==> r is Err,
    {
        match self {
            Some(v) => Ok(v),
            None => Err(context.into_error(NoneSource)),
        }
    }

    fn provide<C>(self, _value: C) -> (r: Self) where NoneSource: WithOptional<C>
        ensures
            r == self,
    {
        self
    }
}

} // verus!
