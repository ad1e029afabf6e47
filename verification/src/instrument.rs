use tracing::Span;
use vstd::prelude::*;

verus! {

/// `tracing::Span`: a handle to a span. It is carried along and never
/// looked into.
#[verifier::external_type_specification]
#[verifier::external_body]
pub struct ExSpan(Span);

/// `Span::clone`: one more handle to a span. Nothing is claimed about it.
pub assume_specification[ <Span as Clone>::clone ](span: &Span) -> (copy: Span);

/// `Span::current`: the span that the calling thread is in at the moment.
/// Nothing is claimed about it.
#[verifier::external_body]
fn current_span() -> (span: Span) {
    Span::current()
}

/// Attaches a `tracing` span to a value, most of all to an actor.
pub trait ActorInstrument: Sized {
    /// Instruments this value with `span`.
    fn actor_instrument(self, span: Span) -> (wrapped: ActorInstrumented<Self>)
        ensures
            wrapped.inner_spec() == self,
            wrapped.span_spec() == span,
    {
        ActorInstrumented { inner: self, span }
    }

    /// Instruments this value with the span that the caller is in.
    fn in_current_actor_span(self) -> (wrapped: ActorInstrumented<Self>)
        ensures
            wrapped.inner_spec() == self,
    {
        self.actor_instrument(current_span())
    }
}

impl<T: Sized> ActorInstrument for T {

}

/// A value together with the span that it is instrumented by.
#[derive(Debug)]
pub struct ActorInstrumented<T> {
    inner: T,
    span: Span,
}

impl<T: Clone> Clone for ActorInstrumented<T> {
    /// A clone of the wrapped value, instrumented by the same span.
    fn clone(&self) -> (copy: Self)
        ensures
            cloned(self.inner_spec(), copy.inner_spec()),
    {
        ActorInstrumented { inner: self.inner.clone(), span: self.span.clone() }
    }
}

impl<T> ActorInstrumented<T> {
    /// The wrapped value.
    pub closed spec fn inner_spec(&self) -> T {
        self.inner
    }

    /// The span.
    pub closed spec fn span_spec(&self) -> Span {
        self.span
    }

    /// Borrows the span that this value is instrumented by.
    pub fn span(&self) -> (span: &Span)
        ensures
            *span == self.span_spec(),
    {
        &self.span
    }

    /// Mutably borrows the span that this value is instrumented by. What the
    /// caller leaves in it is the span afterwards; the wrapped value stays.
    pub fn span_mut(&mut self) -> (span: &mut Span)
        ensures
            *span == old(self).span_spec(),
            final(self).span_spec() == *final(span),
            final(self).inner_spec() == old(self).inner_spec(),
    {
        &mut self.span
    }

    /// Borrows the wrapped value.
    pub fn inner(&self) -> (inner: &T)
        ensures
            *inner == self.inner_spec(),
    {
        &self.inner
    }

    /// Mutably borrows the wrapped value. What the caller leaves in it is the
    /// wrapped value afterwards; the span stays.
    pub fn inner_mut(&mut self) -> (inner: &mut T)
        ensures
            *inner == old(self).inner_spec(),
            final(self).inner_spec() == *final(inner),
            final(self).span_spec() == old(self).span_spec(),
    {
        &mut self.inner
    }

    /// Hands out the wrapped value and drops the span.
    pub fn into_inner(self) -> (inner: T)
        ensures
            inner == self.inner_spec(),
    {
        self.inner
    }
}

} // verus!
