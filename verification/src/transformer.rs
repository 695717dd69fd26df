//! A middleware that intercepts transaction requests and transforms them, before they
//! are sent by the inner middleware, with a transformer.
use vstd::prelude::*;

verus! {

/// Middleware used for intercepting transaction requests and transforming them to be executed by
/// the underneath `Transformer` instance.
#[derive(Debug)]
pub struct TransformerMiddleware<M, T> {
    inner: M,
    transformer: T,
}

impl<M, T> TransformerMiddleware<M, T> {
    /// Creates a new TransformerMiddleware that intercepts transactions, modifying them to be sent
    /// through the Transformer.
    pub fn new(inner: M, transformer: T) -> (middleware: Self)
        ensures
            middleware.inner_spec() == inner,
            middleware.transformer_spec() == transformer,
    {
        TransformerMiddleware { inner, transformer }
    }

    pub closed spec fn inner_spec(&self) -> M {
        self.inner
    }

    pub closed spec fn transformer_spec(&self) -> T {
        self.transformer
    }

    /// The inner middleware, which sends the transformed transactions.
    pub fn inner(&self) -> (inner: &M)
        ensures
            *inner == self.inner_spec(),
    {
        &self.inner
    }

    /// The transformer applied to every transaction.
    pub fn transformer(&self) -> (transformer: &T)
        ensures
            *transformer == self.transformer_spec(),
    {
        &self.transformer
    }
}

/// Errors of the transformer middleware: those of the transformer, and those of the
/// inner middleware.
#[derive(Debug)]
pub enum TransformerMiddlewareError<TE, ME> {
    TransformerError(TE),
    MiddlewareError(ME),
}

} // verus!
