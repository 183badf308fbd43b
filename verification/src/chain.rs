//! The shared storage handle, the error taxonomy and the block builder.

use vstd::prelude::*;
use std::sync::Arc;
use crate::traits::Backend;

pub mod block_builder;

pub use block_builder::BlockBuilder;

verus! {

/// Why a construction step failed: in storage, or in the execution engine.
/// Either way the collaborator's own error is carried along unchanged.
#[derive(Debug)]
pub enum Error<S, X> {
    /// A lookup in chain storage failed.
    Backend(S),
    /// The execution engine rejected its input.
    Executor(X),
}

impl<S, X> Error<S, X> {
    /// A storage result with its failure filed under `Backend`.
    pub open spec fn spec_from_backend<T>(r: Result<T, S>) -> Result<T, Self> {
        match r {
            Ok(v) => Ok(v),
            Err(e) => Err(Error::Backend(e)),
        }
    }

    /// An engine result with its failure filed under `Executor`.
    pub open spec fn spec_from_executor<T>(r: Result<T, X>) -> Result<T, Self> {
        match r {
            Ok(v) => Ok(v),
            Err(e) => Err(Error::Executor(e)),
        }
    }

    /// What the engine returned, where `r` is a result of `from_executor`;
    /// `None` where it holds a storage failure.
    pub open spec fn executor_outcome<T>(r: Result<T, Self>) -> Option<Result<T, X>> {
        match r {
            Ok(v) => Some(Ok(v)),
            Err(Error::Executor(e)) => Some(Err(e)),
            Err(Error::Backend(_)) => None,
        }
    }

    /// Files the failure of a storage lookup under `Backend`.
    pub fn from_backend<T>(r: Result<T, S>) -> (out: Result<T, Self>)
        ensures
            out == Self::spec_from_backend(r),
    {
        match r {
            Ok(v) => Ok(v),
            Err(e) => Err(Error::Backend(e)),
        }
    }

    /// Files the failure of an engine call under `Executor`.
    pub fn from_executor<T>(r: Result<T, X>) -> (out: Result<T, Self>)
        ensures
            out == Self::spec_from_executor(r),
    {
        match r {
            Ok(v) => Ok(v),
            Err(e) => Err(Error::Executor(e)),
        }
    }
}

/// A handle on chain storage that any number of readers may hold at once.
pub struct SharedBackend<Ba: Backend> {
    backend: Arc<Ba>,
}

impl<Ba: Backend> View for SharedBackend<Ba> {
    type V = Ba;

    closed spec fn view(&self) -> Ba {
        *self.backend
    }
}

impl<Ba: Backend> SharedBackend<Ba> {
    /// Puts a backend behind a shared handle.
    pub fn new(backend: Ba) -> (r: Self)
        ensures
            r@ == backend,
    {
        SharedBackend { backend: Arc::new(backend) }
    }

    /// The backend, for reading.
    pub fn read(&self) -> (r: &Ba)
        ensures
            *r == self@,
    {
        &*self.backend
    }
}

impl<Ba: Backend> Clone for SharedBackend<Ba> {
    /// Another handle on the same backend.
    fn clone(&self) -> (r: Self)
        ensures
            r@ == self@,
    {
        SharedBackend { backend: self.backend.clone() }
    }
}

} // verus!
