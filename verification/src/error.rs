//! What can go wrong while a block is executed on the host.

use crate::primitives::B256;
use vstd::prelude::*;

verus! {

/// An error of host execution. `E` is an error of the provider, the block executor or the state
/// trie, which is passed on as it came.
#[derive(Debug, PartialEq, Eq)]
pub enum HostError<E> {
    /// The provider has no block for this request.
    ExpectedBlock(u64),
    /// A transaction of the block carries a signature without a signer.
    FailedToRecoverSenders,
    /// The state root that execution gave is the first value, that of the block's header the second.
    StateRootMismatch(B256, B256),
    /// The header derived from execution hashes to the first value, the block's to the second.
    HeaderMismatch(B256, B256),
    /// An error from outside.
    Outside(E),
}

/// An error of an executor. `E` is an error from outside, which is passed on as it came.
#[derive(Debug, PartialEq, Eq)]
pub enum ExecutorError<E> {
    /// There is neither a provider nor a cache to take inputs from.
    NoSource,
    /// The cache does not hold the block.
    NoCachedInput,
    /// Host execution failed.
    Host(HostError<E>),
    /// An error from outside.
    Outside(E),
}

/// What is said of an executor that has nowhere to take inputs from.
pub open spec fn no_source_message() -> Seq<char> {
    "Either a RPC URL or a cache dir must be provided"@
}

/// What is said of a block that the cache does not hold.
pub open spec fn no_cached_input_message() -> Seq<char> {
    "No cached input found"@
}

impl<E> ExecutorError<E> {
    /// What to say of an error of the executor's own.
    pub fn message(&self) -> (message: Option<&'static str>)
        ensures
            match self {
                ExecutorError::NoSource => message matches Some(text) && text@
                    == no_source_message(),
                ExecutorError::NoCachedInput => message matches Some(text) && text@
                    == no_cached_input_message(),
                _ => message is None,
            },
    {
        match self {
            ExecutorError::NoSource => Some("Either a RPC URL or a cache dir must be provided"),
            ExecutorError::NoCachedInput => Some("No cached input found"),
            _ => None,
        }
    }
}

} // verus!
