//! The parts of an executor that the library carries and never looks into.

use vstd::prelude::*;

verus! {

/// The outside types of an executor.
pub trait ExecutorComponents: Sized {
    /// Where blocks and proofs are fetched from.
    type Provider;

    /// What executes and proves the client program.
    type Prover;

    /// The key that proofs are made with.
    type ProvingKey;

    /// The key that proofs are checked with.
    type VerifyingKey;

    /// Who is told of the progress.
    type Hooks;

    /// How blocks are executed on the host.
    type EvmConfig;

    /// A whole block, as the client program reads it.
    type Block;

    /// The proof of an account and some of its storage.
    type Proof;

    /// The part of the state trie that a block touches.
    type State;

    /// The genesis of the chain.
    type Genesis: Clone;

    /// The code of a contract.
    type Bytecode;

    /// An error of any of these.
    type Error;
}

} // verus!
