//! Host-side execution of Ethereum blocks: fetching and replaying a block, checking the header
//! that results, and assembling the input for the zkVM client.
//!
//! The library decides what is done next, what is asked for, and what the answers amount to. The
//! caller fetches blocks and proofs, runs the EVM, keeps the state trie and its roots, proves, and
//! reads and writes the cache; it hands what came of each back as plain values, and the input that
//! was chosen on to the client program.

pub mod bloom;
pub mod bundle;
pub mod bundle_laws;
pub mod bytes;
pub mod cache;
pub mod client_run;
pub mod components;
pub mod error;
pub mod executor_laws;
pub mod full_executor;
pub mod header;
pub mod host_executor;
pub mod host_laws;
pub mod primitives;
pub mod replay;
pub mod replay_laws;
pub mod storage_keys;
pub mod transaction;
pub mod value_laws;
