//! Block headers: the one that execution derives, and whether it is the block's own.

use crate::bytes::same_bytes;
use crate::error::HostError;
use crate::primitives::{Address, Bloom, B256, U256};
use alloy_primitives::{FixedBytes, Uint};
use vstd::prelude::*;

verus! {

/// A block header.
#[derive(Debug, PartialEq, Eq)]
pub struct BlockHeader {
    pub parent_hash: B256,
    pub ommers_hash: B256,
    pub beneficiary: Address,
    pub state_root: B256,
    pub transactions_root: B256,
    pub receipts_root: B256,
    pub logs_bloom: Bloom,
    pub difficulty: U256,
    pub number: u64,
    pub gas_limit: u64,
    pub gas_used: u64,
    pub timestamp: u64,
    pub extra_data: Vec<u8>,
    pub mix_hash: B256,
    pub nonce: [u8; 8],
    pub base_fee_per_gas: Option<u64>,
    pub withdrawals_root: Option<B256>,
    pub blob_gas_used: Option<u64>,
    pub excess_blob_gas: Option<u64>,
    pub parent_beacon_block_root: Option<B256>,
    pub requests_hash: Option<B256>,
}

/// A block header with its bytes as sequences.
pub struct HeaderView {
    pub parent_hash: Seq<u8>,
    pub ommers_hash: Seq<u8>,
    pub beneficiary: Seq<u8>,
    pub state_root: Seq<u8>,
    pub transactions_root: Seq<u8>,
    pub receipts_root: Seq<u8>,
    pub logs_bloom: Seq<u8>,
    pub difficulty: nat,
    pub number: u64,
    pub gas_limit: u64,
    pub gas_used: u64,
    pub timestamp: u64,
    pub extra_data: Seq<u8>,
    pub mix_hash: Seq<u8>,
    pub nonce: Seq<u8>,
    pub base_fee_per_gas: Option<u64>,
    pub withdrawals_root: Option<Seq<u8>>,
    pub blob_gas_used: Option<u64>,
    pub excess_blob_gas: Option<u64>,
    pub parent_beacon_block_root: Option<Seq<u8>>,
    pub requests_hash: Option<Seq<u8>>,
}

/// The bytes of a hash that a header may lack.
pub open spec fn optional_hash(hash: Option<B256>) -> Option<Seq<u8>> {
    match hash {
        Some(bytes) => Some(bytes@),
        None => None,
    }
}

impl View for BlockHeader {
    type V = HeaderView;

    open spec fn view(&self) -> HeaderView {
        HeaderView {
            parent_hash: self.parent_hash@,
            ommers_hash: self.ommers_hash@,
            beneficiary: self.beneficiary@,
            state_root: self.state_root@,
            transactions_root: self.transactions_root@,
            receipts_root: self.receipts_root@,
            logs_bloom: self.logs_bloom@,
            difficulty: self.difficulty.value(),
            number: self.number,
            gas_limit: self.gas_limit,
            gas_used: self.gas_used,
            timestamp: self.timestamp,
            extra_data: self.extra_data@,
            mix_hash: self.mix_hash@,
            nonce: self.nonce@,
            base_fee_per_gas: self.base_fee_per_gas,
            withdrawals_root: optional_hash(self.withdrawals_root),
            blob_gas_used: self.blob_gas_used,
            excess_blob_gas: self.excess_blob_gas,
            parent_beacon_block_root: optional_hash(self.parent_beacon_block_root),
            requests_hash: optional_hash(self.requests_hash),
        }
    }
}

impl Clone for BlockHeader {
    fn clone(&self) -> (header: Self)
        ensures
            header@ == self@,
    {
        let header = BlockHeader {
            parent_hash: self.parent_hash,
            ommers_hash: self.ommers_hash,
            beneficiary: self.beneficiary,
            state_root: self.state_root,
            transactions_root: self.transactions_root,
            receipts_root: self.receipts_root,
            logs_bloom: self.logs_bloom,
            difficulty: self.difficulty,
            number: self.number,
            gas_limit: self.gas_limit,
            gas_used: self.gas_used,
            timestamp: self.timestamp,
            extra_data: self.extra_data.clone(),
            mix_hash: self.mix_hash,
            nonce: self.nonce,
            base_fee_per_gas: self.base_fee_per_gas,
            withdrawals_root: self.withdrawals_root,
            blob_gas_used: self.blob_gas_used,
            excess_blob_gas: self.excess_blob_gas,
            parent_beacon_block_root: self.parent_beacon_block_root,
            requests_hash: self.requests_hash,
        };
        assert(header.extra_data@ =~= self.extra_data@);
        header
    }
}

/// The hash that `alloy_consensus::Header::hash_slow` gives for this header.
pub uninterp spec fn header_hash(header: HeaderView) -> Seq<u8>;

/// `alloy_consensus::Header::hash_slow`: the Keccak hash of the RLP encoding of the header.
#[verifier::external_body]
pub(crate) fn hash_header(h: &BlockHeader) -> (hash: B256)
    ensures
        hash@ == header_hash(h@),
{
    let BlockHeader { number, gas_limit, gas_used, timestamp, .. } = *h;
    let BlockHeader { base_fee_per_gas, blob_gas_used, excess_blob_gas, .. } = *h;
    alloy_consensus::Header {
        parent_hash: FixedBytes(h.parent_hash), ommers_hash: FixedBytes(h.ommers_hash),
        beneficiary: h.beneficiary.into(), state_root: FixedBytes(h.state_root),
        transactions_root: FixedBytes(h.transactions_root),
        receipts_root: FixedBytes(h.receipts_root), logs_bloom: h.logs_bloom.into(),
        difficulty: Uint::from_limbs(h.difficulty.limbs),
        number, gas_limit, gas_used, timestamp, extra_data: h.extra_data.clone().into(),
        mix_hash: FixedBytes(h.mix_hash), nonce: FixedBytes(h.nonce), base_fee_per_gas,
        withdrawals_root: h.withdrawals_root.map(FixedBytes), blob_gas_used, excess_blob_gas,
        parent_beacon_block_root: h.parent_beacon_block_root.map(FixedBytes),
        requests_hash: h.requests_hash.map(FixedBytes),
    }.hash_slow().0
}

/// The header of the executed block: that of `current`, with the state root and the logs bloom
/// that execution gave.
pub open spec fn derived_header(
    current: HeaderView,
    state_root: Seq<u8>,
    logs_bloom: Seq<u8>,
) -> HeaderView {
    HeaderView { state_root, logs_bloom, ..current }
}

/// Derives the header of the executed block.
pub fn derive_header(current: &BlockHeader, state_root: B256, logs_bloom: Bloom) -> (header:
    BlockHeader)
    ensures
        header@ == derived_header(current@, state_root@, logs_bloom@),
{
    let mut header = current.clone();
    header.state_root = state_root;
    header.logs_bloom = logs_bloom;
    header
}

/// Accepts the derived header if it hashes to what the block's header hashes to.
pub fn compare_hashes<E>(constructed: B256, target: B256) -> (accepted: Result<B256, HostError<E>>)
    ensures
        constructed@ == target@ ==> accepted == Ok::<B256, HostError<E>>(constructed),
        constructed@ != target@ ==> accepted == Err::<B256, HostError<E>>(
            HostError::HeaderMismatch(constructed, target),
        ),
{
    if same_bytes(&constructed, &target) {
        Ok(constructed)
    } else {
        Err(HostError::HeaderMismatch(constructed, target))
    }
}

/// Derives the header of the executed block and accepts it if it is the block's own.
pub fn check_header<E>(current: &BlockHeader, state_root: B256, logs_bloom: Bloom) -> (accepted:
    Result<B256, HostError<E>>)
    ensures
        ({
            let constructed = header_hash(derived_header(current@, state_root@, logs_bloom@));
            let target = header_hash(current@);
            match accepted {
                Ok(hash) => constructed == target && hash@ == target,
                Err(HostError::HeaderMismatch(a, b)) => constructed != target && a@ == constructed
                    && b@ == target,
                Err(_) => false,
            }
        }),
{
    let header = derive_header(current, state_root, logs_bloom);
    let constructed = hash_header(&header);
    let target = hash_header(current);
    compare_hashes(constructed, target)
}

/// A block whose execution gives the state root and the logs bloom of its header derives that
/// header, so that its hash is accepted.
pub proof fn reproduced_header_is_accepted(
    current: HeaderView,
    state_root: Seq<u8>,
    logs_bloom: Seq<u8>,
)
    requires
        state_root == current.state_root,
        logs_bloom == current.logs_bloom,
    ensures
        derived_header(current, state_root, logs_bloom) == current,
        header_hash(derived_header(current, state_root, logs_bloom)) == header_hash(current),
{
}

} // verus!
