//! Transactions, their signers, and the environment in which each is replayed.

use crate::header::BlockHeader;
use crate::primitives::{Address, B256, U256};
use alloy_consensus::transaction::SignerRecoverable;
use alloy_consensus::{EthereumTxEnvelope, Transaction as ConsensusTransaction, TxEip4844};
use alloy_eips::eip2718::{Decodable2718, Typed2718};
use vstd::prelude::*;

verus! {

/// Storage that a transaction declares it will touch.
#[derive(Clone, Debug, PartialEq, Eq)]
pub struct AccessListItem {
    pub address: Address,
    pub storage_keys: Vec<B256>,
}

/// What a transaction offers for gas.
#[derive(Clone, Copy, Debug, PartialEq, Eq)]
pub enum Fees {
    /// One price, whatever the base fee.
    Fixed { gas_price: u128 },
    /// The base fee and a tip, up to a maximum.
    Dynamic { max_fee_per_gas: u128, max_priority_fee_per_gas: u128 },
}

/// A signed transaction in its EIP-2718 encoding.
#[derive(Clone, Debug, PartialEq, Eq)]
pub struct Transaction {
    pub encoded: Vec<u8>,
}

/// What a transaction says, as far as a replay reads it.
#[derive(Clone, Debug, PartialEq, Eq)]
pub struct TxFields {
    /// The EIP-2718 type of the transaction, zero for one without a type.
    pub tx_type: u8,
    pub nonce: u64,
    pub gas_limit: u64,
    /// The price of gas, for a transaction with a fixed one.
    pub gas_price: Option<u128>,
    pub max_fee_per_gas: u128,
    /// The tip, for a transaction with dynamic fees.
    pub max_priority_fee_per_gas: Option<u128>,
    /// The account called, or none to create a contract.
    pub to: Option<Address>,
    pub value: U256,
    pub input: Vec<u8>,
    /// The hashes of the blobs, for a transaction that carries blobs.
    pub blob_hashes: Option<Vec<B256>>,
    pub max_fee_per_blob_gas: Option<u128>,
}

/// An entry of an access list with its bytes as sequences.
pub struct AccessListItemView {
    pub address: Seq<u8>,
    pub storage_keys: Seq<Seq<u8>>,
}

/// What a transaction says, with its bytes as sequences.
pub struct TxFieldsView {
    pub tx_type: u8,
    pub nonce: u64,
    pub gas_limit: u64,
    pub gas_price: Option<u128>,
    pub max_fee_per_gas: u128,
    pub max_priority_fee_per_gas: Option<u128>,
    pub to: Option<Seq<u8>>,
    pub value: nat,
    pub input: Seq<u8>,
    pub blob_hashes: Option<Seq<Seq<u8>>>,
    pub max_fee_per_blob_gas: Option<u128>,
}

/// An access list that may be missing, with its bytes as sequences.
pub open spec fn optional_access_list(list: Option<Vec<AccessListItem>>) -> Option<
    Seq<AccessListItemView>,
> {
    match list {
        Some(list) => Some(access_list_view(list@)),
        None => None,
    }
}

impl View for AccessListItem {
    type V = AccessListItemView;

    open spec fn view(&self) -> AccessListItemView {
        AccessListItemView {
            address: self.address@,
            storage_keys: self.storage_keys@.map_values(|key: B256| key@),
        }
    }
}

/// An access list with its bytes as sequences.
pub open spec fn access_list_view(list: Seq<AccessListItem>) -> Seq<AccessListItemView> {
    list.map_values(|item: AccessListItem| item@)
}

/// The bytes of each hash.
pub open spec fn hash_views(hashes: Seq<B256>) -> Seq<Seq<u8>> {
    hashes.map_values(|hash: B256| hash@)
}

impl View for TxFields {
    type V = TxFieldsView;

    open spec fn view(&self) -> TxFieldsView {
        TxFieldsView {
            tx_type: self.tx_type,
            nonce: self.nonce,
            gas_limit: self.gas_limit,
            gas_price: self.gas_price,
            max_fee_per_gas: self.max_fee_per_gas,
            max_priority_fee_per_gas: self.max_priority_fee_per_gas,
            to: optional_address(self.to),
            value: self.value.value(),
            input: self.input@,
            blob_hashes: match self.blob_hashes {
                Some(hashes) => Some(hash_views(hashes@)),
                None => None,
            },
            max_fee_per_blob_gas: self.max_fee_per_blob_gas,
        }
    }
}

/// What a transaction does to its recipient.
#[derive(Clone, Copy, Debug, PartialEq, Eq)]
pub enum TxKind {
    Call(Address),
    Create,
}

/// The part of the EVM's transaction environment that a replay sets.
#[derive(Clone, Debug, PartialEq, Eq)]
pub struct TxEnv {
    pub tx_type: u8,
    pub caller: Address,
    pub gas_limit: u64,
    pub gas_price: u128,
    pub value: U256,
    pub data: Vec<u8>,
    pub gas_priority_fee: Option<u128>,
    pub max_fee_per_blob_gas: u128,
    pub chain_id: Option<u64>,
    pub nonce: u64,
    pub access_list: Vec<AccessListItem>,
    pub blob_hashes: Vec<B256>,
    pub kind: TxKind,
}

/// The part of the EVM's block environment that a replay sets.
#[derive(Clone, Copy, Debug, PartialEq, Eq)]
pub struct BlockEnv {
    pub number: u64,
    pub beneficiary: Address,
    pub timestamp: u64,
    pub difficulty: U256,
    pub gas_limit: u64,
    pub basefee: u64,
    /// What sets the price of blob gas, where the block has one.
    pub excess_blob_gas: Option<u64>,
    /// Whether the price of blob gas moves as it does since Prague.
    pub prague: bool,
}

/// What the getters of `alloy_consensus::Transaction` give for the transaction that
/// `alloy_consensus::EthereumTxEnvelope` decodes from `encoded`, if that is one transaction.
pub uninterp spec fn decoded_fields(encoded: Seq<u8>) -> Option<TxFieldsView>;

/// What `alloy_consensus::Transaction::access_list` gives for the transaction that
/// `alloy_consensus::EthereumTxEnvelope` decodes from `encoded`, if that is one transaction and has
/// such a list.
pub uninterp spec fn decoded_access_list(encoded: Seq<u8>) -> Option<Seq<AccessListItemView>>;

/// The signer that `alloy_consensus::transaction::SignerRecoverable::recover_signer` finds for the
/// transaction that `alloy_consensus::EthereumTxEnvelope` decodes from `encoded`, if it finds one.
pub uninterp spec fn recovered_signer(encoded: Seq<u8>) -> Option<Seq<u8>>;

/// The bytes of an address that may be missing.
pub open spec fn optional_address(address: Option<Address>) -> Option<Seq<u8>> {
    match address {
        Some(bytes) => Some(bytes@),
        None => None,
    }
}

/// Fields that may be missing, with their bytes as sequences.
pub open spec fn optional_fields(fields: Option<TxFields>) -> Option<TxFieldsView> {
    match fields {
        Some(fields) => Some(fields@),
        None => None,
    }
}

impl Transaction {
    /// The signer of the transaction, if its signature has one.
    pub open spec fn signer(self) -> Option<Seq<u8>> {
        recovered_signer(self.encoded@)
    }

    /// What the transaction says.
    pub open spec fn fields(self) -> Option<TxFieldsView> {
        decoded_fields(self.encoded@)
    }

    /// The access list of the transaction, if it is one that has such a list.
    pub open spec fn access_list(self) -> Option<Seq<AccessListItemView>> {
        decoded_access_list(self.encoded@)
    }

    /// Recovers the signer of the transaction.
    pub fn recover_signer(&self) -> (signer: Option<Address>)
        ensures
            optional_address(signer) == self.signer(),
    {
        recover_address(&self.encoded)
    }

    /// Reads the transaction. One that has a signer can be read.
    pub fn read(&self) -> (fields: Option<TxFields>)
        ensures
            optional_fields(fields) == self.fields(),
            self.signer() is Some ==> fields is Some,
    {
        decode_fields(&self.encoded)
    }

    /// Reads the access list of the transaction.
    pub fn read_access_list(&self) -> (list: Option<Vec<AccessListItem>>)
        ensures
            optional_access_list(list) == self.access_list(),
    {
        decode_access_list(&self.encoded)
    }
}

/// `alloy_consensus::transaction::SignerRecoverable::recover_signer` of the transaction that
/// `decode_2718_exact` of `alloy_consensus::EthereumTxEnvelope` reads from `encoded`: the address
/// whose key signed it. There is none where the bytes are not one transaction, or its signature is
/// not valid.
#[verifier::external_body]
fn recover_address(encoded: &Vec<u8>) -> (signer: Option<Address>)
    ensures
        optional_address(signer) == recovered_signer(encoded@),
{
    let tx = EthereumTxEnvelope::<TxEip4844>::decode_2718_exact(encoded).ok()?;
    tx.recover_signer().ok().map(|address| address.into_array())
}

/// Getters of `alloy_consensus::Transaction`, the type among them, on the transaction that
/// `decode_2718_exact` of `alloy_consensus::EthereumTxEnvelope` reads from `encoded`. There is none
/// where the bytes are not one transaction; the signer is recovered from the same decoding, so that
/// bytes with a signer have fields.
#[verifier::external_body]
fn decode_fields(encoded: &Vec<u8>) -> (fields: Option<TxFields>)
    ensures
        optional_fields(fields) == decoded_fields(encoded@),
        recovered_signer(encoded@) is Some ==> fields is Some,
{
    let tx = EthereumTxEnvelope::<TxEip4844>::decode_2718_exact(encoded).ok()?;
    Some(TxFields {
        tx_type: tx.ty(), nonce: tx.nonce(), gas_limit: tx.gas_limit(), gas_price: tx.gas_price(),
        max_fee_per_gas: tx.max_fee_per_gas(),
        max_priority_fee_per_gas: tx.max_priority_fee_per_gas(),
        to: tx.to().map(|to| to.into_array()), value: U256 { limbs: tx.value().into_limbs() },
        input: tx.input().to_vec(),
        blob_hashes: tx.blob_versioned_hashes().map(|list| list.iter().map(|hash| hash.0).collect()),
        max_fee_per_blob_gas: tx.max_fee_per_blob_gas(),
    })
}

/// `alloy_consensus::Transaction::access_list` of the transaction that `decode_2718_exact` of
/// `alloy_consensus::EthereumTxEnvelope` reads from `encoded`. There is none where the bytes are not
/// one transaction, or it is not of a type that has an access list.
#[verifier::external_body]
fn decode_access_list(encoded: &Vec<u8>) -> (list: Option<Vec<AccessListItem>>)
    ensures
        optional_access_list(list) == decoded_access_list(encoded@),
{
    let tx = EthereumTxEnvelope::<TxEip4844>::decode_2718_exact(encoded).ok()?;
    Some(tx.access_list()?.iter().map(|item| AccessListItem {
        address: item.address.into_array(),
        storage_keys: item.storage_keys.iter().map(|key| key.0).collect(),
    }).collect())
}

/// The senders of a block, if every transaction has one.
pub fn all_senders(recovered: Vec<Option<Address>>) -> (senders: Option<Vec<Address>>)
    ensures
        senders is Some <==> forall|i: int|
            0 <= i < recovered.len() ==> (#[trigger] recovered[i]) is Some,
        senders matches Some(list) ==> {
            &&& list.len() == recovered.len()
            &&& forall|i: int| 0 <= i < list.len() ==> recovered[i] == Some(#[trigger] list[i])
        },
{
    let mut list: Vec<Address> = Vec::new();
    for i in 0..recovered.len()
        invariant
            list.len() == i,
            forall|j: int| 0 <= j < i ==> (#[trigger] recovered[j]) is Some,
            forall|j: int| 0 <= j < i ==> recovered[j] == Some(#[trigger] list[j]),
    {
        match recovered[i] {
            Some(sender) => list.push(sender),
            None => {
                assert(recovered[i as int] is None);
                return None;
            },
        }
    }
    Some(list)
}

/// The price that a transaction pays for gas in a block with this base fee: a fixed price as it
/// is, and otherwise the base fee and the tip together, up to the maximum fee; the maximum fee
/// where there is no base fee.
pub open spec fn effective_price(fees: Fees, base_fee: Option<u64>) -> int {
    match fees {
        Fees::Fixed { gas_price } => gas_price as int,
        Fees::Dynamic { max_fee_per_gas, max_priority_fee_per_gas } => match base_fee {
            Some(base_fee) if max_priority_fee_per_gas + base_fee < max_fee_per_gas =>
                max_priority_fee_per_gas + base_fee,
            _ => max_fee_per_gas as int,
        },
    }
}

/// `alloy_consensus::TxEip1559::effective_gas_price`, which reads nothing of the transaction but
/// the two fees: the lesser of the maximum fee and the sum of tip and base fee, or the maximum fee
/// where there is no base fee.
#[verifier::external_body]
fn dynamic_gas_price(
    max_fee_per_gas: u128,
    max_priority_fee_per_gas: u128,
    base_fee: Option<u64>,
) -> (price: u128)
    ensures
        price == effective_price(
            Fees::Dynamic { max_fee_per_gas, max_priority_fee_per_gas },
            base_fee,
        ),
{
    alloy_consensus::TxEip1559 { max_fee_per_gas, max_priority_fee_per_gas, ..Default::default() }
        .effective_gas_price(base_fee)
}

/// The price that a transaction pays for gas in a block with this base fee.
pub fn effective_gas_price(fees: Fees, base_fee: Option<u64>) -> (price: u128)
    ensures
        price == effective_price(fees, base_fee),
{
    match fees {
        Fees::Fixed { gas_price } => gas_price,
        Fees::Dynamic { max_fee_per_gas, max_priority_fee_per_gas } => dynamic_gas_price(
            max_fee_per_gas,
            max_priority_fee_per_gas,
            base_fee,
        ),
    }
}

/// A transaction with dynamic fees pays at most its maximum fee; and, where its maximum covers the
/// base fee, at least the base fee and at most the base fee and its tip.
pub proof fn dynamic_price_is_bounded(
    max_fee_per_gas: u128,
    max_priority_fee_per_gas: u128,
    base_fee: Option<u64>,
)
    ensures
        ({
            let price = effective_price(
                Fees::Dynamic { max_fee_per_gas, max_priority_fee_per_gas },
                base_fee,
            );
            &&& price <= max_fee_per_gas
            &&& base_fee matches Some(base) ==> base <= max_fee_per_gas ==> base <= price <= base
                + max_priority_fee_per_gas
        }),
{
}

/// What a transaction offers for gas, by its getters: a fixed price if it has one, and otherwise
/// dynamic fees.
pub open spec fn offered_fees(
    gas_price: Option<u128>,
    max_fee_per_gas: u128,
    max_priority_fee_per_gas: Option<u128>,
) -> Fees {
    match gas_price {
        Some(gas_price) => Fees::Fixed { gas_price },
        None => Fees::Dynamic {
            max_fee_per_gas,
            max_priority_fee_per_gas: match max_priority_fee_per_gas {
                Some(fee) => fee,
                None => 0,
            },
        },
    }
}

/// The EIP-2718 type of a transaction that carries blobs.
pub const BLOB_TX_TYPE: u8 = 3;

/// The type as which a transaction of type `tx_type` is replayed.
pub open spec fn replayed_type(tx_type: u8) -> u8 {
    if tx_type == BLOB_TX_TYPE {
        BLOB_TX_TYPE
    } else {
        0
    }
}

/// Whether `env` is the environment in which a transaction that says `tx`, with this access
/// list and signed by `caller`, is replayed in a block with this base fee. A transaction that
/// carries blobs is replayed as such, so that it pays for them; every other is replayed as one
/// without a type.
pub open spec fn replays_in(
    tx: TxFieldsView,
    access_list: Option<Seq<AccessListItemView>>,
    caller: Seq<u8>,
    base_fee: Option<u64>,
    env: TxEnv,
) -> bool {
    &&& env.tx_type == replayed_type(tx.tx_type)
    &&& env.caller@ == caller
    &&& env.gas_limit == tx.gas_limit
    &&& env.gas_price == effective_price(
        offered_fees(tx.gas_price, tx.max_fee_per_gas, tx.max_priority_fee_per_gas),
        base_fee,
    )
    &&& env.value.value() == tx.value
    &&& env.data@ == tx.input
    &&& env.gas_priority_fee == tx.max_priority_fee_per_gas
    &&& env.max_fee_per_blob_gas == match tx.max_fee_per_blob_gas {
        Some(fee) => fee,
        None => u128::MAX,
    }
    &&& env.chain_id == Some(1u64)
    &&& env.nonce == tx.nonce
    &&& access_list_view(env.access_list@) == match access_list {
        Some(list) => list,
        None => Seq::empty(),
    }
    &&& hash_views(env.blob_hashes@) == match tx.blob_hashes {
        Some(hashes) => hashes,
        None => Seq::empty(),
    }
    &&& match env.kind {
        TxKind::Call(to) => tx.to == Some(to@),
        TxKind::Create => tx.to is None,
    }
}

/// The environment in which a transaction that says `tx`, with this access list and signed by
/// `caller`, is replayed in a block with this base fee.
pub fn tx_env(
    tx: TxFields,
    access_list: Option<Vec<AccessListItem>>,
    caller: Address,
    base_fee: Option<u64>,
) -> (env: TxEnv)
    ensures
        replays_in(tx@, optional_access_list(access_list), caller@, base_fee, env),
{
    let fees = match tx.gas_price {
        Some(gas_price) => Fees::Fixed { gas_price },
        None => Fees::Dynamic {
            max_fee_per_gas: tx.max_fee_per_gas,
            max_priority_fee_per_gas: match tx.max_priority_fee_per_gas {
                Some(fee) => fee,
                None => 0,
            },
        },
    };
    let gas_price = effective_gas_price(fees, base_fee);
    let max_fee_per_blob_gas = match tx.max_fee_per_blob_gas {
        Some(fee) => fee,
        None => u128::MAX,
    };
    let declared = match access_list {
        Some(list) => list,
        None => Vec::new(),
    };
    let blob_hashes = match tx.blob_hashes {
        Some(hashes) => hashes,
        None => Vec::new(),
    };
    let kind = match tx.to {
        Some(to) => TxKind::Call(to),
        None => TxKind::Create,
    };
    proof {
        if access_list is None {
            assert(access_list_view(declared@) =~= Seq::empty());
        }
        if tx.blob_hashes is None {
            assert(hash_views(blob_hashes@) =~= Seq::empty());
        }
    }
    TxEnv {
        tx_type: if tx.tx_type == BLOB_TX_TYPE {
            BLOB_TX_TYPE
        } else {
            0
        },
        caller,
        gas_limit: tx.gas_limit,
        gas_price,
        value: tx.value,
        data: tx.input,
        gas_priority_fee: tx.max_priority_fee_per_gas,
        max_fee_per_blob_gas,
        chain_id: Some(1),
        nonce: tx.nonce,
        access_list: declared,
        blob_hashes,
        kind,
    }
}

/// The environment of a block with this header.
pub fn block_env(header: &BlockHeader) -> (env: BlockEnv)
    ensures
        env.number == header.number,
        env.beneficiary == header.beneficiary,
        env.timestamp == header.timestamp,
        env.difficulty == header.difficulty,
        env.gas_limit == header.gas_limit,
        env.basefee == (match header.base_fee_per_gas {
            Some(fee) => fee,
            None => 0,
        }),
        env.excess_blob_gas == header.excess_blob_gas,
        env.prague == (header.requests_hash is Some),
{
    let basefee: u64 = match header.base_fee_per_gas {
        Some(fee) => fee,
        None => 0,
    };
    BlockEnv {
        number: header.number,
        beneficiary: header.beneficiary,
        timestamp: header.timestamp,
        difficulty: header.difficulty,
        gas_limit: header.gas_limit,
        basefee,
        excess_blob_gas: header.excess_blob_gas,
        prague: header.requests_hash.is_some(),
    }
}

} // verus!
