use alloy_consensus::{
    EthereumTxEnvelope, SignableTransaction, Signed, Transaction as Getters, TxEip1559, TxEip2930,
    TxEip4844, TxEip7702, TxLegacy,
};
use alloy_eips::eip2718::Encodable2718;
use alloy_eips::eip2930::{AccessList, AccessListItem as Declared};
use alloy_primitives::{hex, Address, Bytes, Signature, TxKind as Kind, B256, U256 as Number};
use rsp_host_executor::header::BlockHeader;
use rsp_host_executor::primitives::U256;
use rsp_host_executor::transaction::{
    all_senders, block_env, effective_gas_price, tx_env, AccessListItem, BlockEnv, Fees,
    Transaction, TxFields, TxKind,
};

const PLAIN: &str = "f86c098504a817c800825208943535353535353535353535353535353535353535880de0b6b3a76400008025a028ef61340bd939bc2195fe537567866003e1a15d3c71ff63e1590620aa636276a067cbe9d8997f761aecb703304b3800ccf555c9f3dc64214b297fb1966a3b6d83";

const DYNAMIC: &str = "02f86f0102843b9aca0085029e7822d68298f094d9e1459a7a482635700cbc20bbaf52d495ab9c9680841b55ba3ac080a0c199674fcb29f353693dd779c017823b954b3c69dffa3cd6b2a6ff7888798039a028ca912de909e7e6cdef9cdcaf24c54dd8c1032946dfa1d85c206b32a9064fe8";

fn raw(text: &str) -> Transaction {
    Transaction { encoded: hex::decode(text).unwrap() }
}

fn address(text: &str) -> [u8; 20] {
    hex::decode(text).unwrap().try_into().unwrap()
}

fn envelope<T>(tx: T) -> EthereumTxEnvelope<TxEip4844>
where
    T: SignableTransaction<Signature>,
    EthereumTxEnvelope<TxEip4844>: From<Signed<T>>,
{
    tx.into_signed(Signature::test_signature()).into()
}

fn declared() -> AccessList {
    AccessList(vec![Declared {
        address: Address::from([6; 20]),
        storage_keys: vec![B256::from([7; 32]), B256::from([8; 32])],
    }])
}

fn blob() -> TxEip4844 {
    TxEip4844 {
        chain_id: 1,
        nonce: 5,
        gas_limit: 70000,
        max_fee_per_gas: 40,
        max_priority_fee_per_gas: 3,
        to: Address::from([9; 20]),
        value: Number::from_limbs([1, 2, 3, 4]),
        access_list: declared(),
        blob_versioned_hashes: vec![B256::from([1; 32])],
        max_fee_per_blob_gas: 11,
        input: Bytes::from(vec![1, 2, 3]),
    }
}

fn all_kinds() -> Vec<EthereumTxEnvelope<TxEip4844>> {
    vec![
        envelope(TxLegacy { gas_price: 25, nonce: 1, to: Kind::Create, ..Default::default() }),
        envelope(TxEip2930 { gas_price: 26, access_list: declared(), ..Default::default() }),
        envelope(TxEip1559 {
            max_fee_per_gas: 30,
            max_priority_fee_per_gas: 2,
            ..Default::default()
        }),
        envelope(blob()),
        envelope(TxEip7702 {
            max_fee_per_gas: 50,
            max_priority_fee_per_gas: 9,
            ..Default::default()
        }),
    ]
}

fn access_list(tx: &EthereumTxEnvelope<TxEip4844>) -> Option<Vec<AccessListItem>> {
    Transaction { encoded: tx.encoded_2718() }.read_access_list()
}

fn fields(tx: &EthereumTxEnvelope<TxEip4844>) -> TxFields {
    Transaction { encoded: tx.encoded_2718() }.read().unwrap()
}

#[test]
fn the_signer_of_a_plain_transaction() {
    assert_eq!(
        raw(PLAIN).recover_signer(),
        Some(address("9d8a62f656a8d1615c1294fd71e9cfb3e4855a4f"))
    );
}

#[test]
fn the_signer_of_a_dynamic_transaction() {
    assert_eq!(
        raw(DYNAMIC).recover_signer(),
        Some(address("001e2b7de757ba469a57bf6b23d982458a07efce"))
    );
}

#[test]
fn a_plain_transaction_is_read() {
    assert_eq!(
        raw(PLAIN).read(),
        Some(TxFields {
            tx_type: 0,
            nonce: 9,
            gas_limit: 21000,
            gas_price: Some(20_000_000_000),
            max_fee_per_gas: 20_000_000_000,
            max_priority_fee_per_gas: None,
            to: Some([0x35; 20]),
            value: U256 { limbs: [1_000_000_000_000_000_000, 0, 0, 0] },
            input: Vec::new(),
            blob_hashes: None,
            max_fee_per_blob_gas: None,
        })
    );
}

#[test]
fn a_dynamic_transaction_is_read() {
    assert_eq!(
        raw(DYNAMIC).read(),
        Some(TxFields {
            tx_type: 2,
            nonce: 2,
            gas_limit: 39152,
            gas_price: None,
            max_fee_per_gas: 0x029e7822d6,
            max_priority_fee_per_gas: Some(1_000_000_000),
            to: Some(address("d9e1459a7a482635700cbc20bbaf52d495ab9c96")),
            value: U256 { limbs: [0, 0, 0, 0] },
            input: vec![0x1b, 0x55, 0xba, 0x3a],
            blob_hashes: None,
            max_fee_per_blob_gas: None,
        })
    );
}

#[test]
fn a_blob_transaction_is_read() {
    assert_eq!(
        fields(&envelope(blob())),
        TxFields {
            tx_type: 3,
            nonce: 5,
            gas_limit: 70000,
            gas_price: None,
            max_fee_per_gas: 40,
            max_priority_fee_per_gas: Some(3),
            to: Some([9; 20]),
            value: U256 { limbs: [1, 2, 3, 4] },
            input: vec![1, 2, 3],
            blob_hashes: Some(vec![[1; 32]]),
            max_fee_per_blob_gas: Some(11),
        }
    );
}

#[test]
fn bytes_that_are_no_transaction_have_no_signer() {
    let mut trailing = raw(PLAIN);
    trailing.encoded.push(0);
    for tx in [Transaction { encoded: Vec::new() }, Transaction { encoded: vec![0x7f; 40] }, trailing]
    {
        assert_eq!(tx.read(), None);
        assert_eq!(tx.recover_signer(), None);
    }
}

#[test]
fn a_signature_in_the_upper_half_has_no_signer() {
    let order = Number::from_be_slice(
        &hex::decode("fffffffffffffffffffffffffffffffebaaedce6af48a03bbfd25e8cd0364141").unwrap(),
    );
    let fine = Signature::test_signature();
    let upper = Signature::new(fine.r(), order - fine.s(), !fine.v());
    let signed = |signature: Signature| {
        let tx: EthereumTxEnvelope<TxEip4844> = TxEip1559::default().into_signed(signature).into();
        Transaction { encoded: tx.encoded_2718() }
    };
    assert!(signed(fine).recover_signer().is_some());
    assert_eq!(signed(upper).recover_signer(), None);
    assert!(signed(upper).read().is_some());
}

#[test]
fn the_price_is_that_of_the_getters() {
    for tx in all_kinds() {
        for base_fee in [None, Some(0), Some(20), Some(28), Some(29), Some(100)] {
            let env = tx_env(fields(&tx), access_list(&tx), [1; 20], base_fee);
            assert_eq!(env.gas_price, tx.effective_gas_price(base_fee), "{tx:?} {base_fee:?}");
        }
    }
}

#[test]
fn the_price_of_gas() {
    let fixed = Fees::Fixed { gas_price: 25 };
    assert_eq!(effective_gas_price(fixed, None), 25);
    assert_eq!(effective_gas_price(fixed, Some(100)), 25);
    let dynamic = Fees::Dynamic { max_fee_per_gas: 30, max_priority_fee_per_gas: 2 };
    assert_eq!(effective_gas_price(dynamic, None), 30);
    assert_eq!(effective_gas_price(dynamic, Some(20)), 22);
    assert_eq!(effective_gas_price(dynamic, Some(28)), 30);
    assert_eq!(effective_gas_price(dynamic, Some(29)), 30);
    assert_eq!(effective_gas_price(dynamic, Some(31)), 30);
    let huge = Fees::Dynamic { max_fee_per_gas: u128::MAX, max_priority_fee_per_gas: u128::MAX };
    assert_eq!(effective_gas_price(huge, Some(u64::MAX)), u128::MAX);
}

#[test]
fn a_dynamic_price_lies_between_its_bounds() {
    for base in [0u64, 5, 27, 28, 29, 30] {
        let fees = Fees::Dynamic { max_fee_per_gas: 30, max_priority_fee_per_gas: 2 };
        let price = effective_gas_price(fees, Some(base));
        assert!(price <= 30);
        assert!(base as u128 <= price && price <= base as u128 + 2);
    }
}

#[test]
fn the_environment_of_a_blob_transaction() {
    let env = tx_env(fields(&envelope(blob())), access_list(&envelope(blob())), [1; 20], Some(20));
    assert_eq!(env.tx_type, 3);
    assert_eq!(env.blob_hashes, vec![[1; 32]]);
    assert_eq!(env.caller, [1; 20]);
    assert_eq!(env.gas_limit, 70000);
    assert_eq!(env.gas_price, 23);
    assert_eq!(env.value, U256 { limbs: [1, 2, 3, 4] });
    assert_eq!(env.data, vec![1, 2, 3]);
    assert_eq!(env.gas_priority_fee, Some(3));
    assert_eq!(env.max_fee_per_blob_gas, 11);
    assert_eq!(env.chain_id, Some(1));
    assert_eq!(env.nonce, 5);
    assert_eq!(
        env.access_list,
        vec![AccessListItem { address: [6; 20], storage_keys: vec![[7; 32], [8; 32]] }]
    );
    assert_eq!(env.kind, TxKind::Call([9; 20]));
}

#[test]
fn the_environment_of_a_creation() {
    let env = tx_env(fields(&all_kinds()[0]), access_list(&all_kinds()[0]), [1; 20], Some(20));
    assert_eq!(env.tx_type, 0);
    assert!(env.blob_hashes.is_empty());
    assert_eq!(env.gas_price, 25);
    assert_eq!(env.gas_priority_fee, None);
    assert_eq!(env.max_fee_per_blob_gas, u128::MAX);
    assert_eq!(env.chain_id, Some(1));
    assert!(env.access_list.is_empty());
    assert_eq!(env.kind, TxKind::Create);
}

#[test]
fn the_type_is_that_of_the_transaction() {
    let types: Vec<u8> = all_kinds().iter().map(|tx| fields(tx).tx_type).collect();
    assert_eq!(types, vec![0, 1, 2, 3, 4]);
}

#[test]
fn only_a_blob_transaction_is_replayed_with_its_type() {
    let replayed: Vec<u8> = all_kinds()
        .iter()
        .map(|tx| tx_env(fields(tx), access_list(tx), [1; 20], Some(7)).tx_type)
        .collect();
    assert_eq!(replayed, vec![0, 0, 0, 3, 0]);
    let blobs: Vec<usize> = all_kinds()
        .iter()
        .map(|tx| tx_env(fields(tx), access_list(tx), [1; 20], Some(7)).blob_hashes.len())
        .collect();
    assert_eq!(blobs, vec![0, 0, 0, 1, 0]);
}

#[test]
fn access_lists_are_read() {
    let item = AccessListItem { address: [6; 20], storage_keys: vec![[7; 32], [8; 32]] };
    let lists: Vec<Option<Vec<AccessListItem>>> = all_kinds().iter().map(access_list).collect();
    assert_eq!(
        lists,
        vec![
            None,
            Some(vec![item.clone()]),
            Some(Vec::new()),
            Some(vec![item]),
            Some(Vec::new()),
        ]
    );
    assert_eq!(Transaction { encoded: vec![1] }.read_access_list(), None);
}

#[test]
fn senders_come_all_or_none() {
    assert_eq!(all_senders(Vec::new()), Some(Vec::new()));
    assert_eq!(all_senders(vec![Some([1; 20]), Some([2; 20])]), Some(vec![[1; 20], [2; 20]]));
    assert_eq!(all_senders(vec![Some([1; 20]), None]), None);
}

fn header(base_fee_per_gas: Option<u64>) -> BlockHeader {
    BlockHeader {
        parent_hash: [0; 32],
        ommers_hash: [0; 32],
        beneficiary: [3; 20],
        state_root: [0; 32],
        transactions_root: [0; 32],
        receipts_root: [0; 32],
        logs_bloom: [0; 256],
        difficulty: U256 { limbs: [9, 0, 0, 0] },
        number: 17,
        gas_limit: 30_000_000,
        gas_used: 0,
        timestamp: 123,
        extra_data: Vec::new(),
        mix_hash: [0; 32],
        nonce: [0; 8],
        base_fee_per_gas,
        withdrawals_root: None,
        blob_gas_used: None,
        excess_blob_gas: None,
        parent_beacon_block_root: None,
        requests_hash: None,
    }
}

#[test]
fn the_environment_of_a_block() {
    let expected = BlockEnv {
        number: 17,
        beneficiary: [3; 20],
        timestamp: 123,
        difficulty: U256 { limbs: [9, 0, 0, 0] },
        gas_limit: 30_000_000,
        basefee: 8,
        excess_blob_gas: None,
        prague: false,
    };
    assert_eq!(block_env(&header(Some(8))), expected);
    assert_eq!(block_env(&header(None)), BlockEnv { basefee: 0, ..expected });
    let cancun = BlockHeader { excess_blob_gas: Some(393216), ..header(Some(8)) };
    assert_eq!(block_env(&cancun), BlockEnv { excess_blob_gas: Some(393216), ..expected });
    let prague = BlockHeader { requests_hash: Some([1; 32]), ..header(Some(8)) };
    assert_eq!(block_env(&prague), BlockEnv { prague: true, ..expected });
}
