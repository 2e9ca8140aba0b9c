use alloy_primitives::hex;
use rsp_host_executor::bundle::{AccountInfo, BundleAccount, BundleState};
use rsp_host_executor::header::BlockHeader;
use rsp_host_executor::primitives::U256;
use rsp_host_executor::replay::{Replay, ReplayStep, RootVerdict};
use rsp_host_executor::transaction::{AccessListItem, Transaction, TxFields, TxKind};

fn header() -> BlockHeader {
    BlockHeader {
        parent_hash: [0; 32],
        ommers_hash: [0; 32],
        beneficiary: [3; 20],
        state_root: [6; 32],
        transactions_root: [0; 32],
        receipts_root: [0; 32],
        logs_bloom: [0; 256],
        difficulty: U256 { limbs: [9, 0, 0, 0] },
        number: 17,
        gas_limit: 30_000_000,
        gas_used: 0,
        timestamp: 123,
        extra_data: Vec::new(),
        mix_hash: [0; 32],
        nonce: [0; 8],
        base_fee_per_gas: Some(8_000_000_000),
        withdrawals_root: None,
        blob_gas_used: None,
        excess_blob_gas: None,
        parent_beacon_block_root: None,
        requests_hash: None,
    }
}

fn plain() -> Transaction {
    Transaction { encoded: hex::decode("f86c098504a817c800825208943535353535353535353535353535353535353535880de0b6b3a76400008025a028ef61340bd939bc2195fe537567866003e1a15d3c71ff63e1590620aa636276a067cbe9d8997f761aecb703304b3800ccf555c9f3dc64214b297fb1966a3b6d83").unwrap() }
}

fn dynamic() -> Transaction {
    Transaction { encoded: hex::decode("02f86f0102843b9aca0085029e7822d68298f094d9e1459a7a482635700cbc20bbaf52d495ab9c9680841b55ba3ac080a0c199674fcb29f353693dd779c017823b954b3c69dffa3cd6b2a6ff7888798039a028ca912de909e7e6cdef9cdcaf24c54dd8c1032946dfa1d85c206b32a9064fe8").unwrap() }
}

fn address(text: &str) -> [u8; 20] {
    hex::decode(text).unwrap().try_into().unwrap()
}

fn account(address: [u8; 20]) -> BundleAccount {
    BundleAccount {
        address,
        info: Some(AccountInfo {
            balance: U256 { limbs: [5, 0, 0, 0] },
            nonce: 3,
            code_hash: [4; 32],
        }),
        storage: Vec::new(),
        destroyed: false,
    }
}

#[test]
fn the_transactions_of_a_block_in_order() {
    let mut replay = Replay::new(header(), vec![dynamic(), plain()]);
    assert_eq!(replay.env().number, 17);
    assert_eq!(replay.env().basefee, 8_000_000_000);
    match replay.next() {
        ReplayStep::Execute { index, env } => {
            assert_eq!(index, 0);
            assert_eq!(env.caller, address("001e2b7de757ba469a57bf6b23d982458a07efce"));
            assert_eq!(env.gas_price, 9_000_000_000);
            assert_eq!(env.nonce, 2);
        }
        other => panic!("{other:?}"),
    }
    match replay.next() {
        ReplayStep::Execute { index, env } => {
            assert_eq!(index, 1);
            assert_eq!(env.caller, address("9d8a62f656a8d1615c1294fd71e9cfb3e4855a4f"));
            assert_eq!(env.gas_price, 20_000_000_000);
            assert_eq!(env.kind, TxKind::Call([0x35; 20]));
        }
        other => panic!("{other:?}"),
    }
    assert_eq!(replay.next(), ReplayStep::Finished);
    assert_eq!(replay.next(), ReplayStep::Finished);
    assert!(!replay.stopped);
}

#[test]
fn a_transaction_without_a_signer_stops_the_replay() {
    let mut replay = Replay::new(header(), vec![plain(), Transaction { encoded: vec![1, 2] }]);
    assert!(matches!(replay.next(), ReplayStep::Execute { index: 0, .. }));
    assert!(!replay.stopped);
    assert_eq!(replay.next(), ReplayStep::NoSigner { index: 1 });
    assert!(replay.stopped);
}

#[test]
fn a_step_on_given_answers() {
    let fields = TxFields {
        tx_type: 2,
        nonce: 4,
        gas_limit: 50000,
        gas_price: None,
        max_fee_per_gas: 12_000_000_000,
        max_priority_fee_per_gas: Some(1),
        to: None,
        value: U256 { limbs: [2, 0, 0, 0] },
        input: vec![7],
        blob_hashes: None,
        max_fee_per_blob_gas: None,
    };
    let item = AccessListItem { address: [6; 20], storage_keys: vec![[7; 32]] };
    let mut replay = Replay::new(header(), vec![plain(), plain()]);
    match replay.step(Some([1; 20]), Some(fields.clone()), Some(vec![item.clone()])) {
        ReplayStep::Execute { index, env } => {
            assert_eq!(index, 0);
            assert_eq!(env.caller, [1; 20]);
            assert_eq!(env.gas_price, 8_000_000_001);
            assert_eq!(env.kind, TxKind::Create);
            assert_eq!(env.data, vec![7]);
            assert_eq!(env.access_list, vec![item]);
        }
        other => panic!("{other:?}"),
    }
    assert!(!replay.stopped);
    assert_eq!(replay.step(None, Some(fields), None), ReplayStep::NoSigner { index: 1 });
    assert!(replay.stopped);
    let mut unread = Replay::new(header(), vec![plain()]);
    assert_eq!(unread.step(Some([1; 20]), None, None), ReplayStep::NoSigner { index: 0 });
    assert!(unread.stopped);
}

#[test]
fn the_state_under_the_root() {
    let target = address("000000629fbcf27a347d1aeba658435230d74a5f");
    let other = address("f70da97812cb96acdf810712aa562db8dfa3dbef");
    let bundle = BundleState {
        accounts: vec![account([1; 20]), account(other), account(target), account([2; 20])],
    };
    let kept = Replay::new(header(), Vec::new()).root_state(bundle);
    let balance: u128 = 63298440508785708615;
    let mut overridden = account(target);
    overridden.info = overridden.info.map(|info| AccountInfo {
        balance: U256 { limbs: [balance as u64, (balance >> 64) as u64, 0, 0] },
        ..info
    });
    assert_eq!(kept.accounts, vec![account(other), overridden]);
}

#[test]
fn the_state_that_is_reported() {
    let shared = address("5faa989af96af85384b8a938c2ede4a7378d9875");
    let own = address("f70da97812cb96acdf810712aa562db8dfa3dbef");
    let target = address("000000629fbcf27a347d1aeba658435230d74a5f");
    let bundle = BundleState { accounts: vec![account(own), account(target), account(shared)] };
    let reported = Replay::new(header(), Vec::new()).reported_state(&bundle);
    assert_eq!(reported.accounts, vec![account(target), account(shared)]);
}

#[test]
fn the_verdict_on_a_root() {
    let replay = Replay::new(header(), Vec::new());
    assert_eq!(
        replay.verdict([6; 32]),
        RootVerdict { calculated: [6; 32], actual: [6; 32], matches: true }
    );
    assert_eq!(
        replay.verdict([7; 32]),
        RootVerdict { calculated: [7; 32], actual: [6; 32], matches: false }
    );
}
