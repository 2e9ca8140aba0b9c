use alloy_primitives::hex;
use rsp_host_executor::bloom::{logs_bloom, Log, Receipt};
use rsp_host_executor::bundle::{AccountInfo, BundleAccount, BundleState, StorageSlot};
use rsp_host_executor::components::ExecutorComponents;
use rsp_host_executor::error::HostError;
use rsp_host_executor::header::{check_header, BlockHeader};
use rsp_host_executor::host_executor::{
    recover_senders, AccountRequests, AncestorRange, Block, BlockExecution, BlockTransaction,
    CurrentBlock, EthHostExecutor, ExecutionOutput, HostExecutor, OpHostExecutor, ParentState,
    PostExecution, PreviousBlock, ProofCollection, ProofRequest, SenderRecovery, StateAccess,
    StateRoot,
};
use rsp_host_executor::primitives::U256;
use rsp_host_executor::transaction::Transaction;
use std::sync::Arc;

struct Parts;

impl ExecutorComponents for Parts {
    type Provider = ();
    type Prover = ();
    type ProvingKey = ();
    type VerifyingKey = ();
    type Hooks = ();
    type EvmConfig = &'static str;
    type Block = &'static str;
    type Proof = &'static str;
    type State = &'static str;
    type Genesis = &'static str;
    type Bytecode = u8;
    type Error = &'static str;
}

const TARGET: [u8; 20] = [
    0x67, 0x1e, 0x1c, 0x28, 0x9f, 0x45, 0xcc, 0xaa, 0x82, 0x84, 0x35, 0x01, 0xc7, 0xbc, 0x84, 0x1b,
    0xa2, 0x6b, 0x97, 0xf1,
];

fn receipts() -> Vec<Receipt> {
    vec![
        Receipt { logs: vec![Log { address: [7; 20], topics: vec![[8; 32]], data: Vec::new() }] },
        Receipt { logs: vec![Log { address: [9; 20], topics: Vec::new(), data: vec![1] }] },
    ]
}

fn header(number: u64) -> BlockHeader {
    BlockHeader {
        parent_hash: [1; 32],
        ommers_hash: [2; 32],
        beneficiary: [3; 20],
        state_root: [number as u8; 32],
        transactions_root: [0; 32],
        receipts_root: [0; 32],
        logs_bloom: logs_bloom(&receipts()),
        difficulty: U256 { limbs: [0, 0, 0, 0] },
        number,
        gas_limit: 30_000_000,
        gas_used: 21000,
        timestamp: 123,
        extra_data: vec![1],
        mix_hash: [4; 32],
        nonce: [0; 8],
        base_fee_per_gas: Some(8),
        withdrawals_root: None,
        blob_gas_used: None,
        excess_blob_gas: None,
        parent_beacon_block_root: None,
        requests_hash: None,
    }
}

fn plain() -> Transaction {
    Transaction { encoded: hex::decode("f86c098504a817c800825208943535353535353535353535353535353535353535880de0b6b3a76400008025a028ef61340bd939bc2195fe537567866003e1a15d3c71ff63e1590620aa636276a067cbe9d8997f761aecb703304b3800ccf555c9f3dc64214b297fb1966a3b6d83").unwrap() }
}

fn plain_sender() -> [u8; 20] {
    hex::decode("9d8a62f656a8d1615c1294fd71e9cfb3e4855a4f").unwrap().try_into().unwrap()
}

fn slot(n: u64) -> U256 {
    U256 { limbs: [n, 0, 0, 0] }
}

fn key(n: u8) -> [u8; 32] {
    let mut key = [0; 32];
    key[31] = n;
    key
}

fn account(address: [u8; 20], written: Vec<u64>) -> BundleAccount {
    BundleAccount {
        address,
        info: Some(AccountInfo { balance: slot(1), nonce: 2, code_hash: [3; 32] }),
        storage: written
            .into_iter()
            .map(|n| StorageSlot { slot: slot(n), present: slot(n + 1) })
            .collect(),
        destroyed: false,
    }
}

fn output() -> ExecutionOutput {
    ExecutionOutput {
        receipts: receipts(),
        bundle: BundleState {
            accounts: vec![account([1; 20], vec![5, 2]), account(TARGET, vec![])],
        },
    }
}

fn requests() -> Vec<AccountRequests> {
    vec![
        AccountRequests { address: TARGET, slots: vec![slot(4)] },
        AccountRequests { address: [1; 20], slots: vec![slot(3), slot(2), slot(3)] },
    ]
}

fn start(number: u64) -> CurrentBlock<Parts> {
    HostExecutor::new("rules").execute::<Parts>(number, "genesis", Some([6; 20]), true)
}

fn block(transactions: Vec<BlockTransaction>) -> Block<Parts> {
    Block { header: header(20), transactions, whole: "whole" }
}

fn at_previous() -> PreviousBlock<Parts> {
    let transactions =
        vec![BlockTransaction::Signed(plain()), BlockTransaction::Deposit { from: [8; 20] }];
    start(20).on_block(Ok(Some(block(transactions)))).ok().unwrap()
}

fn at_recovery() -> SenderRecovery<Parts> {
    at_previous().on_block(Ok(Some(header(19)))).ok().unwrap()
}

fn at_execution() -> BlockExecution<Parts> {
    at_recovery().recover().ok().unwrap()
}

fn at_validation() -> PostExecution<Parts> {
    at_execution().on_executed(Ok(output())).ok().unwrap()
}

fn at_access() -> StateAccess<Parts> {
    at_validation().on_validated(Ok(())).ok().unwrap()
}

fn at_proofs() -> ProofCollection<Parts> {
    at_access().on_state_requests(requests())
}

fn at_state() -> ParentState<Parts> {
    let mut phase = at_proofs();
    let names = ["before 0", "after 0", "before 1", "after 1"];
    for name in names {
        assert!(phase.next_request().is_some());
        phase = phase.on_proof(Ok(name)).ok().unwrap();
    }
    assert!(phase.next_request().is_none());
    phase.finish()
}

fn at_root() -> StateRoot<Parts> {
    at_state().on_state(Ok("trie")).ok().unwrap()
}

fn at_range() -> AncestorRange<Parts> {
    at_root().on_root([20; 32]).ok().unwrap()
}

#[test]
fn the_executors_keep_their_rules() {
    let eth = EthHostExecutor::eth(Arc::new("mainnet"), Some([1; 20]));
    assert_eq!(*eth.evm_config.chain_spec, "mainnet");
    assert_eq!(eth.evm_config.custom_beneficiary, Some([1; 20]));
    let optimism = OpHostExecutor::optimism(Arc::new("op"));
    assert_eq!(*optimism.evm_config.chain_spec, "op");
    assert_eq!(HostExecutor::new(3).evm_config, 3);
}

#[test]
fn the_block_is_asked_for_by_its_number() {
    assert_eq!(start(20).number(), 20);
    assert_eq!(at_previous().number(), 19);
}

#[test]
fn a_missing_block_is_reported() {
    assert_eq!(start(20).on_block(Ok(None)).err(), Some(HostError::ExpectedBlock(20)));
    assert_eq!(start(0).on_block(Ok(None)).err(), Some(HostError::ExpectedBlock(0)));
    assert_eq!(at_previous().on_block(Ok(None)).err(), Some(HostError::ExpectedBlock(20)));
}

#[test]
fn outside_errors_are_passed_on() {
    let lost = || Some(HostError::Outside("lost"));
    assert_eq!(start(20).on_block(Err("lost")).err(), lost());
    assert_eq!(at_previous().on_block(Err("lost")).err(), lost());
    assert_eq!(at_execution().on_executed(Err("lost")).err(), lost());
    assert_eq!(at_validation().on_validated(Err("lost")).err(), lost());
    assert_eq!(at_proofs().on_proof(Err("lost")).err(), lost());
    assert_eq!(at_state().on_state(Err("lost")).err(), lost());
    assert_eq!(at_range().on_oldest(18).on_header(Err("lost")).err(), lost());
}

#[test]
fn the_parent_root_is_that_of_the_block_before() {
    assert_eq!(at_recovery().parent_root, [19; 32]);
    assert_eq!(at_state().parent_root, [19; 32]);
}

#[test]
fn senders_are_recovered() {
    assert_eq!(at_execution().senders, vec![plain_sender(), [8; 20]]);
    assert_eq!(recover_senders(&Vec::new()), Some(Vec::new()));
}

#[test]
fn a_transaction_without_a_sender_fails_the_block() {
    let unsigned = BlockTransaction::Signed(Transaction { encoded: vec![1] });
    let phase = start(20).on_block(Ok(Some(block(vec![
        BlockTransaction::Signed(plain()),
        unsigned.clone(),
    ]))));
    let phase = phase.ok().unwrap().on_block(Ok(Some(header(19)))).ok().unwrap();
    assert_eq!(phase.recover().err(), Some(HostError::FailedToRecoverSenders));
    assert_eq!(unsigned.recover_sender(), None);
}

#[test]
fn the_logs_bloom_is_that_of_all_receipts() {
    assert_eq!(at_access().logs_bloom, logs_bloom(&receipts()));
}

#[test]
fn proofs_are_asked_for_in_pairs() {
    let mut phase = at_proofs();
    let mut asked = Vec::new();
    while let Some(request) = phase.next_request() {
        asked.push(request);
        phase = phase.on_proof(Ok("some")).ok().unwrap();
    }
    let expected = vec![
        ProofRequest { address: TARGET, keys: vec![key(4)], block: 19 },
        ProofRequest { address: TARGET, keys: vec![], block: 20 },
        ProofRequest { address: [1; 20], keys: vec![key(2), key(3), key(5)], block: 19 },
        ProofRequest { address: [1; 20], keys: vec![key(2), key(5)], block: 20 },
    ];
    assert_eq!(asked, expected);
    for pair in asked.chunks(2) {
        assert_eq!(pair[0].address, pair[1].address);
        assert_eq!(pair[0].block + 1, pair[1].block);
        assert!(pair[1].keys.iter().all(|key| pair[0].keys.contains(key)));
    }
}

#[test]
fn the_next_request_stays_the_same_until_it_is_answered() {
    let phase = at_proofs();
    assert_eq!(phase.next_request(), phase.next_request());
}

#[test]
fn proofs_are_kept_by_side() {
    let phase = at_state();
    assert_eq!(phase.before, vec!["before 0", "before 1"]);
    assert_eq!(phase.after, vec!["after 0", "after 1"]);
}

#[test]
fn a_block_that_read_nothing_needs_no_proofs() {
    let phase = at_access().on_state_requests(Vec::new());
    assert!(phase.next_request().is_none());
    let phase = phase.finish();
    assert!(phase.before.is_empty() && phase.after.is_empty());
}

#[test]
fn the_root_is_asked_for_over_the_whole_bundle() {
    let phase = at_root();
    assert_eq!(phase.bundle, output().bundle);
    assert_eq!(phase.reported.accounts, vec![account(TARGET, vec![])]);
    assert_eq!(phase.state, "trie");
}

#[test]
fn a_change_outside_the_reported_accounts_stays_under_the_root() {
    let elsewhere = ExecutionOutput {
        bundle: BundleState { accounts: vec![account([1; 20], vec![5])] },
        ..output()
    };
    let phase = at_execution().on_executed(Ok(elsewhere)).ok().unwrap().on_validated(Ok(()));
    let phase = phase.ok().unwrap().on_state_requests(Vec::new()).finish();
    let phase = phase.on_state(Ok("trie")).ok().unwrap();
    assert_eq!(phase.bundle.accounts, vec![account([1; 20], vec![5])]);
    assert!(phase.reported.accounts.is_empty());
}

#[test]
fn a_root_that_reproduces_the_header_goes_on() {
    let own = header(20);
    let hash = check_header::<()>(&own, own.state_root, own.logs_bloom).unwrap();
    assert_eq!(at_range().block_hash, hash);
}

#[test]
fn a_root_that_does_not_is_a_mismatch() {
    assert_eq!(
        at_root().on_root([21; 32]).err(),
        Some(HostError::StateRootMismatch([21; 32], [20; 32]))
    );
}

#[test]
fn receipts_of_another_block_are_a_mismatch() {
    let silent = ExecutionOutput { receipts: Vec::new(), ..output() };
    let phase = at_execution().on_executed(Ok(silent)).ok().unwrap().on_validated(Ok(()));
    let phase = phase.ok().unwrap().on_state_requests(Vec::new()).finish();
    let phase = phase.on_state(Ok("trie")).ok().unwrap();
    let own = header(20);
    let hash = check_header::<()>(&own, own.state_root, own.logs_bloom).unwrap();
    match phase.on_root([20; 32]).err() {
        Some(HostError::HeaderMismatch(constructed, target)) => {
            let other = BlockHeader { logs_bloom: [0; 256], ..header(20) };
            assert_eq!(target, hash);
            assert_eq!(
                Ok(constructed),
                check_header::<()>(&other, other.state_root, other.logs_bloom)
            );
        }
        other => panic!("{other:?}"),
    }
}

#[test]
fn ancestors_come_newest_first() {
    let mut phase = at_range().on_oldest(16);
    let mut heights = Vec::new();
    while let Some(height) = phase.next_height() {
        heights.push(height);
        phase = phase.on_header(Ok(Some(header(height)))).ok().unwrap();
    }
    assert_eq!(heights, vec![19, 18, 17, 16]);
    let input = phase.finish(vec![1, 2]);
    let numbers: Vec<u64> = input.ancestor_headers.iter().map(|header| header.number).collect();
    assert_eq!(numbers, heights);
}

#[test]
fn a_missing_ancestor_is_reported() {
    let phase = at_range().on_oldest(17);
    let phase = phase.on_header(Ok(Some(header(19)))).ok().unwrap();
    assert_eq!(phase.on_header(Ok(None)).err(), Some(HostError::ExpectedBlock(18)));
}

#[test]
fn the_block_itself_as_the_oldest_needs_no_ancestors() {
    let phase = at_range().on_oldest(20);
    assert_eq!(phase.next_height(), None);
    assert!(phase.finish(Vec::new()).ancestor_headers.is_empty());
}

#[test]
fn the_input_accounts_for_the_run() {
    let phase = at_range().on_oldest(19).on_header(Ok(Some(header(19)))).ok().unwrap();
    let input = phase.finish(vec![1, 2]);
    assert_eq!(input.current_block.header, header(20));
    assert_eq!(input.current_block.whole, "whole");
    assert_eq!(input.current_block.transactions.len(), 2);
    assert_eq!(input.ancestor_headers, vec![header(19)]);
    assert_eq!(input.parent_state, "trie");
    assert_eq!(input.state_requests, requests());
    assert_eq!(input.bytecodes, vec![1, 2]);
    assert_eq!(input.genesis, "genesis");
    assert_eq!(input.custom_beneficiary, Some([6; 20]));
    assert!(input.opcode_tracking);
}
