use alloy_consensus::{EthereumTxEnvelope, SignableTransaction, TxEip4844};
use alloy_eips::eip2718::Encodable2718;
use alloy_primitives::{Address, Bytes, Signature, TxKind as Kind, B256, U256 as Number};
use revm::database::{CacheDB, EmptyDB};
use revm::state::AccountInfo;
use revm::{Context, ExecuteCommitEvm, MainBuilder, MainContext};
use rsp_host_executor::header::BlockHeader;
use rsp_host_executor::primitives::U256;
use rsp_host_executor::replay::{Replay, ReplayStep};
use rsp_host_executor::transaction::{Transaction, TxKind};

fn header() -> BlockHeader {
    BlockHeader {
        parent_hash: [0; 32],
        ommers_hash: [0; 32],
        beneficiary: [3; 20],
        state_root: [0; 32],
        transactions_root: [0; 32],
        receipts_root: [0; 32],
        logs_bloom: [0; 256],
        difficulty: U256 { limbs: [0; 4] },
        number: 20526624,
        gas_limit: 30_000_000,
        gas_used: 0,
        timestamp: 1_723_640_000,
        extra_data: Vec::new(),
        mix_hash: [0; 32],
        nonce: [0; 8],
        base_fee_per_gas: Some(7),
        withdrawals_root: None,
        blob_gas_used: Some(655360),
        excess_blob_gas: Some(0),
        parent_beacon_block_root: None,
        requests_hash: None,
    }
}

#[test]
fn a_replayed_blob_transaction_pays_for_its_blobs() {
    let blobs = TxEip4844 {
        chain_id: 1,
        nonce: 0,
        gas_limit: 21000,
        max_fee_per_gas: 40,
        max_priority_fee_per_gas: 3,
        to: Address::from([9; 20]),
        value: Number::from(1000),
        access_list: Default::default(),
        blob_versioned_hashes: vec![B256::from(blob_hash()); 5],
        max_fee_per_blob_gas: 11,
        input: Bytes::new(),
    };
    let tx: EthereumTxEnvelope<TxEip4844> =
        blobs.into_signed(Signature::test_signature()).into();
    let tx = Transaction { encoded: tx.encoded_2718() };
    let sender = Address::from(tx.recover_signer().unwrap());

    let mut db = CacheDB::new(EmptyDB::default());
    let balance = Number::from(1_000_000_000u64);
    db.insert_account_info(sender, AccountInfo::from_balance(balance));
    let mut replay = Replay::new(header(), vec![tx]);
    let block = replay.env();
    let mut evm = Context::mainnet()
        .with_db(&mut db)
        .modify_block_chained(|env| {
            env.number = block.number;
            env.beneficiary = block.beneficiary.into();
            env.timestamp = block.timestamp;
            env.gas_limit = block.gas_limit;
            env.basefee = block.basefee;
            env.set_blob_excess_gas_and_price(block.excess_blob_gas.unwrap(), block.prague);
        })
        .build_mainnet();
    match replay.next() {
        ReplayStep::Execute { env, .. } => evm.modify_tx(|tx| {
            tx.tx_type = env.tx_type;
            tx.caller = env.caller.into();
            tx.gas_limit = env.gas_limit;
            tx.gas_price = env.gas_price;
            tx.value = Number::from_limbs(env.value.limbs);
            tx.data = env.data.into();
            tx.gas_priority_fee = env.gas_priority_fee;
            tx.max_fee_per_blob_gas = env.max_fee_per_blob_gas;
            tx.chain_id = env.chain_id;
            tx.nonce = env.nonce;
            tx.blob_hashes = env.blob_hashes.into_iter().map(B256::from).collect();
            tx.kind = match env.kind {
                TxKind::Call(to) => Kind::Call(to.into()),
                TxKind::Create => Kind::Create,
            };
        }),
        other => panic!("{other:?}"),
    }
    assert!(evm.replay_commit().unwrap().is_success());
    drop(evm);
    let left = db.cache.accounts[&sender].info.balance;
    assert_eq!(balance - left, Number::from(21000 * 10 + 1000 + 655360));
}

fn blob_hash() -> [u8; 32] {
    let mut hash = [0; 32];
    hash[0] = 1;
    hash
}
