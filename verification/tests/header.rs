use alloy_primitives::hex;
use rsp_host_executor::error::HostError;
use rsp_host_executor::header::{check_header, compare_hashes, derive_header, BlockHeader};
use rsp_host_executor::primitives::U256;

fn hash(text: &str) -> [u8; 32] {
    hex::decode(text).unwrap().try_into().unwrap()
}

fn mainnet_genesis() -> BlockHeader {
    let empty_trie = hash("56e81f171bcc55a6ff8345e692c0f86e5b48e01b996cadc001622fb5e363b421");
    BlockHeader {
        parent_hash: [0; 32],
        ommers_hash: hash("1dcc4de8dec75d7aab85b567b6ccd41ad312451b948a7413f0a142fd40d49347"),
        beneficiary: [0; 20],
        state_root: hash("d7f8974fb5ac78d9ac099b9ad5018bedc2ce0a72dad1827a1709da30580f0544"),
        transactions_root: empty_trie,
        receipts_root: empty_trie,
        logs_bloom: [0; 256],
        difficulty: U256 { limbs: [0x4_0000_0000, 0, 0, 0] },
        number: 0,
        gas_limit: 5000,
        gas_used: 0,
        timestamp: 0,
        extra_data: hash("11bbe8db4e347b4e8c937c1c8370e4b5ed33adb3db69cbdb7a38e1e50b1b82fa").to_vec(),
        mix_hash: [0; 32],
        nonce: [0, 0, 0, 0, 0, 0, 0, 0x42],
        base_fee_per_gas: None,
        withdrawals_root: None,
        blob_gas_used: None,
        excess_blob_gas: None,
        parent_beacon_block_root: None,
        requests_hash: None,
    }
}

fn recent() -> BlockHeader {
    BlockHeader {
        base_fee_per_gas: Some(7),
        withdrawals_root: Some([1; 32]),
        blob_gas_used: Some(131072),
        excess_blob_gas: Some(0),
        parent_beacon_block_root: Some([2; 32]),
        requests_hash: Some([3; 32]),
        ..mainnet_genesis()
    }
}

#[test]
fn the_genesis_header_reproduces_its_hash() {
    let header = mainnet_genesis();
    let accepted = check_header::<()>(&header, header.state_root, header.logs_bloom);
    assert_eq!(
        accepted,
        Ok(hash("d4e56740f876aef8c010b86a40d5f56745a118d0906a34e69aec8c0db1cb8fa3"))
    );
}

#[test]
fn another_state_root_is_a_mismatch() {
    let header = mainnet_genesis();
    match check_header::<()>(&header, [9; 32], header.logs_bloom) {
        Err(HostError::HeaderMismatch(constructed, target)) => {
            assert_eq!(
                target,
                hash("d4e56740f876aef8c010b86a40d5f56745a118d0906a34e69aec8c0db1cb8fa3")
            );
            assert_ne!(constructed, target);
        }
        other => panic!("{other:?}"),
    }
}

#[test]
fn another_bloom_is_a_mismatch() {
    let header = mainnet_genesis();
    let mut bloom = header.logs_bloom;
    bloom[255] = 1;
    assert!(matches!(
        check_header::<()>(&header, header.state_root, bloom),
        Err(HostError::HeaderMismatch(_, _))
    ));
}

#[test]
fn every_field_enters_the_hash() {
    let reference = check_header::<()>(&recent(), recent().state_root, recent().logs_bloom).unwrap();
    let mut changed: Vec<BlockHeader> = Vec::new();
    changed.push(BlockHeader { parent_hash: [5; 32], ..recent() });
    changed.push(BlockHeader { ommers_hash: [5; 32], ..recent() });
    changed.push(BlockHeader { beneficiary: [5; 20], ..recent() });
    changed.push(BlockHeader { state_root: [5; 32], ..recent() });
    changed.push(BlockHeader { transactions_root: [5; 32], ..recent() });
    changed.push(BlockHeader { receipts_root: [5; 32], ..recent() });
    changed.push(BlockHeader { logs_bloom: [5; 256], ..recent() });
    changed.push(BlockHeader { difficulty: U256 { limbs: [0x4_0000_0000, 0, 0, 1] }, ..recent() });
    changed.push(BlockHeader { number: 1, ..recent() });
    changed.push(BlockHeader { gas_limit: 1, ..recent() });
    changed.push(BlockHeader { gas_used: 1, ..recent() });
    changed.push(BlockHeader { timestamp: 1, ..recent() });
    changed.push(BlockHeader { extra_data: vec![1], ..recent() });
    changed.push(BlockHeader { mix_hash: [5; 32], ..recent() });
    changed.push(BlockHeader { nonce: [5; 8], ..recent() });
    changed.push(BlockHeader { base_fee_per_gas: Some(8), ..recent() });
    changed.push(BlockHeader { withdrawals_root: Some([5; 32]), ..recent() });
    changed.push(BlockHeader { blob_gas_used: Some(1), ..recent() });
    changed.push(BlockHeader { excess_blob_gas: Some(1), ..recent() });
    changed.push(BlockHeader { parent_beacon_block_root: Some([5; 32]), ..recent() });
    changed.push(BlockHeader { requests_hash: Some([5; 32]), ..recent() });
    for header in changed {
        let hash = check_header::<()>(&header, header.state_root, header.logs_bloom).unwrap();
        assert_ne!(hash, reference, "{header:?}");
    }
}

#[test]
fn the_derived_header_changes_in_two_fields() {
    let current = recent();
    let derived = derive_header(&current, [8; 32], [9; 256]);
    assert_eq!(derived, BlockHeader { state_root: [8; 32], logs_bloom: [9; 256], ..recent() });
    assert_eq!(derive_header(&current, current.state_root, current.logs_bloom), current);
}

#[test]
fn comparing_hashes() {
    assert_eq!(compare_hashes::<()>([1; 32], [1; 32]), Ok([1; 32]));
    assert_eq!(
        compare_hashes::<()>([1; 32], [2; 32]),
        Err(HostError::HeaderMismatch([1; 32], [2; 32]))
    );
}
