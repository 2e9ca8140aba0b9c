use alloy_primitives::hex;
use rsp_host_executor::bundle::{AccountInfo, BundleAccount, BundleState, RootScope, StorageSlot};
use rsp_host_executor::primitives::U256;

fn address(text: &str) -> [u8; 20] {
    hex::decode(text).unwrap().try_into().unwrap()
}

fn host_accounts() -> Vec<[u8; 20]> {
    [
        "000000629fbcf27a347d1aeba658435230d74a5f",
        "037dd48ffd09fbdc1e385fefda48c6e1ef1382af",
        "06a9ab27c7e2255df1815e6cc0168d7755feb19a",
        "08e96f308eb008b3db68640aba6b06078625f8cd",
        "0d0707963952f2fba59dd06f2b425ace40b492fe",
        "111111125421ca6dc452d289314280a0f8842a65",
        "12106758e03613e66fa96209927940c825e85fff",
        "1516008376543c283654f60b03a28e1c9930806a",
        "16c0829dd60124f2a7d49a5e768f7978a57c2393",
        "1728d7099f6535f5efeba784a4ba54120ceada6b",
        "1d71eb5d4f05884add4d8e8a4d31eef3a4263c47",
        "23529b46bb5fdb9f9d0427e9a35115551b72581b",
        "239426c2feda17d10635b6e7d1cfca9ab33ab222",
        "26c1087b6a658c106768eea1931e083ce469f20c",
        "30daff27da012e118c07fae5380eb06f707c5ce4",
        "340d2bde5eb28c1eed91b2f790723e3b160613b7",
        "3777261fd6e1ec0704735d491328215b9f5825b1",
        "4280b10e7cd12171e944401e4018250d2052a0d6",
        "4a5565db6515923418bb9ab1a8ad816e85c12ff4",
        "4cff49d0a19ed6ff845a9122fa912abcfb1f68a6",
        "4d224452801aced8b2f0aebe155379bb5d594381",
        "4d9ff50ef4da947364bb9650892b2554e7be5e2b",
        "5c9538085fdfce7470e66f7c3e1b1f0f01d969aa",
        "5faa989af96af85384b8a938c2ede4a7378d9875",
        "671e1c289f45ccaa82843501c7bc841ba26b97f1",
    ]
    .iter()
    .map(|text| address(text))
    .collect()
}

fn replay_accounts() -> Vec<[u8; 20]> {
    [
        "000000629fbcf27a347d1aeba658435230d74a5f",
        "037dd48ffd09fbdc1e385fefda48c6e1ef1382af",
        "30daff27da012e118c07fae5380eb06f707c5ce4",
        "3777261fd6e1ec0704735d491328215b9f5825b1",
        "671e1c289f45ccaa82843501c7bc841ba26b97f1",
        "f70da97812cb96acdf810712aa562db8dfa3dbef",
    ]
    .iter()
    .map(|text| address(text))
    .collect()
}

fn info(balance: u64) -> AccountInfo {
    AccountInfo { balance: U256 { limbs: [balance, 0, 0, 0] }, nonce: 3, code_hash: [4; 32] }
}

fn account(address: [u8; 20]) -> BundleAccount {
    BundleAccount { address, info: Some(info(5)), storage: Vec::new(), destroyed: false }
}

fn entry(slot: u64) -> StorageSlot {
    StorageSlot {
        slot: U256 { limbs: [slot, 0, 0, 0] },
        present: U256 { limbs: [slot + 100, 0, 0, 0] },
    }
}

fn addresses(bundle: &BundleState) -> Vec<[u8; 20]> {
    bundle.accounts.iter().map(|account| account.address).collect()
}

#[test]
fn the_host_root_covers_its_accounts() {
    for address in host_accounts() {
        assert!(RootScope::Host.includes(&address));
        for at in [0, 3, 4, 19] {
            let mut near = address;
            near[at] ^= 0x80;
            assert!(!RootScope::Host.includes(&near));
        }
    }
    assert!(!RootScope::Host.includes(&address("6887246668a3b87f54deb3b94ba47a6f63f32985")));
    assert!(!RootScope::Host.includes(&address("f70da97812cb96acdf810712aa562db8dfa3dbef")));
    assert!(!RootScope::Host.includes(&[0; 20]));
}

#[test]
fn the_replay_root_covers_its_accounts() {
    for address in replay_accounts() {
        assert!(RootScope::Replay.includes(&address));
    }
    let only_host: Vec<[u8; 20]> =
        host_accounts().into_iter().filter(|a| !replay_accounts().contains(a)).collect();
    assert_eq!(only_host.len(), 20);
    for address in only_host {
        assert!(!RootScope::Replay.includes(&address));
    }
}

#[test]
fn retaining_keeps_order_and_contents() {
    let mut kept = account(host_accounts()[24]);
    kept.storage = vec![entry(1), entry(2)];
    kept.destroyed = true;
    let mut bundle = BundleState {
        accounts: vec![
            account([1; 20]),
            kept.clone(),
            account([2; 20]),
            account(host_accounts()[0]),
            account(replay_accounts()[5]),
        ],
    };
    bundle.retain(RootScope::Host);
    assert_eq!(bundle.accounts, vec![kept, account(host_accounts()[0])]);
}

#[test]
fn a_covered_copy_leaves_the_rest_alone() {
    let mut kept = account(host_accounts()[24]);
    kept.storage = vec![entry(1), entry(2)];
    kept.destroyed = true;
    let gone = BundleAccount { info: None, ..account(host_accounts()[0]) };
    let bundle =
        BundleState { accounts: vec![account([1; 20]), kept.clone(), account([2; 20]), gone.clone()] };
    assert_eq!(bundle.covered(RootScope::Host).accounts, vec![kept, gone]);
    assert_eq!(bundle.accounts.len(), 4);
}

#[test]
fn retaining_a_second_time_is_idle() {
    for scope in [RootScope::Host, RootScope::Replay] {
        let mut bundle = BundleState {
            accounts: host_accounts().into_iter().chain([[1; 20]]).map(account).collect(),
        };
        bundle.retain(scope);
        let once = addresses(&bundle);
        bundle.retain(scope);
        assert_eq!(addresses(&bundle), once);
    }
}

#[test]
fn retaining_nothing_of_nothing() {
    let mut bundle = BundleState { accounts: Vec::new() };
    bundle.retain(RootScope::Host);
    assert!(bundle.accounts.is_empty());
    let mut strangers = BundleState { accounts: vec![account([1; 20]), account([2; 20])] };
    strangers.retain(RootScope::Replay);
    assert!(strangers.accounts.is_empty());
}

#[test]
fn written_keys_are_sorted() {
    let mut touched = account([1; 20]);
    touched.storage = vec![entry(9), entry(2)];
    let bundle = BundleState { accounts: vec![account([3; 20]), touched] };
    let mut two = [0; 32];
    two[31] = 2;
    let mut nine = [0; 32];
    nine[31] = 9;
    assert_eq!(bundle.modified_keys(&[1; 20]), vec![two, nine]);
    assert!(bundle.modified_keys(&[3; 20]).is_empty());
    assert!(bundle.modified_keys(&[4; 20]).is_empty());
}

#[test]
fn the_override_sets_one_balance() {
    let mut target = account(host_accounts()[0]);
    target.storage = vec![entry(7)];
    let mut bundle =
        BundleState { accounts: vec![account([1; 20]), target.clone(), account([2; 20])] };
    assert!(bundle.has_replay_target());
    bundle.override_replay_balance();
    let balance: u128 = 63298440508785708615;
    target.info = Some(AccountInfo {
        balance: U256 { limbs: [balance as u64, (balance >> 64) as u64, 0, 0] },
        ..info(5)
    });
    assert_eq!(bundle.accounts, vec![account([1; 20]), target, account([2; 20])]);
}

#[test]
fn an_override_needs_its_account() {
    assert!(!BundleState { accounts: Vec::new() }.has_replay_target());
    assert!(!BundleState { accounts: vec![account([1; 20])] }.has_replay_target());
    let gone = BundleAccount { info: None, ..account(host_accounts()[0]) };
    assert!(!BundleState { accounts: vec![gone] }.has_replay_target());
}
