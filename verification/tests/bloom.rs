use alloy_primitives::hex;
use rsp_host_executor::bloom::{accumulate, logs_bloom, Log, Receipt};

fn transfer() -> Log {
    Log {
        address: hex::decode("ef2d6d194084c2de36e0dabfce45d046b37d1106").unwrap().try_into().unwrap(),
        topics: vec![hex::decode("02c69be41d0b7e40352fc85be1cd65eb03d40ef8427a0ca4596b1ead9a00e9fc")
            .unwrap()
            .try_into()
            .unwrap()],
        data: vec![1, 2, 3],
    }
}

fn transfer_bloom() -> [u8; 256] {
    let mut bloom = [0u8; 256];
    bloom[20] = 0x10;
    bloom[99] = 0x02;
    bloom[100] = 0x02;
    bloom[123] = 0x08;
    bloom[128] = 0x10;
    bloom[155] = 0x10;
    bloom
}

fn other() -> Log {
    Log { address: [7; 20], topics: vec![[8; 32], [9; 32]], data: Vec::new() }
}

#[test]
fn no_receipts_leave_the_filter_empty() {
    assert_eq!(logs_bloom(&Vec::new()), [0; 256]);
    assert_eq!(logs_bloom(&vec![Receipt { logs: Vec::new() }]), [0; 256]);
}

#[test]
fn a_log_sets_the_bits_of_its_address_and_topics() {
    assert_eq!(logs_bloom(&vec![Receipt { logs: vec![transfer()] }]), transfer_bloom());
    let silent = Log { data: Vec::new(), ..transfer() };
    assert_eq!(logs_bloom(&vec![Receipt { logs: vec![silent] }]), transfer_bloom());
    let bare = Log { topics: Vec::new(), ..transfer() };
    assert_ne!(logs_bloom(&vec![Receipt { logs: vec![bare] }]), transfer_bloom());
}

#[test]
fn receipts_accrue_in_any_order() {
    let first = Receipt { logs: vec![transfer()] };
    let second = Receipt { logs: vec![other()] };
    let both = logs_bloom(&vec![first.clone(), second.clone()]);
    assert_eq!(both, logs_bloom(&vec![second.clone(), first.clone()]));
    let apart = [logs_bloom(&vec![first]), logs_bloom(&vec![second])];
    for i in 0..256 {
        assert_eq!(both[i], apart[0][i] | apart[1][i]);
    }
    assert_ne!(both, apart[0]);
    assert_ne!(both, apart[1]);
}

#[test]
fn accumulating_filters() {
    assert_eq!(accumulate(&Vec::new()), [0; 256]);
    let mut a = [0u8; 256];
    a[0] = 0b1010_0000;
    a[255] = 1;
    let mut b = [0u8; 256];
    b[0] = 0b0010_0001;
    let mut union = [0u8; 256];
    union[0] = 0b1010_0001;
    union[255] = 1;
    assert_eq!(accumulate(&vec![a, b]), union);
    assert_eq!(accumulate(&vec![a, a]), a);
}
