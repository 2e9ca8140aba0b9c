use rsp_host_executor::bytes::{be_parts, precedes, same_bytes};
use rsp_host_executor::primitives::U256;
use rsp_host_executor::storage_keys::{merged_keys, sorted_keys};

fn slot(n: u64) -> U256 {
    U256 { limbs: [n, 0, 0, 0] }
}

fn key(n: u8) -> [u8; 32] {
    let mut key = [0; 32];
    key[31] = n;
    key
}

#[test]
fn a_key_is_the_slot_in_big_endian() {
    let number = U256 { limbs: [0x1112131415161718, 0x0910, 0, 0x0102030405060708] };
    let mut expected = [0u8; 32];
    expected[..8].copy_from_slice(&[1, 2, 3, 4, 5, 6, 7, 8]);
    expected[22..].copy_from_slice(&[0x09, 0x10, 0x11, 0x12, 0x13, 0x14, 0x15, 0x16, 0x17, 0x18]);
    assert_eq!(sorted_keys(&vec![number]), vec![expected]);
}

#[test]
fn keys_are_sorted_and_single() {
    let slots = vec![slot(3), slot(1), slot(2), slot(1), slot(3)];
    assert_eq!(sorted_keys(&slots), vec![key(1), key(2), key(3)]);
    assert_eq!(sorted_keys(&Vec::new()), Vec::<[u8; 32]>::new());
}

#[test]
fn keys_are_sorted_as_numbers() {
    let large = U256 { limbs: [0, 0, 0, 1] };
    let keys = sorted_keys(&vec![large, slot(u64::MAX), slot(256), slot(255)]);
    let mut expected = vec![key(255), [0; 32], [0; 32], [0; 32]];
    expected[1][30] = 1;
    expected[2][24..].copy_from_slice(&[255; 8]);
    expected[3][7] = 1;
    assert_eq!(keys, expected);
}

#[test]
fn merging_keeps_one_of_each() {
    let merged = merged_keys(&vec![slot(9), slot(4), slot(4)], &vec![key(4), key(7), key(1)]);
    assert_eq!(merged, vec![key(1), key(4), key(7), key(9)]);
    assert_eq!(merged_keys(&Vec::new(), &vec![key(5)]), vec![key(5)]);
    assert_eq!(merged_keys(&vec![slot(5)], &Vec::new()), vec![key(5)]);
}

#[test]
fn the_order_of_arrival_does_not_show() {
    let forth = merged_keys(&vec![slot(1), slot(2)], &vec![key(3), key(4)]);
    let back = merged_keys(&vec![slot(4), slot(3)], &vec![key(2), key(1)]);
    assert_eq!(forth, back);
}

#[test]
fn comparing_bytes() {
    assert!(precedes(&key(1), &key(2)));
    assert!(!precedes(&key(2), &key(1)));
    assert!(!precedes(&key(2), &key(2)));
    assert!(same_bytes(&[1, 2], &[1, 2]));
    assert!(!same_bytes(&[1, 2], &[1, 3]));
    assert!(!same_bytes(&[1, 2], &[1, 2, 3]));
    assert!(same_bytes(&[], &[]));
}

#[test]
fn an_address_splits_into_two_numbers() {
    let mut address = [0u8; 20];
    address[..5].copy_from_slice(&[1, 2, 3, 4, 5]);
    address[19] = 6;
    assert_eq!(be_parts(&address), (0x01020304, 0x05000000000000000000000000000006));
}
