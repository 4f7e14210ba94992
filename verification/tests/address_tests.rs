use fund_ledger::address::{derive_donation_address, derive_fund_address};
use fund_ledger::bytes::{bytes_eq, u64_to_be_bytes};

fn program_id() -> Vec<u8> {
    vec![7u8; 32]
}

#[test]
fn fund_derivation_is_deterministic() {
    let (a1, s1) = derive_fund_address(&program_id()).expect("a fund address derives");
    let (a2, s2) = derive_fund_address(&program_id()).expect("a fund address derives");
    assert_eq!(a1, a2);
    assert_eq!(s1, s2);
    assert_eq!(a1.len(), 32);
}

#[test]
fn donation_derivation_is_deterministic_and_index_sensitive() {
    let (a1, s1) = derive_donation_address(&program_id(), 3).expect("a donation address derives");
    let (a2, s2) = derive_donation_address(&program_id(), 3).expect("a donation address derives");
    assert_eq!(a1, a2);
    assert_eq!(s1, s2);
    assert_eq!(a1.len(), 32);
    // Different seeds reach different addresses: the derivation really mixes
    // its inputs rather than echoing them back.
    let (b0, _) = derive_donation_address(&program_id(), 0).expect("a donation address derives");
    assert_ne!(a1, b0);
    let (f, _) = derive_fund_address(&program_id()).expect("a fund address derives");
    assert_ne!(f, b0);
    let other_id = vec![8u8; 32];
    let (c0, _) = derive_donation_address(&other_id, 0).expect("a donation address derives");
    assert_ne!(b0, c0);
}

#[test]
fn index_encoding_is_big_endian() {
    assert_eq!(u64_to_be_bytes(0), vec![0u8; 8]);
    assert_eq!(u64_to_be_bytes(1), vec![0, 0, 0, 0, 0, 0, 0, 1]);
    assert_eq!(u64_to_be_bytes(0x0102030405060708), vec![1, 2, 3, 4, 5, 6, 7, 8]);
    assert_eq!(u64_to_be_bytes(u64::MAX), vec![0xff; 8]);
    assert_eq!(u64_to_be_bytes(42), 42u64.to_be_bytes().to_vec());
}

#[test]
fn byte_equality_compares_contents() {
    assert!(bytes_eq(&vec![1, 2, 3], &vec![1, 2, 3]));
    assert!(!bytes_eq(&vec![1, 2, 3], &vec![1, 2, 4]));
    assert!(!bytes_eq(&vec![1, 2, 3], &vec![1, 2]));
    assert!(bytes_eq(&Vec::new(), &Vec::new()));
}
