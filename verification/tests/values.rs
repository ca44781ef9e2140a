use dharitri_core::address::ManagedAddress;
use dharitri_core::big_uint::BigUint;
use dharitri_core::managed_buffer::ManagedBuffer;

#[test]
fn big_uint_from_u64_uses_minimal_bytes() {
    assert_eq!(BigUint::from_u64(0x1234).to_bytes(), vec![0x12, 0x34]);
    assert_eq!(BigUint::from_u64(1).to_bytes(), vec![1]);
    assert_eq!(BigUint::from_u64(256).to_bytes(), vec![1, 0]);
    assert_eq!(
        BigUint::from_u64(u64::MAX).to_bytes(),
        vec![0xFF, 0xFF, 0xFF, 0xFF, 0xFF, 0xFF, 0xFF, 0xFF]
    );
}

#[test]
fn big_uint_zero_is_the_empty_payload() {
    assert!(BigUint::zero().is_zero());
    assert_eq!(BigUint::zero().to_bytes(), Vec::<u8>::new());
    assert!(BigUint::from_u64(0).is_zero());
    assert!(!BigUint::from_u64(1).is_zero());
}

#[test]
fn big_uint_from_bytes_drops_leading_zeros() {
    let a = BigUint::from_bytes(&[0, 0, 5]);
    assert_eq!(a.to_bytes(), vec![5]);
    assert!(a.eq_big(&BigUint::from_u64(5)));
    assert!(BigUint::from_bytes(&[0, 0, 0]).is_zero());
    assert!(BigUint::from_bytes(&[]).is_zero());
}

#[test]
fn big_uint_equality_is_numeric() {
    assert!(BigUint::from_u64(7).eq_big(&BigUint::from_u64(7)));
    assert!(!BigUint::from_u64(7).eq_big(&BigUint::from_u64(8)));
    assert!(BigUint::zero().eq_big(&BigUint::from_bytes(&[0])));
}

#[test]
fn big_uint_order_is_numeric() {
    assert!(BigUint::zero().lt_big(&BigUint::from_u64(1)));
    assert!(BigUint::from_u64(255).lt_big(&BigUint::from_u64(256)));
    assert!(BigUint::from_u64(300).lt_big(&BigUint::from_u64(301)));
    assert!(!BigUint::from_u64(301).lt_big(&BigUint::from_u64(300)));
    assert!(!BigUint::from_u64(5).lt_big(&BigUint::from_u64(5)));
    assert!(BigUint::from_bytes(&[0, 0, 2]).lt_big(&BigUint::from_bytes(&[3])));
    assert!(BigUint::from_u64(u64::MAX).lt_big(&BigUint::from_bytes(&[1, 0, 0, 0, 0, 0, 0, 0, 0])));
}

#[test]
fn buffer_append_and_overwrite() {
    let mut b = ManagedBuffer::new_from_bytes(b"abc");
    b.append_bytes(b"de");
    assert_eq!(b.to_bytes(), b"abcde".to_vec());
    assert_eq!(b.len(), 5);
    b.overwrite(b"xy");
    assert_eq!(b.to_bytes(), b"xy".to_vec());
    assert!(!b.is_empty());
    assert!(ManagedBuffer::new().is_empty());
}

#[test]
fn buffer_slice_is_checked() {
    let b = ManagedBuffer::new_from_bytes(b"abcdef");
    let part = b.copy_slice(1, 4).unwrap();
    assert_eq!(part.to_bytes(), b"bcd".to_vec());
    assert!(b.copy_slice(4, 9).is_none());
    assert!(b.copy_slice(5, 2).is_none());
}

#[test]
fn buffer_equality_goes_by_the_bytes() {
    let a = ManagedBuffer::new_from_bytes(b"same");
    let b = ManagedBuffer::new_from_bytes(b"same");
    let c = ManagedBuffer::new_from_bytes(b"other");
    assert!(a.eq_buffer(&b));
    assert!(!a.eq_buffer(&c));
    assert!(a.eq_bytes(b"same"));
}

#[test]
fn buffer_concatenation() {
    let mut a = ManagedBuffer::new_from_bytes(b"ab");
    let b = ManagedBuffer::new_from_bytes(b"cd");
    a.append_buffer(&b);
    assert_eq!(a.to_bytes(), b"abcd".to_vec());
    assert_eq!(b.to_bytes(), b"cd".to_vec());
}

#[test]
fn address_is_thirty_two_bytes() {
    let z = ManagedAddress::zero();
    assert_eq!(z.len(), 32);
    assert_eq!(z.to_bytes(), vec![0u8; 32]);
    let mut raw = vec![0u8; 32];
    raw[31] = 7;
    let a = ManagedAddress::new_from_bytes(&raw);
    assert_eq!(a.to_bytes(), raw);
    assert!(!a.eq_address(&z));
    assert!(z.eq_address(&ManagedAddress::zero()));
}
