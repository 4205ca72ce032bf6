use ipv6_delegate::allocator::{Ipv6Allocator, Ipv6Prefix};

const BASE64: u128 = 0x2001_0db8_0000_0001_0000_0000_0000_0000;

#[test]
fn prefix_new_accepts_clean_base() {
    let p = Ipv6Prefix::new(BASE64, 64).unwrap();
    assert_eq!(p.base, BASE64);
    assert_eq!(p.network_length, 64);
}

#[test]
fn prefix_new_rejects_host_bits() {
    assert!(Ipv6Prefix::new(BASE64 | 1, 64).is_none());
}

#[test]
fn prefix_new_rejects_long_length() {
    assert!(Ipv6Prefix::new(BASE64, 129).is_none());
}

#[test]
fn allocate_starts_at_one() {
    let p = Ipv6Prefix::new(BASE64, 64).unwrap();
    let mut a = Ipv6Allocator::new(p);
    assert_eq!(a.allocate(42), Some(BASE64 + 1));
}

#[test]
fn allocate_is_idempotent() {
    let p = Ipv6Prefix::new(BASE64, 64).unwrap();
    let mut a = Ipv6Allocator::new(p);
    let first = a.allocate(7).unwrap();
    let second = a.allocate(7).unwrap();
    assert_eq!(first, second);
    // another requester in between does not disturb the cached mapping
    let _ = a.allocate(8).unwrap();
    assert_eq!(a.allocate(7), Some(first));
}

#[test]
fn allocate_distinct_requesters_distinct_addresses() {
    let p = Ipv6Prefix::new(BASE64, 64).unwrap();
    let mut a = Ipv6Allocator::new(p);
    let x = a.allocate(1).unwrap();
    let y = a.allocate(2).unwrap();
    let z = a.allocate(3).unwrap();
    assert_ne!(x, y);
    assert_ne!(x, z);
    assert_ne!(y, z);
    assert_eq!(x, BASE64 + 1);
    assert_eq!(y, BASE64 + 2);
    assert_eq!(z, BASE64 + 3);
}

#[test]
fn allocate_exhausts_after_capacity() {
    // a /126 prefix has 2 host bits: capacity 2^2 - 1 = 3 addresses
    let base: u128 = 0x2001_0db8_0000_0001_0000_0000_0000_1000;
    let p = Ipv6Prefix::new(base, 126).unwrap();
    let mut a = Ipv6Allocator::new(p);
    assert_eq!(a.allocate(10), Some(base + 1));
    assert_eq!(a.allocate(11), Some(base + 2));
    assert_eq!(a.allocate(12), Some(base + 3));
    // the space is exhausted for a fresh requester
    assert_eq!(a.allocate(13), None);
    // but cached requesters keep their addresses
    assert_eq!(a.allocate(11), Some(base + 2));
}
