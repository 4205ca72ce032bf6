use ipv6_delegate::addr::{is_global_unicast, mask_to_prefix};

const MASK64: u128 = 0xffff_ffff_ffff_ffff_0000_0000_0000_0000;

#[test]
fn mask_to_prefix_exact_values() {
    assert_eq!(mask_to_prefix(0), Some(0));
    assert_eq!(mask_to_prefix(MASK64), Some(64));
    assert_eq!(mask_to_prefix(!0u128), Some(128));
    assert_eq!(mask_to_prefix(0xffff_ffff_ffff_0000_0000_0000_0000_0000), Some(48));
    assert_eq!(mask_to_prefix(0x8000_0000_0000_0000_0000_0000_0000_0000), Some(1));
}

#[test]
fn mask_to_prefix_rejects_non_contiguous() {
    assert_eq!(mask_to_prefix(MASK64 | 1), None);
    assert_eq!(mask_to_prefix(1), None);
    assert_eq!(mask_to_prefix(0x00ff_ffff_ffff_ffff_0000_0000_0000_0000), None);
}

#[test]
fn global_scope_check() {
    // a documentation-range global address qualifies
    assert!(is_global_unicast(0x2001_0db8_0000_0001_0000_0000_0000_0001));
    // unspecified ::
    assert!(!is_global_unicast(0));
    // loopback ::1
    assert!(!is_global_unicast(1));
    // multicast ff02::1
    assert!(!is_global_unicast(0xff02_0000_0000_0000_0000_0000_0000_0001));
    // unique-local fc00::1 and fd12::1
    assert!(!is_global_unicast(0xfc00_0000_0000_0000_0000_0000_0000_0001));
    assert!(!is_global_unicast(0xfd12_0000_0000_0000_0000_0000_0000_0001));
    // link-local unicast fe80::1
    assert!(!is_global_unicast(0xfe80_0000_0000_0000_0000_0000_0000_0001));
}
