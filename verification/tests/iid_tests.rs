use ipv6_delegate::discovery::OnLinkPrefix;
use ipv6_delegate::iid::{alloc_addrs_for_peer, derive_iid, prefix_base};
use sha2::{Digest, Sha256};

const MASK64: u128 = 0xffff_ffff_ffff_ffff_0000_0000_0000_0000;
const BASE: u128 = 0x2001_0db8_0000_0001_0000_0000_0000_0000;

/// The derivation rule recomputed independently of the library.
fn expected_iid(id: u32, base: u128) -> u64 {
    let mut h = Sha256::new();
    h.update(id.to_be_bytes());
    h.update(base.to_be_bytes());
    let d = h.finalize();
    let mut first8 = [0u8; 8];
    first8.copy_from_slice(&d[0..8]);
    u64::from_be_bytes(first8) | 1
}

#[test]
fn derive_iid_is_deterministic() {
    let a = derive_iid(7, BASE);
    let b = derive_iid(7, BASE);
    assert_eq!(a, b);
    assert_eq!(a & 1, 1);
}

#[test]
fn derive_iid_matches_sha256() {
    assert_eq!(derive_iid(7, BASE), expected_iid(7, BASE));
    assert_eq!(derive_iid(0, 0), expected_iid(0, 0));
    assert_eq!(derive_iid(0xdead_beef, !0u128 & MASK64), expected_iid(0xdead_beef, !0 & MASK64));
}

#[test]
fn derive_iid_differs_across_inputs() {
    assert_ne!(derive_iid(1, BASE), derive_iid(2, BASE));
    assert_ne!(derive_iid(1, BASE), derive_iid(1, BASE + (1 << 64)));
}

#[test]
fn prefix_base_masks_host_bits() {
    assert_eq!(prefix_base(BASE | 0xdead), BASE);
    assert_eq!(prefix_base(BASE), BASE);
}

#[test]
fn batch_assembles_address_from_base_and_iid() {
    let ip = BASE | 0xdead; // host bits present in the discovered address
    let pfx = vec![OnLinkPrefix { ifname: "eth0".to_string(), ip }];
    let out = alloc_addrs_for_peer(7, 0, &pfx);
    assert_eq!(out.len(), 1);
    assert_eq!(out[0].ifname, "eth0");
    assert_eq!(out[0].addr, BASE | (expected_iid(7, BASE) as u128));
}

#[test]
fn batch_resolves_in_batch_collisions() {
    // two prefixes with the same /64 base give the same seed: the second
    // derivation must be perturbed by exactly 1 + 0
    let pfx = vec![
        OnLinkPrefix { ifname: "eth0".to_string(), ip: BASE },
        OnLinkPrefix { ifname: "eth1".to_string(), ip: BASE | 1 },
    ];
    let out = alloc_addrs_for_peer(9, 0, &pfx);
    assert_eq!(out.len(), 2);
    let seed = expected_iid(9, BASE);
    assert_eq!(out[0].addr, BASE | (seed as u128));
    assert_eq!(out[1].addr, BASE | (seed.wrapping_add(1) as u128));
    assert_ne!(out[0].addr, out[1].addr);
}

#[test]
fn batch_addresses_are_pairwise_distinct() {
    let mut pfx = Vec::new();
    for k in 0..8u128 {
        // four distinct bases, each appearing twice
        let ip = BASE + ((k % 4) << 64);
        pfx.push(OnLinkPrefix { ifname: format!("eth{}", k), ip });
    }
    let out = alloc_addrs_for_peer(3, 0, &pfx);
    assert_eq!(out.len(), 8);
    for i in 0..out.len() {
        for j in 0..out.len() {
            if i != j {
                assert_ne!(out[i].addr, out[j].addr);
            }
        }
    }
}

#[test]
fn batch_count_caps_selection() {
    let pfx: Vec<OnLinkPrefix> = (0..3u128)
        .map(|k| OnLinkPrefix { ifname: format!("eth{}", k), ip: BASE + (k << 64) })
        .collect();
    assert_eq!(alloc_addrs_for_peer(7, 0, &pfx).len(), 3);
    assert_eq!(alloc_addrs_for_peer(7, 5, &pfx).len(), 3);
    assert_eq!(alloc_addrs_for_peer(7, 1, &pfx).len(), 1);
    assert_eq!(alloc_addrs_for_peer(7, 2, &pfx).len(), 2);
    // selection is in discovery order
    assert_eq!(alloc_addrs_for_peer(7, 1, &pfx)[0].ifname, "eth0");
}
