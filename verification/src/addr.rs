//! Plain-value model of IPv6 addresses, netmasks and prefixes.
//!
//! An IPv6 address is carried as a `u128` in network (big-endian) bit order:
//! bit 127 is the first bit on the wire. Scope predicates, the mask/prefix
//! conversion, and the well-formed prefix type live here.

use vstd::prelude::*;

verus! {

/// The netmask that a prefix of `len` bits uses: the `len` highest bits set.
pub open spec fn len_to_mask(len: int) -> u128 {
    if len <= 0 {
        0u128
    } else {
        !0u128 << ((128 - len) as u128)
    }
}

/// Distinct prefix lengths give distinct masks.
pub proof fn lemma_len_to_mask_injective(a: int, b: int)
    requires
        0 <= a <= 128,
        0 <= b <= 128,
        a != b,
    ensures
        len_to_mask(a) != len_to_mask(b),
{
    if a == 0 || b == 0 {
        let c = if a == 0 { b } else { a };
        let x = (128 - c) as u128;
        assert(!0u128 << x != 0u128) by (bit_vector)
            requires x < 128,
        ;
    } else {
        let x = (128 - a) as u128;
        let y = (128 - b) as u128;
        assert(!0u128 << x != !0u128 << y) by (bit_vector)
            requires x < 128, y < 128, x != y,
        ;
    }
}

/// An address is multicast when it lies in ff00::/8.
pub open spec fn spec_is_multicast(ip: u128) -> bool {
    ip >> 120 == 0xffu128
}

/// The loopback address ::1.
pub open spec fn spec_is_loopback(ip: u128) -> bool {
    ip == 1u128
}

/// The unspecified address ::.
pub open spec fn spec_is_unspecified(ip: u128) -> bool {
    ip == 0u128
}

/// An address is unique-local when it lies in fc00::/7.
pub open spec fn spec_is_unique_local(ip: u128) -> bool {
    ip >> 121 == 0x7eu128
}

/// An address is link-local unicast when it lies in fe80::/10.
pub open spec fn spec_is_unicast_link_local(ip: u128) -> bool {
    ip >> 118 == 0x3fau128
}

/// Only globally scoped addresses qualify as delegatable on-link prefixes.
pub open spec fn spec_is_global_unicast(ip: u128) -> bool {
    &&& !spec_is_multicast(ip)
    &&& !spec_is_loopback(ip)
    &&& !spec_is_unspecified(ip)
    &&& !spec_is_unique_local(ip)
    &&& !spec_is_unicast_link_local(ip)
}

/// Decides whether `ip` is globally scoped, i.e. neither multicast, loopback,
/// unspecified, unique-local nor link-local unicast.
pub fn is_global_unicast(ip: u128) -> (r: bool)
    ensures
        r == spec_is_global_unicast(ip),
{
    let multicast = ip >> 120 == 0xff;
    let loopback = ip == 1;
    let unspecified = ip == 0;
    let unique_local = ip >> 121 == 0x7e;
    let link_local = ip >> 118 == 0x3fa;
    !multicast && !loopback && !unspecified && !unique_local && !link_local
}

/// Converts a netmask to its prefix length: `Some(len)` exactly when the mask
/// consists of `len` one bits followed by zero bits, `None` when the mask is
/// not contiguous.
pub fn mask_to_prefix(mask: u128) -> (r: Option<u8>)
    ensures
        match r {
            Some(len) => len <= 128 && mask == len_to_mask(len as int),
            None => forall|len: int| 0 <= len <= 128 ==> mask != len_to_mask(len),
        },
        forall|len: int| 0 <= len <= 128 && mask == len_to_mask(len) ==> r == Some(len as u8),
{
    let mut len: u8 = 0;
    while len <= 128
        invariant
            len <= 129,
            forall|l: int| 0 <= l < len ==> mask != len_to_mask(l),
        decreases 129 - len,
    {
        let candidate: u128 = if len == 0 {
            0
        } else {
            !0u128 << ((128 - len) as u128)
        };
        assert(candidate == len_to_mask(len as int));
        if candidate == mask {
            proof {
                assert forall|l2: int| 0 <= l2 <= 128 && mask == len_to_mask(l2) implies l2
                    == len as int by {
                    if l2 != len as int {
                        lemma_len_to_mask_injective(l2, len as int);
                    }
                }
            }
            return Some(len);
        }
        len = len + 1;
    }
    None
}

} // verus!
