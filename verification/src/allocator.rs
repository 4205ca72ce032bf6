//! Stable address allocator: maps a requester identity to one address inside
//! a fixed IPv6 prefix, with a monotonic cursor and a cache keyed by the
//! requester so repeated requests are idempotent.
//!
//! The cursor starts at 1, reserving the all-zero host identifier (the
//! prefix's own anchor address). The lookup-or-insert step is a single
//! operation on `&mut self`, so two calls for one requester can never hand
//! out two different addresses; an embedding that shares the allocator
//! between tasks serializes calls around it.

use vstd::prelude::*;
use std::collections::HashMap;
use crate::addr::len_to_mask;

verus! {

broadcast use
    vstd::std_specs::hash::group_hash_axioms,
    vstd::set::group_set_axioms,
    vstd::map::group_map_axioms,
;

/// A fixed IPv6 prefix: a base (network) address together with its network
/// length. Well-formed when the host bits of the base are all zero.
#[derive(Clone, Copy, PartialEq, Eq, Structural)]
pub struct Ipv6Prefix {
    pub base: u128,
    pub network_length: u8,
}

impl Ipv6Prefix {
    /// The host bits of the base address are all zero.
    pub open spec fn wf(self) -> bool {
        &&& self.network_length <= 128
        &&& self.base & !len_to_mask(self.network_length as int) == 0u128
    }

    /// Builds a prefix from a base address and a network length; rejects a
    /// length over 128 and a base with host bits set.
    pub fn new(base: u128, network_length: u8) -> (r: Option<Ipv6Prefix>)
        ensures
            match r {
                Some(p) => p.wf() && p.base == base && p.network_length == network_length,
                None => !(Ipv6Prefix { base, network_length }).wf(),
            },
    {
        if network_length > 128 {
            return None;
        }
        let mask: u128 = if network_length == 0 {
            0
        } else {
            !0u128 << ((128 - network_length) as u128)
        };
        if base & !mask == 0 {
            Some(Ipv6Prefix { base, network_length })
        } else {
            None
        }
    }
}

/// The number of host identifiers a prefix spans: `2^(128 - network_length)`.
pub open spec fn spec_max_hosts(network_length: u8) -> u128
    recommends
        1 <= network_length <= 128,
{
    1u128 << ((128 - network_length) as u128)
}

/// One allocation step on the allocator's model `(next, assigned)`:
/// a cached requester keeps its address, a fresh requester takes the cursor
/// value as host identifier if the space is not exhausted, and the cursor
/// advances. Returns the new cursor, the new cache, and the result.
pub open spec fn spec_allocate(
    prefix: Ipv6Prefix,
    next: u128,
    assigned: Map<u32, u128>,
    id: u32,
) -> (u128, Map<u32, u128>, Option<u128>) {
    if assigned.dom().contains(id) {
        (next, assigned, Some(assigned[id]))
    } else if next >= spec_max_hosts(prefix.network_length) {
        (next, assigned, None)
    } else {
        let addr = (prefix.base + next) as u128;
        ((next + 1) as u128, assigned.insert(id, addr), Some(addr))
    }
}

/// Well-formedness of an allocator state: the cursor stays within the host
/// space, every cached address was formed as base + cursor value, distinct
/// requesters hold distinct addresses, and the cursor counts the cache.
pub open spec fn alloc_wf(prefix: Ipv6Prefix, next: u128, assigned: Map<u32, u128>) -> bool {
    &&& prefix.wf()
    &&& 1 <= prefix.network_length <= 128
    &&& 1 <= next <= spec_max_hosts(prefix.network_length)
    &&& prefix.base + spec_max_hosts(prefix.network_length) <= u128::MAX + 1
    &&& forall|id: u32| #[trigger]
        assigned.dom().contains(id) ==> prefix.base < assigned[id] < prefix.base + next
    &&& forall|id1: u32, id2: u32|
        assigned.dom().contains(id1) && assigned.dom().contains(id2) && id1 != id2
            ==> assigned[id1] != assigned[id2]
    &&& assigned.dom().finite()
    &&& assigned.dom().len() == next - 1
}

/// A base address whose low `h` host bits are zero leaves room for every
/// host identifier below `2^h` without overflowing the 128-bit space.
proof fn lemma_base_plus_host_fits(base: u128, h: u128)
    requires
        h < 128,
        base & !(!0u128 << h) == 0,
    ensures
        base + (1u128 << h) <= u128::MAX + 1,
{
    assert(h < 128 && base & !(!0u128 << h) == 0 ==> base + (1u128 << h) <= u128::MAX + 1)
        by (bit_vector);
}

/// Allocation preserves well-formedness of the allocator state.
pub proof fn lemma_allocate_preserves_wf(
    prefix: Ipv6Prefix,
    next: u128,
    assigned: Map<u32, u128>,
    id: u32,
)
    requires
        alloc_wf(prefix, next, assigned),
    ensures
        ({
            let (n1, a1, r1) = spec_allocate(prefix, next, assigned, id);
            alloc_wf(prefix, n1, a1)
        }),
{
    let (n1, a1, r1) = spec_allocate(prefix, next, assigned, id);
    if !assigned.dom().contains(id) && next < spec_max_hosts(prefix.network_length) {
        let h = (128 - prefix.network_length) as u128;
        assert(!0u128 << h == len_to_mask(prefix.network_length as int));
        lemma_base_plus_host_fits(prefix.base, h);
        assert(a1.dom() =~= assigned.dom().insert(id));
    }
}

/// Idempotence law: once a requester has been handed an address, a second
/// allocation for the same requester returns the same address and leaves
/// the allocator unchanged.
pub proof fn lemma_allocate_idempotent(
    prefix: Ipv6Prefix,
    next: u128,
    assigned: Map<u32, u128>,
    id: u32,
)
    requires
        alloc_wf(prefix, next, assigned),
    ensures
        ({
            let (n1, a1, r1) = spec_allocate(prefix, next, assigned, id);
            let (n2, a2, r2) = spec_allocate(prefix, n1, a1, id);
            r1 is Some ==> r2 == r1 && n2 == n1 && a2 == a1
        }),
{
}

/// Uniqueness law: two distinct requesters allocated from the same
/// allocator never receive the same address.
pub proof fn lemma_allocate_unique(
    prefix: Ipv6Prefix,
    next: u128,
    assigned: Map<u32, u128>,
    id1: u32,
    id2: u32,
)
    requires
        alloc_wf(prefix, next, assigned),
        id1 != id2,
    ensures
        ({
            let (n1, a1, r1) = spec_allocate(prefix, next, assigned, id1);
            let (n2, a2, r2) = spec_allocate(prefix, n1, a1, id2);
            r1 is Some && r2 is Some ==> r1.unwrap() != r2.unwrap()
        }),
{
    lemma_allocate_preserves_wf(prefix, next, assigned, id1);
}

/// Bounded capacity law: in a prefix with `h` host bits, once `2^h - 1`
/// distinct requesters hold addresses, an allocation for a fresh requester
/// reports exhaustion.
pub proof fn lemma_allocate_exhausted(
    prefix: Ipv6Prefix,
    next: u128,
    assigned: Map<u32, u128>,
    id: u32,
)
    requires
        alloc_wf(prefix, next, assigned),
        !assigned.dom().contains(id),
        assigned.dom().len() == spec_max_hosts(prefix.network_length) - 1,
    ensures
        spec_allocate(prefix, next, assigned, id).2 is None,
{
}

/// Hands out one stable address per requester inside a fixed prefix.
pub struct Ipv6Allocator {
    prefix: Ipv6Prefix,
    next: u128,
    assigned: HashMap<u32, u128>,
}

impl Ipv6Allocator {
    /// The prefix all addresses are drawn from.
    pub closed spec fn spec_prefix(self) -> Ipv6Prefix {
        self.prefix
    }

    /// The monotonic cursor: the next host identifier to hand out.
    pub closed spec fn spec_next(self) -> u128 {
        self.next
    }

    /// The cache mapping each served requester to its address.
    pub closed spec fn spec_assigned(self) -> Map<u32, u128> {
        self.assigned@
    }

    pub open spec fn wf(self) -> bool {
        alloc_wf(self.spec_prefix(), self.spec_next(), self.spec_assigned())
    }

    /// A fresh allocator over `prefix`, with the cursor at 1 so that the
    /// prefix's all-zero anchor address is never handed out.
    pub fn new(prefix: Ipv6Prefix) -> (r: Ipv6Allocator)
        requires
            prefix.wf(),
            1 <= prefix.network_length,
        ensures
            r.wf(),
            r.spec_prefix() == prefix,
            r.spec_next() == 1,
            r.spec_assigned() == Map::<u32, u128>::empty(),
    {
        let r = Ipv6Allocator { prefix, next: 1, assigned: HashMap::new() };
        proof {
            let h = (128 - prefix.network_length) as u128;
            assert(1u128 << h >= 1) by (bit_vector)
                requires h < 128,
            ;
            assert(!0u128 << h == len_to_mask(prefix.network_length as int));
            lemma_base_plus_host_fits(prefix.base, h);
            assert(r.spec_assigned().dom() =~= Set::<u32>::empty());
        }
        r
    }

    /// Allocates (or returns the cached) address for `peer_id`, exactly as
    /// `spec_allocate` describes: idempotent per requester, strictly
    /// cursor-ordered for fresh requesters, `None` once the host space of
    /// the prefix is exhausted.
    pub fn allocate(&mut self, peer_id: u32) -> (r: Option<u128>)
        requires
            old(self).wf(),
        ensures
            final(self).wf(),
            final(self).spec_prefix() == old(self).spec_prefix(),
            ({
                let (n1, a1, r1) = spec_allocate(
                    old(self).spec_prefix(),
                    old(self).spec_next(),
                    old(self).spec_assigned(),
                    peer_id,
                );
                final(self).spec_next() == n1 && final(self).spec_assigned() == a1 && r == r1
            }),
    {
        proof {
            lemma_allocate_preserves_wf(
                self.prefix,
                self.next,
                self.assigned@,
                peer_id,
            );
        }
        if let Some(addr) = self.assigned.get(&peer_id) {
            return Some(*addr);
        }
        let host_bits: u8 = 128 - self.prefix.network_length;
        let max_hosts: u128 = 1u128 << (host_bits as u128);
        if self.next >= max_hosts {
            return None;
        }
        let addr: u128 = self.prefix.base + self.next;
        self.next = self.next + 1;
        self.assigned.insert(peer_id, addr);
        Some(addr)
    }
}

} // verus!
