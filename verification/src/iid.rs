//! Deterministic interface-identifier derivation: a requester identity and a
//! chosen /64 prefix reproducibly give one 64-bit host identifier, so the
//! same peer receives the same address across restarts without a persisted
//! table. Within one allocation batch, identifiers are kept pairwise
//! distinct by a deterministic perturbation rule.

use vstd::prelude::*;
use std::collections::HashSet;
use sha2::Digest;
use crate::addr::len_to_mask;
use crate::discovery::{OnLinkPrefix, OnLinkPrefixView, views_of_prefixes};

verus! {

broadcast use
    vstd::std_specs::hash::group_hash_axioms,
    vstd::set::group_set_axioms,
;

/// What SHA-256 returns on a byte sequence. Stated only through the trusted
/// wrapper below; the library relies on it being a pure function of the
/// input bytes.
pub uninterp spec fn sha256_of(input: Seq<u8>) -> Seq<u8>;

/// Relies on sha2::Sha256 (through the Digest trait): the digest depends on
/// the input bytes alone and is 32 bytes long.
#[verifier::external_body]
fn sha256(input: &Vec<u8>) -> (r: Vec<u8>)
    ensures
        r@ == sha256_of(input@),
        r@.len() == 32,
{
    sha2::Sha256::digest(input.as_slice()).to_vec()
}

/// The big-endian bytes of a 32-bit value.
pub open spec fn spec_u32_be_bytes(x: u32) -> Seq<u8> {
    seq![
        ((x >> 24) & 0xff) as u8,
        ((x >> 16) & 0xff) as u8,
        ((x >> 8) & 0xff) as u8,
        (x & 0xff) as u8,
    ]
}

/// The big-endian bytes of a 128-bit value.
pub open spec fn spec_u128_be_bytes(x: u128) -> Seq<u8> {
    seq![
        ((x >> 120) & 0xff) as u8,
        ((x >> 112) & 0xff) as u8,
        ((x >> 104) & 0xff) as u8,
        ((x >> 96) & 0xff) as u8,
        ((x >> 88) & 0xff) as u8,
        ((x >> 80) & 0xff) as u8,
        ((x >> 72) & 0xff) as u8,
        ((x >> 64) & 0xff) as u8,
        ((x >> 56) & 0xff) as u8,
        ((x >> 48) & 0xff) as u8,
        ((x >> 40) & 0xff) as u8,
        ((x >> 32) & 0xff) as u8,
        ((x >> 24) & 0xff) as u8,
        ((x >> 16) & 0xff) as u8,
        ((x >> 8) & 0xff) as u8,
        (x & 0xff) as u8,
    ]
}

/// The bytes hashed for one derivation: the requester identity followed by
/// the base address of the chosen prefix, both big-endian.
pub open spec fn spec_digest_message(id: u32, base: u128) -> Seq<u8> {
    spec_u32_be_bytes(id) + spec_u128_be_bytes(base)
}

/// Builds the digest input for one derivation.
fn digest_message(id: u32, base: u128) -> (r: Vec<u8>)
    ensures
        r@ == spec_digest_message(id, base),
{
    let mut r: Vec<u8> = Vec::new();
    r.push(((id >> 24) & 0xff) as u8);
    r.push(((id >> 16) & 0xff) as u8);
    r.push(((id >> 8) & 0xff) as u8);
    r.push((id & 0xff) as u8);
    r.push(((base >> 120) & 0xff) as u8);
    r.push(((base >> 112) & 0xff) as u8);
    r.push(((base >> 104) & 0xff) as u8);
    r.push(((base >> 96) & 0xff) as u8);
    r.push(((base >> 88) & 0xff) as u8);
    r.push(((base >> 80) & 0xff) as u8);
    r.push(((base >> 72) & 0xff) as u8);
    r.push(((base >> 64) & 0xff) as u8);
    r.push(((base >> 56) & 0xff) as u8);
    r.push(((base >> 48) & 0xff) as u8);
    r.push(((base >> 40) & 0xff) as u8);
    r.push(((base >> 32) & 0xff) as u8);
    r.push(((base >> 24) & 0xff) as u8);
    r.push(((base >> 16) & 0xff) as u8);
    r.push(((base >> 8) & 0xff) as u8);
    r.push((base & 0xff) as u8);
    proof {
        assert(r@ =~= spec_digest_message(id, base));
    }
    r
}

/// The big-endian 64-bit value of the first 8 bytes of `s`.
pub open spec fn spec_be64(s: Seq<u8>) -> u64
    recommends
        s.len() >= 8,
{
    ((s[0] as u64) << 56) | ((s[1] as u64) << 48) | ((s[2] as u64) << 40) | ((s[3] as u64) << 32)
        | ((s[4] as u64) << 24) | ((s[5] as u64) << 16) | ((s[6] as u64) << 8) | (s[7] as u64)
}

/// The deterministic interface identifier for one (requester, prefix base)
/// pair: the first 8 digest bytes, big-endian, with the low bit forced to 1
/// so the reserved all-zero host identifier can never come out.
pub open spec fn spec_iid_seed(id: u32, base: u128) -> u64 {
    spec_be64(sha256_of(spec_digest_message(id, base))) | 1
}

/// Derives the interface identifier for `requester_id` inside the prefix
/// whose base (network) address is `prefix_base`. Deterministic: the result
/// is a function of the two arguments alone, so the same peer reproducibly
/// maps to the same address across runs.
pub fn derive_iid(requester_id: u32, prefix_base: u128) -> (r: u64)
    ensures
        r == spec_iid_seed(requester_id, prefix_base),
        r & 1 == 1,
{
    let msg = digest_message(requester_id, prefix_base);
    let d = sha256(&msg);
    let x: u64 = ((d[0] as u64) << 56) | ((d[1] as u64) << 48) | ((d[2] as u64) << 40)
        | ((d[3] as u64) << 32) | ((d[4] as u64) << 24) | ((d[5] as u64) << 16)
        | ((d[6] as u64) << 8) | (d[7] as u64);
    let r = x | 1;
    proof {
        assert(r & 1 == 1) by (bit_vector)
            requires r == x | 1,
        ;
    }
    r
}

/// How many perturbation steps one derivation may take before the address
/// for that prefix is skipped; collisions require a SHA-256 near-collision
/// inside one small batch, so the bound is never reached in practice.
pub const IID_RETRY_LIMIT: u64 = 64;

/// The in-batch collision-resolution rule: while the candidate identifier is
/// already used, perturb it by `1 + salt` (wrapping) with the salt counting
/// up, giving up after `fuel` steps.
pub open spec fn spec_resolve_iid(iid: u64, salt: u64, used: Set<u64>, fuel: nat) -> Option<u64>
    decreases fuel,
{
    if !used.contains(iid) {
        Some(iid)
    } else if fuel == 0 {
        None
    } else {
        spec_resolve_iid(
            vstd::wrapping::u64_specs::wrapping_add(
                iid,
                vstd::wrapping::u64_specs::wrapping_add(1u64, salt),
            ),
            vstd::wrapping::u64_specs::wrapping_add(salt, 1u64),
            used,
            (fuel - 1) as nat,
        )
    }
}

/// A resolved identifier is never one that the batch already used.
pub proof fn lemma_resolve_iid_fresh(iid: u64, salt: u64, used: Set<u64>, fuel: nat)
    ensures
        spec_resolve_iid(iid, salt, used, fuel) matches Some(r) ==> !used.contains(r),
    decreases fuel,
{
    if used.contains(iid) && fuel > 0 {
        lemma_resolve_iid_fresh(
            vstd::wrapping::u64_specs::wrapping_add(
                iid,
                vstd::wrapping::u64_specs::wrapping_add(1u64, salt),
            ),
            vstd::wrapping::u64_specs::wrapping_add(salt, 1u64),
            used,
            (fuel - 1) as nat,
        );
    }
}

/// Runs the collision-resolution rule against the used set.
fn resolve_iid(seed: u64, used: &HashSet<u64>) -> (r: Option<u64>)
    ensures
        r == spec_resolve_iid(seed, 0, used@, IID_RETRY_LIMIT as nat),
{
    let mut iid = seed;
    let mut salt: u64 = 0;
    let mut fuel: u64 = IID_RETRY_LIMIT;
    loop
        invariant
            salt as int + fuel as int == IID_RETRY_LIMIT as int,
            spec_resolve_iid(seed, 0, used@, IID_RETRY_LIMIT as nat) == spec_resolve_iid(
                iid,
                salt,
                used@,
                fuel as nat,
            ),
        decreases fuel,
    {
        if !used.contains(&iid) {
            return Some(iid);
        }
        if fuel == 0 {
            return None;
        }
        iid = iid.wrapping_add(1u64.wrapping_add(salt));
        salt = salt.wrapping_add(1);
        fuel = fuel - 1;
    }
}

/// The base (network) address of a discovered /64 prefix: its high 64 bits.
pub open spec fn spec_prefix_base(ip: u128) -> u128 {
    ip & len_to_mask(64)
}

/// Masks the high 64 bits of a discovered address: the /64 network base.
pub fn prefix_base(ip: u128) -> (r: u128)
    ensures
        r == spec_prefix_base(ip),
{
    ip & (!0u128 << 64)
}

/// A full /128 host address: the prefix base with the low four 16-bit
/// segments overwritten by the identifier, most significant first.
pub open spec fn spec_addr_with_iid(base: u128, iid: u64) -> u128 {
    base | (iid as u128)
}

/// The low 64 bits of an address: the interface identifier it carries.
pub open spec fn spec_low64(a: u128) -> u64 {
    (a & 0xffff_ffff_ffff_ffffu128) as u64
}

/// One delegated address: the donor interface's name and a full /128 host
/// address inside one of its on-link prefixes.
#[derive(Debug, PartialEq, Eq)]
pub struct DelegatedAddress {
    pub ifname: String,
    pub addr: u128,
}

/// The mathematical value of a `DelegatedAddress`.
pub ghost struct DelegatedAddressView {
    pub ifname: Seq<char>,
    pub addr: u128,
}

impl View for DelegatedAddress {
    type V = DelegatedAddressView;

    open spec fn view(&self) -> DelegatedAddressView {
        DelegatedAddressView { ifname: self.ifname@, addr: self.addr }
    }
}

pub open spec fn views_of_delegated(s: Seq<DelegatedAddress>) -> Seq<DelegatedAddressView> {
    s.map_values(|x: DelegatedAddress| x@)
}

/// The addresses one delegation batch derives: one per prefix, in order,
/// each from the deterministic identifier resolved against the identifiers
/// used so far; a prefix whose resolution exhausts its fuel is skipped.
pub open spec fn spec_derive_batch(
    id: u32,
    pfxs: Seq<OnLinkPrefixView>,
    used: Set<u64>,
) -> Seq<DelegatedAddressView>
    decreases pfxs.len(),
{
    if pfxs.len() == 0 {
        Seq::empty()
    } else {
        let base = spec_prefix_base(pfxs.first().ip);
        match spec_resolve_iid(spec_iid_seed(id, base), 0, used, IID_RETRY_LIMIT as nat) {
            None => spec_derive_batch(id, pfxs.drop_first(), used),
            Some(iid) => seq![
                DelegatedAddressView { ifname: pfxs.first().ifname, addr: spec_addr_with_iid(base, iid) },
            ] + spec_derive_batch(id, pfxs.drop_first(), used.insert(iid)),
        }
    }
}

/// An address assembled from a /64 base carries its identifier in its low
/// 64 bits.
proof fn lemma_low64_of_assembled(ip: u128, iid: u64)
    ensures
        spec_low64(spec_addr_with_iid(spec_prefix_base(ip), iid)) == iid,
{
    assert((((ip & (!0u128 << 64u128)) | (iid as u128)) & 0xffff_ffff_ffff_ffffu128) as u64 == iid)
        by (bit_vector);
}

/// Every address a batch derives carries an identifier that was not in the
/// used set, and no two of them carry the same identifier.
proof fn lemma_derive_batch_fresh(id: u32, pfxs: Seq<OnLinkPrefixView>, used: Set<u64>)
    ensures
        forall|k: int|
            #![trigger spec_derive_batch(id, pfxs, used)[k]]
            0 <= k < spec_derive_batch(id, pfxs, used).len() ==> !used.contains(
                spec_low64(spec_derive_batch(id, pfxs, used)[k].addr),
            ),
        forall|k1: int, k2: int|
            0 <= k1 < k2 < spec_derive_batch(id, pfxs, used).len() ==> spec_low64(
                #[trigger] spec_derive_batch(id, pfxs, used)[k1].addr,
            ) != spec_low64(#[trigger] spec_derive_batch(id, pfxs, used)[k2].addr),
    decreases pfxs.len(),
{
    if pfxs.len() > 0 {
        let batch = spec_derive_batch(id, pfxs, used);
        let base = spec_prefix_base(pfxs.first().ip);
        let resolved = spec_resolve_iid(spec_iid_seed(id, base), 0, used, IID_RETRY_LIMIT as nat);
        match resolved {
            None => {
                lemma_derive_batch_fresh(id, pfxs.drop_first(), used);
                let tail = spec_derive_batch(id, pfxs.drop_first(), used);
                assert forall|k: int| 0 <= k < batch.len() implies !used.contains(
                    spec_low64(batch[k].addr),
                ) by {
                    assert(batch[k] == tail[k]);
                }
                assert forall|k1: int, k2: int| 0 <= k1 < k2 < batch.len() implies spec_low64(
                    batch[k1].addr,
                ) != spec_low64(batch[k2].addr) by {
                    assert(batch[k1] == tail[k1]);
                    assert(batch[k2] == tail[k2]);
                }
            },
            Some(iid) => {
                lemma_resolve_iid_fresh(spec_iid_seed(id, base), 0, used, IID_RETRY_LIMIT as nat);
                lemma_low64_of_assembled(pfxs.first().ip, iid);
                lemma_derive_batch_fresh(id, pfxs.drop_first(), used.insert(iid));
                let tail = spec_derive_batch(id, pfxs.drop_first(), used.insert(iid));
                assert forall|k: int| 0 <= k < batch.len() implies !used.contains(
                    spec_low64(batch[k].addr),
                ) by {
                    if k > 0 {
                        assert(batch[k] == tail[k - 1]);
                        assert(!used.insert(iid).contains(spec_low64(tail[k - 1].addr)));
                    }
                }
                assert forall|k1: int, k2: int| 0 <= k1 < k2 < batch.len() implies spec_low64(
                    batch[k1].addr,
                ) != spec_low64(batch[k2].addr) by {
                    if k1 == 0 {
                        assert(batch[k2] == tail[k2 - 1]);
                        assert(!used.insert(iid).contains(spec_low64(tail[k2 - 1].addr)));
                        assert(used.insert(iid).contains(iid));
                    } else {
                        assert(batch[k1] == tail[k1 - 1]);
                        assert(batch[k2] == tail[k2 - 1]);
                    }
                }
            },
        }
    }
}

/// In-batch distinctness law: within one batch, no two derived delegated
/// addresses are identical, whatever prefixes the batch covers and whatever
/// identifiers were already in use.
pub proof fn lemma_derive_batch_distinct(id: u32, pfxs: Seq<OnLinkPrefixView>, used: Set<u64>)
    ensures
        forall|k1: int, k2: int|
            0 <= k1 < k2 < spec_derive_batch(id, pfxs, used).len()
                ==> (#[trigger] spec_derive_batch(id, pfxs, used)[k1]).addr != (
            #[trigger] spec_derive_batch(id, pfxs, used)[k2]).addr,
{
    lemma_derive_batch_fresh(id, pfxs, used);
}

/// How many prefixes a request uses: all of them when the requested count is
/// zero, otherwise the count capped at what discovery found.
pub open spec fn spec_want(count: u32, available: nat) -> nat {
    if count == 0 {
        available
    } else if count as nat <= available {
        count as nat
    } else {
        available
    }
}

/// Derives one delegated address per selected prefix for one requester: the
/// first `spec_want(count, ...)` discovered prefixes, in discovery order,
/// each carrying its deterministic identifier, kept pairwise distinct inside
/// the batch.
pub fn alloc_addrs_for_peer(
    requester_id: u32,
    count: u32,
    prefixes: &Vec<OnLinkPrefix>,
) -> (r: Vec<DelegatedAddress>)
    ensures
        views_of_delegated(r@) == spec_derive_batch(
            requester_id,
            views_of_prefixes(prefixes@).take(
                spec_want(count, prefixes@.len() as nat) as int,
            ),
            Set::empty(),
        ),
        forall|k1: int, k2: int|
            0 <= k1 < k2 < r@.len() ==> (#[trigger] r@[k1])@.addr != (#[trigger] r@[k2])@.addr,
{
    let n = prefixes.len();
    let want: usize = if count == 0 {
        n
    } else if (count as usize) < n {
        count as usize
    } else {
        n
    };
    let ghost all = views_of_prefixes(prefixes@).take(want as int);
    proof {
        assert(want as nat == spec_want(count, prefixes@.len() as nat));
        assert(all.skip(0) =~= all);
        assert(Seq::<DelegatedAddressView>::empty() + spec_derive_batch(
            requester_id,
            all,
            Set::empty(),
        ) =~= spec_derive_batch(requester_id, all, Set::empty()));
    }
    let mut out: Vec<DelegatedAddress> = Vec::new();
    let mut used: HashSet<u64> = HashSet::new();
    let mut i: usize = 0;
    while i < want
        invariant
            i <= want,
            want <= prefixes@.len(),
            all == views_of_prefixes(prefixes@).take(want as int),
            views_of_delegated(out@) + spec_derive_batch(requester_id, all.skip(i as int), used@)
                == spec_derive_batch(requester_id, all, Set::empty()),
        decreases want - i,
    {
        proof {
            assert(all.skip(i as int).first() == prefixes@[i as int]@);
            assert(all.skip(i as int).drop_first() =~= all.skip(i as int + 1));
        }
        let pfx = &prefixes[i];
        let base = prefix_base(pfx.ip);
        let seed = derive_iid(requester_id, base);
        match resolve_iid(seed, &used) {
            None => {},
            Some(iid) => {
                used.insert(iid);
                let entry = DelegatedAddress { ifname: pfx.ifname.clone(), addr: base | (iid as u128) };
                proof {
                    assert(entry@.addr == spec_addr_with_iid(
                        spec_prefix_base(prefixes@[i as int]@.ip),
                        iid,
                    ));
                }
                out.push(entry);
                proof {
                    assert(views_of_delegated(out@) =~= views_of_delegated(out@.drop_last()).push(
                        entry@,
                    ));
                    assert(views_of_delegated(out@.drop_last()).push(entry@) + spec_derive_batch(
                        requester_id,
                        all.skip(i as int + 1),
                        used@,
                    ) =~= views_of_delegated(out@.drop_last()) + (seq![entry@]
                        + spec_derive_batch(requester_id, all.skip(i as int + 1), used@)));
                }
            },
        }
        i = i + 1;
    }
    proof {
        assert(all.skip(want as int) =~= Seq::<OnLinkPrefixView>::empty());
        assert(views_of_delegated(out@) + Seq::<DelegatedAddressView>::empty() =~= views_of_delegated(
            out@,
        ));
        lemma_derive_batch_distinct(requester_id, all, Set::empty());
        assert forall|k1: int, k2: int| 0 <= k1 < k2 < out@.len() implies (#[trigger] out@[k1])@.addr
            != (#[trigger] out@[k2])@.addr by {
            assert(views_of_delegated(out@)[k1] == out@[k1]@);
            assert(views_of_delegated(out@)[k2] == out@[k2]@);
        }
    }
    out
}

} // verus!
