//! On-link prefix discovery: from plain records of local interface
//! addresses, keep the globally routable, exactly-/64 IPv6 entries of
//! physical interfaces. The records themselves come from the embedding
//! (which enumerates interfaces); everything decided about them is here.

use vstd::prelude::*;
use vstd::string::StrSliceExecFns;
use crate::addr::{len_to_mask, spec_is_global_unicast, is_global_unicast, mask_to_prefix,
    lemma_len_to_mask_injective};

verus! {

/// A raw interface address (or netmask) as the host reports it, already
/// reduced to a plain value: IPv4 as 32 bits, IPv6 as 128 bits, both in
/// network bit order.
#[derive(Clone, Copy, PartialEq, Eq, Structural, Debug)]
pub enum IfaceIp {
    V4(u32),
    V6(u128),
}

/// One address entry of one local network interface: the interface name and,
/// when the host reported them, the address and its netmask.
pub struct IfaceRecord {
    pub name: String,
    pub addr: Option<IfaceIp>,
    pub mask: Option<IfaceIp>,
}

/// The mathematical value of an `IfaceRecord`.
pub ghost struct IfaceRecordView {
    pub name: Seq<char>,
    pub addr: Option<IfaceIp>,
    pub mask: Option<IfaceIp>,
}

impl View for IfaceRecord {
    type V = IfaceRecordView;

    open spec fn view(&self) -> IfaceRecordView {
        IfaceRecordView { name: self.name@, addr: self.addr, mask: self.mask }
    }
}

/// A qualifying on-link prefix: the donor interface's name and the reported
/// IPv6 address; the prefix is fixed at /64, so the network is the address's
/// high 64 bits.
pub struct OnLinkPrefix {
    pub ifname: String,
    pub ip: u128,
}

/// The mathematical value of an `OnLinkPrefix`.
pub ghost struct OnLinkPrefixView {
    pub ifname: Seq<char>,
    pub ip: u128,
}

impl View for OnLinkPrefix {
    type V = OnLinkPrefixView;

    open spec fn view(&self) -> OnLinkPrefixView {
        OnLinkPrefixView { ifname: self.ifname@, ip: self.ip }
    }
}

pub open spec fn views_of_records(s: Seq<IfaceRecord>) -> Seq<IfaceRecordView> {
    s.map_values(|x: IfaceRecord| x@)
}

pub open spec fn views_of_prefixes(s: Seq<OnLinkPrefix>) -> Seq<OnLinkPrefixView> {
    s.map_values(|x: OnLinkPrefix| x@)
}

/// `p` is a prefix of `s`.
pub open spec fn spec_has_prefix(s: Seq<char>, p: Seq<char>) -> bool {
    p.len() <= s.len() && forall|i: int| 0 <= i < p.len() ==> s[i] == p[i]
}

/// Decides whether `p` is a prefix of `s`.
pub fn str_has_prefix(s: &str, p: &str) -> (r: bool)
    ensures
        r == spec_has_prefix(s@, p@),
{
    let n = p.unicode_len();
    if s.unicode_len() < n {
        return false;
    }
    let mut i: usize = 0;
    while i < n
        invariant
            i <= n,
            n == p@.len(),
            n <= s@.len(),
            forall|j: int| 0 <= j < i ==> s@[j] == p@[j],
        decreases n - i,
    {
        if s.get_char(i) != p.get_char(i) {
            return false;
        }
        i = i + 1;
    }
    true
}

/// Interface names that mark virtual or tunnel-like interfaces, which never
/// donate prefixes.
pub open spec fn spec_excluded_name(name: Seq<char>) -> bool {
    ||| spec_has_prefix(name, "lo"@)
    ||| spec_has_prefix(name, "tun"@)
    ||| spec_has_prefix(name, "utun"@)
    ||| spec_has_prefix(name, "wg"@)
    ||| spec_has_prefix(name, "docker"@)
    ||| spec_has_prefix(name, "veth"@)
    ||| spec_has_prefix(name, "br-"@)
    ||| spec_has_prefix(name, "virbr"@)
}

/// Decides whether an interface name is in the virtual/tunnel set.
pub fn is_excluded_name(name: &str) -> (r: bool)
    ensures
        r == spec_excluded_name(name@),
{
    str_has_prefix(name, "lo") || str_has_prefix(name, "tun") || str_has_prefix(name, "utun")
        || str_has_prefix(name, "wg") || str_has_prefix(name, "docker")
        || str_has_prefix(name, "veth") || str_has_prefix(name, "br-")
        || str_has_prefix(name, "virbr")
}

/// A record qualifies when its interface is not virtual/tunnel-named, both
/// address and netmask are IPv6, the address is globally scoped, and the
/// netmask is exactly the /64 mask.
pub open spec fn spec_qualifies(rec: IfaceRecordView) -> bool {
    match (rec.addr, rec.mask) {
        (Some(IfaceIp::V6(ip)), Some(IfaceIp::V6(mask))) => {
            &&& !spec_excluded_name(rec.name)
            &&& spec_is_global_unicast(ip)
            &&& mask == len_to_mask(64)
        },
        _ => false,
    }
}

/// The IPv6 address inside a qualifying record.
pub open spec fn spec_v6_of(ip: Option<IfaceIp>) -> u128 {
    match ip {
        Some(IfaceIp::V6(v)) => v,
        _ => 0,
    }
}

/// The discovery entry a qualifying record produces.
pub open spec fn spec_entry_of(rec: IfaceRecordView) -> OnLinkPrefixView {
    OnLinkPrefixView { ifname: rec.name, ip: spec_v6_of(rec.addr) }
}

/// The on-link prefixes discovered among `recs`, in record order.
pub open spec fn spec_onlink_prefixes(recs: Seq<IfaceRecordView>) -> Seq<OnLinkPrefixView>
    decreases recs.len(),
{
    if recs.len() == 0 {
        Seq::empty()
    } else {
        let rest = spec_onlink_prefixes(recs.drop_last());
        if spec_qualifies(recs.last()) {
            rest.push(spec_entry_of(recs.last()))
        } else {
            rest
        }
    }
}

/// Filtering law: every discovered entry keeps a non-virtual interface name
/// and a globally scoped address — an interface named like `docker0`, or an
/// address that is link-local or unique-local, never appears in the output.
pub proof fn lemma_onlink_prefixes_filtered(recs: Seq<IfaceRecordView>)
    ensures
        forall|j: int|
            #![trigger spec_onlink_prefixes(recs)[j]]
            0 <= j < spec_onlink_prefixes(recs).len() ==> {
                &&& !spec_excluded_name(spec_onlink_prefixes(recs)[j].ifname)
                &&& spec_is_global_unicast(spec_onlink_prefixes(recs)[j].ip)
            },
    decreases recs.len(),
{
    if recs.len() > 0 {
        lemma_onlink_prefixes_filtered(recs.drop_last());
        let rest = spec_onlink_prefixes(recs.drop_last());
        let whole = spec_onlink_prefixes(recs);
        assert forall|j: int| 0 <= j < whole.len() implies {
            &&& !spec_excluded_name(whole[j].ifname)
            &&& spec_is_global_unicast(whole[j].ip)
        } by {
            if j < rest.len() {
                assert(whole[j] == rest[j]);
            } else {
                assert(spec_qualifies(recs.last()));
                assert(whole[j] == spec_entry_of(recs.last()));
            }
        }
    }
}

/// Lists the qualifying on-link /64 prefixes among the given interface
/// records, in order, one entry per qualifying record.
pub fn list_onlink_prefixes(ifaces: &Vec<IfaceRecord>) -> (r: Vec<OnLinkPrefix>)
    ensures
        views_of_prefixes(r@) == spec_onlink_prefixes(views_of_records(ifaces@)),
{
    let mut out: Vec<OnLinkPrefix> = Vec::new();
    let mut i: usize = 0;
    while i < ifaces.len()
        invariant
            i <= ifaces.len(),
            views_of_prefixes(out@) == spec_onlink_prefixes(
                views_of_records(ifaces@.take(i as int)),
            ),
        decreases ifaces.len() - i,
    {
        let rec = &ifaces[i];
        let mut keep = false;
        let mut ip_val: u128 = 0;
        if !is_excluded_name(rec.name.as_str()) {
            if let (Some(IfaceIp::V6(ip)), Some(IfaceIp::V6(mask))) = (rec.addr, rec.mask) {
                if is_global_unicast(ip) {
                    match mask_to_prefix(mask) {
                        Some(len) => {
                            if len == 64 {
                                keep = true;
                                ip_val = ip;
                            } else {
                                proof {
                                    lemma_len_to_mask_injective(len as int, 64);
                                }
                            }
                        },
                        None => {},
                    }
                }
            }
        }
        proof {
            assert(keep == spec_qualifies(ifaces@[i as int]@));
        }
        if keep {
            out.push(OnLinkPrefix { ifname: rec.name.clone(), ip: ip_val });
        }
        proof {
            let prev = views_of_records(ifaces@.take(i as int));
            let cur = views_of_records(ifaces@.take(i as int + 1));
            assert(cur.drop_last() =~= prev);
            assert(cur.last() == ifaces@[i as int]@);
            if keep {
                assert(views_of_prefixes(out@) =~= spec_onlink_prefixes(cur));
            } else {
                assert(views_of_prefixes(out@) =~= spec_onlink_prefixes(cur));
            }
        }
        i = i + 1;
    }
    proof {
        assert(ifaces@.take(ifaces@.len() as int) =~= ifaces@);
    }
    out
}

/// The name of the tunnel interface: the first record whose IPv4 address is
/// the node's overlay IPv4 address.
pub open spec fn spec_tun_search(recs: Seq<IfaceRecordView>, v4: u32) -> Option<Seq<char>>
    decreases recs.len(),
{
    if recs.len() == 0 {
        None
    } else if recs.first().addr == Some(IfaceIp::V4(v4)) {
        Some(recs.first().name)
    } else {
        spec_tun_search(recs.drop_first(), v4)
    }
}

/// Where the tunnel interface is looked up from an optional overlay address.
pub open spec fn spec_tun_ifname(recs: Seq<IfaceRecordView>, overlay: Option<u32>) -> Option<
    Seq<char>,
> {
    match overlay {
        None => None,
        Some(v4) => spec_tun_search(recs, v4),
    }
}

/// Finds the local tunnel interface: the first interface that owns the
/// node's overlay IPv4 address, if any.
pub fn get_tun_ifname(ifaces: &Vec<IfaceRecord>, overlay_ipv4: Option<u32>) -> (r: Option<String>)
    ensures
        match r {
            Some(name) => spec_tun_ifname(views_of_records(ifaces@), overlay_ipv4) == Some(name@),
            None => spec_tun_ifname(views_of_records(ifaces@), overlay_ipv4) is None,
        },
{
    match overlay_ipv4 {
        None => None,
        Some(v4) => {
            let ghost all = views_of_records(ifaces@);
            proof {
                assert(all.skip(0) =~= all);
            }
            let mut i: usize = 0;
            while i < ifaces.len()
                invariant
                    i <= ifaces.len(),
                    overlay_ipv4 == Some(v4),
                    all == views_of_records(ifaces@),
                    spec_tun_search(all, v4) == spec_tun_search(all.skip(i as int), v4),
                decreases ifaces.len() - i,
            {
                proof {
                    assert(all.skip(i as int).first() == ifaces@[i as int]@);
                    assert(all.skip(i as int).drop_first() =~= all.skip(i as int + 1));
                }
                let rec = &ifaces[i];
                match rec.addr {
                    Some(IfaceIp::V4(x)) => {
                        if x == v4 {
                            proof {
                                assert(spec_tun_search(all, v4) == Some(ifaces@[i as int]@.name));
                            }
                            return Some(rec.name.clone());
                        }
                    },
                    _ => {},
                }
                i = i + 1;
            }
            proof {
                assert(all.skip(ifaces@.len() as int) =~= Seq::<IfaceRecordView>::empty());
            }
            None
        },
    }
}

} // verus!
