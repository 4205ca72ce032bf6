//! Delegation protocol server: validates that delegation is enabled,
//! discovers on-link prefixes, derives and packages addresses, and plans the
//! OS reachability side effects. Expected failures travel in the response's
//! error field — never as a fault. The side effects come back as a plan of
//! structured commands for the embedding to apply best-effort; applying them
//! is I/O and stays outside this crate.

use vstd::prelude::*;
use crate::discovery::{IfaceRecord, views_of_records, views_of_prefixes, list_onlink_prefixes,
    spec_onlink_prefixes, spec_tun_ifname, get_tun_ifname};
use crate::iid::{DelegatedAddress, DelegatedAddressView, views_of_delegated, spec_derive_batch,
    spec_want, alloc_addrs_for_peer};

verus! {

/// One network-configuration intent. The embedding translates each into the
/// platform's own syntax (kernel toggle writes, `ip -6` invocations).
#[derive(Debug, PartialEq, Eq)]
pub enum NetCommand {
    /// Enable IPv6 forwarding globally.
    EnableForwarding,
    /// Enable neighbor-proxying on the donor interface.
    EnableProxyNdp { iface: String },
    /// Replace the host route for `addr`/128 via the device.
    ReplaceHostRoute { addr: u128, dev: String },
    /// Replace the proxy neighbor entry for `addr` on the donor interface.
    ReplaceProxyNeigh { addr: u128, dev: String },
    /// Replace `addr`/128 on the tunnel interface.
    ReplaceTunAddr { addr: u128, dev: String },
    /// Delete a stale source rule for `addr`/128 toward the table.
    DeleteSourceRule { addr: u128, table: u32 },
    /// Replace the default route of the table via the device.
    ReplaceDefaultRoute { dev: String, table: u32 },
    /// Add a source-match rule from `addr`/128 to the table.
    AddSourceRule { addr: u128, table: u32, priority: u32 },
}

/// The mathematical value of a `NetCommand`.
pub ghost enum NetCmdView {
    EnableForwarding,
    EnableProxyNdp { iface: Seq<char> },
    ReplaceHostRoute { addr: u128, dev: Seq<char> },
    ReplaceProxyNeigh { addr: u128, dev: Seq<char> },
    ReplaceTunAddr { addr: u128, dev: Seq<char> },
    DeleteSourceRule { addr: u128, table: u32 },
    ReplaceDefaultRoute { dev: Seq<char>, table: u32 },
    AddSourceRule { addr: u128, table: u32, priority: u32 },
}

impl View for NetCommand {
    type V = NetCmdView;

    open spec fn view(&self) -> NetCmdView {
        match self {
            NetCommand::EnableForwarding => NetCmdView::EnableForwarding,
            NetCommand::EnableProxyNdp { iface } => NetCmdView::EnableProxyNdp { iface: iface@ },
            NetCommand::ReplaceHostRoute { addr, dev } => NetCmdView::ReplaceHostRoute {
                addr: *addr,
                dev: dev@,
            },
            NetCommand::ReplaceProxyNeigh { addr, dev } => NetCmdView::ReplaceProxyNeigh {
                addr: *addr,
                dev: dev@,
            },
            NetCommand::ReplaceTunAddr { addr, dev } => NetCmdView::ReplaceTunAddr {
                addr: *addr,
                dev: dev@,
            },
            NetCommand::DeleteSourceRule { addr, table } => NetCmdView::DeleteSourceRule {
                addr: *addr,
                table: *table,
            },
            NetCommand::ReplaceDefaultRoute { dev, table } => NetCmdView::ReplaceDefaultRoute {
                dev: dev@,
                table: *table,
            },
            NetCommand::AddSourceRule { addr, table, priority } => NetCmdView::AddSourceRule {
                addr: *addr,
                table: *table,
                priority: *priority,
            },
        }
    }
}

pub open spec fn views_of_cmds(s: Seq<NetCommand>) -> Seq<NetCmdView> {
    s.map_values(|x: NetCommand| x@)
}

/// The commands that make one delegated address reachable: enable forwarding
/// and neighbor-proxying on the donor interface, route the address to the
/// tunnel, and answer neighbor solicitations for it on the donor interface.
pub open spec fn spec_reachability_cmds(iface: Seq<char>, tun: Seq<char>, addr: u128) -> Seq<
    NetCmdView,
> {
    seq![
        NetCmdView::EnableForwarding,
        NetCmdView::EnableProxyNdp { iface: iface },
        NetCmdView::ReplaceHostRoute { addr: addr, dev: tun },
        NetCmdView::ReplaceProxyNeigh { addr: addr, dev: iface },
    ]
}

/// Plans the reachability commands for one delegated address on its donor
/// interface, scoped to the tunnel interface.
pub fn install_ndp_proxy_and_route(iface: &String, tun: &String, addr: u128) -> (r: Vec<
    NetCommand,
>)
    ensures
        views_of_cmds(r@) == spec_reachability_cmds(iface@, tun@, addr),
{
    let mut r: Vec<NetCommand> = Vec::new();
    r.push(NetCommand::EnableForwarding);
    r.push(NetCommand::EnableProxyNdp { iface: iface.clone() });
    r.push(NetCommand::ReplaceHostRoute { addr, dev: tun.clone() });
    r.push(NetCommand::ReplaceProxyNeigh { addr, dev: iface.clone() });
    proof {
        assert(views_of_cmds(r@) =~= spec_reachability_cmds(iface@, tun@, addr));
    }
    r
}

/// The reachability commands of a whole batch, in address order.
pub open spec fn spec_reach_all(addrs: Seq<DelegatedAddressView>, tun: Seq<char>) -> Seq<
    NetCmdView,
>
    decreases addrs.len(),
{
    if addrs.len() == 0 {
        Seq::empty()
    } else {
        spec_reach_all(addrs.drop_last(), tun) + spec_reachability_cmds(
            addrs.last().ifname,
            tun,
            addrs.last().addr,
        )
    }
}

/// The policy-routing table for an address: 50000 plus the low 16 bits of
/// its last segment, reduced mod 4096.
pub open spec fn spec_table_id(addr: u128) -> u32 {
    (50000 + ((addr & 0xffffu128) as u32 % 4096)) as u32
}

/// Table id range law: every address maps to a policy-routing table in
/// [50000, 54095].
pub proof fn lemma_table_id_range(addr: u128)
    ensures
        50000 <= spec_table_id(addr) <= 54095,
{
    assert(addr & 0xffffu128 <= 0xffff) by (bit_vector);
}

/// Computes the policy-routing table id for an address.
pub fn policy_table_id(addr: u128) -> (t: u32)
    ensures
        t == spec_table_id(addr),
        50000 <= t <= 54095,
{
    proof {
        assert(addr & 0xffffu128 <= 0xffff) by (bit_vector);
    }
    let low16: u32 = (addr & 0xffff) as u32;
    50000 + (low16 % 4096)
}

/// The source-based return-path commands for one address: delete any stale
/// rule for the source/table pair, install the table's default route via the
/// tunnel, then install the source-match rule at priority 1000. Empty when
/// no tunnel interface can be located.
pub open spec fn spec_source_policy_cmds(
    recs: Seq<crate::discovery::IfaceRecordView>,
    overlay: Option<u32>,
    addr: u128,
) -> Seq<NetCmdView> {
    match spec_tun_ifname(recs, overlay) {
        None => Seq::empty(),
        Some(tun) => seq![
            NetCmdView::DeleteSourceRule { addr: addr, table: spec_table_id(addr) },
            NetCmdView::ReplaceDefaultRoute { dev: tun, table: spec_table_id(addr) },
            NetCmdView::AddSourceRule {
                addr: addr,
                table: spec_table_id(addr),
                priority: 1000u32,
            },
        ],
    }
}

/// Plans source-based policy routing so traffic originating from a delegated
/// address is forced back out the tunnel's default route.
pub fn configure_source_policy_for_addr(
    ifaces: &Vec<IfaceRecord>,
    overlay_ipv4: Option<u32>,
    addr: u128,
) -> (r: Vec<NetCommand>)
    ensures
        views_of_cmds(r@) == spec_source_policy_cmds(views_of_records(ifaces@), overlay_ipv4, addr),
{
    let mut r: Vec<NetCommand> = Vec::new();
    match get_tun_ifname(ifaces, overlay_ipv4) {
        None => {
            proof {
                assert(views_of_cmds(r@) =~= Seq::<NetCmdView>::empty());
            }
        },
        Some(tun) => {
            let table = policy_table_id(addr);
            r.push(NetCommand::DeleteSourceRule { addr, table });
            r.push(NetCommand::ReplaceDefaultRoute { dev: tun, table });
            r.push(NetCommand::AddSourceRule { addr, table, priority: 1000 });
            proof {
                assert(views_of_cmds(r@) =~= spec_source_policy_cmds(
                    views_of_records(ifaces@),
                    overlay_ipv4,
                    addr,
                ));
            }
        },
    }
    r
}

/// The delegation response: one entry per derived address, an error text
/// where the empty string means success, and the server's own overlay anchor
/// address when delegation produced anything.
pub struct DelegationResponse {
    pub addrs: Vec<DelegatedAddress>,
    pub error: String,
    pub server_overlay_ipv6: Option<u128>,
}

/// The mathematical value of a `DelegationResponse`.
#[verifier::ext_equal]
pub ghost struct DelegationResponseView {
    pub addrs: Seq<DelegatedAddressView>,
    pub error: Seq<char>,
    pub server_overlay_ipv6: Option<u128>,
}

impl View for DelegationResponse {
    type V = DelegationResponseView;

    open spec fn view(&self) -> DelegationResponseView {
        DelegationResponseView {
            addrs: views_of_delegated(self.addrs@),
            error: self.error@,
            server_overlay_ipv6: self.server_overlay_ipv6,
        }
    }
}

/// The addresses a request derives: one per selected prefix, over the
/// prefixes discovered among the interface records.
pub open spec fn spec_request_addrs(
    recs: Seq<crate::discovery::IfaceRecordView>,
    id: u32,
    count: u32,
) -> Seq<DelegatedAddressView> {
    let pfxs = spec_onlink_prefixes(recs);
    spec_derive_batch(id, pfxs.take(spec_want(count, pfxs.len()) as int), Set::empty())
}

/// The response a request receives: a literal error when the server is
/// disabled or no prefix qualifies, otherwise the derived addresses with the
/// first one doubling as the server's overlay anchor.
pub open spec fn spec_response(
    enabled: bool,
    recs: Seq<crate::discovery::IfaceRecordView>,
    id: u32,
    count: u32,
) -> DelegationResponseView {
    if !enabled {
        DelegationResponseView {
            addrs: Seq::empty(),
            error: "server disabled"@,
            server_overlay_ipv6: None,
        }
    } else {
        let addrs = spec_request_addrs(recs, id, count);
        if addrs.len() == 0 {
            DelegationResponseView {
                addrs: Seq::empty(),
                error: "no on-link /64 found"@,
                server_overlay_ipv6: None,
            }
        } else {
            DelegationResponseView {
                addrs: addrs,
                error: Seq::empty(),
                server_overlay_ipv6: Some(addrs[0].addr),
            }
        }
    }
}

/// The side-effect plan of a request: when it succeeds and a tunnel
/// interface exists, the reachability commands of every address followed by
/// assigning the first address to the tunnel; otherwise nothing.
pub open spec fn spec_side_effects(
    enabled: bool,
    overlay: Option<u32>,
    recs: Seq<crate::discovery::IfaceRecordView>,
    id: u32,
    count: u32,
) -> Seq<NetCmdView> {
    if !enabled {
        Seq::empty()
    } else {
        let addrs = spec_request_addrs(recs, id, count);
        if addrs.len() == 0 {
            Seq::empty()
        } else {
            match spec_tun_ifname(recs, overlay) {
                None => Seq::empty(),
                Some(tun) => spec_reach_all(addrs, tun).push(
                    NetCmdView::ReplaceTunAddr { addr: addrs[0].addr, dev: tun },
                ),
            }
        }
    }
}

/// The delegation protocol server: the feature flag and the node's overlay
/// IPv4 address (used only to locate the tunnel interface), passed in
/// explicitly at construction.
pub struct Ipv6DelegateServer {
    pub enabled: bool,
    pub overlay_ipv4: Option<u32>,
}

impl Ipv6DelegateServer {
    /// A server with the delegation feature flag and the node's overlay IPv4
    /// address.
    pub fn new(enabled: bool, overlay_ipv4: Option<u32>) -> (r: Ipv6DelegateServer)
        ensures
            r.enabled == enabled,
            r.overlay_ipv4 == overlay_ipv4,
    {
        Ipv6DelegateServer { enabled, overlay_ipv4 }
    }

    /// Serves one delegation request over the given snapshot of local
    /// interface records: returns the response for the caller and the plan
    /// of network commands the host should apply best-effort. Every expected
    /// failure is a literal error string in the response.
    pub fn request_delegation(
        &self,
        requester_id: u32,
        count: u32,
        ifaces: &Vec<IfaceRecord>,
    ) -> (r: (DelegationResponse, Vec<NetCommand>))
        ensures
            r.0@ == spec_response(self.enabled, views_of_records(ifaces@), requester_id, count),
            views_of_cmds(r.1@) == spec_side_effects(
                self.enabled,
                self.overlay_ipv4,
                views_of_records(ifaces@),
                requester_id,
                count,
            ),
    {
        let ghost recs = views_of_records(ifaces@);
        if !self.enabled {
            let resp = DelegationResponse {
                addrs: Vec::new(),
                error: "server disabled".to_owned(),
                server_overlay_ipv6: None,
            };
            let cmds: Vec<NetCommand> = Vec::new();
            proof {
                assert(views_of_delegated(resp.addrs@) =~= Seq::<DelegatedAddressView>::empty());
                assert(resp@ =~= spec_response(self.enabled, recs, requester_id, count));
                assert(views_of_cmds(cmds@) =~= Seq::<NetCmdView>::empty());
            }
            return (resp, cmds);
        }
        let prefixes = list_onlink_prefixes(ifaces);
        let addrs = alloc_addrs_for_peer(requester_id, count, &prefixes);
        proof {
            assert(views_of_prefixes(prefixes@).len() == prefixes@.len());
            assert(views_of_delegated(addrs@) == spec_request_addrs(recs, requester_id, count));
            assert(views_of_delegated(addrs@).len() == addrs@.len());
        }
        if addrs.len() == 0 {
            let resp = DelegationResponse {
                addrs: Vec::new(),
                error: "no on-link /64 found".to_owned(),
                server_overlay_ipv6: None,
            };
            let cmds: Vec<NetCommand> = Vec::new();
            proof {
                assert(views_of_delegated(resp.addrs@) =~= Seq::<DelegatedAddressView>::empty());
                assert(resp@ =~= spec_response(self.enabled, recs, requester_id, count));
                assert(views_of_cmds(cmds@) =~= Seq::<NetCmdView>::empty());
            }
            return (resp, cmds);
        }
        let ghost addr_views = views_of_delegated(addrs@);
        let mut cmds: Vec<NetCommand> = Vec::new();
        match get_tun_ifname(ifaces, self.overlay_ipv4) {
            None => {
                proof {
                    assert(views_of_cmds(cmds@) =~= Seq::<NetCmdView>::empty());
                }
            },
            Some(tun) => {
                proof {
                    assert(addr_views.take(0) =~= Seq::<DelegatedAddressView>::empty());
                    assert(views_of_cmds(cmds@) =~= spec_reach_all(addr_views.take(0), tun@));
                }
                let mut i: usize = 0;
                while i < addrs.len()
                    invariant
                        i <= addrs.len(),
                        addr_views == views_of_delegated(addrs@),
                        views_of_cmds(cmds@) == spec_reach_all(addr_views.take(i as int), tun@),
                    decreases addrs.len() - i,
                {
                    let mut step = install_ndp_proxy_and_route(
                        &addrs[i].ifname,
                        &tun,
                        addrs[i].addr,
                    );
                    let ghost old_cmds = cmds@;
                    let ghost step_views = views_of_cmds(step@);
                    cmds.append(&mut step);
                    proof {
                        assert(addr_views.take(i as int + 1).drop_last() =~= addr_views.take(
                            i as int,
                        ));
                        assert(addr_views.take(i as int + 1).last() == addrs@[i as int]@);
                        assert(views_of_cmds(cmds@) =~= views_of_cmds(old_cmds) + step_views);
                    }
                    i = i + 1;
                }
                proof {
                    assert(addr_views.take(addrs@.len() as int) =~= addr_views);
                }
                let first_addr = addrs[0].addr;
                let ghost old_cmds = cmds@;
                cmds.push(NetCommand::ReplaceTunAddr { addr: first_addr, dev: tun });
                proof {
                    assert(views_of_cmds(old_cmds.push(
                        NetCommand::ReplaceTunAddr { addr: first_addr, dev: tun },
                    )) =~= views_of_cmds(old_cmds).push(
                        NetCmdView::ReplaceTunAddr { addr: first_addr, dev: tun@ },
                    ));
                    assert(addr_views[0].addr == addrs@[0]@.addr);
                }
            },
        }
        let first_addr = addrs[0].addr;
        let resp = DelegationResponse {
            addrs: addrs,
            error: String::new(),
            server_overlay_ipv6: Some(first_addr),
        };
        proof {
            assert(resp@ =~= spec_response(self.enabled, recs, requester_id, count));
        }
        (resp, cmds)
    }
}

} // verus!
