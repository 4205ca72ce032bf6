use ipv6_delegate::discovery::{IfaceIp, IfaceRecord};
use ipv6_delegate::server::{
    configure_source_policy_for_addr, install_ndp_proxy_and_route, policy_table_id, Ipv6DelegateServer,
    NetCommand,
};

const MASK64: u128 = 0xffff_ffff_ffff_ffff_0000_0000_0000_0000;
const BASE: u128 = 0x2001_0db8_0000_0001_0000_0000_0000_0000;
const OVERLAY_V4: u32 = 0x0a00_0001;

fn v6(name: &str, ip: u128) -> IfaceRecord {
    IfaceRecord {
        name: name.to_string(),
        addr: Some(IfaceIp::V6(ip)),
        mask: Some(IfaceIp::V6(MASK64)),
    }
}

fn tun_rec(name: &str) -> IfaceRecord {
    IfaceRecord { name: name.to_string(), addr: Some(IfaceIp::V4(OVERLAY_V4)), mask: None }
}

#[test]
fn disabled_server_scenario() {
    let server = Ipv6DelegateServer::new(false, None);
    let ifaces = vec![v6("eth0", BASE | 7)];
    let (resp, cmds) = server.request_delegation(7, 1, &ifaces);
    assert!(resp.addrs.is_empty());
    assert_eq!(resp.error, "server disabled");
    assert_eq!(resp.server_overlay_ipv6, None);
    assert!(cmds.is_empty());
}

#[test]
fn no_prefix_scenario() {
    let server = Ipv6DelegateServer::new(true, None);
    // nothing qualifies: a virtual name and a link-local address
    let ifaces = vec![
        v6("docker0", BASE | 7),
        v6("eth0", 0xfe80_0000_0000_0000_0000_0000_0000_0001),
    ];
    let (resp, cmds) = server.request_delegation(7, 1, &ifaces);
    assert!(resp.addrs.is_empty());
    assert_eq!(resp.error, "no on-link /64 found");
    assert_eq!(resp.server_overlay_ipv6, None);
    assert!(cmds.is_empty());
}

#[test]
fn count_semantics() {
    let server = Ipv6DelegateServer::new(true, None);
    let ifaces = vec![
        v6("eth0", BASE | 1),
        v6("eth1", (BASE + (1 << 64)) | 1),
        v6("eth2", (BASE + (2 << 64)) | 1),
    ];
    let (r0, _) = server.request_delegation(7, 0, &ifaces);
    assert_eq!(r0.addrs.len(), 3);
    assert_eq!(r0.error, "");
    let (r5, _) = server.request_delegation(7, 5, &ifaces);
    assert_eq!(r5.addrs.len(), 3);
    let (r1, _) = server.request_delegation(7, 1, &ifaces);
    assert_eq!(r1.addrs.len(), 1);
    // one address per prefix, in discovery order
    assert_eq!(r0.addrs[0].ifname, "eth0");
    assert_eq!(r0.addrs[1].ifname, "eth1");
    assert_eq!(r0.addrs[2].ifname, "eth2");
    // the first address doubles as the server's overlay anchor
    assert_eq!(r0.server_overlay_ipv6, Some(r0.addrs[0].addr));
}

#[test]
fn side_effects_skipped_without_tunnel() {
    // overlay address known but no interface owns it
    let server = Ipv6DelegateServer::new(true, Some(OVERLAY_V4));
    let ifaces = vec![v6("eth0", BASE | 1)];
    let (resp, cmds) = server.request_delegation(7, 0, &ifaces);
    assert_eq!(resp.addrs.len(), 1);
    assert_eq!(resp.error, "");
    assert!(cmds.is_empty());
}

#[test]
fn side_effect_plan_with_tunnel() {
    let server = Ipv6DelegateServer::new(true, Some(OVERLAY_V4));
    let ifaces = vec![v6("eth0", BASE | 1), v6("eth1", (BASE + (1 << 64)) | 1), tun_rec("et_tun0")];
    let (resp, cmds) = server.request_delegation(7, 0, &ifaces);
    assert_eq!(resp.addrs.len(), 2);
    // four reachability commands per address, then the tunnel assignment
    assert_eq!(cmds.len(), 9);
    let a0 = resp.addrs[0].addr;
    let a1 = resp.addrs[1].addr;
    assert_eq!(cmds[0], NetCommand::EnableForwarding);
    assert_eq!(cmds[1], NetCommand::EnableProxyNdp { iface: "eth0".to_string() });
    assert_eq!(cmds[2], NetCommand::ReplaceHostRoute { addr: a0, dev: "et_tun0".to_string() });
    assert_eq!(cmds[3], NetCommand::ReplaceProxyNeigh { addr: a0, dev: "eth0".to_string() });
    assert_eq!(cmds[4], NetCommand::EnableForwarding);
    assert_eq!(cmds[5], NetCommand::EnableProxyNdp { iface: "eth1".to_string() });
    assert_eq!(cmds[6], NetCommand::ReplaceHostRoute { addr: a1, dev: "et_tun0".to_string() });
    assert_eq!(cmds[7], NetCommand::ReplaceProxyNeigh { addr: a1, dev: "eth1".to_string() });
    assert_eq!(cmds[8], NetCommand::ReplaceTunAddr { addr: a0, dev: "et_tun0".to_string() });
}

#[test]
fn reachability_plan_for_one_address() {
    let cmds = install_ndp_proxy_and_route(&"eth0".to_string(), &"et_tun0".to_string(), BASE | 5);
    assert_eq!(
        cmds,
        vec![
            NetCommand::EnableForwarding,
            NetCommand::EnableProxyNdp { iface: "eth0".to_string() },
            NetCommand::ReplaceHostRoute { addr: BASE | 5, dev: "et_tun0".to_string() },
            NetCommand::ReplaceProxyNeigh { addr: BASE | 5, dev: "eth0".to_string() },
        ]
    );
}

#[test]
fn table_id_formula_and_range() {
    // last segment 0x1234: 50000 + (0x1234 mod 4096) = 50000 + 0x234
    assert_eq!(policy_table_id(BASE | 0x1234), 50000 + 0x234);
    assert_eq!(policy_table_id(BASE), 50000);
    assert_eq!(policy_table_id(!0u128), 50000 + 4095);
    for k in [0u128, 1, 0xffff, 0x8000, 0x0fff, 0xabcd] {
        let t = policy_table_id(BASE | k);
        assert!((50000..=54095).contains(&t));
    }
}

#[test]
fn source_policy_plan_with_tunnel() {
    let addr = BASE | 0x1234;
    let table = 50000 + 0x234;
    let ifaces = vec![v6("eth0", BASE | 1), tun_rec("et_tun0")];
    let cmds = configure_source_policy_for_addr(&ifaces, Some(OVERLAY_V4), addr);
    assert_eq!(
        cmds,
        vec![
            NetCommand::DeleteSourceRule { addr, table },
            NetCommand::ReplaceDefaultRoute { dev: "et_tun0".to_string(), table },
            NetCommand::AddSourceRule { addr, table, priority: 1000 },
        ]
    );
}

#[test]
fn source_policy_plan_without_tunnel() {
    let ifaces = vec![v6("eth0", BASE | 1)];
    assert!(configure_source_policy_for_addr(&ifaces, Some(OVERLAY_V4), BASE | 1).is_empty());
    assert!(configure_source_policy_for_addr(&ifaces, None, BASE | 1).is_empty());
}
