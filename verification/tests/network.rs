use postureflow::network::{
    gateway_mac_from_arp, gateway_mac_from_arp_an, gateway_mac_from_neigh, parse_bssid, parse_gateway_ip,
    scan_nmcli_connections,
};

#[test]
fn nmcli_connections_give_the_context() {
    let out = "802-11-wireless:CoffeeShop:wlp2s0\nloopback:lo:lo\nvpn:WorkVPN:tun0\nethernet:Wired:enp0s31f6\nshort:line\n";
    let scan = scan_nmcli_connections(out);
    assert_eq!(scan.primary_type, "wifi");
    assert_eq!(scan.current_ssid.as_deref(), Some("CoffeeShop"));
    assert_eq!(scan.active_vpn.as_deref(), Some("WorkVPN"));
    assert_eq!(scan.vpn_tunnels, vec!["WorkVPN".to_string(), "tun0".to_string()]);
    assert_eq!(scan.active_devices, vec!["wlp2s0".to_string(), "tun0".to_string(), "enp0s31f6".to_string()]);

    let wired = scan_nmcli_connections("802-3-ethernet:Wired:eth0\n");
    assert_eq!(wired.primary_type, "ethernet");
    assert_eq!(wired.current_ssid, None);
}

#[test]
fn virtual_tunnels_join_the_scan() {
    let mut scan = scan_nmcli_connections("ethernet:Wired:enp1s0\n");
    scan.add_interface("tailscale0", "unknown\n");
    scan.add_interface("wg1", "down\n");
    scan.add_interface("tailscale0", "up");
    assert_eq!(scan.primary_type, "vpn");
    assert_eq!(scan.active_vpn.as_deref(), Some("tailscale0"));
    assert_eq!(scan.vpn_tunnels, vec!["tailscale0".to_string()]);
    assert_eq!(scan.active_devices, vec!["enp1s0".to_string(), "tailscale0".to_string()]);
    let net = scan.finish(Some("aa:bb".to_string()), None);
    assert_eq!(net.current_bssid.as_deref(), Some("aa:bb"));
}

#[test]
fn access_point_and_gateway_parsers() {
    assert_eq!(parse_bssid("no:11\\:22\\:33\\:44\\:55\\:66\nyes:AA\\:BB\\:CC\\:DD\\:EE\\:FF\n").as_deref(), Some("AA:BB:CC:DD:EE:FF"));
    assert_eq!(parse_bssid("yes:short\n"), None);
    assert_eq!(parse_gateway_ip("default via 192.168.1.1 dev wlp2s0 proto dhcp").as_deref(), Some("192.168.1.1"));
    assert_eq!(parse_gateway_ip("default dev tun0"), None);
    let arp = "IP address       HW type     Flags       HW address            Mask     Device\n192.168.1.7      0x1         0x2         11:11:11:11:11:11     *        wlp2s0\n192.168.1.1      0x1         0x2         00:11:22:33:44:55     *        wlp2s0\n";
    assert_eq!(gateway_mac_from_arp(arp, Some("192.168.1.1")).as_deref(), Some("00:11:22:33:44:55"));
    assert_eq!(gateway_mac_from_arp(arp, None).as_deref(), Some("11:11:11:11:11:11"));
    assert_eq!(gateway_mac_from_arp(arp, Some("10.0.0.1")), None);
    assert_eq!(
        gateway_mac_from_neigh("192.168.1.1 dev wlp2s0 lladdr 00:11:22:33:44:55 REACHABLE\n").as_deref(),
        Some("00:11:22:33:44:55")
    );
    assert_eq!(gateway_mac_from_neigh("192.168.1.9 dev wlp2s0 lladdr 00:11:22:33:44:66 STALE\n"), None);
    assert_eq!(
        gateway_mac_from_arp_an("? (192.168.1.1) at 00:11:22:33:44:55 [ether] on wlp2s0\n? (192.168.1.2) at (incomplete) on wlp2s0\n").as_deref(),
        Some("00:11:22:33:44:55")
    );
}
