use postureflow::autoflow::{
    check_evil_twin, evaluate_posture, with_current_wifi, ActiveNetworkInfo, AutoFlowConfig, NetworkRule,
};

fn wifi(ssid: &str, bssid: Option<&str>, gw: Option<&str>) -> ActiveNetworkInfo {
    ActiveNetworkInfo {
        primary_type: "wifi".to_string(),
        current_ssid: Some(ssid.to_string()),
        current_bssid: bssid.map(|s| s.to_string()),
        current_gateway_mac: gw.map(|s| s.to_string()),
        active_vpn: None,
        vpn_tunnels: Vec::new(),
        active_devices: vec!["wlp2s0".to_string()],
    }
}

#[test]
fn test_autoflow_rule_evaluation() {
    let mut config = AutoFlowConfig::default();
    config.rules.push(NetworkRule {
        ssid: Some("CoffeeShop-Guest".to_string()),
        bssid: None,
        gateway_mac: None,
        interface: None,
        profile: "travel".to_string(),
        comment: None,
    });

    let net1 = wifi("CoffeeShop-Guest", None, None);
    assert_eq!(evaluate_posture(&config, &net1), Some("travel".to_string()));

    let net2 = ActiveNetworkInfo {
        primary_type: "vpn".to_string(),
        current_ssid: Some("HomeNetwork".to_string()),
        current_bssid: None,
        current_gateway_mac: None,
        active_vpn: Some("WorkVPN".to_string()),
        vpn_tunnels: vec!["tun0".to_string()],
        active_devices: vec!["tun0".to_string()],
    };
    assert_eq!(evaluate_posture(&config, &net2), Some("work".to_string()));

    let net3 = wifi("Airport-Public-Free", None, None);
    assert_eq!(evaluate_posture(&config, &net3), Some("travel".to_string()));

    let net4 = ActiveNetworkInfo {
        primary_type: "vpn".to_string(),
        current_ssid: Some("HomeNetwork".to_string()),
        current_bssid: None,
        current_gateway_mac: None,
        active_vpn: Some("tailscale0".to_string()),
        vpn_tunnels: vec!["tailscale0".to_string()],
        active_devices: vec!["wlp2s0".to_string(), "tailscale0".to_string()],
    };
    assert_eq!(evaluate_posture(&config, &net4), Some("dev".to_string()));
}

#[test]
fn test_anti_evil_twin_bssid_mismatch_locks_to_travel() {
    let mut config = AutoFlowConfig::default();
    config.rules.push(NetworkRule {
        ssid: Some("CorporateOffice".to_string()),
        bssid: Some("aa:bb:cc:dd:ee:ff".to_string()),
        gateway_mac: None,
        interface: None,
        profile: "work".to_string(),
        comment: Some("Legit AP".to_string()),
    });

    let legit_net = wifi("CorporateOffice", Some("AA:BB:CC:DD:EE:FF"), None);
    assert!(check_evil_twin(&config, &legit_net).is_none());
    assert_eq!(evaluate_posture(&config, &legit_net), Some("work".to_string()));

    let rogue_net = wifi("CorporateOffice", Some("11:22:33:44:55:66"), None);
    let alert = check_evil_twin(&config, &rogue_net);
    assert!(alert.is_some());
    assert!(alert.unwrap().contains("rogue BSSID '11:22:33:44:55:66'"));
    assert_eq!(evaluate_posture(&config, &rogue_net), Some("travel".to_string()));
}

#[test]
fn test_anti_evil_twin_gateway_mac_mismatch_locks_to_travel() {
    let mut config = AutoFlowConfig::default();
    config.rules.push(NetworkRule {
        ssid: Some("HomeNetwork".to_string()),
        bssid: None,
        gateway_mac: Some("00:11:22:33:44:55".to_string()),
        interface: None,
        profile: "home".to_string(),
        comment: Some("Trusted router".to_string()),
    });

    let rogue_gw = wifi("HomeNetwork", None, Some("99:88:77:66:55:44"));
    assert!(check_evil_twin(&config, &rogue_gw).is_some());
    assert_eq!(evaluate_posture(&config, &rogue_gw), Some("travel".to_string()));
}

#[test]
fn disabled_autoflow_chooses_nothing() {
    let mut config = AutoFlowConfig::default();
    config.enabled = false;
    let net = wifi("Airport-Public-Free", None, None);
    assert_eq!(evaluate_posture(&config, &net), None);
}

#[test]
fn evil_twin_overrides_a_trusted_rule_law_example() {
    let mut config = AutoFlowConfig::default();
    config.rules.push(NetworkRule {
        ssid: Some("Lab".to_string()),
        bssid: Some("aa:aa:aa:aa:aa:aa".to_string()),
        gateway_mac: Some("bb:bb:bb:bb:bb:bb".to_string()),
        interface: None,
        profile: "dev".to_string(),
        comment: None,
    });
    let ok = wifi("Lab", Some("AA:AA:AA:AA:AA:AA"), Some("BB:BB:BB:BB:BB:BB"));
    assert_eq!(evaluate_posture(&config, &ok), Some("dev".to_string()));
    let bad = wifi("Lab", Some("AA:AA:AA:AA:AA:AA"), Some("cc:cc:cc:cc:cc:cc"));
    assert_eq!(evaluate_posture(&config, &bad), Some("travel".to_string()));
}

#[test]
fn default_config_learns_the_current_wifi() {
    let base = AutoFlowConfig::default();
    let n = base.rules.len();
    let cfg = with_current_wifi(AutoFlowConfig::default(), Some("CafeNet"));
    assert_eq!(cfg.rules.len(), n + 1);
    assert_eq!(cfg.rules[0].ssid.as_deref(), Some("CafeNet"));
    assert_eq!(cfg.rules[0].profile, "home");
    assert_eq!(cfg.rules[0].comment.as_deref(), Some("Current Wi-Fi: CafeNet"));
    assert_eq!(evaluate_posture(&cfg, &wifi("CafeNet", None, None)), Some("home".to_string()));

    let again = with_current_wifi(cfg, Some("CafeNet"));
    assert_eq!(again.rules.len(), n + 1);
    let none = with_current_wifi(AutoFlowConfig::default(), None);
    assert_eq!(none.rules.len(), n);
}
