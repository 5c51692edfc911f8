use postureflow::autoflow::ActiveNetworkInfo;
use postureflow::daemon::{network_key, tick_seconds, AutoFlowMonitor, ScheduleAction, ScheduleMonitor};
use postureflow::schedule::ScheduleDecision;
use postureflow::service::{
    auto_flow_status, polkit_verdict, profile_listing, requested_profile_id, sender_requires_auth, triggers_status,
    uid_requires_auth, AuthError,
};
use postureflow::config::builtin_profiles;

fn net(ssid: Option<&str>) -> ActiveNetworkInfo {
    ActiveNetworkInfo {
        primary_type: "wifi".to_string(),
        current_ssid: ssid.map(|s| s.to_string()),
        current_bssid: None,
        current_gateway_mac: None,
        active_vpn: None,
        vpn_tunnels: Vec::new(),
        active_devices: Vec::new(),
    }
}

#[test]
fn autoflow_monitor_applies_once_per_network_change() {
    assert_eq!(network_key(&net(Some("Cafe"))), "wifi:Cafe:none");
    let mut m = AutoFlowMonitor::new();
    assert_eq!(m.tick(true, "wifi:Cafe:none", false, Some("travel"), "home").as_deref(), Some("travel"));
    m.applied("travel");
    assert_eq!(m.tick(true, "wifi:Cafe:none", false, Some("travel"), "home"), None);
    assert_eq!(m.tick(true, "wifi:Other:none", false, Some("travel"), "home"), None);
    assert_eq!(m.tick(true, "wifi:Home:none", true, Some("home"), "travel"), None);
    assert_eq!(m.last_network_key, "wifi:Home:none");
    assert_eq!(m.tick(false, "ethernet:none:none", false, Some("work"), "travel"), None);
    assert_eq!(m.last_network_key, "wifi:Home:none");
}

#[test]
fn schedule_monitor_handles_emergencies_and_shifts() {
    let mut m = ScheduleMonitor::new();
    let emergency = Some(ScheduleDecision::BatteryEmergency {
        rule_name: "Battery Critical".to_string(),
        target_profile: "travel".to_string(),
        battery_percent: 9,
        cpu_epp: Some("power".to_string()),
        disable_bluetooth: true,
    });
    match m.tick(&emergency, "work", false) {
        Some(ScheduleAction::ApplyEmergency { profile, cpu_epp, disable_bluetooth }) => {
            assert_eq!(profile, "travel");
            assert_eq!(cpu_epp.as_deref(), Some("power"));
            assert!(disable_bluetooth);
        }
        other => panic!("expected the emergency, got {:?}", other),
    }
    m.emergency_applied("travel");
    assert!(m.tick(&emergency, "travel", false).is_none());
    let shift = Some(ScheduleDecision::ScheduledShift {
        rule_name: "Office".to_string(),
        target_profile: "work".to_string(),
        window: "09:00-17:00".to_string(),
    });
    assert!(m.tick(&shift, "work", true).is_none());
    assert!(!m.was_emergency);
    match m.tick(&shift, "travel", false) {
        Some(ScheduleAction::ApplyShift { profile }) => assert_eq!(profile, "work"),
        other => panic!("expected the shift, got {:?}", other),
    }
    assert_eq!(tick_seconds(2, 5), 5);
    assert_eq!(tick_seconds(30, 5), 30);
}

#[test]
fn service_decisions() {
    assert_eq!(requested_profile_id("  Travel "), "travel");
    assert!(!sender_requires_auth(None));
    assert!(!sender_requires_auth(Some("")));
    assert!(sender_requires_auth(Some(":1.42")));
    assert!(!uid_requires_auth(0));
    assert!(uid_requires_auth(1000));
    assert!(polkit_verdict(Ok(true)).is_ok());
    match polkit_verdict(Ok(false)) {
        Err(AuthError::AccessDenied(m)) => assert_eq!(m, "Polkit authorization required to set profile or modify system posture"),
        other => panic!("expected a denial, got {:?}", other),
    }
    assert!(polkit_verdict(Err("org.freedesktop.DBus.Error.ServiceUnknown: no polkit")).is_ok());
    match polkit_verdict(Err("timeout")) {
        Err(AuthError::Failed(m)) => assert_eq!(m, "PolicyKit error: timeout"),
        other => panic!("expected a failure, got {:?}", other),
    }
    let listing = profile_listing(&builtin_profiles(), "default");
    assert_eq!(listing.len(), 4);
    assert!(listing[0].4);
    assert!(!listing[1].4);
    let listing = profile_listing(&builtin_profiles(), "dev");
    assert!(listing[2].4 && !listing[0].4);
    assert_eq!(auto_flow_status(true, &net(None), None), (true, "wifi".to_string(), "none".to_string()));
    assert_eq!(
        auto_flow_status(false, &net(Some("Cafe")), Some("travel")),
        (false, "Cafe".to_string(), "travel".to_string())
    );
    assert_eq!(triggers_status(true, &None), (true, "none".to_string()));
}
