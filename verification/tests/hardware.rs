use postureflow::hardware::honeypot::{
    intrusion_notice, is_loopback_peer, push_incident, trap_bind_address, trap_incident, HoneypotConfig,
    HoneypotIncident,
};
use postureflow::hardware::motion::{
    accel_from_raw, choose_accelerometer, evaluate_motion_transition, motion_incident, motion_notice, AccelVector,
    MotionAction, MotionSentryConfig,
};
use postureflow::hardware::proximity::{
    evaluate_proximity_transition, list_paired_bluetooth_devices, query_device_rssi, ProximityAction,
    ProximityConfig,
};
use postureflow::hardware::sensors::{get_sensor_privacy_report, SensorPrivacyReport};
use postureflow::hardware::yubikey::{
    detect_yubikeys, evaluate_tether_transition, is_yubikey_present, TetherAction, UsbDeviceFiles,
    YubikeyTetherConfig,
};
use postureflow::hardware::{proximity_notice, tether_notice, HardwareDefenseConfig, HardwareMonitor};

fn displacement(a: AccelVector, b: AccelVector) -> u32 {
    let dx = (a.x - b.x) as f64;
    let dy = (a.y - b.y) as f64;
    let dz = (a.z - b.z) as f64;
    (dx * dx + dy * dy + dz * dz).sqrt().round() as u32
}

#[test]
fn test_honeypot_default_config() {
    let cfg = HoneypotConfig::default();
    assert!(!cfg.enabled);
    assert_eq!(cfg.trap_ports, vec![2222, 8080, 4450]);
    assert!(cfg.auto_block_offender);
    assert!(cfg.notify_on_intrusion);
}

#[test]
fn test_hardware_defense_config_defaults() {
    let cfg = HardwareDefenseConfig::default();
    assert!(!cfg.yubikey.enabled);
    assert!(!cfg.honeypot.enabled);
    assert!(!cfg.sensors.camera_blocked);
    assert!(!cfg.proximity.enabled);
}

#[test]
fn test_motion_evaluation_disarmed() {
    let v1 = AccelVector { x: 0, y: 0, z: 0 };
    let v2 = AccelVector { x: 3000, y: 4000, z: 0 };
    let cfg = MotionSentryConfig { enabled: true, armed: false, sensitivity: 1000, ..Default::default() };
    assert!(evaluate_motion_transition(v2, v1, displacement(v2, v1), &cfg).is_none());
}

#[test]
fn test_motion_evaluation_armed_trigger() {
    let v1 = AccelVector { x: 0, y: 0, z: 0 };
    let v2 = AccelVector { x: 3000, y: 4000, z: 0 };
    let cfg = MotionSentryConfig { enabled: true, armed: true, sensitivity: 2000, ..Default::default() };
    let res = evaluate_motion_transition(v2, v1, displacement(v2, v1), &cfg);
    assert!(res.is_some());
    if let Some(MotionAction::TriggerAlarm { displacement, .. }) = res {
        assert_eq!(displacement, 5000);
    }
}

#[test]
fn motion_below_sensitivity_is_quiet() {
    let v1 = AccelVector { x: 0, y: 0, z: 0 };
    let v2 = AccelVector { x: 300, y: 400, z: 0 };
    let cfg = MotionSentryConfig { enabled: true, armed: true, sensitivity: 2000, ..Default::default() };
    assert!(evaluate_motion_transition(v2, v1, displacement(v2, v1), &cfg).is_none());
}

#[test]
fn test_proximity_default_config() {
    let cfg = ProximityConfig::default();
    assert!(!cfg.enabled);
    assert_eq!(cfg.rssi_lock_threshold, -85);
    assert_eq!(cfg.rssi_unlock_threshold, -70);
    assert_eq!(cfg.grace_period_seconds, 10);
    assert_eq!(cfg.lock_profile, "travel");
}

#[test]
fn test_walk_away_triggers_lock_after_grace_period() {
    let mut cfg = ProximityConfig::default();
    cfg.enabled = true;
    cfg.target_device_mac = Some("AA:BB:CC:DD:EE:FF".to_string());
    cfg.grace_period_seconds = 4;

    let (action, count, locked) = evaluate_proximity_transition(Some(-90), 0, &cfg, "work", false);
    assert_eq!(action, None);
    assert_eq!(count, 1);
    assert!(!locked);

    let (action, count, locked) = evaluate_proximity_transition(Some(-92), count, &cfg, "work", locked);
    assert_eq!(action, Some(ProximityAction::LockAndDemote { lock_profile: "travel".to_string() }));
    assert_eq!(count, 2);
    assert!(locked);
}

#[test]
fn test_return_in_range_triggers_restore() {
    let mut cfg = ProximityConfig::default();
    cfg.enabled = true;
    cfg.target_device_mac = Some("AA:BB:CC:DD:EE:FF".to_string());

    let (action, count, locked) = evaluate_proximity_transition(Some(-65), 5, &cfg, "travel", true);
    assert_eq!(action, Some(ProximityAction::Restore { restore_profile: "work".to_string() }));
    assert_eq!(count, 0);
    assert!(!locked);
}

#[test]
fn proximity_lost_signal_counts_as_out_of_range() {
    let mut cfg = ProximityConfig::default();
    cfg.enabled = true;
    cfg.target_device_mac = Some("AA:BB:CC:DD:EE:FF".to_string());
    cfg.grace_period_seconds = 1;
    let (action, count, locked) = evaluate_proximity_transition(None, 0, &cfg, "home", false);
    assert_eq!(action, Some(ProximityAction::LockAndDemote { lock_profile: "travel".to_string() }));
    assert_eq!(count, 1);
    assert!(locked);
}

#[test]
fn test_sensor_privacy_report_default() {
    let rep = SensorPrivacyReport::default();
    assert!(!rep.camera_blocked);
    assert!(!rep.microphone_muted);
    assert!(!rep.location_blocked);
    assert_eq!(rep.active_cameras_count, 0);
}

#[test]
fn muted_microphone_reports_no_audio_source() {
    let rep = get_sensor_privacy_report(false, true, false, 2);
    assert_eq!(rep.active_audio_sources_count, 0);
    assert_eq!(rep.active_cameras_count, 2);
    let rep = get_sensor_privacy_report(false, false, false, 0);
    assert_eq!(rep.active_audio_sources_count, 1);
}

#[test]
fn test_yubikey_tether_default_config() {
    let cfg = YubikeyTetherConfig::default();
    assert!(!cfg.enabled);
    assert!(cfg.lock_session_on_removal);
    assert_eq!(cfg.fallback_profile, "travel");
    assert_eq!(cfg.preferred_profile, "work");
    assert!(cfg.restore_profile_on_insert);
}

#[test]
fn test_tether_removal_triggers_demote() {
    let mut cfg = YubikeyTetherConfig::default();
    cfg.enabled = true;
    cfg.fallback_profile = "travel".to_string();

    let action = evaluate_tether_transition(true, false, &cfg, "work");
    assert_eq!(action, Some(TetherAction::LockAndDemote { fallback_profile: "travel".to_string() }));
}

#[test]
fn test_tether_insertion_triggers_restore() {
    let mut cfg = YubikeyTetherConfig::default();
    cfg.enabled = true;
    cfg.fallback_profile = "travel".to_string();
    cfg.preferred_profile = "dev".to_string();

    let action = evaluate_tether_transition(false, true, &cfg, "travel");
    assert_eq!(action, Some(TetherAction::Restore { preferred_profile: "dev".to_string() }));
}

#[test]
fn test_disabled_tether_produces_no_action() {
    let cfg = YubikeyTetherConfig::default();
    let action = evaluate_tether_transition(true, false, &cfg, "work");
    assert_eq!(action, None);
}

#[test]
fn usb_scan_finds_only_yubico_devices() {
    let devices = vec![
        UsbDeviceFiles {
            vendor: Some("046d\n".to_string()),
            product_id: Some("c52b\n".to_string()),
            product_name: Some("Receiver\n".to_string()),
            serial: None,
        },
        UsbDeviceFiles {
            vendor: Some("1050\n".to_string()),
            product_id: Some("0407\n".to_string()),
            product_name: None,
            serial: Some(" 1234567 \n".to_string()),
        },
    ];
    let keys = detect_yubikeys(&devices);
    assert_eq!(keys.len(), 1);
    assert_eq!(keys[0].vendor_id, "1050");
    assert_eq!(keys[0].product_id, "0407");
    assert_eq!(keys[0].product_name, "YubiKey");
    assert_eq!(keys[0].serial.as_deref(), Some("1234567"));
    assert!(is_yubikey_present(&keys, None));
    assert!(is_yubikey_present(&keys, Some("1234567")));
    assert!(!is_yubikey_present(&keys, Some("7654321")));
    assert!(!is_yubikey_present(&Vec::new(), None));
}

#[test]
fn bluetooth_listing_and_signal_are_read_from_bluetoothctl() {
    let listing = "Device AA:BB:CC:DD:EE:FF My Phone\nController 11:22:33:44:55:66 laptop\nDevice 12:34:56:78:9A:BC Watch\n";
    let devices = list_paired_bluetooth_devices(listing);
    assert_eq!(
        devices,
        vec![
            ("AA:BB:CC:DD:EE:FF".to_string(), "My Phone".to_string()),
            ("12:34:56:78:9A:BC".to_string(), "Watch".to_string())
        ]
    );
    let info = "Device AA:BB:CC:DD:EE:FF\n\tName: My Phone\n\tRSSI: -67\n";
    assert_eq!(query_device_rssi(info), Some(-67));
    assert_eq!(query_device_rssi("\tName: x\n"), None);
}

#[test]
fn honeypot_log_keeps_the_latest_hundred() {
    let mut log: Vec<HoneypotIncident> = Vec::new();
    for i in 0..105u64 {
        log = push_incident(log, trap_incident(i, "10.0.0.9".to_string(), 2222, false));
    }
    assert_eq!(log.len(), 100);
    assert_eq!(log[0].timestamp, 5);
    assert_eq!(log[99].timestamp, 104);
    assert_eq!(log[99].description, "Connection attempt to decoy honeypot trap port 2222");
    assert!(is_loopback_peer("127.0.0.1"));
    assert!(is_loopback_peer("::1"));
    assert!(!is_loopback_peer("192.168.1.99"));
    assert_eq!(trap_bind_address(8080), "0.0.0.0:8080");
    assert_eq!(
        intrusion_notice("192.168.1.99", 8080, true),
        "⚠️ Port scan intrusion detected from IP 192.168.1.99\nTargeting trap port 8080\nAction: Firewall Blocked"
    );
}

#[test]
fn accelerometer_choice_and_reading() {
    let cands = vec![
        ("/sys/bus/iio/devices/iio:device0".to_string(), "als\n".to_string()),
        ("/sys/bus/iio/devices/iio:device1".to_string(), "cros-ec-accel\n".to_string()),
    ];
    assert_eq!(choose_accelerometer(&cands).as_deref(), Some("/sys/bus/iio/devices/iio:device1"));
    let only = vec![("/a".to_string(), "gyro".to_string())];
    assert_eq!(choose_accelerometer(&only).as_deref(), Some("/a"));
    assert_eq!(choose_accelerometer(&Vec::new()), None);
    assert_eq!(accel_from_raw(" 12\n", "-40\n", "1000"), Some(AccelVector { x: 12, y: -40, z: 1000 }));
    assert_eq!(accel_from_raw("12", "x", "1"), None);
    let inc = motion_incident(42, 5000, 2000);
    assert_eq!(inc.source_ip, "FRAMEWORK ACCELEROMETER");
    assert_eq!(inc.description, "🚨 Physical Displacement: Laptop moved/tilted (Δ = 5000, Threshold = 2000)");
    assert_eq!(motion_notice(5000), "🚨 Physical motion detected (Δ = 5000)! Laptop locked and Travel mode engaged.");
}

#[test]
fn hardware_monitor_demotes_on_token_removal_then_restores() {
    let mut cfg = HardwareDefenseConfig::default();
    cfg.yubikey.enabled = true;
    let mut m = HardwareMonitor::new(true);
    let (tether, walk) = m.tick(&cfg, "work", false, None);
    assert_eq!(tether, Some(TetherAction::LockAndDemote { fallback_profile: "travel".to_string() }));
    assert_eq!(walk, None);
    assert!(!m.was_yubikey_present);
    let (tether, _) = m.tick(&cfg, "travel", true, None);
    assert_eq!(tether, Some(TetherAction::Restore { preferred_profile: "work".to_string() }));
    let n = tether_notice(&tether.unwrap());
    assert_eq!(n.urgency, "normal");
    assert_eq!(n.body, "🔑 YubiKey detected: Restored WORK posture.");
}

#[test]
fn hardware_monitor_counts_walk_away_readings() {
    let mut cfg = HardwareDefenseConfig::default();
    cfg.proximity.enabled = true;
    cfg.proximity.target_device_mac = Some("AA:BB:CC:DD:EE:FF".to_string());
    cfg.proximity.grace_period_seconds = 4;
    let mut m = HardwareMonitor::new(false);
    let (_, walk) = m.tick(&cfg, "work", false, Some(-95));
    assert_eq!(walk, None);
    assert_eq!(m.consecutive_out_of_range, 1);
    let (_, walk) = m.tick(&cfg, "work", false, Some(-95));
    let action = walk.expect("lock after the grace period");
    assert!(m.proximity_locked);
    let n = proximity_notice(&action);
    assert_eq!(n.urgency, "critical");
    assert_eq!(n.body, "🛰️ Bluetooth device out of range: Locked session and engaged TRAVEL posture.");
}
