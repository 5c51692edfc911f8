use postureflow::schedule::{
    battery_status_from, default_schedule_config, evaluate_schedule, is_time_in_range, matches_weekday, BatteryInfo,
    LocalTime, PowerSupplyEntry, ScheduleDecision, TimeOfDay,
};

#[test]
fn test_default_config_integrity() {
    let cfg = default_schedule_config();
    assert!(cfg.enabled);
    assert_eq!(cfg.check_interval_seconds, 10);
    assert_eq!(cfg.battery_emergency.threshold_percent, 15);
    assert_eq!(cfg.schedules.len(), 3);
}

#[test]
fn test_time_of_day_parsing() {
    let t1 = TimeOfDay::parse("09:00").unwrap();
    assert_eq!(t1.hour, 9);
    assert_eq!(t1.minute, 0);

    let t2 = TimeOfDay::parse("23:59").unwrap();
    assert_eq!(t2.hour, 23);
    assert_eq!(t2.minute, 59);

    assert!(TimeOfDay::parse("24:00").is_none());
    assert!(TimeOfDay::parse("09:60").is_none());
    assert!(TimeOfDay::parse("invalid").is_none());
}

#[test]
fn test_time_in_range_standard() {
    let start = TimeOfDay::parse("09:00").unwrap();
    let end = TimeOfDay::parse("17:00").unwrap();

    assert!(is_time_in_range(TimeOfDay::parse("09:00").unwrap(), start, end));
    assert!(is_time_in_range(TimeOfDay::parse("12:30").unwrap(), start, end));
    assert!(is_time_in_range(TimeOfDay::parse("16:59").unwrap(), start, end));

    assert!(!is_time_in_range(TimeOfDay::parse("08:59").unwrap(), start, end));
    assert!(!is_time_in_range(TimeOfDay::parse("17:00").unwrap(), start, end));
    assert!(!is_time_in_range(TimeOfDay::parse("20:00").unwrap(), start, end));
}

#[test]
fn test_time_in_range_midnight_crossover() {
    let start = TimeOfDay::parse("23:00").unwrap();
    let end = TimeOfDay::parse("07:00").unwrap();

    assert!(is_time_in_range(TimeOfDay::parse("23:00").unwrap(), start, end));
    assert!(is_time_in_range(TimeOfDay::parse("23:45").unwrap(), start, end));
    assert!(is_time_in_range(TimeOfDay::parse("00:00").unwrap(), start, end));
    assert!(is_time_in_range(TimeOfDay::parse("03:30").unwrap(), start, end));
    assert!(is_time_in_range(TimeOfDay::parse("06:59").unwrap(), start, end));

    assert!(!is_time_in_range(TimeOfDay::parse("07:00").unwrap(), start, end));
    assert!(!is_time_in_range(TimeOfDay::parse("12:00").unwrap(), start, end));
    assert!(!is_time_in_range(TimeOfDay::parse("22:59").unwrap(), start, end));
}

#[test]
fn test_matches_weekday() {
    let weekdays = vec!["Mon".to_string(), "Tue".to_string(), "Wed".to_string(), "Thu".to_string(), "Fri".to_string()];
    assert!(matches_weekday(1, &weekdays));
    assert!(matches_weekday(5, &weekdays));
    assert!(!matches_weekday(0, &weekdays));
    assert!(!matches_weekday(6, &weekdays));

    let weekends = vec!["Weekends".to_string()];
    assert!(matches_weekday(0, &weekends));
    assert!(matches_weekday(6, &weekends));
    assert!(!matches_weekday(2, &weekends));

    let any_day = vec!["*".to_string()];
    assert!(matches_weekday(3, &any_day));
}

#[test]
fn test_battery_emergency_trigger() {
    let cfg = default_schedule_config();
    let now = LocalTime { hour: 12, minute: 0, weekday: 1 };
    let battery_discharging_low = BatteryInfo {
        capacity_percent: Some(10),
        status: "Discharging".to_string(),
        is_discharging: true,
        on_ac_power: false,
    };

    let decision = evaluate_schedule(&cfg, &now, &battery_discharging_low);
    match decision {
        Some(ScheduleDecision::BatteryEmergency { battery_percent, target_profile, .. }) => {
            assert_eq!(battery_percent, 10);
            assert_eq!(target_profile, "travel");
        }
        _ => panic!("Expected BatteryEmergency decision"),
    }
}

#[test]
fn test_battery_emergency_suppressed_on_ac() {
    let cfg = default_schedule_config();
    let now = LocalTime { hour: 12, minute: 0, weekday: 1 };
    let battery_charging_low = BatteryInfo {
        capacity_percent: Some(10),
        status: "Charging".to_string(),
        is_discharging: false,
        on_ac_power: true,
    };

    let decision = evaluate_schedule(&cfg, &now, &battery_charging_low);
    match decision {
        Some(ScheduleDecision::ScheduledShift { target_profile, .. }) => {
            assert_eq!(target_profile, "work");
        }
        _ => panic!("Expected ScheduledShift to 'work' profile, got: {:?}", decision),
    }
}

#[test]
fn window_and_its_complement_cover_the_day_once() {
    let start = TimeOfDay::parse("22:00").unwrap();
    let end = TimeOfDay::parse("06:00").unwrap();
    for h in 0..24u32 {
        for m in [0u32, 30, 59] {
            let t = TimeOfDay { hour: h, minute: m };
            assert_ne!(is_time_in_range(t, start, end), is_time_in_range(t, end, start));
        }
    }
}

#[test]
fn disabled_schedule_decides_nothing() {
    let mut cfg = default_schedule_config();
    cfg.enabled = false;
    let now = LocalTime { hour: 12, minute: 0, weekday: 1 };
    let battery = BatteryInfo { capacity_percent: Some(5), status: "Discharging".to_string(), is_discharging: true, on_ac_power: false };
    assert!(evaluate_schedule(&cfg, &now, &battery).is_none());
}

fn entry(name: &str, kind: Option<&str>, online: Option<&str>, scope: Option<&str>, capacity: Option<&str>, status: Option<&str>) -> PowerSupplyEntry {
    PowerSupplyEntry {
        name: name.to_string(),
        kind: kind.map(|s| s.to_string()),
        online: online.map(|s| s.to_string()),
        scope: scope.map(|s| s.to_string()),
        capacity: capacity.map(|s| s.to_string()),
        status: status.map(|s| s.to_string()),
    }
}

#[test]
fn battery_status_prefers_system_battery_over_peripherals() {
    let entries = vec![
        entry("AC", Some("Mains\n"), Some("0\n"), None, None, None),
        entry("hidpp_battery_0", Some("Battery\n"), None, Some("Device\n"), Some("80\n"), Some("Discharging\n")),
        entry("BAT0", Some("Battery\n"), None, None, Some("42\n"), Some("Discharging\n")),
    ];
    let b = battery_status_from(&entries);
    assert_eq!(b.capacity_percent, Some(42));
    assert_eq!(b.status, "Discharging");
    assert!(b.is_discharging);
    assert!(!b.on_ac_power);

    let plugged = vec![entry("ADP1", Some("mains"), Some("1"), None, None, None)];
    let b = battery_status_from(&plugged);
    assert!(b.on_ac_power);
    assert_eq!(b.capacity_percent, None);
    assert_eq!(b.status, "Unknown");
}

#[test]
fn weekday_names() {
    assert_eq!(LocalTime { hour: 0, minute: 0, weekday: 0 }.weekday_name(), "Sunday");
    assert_eq!(LocalTime { hour: 0, minute: 0, weekday: 6 }.weekday_name(), "Saturday");
    assert_eq!(LocalTime { hour: 0, minute: 0, weekday: 9 }.weekday_name(), "Unknown");
}

#[test]
fn default_schedule_windows_and_days() {
    let cfg = default_schedule_config();
    let office = &cfg.schedules[0];
    assert_eq!(office.name, "Workday Office Hours");
    assert_eq!(office.days, vec!["Mon", "Tue", "Wed", "Thu", "Fri"]);
    assert_eq!((office.start_time.as_str(), office.end_time.as_str()), ("09:00", "17:00"));
    assert_eq!(office.target_profile, "work");
    let week = vec!["Mon", "Tue", "Wed", "Thu", "Fri", "Sat", "Sun"];
    assert_eq!(cfg.schedules[1].days, week);
    assert_eq!(cfg.schedules[1].target_profile, "home");
    assert_eq!(cfg.schedules[2].days, week);
    assert_eq!((cfg.schedules[2].start_time.as_str(), cfg.schedules[2].end_time.as_str()), ("23:00", "07:00"));
    assert_eq!(cfg.schedules[2].target_profile, "travel");
    let b = &cfg.battery_emergency;
    assert_eq!(b.force_cpu_epp.as_deref(), Some("power"));
    assert!(b.disable_bluetooth && b.auto_recover_on_ac && b.enabled);
    assert_eq!(b.target_profile, "travel");
}

#[test]
fn default_schedule_is_quiet_at_weekend_noon() {
    let cfg = default_schedule_config();
    let now = LocalTime { hour: 12, minute: 0, weekday: 6 };
    let battery = BatteryInfo {
        capacity_percent: Some(80),
        status: "Charging".to_string(),
        is_discharging: false,
        on_ac_power: true,
    };
    assert!(evaluate_schedule(&cfg, &now, &battery).is_none());
}
