use postureflow::triggers::{
    default_triggers_config, evaluate_triggers, is_pid_name, process_key, sysctl_assignment, sysctl_reading,
    trigger_step, TriggerSession, TriggerStep,
};

#[test]
fn mod_test_default_config_integrity() {
    let cfg = default_triggers_config();
    assert!(cfg.enabled);
    assert_eq!(cfg.rules.len(), 3);
    assert!(cfg.rules.iter().any(|r| r.name.contains("Gaming")));
}

#[test]
fn test_rule_matching_steam() {
    let cfg = default_triggers_config();
    let running = vec!["bash".to_string(), "steam".to_string()];

    let matched = evaluate_triggers(&cfg, &running);
    assert!(matched.is_some());
    let m = matched.unwrap();
    assert!(m.rule_name.contains("Gaming"));
    assert_eq!(m.matched_processes, vec!["steam"]);
    assert_eq!(m.target_profile.as_deref(), Some("home"));
    assert_eq!(m.boost_cpu_epp.as_deref(), Some("performance"));
    assert_eq!(m.boost_sysctl.get("vm.max_map_count").unwrap(), "2147483642");
}

#[test]
fn test_rule_matching_dev() {
    let cfg = default_triggers_config();
    let running = vec!["cargo".to_string()];

    let matched = evaluate_triggers(&cfg, &running);
    assert!(matched.is_some());
    let m = matched.unwrap();
    assert!(m.rule_name.contains("Coding"));
    assert_eq!(m.matched_processes, vec!["cargo"]);
    assert_eq!(m.target_profile.as_deref(), Some("dev"));
}

#[test]
fn test_disabled_triggers_return_none() {
    let mut cfg = default_triggers_config();
    cfg.enabled = false;
    let running = vec!["steam".to_string()];

    assert!(evaluate_triggers(&cfg, &running).is_none());
}

#[test]
fn first_matching_rule_wins_and_names_are_lowercased() {
    let mut cfg = default_triggers_config();
    cfg.rules[1].process_names.push("Zoom".to_string());
    let running = vec!["zoom".to_string(), "slack".to_string()];
    let m = evaluate_triggers(&cfg, &running).unwrap();
    assert_eq!(m.rule_name, "Dev Containers & Coding Workload");
    assert_eq!(m.matched_processes, vec!["Zoom"]);
    assert!(evaluate_triggers(&cfg, &vec!["firefox".to_string()]).is_none());
}

#[test]
fn session_engages_and_reverts_to_baseline() {
    let cfg = default_triggers_config();
    let m = evaluate_triggers(&cfg, &vec!["steam".to_string()]).unwrap();
    let mut session = TriggerSession::default();
    assert_eq!(trigger_step(&session, true, &Some(evaluate_triggers(&cfg, &vec!["steam".to_string()]).unwrap())), TriggerStep::Engage);
    let readings = vec![("vm.max_map_count".to_string(), "65530".to_string())];
    let switch = session.engage(&m, "work", Some("balance_performance".to_string()), &readings);
    assert_eq!(switch.as_deref(), Some("home"));
    assert_eq!(session.active_rule_name.as_deref(), Some("Gaming & Steam Engine Boost"));
    assert_eq!(trigger_step(&session, true, &Some(m)), TriggerStep::Hold);
    assert_eq!(trigger_step(&session, true, &None), TriggerStep::Revert);
    assert_eq!(trigger_step(&session, false, &None), TriggerStep::Revert);
    let plan = session.revert("home");
    assert_eq!(plan.profile.as_deref(), Some("work"));
    assert_eq!(plan.cpu_epp.as_deref(), Some("balance_performance"));
    assert_eq!(plan.sysctls.get("vm.max_map_count").unwrap(), "65530");
    assert!(session.active_rule_name.is_none());
    assert!(session.baseline_sysctls.is_empty());
    assert_eq!(trigger_step(&session, true, &None), TriggerStep::Hold);
}

#[test]
fn another_rule_replaces_the_active_one() {
    let cfg = default_triggers_config();
    let gaming = evaluate_triggers(&cfg, &vec!["steam".to_string()]).unwrap();
    let coding = evaluate_triggers(&cfg, &vec!["cargo".to_string()]).unwrap();
    let mut session = TriggerSession::default();
    let none = session.engage(&gaming, "home", None, &Vec::new());
    assert_eq!(none, None);
    assert_eq!(trigger_step(&session, true, &Some(coding)), TriggerStep::Replace);
}

#[test]
fn process_table_helpers() {
    assert_eq!(process_key(" Steam\n").as_deref(), Some("steam"));
    assert_eq!(process_key("  \n"), None);
    assert!(is_pid_name("4242"));
    assert!(!is_pid_name("self"));
    assert_eq!(sysctl_assignment("vm.max_map_count", "2147483642"), "vm.max_map_count=2147483642");
    assert_eq!(sysctl_reading("65530\n"), "65530");
}
