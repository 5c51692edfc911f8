use postureflow::config::schema::{
    DesktopConfig, FirewallConfig, FrameworkPowerConfig, PeripheralsConfig, PortRule, ProfileConfig,
    ProfileMetadata, SecurityLimitsConfig,
};
use postureflow::config::validator::validate_and_sanitize;
use postureflow::config::{
    builtin_profiles, custom_profile_not_found, custom_profile_to_delete, find_profile, load_all_profiles, prepare_custom_profile,
    profile_file_name,
};
use postureflow::strmap::StringMap;

fn sample_config() -> ProfileConfig {
    ProfileConfig {
        profile: ProfileMetadata {
            id: "ai-dev".to_string(),
            name: "AI Development".to_string(),
            description: "Test description".to_string(),
            icon: "utilities-terminal-symbolic".to_string(),
            version: "1.0.0".to_string(),
            author: "Test".to_string(),
            is_builtin: false,
        },
        kernel: StringMap::new(),
        limits: SecurityLimitsConfig::default(),
        firewall: FirewallConfig::default(),
        power: FrameworkPowerConfig::default(),
        peripherals: PeripheralsConfig::default(),
        desktop: DesktopConfig::default(),
    }
}

#[test]
fn test_valid_profile() {
    let mut cfg = sample_config();
    cfg.firewall.allow_ports.push(PortRule { port: "8080/tcp".to_string(), comment: "Web".to_string() });
    cfg.kernel.insert("vm.max_map_count".to_string(), "2147483642".to_string());

    let res = validate_and_sanitize(cfg);
    assert!(res.is_ok());
    let report = res.unwrap();
    assert!(report.is_valid);
    assert_eq!(report.sanitized_config.profile.id, "ai-dev");
}

#[test]
fn test_loopback_safety_enforced() {
    let mut cfg = sample_config();
    cfg.firewall.allow_loopback = false;

    let res = validate_and_sanitize(cfg).unwrap();
    assert!(res.sanitized_config.firewall.allow_loopback, "Loopback must be enforced to true");
    assert!(!res.warnings.is_empty());
}

#[test]
fn test_bpf_lock_prevented() {
    let mut cfg = sample_config();
    cfg.kernel.insert("kernel.unprivileged_bpf_disabled".to_string(), "1".to_string());

    let res = validate_and_sanitize(cfg).unwrap();
    assert_eq!(
        res.sanitized_config.kernel.get("kernel.unprivileged_bpf_disabled").unwrap(),
        "2",
        "eBPF lock value 1 must be sanitized to 2"
    );
}

#[test]
fn test_disallow_core_pattern_pipe() {
    let mut cfg = sample_config();
    cfg.kernel.insert("kernel.core_pattern".to_string(), "|/tmp/malicious.sh".to_string());

    let res = validate_and_sanitize(cfg);
    assert!(res.is_err());
}

#[test]
fn test_disallow_unwhitelisted_sysctl() {
    let mut cfg = sample_config();
    cfg.kernel.insert("user.max_user_namespaces".to_string(), "0".to_string());

    let res = validate_and_sanitize(cfg);
    assert!(res.is_err());
}

#[test]
fn test_invalid_port_format() {
    let mut cfg = sample_config();
    cfg.firewall.allow_ports.push(PortRule { port: "invalid_port".to_string(), comment: "".to_string() });
    assert!(validate_and_sanitize(cfg).is_err());
}

#[test]
fn test_cpu_epp_validation() {
    let mut cfg = sample_config();
    cfg.power.cpu_epp = Some("performance".to_string());
    let res = validate_and_sanitize(cfg.clone());
    assert!(res.is_ok());

    cfg.power.cpu_epp = Some("invalid_mode".to_string());
    let res_err = validate_and_sanitize(cfg);
    assert!(res_err.is_err());
}

#[test]
fn builtin_profiles_all_pass_validation() {
    let builtins = builtin_profiles();
    let ids: Vec<String> = builtins.iter().map(|p| p.profile.id.clone()).collect();
    assert_eq!(ids, vec!["home", "work", "dev", "travel"]);
    for p in builtins {
        let report = validate_and_sanitize(p).expect("built-in profile must validate");
        assert!(report.is_valid);
    }
}

#[test]
fn catalog_ignores_invalid_and_duplicate_candidates() {
    let mut bad = sample_config();
    bad.kernel.insert("kernel.core_pattern".to_string(), "|/tmp/x".to_string());
    let mut dup = sample_config();
    dup.profile.id = "home".to_string();
    let good = sample_config();
    let all = load_all_profiles(vec![bad, dup, good]);
    let ids: Vec<String> = all.iter().map(|p| p.profile.id.clone()).collect();
    assert_eq!(ids, vec!["home", "work", "dev", "travel", "ai-dev"]);
}

#[test]
fn find_profile_maps_secure_to_travel_and_ignores_case() {
    let found = find_profile(builtin_profiles(), "  SECURE ").expect("secure names travel");
    assert_eq!(found.profile.id, "travel");
    let dev = find_profile(builtin_profiles(), "Dev").expect("dev exists");
    assert_eq!(dev.profile.id, "dev");
    assert!(find_profile(builtin_profiles(), "gaming").is_none());
}

#[test]
fn string_map_keeps_first_position_and_replaces_value() {
    let mut m = StringMap::new();
    assert_eq!(m.insert("a".to_string(), "1".to_string()), None);
    assert_eq!(m.insert("b".to_string(), "2".to_string()), None);
    assert_eq!(m.insert("a".to_string(), "3".to_string()), Some("1".to_string()));
    assert_eq!(m.len(), 2);
    assert_eq!(m.key_at(0), "a");
    assert_eq!(m.value_at(0), "3");
    assert_eq!(m.get("b").unwrap(), "2");
    assert!(!m.contains_key("c"));
}

#[test]
fn custom_profiles_are_sanitized_and_builtins_refused() {
    let mut cfg = sample_config();
    cfg.firewall.allow_loopback = false;
    let saved = prepare_custom_profile(cfg).unwrap();
    assert!(saved.firewall.allow_loopback);
    assert_eq!(profile_file_name(&saved.profile.id), "ai-dev.postureflow.toml");

    let mut builtin = sample_config();
    builtin.profile.is_builtin = true;
    assert_eq!(prepare_custom_profile(builtin).unwrap_err(), "Built-in profiles cannot be overwritten.");

    let mut bad = sample_config();
    bad.firewall.allow_ports.push(PortRule { port: "80; rm -rf".to_string(), comment: String::new() });
    assert!(prepare_custom_profile(bad).is_err());
}

#[test]
fn deleting_custom_profiles() {
    assert_eq!(custom_profile_to_delete("  AI-Dev "), Ok("ai-dev".to_string()));
    assert_eq!(custom_profile_to_delete("Secure"), Err("Cannot delete built-in system profile.".to_string()));
    assert_eq!(custom_profile_to_delete("home"), Err("Cannot delete built-in system profile.".to_string()));
    assert_eq!(custom_profile_not_found("ai-dev"), "Custom profile 'ai-dev' not found.");
}

#[test]
fn every_catalog_profile_allows_loopback() {
    let mut cfg = sample_config();
    cfg.firewall.allow_loopback = false;
    let catalog = load_all_profiles(vec![cfg]);
    assert_eq!(catalog.len(), 5);
    assert!(catalog.iter().all(|p| p.firewall.allow_loopback));
}

#[test]
fn builtin_kernel_settings_in_order() {
    let profiles = builtin_profiles();
    let home = &profiles[0];
    assert_eq!(home.kernel.len(), 12);
    assert_eq!(home.kernel.key_at(0), "kernel.yama.ptrace_scope");
    assert_eq!(home.kernel.get("vm.max_map_count").map(|s| s.as_str()), Some("1048576"));
    let travel = &profiles[3];
    assert_eq!(travel.kernel.get("kernel.yama.ptrace_scope").map(|s| s.as_str()), Some("2"));
    assert_eq!(travel.kernel.key_at(travel.kernel.len() - 1), "net.ipv4.icmp_ignore_bogus_error_responses");
}

#[test]
fn pipes_are_refused_anywhere_in_dump_settings() {
    let mut a = sample_config();
    a.kernel.insert("fs.suid_dumpable".to_string(), "2|/tmp/x".to_string());
    assert_eq!(
        validate_and_sanitize(a).err(),
        Some("Piping fs.suid_dumpable to arbitrary programs is disallowed for security.".to_string())
    );
    let mut b = sample_config();
    b.kernel.insert("kernel.core_pattern".to_string(), "core|/tmp/x".to_string());
    assert_eq!(
        validate_and_sanitize(b).err(),
        Some("Piping kernel.core_pattern to arbitrary programs is disallowed for security.".to_string())
    );
    let mut c = sample_config();
    c.kernel.insert("kernel.core_pattern".to_string(), "core".to_string());
    assert!(validate_and_sanitize(c).is_ok());
}

#[test]
fn builtin_profiles_match_the_profile_table() {
    let ps = builtin_profiles();
    let ids: Vec<&str> = ps.iter().map(|p| p.profile.id.as_str()).collect();
    assert_eq!(ids, vec!["home", "work", "dev", "travel"]);
    let get = |p: &ProfileConfig, k: &str| p.kernel.get(k).map(|s| s.to_string());
    let ptrace: Vec<Option<String>> = ps.iter().map(|p| get(p, "kernel.yama.ptrace_scope")).collect();
    assert_eq!(ptrace, vec![Some("1".to_string()), Some("1".to_string()), Some("1".to_string()), Some("2".to_string())]);
    let suid: Vec<Option<String>> = ps.iter().map(|p| get(p, "fs.suid_dumpable")).collect();
    assert_eq!(suid, vec![Some("2".to_string()), Some("0".to_string()), Some("2".to_string()), Some("0".to_string())]);
    assert_eq!(get(&ps[0], "vm.max_map_count"), Some("1048576".to_string()));
    assert!(ps[3].firewall.allow_ports.is_empty());
    assert!(ps[1].firewall.allow_interfaces.contains(&"tun+".to_string()));
    assert!(ps[1].firewall.allow_interfaces.contains(&"wg+".to_string()));
    let idle: Vec<Option<u32>> = ps.iter().map(|p| p.desktop.idle_delay_seconds).collect();
    assert_eq!(idle, vec![Some(1800), Some(300), Some(900), Some(300)]);
    assert!(ps.iter().all(|p| p.profile.is_builtin
        && p.firewall.allow_loopback
        && p.firewall.default_incoming == "deny"
        && p.firewall.default_outgoing == "allow"));
}

#[test]
fn builtin_ids_find_the_builtin_profiles() {
    let mut custom = sample_config();
    custom.profile.id = "lab".to_string();
    let catalog = load_all_profiles(vec![custom]);
    let travel = find_profile(load_all_profiles(Vec::new()), " SECURE ").unwrap();
    assert_eq!(travel.profile.id, "travel");
    assert_eq!(travel.desktop.idle_delay_seconds, Some(300));
    assert_eq!(find_profile(catalog, "Home").unwrap().profile.id, "home");
}

#[test]
fn catalog_profiles_revalidate_unchanged() {
    let mut c = sample_config();
    c.profile.id = "  Lab-1 ".to_string();
    c.firewall.allow_loopback = false;
    c.kernel.insert("kernel.unprivileged_bpf_disabled".to_string(), "1".to_string());
    let first = validate_and_sanitize(c).unwrap();
    assert_eq!(first.warnings.len(), 2);
    let again = validate_and_sanitize(first.sanitized_config.clone()).unwrap();
    assert!(again.warnings.is_empty());
    assert_eq!(again.sanitized_config.profile.id, "lab-1");
    assert_eq!(again.sanitized_config.profile.id, first.sanitized_config.profile.id);
    assert_eq!(
        again.sanitized_config.kernel.get("kernel.unprivileged_bpf_disabled").map(|s| s.as_str()),
        Some("2")
    );
    let catalog = load_all_profiles(vec![first.sanitized_config.clone(), sample_config()]);
    let ids: Vec<&str> = catalog.iter().map(|p| p.profile.id.as_str()).collect();
    assert_eq!(ids, vec!["home", "work", "dev", "travel", "lab-1", "ai-dev"]);
}
