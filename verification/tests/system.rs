use postureflow::config::builtin_profiles;
use postureflow::config::schema::PortRule;
use postureflow::profile::Profile;
use postureflow::system::{
    active_profile_from_state, apply_profile, apply_profile_by_id, clean_ufw_custom_rules, get_status_report,
    idle_delay_command, needs_ssh_anti_lockout, profile_plan, reset_plan, ssh_anti_lockout_rule, state_file_path,
    PlanStep, StepKind,
};

fn view(steps: &[PlanStep]) -> Vec<(StepKind, Vec<String>)> {
    steps.iter().map(|s| (s.kind, s.args.clone())).collect()
}

fn args(v: &[&str]) -> Vec<String> {
    v.iter().map(|s| s.to_string()).collect()
}

#[test]
fn unprivileged_apply_only_records_the_profile() {
    let plan = apply_profile(builtin_profiles(), Profile::Dev, false).unwrap();
    assert_eq!(view(&plan), vec![(StepKind::SaveState, args(&["dev"]))]);
}

#[test]
fn unknown_profile_is_reported() {
    let err = apply_profile_by_id(builtin_profiles(), "gaming", true).err().unwrap();
    assert_eq!(err, "Profile 'gaming' not found.");
}

#[test]
fn privileged_plan_orders_firewall_steps() {
    let mut p = builtin_profiles().into_iter().find(|p| p.profile.id == "work").unwrap();
    p.firewall.allow_interfaces = vec!["tun+".to_string(), "wg0".to_string()];
    p.firewall.allow_ports = vec![
        PortRule { port: "443/tcp".to_string(), comment: "".to_string() },
        PortRule { port: "5353/udp".to_string(), comment: "mDNS".to_string() },
    ];
    p.desktop.idle_delay_seconds = Some(300);
    p.power.power_profile = Some("battery".to_string());
    p.power.battery_charge_limit = Some(80);
    let steps = view(&profile_plan(&p, true));
    let kinds: Vec<StepKind> = steps.iter().map(|s| s.0).collect();
    let ufw_default = steps.iter().position(|s| s.1 == args(&["--force", "default", "deny", "incoming"])).unwrap();
    let first_cleanup = steps.iter().position(|s| s.1 == args(&["delete", "allow", "3000/tcp"])).unwrap();
    let pattern = steps.iter().position(|s| s.1 == args(&["allow", "in", "on", "tun+", "comment", "Profile Interface"])).unwrap();
    let iface = steps.iter().position(|s| s.1 == args(&["allow", "in", "on", "wg0", "comment", "Profile Interface"])).unwrap();
    let bare_port = steps.iter().position(|s| s.1 == args(&["allow", "443/tcp"])).unwrap();
    let commented = steps.iter().position(|s| s.1 == args(&["allow", "5353/udp", "comment", "mDNS"])).unwrap();
    assert!(ufw_default < first_cleanup && first_cleanup < pattern && pattern < iface && iface < bare_port && bare_port < commented);
    assert_eq!(steps[pattern].0, StepKind::Ufw);
    assert_eq!(steps[iface].0, StepKind::UfwOnInterface);
    let n = steps.len();
    assert_eq!(steps[0], (StepKind::EnsureSshSafety, Vec::new()));
    assert_eq!(steps[n - 5], (StepKind::Ufw, args(&["--force", "enable"])));
    assert_eq!(steps[n - 4], (StepKind::SetIdleDelay, args(&["300"])));
    assert_eq!(steps[n - 3], (StepKind::PowerProfile, args(&["battery"])));
    assert_eq!(steps[n - 2], (StepKind::ChargeLimit, args(&["80"])));
    assert_eq!(steps[n - 1], (StepKind::SaveState, args(&["work"])));
    assert_eq!(kinds.iter().filter(|k| **k == StepKind::WriteSysctlConf).count(), 1);
    let sysctl = steps.iter().find(|s| s.0 == StepKind::WriteSysctlConf).unwrap();
    assert!(sysctl.1[0].ends_with("\n"));
    assert!(sysctl.1[0].contains(" = "));
}

#[test]
fn cleanup_rules_and_reset() {
    let rules = clean_ufw_custom_rules();
    assert_eq!(rules.len(), 18);
    assert_eq!(rules[7], "3000:3005/tcp");
    assert_eq!(rules[17], "631/tcp");
    assert_eq!(
        view(&reset_plan(false)),
        vec![(StepKind::RemoveState, Vec::new()), (StepKind::SetIdleDelay, args(&["900"]))]
    );
    let full = view(&reset_plan(true));
    assert_eq!(full.len(), 9);
    assert_eq!(full[4], (StepKind::RemoveFile, args(&["/etc/sysctl.d/99-popos-security.conf"])));
    assert_eq!(full[8], (StepKind::ChargeLimit, args(&["100"])));
}

#[test]
fn state_and_status_helpers() {
    assert_eq!(state_file_path(Some("/x/state"), true, None), "/x/state");
    assert_eq!(state_file_path(None, true, Some("/run/user/1000")), "/etc/popos-security-profile");
    assert_eq!(state_file_path(None, false, Some("/run/user/1000")), "/run/user/1000/popos-security-profile");
    assert_eq!(state_file_path(None, false, None), "/tmp/popos-security-profile");
    assert_eq!(active_profile_from_state(Some(" work\n")), "work");
    assert_eq!(active_profile_from_state(Some("  \n")), "default");
    assert_eq!(active_profile_from_state(None), "default");
    assert!(needs_ssh_anti_lockout(true, None));
    assert!(needs_ssh_anti_lockout(false, Some("tcp LISTEN 0 128 0.0.0.0:22 0.0.0.0:*")));
    assert!(!needs_ssh_anti_lockout(false, Some("tcp LISTEN 0 128 0.0.0.0:80 0.0.0.0:*")));
    assert_eq!(ssh_anti_lockout_rule(), args(&["allow", "22/tcp", "comment", "SSH Anti-Lockout"]));
    assert_eq!(
        idle_delay_command(Some("alice"), Some("1000\n"), 300),
        ("sudo".to_string(), args(&["-u", "alice", "DBUS_SESSION_BUS_ADDRESS=unix:path=/run/user/1000/bus", "gsettings", "set", "org.gnome.desktop.session", "idle-delay", "300"]))
    );
    assert_eq!(
        idle_delay_command(None, None, 900),
        ("gsettings".to_string(), args(&["set", "org.gnome.desktop.session", "idle-delay", "900"]))
    );
    assert_eq!(
        get_status_report("dev", Some("1"), None, Some("65530"), None),
        "Active Profile: DEV\nptrace_scope: 1\ninotify watches: N/A\nvm.max_map_count: 65530\nUFW Status:\ninactive"
    );
}

#[test]
fn every_builtin_plan_opens_ssh_first_and_loopback_before_enabling() {
    for p in builtin_profiles() {
        let plan = view(&profile_plan(&p, true));
        let enable = (StepKind::Ufw, args(&["--force", "enable"]));
        assert_eq!(plan[0], (StepKind::EnsureSshSafety, Vec::new()));
        let k = plan.iter().position(|s| *s == enable).unwrap();
        assert_eq!(plan.iter().filter(|s| **s == enable).count(), 1);
        let lo_in = plan.iter().position(|s| *s == (StepKind::Ufw, args(&["allow", "in", "on", "lo"]))).unwrap();
        assert_eq!(plan[lo_in + 1], (StepKind::Ufw, args(&["allow", "out", "on", "lo"])));
        assert!(0 < lo_in && lo_in + 1 < k);
        assert!(plan
            .iter()
            .all(|s| s.0 != StepKind::RemoveFile && s.0 != StepKind::RemoveState && s.0 != StepKind::ReloadAllSysctl));
    }
    let removed: Vec<Vec<String>> =
        view(&reset_plan(true)).into_iter().filter(|s| s.0 == StepKind::RemoveFile).map(|s| s.1).collect();
    assert_eq!(
        removed,
        vec![args(&["/etc/sysctl.d/99-popos-security.conf"]), args(&["/etc/security/limits.d/99-popos-security.conf"])]
    );
}
