use postureflow::config::schema::{
    DesktopConfig, FirewallConfig, FrameworkPowerConfig, PeripheralsConfig, PortRule, ProfileConfig, ProfileMetadata,
    SecurityLimitsConfig,
};
use postureflow::platform::{
    windows_firewall_commands, windows_idle_commands, windows_power_scheme, SCHEME_BALANCED, SCHEME_MAX_PERF, SCHEME_MIN_POWER,
};
use postureflow::strmap::StringMap;

fn config(id: &str) -> ProfileConfig {
    ProfileConfig {
        profile: ProfileMetadata {
            id: id.to_string(),
            name: "Windows".to_string(),
            description: "d".to_string(),
            icon: "i".to_string(),
            version: "1.0.0".to_string(),
            author: "a".to_string(),
            is_builtin: false,
        },
        kernel: StringMap::new(),
        limits: SecurityLimitsConfig::default(),
        firewall: FirewallConfig::default(),
        power: FrameworkPowerConfig::default(),
        peripherals: PeripheralsConfig::default(),
        desktop: DesktopConfig::default(),
    }
}

fn strs(v: &[String]) -> Vec<&str> {
    v.iter().map(|s| s.as_str()).collect()
}

#[test]
fn power_scheme_per_profile() {
    assert_eq!(windows_power_scheme("dev"), SCHEME_MAX_PERF);
    assert_eq!(windows_power_scheme("travel"), SCHEME_MIN_POWER);
    assert_eq!(windows_power_scheme("home"), SCHEME_BALANCED);
    assert_eq!(windows_power_scheme("work"), SCHEME_BALANCED);
    assert_eq!(SCHEME_MAX_PERF, "8c5e7fda-e8bf-4a96-9a85-a6e23a8c635c");
}

#[test]
fn idle_commands_round_to_minutes() {
    let c = windows_idle_commands(300);
    assert_eq!(c.len(), 4);
    assert_eq!(strs(&c[0]), vec!["/change", "monitor-timeout-ac", "5"]);
    assert_eq!(strs(&c[1]), vec!["/change", "monitor-timeout-dc", "5"]);
    assert_eq!(strs(&c[2]), vec!["/change", "standby-timeout-ac", "10"]);
    assert_eq!(strs(&c[3]), vec!["/change", "standby-timeout-dc", "5"]);
    let short = windows_idle_commands(30);
    assert_eq!(strs(&short[0]), vec!["/change", "monitor-timeout-ac", "1"]);
    assert_eq!(strs(&short[2]), vec!["/change", "standby-timeout-ac", "2"]);
}

#[test]
fn firewall_commands_for_a_travel_profile() {
    let mut c = config("travel");
    c.firewall.default_incoming = "deny".to_string();
    c.firewall.default_outgoing = "block".to_string();
    c.firewall.allow_ports.push(PortRule { port: "8080/tcp".to_string(), comment: "web".to_string() });
    c.firewall.allow_ports.push(PortRule { port: "5353/udp".to_string(), comment: String::new() });
    let cmds = windows_firewall_commands(&c);
    assert_eq!(cmds.len(), 1 + 10 + 2 + 2 + 2 + 1);
    assert_eq!(strs(&cmds[0]), vec!["advfirewall", "set", "allprofiles", "firewallpolicy", "blockinbound,blockoutbound"]);
    assert_eq!(strs(&cmds[1]), vec!["advfirewall", "firewall", "delete", "rule", "name=PostureFlow-Port-3000"]);
    assert_eq!(strs(&cmds[11])[4], "name=PostureFlow-Loopback-In");
    assert_eq!(strs(&cmds[14])[4], "name=PostureFlow-AntiLockout-SSH");
    assert_eq!(
        strs(&cmds[15]),
        vec![
            "advfirewall", "firewall", "add", "rule", "name=PostureFlow-Port-8080/tcp", "dir=in", "action=allow",
            "protocol=TCP", "localport=8080", "enable=yes", "description=web",
        ]
    );
    assert_eq!(
        strs(&cmds[16]),
        vec![
            "advfirewall", "firewall", "add", "rule", "name=PostureFlow-Port-5353/udp", "dir=in", "action=allow",
            "protocol=UDP", "localport=5353", "enable=yes",
        ]
    );
    assert_eq!(strs(&cmds[17])[4], "name=PostureFlow-Block-ICMP");
}

#[test]
fn firewall_commands_without_loopback_or_stealth() {
    let mut c = config("home");
    c.firewall.default_incoming = "allow".to_string();
    c.firewall.allow_loopback = false;
    let cmds = windows_firewall_commands(&c);
    assert_eq!(cmds.len(), 1 + 10 + 2);
    assert_eq!(strs(&cmds[0])[4], "allowinbound,allowoutbound");
    assert_eq!(strs(&cmds[11])[4], "name=PostureFlow-AntiLockout-RDP");
}
