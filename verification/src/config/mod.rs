//! Posture profiles: their schema, validation, the built-in set, and the
//! catalog that merges custom profiles into it.
pub mod schema;
pub mod validator;

use vstd::prelude::*;
use crate::strmap::{StringMap, put_all, text_pairs};
use crate::text::{owned, to_lower, trim_str, str_eq, lowercased, trimmed, join2, join3};
use schema::{
    ProfileConfig, ProfileMetadata, SecurityLimitsConfig, PortRule, FirewallConfig,
    FrameworkPowerConfig, PeripheralsConfig, DesktopConfig,
};
use validator::{validate_and_sanitize, views_of, profile_error, is_sanitized_form, normalized, profile_warnings, lemma_revalidation_fixed};

verus! {

/// The views of the port rules: (port, comment) pairs.
pub open spec fn port_rule_views(v: Seq<PortRule>) -> Seq<(Seq<char>, Seq<char>)> {
    v.map_values(|r: PortRule| (r.port@, r.comment@))
}

fn port_rule(port: &str, comment: &str) -> (r: PortRule)
    ensures
        r.port@ == port@,
        r.comment@ == comment@,
{
    PortRule { port: owned(port), comment: owned(comment) }
}

/// The contents of the built-in Home profile.
pub open spec fn is_builtin_home(p: ProfileConfig) -> bool {
    &&& p.profile.id@ == "home"@
    &&& p.profile.name@ == "Home / Streaming / Gaming"@
    &&& p.profile.description@ == "LAN discovery, Steam Remote Play, GSConnect, and relaxed gaming map counts."@
    &&& p.profile.icon@ == "user-home-symbolic"@
    &&& p.profile.version@ == "1.0.0"@
    &&& p.profile.author@ == "Pop!_OS"@
    &&& p.profile.is_builtin
    &&& p.kernel.pairs() == put_all(
        Seq::empty(),
        seq![
            ("kernel.yama.ptrace_scope"@, "1"@),
            ("kernel.dmesg_restrict"@, "0"@),
            ("kernel.kptr_restrict"@, "1"@),
            ("kernel.unprivileged_bpf_disabled"@, "2"@),
            ("fs.suid_dumpable"@, "2"@),
            ("vm.max_map_count"@, "1048576"@),
            ("fs.inotify.max_user_watches"@, "524288"@),
            ("fs.inotify.max_user_instances"@, "512"@),
            ("net.ipv4.conf.all.rp_filter"@, "1"@),
            ("net.ipv4.conf.default.rp_filter"@, "1"@),
            ("net.ipv4.tcp_syncookies"@, "1"@),
            ("net.ipv4.tcp_rfc1337"@, "1"@),
        ],
    )
    &&& p.limits.core_dump is None && p.limits.nofile_soft is None && p.limits.nofile_hard is None
    &&& p.firewall.default_incoming@ == "deny"@
    &&& p.firewall.default_outgoing@ == "allow"@
    &&& p.firewall.allow_loopback
    &&& p.firewall.allow_interfaces@.len() == 0
    &&& port_rule_views(p.firewall.allow_ports@) == seq![
            ("27031:27036/udp"@, "Steam Remote Play"@),
            ("27036:27037/tcp"@, "Steam Remote Play"@),
            ("27040/tcp"@, "Steam LAN Game Download"@),
            ("1714:1764/tcp"@, "GSConnect Phone Sync"@),
            ("1714:1764/udp"@, "GSConnect Phone Sync"@),
            ("53317/tcp"@, "LocalSend File Share"@),
            ("53317/udp"@, "LocalSend File Share"@),
            ("5353/udp"@, "mDNS Chromecast"@)
        ]
    &&& p.power.battery_charge_limit == Some(85u32)
    &&& p.power.power_profile is Some && p.power.power_profile->0@ == "balanced"@
    &&& p.power.cpu_epp is Some && p.power.cpu_epp->0@ == "balance_performance"@
    &&& p.peripherals.block_new_usb == Some(false)
    &&& p.peripherals.bluetooth == Some(true)
    &&& p.desktop.idle_delay_seconds == Some(1800u32)
}

/// The built-in Home profile.
pub fn builtin_home() -> (r: ProfileConfig)
    ensures
        is_builtin_home(r),
        r.kernel.wf(),
{
    let kernel_pairs = [
        ("kernel.yama.ptrace_scope", "1"),
        ("kernel.dmesg_restrict", "0"),
        ("kernel.kptr_restrict", "1"),
        ("kernel.unprivileged_bpf_disabled", "2"),
        ("fs.suid_dumpable", "2"),
        ("vm.max_map_count", "1048576"),
        ("fs.inotify.max_user_watches", "524288"),
        ("fs.inotify.max_user_instances", "512"),
        ("net.ipv4.conf.all.rp_filter", "1"),
        ("net.ipv4.conf.default.rp_filter", "1"),
        ("net.ipv4.tcp_syncookies", "1"),
        ("net.ipv4.tcp_rfc1337", "1"),
    ];
    let kernel = StringMap::from_pairs(&kernel_pairs);
    assert(text_pairs(kernel_pairs@) =~= seq![
        ("kernel.yama.ptrace_scope"@, "1"@),
        ("kernel.dmesg_restrict"@, "0"@),
        ("kernel.kptr_restrict"@, "1"@),
        ("kernel.unprivileged_bpf_disabled"@, "2"@),
        ("fs.suid_dumpable"@, "2"@),
        ("vm.max_map_count"@, "1048576"@),
        ("fs.inotify.max_user_watches"@, "524288"@),
        ("fs.inotify.max_user_instances"@, "512"@),
        ("net.ipv4.conf.all.rp_filter"@, "1"@),
        ("net.ipv4.conf.default.rp_filter"@, "1"@),
        ("net.ipv4.tcp_syncookies"@, "1"@),
        ("net.ipv4.tcp_rfc1337"@, "1"@),
    ]);
    let ports = vec![
        port_rule("27031:27036/udp", "Steam Remote Play"),
        port_rule("27036:27037/tcp", "Steam Remote Play"),
        port_rule("27040/tcp", "Steam LAN Game Download"),
        port_rule("1714:1764/tcp", "GSConnect Phone Sync"),
        port_rule("1714:1764/udp", "GSConnect Phone Sync"),
        port_rule("53317/tcp", "LocalSend File Share"),
        port_rule("53317/udp", "LocalSend File Share"),
        port_rule("5353/udp", "mDNS Chromecast"),
    ];
    assert(port_rule_views(ports@) =~= seq![("27031:27036/udp"@, "Steam Remote Play"@), ("27036:27037/tcp"@, "Steam Remote Play"@), ("27040/tcp"@, "Steam LAN Game Download"@), ("1714:1764/tcp"@, "GSConnect Phone Sync"@), ("1714:1764/udp"@, "GSConnect Phone Sync"@), ("53317/tcp"@, "LocalSend File Share"@), ("53317/udp"@, "LocalSend File Share"@), ("5353/udp"@, "mDNS Chromecast"@)]);
    let interfaces: Vec<String> = Vec::new();
    ProfileConfig {
        profile: ProfileMetadata {
            id: owned("home"),
            name: owned("Home / Streaming / Gaming"),
            description: owned("LAN discovery, Steam Remote Play, GSConnect, and relaxed gaming map counts."),
            icon: owned("user-home-symbolic"),
            version: owned("1.0.0"),
            author: owned("Pop!_OS"),
            is_builtin: true,
        },
        kernel,
        limits: SecurityLimitsConfig { core_dump: None, nofile_soft: None, nofile_hard: None },
        firewall: FirewallConfig {
            default_incoming: owned("deny"),
            default_outgoing: owned("allow"),
            allow_loopback: true,
            allow_interfaces: interfaces,
            allow_ports: ports,
        },
        power: FrameworkPowerConfig {
            battery_charge_limit: Some(85),
            power_profile: Some(owned("balanced")),
            cpu_epp: Some(owned("balance_performance")),
        },
        peripherals: PeripheralsConfig { block_new_usb: Some(false), bluetooth: Some(true) },
        desktop: DesktopConfig { idle_delay_seconds: Some(1800) },
    }
}

/// The contents of the built-in Work profile.
pub open spec fn is_builtin_work(p: ProfileConfig) -> bool {
    &&& p.profile.id@ == "work"@
    &&& p.profile.name@ == "Work / Office / Corporate VPN"@
    &&& p.profile.description@ == "Strict network redirects, corporate VPN passthrough, CUPS printing, and 5-minute screen lock."@
    &&& p.profile.icon@ == "applications-office-symbolic"@
    &&& p.profile.version@ == "1.0.0"@
    &&& p.profile.author@ == "Pop!_OS"@
    &&& p.profile.is_builtin
    &&& p.kernel.pairs() == put_all(
        Seq::empty(),
        seq![
            ("kernel.yama.ptrace_scope"@, "1"@),
            ("kernel.dmesg_restrict"@, "1"@),
            ("kernel.kptr_restrict"@, "1"@),
            ("kernel.unprivileged_bpf_disabled"@, "2"@),
            ("fs.suid_dumpable"@, "0"@),
            ("fs.inotify.max_user_watches"@, "524288"@),
            ("fs.inotify.max_user_instances"@, "512"@),
            ("net.ipv4.conf.all.rp_filter"@, "1"@),
            ("net.ipv4.conf.default.rp_filter"@, "1"@),
            ("net.ipv4.conf.all.accept_redirects"@, "0"@),
            ("net.ipv4.conf.default.accept_redirects"@, "0"@),
            ("net.ipv6.conf.all.accept_redirects"@, "0"@),
            ("net.ipv6.conf.default.accept_redirects"@, "0"@),
            ("net.ipv4.tcp_syncookies"@, "1"@),
            ("net.ipv4.tcp_rfc1337"@, "1"@),
        ],
    )
    &&& p.limits.core_dump is None && p.limits.nofile_soft is None && p.limits.nofile_hard is None
    &&& p.firewall.default_incoming@ == "deny"@
    &&& p.firewall.default_outgoing@ == "allow"@
    &&& p.firewall.allow_loopback
    &&& views_of(p.firewall.allow_interfaces@) == seq!["tun+"@, "tap+"@, "wg+"@, "tailscale+"@]
    &&& port_rule_views(p.firewall.allow_ports@) == seq![
            ("631/tcp"@, "Office Printing (CUPS)"@),
            ("5353/udp"@, "Office mDNS Discovery"@)
        ]
    &&& p.power.battery_charge_limit == Some(80u32)
    &&& p.power.power_profile is Some && p.power.power_profile->0@ == "balanced"@
    &&& p.power.cpu_epp is Some && p.power.cpu_epp->0@ == "balance_performance"@
    &&& p.peripherals.block_new_usb == Some(false)
    &&& p.peripherals.bluetooth == Some(true)
    &&& p.desktop.idle_delay_seconds == Some(300u32)
}

/// The built-in Work profile.
pub fn builtin_work() -> (r: ProfileConfig)
    ensures
        is_builtin_work(r),
        r.kernel.wf(),
{
    let kernel_pairs = [
        ("kernel.yama.ptrace_scope", "1"),
        ("kernel.dmesg_restrict", "1"),
        ("kernel.kptr_restrict", "1"),
        ("kernel.unprivileged_bpf_disabled", "2"),
        ("fs.suid_dumpable", "0"),
        ("fs.inotify.max_user_watches", "524288"),
        ("fs.inotify.max_user_instances", "512"),
        ("net.ipv4.conf.all.rp_filter", "1"),
        ("net.ipv4.conf.default.rp_filter", "1"),
        ("net.ipv4.conf.all.accept_redirects", "0"),
        ("net.ipv4.conf.default.accept_redirects", "0"),
        ("net.ipv6.conf.all.accept_redirects", "0"),
        ("net.ipv6.conf.default.accept_redirects", "0"),
        ("net.ipv4.tcp_syncookies", "1"),
        ("net.ipv4.tcp_rfc1337", "1"),
    ];
    let kernel = StringMap::from_pairs(&kernel_pairs);
    assert(text_pairs(kernel_pairs@) =~= seq![
        ("kernel.yama.ptrace_scope"@, "1"@),
        ("kernel.dmesg_restrict"@, "1"@),
        ("kernel.kptr_restrict"@, "1"@),
        ("kernel.unprivileged_bpf_disabled"@, "2"@),
        ("fs.suid_dumpable"@, "0"@),
        ("fs.inotify.max_user_watches"@, "524288"@),
        ("fs.inotify.max_user_instances"@, "512"@),
        ("net.ipv4.conf.all.rp_filter"@, "1"@),
        ("net.ipv4.conf.default.rp_filter"@, "1"@),
        ("net.ipv4.conf.all.accept_redirects"@, "0"@),
        ("net.ipv4.conf.default.accept_redirects"@, "0"@),
        ("net.ipv6.conf.all.accept_redirects"@, "0"@),
        ("net.ipv6.conf.default.accept_redirects"@, "0"@),
        ("net.ipv4.tcp_syncookies"@, "1"@),
        ("net.ipv4.tcp_rfc1337"@, "1"@),
    ]);
    let ports = vec![
        port_rule("631/tcp", "Office Printing (CUPS)"),
        port_rule("5353/udp", "Office mDNS Discovery"),
    ];
    assert(port_rule_views(ports@) =~= seq![("631/tcp"@, "Office Printing (CUPS)"@), ("5353/udp"@, "Office mDNS Discovery"@)]);
    let interfaces = vec![owned("tun+"), owned("tap+"), owned("wg+"), owned("tailscale+")];
    assert(views_of(interfaces@) =~= seq!["tun+"@, "tap+"@, "wg+"@, "tailscale+"@]);
    ProfileConfig {
        profile: ProfileMetadata {
            id: owned("work"),
            name: owned("Work / Office / Corporate VPN"),
            description: owned("Strict network redirects, corporate VPN passthrough, CUPS printing, and 5-minute screen lock."),
            icon: owned("applications-office-symbolic"),
            version: owned("1.0.0"),
            author: owned("Pop!_OS"),
            is_builtin: true,
        },
        kernel,
        limits: SecurityLimitsConfig { core_dump: None, nofile_soft: None, nofile_hard: None },
        firewall: FirewallConfig {
            default_incoming: owned("deny"),
            default_outgoing: owned("allow"),
            allow_loopback: true,
            allow_interfaces: interfaces,
            allow_ports: ports,
        },
        power: FrameworkPowerConfig {
            battery_charge_limit: Some(80),
            power_profile: Some(owned("balanced")),
            cpu_epp: Some(owned("balance_performance")),
        },
        peripherals: PeripheralsConfig { block_new_usb: Some(false), bluetooth: Some(true) },
        desktop: DesktopConfig { idle_delay_seconds: Some(300) },
    }
}

/// The contents of the built-in Dev profile.
pub open spec fn is_builtin_dev(p: ProfileConfig) -> bool {
    &&& p.profile.id@ == "dev"@
    &&& p.profile.name@ == "Developer / Coding Mode"@
    &&& p.profile.description@ == "Inotify watches boosted, core dumps enabled, dev container interfaces and local dev ports unblocked."@
    &&& p.profile.icon@ == "utilities-terminal-symbolic"@
    &&& p.profile.version@ == "1.0.0"@
    &&& p.profile.author@ == "Pop!_OS"@
    &&& p.profile.is_builtin
    &&& p.kernel.pairs() == put_all(
        Seq::empty(),
        seq![
            ("kernel.yama.ptrace_scope"@, "1"@),
            ("kernel.dmesg_restrict"@, "0"@),
            ("kernel.kptr_restrict"@, "1"@),
            ("kernel.unprivileged_bpf_disabled"@, "2"@),
            ("fs.suid_dumpable"@, "2"@),
            ("fs.inotify.max_user_watches"@, "524288"@),
            ("fs.inotify.max_user_instances"@, "512"@),
            ("net.ipv4.conf.all.rp_filter"@, "1"@),
            ("net.ipv4.conf.default.rp_filter"@, "1"@),
            ("net.ipv4.tcp_syncookies"@, "1"@),
            ("net.ipv4.tcp_rfc1337"@, "1"@),
        ],
    )
    &&& p.limits.core_dump is Some && p.limits.core_dump->0@ == "unlimited"@
    &&& p.limits.nofile_soft == Some(65536u64)
    &&& p.limits.nofile_hard == Some(1048576u64)
    &&& p.firewall.default_incoming@ == "deny"@
    &&& p.firewall.default_outgoing@ == "allow"@
    &&& p.firewall.allow_loopback
    &&& views_of(p.firewall.allow_interfaces@) == seq!["docker0"@, "podman0"@, "virbr0"@, "cni0"@]
    &&& port_rule_views(p.firewall.allow_ports@) == seq![
            ("3000/tcp"@, "Node/React/Frontend"@),
            ("5000/tcp"@, "Flask/ASP.NET"@),
            ("5173/tcp"@, "Vite Dev Server"@),
            ("8000/tcp"@, "Django/Python/FastAPI"@),
            ("8080/tcp"@, "Spring/Tomcat/Proxy"@),
            ("8888/tcp"@, "JupyterLab"@),
            ("9000/tcp"@, "PHP-FPM/SonarQube"@)
        ]
    &&& p.power.battery_charge_limit == Some(85u32)
    &&& p.power.power_profile is Some && p.power.power_profile->0@ == "performance"@
    &&& p.power.cpu_epp is Some && p.power.cpu_epp->0@ == "performance"@
    &&& p.peripherals.block_new_usb == Some(false)
    &&& p.peripherals.bluetooth == Some(true)
    &&& p.desktop.idle_delay_seconds == Some(900u32)
}

/// The built-in Dev profile.
pub fn builtin_dev() -> (r: ProfileConfig)
    ensures
        is_builtin_dev(r),
        r.kernel.wf(),
{
    let kernel_pairs = [
        ("kernel.yama.ptrace_scope", "1"),
        ("kernel.dmesg_restrict", "0"),
        ("kernel.kptr_restrict", "1"),
        ("kernel.unprivileged_bpf_disabled", "2"),
        ("fs.suid_dumpable", "2"),
        ("fs.inotify.max_user_watches", "524288"),
        ("fs.inotify.max_user_instances", "512"),
        ("net.ipv4.conf.all.rp_filter", "1"),
        ("net.ipv4.conf.default.rp_filter", "1"),
        ("net.ipv4.tcp_syncookies", "1"),
        ("net.ipv4.tcp_rfc1337", "1"),
    ];
    let kernel = StringMap::from_pairs(&kernel_pairs);
    assert(text_pairs(kernel_pairs@) =~= seq![
        ("kernel.yama.ptrace_scope"@, "1"@),
        ("kernel.dmesg_restrict"@, "0"@),
        ("kernel.kptr_restrict"@, "1"@),
        ("kernel.unprivileged_bpf_disabled"@, "2"@),
        ("fs.suid_dumpable"@, "2"@),
        ("fs.inotify.max_user_watches"@, "524288"@),
        ("fs.inotify.max_user_instances"@, "512"@),
        ("net.ipv4.conf.all.rp_filter"@, "1"@),
        ("net.ipv4.conf.default.rp_filter"@, "1"@),
        ("net.ipv4.tcp_syncookies"@, "1"@),
        ("net.ipv4.tcp_rfc1337"@, "1"@),
    ]);
    let ports = vec![
        port_rule("3000/tcp", "Node/React/Frontend"),
        port_rule("5000/tcp", "Flask/ASP.NET"),
        port_rule("5173/tcp", "Vite Dev Server"),
        port_rule("8000/tcp", "Django/Python/FastAPI"),
        port_rule("8080/tcp", "Spring/Tomcat/Proxy"),
        port_rule("8888/tcp", "JupyterLab"),
        port_rule("9000/tcp", "PHP-FPM/SonarQube"),
    ];
    assert(port_rule_views(ports@) =~= seq![("3000/tcp"@, "Node/React/Frontend"@), ("5000/tcp"@, "Flask/ASP.NET"@), ("5173/tcp"@, "Vite Dev Server"@), ("8000/tcp"@, "Django/Python/FastAPI"@), ("8080/tcp"@, "Spring/Tomcat/Proxy"@), ("8888/tcp"@, "JupyterLab"@), ("9000/tcp"@, "PHP-FPM/SonarQube"@)]);
    let interfaces = vec![owned("docker0"), owned("podman0"), owned("virbr0"), owned("cni0")];
    assert(views_of(interfaces@) =~= seq!["docker0"@, "podman0"@, "virbr0"@, "cni0"@]);
    ProfileConfig {
        profile: ProfileMetadata {
            id: owned("dev"),
            name: owned("Developer / Coding Mode"),
            description: owned("Inotify watches boosted, core dumps enabled, dev container interfaces and local dev ports unblocked."),
            icon: owned("utilities-terminal-symbolic"),
            version: owned("1.0.0"),
            author: owned("Pop!_OS"),
            is_builtin: true,
        },
        kernel,
        limits: SecurityLimitsConfig {
            core_dump: Some(owned("unlimited")),
            nofile_soft: Some(65536),
            nofile_hard: Some(1048576),
        },
        firewall: FirewallConfig {
            default_incoming: owned("deny"),
            default_outgoing: owned("allow"),
            allow_loopback: true,
            allow_interfaces: interfaces,
            allow_ports: ports,
        },
        power: FrameworkPowerConfig {
            battery_charge_limit: Some(85),
            power_profile: Some(owned("performance")),
            cpu_epp: Some(owned("performance")),
        },
        peripherals: PeripheralsConfig { block_new_usb: Some(false), bluetooth: Some(true) },
        desktop: DesktopConfig { idle_delay_seconds: Some(900) },
    }
}

/// The contents of the built-in Travel profile.
pub open spec fn is_builtin_travel(p: ProfileConfig) -> bool {
    &&& p.profile.id@ == "travel"@
    &&& p.profile.name@ == "Travel / Public Wi-Fi Lockdown"@
    &&& p.profile.description@ == "Zero open ports, strict ICMP ignoring, aggressive ptrace prevention, and 5-minute screen lock."@
    &&& p.profile.icon@ == "security-high-symbolic"@
    &&& p.profile.version@ == "1.0.0"@
    &&& p.profile.author@ == "Pop!_OS"@
    &&& p.profile.is_builtin
    &&& p.kernel.pairs() == put_all(
        Seq::empty(),
        seq![
            ("kernel.yama.ptrace_scope"@, "2"@),
            ("kernel.dmesg_restrict"@, "1"@),
            ("kernel.kptr_restrict"@, "2"@),
            ("kernel.unprivileged_bpf_disabled"@, "2"@),
            ("fs.suid_dumpable"@, "0"@),
            ("fs.inotify.max_user_watches"@, "131072"@),
            ("fs.inotify.max_user_instances"@, "256"@),
            ("net.ipv4.conf.all.rp_filter"@, "1"@),
            ("net.ipv4.conf.default.rp_filter"@, "1"@),
            ("net.ipv4.conf.all.accept_redirects"@, "0"@),
            ("net.ipv4.conf.default.accept_redirects"@, "0"@),
            ("net.ipv6.conf.all.accept_redirects"@, "0"@),
            ("net.ipv6.conf.default.accept_redirects"@, "0"@),
            ("net.ipv4.tcp_syncookies"@, "1"@),
            ("net.ipv4.tcp_rfc1337"@, "1"@),
            ("net.ipv4.icmp_echo_ignore_broadcasts"@, "1"@),
            ("net.ipv4.icmp_ignore_bogus_error_responses"@, "1"@),
        ],
    )
    &&& p.limits.core_dump is Some && p.limits.core_dump->0@ == "0"@
    &&& p.limits.nofile_soft == None::<u64>
    &&& p.limits.nofile_hard == None::<u64>
    &&& p.firewall.default_incoming@ == "deny"@
    &&& p.firewall.default_outgoing@ == "allow"@
    &&& p.firewall.allow_loopback
    &&& p.firewall.allow_interfaces@.len() == 0
    &&& p.firewall.allow_ports@.len() == 0
    &&& p.power.battery_charge_limit == Some(80u32)
    &&& p.power.power_profile is Some && p.power.power_profile->0@ == "battery"@
    &&& p.power.cpu_epp is Some && p.power.cpu_epp->0@ == "power"@
    &&& p.peripherals.block_new_usb == Some(true)
    &&& p.peripherals.bluetooth == Some(true)
    &&& p.desktop.idle_delay_seconds == Some(300u32)
}

/// The built-in Travel profile.
pub fn builtin_travel() -> (r: ProfileConfig)
    ensures
        is_builtin_travel(r),
        r.kernel.wf(),
{
    let kernel_pairs = [
        ("kernel.yama.ptrace_scope", "2"),
        ("kernel.dmesg_restrict", "1"),
        ("kernel.kptr_restrict", "2"),
        ("kernel.unprivileged_bpf_disabled", "2"),
        ("fs.suid_dumpable", "0"),
        ("fs.inotify.max_user_watches", "131072"),
        ("fs.inotify.max_user_instances", "256"),
        ("net.ipv4.conf.all.rp_filter", "1"),
        ("net.ipv4.conf.default.rp_filter", "1"),
        ("net.ipv4.conf.all.accept_redirects", "0"),
        ("net.ipv4.conf.default.accept_redirects", "0"),
        ("net.ipv6.conf.all.accept_redirects", "0"),
        ("net.ipv6.conf.default.accept_redirects", "0"),
        ("net.ipv4.tcp_syncookies", "1"),
        ("net.ipv4.tcp_rfc1337", "1"),
        ("net.ipv4.icmp_echo_ignore_broadcasts", "1"),
        ("net.ipv4.icmp_ignore_bogus_error_responses", "1"),
    ];
    let kernel = StringMap::from_pairs(&kernel_pairs);
    assert(text_pairs(kernel_pairs@) =~= seq![
        ("kernel.yama.ptrace_scope"@, "2"@),
        ("kernel.dmesg_restrict"@, "1"@),
        ("kernel.kptr_restrict"@, "2"@),
        ("kernel.unprivileged_bpf_disabled"@, "2"@),
        ("fs.suid_dumpable"@, "0"@),
        ("fs.inotify.max_user_watches"@, "131072"@),
        ("fs.inotify.max_user_instances"@, "256"@),
        ("net.ipv4.conf.all.rp_filter"@, "1"@),
        ("net.ipv4.conf.default.rp_filter"@, "1"@),
        ("net.ipv4.conf.all.accept_redirects"@, "0"@),
        ("net.ipv4.conf.default.accept_redirects"@, "0"@),
        ("net.ipv6.conf.all.accept_redirects"@, "0"@),
        ("net.ipv6.conf.default.accept_redirects"@, "0"@),
        ("net.ipv4.tcp_syncookies"@, "1"@),
        ("net.ipv4.tcp_rfc1337"@, "1"@),
        ("net.ipv4.icmp_echo_ignore_broadcasts"@, "1"@),
        ("net.ipv4.icmp_ignore_bogus_error_responses"@, "1"@),
    ]);
    let ports: Vec<PortRule> = Vec::new();
    let interfaces: Vec<String> = Vec::new();
    ProfileConfig {
        profile: ProfileMetadata {
            id: owned("travel"),
            name: owned("Travel / Public Wi-Fi Lockdown"),
            description: owned("Zero open ports, strict ICMP ignoring, aggressive ptrace prevention, and 5-minute screen lock."),
            icon: owned("security-high-symbolic"),
            version: owned("1.0.0"),
            author: owned("Pop!_OS"),
            is_builtin: true,
        },
        kernel,
        limits: SecurityLimitsConfig {
            core_dump: Some(owned("0")),
            nofile_soft: None,
            nofile_hard: None,
        },
        firewall: FirewallConfig {
            default_incoming: owned("deny"),
            default_outgoing: owned("allow"),
            allow_loopback: true,
            allow_interfaces: interfaces,
            allow_ports: ports,
        },
        power: FrameworkPowerConfig {
            battery_charge_limit: Some(80),
            power_profile: Some(owned("battery")),
            cpu_epp: Some(owned("power")),
        },
        peripherals: PeripheralsConfig { block_new_usb: Some(true), bluetooth: Some(true) },
        desktop: DesktopConfig { idle_delay_seconds: Some(300) },
    }
}


/// The ids of the built-in profiles, in order.
pub open spec fn builtin_ids() -> Seq<Seq<char>> {
    seq!["home"@, "work"@, "dev"@, "travel"@]
}

/// The first four profiles of `v` are the built-in Home, Work, Dev and
/// Travel profiles, in that order.
pub open spec fn builtin_contents(v: Seq<ProfileConfig>) -> bool {
    &&& v.len() >= 4
    &&& is_builtin_home(v[0])
    &&& is_builtin_work(v[1])
    &&& is_builtin_dev(v[2])
    &&& is_builtin_travel(v[3])
}

/// The four built-in profiles: Home, Work, Dev and Travel.
pub fn builtin_profiles() -> (r: Vec<ProfileConfig>)
    ensures
        r@.len() == 4,
        profile_ids(r@) == builtin_ids(),
        forall|i: int|
            0 <= i < 4 ==> (#[trigger] r@[i]).profile.is_builtin && r@[i].kernel.wf() && r@[i].firewall.allow_loopback,
        builtin_contents(r@),
{
    let r = vec![builtin_home(), builtin_work(), builtin_dev(), builtin_travel()];
    assert(profile_ids(r@) =~= builtin_ids());
    r
}

/// The ids of a list of profiles.
pub open spec fn profile_ids(v: Seq<ProfileConfig>) -> Seq<Seq<char>> {
    v.map_values(|p: ProfileConfig| p.profile.id@)
}

/// The ids in the catalog after the first `n` candidates have been offered:
/// a candidate is taken when it passes validation and its normalized id is new.
pub open spec fn catalog_ids(cands: Seq<ProfileConfig>, n: int) -> Seq<Seq<char>>
    decreases n,
{
    if n <= 0 {
        builtin_ids()
    } else {
        let prev = catalog_ids(cands, n - 1);
        let c = cands[n - 1];
        if profile_error(c) is None && !prev.contains(normalized(c.profile.id@)) {
            prev.push(normalized(c.profile.id@))
        } else {
            prev
        }
    }
}

/// The positions of the candidates taken among the first `n`.
pub open spec fn accepted(cands: Seq<ProfileConfig>, n: int) -> Seq<int>
    decreases n,
{
    if n <= 0 {
        Seq::empty()
    } else {
        let prev = accepted(cands, n - 1);
        let c = cands[n - 1];
        if profile_error(c) is None && !catalog_ids(cands, n - 1).contains(normalized(c.profile.id@)) {
            prev.push(n - 1)
        } else {
            prev
        }
    }
}

proof fn lemma_catalog_len(cands: Seq<ProfileConfig>, n: int)
    requires
        0 <= n <= cands.len(),
    ensures
        catalog_ids(cands, n).len() == 4 + accepted(cands, n).len(),
        forall|k: int| 0 <= k < accepted(cands, n).len() ==> 0 <= #[trigger] accepted(cands, n)[k] < n,
    decreases n,
{
    if n > 0 {
        lemma_catalog_len(cands, n - 1);
    }
}

proof fn lemma_accepted_valid(cands: Seq<ProfileConfig>, n: int)
    requires
        0 <= n <= cands.len(),
    ensures
        forall|k: int|
            0 <= k < accepted(cands, n).len() ==> profile_error(cands[#[trigger] accepted(cands, n)[k]]) is None,
    decreases n,
{
    if n > 0 {
        lemma_accepted_valid(cands, n - 1);
        let prev = accepted(cands, n - 1);
        assert forall|k: int| 0 <= k < accepted(cands, n).len() implies profile_error(
            cands[#[trigger] accepted(cands, n)[k]],
        ) is None by {
            if k < prev.len() {
                assert(accepted(cands, n)[k] == prev[k]);
            }
        }
    }
}

fn contains_id(ids: &Vec<String>, id: &str) -> (r: bool)
    ensures
        r == views_of(ids@).contains(id@),
{
    let mut i: usize = 0;
    while i < ids.len()
        invariant
            i <= ids@.len(),
            forall|j: int| 0 <= j < i ==> ids@[j]@ != id@,
        decreases ids.len() - i,
    {
        if str_eq(ids[i].as_str(), id) {
            assert(views_of(ids@)[i as int] == id@);
            return true;
        }
        i = i + 1;
    }
    assert forall|j: int| 0 <= j < views_of(ids@).len() implies views_of(ids@)[j] != id@ by {
        assert(views_of(ids@)[j] == ids@[j]@);
    }
    false
}

/// The built-in profiles followed by the custom candidates that pass
/// validation, in sanitized form, each id taken once: a candidate whose id is
/// already present (built-in or earlier) is dropped. Candidates are offered in
/// order (system directory first, then the user's). Every profile of the
/// catalog allows loopback traffic, and each custom one is already in its
/// sanitized form: validating it again accepts it unchanged, without warnings.
pub fn load_all_profiles(candidates: Vec<ProfileConfig>) -> (r: Vec<ProfileConfig>)
    requires
        forall|i: int| 0 <= i < candidates@.len() ==> (#[trigger] candidates@[i]).kernel.wf(),
    ensures
        profile_ids(r@) == catalog_ids(candidates@, candidates@.len() as int),
        r@.len() == 4 + accepted(candidates@, candidates@.len() as int).len(),
        forall|i: int| 0 <= i < 4 ==> (#[trigger] r@[i]).profile.is_builtin,
        forall|k: int|
            0 <= k < accepted(candidates@, candidates@.len() as int).len() ==> is_sanitized_form(
                candidates@[accepted(candidates@, candidates@.len() as int)[k]],
                #[trigger] r@[4 + k],
            ),
        forall|i: int| 0 <= i < r@.len() ==> (#[trigger] r@[i]).kernel.wf(),
        forall|i: int| 0 <= i < r@.len() ==> (#[trigger] r@[i]).firewall.allow_loopback,
        builtin_contents(r@),
        forall|k: int|
            4 <= k < r@.len() ==> profile_error(#[trigger] r@[k]) is None && is_sanitized_form(r@[k], r@[k])
                && profile_warnings(r@[k]).len() == 0,
        forall|i: int, j: int|
            0 <= i < j < r@.len() ==> (#[trigger] r@[i]).profile.id@ != (#[trigger] r@[j]).profile.id@,
{
    let ghost cands = candidates@;
    let mut rest = candidates;
    let mut profiles = builtin_profiles();
    let mut ids: Vec<String> = Vec::new();
    ids.push(owned("home"));
    ids.push(owned("work"));
    ids.push(owned("dev"));
    ids.push(owned("travel"));
    assert(views_of(ids@) =~= builtin_ids());
    let n = rest.len();
    let mut i: usize = 0;
    while i < n
        invariant
            n == cands.len(),
            i <= n,
            rest@ == cands.subrange(i as int, n as int),
            forall|j: int| 0 <= j < cands.len() ==> (#[trigger] cands[j]).kernel.wf(),
            views_of(ids@) == catalog_ids(cands, i as int),
            profile_ids(profiles@) == catalog_ids(cands, i as int),
            profiles@.len() == 4 + accepted(cands, i as int).len(),
            forall|j: int| 0 <= j < 4 ==> (#[trigger] profiles@[j]).profile.is_builtin && profiles@[j].firewall.allow_loopback,
            builtin_contents(profiles@),
            forall|k: int|
                0 <= k < accepted(cands, i as int).len() ==> is_sanitized_form(
                    cands[accepted(cands, i as int)[k]],
                    #[trigger] profiles@[4 + k],
                ),
            forall|j: int| 0 <= j < profiles@.len() ==> (#[trigger] profiles@[j]).kernel.wf(),
        decreases n - i,
    {
        proof {
            lemma_catalog_len(cands, i as int);
        }
        assert(rest@[0] == cands[i as int]);
        let cand = rest.remove(0);
        assert(rest@ =~= cands.subrange(i + 1, n as int));
        match validate_and_sanitize(cand) {
            Ok(report) => {
                let s = report.sanitized_config;
                if !contains_id(&ids, s.profile.id.as_str()) {
                    let idc = owned(s.profile.id.as_str());
                    let ghost before_ids = ids@;
                    let ghost before = profiles@;
                    ids.push(idc);
                    profiles.push(s);
                    assert(views_of(ids@) =~= views_of(before_ids).push(idc@));
                    assert(profile_ids(profiles@) =~= profile_ids(before).push(idc@));
                    assert(profiles@[0] == before[0] && profiles@[1] == before[1] && profiles@[2] == before[2]
                        && profiles@[3] == before[3]);
                    assert forall|j: int| 0 <= j < 4 implies (#[trigger] profiles@[j]).profile.is_builtin
                        && profiles@[j].firewall.allow_loopback by {
                        assert(profiles@[j] == before[j]);
                    }
                    assert forall|k: int|
                        0 <= k < accepted(cands, i + 1).len() implies is_sanitized_form(
                        cands[accepted(cands, i + 1)[k]],
                        #[trigger] profiles@[4 + k],
                    ) by {
                        if k < accepted(cands, i as int).len() {
                            assert(profiles@[4 + k] == before[4 + k]);
                        }
                    }
                }
            },
            Err(_) => {},
        }
        i = i + 1;
    }
    assert(cands.subrange(0, n as int) =~= cands);
    proof {
        lemma_accepted_valid(cands, n as int);
        lemma_catalog_len(cands, n as int);
        lemma_catalog_ids_distinct(cands, n as int);
        assert forall|i: int, j: int| 0 <= i < j < profiles@.len() implies (#[trigger] profiles@[i]).profile.id@
            != (#[trigger] profiles@[j]).profile.id@ by {
            assert(profile_ids(profiles@)[i] == profiles@[i].profile.id@);
            assert(profile_ids(profiles@)[j] == profiles@[j].profile.id@);
        }
    }
    assert forall|k: int| 4 <= k < profiles@.len() implies profile_error(#[trigger] profiles@[k]) is None
        && is_sanitized_form(profiles@[k], profiles@[k]) && profile_warnings(profiles@[k]).len() == 0 by {
        let a = accepted(cands, n as int)[k - 4];
        assert(is_sanitized_form(cands[a], profiles@[4 + (k - 4)]));
        assert(profile_error(cands[a]) is None);
        lemma_revalidation_fixed(cands[a], profiles@[k]);
    }
    assert forall|j: int| 0 <= j < profiles@.len() implies (#[trigger] profiles@[j]).firewall.allow_loopback by {
        if j >= 4 {
            let k = j - 4;
            assert(is_sanitized_form(cands[accepted(cands, n as int)[k]], profiles@[4 + k]));
        }
    }
    profiles
}

/// The catalog key of a requested id: trimmed and lowercased, with `secure`
/// standing for `travel`.
pub open spec fn requested_key(id: Seq<char>) -> Seq<char> {
    if normalized(id) == "secure"@ {
        "travel"@
    } else {
        normalized(id)
    }
}

/// The built-in profiles' ids are their own lowercased forms.
proof fn lemma_builtin_keys(v: Seq<ProfileConfig>)
    requires
        builtin_contents(v),
    ensures
        lowercased(v[0].profile.id@) == "home"@,
        lowercased(v[1].profile.id@) == "work"@,
        lowercased(v[2].profile.id@) == "dev"@,
        lowercased(v[3].profile.id@) == "travel"@,
        "home"@ != "work"@ && "home"@ != "dev"@ && "home"@ != "travel"@ && "work"@ != "dev"@ && "work"@ != "travel"@
            && "dev"@ != "travel"@,
{
    reveal_strlit("home");
    reveal_strlit("work");
    reveal_strlit("dev");
    reveal_strlit("travel");
    assert(lowercased("home"@) =~= "home"@);
    assert(lowercased("work"@) =~= "work"@);
    assert(lowercased("dev"@) =~= "dev"@);
    assert(lowercased("travel"@) =~= "travel"@);
    assert("home"@ != "work"@ && "home"@ != "dev"@ && "home"@ != "travel"@) by {
        assert("home"@[0] != "work"@[0]);
        assert("home"@.len() != "dev"@.len());
        assert("home"@.len() != "travel"@.len());
    }
    assert("work"@.len() != "dev"@.len() && "work"@.len() != "travel"@.len() && "dev"@.len() != "travel"@.len());
}

/// In a list that starts with the built-in profiles, the first profile whose
/// lowercased id is a built-in id is that built-in profile.
proof fn lemma_first_match_builtin(v: Seq<ProfileConfig>, key: Seq<char>, i: int)
    requires
        builtin_contents(v),
        0 <= i < v.len(),
        lowercased(v[i].profile.id@) == key,
        forall|j: int| 0 <= j < i ==> lowercased((#[trigger] v[j]).profile.id@) != key,
    ensures
        key == "home"@ ==> i == 0,
        key == "work"@ ==> i == 1,
        key == "dev"@ ==> i == 2,
        key == "travel"@ ==> i == 3,
{
    lemma_builtin_keys(v);
    if i > 0 {
        assert(lowercased(v[0].profile.id@) != key);
    }
    if i > 1 {
        assert(lowercased(v[1].profile.id@) != key);
    }
    if i > 2 {
        assert(lowercased(v[2].profile.id@) != key);
    }
    if i > 3 {
        assert(lowercased(v[3].profile.id@) != key);
    }
}

/// Takes from `profiles` the first whose lowercased id equals the requested
/// key, if any. From a catalog that starts with the built-in profiles, a
/// built-in id (or `secure`, for travel) gives that built-in profile.
#[verifier::loop_isolation(false)]
pub fn find_profile(profiles: Vec<ProfileConfig>, id: &str) -> (r: Option<ProfileConfig>)
    ensures
        match r {
            Some(p) => exists|i: int|
                0 <= i < profiles@.len() && profiles@[i] == p && lowercased(p.profile.id@)
                    == requested_key(id@) && forall|j: int|
                    0 <= j < i ==> lowercased((#[trigger] profiles@[j]).profile.id@) != requested_key(id@),
            None => forall|j: int|
                0 <= j < profiles@.len() ==> lowercased((#[trigger] profiles@[j]).profile.id@)
                    != requested_key(id@),
        },
        builtin_contents(profiles@) ==> {
            &&& requested_key(id@) == "home"@ ==> r is Some && is_builtin_home(r->0)
            &&& requested_key(id@) == "work"@ ==> r is Some && is_builtin_work(r->0)
            &&& requested_key(id@) == "dev"@ ==> r is Some && is_builtin_dev(r->0)
            &&& requested_key(id@) == "travel"@ ==> r is Some && is_builtin_travel(r->0)
        },
{
    let ghost all = profiles@;
    let norm = to_lower(trim_str(id));
    let key = if str_eq(norm.as_str(), "secure") {
        owned("travel")
    } else {
        norm
    };
    let mut profiles = profiles;
    let mut i: usize = 0;
    while i < profiles.len()
        invariant
            profiles@ == all,
            key@ == requested_key(id@),
            i <= all.len(),
            forall|j: int| 0 <= j < i ==> lowercased((#[trigger] all[j]).profile.id@) != key@,
        decreases profiles.len() - i,
    {
        let lid = to_lower(profiles[i].profile.id.as_str());
        if str_eq(lid.as_str(), key.as_str()) {
            let p = profiles.remove(i);
            assert(all[i as int] == p);
            assert(0 <= i < all.len() && all[i as int] == p && lowercased(p.profile.id@) == requested_key(id@)
                && forall|j: int| 0 <= j < i ==> lowercased((#[trigger] all[j]).profile.id@) != requested_key(id@));
            proof {
                if builtin_contents(all) {
                    lemma_first_match_builtin(all, requested_key(id@), i as int);
                }
            }
            return Some(p);
        }
        i = i + 1;
    }
    proof {
        if builtin_contents(all) {
            lemma_builtin_keys(all);
            assert(lowercased(all[0].profile.id@) != key@);
            assert(lowercased(all[1].profile.id@) != key@);
            assert(lowercased(all[2].profile.id@) != key@);
            assert(lowercased(all[3].profile.id@) != key@);
        }
    }
    None
}

/// No two profiles of the catalog share an id, whatever the candidates.
pub proof fn lemma_catalog_ids_distinct(cands: Seq<ProfileConfig>, n: int)
    ensures
        forall|i: int, j: int|
            0 <= i < j < catalog_ids(cands, n).len() ==> catalog_ids(cands, n)[i] != catalog_ids(
                cands,
                n,
            )[j],
    decreases n,
{
    if n <= 0 {
        reveal_strlit("home");
        reveal_strlit("work");
        reveal_strlit("dev");
        reveal_strlit("travel");
        assert("home"@[0] != "work"@[0]);
        assert("home"@[0] != "dev"@[0]);
        assert("home"@[0] != "travel"@[0]);
        assert("work"@[0] != "dev"@[0]);
        assert("work"@[0] != "travel"@[0]);
        assert("dev"@[0] != "travel"@[0]);
    } else {
        lemma_catalog_ids_distinct(cands, n - 1);
        let prev = catalog_ids(cands, n - 1);
        let c = cands[n - 1];
        if profile_error(c) is None && !prev.contains(normalized(c.profile.id@)) {
            assert forall|i: int, j: int|
                0 <= i < j < catalog_ids(cands, n).len() implies catalog_ids(cands, n)[i]
                != catalog_ids(cands, n)[j] by {
                if j == prev.len() {
                    assert(prev[i] == catalog_ids(cands, n)[i]);
                }
            }
        }
    }
}

/// Every candidate that passes validation is in the catalog under its normalized id.
pub proof fn lemma_valid_candidates_present(cands: Seq<ProfileConfig>, n: int, j: int)
    requires
        0 <= j < n,
        profile_error(cands[j]) is None,
    ensures
        catalog_ids(cands, n).contains(normalized(cands[j].profile.id@)),
    decreases n,
{
    if j < n - 1 {
        lemma_valid_candidates_present(cands, n - 1, j);
        let prev = catalog_ids(cands, n - 1);
        let k = choose|k: int| 0 <= k < prev.len() && prev[k] == normalized(cands[j].profile.id@);
        assert(catalog_ids(cands, n)[k] == prev[k]);
    } else {
        let prev = catalog_ids(cands, n - 1);
        if !prev.contains(normalized(cands[j].profile.id@)) {
            assert(catalog_ids(cands, n)[prev.len() as int] == normalized(cands[j].profile.id@));
        }
    }
}

/// The message refusing to save over a built-in profile.
pub open spec fn builtin_overwrite_message() -> Seq<char> {
    "Built-in profiles cannot be overwritten."@
}

/// The profile to save as a custom one: validated and sanitized; a profile
/// marked built-in is refused.
pub fn prepare_custom_profile(config: ProfileConfig) -> (r: Result<ProfileConfig, String>)
    requires
        config.kernel.wf(),
    ensures
        match r {
            Ok(p) => profile_error(config) is None && !config.profile.is_builtin && is_sanitized_form(config, p),
            Err(e) => match profile_error(config) {
                Some(m) => e@ == m,
                None => config.profile.is_builtin && e@ == builtin_overwrite_message(),
            },
        },
{
    match validate_and_sanitize(config) {
        Ok(report) => {
            if report.sanitized_config.profile.is_builtin {
                Err(owned("Built-in profiles cannot be overwritten."))
            } else {
                Ok(report.sanitized_config)
            }
        },
        Err(e) => Err(e),
    }
}

/// The file a custom profile is saved in: its id with `.postureflow.toml`.
pub fn profile_file_name(id: &str) -> (r: String)
    ensures
        r@ == id@ + ".postureflow.toml"@,
{
    join2(id, ".postureflow.toml")
}

/// Whether a (normalized) id names a built-in profile, `secure` included.
pub open spec fn is_builtin_id(n: Seq<char>) -> bool {
    n == "home"@ || n == "work"@ || n == "dev"@ || n == "travel"@ || n == "secure"@
}

/// The id of a custom profile to delete, trimmed and lowercased; built-in
/// profiles cannot be deleted.
pub fn custom_profile_to_delete(id: &str) -> (r: Result<String, String>)
    ensures
        match r {
            Ok(n) => !is_builtin_id(normalized(id@)) && n@ == normalized(id@),
            Err(e) => is_builtin_id(normalized(id@)) && e@ == "Cannot delete built-in system profile."@,
        },
{
    let n = to_lower(trim_str(id));
    let s = n.as_str();
    if str_eq(s, "home") || str_eq(s, "work") || str_eq(s, "dev") || str_eq(s, "travel") || str_eq(s, "secure") {
        Err(owned("Cannot delete built-in system profile."))
    } else {
        Ok(n)
    }
}

/// The error when no file of a custom profile existed.
pub fn custom_profile_not_found(normalized_id: &str) -> (r: String)
    ensures
        r@ == "Custom profile '"@ + normalized_id@ + "' not found."@,
{
    join3("Custom profile '", normalized_id, "' not found.")
}

} // verus!
