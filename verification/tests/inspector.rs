use postureflow::inspector::ports::{
    is_loopback, parse_ip_and_port, parse_proc_hex_addr, parse_proc_net, parse_process_info, parse_ss_output,
    sort_by_exposure, ListeningPort,
};
use postureflow::inspector::score::{
    parse_idle_delay, parse_sysctl_i32, parse_ufw_status, ufw_service_active, PostureScoreReport, ScoreInputs,
};

fn inputs(ports: Vec<ListeningPort>) -> ScoreInputs {
    ScoreInputs {
        ufw_active: true,
        default_deny: true,
        ports,
        ptrace_scope: Some(1),
        bpf_disabled: Some(2),
        kptr_restrict: Some(1),
        syncookies: Some(1),
        rp_filter: Some(1),
        idle_timeout_seconds: 300,
        suid_dumpable: Some(0),
    }
}

#[test]
fn test_parse_ss_output() {
    let sample = r#"
tcp    LISTEN    0         4096           127.0.0.1:41769          0.0.0.0:*      users:(("agy",pid=4689,fd=13))
tcp    LISTEN    0         4096             0.0.0.0:8080           0.0.0.0:*      users:(("node",pid=1234,fd=5))
udp    UNCONN    0         0             127.0.0.54:53             0.0.0.0:*      
"#;
    let parsed = parse_ss_output(sample);
    assert_eq!(parsed.len(), 3);

    let agy = parsed.iter().find(|p| p.port == 41769).unwrap();
    assert_eq!(agy.process_name, "agy");
    assert_eq!(agy.pid, Some(4689));
    assert!(agy.is_local_only);
    assert!(!agy.is_public);

    let node = parsed.iter().find(|p| p.port == 8080).unwrap();
    assert_eq!(node.process_name, "node");
    assert_eq!(node.pid, Some(1234));
    assert!(!node.is_local_only);
    assert!(node.is_public);
}

#[test]
fn test_loopback_classification() {
    assert!(is_loopback("127.0.0.1"));
    assert!(is_loopback("127.0.0.53%lo"));
    assert!(is_loopback("::1"));
    assert!(!is_loopback("0.0.0.0"));
    assert!(!is_loopback("::"));
    assert!(!is_loopback("192.168.1.50"));
}

#[test]
fn test_posture_score_computation() {
    let report = PostureScoreReport::compute(&inputs(Vec::new()));
    assert!(report.total_score <= 100);
    assert!(!report.letter_grade.is_empty());
}

#[test]
fn hardened_machine_scores_full_marks() {
    let report = PostureScoreReport::compute(&inputs(Vec::new()));
    assert_eq!(report.firewall_score, 35);
    assert_eq!(report.attack_surface_score, 25);
    assert_eq!(report.kernel_score, 23);
    assert_eq!(report.limits_score, 15);
    assert_eq!(report.total_score, 98);
    assert_eq!(report.letter_grade, "A+");
    assert!(report.recommendations.is_empty());
}

#[test]
fn exposed_machine_gets_recommendations() {
    let exposed = parse_ss_output("tcp LISTEN 0 4096 0.0.0.0:8080 0.0.0.0:* users:((\"node\",pid=1,fd=5))\n");
    let mut i = inputs(exposed);
    i.ufw_active = false;
    i.ptrace_scope = Some(0);
    i.bpf_disabled = Some(0);
    i.idle_timeout_seconds = 0;
    i.suid_dumpable = None;
    let report = PostureScoreReport::compute(&i);
    assert_eq!(report.firewall_score, 0);
    assert_eq!(report.attack_surface_score, 18);
    assert_eq!(report.kernel_score, 12);
    assert_eq!(report.limits_score, 5);
    assert_eq!(report.total_score, 35);
    assert_eq!(report.letter_grade, "F");
    assert_eq!(report.public_ports_count, 1);
    assert_eq!(report.public_ports.len(), 1);
    assert_eq!(report.recommendations.len(), 5);
    assert_eq!(
        report.recommendations[1],
        "1 port(s) are actively exposed to LAN/WAN (0.0.0.0). Review in Port Inspector."
    );
}

#[test]
fn command_output_parsers() {
    assert_eq!(parse_ufw_status("Status: active\nDefault: deny (incoming), allow (outgoing)\n"), (true, true));
    assert_eq!(parse_ufw_status("Status: inactive\n"), (false, false));
    assert_eq!(parse_ufw_status("Status: active\nDefault: allow (incoming)\n"), (true, false));
    assert!(ufw_service_active("active\n"));
    assert!(!ufw_service_active("inactive\n"));
    assert_eq!(parse_sysctl_i32(" 2\n"), Some(2));
    assert_eq!(parse_sysctl_i32("-1"), Some(-1));
    assert_eq!(parse_sysctl_i32("abc"), None);
    assert_eq!(parse_idle_delay("uint32 300\n"), 32300);
    assert_eq!(parse_idle_delay("600"), 600);
    assert_eq!(parse_idle_delay("nothing"), 900);
}

#[test]
fn address_and_process_parsers() {
    assert_eq!(parse_ip_and_port("[::1]:631"), Some(("::1".to_string(), 631)));
    assert_eq!(parse_ip_and_port("*:80"), Some(("0.0.0.0".to_string(), 80)));
    assert_eq!(parse_ip_and_port("127.0.0.53%lo:53"), Some(("127.0.0.53%lo".to_string(), 53)));
    assert_eq!(parse_ip_and_port("nonsense"), None);
    assert_eq!(parse_process_info("users:((\"chrome\",pid=2587,fd=300))"), ("chrome".to_string(), Some(2587)));
    assert_eq!(parse_process_info("pid=77"), ("process".to_string(), Some(77)));
    assert_eq!(parse_process_info(""), ("system/unprivileged".to_string(), None));
    assert_eq!(parse_proc_hex_addr("0100007F:0277"), Some(("127.0.0.1".to_string(), 631)));
    assert_eq!(parse_proc_hex_addr("zz"), None);
    assert_eq!(ListeningPort::get_service_hint(22, "tcp"), "SSH Server");
    assert_eq!(ListeningPort::get_service_hint(9999, "udp"), "9999/UDP");
}

#[test]
fn kernel_tables_and_listing_order() {
    let tcp = "  sl  local_address rem_address   st\n   0: 0100007F:0277 00000000:0000 0A\n   1: 00000000:1F90 00000000:0000 0A\n   2: 00000000:0016 0A00020F:C350 01\n";
    let ports = parse_proc_net(tcp, "tcp");
    assert_eq!(ports.len(), 2);
    assert_eq!(ports[0].local_ip, "127.0.0.1");
    assert_eq!(ports[0].port, 631);
    assert_eq!(ports[0].process_name, "kernel");
    assert!(ports[1].is_public);
    assert_eq!(ports[1].port, 8080);
    let sorted = sort_by_exposure(ports);
    assert_eq!(sorted[0].port, 8080);
    assert_eq!(sorted[1].port, 631);
    let udp = "header\n   0: 00000000:14E9 00000000:0000 07\n";
    let u = parse_proc_net(udp, "udp");
    assert_eq!(u.len(), 1);
    assert_eq!(u[0].port, 5353);
    assert_eq!(u[0].service_hint, "mDNS / Avahi Zeroconf");
}
