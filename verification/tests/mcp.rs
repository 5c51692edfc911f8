use postureflow::hardware::sensors::get_sensor_privacy_report;
use postureflow::inspector::ports::parse_ss_output;
use postureflow::inspector::score::{PostureScoreReport, ScoreInputs};
use postureflow::mcp::{
    method_not_found, ports_report_text, posture_status_text, profile_security_rank, required_target, resolve_tool_call,
    route_method, route_tool,
    security_audit_text, sensor_status_text, tool_names, unknown_tool, McpMethod, McpServer, McpTool,
    MCP_PROTOCOL_VERSION, SERVER_NAME, SERVER_VERSION,
};

fn report() -> PostureScoreReport {
    PostureScoreReport::compute(&ScoreInputs {
        ufw_active: true,
        default_deny: false,
        ports: Vec::new(),
        ptrace_scope: Some(1),
        bpf_disabled: Some(2),
        kptr_restrict: Some(1),
        syncookies: Some(1),
        rp_filter: Some(1),
        idle_timeout_seconds: 300,
        suid_dumpable: Some(0),
    })
}

#[test]
fn test_initialize_handshake() {
    assert_eq!(route_method("initialize"), McpMethod::Initialize);
    assert_eq!(SERVER_NAME, "postureflow-mcp");
    assert_eq!(MCP_PROTOCOL_VERSION, "2024-11-05");
    assert_eq!(SERVER_VERSION, "1.0.1");
    assert_eq!(route_method("ping"), McpMethod::Ping);
    assert_eq!(route_method("resources/list"), McpMethod::Unknown);
}

#[test]
fn test_tools_list_schema() {
    let names = tool_names();
    assert_eq!(names.len(), 6);
    assert!(names.contains(&"get_posture_status"));
    assert!(names.contains(&"get_security_audit"));
    assert!(names.contains(&"inspect_listening_ports"));
    assert!(names.contains(&"get_sensor_privacy_status"));
    assert!(names.contains(&"engage_security_lockdown"));
    assert!(names.contains(&"request_posture_switch"));
    for n in names {
        assert!(route_tool(n).is_some());
    }
    assert_eq!(route_tool("run_shell"), None);
}

#[test]
fn test_zero_trust_downgrade_prevention() {
    let mut server = McpServer::with_simulated_profile("travel");
    let reply = server.request_posture_switch("dev", Some("Attacker payload attempting to lower firewall defenses"), "home");
    assert!(reply.is_error);
    assert!(reply.text.contains("ZERO-TRUST SECURITY VIOLATION"));
    assert!(reply.text.contains("downgrade blocked"));
    assert!(reply.apply_profile.is_none());
    assert_eq!(server.get_active_profile("home"), "travel");
}

#[test]
fn test_zero_trust_escalation_permitted() {
    let mut server = McpServer::with_simulated_profile("dev");
    let reply = server.request_posture_switch("work", Some("User started corporate VPN session"), "home");
    assert!(!reply.is_error);
    assert_eq!(server.get_active_profile("home"), "work");
}

#[test]
fn test_emergency_lockdown_always_allowed() {
    let mut server = McpServer::with_simulated_profile("home");
    let reply = server.engage_security_lockdown(Some("Hostile public Wi-Fi detected"), "home");
    assert!(!reply.is_error);
    assert_eq!(server.get_active_profile("home"), "travel");
    assert!(reply.text.ends_with("• Incident Reason: Hostile public Wi-Fi detected"));
}

#[test]
fn ranks_and_system_profile_switches() {
    assert_eq!(profile_security_rank("Travel"), 4);
    assert_eq!(profile_security_rank("lockdown"), 4);
    assert_eq!(profile_security_rank("office"), 3);
    assert_eq!(profile_security_rank("home"), 2);
    assert_eq!(profile_security_rank("developer"), 1);
    assert_eq!(profile_security_rank("unknown"), 2);
    let mut server = McpServer::new();
    let reply = server.request_posture_switch("TRAVEL", None, "work");
    assert!(!reply.is_error);
    assert_eq!(reply.apply_profile.as_deref(), Some("travel"));
    assert!(reply.text.ends_with("• Rationale: Automated workflow coordination"));
    let lock = server.engage_security_lockdown(None, "work");
    assert_eq!(lock.apply_profile.as_deref(), Some("travel"));
    assert!(lock.text.ends_with("Unspecified security incident"));
    assert_eq!(route_tool("get_security_audit"), Some(McpTool::GetSecurityAudit));
}

#[test]
fn equal_rank_switch_is_permitted() {
    let mut server = McpServer::with_simulated_profile("home");
    let reply = server.request_posture_switch("Home", None, "x");
    assert!(!reply.is_error);
    assert_eq!(server.get_active_profile("x"), "home");
}

#[test]
fn targets_outside_the_schema_are_refused() {
    let mut server = McpServer::with_simulated_profile("home");
    let reply = server.request_posture_switch("office", Some("x"), "x");
    assert!(reply.is_error);
    assert_eq!(reply.text, "Invalid target_profile 'office'. Expected one of: travel, work, home, dev.");
    assert!(reply.apply_profile.is_none());
    assert_eq!(server.get_active_profile("x"), "home");
}

#[test]
fn tool_names_in_listing_order() {
    assert_eq!(
        tool_names(),
        vec![
            "get_posture_status",
            "get_security_audit",
            "inspect_listening_ports",
            "get_sensor_privacy_status",
            "engage_security_lockdown",
            "request_posture_switch",
        ]
    );
}

#[test]
fn tool_texts() {
    let r = report();
    let status = posture_status_text("travel", &r);
    assert!(status.starts_with("PostureFlow Status:\n• Active Profile: \"travel\"\n• Security Score: 88/100 (Grade: \"A\")"));
    assert!(status.ends_with("• Stealth Mode: Enabled"));
    let audit = security_audit_text(&r);
    assert!(audit.contains("  • Firewall Security: 25/35 pts (Active: true)\n"));
    assert!(audit.ends_with("\nSecurity Recommendations:\n  ⚠️ Default incoming firewall policy is permissive. Switch to deny/reject.\n"));
    assert_eq!(ports_report_text(&Vec::new()), "Actively Listening Ports (Total: 0):\n  No open listening ports detected. Perimeter is fully secured.\n");
    let ports = parse_ss_output("tcp LISTEN 0 4096 127.0.0.1:631 0.0.0.0:* users:((\"cupsd\",pid=9,fd=7))\n");
    assert_eq!(
        ports_report_text(&ports),
        "Actively Listening Ports (Total: 1):\n  • Port 631 (tcp) [Loopback-Only] - Process: cupsd (IPP / CUPS Print Server)\n"
    );
    let sensors = sensor_status_text(&get_sensor_privacy_report(true, false, false, 1));
    assert_eq!(
        sensors,
        "Hardware Sensor Privacy Status:\n• Microphone Muted: NO (Active)\n• Camera Blocked: YES (Blocked)\n• Geolocation Blocked: NO (Allowed)\n• Active Connected Cameras: 1\n• Active Audio Sources: 1"
    );
    assert_eq!(method_not_found("x/y"), (-32601, "Method not found: x/y".to_string()));
    assert_eq!(unknown_tool("rm"), (-32601, "Unknown tool: rm".to_string()));
}

#[test]
fn status_text_escapes_the_profile_as_json() {
    let r = report();
    let status = posture_status_text("a\"b\n\\c", &r);
    assert!(status.starts_with("PostureFlow Status:\n• Active Profile: \"a\\\"b\\n\\\\c\"\n"));
    assert!(status.ends_with("• Stealth Mode: Disabled"));
}

#[test]
fn tool_call_requests_are_checked() {
    assert_eq!(resolve_tool_call(false, None), Err((-32602, "Missing params".to_string())));
    assert_eq!(resolve_tool_call(true, None), Err((-32602, "Missing tool name".to_string())));
    assert_eq!(resolve_tool_call(true, Some("rm")), Err((-32601, "Unknown tool: rm".to_string())));
    assert_eq!(resolve_tool_call(true, Some("get_security_audit")), Ok(McpTool::GetSecurityAudit));
    assert_eq!(required_target(None), Err((-32602, "Missing 'target_profile'".to_string())));
    assert_eq!(required_target(Some("work")), Ok("work"));
}

#[test]
fn ratchet_over_a_session_never_lowers_the_rank() {
    let mut server = McpServer::with_simulated_profile("Dev");
    let mut rank = profile_security_rank(&server.get_active_profile("home"));
    assert_eq!(rank, 1);
    let steps: Vec<(Option<&str>, bool, &str)> = vec![
        (Some("HOME"), false, "home"),
        (Some("dev"), true, "home"),
        (Some("secure"), true, "home"),
        (Some("work"), false, "work"),
        (None, false, "travel"),
        (Some("Work"), true, "travel"),
        (Some("travel"), false, "travel"),
    ];
    for (target, refused, after) in steps {
        let reply = match target {
            Some(t) => server.request_posture_switch(t, Some("test"), "home"),
            None => server.engage_security_lockdown(Some("test"), "home"),
        };
        assert_eq!(reply.is_error, refused);
        assert_eq!(server.get_active_profile("home"), after);
        let now = profile_security_rank(after);
        assert!(now >= rank);
        rank = now;
    }
}
