//! The decisions of the Model Context Protocol server: which methods and
//! tools exist, and the zero-trust ratchet that lets an assistant raise the
//! security posture but never lower it.
use vstd::prelude::*;
use crate::text::{owned, str_eq, to_lower, lowercased, is_ascii_text, decimal, fmt_u32, fmt_usize, join2, join3, join5};
use crate::inspector::score::PostureScoreReport;
use crate::inspector::ports::ListeningPort;
use crate::hardware::sensors::SensorPrivacyReport;

verus! {

/// The protocol version announced by the server.
pub const MCP_PROTOCOL_VERSION: &'static str = "2024-11-05";

/// The server's name.
pub const SERVER_NAME: &'static str = "postureflow-mcp";

/// The server's version.
pub const SERVER_VERSION: &'static str = "1.0.1";

/// The security rank of a lowercased profile name: travel/lockdown/secure 4,
/// work/office 3, home 2, dev/developer 1, anything else 2.
pub open spec fn rank_of_key(l: Seq<char>) -> u8 {
    if l == "travel"@ || l == "lockdown"@ || l == "secure"@ {
        4
    } else if l == "work"@ || l == "office"@ {
        3
    } else if l == "home"@ {
        2
    } else if l == "dev"@ || l == "developer"@ {
        1
    } else {
        2
    }
}

/// The security rank of a profile name (compared lowercased).
pub open spec fn rank_of(profile_id: Seq<char>) -> u8 {
    rank_of_key(lowercased(profile_id))
}

/// Security ranks for posture profiles (higher is more restrictive).
pub fn profile_security_rank(profile_id: &str) -> (r: u8)
    ensures
        r == rank_of(profile_id@),
        1 <= r <= 4,
{
    let l = to_lower(profile_id);
    let s = l.as_str();
    if str_eq(s, "travel") || str_eq(s, "lockdown") || str_eq(s, "secure") {
        4
    } else if str_eq(s, "work") || str_eq(s, "office") {
        3
    } else if str_eq(s, "home") {
        2
    } else if str_eq(s, "dev") || str_eq(s, "developer") {
        1
    } else {
        2
    }
}

/// A JSON-RPC method of the server.
#[derive(Debug, Clone, Copy, PartialEq, Eq, Structural)]
pub enum McpMethod {
    Initialize,
    Ping,
    ToolsList,
    ToolsCall,
    Unknown,
}

/// The method a request names.
pub fn route_method(method: &str) -> (r: McpMethod)
    ensures
        r == if method@ == "initialize"@ {
            McpMethod::Initialize
        } else if method@ == "ping"@ {
            McpMethod::Ping
        } else if method@ == "tools/list"@ {
            McpMethod::ToolsList
        } else if method@ == "tools/call"@ {
            McpMethod::ToolsCall
        } else {
            McpMethod::Unknown
        },
{
    if str_eq(method, "initialize") {
        McpMethod::Initialize
    } else if str_eq(method, "ping") {
        McpMethod::Ping
    } else if str_eq(method, "tools/list") {
        McpMethod::ToolsList
    } else if str_eq(method, "tools/call") {
        McpMethod::ToolsCall
    } else {
        McpMethod::Unknown
    }
}

/// A tool offered to assistants; there is no tool that runs arbitrary commands.
#[derive(Debug, Clone, Copy, PartialEq, Eq, Structural)]
pub enum McpTool {
    GetPostureStatus,
    GetSecurityAudit,
    InspectListeningPorts,
    GetSensorPrivacyStatus,
    EngageSecurityLockdown,
    RequestPostureSwitch,
}

/// The tool a name denotes, if it is one of the six.
pub open spec fn tool_named(n: Seq<char>) -> Option<McpTool> {
    if n == "get_posture_status"@ {
        Some(McpTool::GetPostureStatus)
    } else if n == "get_security_audit"@ {
        Some(McpTool::GetSecurityAudit)
    } else if n == "inspect_listening_ports"@ {
        Some(McpTool::InspectListeningPorts)
    } else if n == "get_sensor_privacy_status"@ {
        Some(McpTool::GetSensorPrivacyStatus)
    } else if n == "engage_security_lockdown"@ {
        Some(McpTool::EngageSecurityLockdown)
    } else if n == "request_posture_switch"@ {
        Some(McpTool::RequestPostureSwitch)
    } else {
        None
    }
}

/// The tool a call names, if it is one of the six.
pub fn route_tool(name: &str) -> (r: Option<McpTool>)
    ensures
        r == tool_named(name@),
{
    if str_eq(name, "get_posture_status") {
        Some(McpTool::GetPostureStatus)
    } else if str_eq(name, "get_security_audit") {
        Some(McpTool::GetSecurityAudit)
    } else if str_eq(name, "inspect_listening_ports") {
        Some(McpTool::InspectListeningPorts)
    } else if str_eq(name, "get_sensor_privacy_status") {
        Some(McpTool::GetSensorPrivacyStatus)
    } else if str_eq(name, "engage_security_lockdown") {
        Some(McpTool::EngageSecurityLockdown)
    } else if str_eq(name, "request_posture_switch") {
        Some(McpTool::RequestPostureSwitch)
    } else {
        None
    }
}

/// The names of the tools, in the order `tools/list` gives them.
pub fn tool_names() -> (r: Vec<&'static str>)
    ensures
        r@.len() == 6,
        r@[0]@ == "get_posture_status"@,
        r@[1]@ == "get_security_audit"@,
        r@[2]@ == "inspect_listening_ports"@,
        r@[3]@ == "get_sensor_privacy_status"@,
        r@[4]@ == "engage_security_lockdown"@,
        r@[5]@ == "request_posture_switch"@,
{
    vec![
        "get_posture_status",
        "get_security_audit",
        "inspect_listening_ports",
        "get_sensor_privacy_status",
        "engage_security_lockdown",
        "request_posture_switch",
    ]
}

/// The answer of a state-changing tool: the text shown to the assistant,
/// whether it is an error, and the profile to apply to the system (when the
/// server is not simulating a profile).
#[derive(Debug, Clone)]
pub struct ToolReply {
    pub text: String,
    pub is_error: bool,
    pub apply_profile: Option<String>,
}

/// The server's state: a simulated active profile, or none to use the system's.
#[derive(Debug, Clone)]
pub struct McpServer {
    current_profile_override: Option<String>,
}

/// Whether an assistant may switch from `current` to `target`: only when the
/// target ranks at least as high (both compared lowercased).
pub open spec fn switch_permitted(current: Seq<char>, target: Seq<char>) -> bool {
    rank_of(target) >= rank_of(current)
}

/// The targets that `request_posture_switch` advertises in its schema.
pub open spec fn advertised_target(target: Seq<char>) -> bool {
    target == "travel"@ || target == "work"@ || target == "home"@ || target == "dev"@
}

/// The text refusing a target outside the advertised ones.
pub open spec fn invalid_target_message(target: Seq<char>) -> Seq<char> {
    "Invalid target_profile '"@ + target + "'. Expected one of: travel, work, home, dev."@
}

/// The rank that is active after a request from `current` to `target`.
pub open spec fn rank_after_request(current: Seq<char>, target: Seq<char>) -> u8 {
    if advertised_target(target) && switch_permitted(current, target) {
        rank_of(target)
    } else {
        rank_of(current)
    }
}

/// The text refusing a downgrade.
pub open spec fn downgrade_message(current: Seq<char>, cr: u8, target: Seq<char>, tr: u8) -> Seq<char> {
    "⛔ ZERO-TRUST SECURITY VIOLATION:\nAutomated profile downgrade blocked by policy.\n• Current Posture: "@
        + current + " (Security Rank: "@ + decimal(cr as nat) + ")\n• Requested Posture: "@ + target
        + " (Security Rank: "@ + decimal(tr as nat) + ")\n• Violation: Switching from '"@ + current
        + "' to '"@ + target
        + "' reduces firewall and system perimeter restrictions.\n• Protection: To defend against indirect prompt injection attacks, downgrading defenses requires physical user confirmation on the host OS via 'postureflow "@
        + target + "' or the COSMIC applet."@
}

/// The text confirming an escalation.
pub open spec fn escalation_message(current: Seq<char>, target: Seq<char>, tr: u8, reason: Seq<char>) -> Seq<char> {
    "✔ Security Posture Escalation Applied:\n• Previous Profile: "@ + current + "\n• New Profile: "@
        + target + " (Security Rank: "@ + decimal(tr as nat) + ")\n• Rationale: "@ + reason
}

/// The text confirming a lockdown.
pub open spec fn lockdown_message(current: Seq<char>, reason: Seq<char>) -> Seq<char> {
    "🛡️ EMERGENCY SECURITY LOCKDOWN ENGAGED:\n• Previous Profile: "@ + current
        + "\n• Active Profile: Travel (Strict Lockdown)\n• Action: Inbound network traffic dropped, stealth mode engaged, screen lock dispatched.\n• Incident Reason: "@
        + reason
}

impl McpServer {
    /// The simulated profile, if any.
    pub closed spec fn simulated(self) -> Option<Seq<char>> {
        match self.current_profile_override {
            Some(p) => Some(p@),
            None => None,
        }
    }

    /// The active profile: the simulated one, else the system's.
    pub open spec fn active(self, system_profile: Seq<char>) -> Seq<char> {
        match self.simulated() {
            Some(p) => p,
            None => system_profile,
        }
    }

    /// A server that reads the system's active profile.
    pub fn new() -> (r: Self)
        ensures
            r.simulated() is None,
    {
        McpServer { current_profile_override: None }
    }

    /// A server that simulates `profile` as the active one.
    pub fn with_simulated_profile(profile: &str) -> (r: Self)
        ensures
            r.simulated() == Some(profile@),
    {
        McpServer { current_profile_override: Some(owned(profile)) }
    }

    /// The active profile, given the system's (read from its state file).
    pub fn get_active_profile(&self, system_profile: &str) -> (r: String)
        ensures
            r@ == self.active(system_profile@),
    {
        match &self.current_profile_override {
            Some(p) => owned(p.as_str()),
            None => owned(system_profile),
        }
    }

    /// Makes `profile` active: the simulated one is replaced, or (when the
    /// system's is used) the profile is handed back to be applied.
    fn switch_to(&mut self, profile: &str) -> (apply: Option<String>)
        ensures
            old(self).simulated() is Some ==> final(self).simulated() == Some(profile@) && apply is None,
            old(self).simulated() is None ==> final(self).simulated() is None && apply is Some
                && apply->0@ == profile@,
    {
        if self.current_profile_override.is_some() {
            self.current_profile_override = Some(owned(profile));
            None
        } else {
            Some(owned(profile))
        }
    }

    /// The `request_posture_switch` tool. The target is lowercased; the
    /// switch is refused (an error reply, nothing changed) when the target is
    /// not one of travel, work, home and dev, or when its rank is below the
    /// active profile's, and applied otherwise. `reason`
    /// defaults to "Automated workflow coordination".
    pub fn request_posture_switch(&mut self, target_profile: &str, reason: Option<&str>, system_profile: &str) -> (r:
        ToolReply)
        ensures
            ({
                let current = lowercased(old(self).active(system_profile@));
                let target = lowercased(target_profile@);
                let why = match reason {
                    Some(x) => x@,
                    None => "Automated workflow coordination"@,
                };
                if !advertised_target(target) {
                    &&& r.is_error
                    &&& r.text@ == invalid_target_message(target)
                    &&& r.apply_profile is None
                    &&& *final(self) == *old(self)
                } else if !switch_permitted(current, target) {
                    &&& r.is_error
                    &&& r.text@ == downgrade_message(current, rank_of(current), target, rank_of(target))
                    &&& r.apply_profile is None
                    &&& *final(self) == *old(self)
                } else {
                    &&& !r.is_error
                    &&& r.text@ == escalation_message(current, target, rank_of(target), why)
                    &&& final(self).active(system_profile@) == target || (final(self).simulated() is None
                        && r.apply_profile is Some && r.apply_profile->0@ == target)
                    &&& (old(self).simulated() is Some ==> final(self).simulated() == Some(target)
                        && r.apply_profile is None)
                    &&& (old(self).simulated() is None ==> final(self).simulated() is None
                        && r.apply_profile is Some && r.apply_profile->0@ == target)
                }
            }),
            old(self).simulated() is Some ==> final(self).simulated() == Some(
                simulated_after(old(self).active(system_profile@), PostureRequest::Switch(target_profile@)),
            ),
    {
        let target = to_lower(target_profile);
        let why: &str = match reason {
            Some(x) => x,
            None => "Automated workflow coordination",
        };
        let t = target.as_str();
        if !(str_eq(t, "travel") || str_eq(t, "work") || str_eq(t, "home") || str_eq(t, "dev")) {
            let text = join3("Invalid target_profile '", t, "'. Expected one of: travel, work, home, dev.");
            return ToolReply { text, is_error: true, apply_profile: None };
        }
        let active = self.get_active_profile(system_profile);
        let current = to_lower(active.as_str());
        let current_rank = profile_security_rank(current.as_str());
        let target_rank = profile_security_rank(target.as_str());
        if target_rank < current_rank {
            let cr = fmt_u32(current_rank as u32);
            let tr = fmt_u32(target_rank as u32);
            let text = String::from_str(
                "⛔ ZERO-TRUST SECURITY VIOLATION:\nAutomated profile downgrade blocked by policy.\n• Current Posture: ",
            ).concat(current.as_str()).concat(" (Security Rank: ").concat(cr.as_str()).concat(
                ")\n• Requested Posture: ",
            ).concat(target.as_str()).concat(" (Security Rank: ").concat(tr.as_str()).concat(
                ")\n• Violation: Switching from '",
            ).concat(current.as_str()).concat("' to '").concat(target.as_str()).concat(
                "' reduces firewall and system perimeter restrictions.\n• Protection: To defend against indirect prompt injection attacks, downgrading defenses requires physical user confirmation on the host OS via 'postureflow ",
            ).concat(target.as_str()).concat("' or the COSMIC applet.");
            return ToolReply { text, is_error: true, apply_profile: None };
        }
        let apply = self.switch_to(target.as_str());
        let tr = fmt_u32(target_rank as u32);
        let text = String::from_str("✔ Security Posture Escalation Applied:\n• Previous Profile: ").concat(
            current.as_str(),
        ).concat("\n• New Profile: ").concat(target.as_str()).concat(" (Security Rank: ").concat(
            tr.as_str(),
        ).concat(")\n• Rationale: ").concat(why);
        ToolReply { text, is_error: false, apply_profile: apply }
    }

    /// The `engage_security_lockdown` tool: always allowed; makes travel the
    /// active profile. `reason` defaults to "Unspecified security incident".
    pub fn engage_security_lockdown(&mut self, reason: Option<&str>, system_profile: &str) -> (r: ToolReply)
        ensures
            !r.is_error,
            r.text@ == lockdown_message(
                old(self).active(system_profile@),
                match reason {
                    Some(x) => x@,
                    None => "Unspecified security incident"@,
                },
            ),
            old(self).simulated() is Some ==> final(self).simulated() == Some("travel"@) && r.apply_profile is None,
            old(self).simulated() is Some ==> final(self).simulated() == Some(
                simulated_after(old(self).active(system_profile@), PostureRequest::Lockdown),
            ),
            old(self).simulated() is None ==> final(self).simulated() is None && r.apply_profile is Some
                && r.apply_profile->0@ == "travel"@,
    {
        let why: &str = match reason {
            Some(x) => x,
            None => "Unspecified security incident",
        };
        let current = self.get_active_profile(system_profile);
        let apply = self.switch_to("travel");
        let text = String::from_str("🛡️ EMERGENCY SECURITY LOCKDOWN ENGAGED:\n• Previous Profile: ").concat(
            current.as_str(),
        ).concat(
            "\n• Active Profile: Travel (Strict Lockdown)\n• Action: Inbound network traffic dropped, stealth mode engaged, screen lock dispatched.\n• Incident Reason: ",
        ).concat(why);
        ToolReply { text, is_error: false, apply_profile: apply }
    }
}

/// The zero-trust ratchet: a request either leaves the active profile as it
/// was or makes active a profile whose rank (as the switch compares it) is at
/// least the active one's; a refused request changes nothing.
pub proof fn lemma_ratchet(current: Seq<char>, target_raw: Seq<char>)
    ensures
        rank_after_request(current, target_raw) >= rank_of(current),
        !(advertised_target(target_raw) && switch_permitted(current, target_raw)) ==> rank_after_request(
            current,
            target_raw,
        ) == rank_of(current),
        advertised_target(target_raw) && switch_permitted(current, target_raw) ==> rank_after_request(
            current,
            target_raw,
        ) == rank_of(target_raw),
{
}

/// A lockdown always ends at the highest rank.
pub proof fn lemma_lockdown_highest()
    ensures
        rank_of_key("travel"@) == 4,
        forall|s: Seq<char>| #[trigger] rank_of_key(s) <= rank_of_key("travel"@),
{
}

/// The ratchet over the rank of the active profile as named: when
/// `request_posture_switch` applies a request from active profile `active`,
/// the profile it makes active (the lowercased target) has a rank at least
/// `profile_security_rank(active)`. Stated for names whose lowercase form
/// lowercases to itself, as every ASCII name does
/// (`lemma_ascii_lowercase_idempotent`).
pub proof fn lemma_ratchet_profile_rank(active: Seq<char>, target_raw: Seq<char>)
    requires
        lowercased(lowercased(active)) == lowercased(active),
    ensures
        advertised_target(lowercased(target_raw)) && switch_permitted(lowercased(active), lowercased(target_raw))
            ==> rank_of(lowercased(target_raw)) >= rank_of(active),
        !(advertised_target(lowercased(target_raw)) && switch_permitted(lowercased(active), lowercased(target_raw)))
            ==> rank_after_request(lowercased(active), lowercased(target_raw)) == rank_of(active),
{
}

/// Lowercasing ASCII text twice is lowercasing it once.
pub proof fn lemma_ascii_lowercase_idempotent(s: Seq<char>)
    requires
        is_ascii_text(s),
    ensures
        lowercased(lowercased(s)) == lowercased(s),
{
    let l = lowercased(s);
    assert(is_ascii_text(l)) by {
        assert forall|i: int| 0 <= i < l.len() implies (#[trigger] l[i] as u32) < 128 by {
            assert((s[i] as u32) < 128);
        }
    }
    assert(lowercased(l) =~= l);
}

/// A request of an assistant that can change the active posture.
pub enum PostureRequest {
    /// `request_posture_switch` with this target (as sent).
    Switch(Seq<char>),
    /// `engage_security_lockdown`.
    Lockdown,
}

/// The simulated profile after `req`, from active profile `active`: a
/// switch that is advertised and permitted makes the lowercased target
/// active, a refused one leaves `active`; a lockdown makes travel active.
pub open spec fn simulated_after(active: Seq<char>, req: PostureRequest) -> Seq<char> {
    match req {
        PostureRequest::Switch(t) => if advertised_target(lowercased(t)) && switch_permitted(
            lowercased(active),
            lowercased(t),
        ) {
            lowercased(t)
        } else {
            active
        },
        PostureRequest::Lockdown => "travel"@,
    }
}

/// The simulated profile after the requests `reqs`, in order.
pub open spec fn simulated_after_all(active: Seq<char>, reqs: Seq<PostureRequest>) -> Seq<char>
    decreases reqs.len(),
{
    if reqs.len() == 0 {
        active
    } else {
        simulated_after(simulated_after_all(active, reqs.drop_last()), reqs.last())
    }
}

proof fn lemma_advertised_ascii_lower(t: Seq<char>)
    requires
        advertised_target(t),
    ensures
        is_ascii_text(t),
        lowercased(t) == t,
{
    reveal_strlit("travel");
    reveal_strlit("work");
    reveal_strlit("home");
    reveal_strlit("dev");
    assert(is_ascii_text(t));
    assert(lowercased(t) =~= t);
}

proof fn lemma_travel_ascii_lower()
    ensures
        is_ascii_text("travel"@),
        lowercased("travel"@) == "travel"@,
{
    lemma_advertised_ascii_lower("travel"@);
}

/// The zero-trust ratchet over a whole session: for a server simulating a
/// profile with an ASCII name, after any sequence of switch and lockdown
/// requests the active profile's rank is at least the starting one's, and
/// each request leaves a rank at least the one before it.
pub proof fn lemma_ratchet_run(start: Seq<char>, reqs: Seq<PostureRequest>)
    requires
        is_ascii_text(start),
    ensures
        is_ascii_text(simulated_after_all(start, reqs)),
        rank_of(simulated_after_all(start, reqs)) >= rank_of(start),
        reqs.len() > 0 ==> rank_of(simulated_after_all(start, reqs)) >= rank_of(
            simulated_after_all(start, reqs.drop_last()),
        ),
    decreases reqs.len(),
{
    if reqs.len() > 0 {
        let before = simulated_after_all(start, reqs.drop_last());
        lemma_ratchet_run(start, reqs.drop_last());
        lemma_ascii_lowercase_idempotent(before);
        match reqs.last() {
            PostureRequest::Switch(t) => {
                if advertised_target(lowercased(t)) && switch_permitted(lowercased(before), lowercased(t)) {
                    lemma_advertised_ascii_lower(lowercased(t));
                }
            },
            PostureRequest::Lockdown => {
                lemma_travel_ascii_lower();
                assert(rank_of("travel"@) == 4);
            },
        }
    }
}

proof fn lemma_rank_words_distinct()
    ensures
        "travel"@ != "work"@ && "travel"@ != "office"@ && "travel"@ != "home"@ && "travel"@ != "dev"@
            && "travel"@ != "developer"@,
        "lockdown"@ != "work"@ && "lockdown"@ != "office"@ && "lockdown"@ != "home"@ && "lockdown"@ != "dev"@
            && "lockdown"@ != "developer"@,
        "secure"@ != "work"@ && "secure"@ != "office"@ && "secure"@ != "home"@ && "secure"@ != "dev"@
            && "secure"@ != "developer"@,
        "work"@ != "home"@ && "work"@ != "dev"@ && "work"@ != "developer"@,
        "office"@ != "home"@ && "office"@ != "dev"@ && "office"@ != "developer"@,
        "home"@ != "dev"@ && "home"@ != "developer"@,
{
    reveal_strlit("travel");
    reveal_strlit("lockdown");
    reveal_strlit("secure");
    reveal_strlit("work");
    reveal_strlit("office");
    reveal_strlit("home");
    reveal_strlit("dev");
    reveal_strlit("developer");
    assert("travel"@.len() == 6 && "lockdown"@.len() == 8 && "secure"@.len() == 6 && "work"@.len() == 4);
    assert("office"@.len() == 6 && "home"@.len() == 4 && "dev"@.len() == 3 && "developer"@.len() == 9);
    assert("travel"@[0] != "office"@[0] && "secure"@[0] != "office"@[0] && "work"@[0] != "home"@[0]);
}

/// The security rank of a profile name, compared lowercased: travel,
/// lockdown and secure rank 4; work and office 3; dev and developer 1; home
/// and every other name 2.
pub proof fn lemma_rank_table(s: Seq<char>)
    ensures
        rank_of(s) == 4 <==> (lowercased(s) == "travel"@ || lowercased(s) == "lockdown"@ || lowercased(s)
            == "secure"@),
        rank_of(s) == 3 <==> (lowercased(s) == "work"@ || lowercased(s) == "office"@),
        rank_of(s) == 1 <==> (lowercased(s) == "dev"@ || lowercased(s) == "developer"@),
        rank_of(s) == 2 <==> !(lowercased(s) == "travel"@ || lowercased(s) == "lockdown"@ || lowercased(s)
            == "secure"@ || lowercased(s) == "work"@ || lowercased(s) == "office"@ || lowercased(s) == "dev"@
            || lowercased(s) == "developer"@),
{
    lemma_rank_words_distinct();
}

/// An assistant cannot lower a work posture: from an active profile named
/// work or office (in any ASCII case), a request for home or dev is refused
/// and the rank stays 3.
pub proof fn lemma_work_not_lowered(active: Seq<char>, target: Seq<char>)
    requires
        is_ascii_text(active),
        lowercased(active) == "work"@ || lowercased(active) == "office"@,
        lowercased(target) == "home"@ || lowercased(target) == "dev"@,
    ensures
        !switch_permitted(lowercased(active), lowercased(target)),
        rank_after_request(lowercased(active), lowercased(target)) == 3,
{
    lemma_rank_words_distinct();
    lemma_ascii_lowercase_idempotent(active);
    lemma_advertised_ascii_lower(lowercased(target));
    lemma_rank_table(lowercased(active));
    lemma_rank_table(lowercased(target));
}

/// A lowercase hexadecimal digit.
pub open spec fn hex_digit(n: int) -> char {
    if n < 10 {
        (n + 48) as char
    } else {
        (n + 87) as char
    }
}

/// How a JSON string writes one character: quote and backslash escaped with
/// a backslash; backspace, tab, line feed, form feed and carriage return as
/// `\b`, `\t`, `\n`, `\f`, `\r`; other control characters as `\u00XX`
/// (lowercase hexadecimal); anything else as itself.
pub open spec fn json_char(c: char) -> Seq<char> {
    if c == '"' {
        seq!['\\', '"']
    } else if c == '\\' {
        seq!['\\', '\\']
    } else if c == '\u{8}' {
        seq!['\\', 'b']
    } else if c == '\t' {
        seq!['\\', 't']
    } else if c == '\n' {
        seq!['\\', 'n']
    } else if c == '\u{c}' {
        seq!['\\', 'f']
    } else if c == '\r' {
        seq!['\\', 'r']
    } else if (c as u32) < 0x20 {
        seq!['\\', 'u', '0', '0', hex_digit((c as u32) as int / 16), hex_digit((c as u32) as int % 16)]
    } else {
        seq![c]
    }
}

/// The characters of a JSON string's contents.
pub open spec fn json_chars(s: Seq<char>) -> Seq<char>
    decreases s.len(),
{
    if s.len() == 0 {
        Seq::empty()
    } else {
        json_chars(s.drop_last()) + json_char(s.last())
    }
}

/// A JSON string holding `s`: its escaped characters between double quotes.
pub open spec fn json_quoted(s: Seq<char>) -> Seq<char> {
    seq!['"'] + json_chars(s) + seq!['"']
}

/// Prints `s` as a JSON string with `serde_json` (the `Display` of a
/// `Value::String`, compact): between double quotes, each character as
/// `json_char` gives it (the escape table of its serializer).
#[verifier::external_body]
fn json_quote(s: &str) -> (r: String)
    ensures
        r@ == json_quoted(s@),
{
    serde_json::Value::from(s).to_string()
}

/// The JSON-RPC error for an unknown method.
pub fn method_not_found(method: &str) -> (r: (i32, String))
    ensures
        r.0 == -32601,
        r.1@ == "Method not found: "@ + method@,
{
    (-32601, join2("Method not found: ", method))
}

/// The JSON-RPC error for an unknown tool.
pub fn unknown_tool(name: &str) -> (r: (i32, String))
    ensures
        r.0 == -32601,
        r.1@ == "Unknown tool: "@ + name@,
{
    (-32601, join2("Unknown tool: ", name))
}

/// The tool a `tools/call` request names: the request must carry params
/// (`has_params`) and a tool name (`name`, when it is a string), and the
/// name must be one of the tools; otherwise the JSON-RPC error.
pub fn resolve_tool_call(has_params: bool, name: Option<&str>) -> (r: Result<McpTool, (i32, String)>)
    ensures
        !has_params ==> (r matches Err(e) && e.0 == -32602 && e.1@ == "Missing params"@),
        has_params && name is None ==> (r matches Err(e) && e.0 == -32602 && e.1@ == "Missing tool name"@),
        has_params && name is Some ==> match tool_named(name->0@) {
            Some(t) => r == Ok::<McpTool, (i32, String)>(t),
            None => r matches Err(e) && e.0 == -32601 && e.1@ == "Unknown tool: "@ + name->0@,
        },
{
    if !has_params {
        return Err((-32602, owned("Missing params")));
    }
    match name {
        None => Err((-32602, owned("Missing tool name"))),
        Some(n) => match route_tool(n) {
            Some(t) => Ok(t),
            None => Err(unknown_tool(n)),
        },
    }
}

/// The target of a `request_posture_switch` call: the `target_profile`
/// argument (when it is a string), or the JSON-RPC error for its absence.
pub fn required_target(target: Option<&str>) -> (r: Result<&str, (i32, String)>)
    ensures
        match target {
            Some(t) => r == Ok::<&str, (i32, String)>(t),
            None => r matches Err(e) && e.0 == -32602 && e.1@ == "Missing 'target_profile'"@,
        },
{
    match target {
        Some(t) => Ok(t),
        None => Err((-32602, owned("Missing 'target_profile'"))),
    }
}

/// `true` or `false`, as Rust prints a `bool`.
pub open spec fn bool_text(b: bool) -> Seq<char> {
    if b {
        "true"@
    } else {
        "false"@
    }
}

fn bool_str(b: bool) -> (r: &'static str)
    ensures
        r@ == bool_text(b),
{
    if b {
        "true"
    } else {
        "false"
    }
}

/// The text of `get_posture_status`: the active profile and grade as JSON
/// strings, the score, the firewall, the exposed and local ports, and
/// whether stealth mode (the travel profile) is on.
pub open spec fn posture_status_spec(active: Seq<char>, score: u32, grade: Seq<char>, firewall: bool, public: usize, local: usize) -> Seq<char> {
    "PostureFlow Status:\n• Active Profile: "@ + json_quoted(active) + "\n• Security Score: "@ + decimal(score as nat)
        + "/100 (Grade: "@ + json_quoted(grade) + ")\n• Firewall: "@ + (if firewall {
        "Active (Enforced)"@
    } else {
        "Inactive"@
    }) + "\n• Public Ports: "@ + decimal(public as nat) + " (Local Ports: "@ + decimal(local as nat)
        + ")\n• Stealth Mode: "@ + (if active == "travel"@ {
        "Enabled"@
    } else {
        "Disabled"@
    })
}

/// The text of `get_posture_status` (see `posture_status_spec`).
pub fn posture_status_text(active: &str, report: &PostureScoreReport) -> (r: String)
    ensures
        r@ == posture_status_spec(
            active@,
            report.total_score,
            report.letter_grade@,
            report.ufw_active,
            report.public_ports_count,
            report.local_ports_count,
        ),
{
    let qa = json_quote(active);
    let qg = json_quote(report.letter_grade.as_str());
    let score = fmt_u32(report.total_score);
    let fw: &str = if report.ufw_active {
        "Active (Enforced)"
    } else {
        "Inactive"
    };
    let public = fmt_usize(report.public_ports_count);
    let local = fmt_usize(report.local_ports_count);
    let stealth: &str = if str_eq(active, "travel") {
        "Enabled"
    } else {
        "Disabled"
    };
    let a = join5("PostureFlow Status:\n• Active Profile: ", qa.as_str(), "\n• Security Score: ", score.as_str(), "/100 (Grade: ");
    let b = join5(qg.as_str(), ")\n• Firewall: ", fw, "\n• Public Ports: ", public.as_str());
    let c = join5(" (Local Ports: ", local.as_str(), ")\n• Stealth Mode: ", stealth, "");
    proof {
        reveal_strlit("");
    }
    let r = join3(a.as_str(), b.as_str(), c.as_str());
    assert(r@ =~= posture_status_spec(
        active@,
        report.total_score,
        report.letter_grade@,
        report.ufw_active,
        report.public_ports_count,
        report.local_ports_count,
    ));
    r
}

/// Each recommendation on a line of its own, marked with a warning sign.
pub open spec fn recommendation_lines(recs: Seq<Seq<char>>) -> Seq<char>
    decreases recs.len(),
{
    if recs.len() == 0 {
        Seq::empty()
    } else {
        recommendation_lines(recs.drop_last()) + "  ⚠️ "@ + recs.last() + "\n"@
    }
}

/// The text of `get_security_audit`: the total and grade, each category's
/// points, and the recommendations when there are any.
pub open spec fn security_audit_spec(r: PostureScoreReport) -> Seq<char> {
    let recs = r.recommendations@.map_values(|s: String| s@);
    "=== PostureFlow Security Audit ===\nTotal Score: "@ + decimal(r.total_score as nat) + "/100 (Grade: "@
        + r.letter_grade@ + ")\n\nCategory Breakdown:\n"@ + "  • Firewall Security: "@ + decimal(
        r.firewall_score as nat,
    ) + "/35 pts (Active: "@ + bool_text(r.ufw_active) + ")\n"@ + "  • Attack Surface: "@ + decimal(
        r.attack_surface_score as nat,
    ) + "/25 pts (Public Ports: "@ + decimal(r.public_ports_count as nat) + ")\n"@ + "  • Kernel Hardening: "@
        + decimal(r.kernel_score as nat) + "/25 pts\n"@ + "  • Resource Limits: "@ + decimal(r.limits_score as nat)
        + "/15 pts\n"@ + if recs.len() > 0 {
        "\nSecurity Recommendations:\n"@ + recommendation_lines(recs)
    } else {
        Seq::empty()
    }
}

/// The text of `get_security_audit` (see `security_audit_spec`).
#[verifier::spinoff_prover]
#[verifier::rlimit(40)]
pub fn security_audit_text(report: &PostureScoreReport) -> (r: String)
    ensures
        r@ == security_audit_spec(*report),
{
    let total = fmt_u32(report.total_score);
    let fw = fmt_u32(report.firewall_score);
    let surf = fmt_u32(report.attack_surface_score);
    let public = fmt_usize(report.public_ports_count);
    let kern = fmt_u32(report.kernel_score);
    let lim = fmt_u32(report.limits_score);
    let head = join5(
        "=== PostureFlow Security Audit ===\nTotal Score: ",
        total.as_str(),
        "/100 (Grade: ",
        report.letter_grade.as_str(),
        ")\n\nCategory Breakdown:\n",
    );
    let l1 = join5("  • Firewall Security: ", fw.as_str(), "/35 pts (Active: ", bool_str(report.ufw_active), ")\n");
    let l2 = join5("  • Attack Surface: ", surf.as_str(), "/25 pts (Public Ports: ", public.as_str(), ")\n");
    let l3 = join3("  • Kernel Hardening: ", kern.as_str(), "/25 pts\n");
    let l4 = join3("  • Resource Limits: ", lim.as_str(), "/15 pts\n");
    let mut text = join5(head.as_str(), l1.as_str(), l2.as_str(), l3.as_str(), l4.as_str());
    let ghost base = text@;
    let ghost recs = report.recommendations@.map_values(|s: String| s@);
    if report.recommendations.len() > 0 {
        text = join2(text.as_str(), "\nSecurity Recommendations:\n");
        let ghost start = text@;
        let mut i: usize = 0;
        while i < report.recommendations.len()
            invariant
                i <= report.recommendations@.len(),
                recs == report.recommendations@.map_values(|s: String| s@),
                text@ == start + recommendation_lines(recs.subrange(0, i as int)),
            decreases report.recommendations.len() - i,
        {
            text = join5(text.as_str(), "  ⚠️ ", report.recommendations[i].as_str(), "\n", "");
            proof {
                reveal_strlit("");
                let t = recs.subrange(0, i + 1);
                assert(t.drop_last() =~= recs.subrange(0, i as int));
                assert(t.last() == report.recommendations@[i as int]@);
            }
            i = i + 1;
        }
        assert(recs.subrange(0, recs.len() as int) =~= recs);
    }
    assert(text@ =~= security_audit_spec(*report));
    text
}

/// One listening socket in the `inspect_listening_ports` text.
pub open spec fn port_line(p: ListeningPort) -> Seq<char> {
    "  • Port "@ + decimal(p.port as nat) + " ("@ + p.protocol@ + ") ["@ + (if p.is_local_only {
        "Loopback-Only"@
    } else {
        "PUBLIC / LAN EXPOSED"@
    }) + "] - Process: "@ + p.process_name@ + " ("@ + p.service_hint@ + ")\n"@
}

/// The lines of the sockets, in order.
pub open spec fn port_lines(ps: Seq<ListeningPort>) -> Seq<char>
    decreases ps.len(),
{
    if ps.len() == 0 {
        Seq::empty()
    } else {
        port_lines(ps.drop_last()) + port_line(ps.last())
    }
}

/// The text of `inspect_listening_ports`: the count, then each socket, or a
/// note that nothing listens.
pub open spec fn ports_report_spec(ps: Seq<ListeningPort>) -> Seq<char> {
    "Actively Listening Ports (Total: "@ + decimal(ps.len()) + "):\n"@ + if ps.len() == 0 {
        "  No open listening ports detected. Perimeter is fully secured.\n"@
    } else {
        port_lines(ps)
    }
}

/// The text of `inspect_listening_ports` (see `ports_report_spec`).
pub fn ports_report_text(ports: &Vec<ListeningPort>) -> (r: String)
    ensures
        r@ == ports_report_spec(ports@),
{
    let n = fmt_usize(ports.len());
    let mut text = join3("Actively Listening Ports (Total: ", n.as_str(), "):\n");
    if ports.len() == 0 {
        text = join2(text.as_str(), "  No open listening ports detected. Perimeter is fully secured.\n");
        return text;
    }
    let ghost start = text@;
    let mut i: usize = 0;
    while i < ports.len()
        invariant
            i <= ports@.len(),
            text@ == start + port_lines(ports@.subrange(0, i as int)),
        decreases ports.len() - i,
    {
        let p = &ports[i];
        let num = fmt_u32(p.port as u32);
        let exposure: &str = if p.is_local_only {
            "Loopback-Only"
        } else {
            "PUBLIC / LAN EXPOSED"
        };
        let a = join5("  • Port ", num.as_str(), " (", p.protocol.as_str(), ") [");
        let b = join5(exposure, "] - Process: ", p.process_name.as_str(), " (", p.service_hint.as_str());
        let line = join3(a.as_str(), b.as_str(), ")\n");
        text = join2(text.as_str(), line.as_str());
        proof {
            let t = ports@.subrange(0, i + 1);
            assert(t.drop_last() =~= ports@.subrange(0, i as int));
            assert(line@ =~= port_line(ports@[i as int]));
        }
        i = i + 1;
    }
    assert(ports@.subrange(0, ports@.len() as int) =~= ports@);
    text
}

/// The text of `get_sensor_privacy_status`.
pub open spec fn sensor_status_spec(r: SensorPrivacyReport) -> Seq<char> {
    "Hardware Sensor Privacy Status:\n• Microphone Muted: "@ + (if r.microphone_muted {
        "YES (0% Volume)"@
    } else {
        "NO (Active)"@
    }) + "\n• Camera Blocked: "@ + (if r.camera_blocked {
        "YES (Blocked)"@
    } else {
        "NO (Permitted)"@
    }) + "\n• Geolocation Blocked: "@ + (if r.location_blocked {
        "YES (Disabled)"@
    } else {
        "NO (Allowed)"@
    }) + "\n• Active Connected Cameras: "@ + decimal(r.active_cameras_count as nat) + "\n• Active Audio Sources: "@
        + decimal(r.active_audio_sources_count as nat)
}

/// The text of `get_sensor_privacy_status` (see `sensor_status_spec`).
pub fn sensor_status_text(report: &SensorPrivacyReport) -> (r: String)
    ensures
        r@ == sensor_status_spec(*report),
{
    let mic: &str = if report.microphone_muted {
        "YES (0% Volume)"
    } else {
        "NO (Active)"
    };
    let cam: &str = if report.camera_blocked {
        "YES (Blocked)"
    } else {
        "NO (Permitted)"
    };
    let loc: &str = if report.location_blocked {
        "YES (Disabled)"
    } else {
        "NO (Allowed)"
    };
    let cams = fmt_usize(report.active_cameras_count);
    let audio = fmt_usize(report.active_audio_sources_count);
    let a = join5("Hardware Sensor Privacy Status:\n• Microphone Muted: ", mic, "\n• Camera Blocked: ", cam, "\n• Geolocation Blocked: ");
    let b = join5(loc, "\n• Active Connected Cameras: ", cams.as_str(), "\n• Active Audio Sources: ", audio.as_str());
    let r = join2(a.as_str(), b.as_str());
    assert(r@ =~= sensor_status_spec(*report));
    r
}

} // verus!
