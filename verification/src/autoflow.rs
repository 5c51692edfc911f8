//! Auto-Flow: choosing a posture from the active network (VPN tunnels, Wi-Fi
//! SSID, wired interfaces), with detection of evil-twin access points.
use vstd::prelude::*;
use crate::text::{
    owned, to_lower, str_eq, str_contains, chars_of, string_of, replace_chars, replace_char,
    str_eq_ignore_ascii_case, eq_ignore_ascii_case, ascii_fold, has_substring, lowercased, join2, join7,
};

verus! {

/// A VPN rule: a tunnel or connection whose name contains `match_name`
/// (case-insensitively) selects `profile`.
#[derive(Debug, Clone)]
pub struct VpnRule {
    pub match_name: String,
    pub profile: String,
    pub comment: Option<String>,
}

/// A network rule: a Wi-Fi SSID (optionally pinned to a BSSID and gateway MAC)
/// or a wired interface that selects `profile`.
#[derive(Debug, Clone)]
pub struct NetworkRule {
    pub ssid: Option<String>,
    pub bssid: Option<String>,
    pub gateway_mac: Option<String>,
    pub interface: Option<String>,
    pub profile: String,
    pub comment: Option<String>,
}

/// The Auto-Flow configuration.
#[derive(Debug, Clone)]
pub struct AutoFlowConfig {
    pub enabled: bool,
    pub default_unknown_wifi: String,
    pub vpn_profile: Option<String>,
    pub vpn_rules: Vec<VpnRule>,
    pub rules: Vec<NetworkRule>,
}

/// What was detected of the active network.
#[derive(Debug, Clone)]
pub struct ActiveNetworkInfo {
    pub primary_type: String,
    pub current_ssid: Option<String>,
    pub current_bssid: Option<String>,
    pub current_gateway_mac: Option<String>,
    pub active_vpn: Option<String>,
    pub vpn_tunnels: Vec<String>,
    pub active_devices: Vec<String>,
}

/// Auto-Flow is on unless configured otherwise.
pub fn default_true() -> (r: bool)
    ensures
        r,
{
    true
}

/// Unknown Wi-Fi networks get the travel posture unless configured otherwise.
pub fn default_travel() -> (r: String)
    ensures
        r@ == "travel"@,
{
    owned("travel")
}

fn vpn_rule(m: &str, p: &str, c: &str) -> (r: VpnRule)
    ensures
        r.match_name@ == m@,
        r.profile@ == p@,
        r.comment is Some && r.comment->0@ == c@,
{
    VpnRule { match_name: owned(m), profile: owned(p), comment: Some(owned(c)) }
}

impl Default for AutoFlowConfig {
    /// Enabled; unknown Wi-Fi to travel; any VPN to work, with Tailscale to dev
    /// and WireGuard to work; `HomeNetwork` to home, `WorkOffice_Secure` to
    /// work, and interface `eth0` to dev.
    fn default() -> (r: Self)
        ensures
            r.enabled,
            r.default_unknown_wifi@ == "travel"@,
            r.vpn_profile is Some && r.vpn_profile->0@ == "work"@,
            r.vpn_rules@.len() == 2,
            r.vpn_rules@[0].match_name@ == "tailscale"@ && r.vpn_rules@[0].profile@ == "dev"@,
            r.vpn_rules@[1].match_name@ == "wg"@ && r.vpn_rules@[1].profile@ == "work"@,
            r.rules@.len() == 3,
            r.rules@[0].ssid is Some && r.rules@[0].ssid->0@ == "HomeNetwork"@ && r.rules@[0].profile@
                == "home"@,
            r.rules@[1].ssid is Some && r.rules@[1].ssid->0@ == "WorkOffice_Secure"@
                && r.rules@[1].profile@ == "work"@,
            r.rules@[2].ssid is None && r.rules@[2].interface is Some && r.rules@[2].interface->0@
                == "eth0"@ && r.rules@[2].profile@ == "dev"@,
            forall|i: int| 0 <= i < 3 ==> (#[trigger] r.rules@[i]).bssid is None && r.rules@[i].gateway_mac is None,
    {
        let vpn_rules = vec![
            vpn_rule("tailscale", "dev", "Tailscale Mesh Tailnet"),
            vpn_rule("wg", "work", "WireGuard Corporate Gateway"),
        ];
        let rules = vec![
            NetworkRule {
                ssid: Some(owned("HomeNetwork")),
                bssid: None,
                gateway_mac: None,
                interface: None,
                profile: owned("home"),
                comment: Some(owned("Home Wi-Fi")),
            },
            NetworkRule {
                ssid: Some(owned("WorkOffice_Secure")),
                bssid: None,
                gateway_mac: None,
                interface: None,
                profile: owned("work"),
                comment: Some(owned("Work Headquarters")),
            },
            NetworkRule {
                ssid: None,
                bssid: None,
                gateway_mac: None,
                interface: Some(owned("eth0")),
                profile: owned("dev"),
                comment: Some(owned("Wired Lab Bench")),
            },
        ];
        AutoFlowConfig {
            enabled: true,
            default_unknown_wifi: owned("travel"),
            vpn_profile: Some(owned("work")),
            vpn_rules,
            rules,
        }
    }
}

// ---------------------------------------------------------------------------
// Evil-twin detection
// ---------------------------------------------------------------------------

/// A hardware address in comparable form: lowercased, `-` written as `:`.
pub open spec fn mac_key(s: Seq<char>) -> Seq<char> {
    replace_char(lowercased(s), '-', ':')
}

/// An expected and an actual fingerprint that are both non-empty and differ.
pub open spec fn fingerprint_mismatch(expected: Seq<char>, actual: Seq<char>) -> bool {
    mac_key(expected).len() > 0 && mac_key(actual).len() > 0 && mac_key(expected) != mac_key(actual)
}

/// The alert a rule raises for the current network, if its SSID matches but
/// the BSSID (checked first) or the gateway MAC differs from the pinned one.
pub open spec fn rule_alert(rule: NetworkRule, ssid: Seq<char>, net: ActiveNetworkInfo) -> Option<Seq<char>> {
    if rule.ssid is Some && eq_ignore_ascii_case(rule.ssid->0@, ssid) {
        if rule.bssid is Some && net.current_bssid is Some && fingerprint_mismatch(
            rule.bssid->0@,
            net.current_bssid->0@,
        ) {
            Some(
                "EVIL TWIN DETECTED: SSID '"@ + ssid + "' advertised by rogue BSSID '"@
                    + net.current_bssid->0@ + "' (expected '"@ + rule.bssid->0@ + "')"@,
            )
        } else if rule.gateway_mac is Some && net.current_gateway_mac is Some && fingerprint_mismatch(
            rule.gateway_mac->0@,
            net.current_gateway_mac->0@,
        ) {
            Some(
                "EVIL TWIN DETECTED: Gateway MAC mismatch on SSID '"@ + ssid + "' (actual '"@
                    + net.current_gateway_mac->0@ + "', expected '"@ + rule.gateway_mac->0@ + "')"@,
            )
        } else {
            None
        }
    } else {
        None
    }
}

/// The first alert among the first `n` rules.
pub open spec fn first_alert(rules: Seq<NetworkRule>, ssid: Seq<char>, net: ActiveNetworkInfo, n: int) -> Option<
    Seq<char>,
>
    decreases n,
{
    if n <= 0 {
        None
    } else {
        match first_alert(rules, ssid, net, n - 1) {
            Some(a) => Some(a),
            None => rule_alert(rules[n - 1], ssid, net),
        }
    }
}

/// The evil-twin alert for the current network: the first rule whose SSID
/// matches the current one (ASCII case-insensitively) while a pinned BSSID or
/// gateway MAC differs from the observed one. No SSID, no alert.
pub open spec fn evil_twin_alert(config: AutoFlowConfig, net: ActiveNetworkInfo) -> Option<Seq<char>> {
    match net.current_ssid {
        None => None,
        Some(ssid) => first_alert(config.rules@, ssid@, net, config.rules@.len() as int),
    }
}

proof fn lemma_first_alert_stable(rules: Seq<NetworkRule>, ssid: Seq<char>, net: ActiveNetworkInfo, n: int, m: int)
    requires
        0 <= n <= m,
        first_alert(rules, ssid, net, n) is Some,
    ensures
        first_alert(rules, ssid, net, m) == first_alert(rules, ssid, net, n),
    decreases m - n,
{
    if n < m {
        lemma_first_alert_stable(rules, ssid, net, n, m - 1);
    }
}

fn mac_key_exec(s: &str) -> (r: Vec<char>)
    ensures
        r@ == mac_key(s@),
{
    let l = to_lower(s);
    let v = chars_of(l.as_str());
    replace_chars(v.as_slice(), '-', ':')
}

fn fingerprint_mismatch_exec(expected: &str, actual: &str) -> (r: bool)
    ensures
        r == fingerprint_mismatch(expected@, actual@),
{
    let e = mac_key_exec(expected);
    let a = mac_key_exec(actual);
    if e.len() > 0 && a.len() > 0 {
        let es = string_of(e.as_slice());
        let as_ = string_of(a.as_slice());
        !str_eq(es.as_str(), as_.as_str())
    } else {
        false
    }
}

fn rule_alert_exec(rule: &NetworkRule, ssid: &str, net: &ActiveNetworkInfo) -> (r: Option<String>)
    ensures
        match r {
            Some(a) => rule_alert(*rule, ssid@, *net) == Some(a@),
            None => rule_alert(*rule, ssid@, *net) is None,
        },
{
    match &rule.ssid {
        Some(rs) => {
            if !str_eq_ignore_ascii_case(rs.as_str(), ssid) {
                return None;
            }
        },
        None => return None,
    }
    if let Some(exp) = &rule.bssid {
        if let Some(act) = &net.current_bssid {
            if fingerprint_mismatch_exec(exp.as_str(), act.as_str()) {
                return Some(
                    join7(
                        "EVIL TWIN DETECTED: SSID '",
                        ssid,
                        "' advertised by rogue BSSID '",
                        act.as_str(),
                        "' (expected '",
                        exp.as_str(),
                        "')",
                    ),
                );
            }
        }
    }
    if let Some(exp) = &rule.gateway_mac {
        if let Some(act) = &net.current_gateway_mac {
            if fingerprint_mismatch_exec(exp.as_str(), act.as_str()) {
                return Some(
                    join7(
                        "EVIL TWIN DETECTED: Gateway MAC mismatch on SSID '",
                        ssid,
                        "' (actual '",
                        act.as_str(),
                        "', expected '",
                        exp.as_str(),
                        "')",
                    ),
                );
            }
        }
    }
    None
}

/// The evil-twin alert for the current network (see `evil_twin_alert`).
pub fn check_evil_twin(config: &AutoFlowConfig, net: &ActiveNetworkInfo) -> (r: Option<String>)
    ensures
        match r {
            Some(a) => evil_twin_alert(*config, *net) == Some(a@),
            None => evil_twin_alert(*config, *net) is None,
        },
{
    let ssid = match &net.current_ssid {
        Some(s) => s,
        None => return None,
    };
    let n = config.rules.len();
    let mut i: usize = 0;
    while i < n
        invariant
            n == config.rules@.len(),
            i <= n,
            net.current_ssid == Some(*ssid),
            first_alert(config.rules@, ssid@, *net, i as int) is None,
        decreases n - i,
    {
        if let Some(a) = rule_alert_exec(&config.rules[i], ssid.as_str(), net) {
            proof {
                assert(first_alert(config.rules@, ssid@, *net, i + 1) == Some(a@));
                lemma_first_alert_stable(config.rules@, ssid@, *net, i + 1, n as int);
            }
            return Some(a);
        }
        i = i + 1;
    }
    None
}

// ---------------------------------------------------------------------------
// Posture selection
// ---------------------------------------------------------------------------

/// Whether the lowercased `name` contains the lowercased `pattern`.
pub open spec fn name_matches(name: Seq<char>, pattern: Seq<char>) -> bool {
    has_substring(lowercased(name), lowercased(pattern))
}

/// Whether a VPN rule matches the active VPN connection or one of the tunnels.
pub open spec fn vpn_rule_hits(rule: VpnRule, net: ActiveNetworkInfo) -> bool {
    (net.active_vpn is Some && name_matches(net.active_vpn->0@, rule.match_name@)) || exists|t: int|
        0 <= t < net.vpn_tunnels@.len() && name_matches(net.vpn_tunnels@[t]@, rule.match_name@)
}

/// The first VPN rule among the first `n` that hits.
pub open spec fn first_vpn_rule(rules: Seq<VpnRule>, net: ActiveNetworkInfo, n: int) -> Option<int>
    decreases n,
{
    if n <= 0 {
        None
    } else {
        match first_vpn_rule(rules, net, n - 1) {
            Some(i) => Some(i),
            None => if vpn_rule_hits(rules[n - 1], net) {
                Some(n - 1)
            } else {
                None
            },
        }
    }
}

/// The first rule among the first `n` whose SSID equals `ssid` (ASCII case-insensitively).
pub open spec fn first_ssid_rule(rules: Seq<NetworkRule>, ssid: Seq<char>, n: int) -> Option<int>
    decreases n,
{
    if n <= 0 {
        None
    } else {
        match first_ssid_rule(rules, ssid, n - 1) {
            Some(i) => Some(i),
            None => if rules[n - 1].ssid is Some && eq_ignore_ascii_case(rules[n - 1].ssid->0@, ssid) {
                Some(n - 1)
            } else {
                None
            },
        }
    }
}

/// The first rule among the first `n` whose interface equals `dev` (ASCII case-insensitively).
pub open spec fn first_iface_rule(rules: Seq<NetworkRule>, dev: Seq<char>, n: int) -> Option<int>
    decreases n,
{
    if n <= 0 {
        None
    } else {
        match first_iface_rule(rules, dev, n - 1) {
            Some(i) => Some(i),
            None => if rules[n - 1].interface is Some && eq_ignore_ascii_case(
                rules[n - 1].interface->0@,
                dev,
            ) {
                Some(n - 1)
            } else {
                None
            },
        }
    }
}

/// The rule matched by the first of the first `m` active devices that some rule's interface names.
pub open spec fn first_device_rule(devices: Seq<String>, rules: Seq<NetworkRule>, m: int) -> Option<int>
    decreases m,
{
    if m <= 0 {
        None
    } else {
        match first_device_rule(devices, rules, m - 1) {
            Some(i) => Some(i),
            None => first_iface_rule(rules, devices[m - 1]@, rules.len() as int),
        }
    }
}

/// The profile chosen by the interface step.
pub open spec fn device_choice(config: AutoFlowConfig, net: ActiveNetworkInfo) -> Option<Seq<char>> {
    match first_device_rule(net.active_devices@, config.rules@, net.active_devices@.len() as int) {
        Some(i) => Some(config.rules@[i].profile@),
        None => None,
    }
}

/// The posture Auto-Flow chooses, by priority: (1) the first VPN rule that
/// hits; (2) the default VPN profile while any VPN is up; (3) on Wi-Fi, travel
/// if an evil twin is detected, else the first rule naming the SSID, else the
/// profile for unknown Wi-Fi; (4) the first active device named by a rule's
/// interface. Empty profile names in (2) and (3) are skipped.
pub open spec fn posture_choice(config: AutoFlowConfig, net: ActiveNetworkInfo) -> Option<Seq<char>> {
    if !config.enabled {
        None
    } else {
        match first_vpn_rule(config.vpn_rules@, net, config.vpn_rules@.len() as int) {
            Some(i) => Some(config.vpn_rules@[i].profile@),
            None => if (net.active_vpn is Some || net.vpn_tunnels@.len() > 0) && config.vpn_profile is Some
                && config.vpn_profile->0@.len() > 0 {
                Some(config.vpn_profile->0@)
            } else if net.current_ssid is Some {
                if evil_twin_alert(config, net) is Some {
                    Some("travel"@)
                } else {
                    match first_ssid_rule(
                        config.rules@,
                        net.current_ssid->0@,
                        config.rules@.len() as int,
                    ) {
                        Some(i) => Some(config.rules@[i].profile@),
                        None => if config.default_unknown_wifi@.len() > 0 {
                            Some(config.default_unknown_wifi@)
                        } else {
                            device_choice(config, net)
                        },
                    }
                }
            } else {
                device_choice(config, net)
            },
        }
    }
}

proof fn lemma_first_vpn_stable(rules: Seq<VpnRule>, net: ActiveNetworkInfo, n: int, m: int)
    requires
        0 <= n <= m,
        first_vpn_rule(rules, net, n) is Some,
    ensures
        first_vpn_rule(rules, net, m) == first_vpn_rule(rules, net, n),
    decreases m - n,
{
    if n < m {
        lemma_first_vpn_stable(rules, net, n, m - 1);
    }
}

proof fn lemma_first_ssid_stable(rules: Seq<NetworkRule>, ssid: Seq<char>, n: int, m: int)
    requires
        0 <= n <= m,
        first_ssid_rule(rules, ssid, n) is Some,
    ensures
        first_ssid_rule(rules, ssid, m) == first_ssid_rule(rules, ssid, n),
    decreases m - n,
{
    if n < m {
        lemma_first_ssid_stable(rules, ssid, n, m - 1);
    }
}

proof fn lemma_first_iface_stable(rules: Seq<NetworkRule>, dev: Seq<char>, n: int, m: int)
    requires
        0 <= n <= m,
        first_iface_rule(rules, dev, n) is Some,
    ensures
        first_iface_rule(rules, dev, m) == first_iface_rule(rules, dev, n),
    decreases m - n,
{
    if n < m {
        lemma_first_iface_stable(rules, dev, n, m - 1);
    }
}

proof fn lemma_first_device_stable(devices: Seq<String>, rules: Seq<NetworkRule>, n: int, m: int)
    requires
        0 <= n <= m,
        first_device_rule(devices, rules, n) is Some,
    ensures
        first_device_rule(devices, rules, m) == first_device_rule(devices, rules, n),
    decreases m - n,
{
    if n < m {
        lemma_first_device_stable(devices, rules, n, m - 1);
    }
}

fn vpn_rule_hits_exec(rule: &VpnRule, net: &ActiveNetworkInfo) -> (r: bool)
    ensures
        r == vpn_rule_hits(*rule, *net),
{
    let target = to_lower(rule.match_name.as_str());
    if let Some(v) = &net.active_vpn {
        let lv = to_lower(v.as_str());
        if str_contains(lv.as_str(), target.as_str()) {
            return true;
        }
    }
    let mut t: usize = 0;
    while t < net.vpn_tunnels.len()
        invariant
            t <= net.vpn_tunnels@.len(),
            target@ == lowercased(rule.match_name@),
            !(net.active_vpn is Some && name_matches(net.active_vpn->0@, rule.match_name@)),
            forall|j: int| 0 <= j < t ==> !name_matches(net.vpn_tunnels@[j]@, rule.match_name@),
        decreases net.vpn_tunnels.len() - t,
    {
        let lt = to_lower(net.vpn_tunnels[t].as_str());
        if str_contains(lt.as_str(), target.as_str()) {
            return true;
        }
        t = t + 1;
    }
    false
}

fn find_vpn_rule(config: &AutoFlowConfig, net: &ActiveNetworkInfo) -> (r: Option<usize>)
    ensures
        match r {
            Some(i) => first_vpn_rule(config.vpn_rules@, *net, config.vpn_rules@.len() as int) == Some(
                i as int,
            ) && i < config.vpn_rules@.len(),
            None => first_vpn_rule(config.vpn_rules@, *net, config.vpn_rules@.len() as int) is None,
        },
{
    let n = config.vpn_rules.len();
    let mut i: usize = 0;
    while i < n
        invariant
            n == config.vpn_rules@.len(),
            i <= n,
            first_vpn_rule(config.vpn_rules@, *net, i as int) is None,
        decreases n - i,
    {
        if vpn_rule_hits_exec(&config.vpn_rules[i], net) {
            proof {
                lemma_first_vpn_stable(config.vpn_rules@, *net, i + 1, n as int);
            }
            return Some(i);
        }
        i = i + 1;
    }
    None
}

fn find_ssid_rule(rules: &Vec<NetworkRule>, ssid: &str) -> (r: Option<usize>)
    ensures
        match r {
            Some(i) => first_ssid_rule(rules@, ssid@, rules@.len() as int) == Some(i as int) && i
                < rules@.len(),
            None => first_ssid_rule(rules@, ssid@, rules@.len() as int) is None,
        },
{
    let n = rules.len();
    let mut i: usize = 0;
    while i < n
        invariant
            n == rules@.len(),
            i <= n,
            first_ssid_rule(rules@, ssid@, i as int) is None,
        decreases n - i,
    {
        if let Some(rs) = &rules[i].ssid {
            if str_eq_ignore_ascii_case(rs.as_str(), ssid) {
                proof {
                    lemma_first_ssid_stable(rules@, ssid@, i + 1, n as int);
                }
                return Some(i);
            }
        }
        i = i + 1;
    }
    None
}

fn find_iface_rule(rules: &Vec<NetworkRule>, dev: &str) -> (r: Option<usize>)
    ensures
        match r {
            Some(i) => first_iface_rule(rules@, dev@, rules@.len() as int) == Some(i as int) && i
                < rules@.len(),
            None => first_iface_rule(rules@, dev@, rules@.len() as int) is None,
        },
{
    let n = rules.len();
    let mut i: usize = 0;
    while i < n
        invariant
            n == rules@.len(),
            i <= n,
            first_iface_rule(rules@, dev@, i as int) is None,
        decreases n - i,
    {
        if let Some(ri) = &rules[i].interface {
            if str_eq_ignore_ascii_case(ri.as_str(), dev) {
                proof {
                    lemma_first_iface_stable(rules@, dev@, i + 1, n as int);
                }
                return Some(i);
            }
        }
        i = i + 1;
    }
    None
}

fn find_device_rule(devices: &Vec<String>, rules: &Vec<NetworkRule>) -> (r: Option<usize>)
    ensures
        match r {
            Some(i) => first_device_rule(devices@, rules@, devices@.len() as int) == Some(i as int)
                && i < rules@.len(),
            None => first_device_rule(devices@, rules@, devices@.len() as int) is None,
        },
{
    let m = devices.len();
    let mut d: usize = 0;
    while d < m
        invariant
            m == devices@.len(),
            d <= m,
            first_device_rule(devices@, rules@, d as int) is None,
        decreases m - d,
    {
        if let Some(i) = find_iface_rule(rules, devices[d].as_str()) {
            proof {
                lemma_first_device_stable(devices@, rules@, d + 1, m as int);
            }
            return Some(i);
        }
        d = d + 1;
    }
    None
}

/// The posture chosen for the active network (see `posture_choice`).
pub fn evaluate_posture(config: &AutoFlowConfig, net: &ActiveNetworkInfo) -> (r: Option<String>)
    ensures
        match r {
            Some(p) => posture_choice(*config, *net) == Some(p@),
            None => posture_choice(*config, *net) is None,
        },
{
    if !config.enabled {
        return None;
    }
    if let Some(i) = find_vpn_rule(config, net) {
        return Some(owned(config.vpn_rules[i].profile.as_str()));
    }
    if net.active_vpn.is_some() || net.vpn_tunnels.len() > 0 {
        if let Some(p) = &config.vpn_profile {
            if !p.as_str().is_empty() {
                return Some(owned(p.as_str()));
            }
        }
    }
    if let Some(ssid) = &net.current_ssid {
        if check_evil_twin(config, net).is_some() {
            return Some(owned("travel"));
        }
        if let Some(i) = find_ssid_rule(&config.rules, ssid.as_str()) {
            return Some(owned(config.rules[i].profile.as_str()));
        }
        if !config.default_unknown_wifi.as_str().is_empty() {
            return Some(owned(config.default_unknown_wifi.as_str()));
        }
    }
    match find_device_rule(&net.active_devices, &config.rules) {
        Some(i) => Some(owned(config.rules[i].profile.as_str())),
        None => None,
    }
}

/// On a Wi-Fi network, an evil-twin alert always yields the travel posture
/// unless a VPN rule or the VPN default takes precedence.
pub proof fn lemma_evil_twin_forces_travel(config: AutoFlowConfig, net: ActiveNetworkInfo)
    requires
        config.enabled,
        net.active_vpn is None,
        net.vpn_tunnels@.len() == 0,
        evil_twin_alert(config, net) is Some,
    ensures
        posture_choice(config, net) == Some("travel"@),
{
    lemma_no_vpn_no_rule(config.vpn_rules@, net, config.vpn_rules@.len() as int);
}

proof fn lemma_no_vpn_no_rule(rules: Seq<VpnRule>, net: ActiveNetworkInfo, n: int)
    requires
        net.active_vpn is None,
        net.vpn_tunnels@.len() == 0,
    ensures
        first_vpn_rule(rules, net, n) is None,
    decreases n,
{
    if n > 0 {
        lemma_no_vpn_no_rule(rules, net, n - 1);
    }
}

/// Whether the text `a` equals `b` up to the case of ASCII letters: the same
/// length, and at each position the same character once ASCII capitals are
/// folded to lowercase.
pub open spec fn same_up_to_ascii_case(a: Seq<char>, b: Seq<char>) -> bool {
    a.len() == b.len() && forall|k: int| 0 <= k < a.len() ==> #[trigger] ascii_fold(a[k]) == ascii_fold(b[k])
}

/// A Wi-Fi rule applies only to the network it names: the rule chosen for
/// SSID `s` among the first `n` is the first one whose SSID equals `s` up to
/// ASCII case, and none is chosen when no rule's SSID equals `s` so.
pub proof fn lemma_ssid_rule_names_network(rules: Seq<NetworkRule>, s: Seq<char>, n: int)
    requires
        0 <= n <= rules.len(),
    ensures
        match first_ssid_rule(rules, s, n) {
            Some(i) => {
                &&& 0 <= i < n
                &&& rules[i].ssid is Some
                &&& same_up_to_ascii_case(rules[i].ssid->0@, s)
                &&& forall|j: int| 0 <= j < i ==> !(#[trigger] rules[j].ssid is Some && same_up_to_ascii_case(
                    rules[j].ssid->0@,
                    s,
                ))
            },
            None => forall|j: int| 0 <= j < n ==> !(#[trigger] rules[j].ssid is Some && same_up_to_ascii_case(
                rules[j].ssid->0@,
                s,
            )),
        },
    decreases n,
{
    if n > 0 {
        lemma_ssid_rule_names_network(rules, s, n - 1);
    }
}

/// An interface rule applies only to the device it names: the rule chosen
/// for device `dev` among the first `n` is the first whose interface equals
/// `dev` up to ASCII case, and none is chosen when no interface equals it so.
pub proof fn lemma_iface_rule_names_device(rules: Seq<NetworkRule>, dev: Seq<char>, n: int)
    requires
        0 <= n <= rules.len(),
    ensures
        match first_iface_rule(rules, dev, n) {
            Some(i) => {
                &&& 0 <= i < n
                &&& rules[i].interface is Some
                &&& same_up_to_ascii_case(rules[i].interface->0@, dev)
                &&& forall|j: int|
                    0 <= j < i ==> !(#[trigger] rules[j].interface is Some && same_up_to_ascii_case(
                        rules[j].interface->0@,
                        dev,
                    ))
            },
            None => forall|j: int|
                0 <= j < n ==> !(#[trigger] rules[j].interface is Some && same_up_to_ascii_case(
                    rules[j].interface->0@,
                    dev,
                )),
        },
    decreases n,
{
    if n > 0 {
        lemma_iface_rule_names_device(rules, dev, n - 1);
    }
}

/// Whether the lowercased match name of `rule` occurs in the lowercased name
/// of the active VPN connection or of one of the tunnels.
pub open spec fn vpn_named_by(rule: VpnRule, net: ActiveNetworkInfo) -> bool {
    ||| net.active_vpn is Some && has_substring(lowercased(net.active_vpn->0@), lowercased(rule.match_name@))
    ||| exists|t: int|
        0 <= t < net.vpn_tunnels@.len() && has_substring(
            lowercased(#[trigger] net.vpn_tunnels@[t]@),
            lowercased(rule.match_name@),
        )
}

/// The VPN rule chosen among the first `n` is the first whose match name
/// occurs (ignoring case) in the active VPN's name or a tunnel's; none is
/// chosen when no rule's name occurs there.
pub proof fn lemma_vpn_rule_named(rules: Seq<VpnRule>, net: ActiveNetworkInfo, n: int)
    requires
        0 <= n <= rules.len(),
    ensures
        match first_vpn_rule(rules, net, n) {
            Some(i) => 0 <= i < n && vpn_named_by(rules[i], net) && forall|j: int|
                0 <= j < i ==> !vpn_named_by(#[trigger] rules[j], net),
            None => forall|j: int| 0 <= j < n ==> !vpn_named_by(#[trigger] rules[j], net),
        },
    decreases n,
{
    if n > 0 {
        lemma_vpn_rule_named(rules, net, n - 1);
    }
}

/// On a Wi-Fi network that no rule names (up to ASCII case) and that shows
/// no evil twin, with no VPN up, Auto-Flow chooses the profile for unknown
/// Wi-Fi when one is set.
pub proof fn lemma_unknown_wifi_gets_default(config: AutoFlowConfig, net: ActiveNetworkInfo)
    requires
        config.enabled,
        net.active_vpn is None,
        net.vpn_tunnels@.len() == 0,
        net.current_ssid is Some,
        evil_twin_alert(config, net) is None,
        forall|j: int|
            0 <= j < config.rules@.len() ==> !(#[trigger] config.rules@[j].ssid is Some && same_up_to_ascii_case(
                config.rules@[j].ssid->0@,
                net.current_ssid->0@,
            )),
        config.default_unknown_wifi@.len() > 0,
    ensures
        posture_choice(config, net) == Some(config.default_unknown_wifi@),
{
    lemma_no_vpn_no_rule(config.vpn_rules@, net, config.vpn_rules@.len() as int);
    lemma_ssid_rule_names_network(config.rules@, net.current_ssid->0@, config.rules@.len() as int);
}

/// A disabled Auto-Flow never chooses a posture.
pub proof fn lemma_disabled_chooses_nothing(config: AutoFlowConfig, net: ActiveNetworkInfo)
    requires
        !config.enabled,
    ensures
        posture_choice(config, net) is None,
{
}

/// Whether some rule names the Wi-Fi network `ssid`.
pub open spec fn names_ssid(rules: Seq<NetworkRule>, ssid: Seq<char>) -> bool {
    exists|i: int| 0 <= i < rules.len() && #[trigger] rules[i].ssid is Some && rules[i].ssid->0@ == ssid
}

/// A configuration with a rule for the current Wi-Fi network: when there is
/// one that no rule of `base` names, a rule sending it to home, commented
/// `Current Wi-Fi: <ssid>`, is placed first; otherwise `base` is unchanged.
/// (Applied to the default configuration when none is saved.)
pub fn with_current_wifi(base: AutoFlowConfig, current_ssid: Option<&str>) -> (r: AutoFlowConfig)
    ensures
        r.enabled == base.enabled,
        r.default_unknown_wifi == base.default_unknown_wifi,
        r.vpn_profile == base.vpn_profile,
        r.vpn_rules == base.vpn_rules,
        match current_ssid {
            Some(ssid) => if !names_ssid(base.rules@, ssid@) {
                &&& r.rules@.len() == base.rules@.len() + 1
                &&& r.rules@[0].ssid is Some && r.rules@[0].ssid->0@ == ssid@
                &&& r.rules@[0].bssid is None && r.rules@[0].gateway_mac is None && r.rules@[0].interface is None
                &&& r.rules@[0].profile@ == "home"@
                &&& r.rules@[0].comment is Some && r.rules@[0].comment->0@ == "Current Wi-Fi: "@ + ssid@
                &&& r.rules@.subrange(1, r.rules@.len() as int) == base.rules@
            } else {
                r.rules@ == base.rules@
            },
            None => r.rules@ == base.rules@,
        },
{
    let mut cfg = base;
    match current_ssid {
        Some(ssid) => {
            let mut found = false;
            let mut i: usize = 0;
            while i < cfg.rules.len()
                invariant
                    cfg.rules@ == base.rules@,
                    i <= cfg.rules@.len(),
                    found == exists|j: int|
                        0 <= j < i && #[trigger] cfg.rules@[j].ssid is Some && cfg.rules@[j].ssid->0@ == ssid@,
                decreases cfg.rules.len() - i,
            {
                match &cfg.rules[i].ssid {
                    Some(s) => if str_eq(s.as_str(), ssid) {
                        found = true;
                    },
                    None => {},
                }
                i = i + 1;
            }
            if !found {
                let rule = NetworkRule {
                    ssid: Some(owned(ssid)),
                    bssid: None,
                    gateway_mac: None,
                    interface: None,
                    profile: owned("home"),
                    comment: Some(join2("Current Wi-Fi: ", ssid)),
                };
                cfg.rules.insert(0, rule);
                assert(cfg.rules@.subrange(1, cfg.rules@.len() as int) =~= base.rules@);
            }
            cfg
        },
        None => cfg,
    }
}

} // verus!
