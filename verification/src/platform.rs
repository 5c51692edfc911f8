//! Windows: the named-pipe protocol between the service and its clients,
//! and the `netsh` and `powercfg` commands that apply a profile.
use vstd::prelude::*;
use crate::config::schema::{ProfileConfig, PortRule};
use vstd::string::StrSliceExecFns;
use crate::text::{owned, str_eq, str_contains, has_substring, chars_of, string_of, starts_with, fmt_u32, decimal, join2, join3, string_views};

verus! {

/// The pipe the Windows service listens on.
pub const POSTUREFLOW_PIPE_NAME: &'static str = "\\\\.\\pipe\\PostureFlowPipe";

/// A request sent over the pipe.
#[derive(Debug, Clone)]
pub enum PipeRequest {
    GetActiveProfile,
    ApplyProfile(String),
    GetStatus,
    ResetDefaults,
    BlockPort { port: u16, proto: String },
}

/// A response sent over the pipe.
#[derive(Debug, Clone)]
pub enum PipeResponse {
    ActiveProfile(String),
    Status(String),
    Success(String),
    Error(String),
}

/// The High Performance power scheme.
pub const SCHEME_MAX_PERF: &'static str = "8c5e7fda-e8bf-4a96-9a85-a6e23a8c635c";

/// The Balanced power scheme.
pub const SCHEME_BALANCED: &'static str = "381b4222-f694-41f0-9685-ff5bb260df2e";

/// The Power Saver scheme.
pub const SCHEME_MIN_POWER: &'static str = "a1841308-3541-4fab-bc81-f71556f20b4a";

/// The power scheme of a profile: High Performance for dev, Power Saver for
/// travel, Balanced otherwise.
pub fn windows_power_scheme(profile_id: &str) -> (r: &'static str)
    ensures
        r@ == if profile_id@ == "dev"@ {
            SCHEME_MAX_PERF@
        } else if profile_id@ == "travel"@ {
            SCHEME_MIN_POWER@
        } else {
            SCHEME_BALANCED@
        },
{
    if str_eq(profile_id, "dev") {
        SCHEME_MAX_PERF
    } else if str_eq(profile_id, "travel") {
        SCHEME_MIN_POWER
    } else {
        SCHEME_BALANCED
    }
}

/// The `powercfg` arguments that set the idle timeouts for `seconds`: the
/// monitor turns off after that many minutes (at least one) and the machine
/// sleeps after twice as long on AC, as long on battery.
pub fn windows_idle_commands(seconds: u32) -> (r: Vec<Vec<String>>)
    ensures
        ({
            let m: nat = if seconds / 60 >= 1 {
                (seconds / 60) as nat
            } else {
                1
            };
            r@.map_values(|c: Vec<String>| string_views(c@)) == seq![
                seq!["/change"@, "monitor-timeout-ac"@, decimal(m)],
                seq!["/change"@, "monitor-timeout-dc"@, decimal(m)],
                seq!["/change"@, "standby-timeout-ac"@, decimal(m * 2)],
                seq!["/change"@, "standby-timeout-dc"@, decimal(m)],
            ]
        }),
{
    let minutes: u32 = if seconds / 60 >= 1 {
        seconds / 60
    } else {
        1
    };
    let m = fmt_u32(minutes);
    let m2 = fmt_u32(minutes * 2);
    let mut r: Vec<Vec<String>> = Vec::new();
    add_command(&mut r, cmd3("/change", "monitor-timeout-ac", m.as_str()));
    add_command(&mut r, cmd3("/change", "monitor-timeout-dc", m.as_str()));
    add_command(&mut r, cmd3("/change", "standby-timeout-ac", m2.as_str()));
    add_command(&mut r, cmd3("/change", "standby-timeout-dc", m.as_str()));
    proof {
        let mv: nat = if seconds / 60 >= 1 {
            (seconds / 60) as nat
        } else {
            1
        };
        assert(minutes as nat == mv);
        assert(commands_view(r@) =~= seq![
            seq!["/change"@, "monitor-timeout-ac"@, decimal(mv)],
            seq!["/change"@, "monitor-timeout-dc"@, decimal(mv)],
            seq!["/change"@, "standby-timeout-ac"@, decimal(mv * 2)],
            seq!["/change"@, "standby-timeout-dc"@, decimal(mv)],
        ]);
    }
    r
}

fn cmd3(a: &str, b: &str, c: &str) -> (r: Vec<String>)
    ensures
        string_views(r@) == seq![a@, b@, c@],
{
    let r = vec![owned(a), owned(b), owned(c)];
    assert(string_views(r@) =~= seq![a@, b@, c@]);
    r
}

/// The views of a list of commands.
pub open spec fn commands_view(v: Seq<Vec<String>>) -> Seq<Seq<Seq<char>>> {
    v.map_values(|c: Vec<String>| string_views(c@))
}

fn add_command(cmds: &mut Vec<Vec<String>>, args: Vec<String>)
    ensures
        commands_view(final(cmds)@) == commands_view(old(cmds)@).push(string_views(args@)),
{
    let ghost before = cmds@;
    let ghost a = string_views(args@);
    cmds.push(args);
    assert(commands_view(cmds@) =~= commands_view(before).push(a));
}

/// `s` ends with `suf`.
pub open spec fn ends_with(s: Seq<char>, suf: Seq<char>) -> bool {
    suf.len() <= s.len() && s.subrange(s.len() - suf.len(), s.len() as int) == suf
}

/// `s` with every trailing repetition of `suf` removed (`str::trim_end_matches`).
pub open spec fn trim_end_all(s: Seq<char>, suf: Seq<char>) -> Seq<char>
    decreases s.len(),
{
    if suf.len() > 0 && ends_with(s, suf) {
        trim_end_all(s.subrange(0, s.len() - suf.len()), suf)
    } else {
        s
    }
}

fn ends_with_at(s: &[char], n: usize, suf: &[char]) -> (r: bool)
    requires
        n <= s@.len(),
    ensures
        r == ends_with(s@.subrange(0, n as int), suf@),
{
    if suf.len() > n {
        return false;
    }
    let mut k: usize = 0;
    while k < suf.len()
        invariant
            suf@.len() <= n <= s@.len(),
            k <= suf@.len(),
            forall|j: int| 0 <= j < k ==> s@[n - suf@.len() + j] == suf@[j],
        decreases suf.len() - k,
    {
        if s[n - suf.len() + k] != suf[k] {
            proof {
                let t = s@.subrange(0, n as int);
                assert(t.subrange(t.len() - suf@.len(), t.len() as int)[k as int] != suf@[k as int]);
            }
            return false;
        }
        k = k + 1;
    }
    proof {
        let t = s@.subrange(0, n as int);
        assert(t.subrange(t.len() - suf@.len(), t.len() as int) =~= suf@);
    }
    true
}

fn trim_end_all_exec(s: &[char], suf: &[char]) -> (r: Vec<char>)
    ensures
        r@ == trim_end_all(s@, suf@),
{
    let mut n = s.len();
    assert(s@.subrange(0, n as int) =~= s@);
    while suf.len() > 0 && ends_with_at(s, n, suf)
        invariant
            n <= s@.len(),
            trim_end_all(s@.subrange(0, n as int), suf@) == trim_end_all(s@, suf@),
        decreases n,
    {
        proof {
            let t = s@.subrange(0, n as int);
            assert(t.subrange(0, t.len() - suf@.len()) =~= s@.subrange(0, n - suf@.len()));
        }
        n = n - suf.len();
    }
    let mut out: Vec<char> = Vec::new();
    let mut i: usize = 0;
    while i < n
        invariant
            n <= s@.len(),
            i <= n,
            out@ == s@.subrange(0, i as int),
            trim_end_all(s@.subrange(0, n as int), suf@) == trim_end_all(s@, suf@),
            !(suf@.len() > 0 && ends_with(s@.subrange(0, n as int), suf@)),
        decreases n - i,
    {
        out.push(s[i]);
        i = i + 1;
        assert(out@ =~= s@.subrange(0, i as int));
    }
    out
}

/// The `netsh` arguments that allow a profile port: named after the port,
/// inbound, UDP when the rule names udp and TCP otherwise, on the port
/// without its `/tcp` and `/udp` endings, described by the rule's comment when
/// it has one.
pub open spec fn port_rule_args(r: PortRule) -> Seq<Seq<char>> {
    let port = r.port@;
    let proto = if has_substring(port, "udp"@) {
        "UDP"@
    } else {
        "TCP"@
    };
    let clean = trim_end_all(trim_end_all(port, "/tcp"@), "/udp"@);
    seq![
        "advfirewall"@, "firewall"@, "add"@, "rule"@, "name=PostureFlow-Port-"@ + port, "dir=in"@, "action=allow"@,
        "protocol="@ + proto, "localport="@ + clean, "enable=yes"@,
    ] + if r.comment@.len() > 0 {
        seq!["description="@ + r.comment@]
    } else {
        Seq::empty()
    }
}

/// The commands for a list of port rules, in order.
pub open spec fn port_rules_args(rules: Seq<PortRule>) -> Seq<Seq<Seq<char>>>
    decreases rules.len(),
{
    if rules.len() == 0 {
        Seq::empty()
    } else {
        port_rules_args(rules.drop_last()).push(port_rule_args(rules.last()))
    }
}

/// The cleanup of earlier PostureFlow rules: the dev ports, the ICMP block
/// and the loopback rules.
pub open spec fn windows_cleanup_args() -> Seq<Seq<Seq<char>>> {
    seq![
        seq!["advfirewall"@, "firewall"@, "delete"@, "rule"@, "name=PostureFlow-Port-3000"@],
        seq!["advfirewall"@, "firewall"@, "delete"@, "rule"@, "name=PostureFlow-Port-5000"@],
        seq!["advfirewall"@, "firewall"@, "delete"@, "rule"@, "name=PostureFlow-Port-5173"@],
        seq!["advfirewall"@, "firewall"@, "delete"@, "rule"@, "name=PostureFlow-Port-8000"@],
        seq!["advfirewall"@, "firewall"@, "delete"@, "rule"@, "name=PostureFlow-Port-8080"@],
        seq!["advfirewall"@, "firewall"@, "delete"@, "rule"@, "name=PostureFlow-Port-8888"@],
        seq!["advfirewall"@, "firewall"@, "delete"@, "rule"@, "name=PostureFlow-Port-9000"@],
        seq!["advfirewall"@, "firewall"@, "delete"@, "rule"@, "name=PostureFlow-Block-ICMP"@],
        seq!["advfirewall"@, "firewall"@, "delete"@, "rule"@, "name=PostureFlow-Loopback-In"@],
        seq!["advfirewall"@, "firewall"@, "delete"@, "rule"@, "name=PostureFlow-Loopback-Out"@],
    ]
}

/// The `netsh` commands that apply a profile's firewall on Windows: the
/// default policies, the cleanup of earlier rules, loopback (when allowed),
/// RDP and SSH anti-lockout, the profile's ports, and, for the travel
/// profile, blocking ICMP echo requests.
pub open spec fn windows_firewall_spec(c: ProfileConfig) -> Seq<Seq<Seq<char>>> {
    let inbound = if c.firewall.default_incoming@ == "allow"@ {
        "allowinbound"@
    } else {
        "blockinbound"@
    };
    let outbound = if c.firewall.default_outgoing@ == "deny"@ || c.firewall.default_outgoing@ == "block"@ {
        "blockoutbound"@
    } else {
        "allowoutbound"@
    };
    seq![seq!["advfirewall"@, "set"@, "allprofiles"@, "firewallpolicy"@, inbound + ","@ + outbound]]
        + windows_cleanup_args() + (if c.firewall.allow_loopback {
        seq![
            seq![
                "advfirewall"@, "firewall"@, "add"@, "rule"@, "name=PostureFlow-Loopback-In"@, "dir=in"@,
                "action=allow"@, "remoteip=127.0.0.1"@, "enable=yes"@,
            ],
            seq![
                "advfirewall"@, "firewall"@, "add"@, "rule"@, "name=PostureFlow-Loopback-Out"@, "dir=out"@,
                "action=allow"@, "remoteip=127.0.0.1"@, "enable=yes"@,
            ],
        ]
    } else {
        Seq::empty()
    }) + seq![
        seq![
            "advfirewall"@, "firewall"@, "add"@, "rule"@, "name=PostureFlow-AntiLockout-RDP"@, "dir=in"@,
            "action=allow"@, "protocol=TCP"@, "localport=3389"@, "enable=yes"@,
        ],
        seq![
            "advfirewall"@, "firewall"@, "add"@, "rule"@, "name=PostureFlow-AntiLockout-SSH"@, "dir=in"@,
            "action=allow"@, "protocol=TCP"@, "localport=22"@, "enable=yes"@,
        ],
    ] + port_rules_args(c.firewall.allow_ports@) + if c.profile.id@ == "travel"@ {
        seq![
            seq![
                "advfirewall"@, "firewall"@, "add"@, "rule"@, "name=PostureFlow-Block-ICMP"@,
                "protocol=icmpv4:8,any"@, "dir=in"@, "action=block"@, "enable=yes"@,
            ],
        ]
    } else {
        Seq::empty()
    }
}

fn strs_to_vec(args: &[&str]) -> (r: Vec<String>)
    ensures
        string_views(r@) == args@.map_values(|a: &str| a@),
{
    let mut v: Vec<String> = Vec::new();
    let mut i: usize = 0;
    while i < args.len()
        invariant
            i <= args@.len(),
            v@.len() == i,
            forall|j: int| 0 <= j < i ==> #[trigger] v@[j]@ == args@[j]@,
        decreases args.len() - i,
    {
        v.push(owned(args[i]));
        i = i + 1;
    }
    assert(string_views(v@) =~= args@.map_values(|a: &str| a@));
    v
}

fn port_rule_command(r: &PortRule) -> (v: Vec<String>)
    ensures
        string_views(v@) == port_rule_args(*r),
{
    let port = r.port.as_str();
    let proto: &str = if str_contains(port, "udp") {
        "UDP"
    } else {
        "TCP"
    };
    let pc = chars_of(port);
    let a = trim_end_all_exec(pc.as_slice(), chars_of("/tcp").as_slice());
    let b = trim_end_all_exec(a.as_slice(), chars_of("/udp").as_slice());
    let clean = string_of(b.as_slice());
    let mut v: Vec<String> = Vec::new();
    v.push(owned("advfirewall"));
    v.push(owned("firewall"));
    v.push(owned("add"));
    v.push(owned("rule"));
    v.push(join2("name=PostureFlow-Port-", port));
    v.push(owned("dir=in"));
    v.push(owned("action=allow"));
    v.push(join2("protocol=", proto));
    v.push(join2("localport=", clean.as_str()));
    v.push(owned("enable=yes"));
    if r.comment.unicode_len() > 0 {
        v.push(join2("description=", r.comment.as_str()));
    }
    assert(string_views(v@) =~= port_rule_args(*r));
    v
}

/// The `netsh` commands that apply a profile's firewall on Windows (see
/// `windows_firewall_spec`).
#[verifier::rlimit(30)]
pub fn windows_firewall_commands(config: &ProfileConfig) -> (r: Vec<Vec<String>>)
    ensures
        commands_view(r@) == windows_firewall_spec(*config),
{
    let inbound: &str = if str_eq(config.firewall.default_incoming.as_str(), "allow") {
        "allowinbound"
    } else {
        "blockinbound"
    };
    let out = config.firewall.default_outgoing.as_str();
    let outbound: &str = if str_eq(out, "deny") || str_eq(out, "block") {
        "blockoutbound"
    } else {
        "allowoutbound"
    };
    let mut cmds: Vec<Vec<String>> = Vec::new();
    let policy = join3(inbound, ",", outbound);
    add_command(&mut cmds, strs_to_vec(&["advfirewall", "set", "allprofiles", "firewallpolicy", policy.as_str()]));
    let ghost s1 = commands_view(cmds@);
    add_command(&mut cmds, strs_to_vec(&["advfirewall", "firewall", "delete", "rule", "name=PostureFlow-Port-3000"]));
    add_command(&mut cmds, strs_to_vec(&["advfirewall", "firewall", "delete", "rule", "name=PostureFlow-Port-5000"]));
    add_command(&mut cmds, strs_to_vec(&["advfirewall", "firewall", "delete", "rule", "name=PostureFlow-Port-5173"]));
    add_command(&mut cmds, strs_to_vec(&["advfirewall", "firewall", "delete", "rule", "name=PostureFlow-Port-8000"]));
    add_command(&mut cmds, strs_to_vec(&["advfirewall", "firewall", "delete", "rule", "name=PostureFlow-Port-8080"]));
    add_command(&mut cmds, strs_to_vec(&["advfirewall", "firewall", "delete", "rule", "name=PostureFlow-Port-8888"]));
    add_command(&mut cmds, strs_to_vec(&["advfirewall", "firewall", "delete", "rule", "name=PostureFlow-Port-9000"]));
    add_command(&mut cmds, strs_to_vec(&["advfirewall", "firewall", "delete", "rule", "name=PostureFlow-Block-ICMP"]));
    add_command(&mut cmds, strs_to_vec(&["advfirewall", "firewall", "delete", "rule", "name=PostureFlow-Loopback-In"]));
    add_command(&mut cmds, strs_to_vec(&["advfirewall", "firewall", "delete", "rule", "name=PostureFlow-Loopback-Out"]));
    let ghost s2 = commands_view(cmds@);
    proof {
        assert(s2 =~~= s1 + windows_cleanup_args());
    }
    if config.firewall.allow_loopback {
        add_command(
            &mut cmds,
            strs_to_vec(
                &[
                    "advfirewall",
                    "firewall",
                    "add",
                    "rule",
                    "name=PostureFlow-Loopback-In",
                    "dir=in",
                    "action=allow",
                    "remoteip=127.0.0.1",
                    "enable=yes",
                ],
            ),
        );
        add_command(
            &mut cmds,
            strs_to_vec(
                &[
                    "advfirewall",
                    "firewall",
                    "add",
                    "rule",
                    "name=PostureFlow-Loopback-Out",
                    "dir=out",
                    "action=allow",
                    "remoteip=127.0.0.1",
                    "enable=yes",
                ],
            ),
        );
    }
    let ghost s3 = commands_view(cmds@);
    add_command(
        &mut cmds,
        strs_to_vec(
            &[
                "advfirewall",
                "firewall",
                "add",
                "rule",
                "name=PostureFlow-AntiLockout-RDP",
                "dir=in",
                "action=allow",
                "protocol=TCP",
                "localport=3389",
                "enable=yes",
            ],
        ),
    );
    add_command(
        &mut cmds,
        strs_to_vec(
            &[
                "advfirewall",
                "firewall",
                "add",
                "rule",
                "name=PostureFlow-AntiLockout-SSH",
                "dir=in",
                "action=allow",
                "protocol=TCP",
                "localport=22",
                "enable=yes",
            ],
        ),
    );
    let ghost s4 = commands_view(cmds@);
    let mut k: usize = 0;
    while k < config.firewall.allow_ports.len()
        invariant
            k <= config.firewall.allow_ports@.len(),
            commands_view(cmds@) == s4 + port_rules_args(config.firewall.allow_ports@.subrange(0, k as int)),
        decreases config.firewall.allow_ports.len() - k,
    {
        add_command(&mut cmds, port_rule_command(&config.firewall.allow_ports[k]));
        proof {
            let t = config.firewall.allow_ports@.subrange(0, k + 1);
            assert(t.drop_last() =~= config.firewall.allow_ports@.subrange(0, k as int));
        }
        k = k + 1;
    }
    proof {
        assert(config.firewall.allow_ports@.subrange(0, config.firewall.allow_ports@.len() as int)
            =~= config.firewall.allow_ports@);
    }
    let ghost s5 = commands_view(cmds@);
    if str_eq(config.profile.id.as_str(), "travel") {
        add_command(
            &mut cmds,
            strs_to_vec(
                &[
                    "advfirewall",
                    "firewall",
                    "add",
                    "rule",
                    "name=PostureFlow-Block-ICMP",
                    "protocol=icmpv4:8,any",
                    "dir=in",
                    "action=block",
                    "enable=yes",
                ],
            ),
        );
    }
    proof {
        assert(commands_view(cmds@) =~~= windows_firewall_spec(*config));
    }
    cmds
}

} // verus!
