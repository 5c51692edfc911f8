//! Applying a posture to the machine, as a plan of steps: the kernel and
//! limits files to write, the firewall commands to run, the desktop and power
//! settings to change, and where the active profile is recorded.
use vstd::prelude::*;
use crate::config::schema::{ProfileConfig, PortRule, SecurityLimitsConfig};
use crate::config::{find_profile, requested_key};
use crate::profile::Profile;
use crate::text::{
    owned, str_eq, chars_of, contains_char, join2, join3, join5, fmt_u32, fmt_u64, decimal, trim_str, trimmed,
    to_upper, uppercased, lowercased, str_contains, has_substring, string_views, opt_view,
};
use vstd::string::StringExecFns;

verus! {

/// Where a privileged run records the active profile.
pub const STATE_FILE: &'static str = "/etc/popos-security-profile";

/// The kernel settings file that profiles write.
pub const SYSCTL_CONF: &'static str = "/etc/sysctl.d/99-popos-security.conf";

/// The resource limits file that profiles write.
pub const LIMITS_CONF: &'static str = "/etc/security/limits.d/99-popos-security.conf";

/// What a step of a plan does; its arguments are listed with each kind.
#[derive(Debug, Clone, Copy, PartialEq, Eq, Structural)]
pub enum StepKind {
    /// Write the kernel settings file (argument: its contents); a failure ends the plan with an error.
    WriteSysctlConf,
    /// Load the kernel settings file (`sysctl -p`).
    LoadSysctlConf,
    /// Write the resource limits file (argument: its contents).
    WriteLimitsConf,
    /// Run `ufw` with the arguments.
    Ufw,
    /// Run `ufw` with the arguments when the interface (fourth argument) exists.
    UfwOnInterface,
    /// Open SSH when a remote session or an SSH server is present.
    EnsureSshSafety,
    /// Set the desktop's idle delay (argument: seconds).
    SetIdleDelay,
    /// Select the platform power profile (argument: its name).
    PowerProfile,
    /// Limit battery charging (argument: percent).
    ChargeLimit,
    /// Record the active profile (argument: its id); a failure ends the plan with an error.
    SaveState,
    /// Remove the record of the active profile.
    RemoveState,
    /// Remove a file (argument: its path).
    RemoveFile,
    /// Reload all kernel settings files (`sysctl --system`).
    ReloadAllSysctl,
}

/// One step of a plan.
#[derive(Debug)]
pub struct PlanStep {
    pub kind: StepKind,
    pub args: Vec<String>,
}

/// The view of a step: its kind and arguments.
pub open spec fn step_view(s: PlanStep) -> (StepKind, Seq<Seq<char>>) {
    (s.kind, string_views(s.args@))
}

/// The views of a plan's steps.
pub open spec fn steps_view(v: Seq<PlanStep>) -> Seq<(StepKind, Seq<Seq<char>>)> {
    v.map_values(|s: PlanStep| step_view(s))
}

fn add_args(steps: &mut Vec<PlanStep>, kind: StepKind, args: Vec<String>)
    ensures
        steps_view(final(steps)@) == steps_view(old(steps)@).push((kind, string_views(args@))),
{
    let ghost before = steps@;
    let ghost expected = string_views(args@);
    steps.push(PlanStep { kind, args });
    assert(steps_view(steps@) =~= steps_view(before).push((kind, expected)));
}

fn add0(steps: &mut Vec<PlanStep>, kind: StepKind)
    ensures
        steps_view(final(steps)@) == steps_view(old(steps)@).push((kind, Seq::empty())),
{
    let v: Vec<String> = Vec::new();
    assert(string_views(v@) =~= Seq::<Seq<char>>::empty());
    add_args(steps, kind, v);
}

fn add1(steps: &mut Vec<PlanStep>, kind: StepKind, a: &str)
    ensures
        steps_view(final(steps)@) == steps_view(old(steps)@).push((kind, seq![a@])),
{
    let v = vec![owned(a)];
    assert(string_views(v@) =~= seq![a@]);
    add_args(steps, kind, v);
}

fn add2(steps: &mut Vec<PlanStep>, kind: StepKind, a: &str, b: &str)
    ensures
        steps_view(final(steps)@) == steps_view(old(steps)@).push((kind, seq![a@, b@])),
{
    let v = vec![owned(a), owned(b)];
    assert(string_views(v@) =~= seq![a@, b@]);
    add_args(steps, kind, v);
}

fn add3(steps: &mut Vec<PlanStep>, kind: StepKind, a: &str, b: &str, c: &str)
    ensures
        steps_view(final(steps)@) == steps_view(old(steps)@).push((kind, seq![a@, b@, c@])),
{
    let v = vec![owned(a), owned(b), owned(c)];
    assert(string_views(v@) =~= seq![a@, b@, c@]);
    add_args(steps, kind, v);
}

fn add4(steps: &mut Vec<PlanStep>, kind: StepKind, a: &str, b: &str, c: &str, d: &str)
    ensures
        steps_view(final(steps)@) == steps_view(old(steps)@).push((kind, seq![a@, b@, c@, d@])),
{
    let v = vec![owned(a), owned(b), owned(c), owned(d)];
    assert(string_views(v@) =~= seq![a@, b@, c@, d@]);
    add_args(steps, kind, v);
}

fn add6(steps: &mut Vec<PlanStep>, kind: StepKind, a: &str, b: &str, c: &str, d: &str, e: &str, f: &str)
    ensures
        steps_view(final(steps)@) == steps_view(old(steps)@).push((kind, seq![a@, b@, c@, d@, e@, f@])),
{
    let v = vec![owned(a), owned(b), owned(c), owned(d), owned(e), owned(f)];
    assert(string_views(v@) =~= seq![a@, b@, c@, d@, e@, f@]);
    add_args(steps, kind, v);
}

/// The contents of the kernel settings file: one `key = value` line per setting.
pub open spec fn sysctl_conf(p: Seq<(Seq<char>, Seq<char>)>) -> Seq<char>
    decreases p.len(),
{
    if p.len() == 0 {
        Seq::empty()
    } else {
        sysctl_conf(p.drop_last()) + p.last().0 + " = "@ + p.last().1 + "\n"@
    }
}

/// The contents of the limits file: the core-dump limit and the soft and hard
/// open-file limits that are set.
pub open spec fn limits_conf(l: SecurityLimitsConfig) -> Seq<char> {
    (match l.core_dump {
        Some(c) => "* soft core "@ + c@ + "\n"@,
        None => Seq::empty(),
    }) + (match l.nofile_soft {
        Some(n) => "* soft nofile "@ + decimal(n as nat) + "\n"@,
        None => Seq::empty(),
    }) + (match l.nofile_hard {
        Some(n) => "* hard nofile "@ + decimal(n as nat) + "\n"@,
        None => Seq::empty(),
    })
}

/// The port rules that profiles may have opened, removed before a profile's own.
pub open spec fn cleanup_rules() -> Seq<Seq<char>> {
    seq![
        "3000/tcp"@, "5000/tcp"@, "5173/tcp"@, "8000/tcp"@, "8080/tcp"@, "8888/tcp"@, "9000/tcp"@,
        "3000:3005/tcp"@, "1714:1764/tcp"@, "1714:1764/udp"@, "53317/tcp"@, "53317/udp"@,
        "27031:27036/udp"@, "27036:27037/tcp"@, "27040/tcp"@, "5353/udp"@, "1900/udp"@, "631/tcp"@,
    ]
}

/// The rules that profiles may have opened, to be deleted with `ufw delete allow`.
pub fn clean_ufw_custom_rules() -> (r: Vec<String>)
    ensures
        string_views(r@) == cleanup_rules(),
{
    let items: [&str; 18] = [
        "3000/tcp",
        "5000/tcp",
        "5173/tcp",
        "8000/tcp",
        "8080/tcp",
        "8888/tcp",
        "9000/tcp",
        "3000:3005/tcp",
        "1714:1764/tcp",
        "1714:1764/udp",
        "53317/tcp",
        "53317/udp",
        "27031:27036/udp",
        "27036:27037/tcp",
        "27040/tcp",
        "5353/udp",
        "1900/udp",
        "631/tcp",
    ];
    let mut r: Vec<String> = Vec::new();
    let mut i: usize = 0;
    while i < 18
        invariant
            i <= 18,
            items@.len() == 18,
            r@.len() == i,
            forall|j: int| 0 <= j < i ==> #[trigger] r@[j]@ == items@[j]@,
        decreases 18 - i,
    {
        r.push(owned(items[i]));
        i = i + 1;
    }
    assert(string_views(r@) =~= cleanup_rules());
    r
}

/// The steps deleting the rules that profiles may have opened.
pub open spec fn cleanup_steps() -> Seq<(StepKind, Seq<Seq<char>>)> {
    cleanup_rules().map_values(|r: Seq<char>| (StepKind::Ufw, seq!["delete"@, "allow"@, r]))
}

/// The steps opening the profile's interfaces, in and out; an interface name
/// with `+` is a pattern and is opened whether or not it exists.
pub open spec fn interface_steps(ifaces: Seq<String>) -> Seq<(StepKind, Seq<Seq<char>>)>
    decreases ifaces.len(),
{
    if ifaces.len() == 0 {
        Seq::empty()
    } else {
        let i = ifaces.last()@;
        let kind = if i.contains('+') {
            StepKind::Ufw
        } else {
            StepKind::UfwOnInterface
        };
        interface_steps(ifaces.drop_last()).push(
            (kind, seq!["allow"@, "in"@, "on"@, i, "comment"@, "Profile Interface"@]),
        ).push((kind, seq!["allow"@, "out"@, "on"@, i, "comment"@, "Profile Interface"@]))
    }
}

/// The steps opening the profile's ports, with their comments when they have one.
pub open spec fn port_steps(rules: Seq<PortRule>) -> Seq<(StepKind, Seq<Seq<char>>)>
    decreases rules.len(),
{
    if rules.len() == 0 {
        Seq::empty()
    } else {
        let r = rules.last();
        port_steps(rules.drop_last()).push(
            if r.comment@.len() > 0 {
                (StepKind::Ufw, seq!["allow"@, r.port@, "comment"@, r.comment@])
            } else {
                (StepKind::Ufw, seq!["allow"@, r.port@])
            },
        )
    }
}

/// The plan that applies a profile. Without privileges it only records the
/// profile as active. With them: SSH safety first, before the firewall is
/// touched; then the kernel settings (when there are any), the limits (when
/// any is set), the firewall's default policies, loopback (when allowed),
/// the removal of earlier port rules, the profile's interfaces and ports,
/// the firewall switched on, the idle
/// delay, the power profile and charge limit (when set), and the record of
/// the active profile.
pub open spec fn profile_steps(c: ProfileConfig, privileged: bool) -> Seq<(StepKind, Seq<Seq<char>>)> {
    let id = c.profile.id@;
    if !privileged {
        seq![(StepKind::SaveState, seq![id])]
    } else {
        let kernel = c.kernel.pairs();
        let lc = limits_conf(c.limits);
        seq![(StepKind::EnsureSshSafety, Seq::empty())] + (if kernel.len() > 0 {
            seq![(StepKind::WriteSysctlConf, seq![sysctl_conf(kernel)]), (StepKind::LoadSysctlConf, Seq::empty())]
        } else {
            Seq::empty()
        }) + (if lc.len() > 0 {
            seq![(StepKind::WriteLimitsConf, seq![lc])]
        } else {
            Seq::empty()
        }) + seq![
            (StepKind::Ufw, seq!["--force"@, "default"@, c.firewall.default_incoming@, "incoming"@]),
            (StepKind::Ufw, seq!["--force"@, "default"@, c.firewall.default_outgoing@, "outgoing"@]),
        ] + (if c.firewall.allow_loopback {
            seq![
                (StepKind::Ufw, seq!["allow"@, "in"@, "on"@, "lo"@]),
                (StepKind::Ufw, seq!["allow"@, "out"@, "on"@, "lo"@]),
            ]
        } else {
            Seq::empty()
        }) + cleanup_steps() + interface_steps(c.firewall.allow_interfaces@) + port_steps(
            c.firewall.allow_ports@,
        ) + seq![(StepKind::Ufw, seq!["--force"@, "enable"@])] + (
        match c.desktop.idle_delay_seconds {
            Some(s) => seq![(StepKind::SetIdleDelay, seq![decimal(s as nat)])],
            None => Seq::empty(),
        }) + (match c.power.power_profile {
            Some(p) => seq![(StepKind::PowerProfile, seq![p@])],
            None => Seq::empty(),
        }) + (match c.power.battery_charge_limit {
            Some(n) => seq![(StepKind::ChargeLimit, seq![decimal(n as nat)])],
            None => Seq::empty(),
        }) + seq![(StepKind::SaveState, seq![id])]
    }
}

/// The step that switches the firewall on.
pub open spec fn firewall_on_step() -> (StepKind, Seq<Seq<char>>) {
    (StepKind::Ufw, seq!["--force"@, "enable"@])
}

/// The steps that allow loopback traffic in and out.
pub open spec fn loopback_steps() -> Seq<(StepKind, Seq<Seq<char>>)> {
    seq![
        (StepKind::Ufw, seq!["allow"@, "in"@, "on"@, "lo"@]),
        (StepKind::Ufw, seq!["allow"@, "out"@, "on"@, "lo"@]),
    ]
}

/// Every step of `s` satisfies `p`.
pub open spec fn all_steps(s: Seq<(StepKind, Seq<Seq<char>>)>, p: spec_fn((StepKind, Seq<Seq<char>>)) -> bool) -> bool {
    forall|j: int| 0 <= j < s.len() ==> p(#[trigger] s[j])
}

/// A step that is not the one switching the firewall on.
pub open spec fn not_enabling(st: (StepKind, Seq<Seq<char>>)) -> bool {
    st != firewall_on_step()
}

/// A step that removes no file and reloads no settings but its own: not a
/// removal of a file or of the state record, nor a reload of every kernel
/// settings file.
pub open spec fn keeps_other_files(st: (StepKind, Seq<Seq<char>>)) -> bool {
    st.0 != StepKind::RemoveFile && st.0 != StepKind::RemoveState && st.0 != StepKind::ReloadAllSysctl
}

proof fn lemma_all_steps_concat(
    a: Seq<(StepKind, Seq<Seq<char>>)>,
    b: Seq<(StepKind, Seq<Seq<char>>)>,
    p: spec_fn((StepKind, Seq<Seq<char>>)) -> bool,
)
    requires
        all_steps(a, p),
        all_steps(b, p),
    ensures
        all_steps(a + b, p),
{
    assert forall|j: int| 0 <= j < (a + b).len() implies p(#[trigger] (a + b)[j]) by {
        if j < a.len() {
            assert((a + b)[j] == a[j]);
        } else {
            assert((a + b)[j] == b[j - a.len()]);
        }
    }
}

proof fn lemma_interface_steps_shape(ifaces: Seq<String>)
    ensures
        forall|j: int|
            0 <= j < interface_steps(ifaces).len() ==> (#[trigger] interface_steps(ifaces)[j]).1.len() == 6 && (
            interface_steps(ifaces)[j].0 == StepKind::Ufw || interface_steps(ifaces)[j].0 == StepKind::UfwOnInterface),
    decreases ifaces.len(),
{
    if ifaces.len() > 0 {
        let prev = ifaces.drop_last();
        lemma_interface_steps_shape(prev);
        let n = interface_steps(prev).len();
        assert forall|j: int| 0 <= j < interface_steps(ifaces).len() implies (#[trigger] interface_steps(ifaces)[j]).1.len()
            == 6 && (interface_steps(ifaces)[j].0 == StepKind::Ufw || interface_steps(ifaces)[j].0
            == StepKind::UfwOnInterface) by {
            if j < n {
                assert(interface_steps(ifaces)[j] == interface_steps(prev)[j]);
            }
        }
    }
}

proof fn lemma_port_steps_shape(rules: Seq<PortRule>)
    ensures
        forall|j: int|
            0 <= j < port_steps(rules).len() ==> (#[trigger] port_steps(rules)[j]).1.len() >= 2
                && port_steps(rules)[j].1[0] == "allow"@ && port_steps(rules)[j].0 == StepKind::Ufw,
    decreases rules.len(),
{
    if rules.len() > 0 {
        let prev = rules.drop_last();
        lemma_port_steps_shape(prev);
        let n = port_steps(prev).len();
        assert forall|j: int| 0 <= j < port_steps(rules).len() implies (#[trigger] port_steps(rules)[j]).1.len() >= 2
            && port_steps(rules)[j].1[0] == "allow"@ && port_steps(rules)[j].0 == StepKind::Ufw by {
            if j < n {
                assert(port_steps(rules)[j] == port_steps(prev)[j]);
            }
        }
    }
}

/// The steps of a privileged plan before the SSH safety step.
spec fn plan_head(c: ProfileConfig) -> Seq<(StepKind, Seq<Seq<char>>)> {
    plan_settings(c) + plan_policy(c) + plan_loopback(c) + cleanup_steps() + interface_steps(c.firewall.allow_interfaces@)
        + port_steps(c.firewall.allow_ports@)
}

spec fn plan_settings(c: ProfileConfig) -> Seq<(StepKind, Seq<Seq<char>>)> {
    let kernel = c.kernel.pairs();
    let lc = limits_conf(c.limits);
    (if kernel.len() > 0 {
        seq![(StepKind::WriteSysctlConf, seq![sysctl_conf(kernel)]), (StepKind::LoadSysctlConf, Seq::empty())]
    } else {
        Seq::empty()
    }) + (if lc.len() > 0 {
        seq![(StepKind::WriteLimitsConf, seq![lc])]
    } else {
        Seq::empty()
    })
}

spec fn plan_policy(c: ProfileConfig) -> Seq<(StepKind, Seq<Seq<char>>)> {
    seq![
        (StepKind::Ufw, seq!["--force"@, "default"@, c.firewall.default_incoming@, "incoming"@]),
        (StepKind::Ufw, seq!["--force"@, "default"@, c.firewall.default_outgoing@, "outgoing"@]),
    ]
}

spec fn plan_loopback(c: ProfileConfig) -> Seq<(StepKind, Seq<Seq<char>>)> {
    if c.firewall.allow_loopback {
        loopback_steps()
    } else {
        Seq::empty()
    }
}

/// The steps of a privileged plan after the firewall is switched on.
spec fn plan_tail(c: ProfileConfig) -> Seq<(StepKind, Seq<Seq<char>>)> {
    (match c.desktop.idle_delay_seconds {
        Some(s) => seq![(StepKind::SetIdleDelay, seq![decimal(s as nat)])],
        None => Seq::empty(),
    }) + (match c.power.power_profile {
        Some(p) => seq![(StepKind::PowerProfile, seq![p@])],
        None => Seq::empty(),
    }) + (match c.power.battery_charge_limit {
        Some(n) => seq![(StepKind::ChargeLimit, seq![decimal(n as nat)])],
        None => Seq::empty(),
    }) + seq![(StepKind::SaveState, seq![c.profile.id@])]
}

#[verifier::rlimit(50)]
proof fn lemma_plan_parts(c: ProfileConfig)
    ensures
        profile_steps(c, true) == seq![(StepKind::EnsureSshSafety, Seq::<Seq<char>>::empty())] + plan_head(c)
            + seq![firewall_on_step()] + plan_tail(c),
        all_steps(plan_head(c), |st: (StepKind, Seq<Seq<char>>)| not_enabling(st)),
        all_steps(plan_tail(c), |st: (StepKind, Seq<Seq<char>>)| not_enabling(st)),
        all_steps(plan_head(c), |st: (StepKind, Seq<Seq<char>>)| keeps_other_files(st)),
        all_steps(plan_tail(c), |st: (StepKind, Seq<Seq<char>>)| keeps_other_files(st)),
{
    reveal_strlit("allow");
    reveal_strlit("--force");
    let ne = |st: (StepKind, Seq<Seq<char>>)| not_enabling(st);
    let kf = |st: (StepKind, Seq<Seq<char>>)| keeps_other_files(st);
    assert(profile_steps(c, true) =~= seq![(StepKind::EnsureSshSafety, Seq::<Seq<char>>::empty())] + plan_head(c)
        + seq![firewall_on_step()] + plan_tail(c));
    let parts = seq![
        plan_settings(c),
        plan_policy(c),
        plan_loopback(c),
        cleanup_steps(),
        interface_steps(c.firewall.allow_interfaces@),
        port_steps(c.firewall.allow_ports@),
    ];
    lemma_interface_steps_shape(c.firewall.allow_interfaces@);
    lemma_port_steps_shape(c.firewall.allow_ports@);
    assert forall|i: int| 0 <= i < 6 implies all_steps(#[trigger] parts[i], ne) && all_steps(parts[i], kf) by {
        let s = parts[i];
        assert forall|j: int| 0 <= j < s.len() implies ne(#[trigger] s[j]) && kf(s[j]) by {
            if i == 0 {
                assert(s[j].0 == StepKind::WriteSysctlConf || s[j].0 == StepKind::LoadSysctlConf || s[j].0
                    == StepKind::WriteLimitsConf);
            } else if i == 1 || i == 2 {
                assert(s[j].1.len() == 4 && s[j].0 == StepKind::Ufw);
            } else if i == 3 {
                assert(s[j].1.len() == 3 && s[j].0 == StepKind::Ufw);
            } else if i == 5 {
                assert(s[j].1[0] == "allow"@);
                assert("allow"@.len() != "--force"@.len());
            }
        }
    }
    lemma_all_steps_concat(parts[0], parts[1], ne);
    lemma_all_steps_concat(parts[0] + parts[1], parts[2], ne);
    lemma_all_steps_concat(parts[0] + parts[1] + parts[2], parts[3], ne);
    lemma_all_steps_concat(parts[0] + parts[1] + parts[2] + parts[3], parts[4], ne);
    lemma_all_steps_concat(parts[0] + parts[1] + parts[2] + parts[3] + parts[4], parts[5], ne);
    lemma_all_steps_concat(parts[0], parts[1], kf);
    lemma_all_steps_concat(parts[0] + parts[1], parts[2], kf);
    lemma_all_steps_concat(parts[0] + parts[1] + parts[2], parts[3], kf);
    lemma_all_steps_concat(parts[0] + parts[1] + parts[2] + parts[3], parts[4], kf);
    lemma_all_steps_concat(parts[0] + parts[1] + parts[2] + parts[3] + parts[4], parts[5], kf);
    assert(plan_head(c) == parts[0] + parts[1] + parts[2] + parts[3] + parts[4] + parts[5]);
    let t = plan_tail(c);
    assert forall|j: int| 0 <= j < t.len() implies ne(#[trigger] t[j]) && kf(t[j]) by {
        assert(t[j].0 == StepKind::SetIdleDelay || t[j].0 == StepKind::PowerProfile || t[j].0 == StepKind::ChargeLimit
            || t[j].0 == StepKind::SaveState);
    }
}

/// Anti-lockout order: a privileged plan begins with the SSH safety step,
/// before anything touches the firewall; the firewall is switched on by
/// exactly one later step; and when the profile allows loopback, the steps
/// allowing loopback in and out come between the two.
pub proof fn lemma_plan_safety_order(c: ProfileConfig)
    ensures
        ({
            let s = profile_steps(c, true);
            &&& s.len() > 0
            &&& s[0] == (StepKind::EnsureSshSafety, Seq::<Seq<char>>::empty())
            &&& exists|k: int|
                0 < k < s.len() && #[trigger] s[k] == firewall_on_step() && (forall|j: int|
                    0 <= j < s.len() && j != k ==> #[trigger] s[j] != firewall_on_step()) && (c.firewall.allow_loopback
                    ==> exists|a: int| 0 < a && a + 1 < k && #[trigger] s[a] == loopback_steps()[0] && s[a + 1] == loopback_steps()[1])
        }),
{
    lemma_plan_parts(c);
    let ne = |st: (StepKind, Seq<Seq<char>>)| not_enabling(st);
    let s = profile_steps(c, true);
    let pre = plan_head(c);
    let tail = plan_tail(c);
    let k = (pre.len() + 1) as int;
    assert(s[0] == (StepKind::EnsureSshSafety, Seq::<Seq<char>>::empty()));
    assert(s[k] == firewall_on_step());
    assert forall|j: int| 0 <= j < s.len() && j != k implies #[trigger] s[j] != firewall_on_step() by {
        if j == 0 {
        } else if j < k {
            assert(s[j] == pre[j - 1]);
            assert(ne(pre[j - 1]));
        } else {
            assert(s[j] == tail[j - k - 1]);
            assert(ne(tail[j - k - 1]));
        }
    }
    if c.firewall.allow_loopback {
        let a = (plan_settings(c).len() + 2) as int;
        assert(pre == plan_settings(c) + plan_policy(c) + plan_loopback(c) + cleanup_steps() + interface_steps(
            c.firewall.allow_interfaces@,
        ) + port_steps(c.firewall.allow_ports@));
        assert(s[a + 1] == pre[a]);
        assert(s[a + 2] == pre[a + 1]);
        assert(pre[a] == loopback_steps()[0]);
        assert(pre[a + 1] == loopback_steps()[1]);
        assert(s[a + 1] == loopback_steps()[0]);
    }
}

/// Plans touch no files but their own: applying a profile never removes a
/// file or the state record and never reloads every kernel settings file;
/// the only files the reset removes are the profile's kernel settings and
/// limits files.
pub proof fn lemma_plans_keep_other_files(c: ProfileConfig, privileged: bool)
    ensures
        forall|j: int|
            0 <= j < profile_steps(c, privileged).len() ==> keeps_other_files(#[trigger] profile_steps(c, privileged)[j]),
        forall|j: int|
            0 <= j < reset_steps(privileged).len() && (#[trigger] reset_steps(privileged)[j]).0 == StepKind::RemoveFile
                ==> reset_steps(privileged)[j].1 == seq![SYSCTL_CONF@] || reset_steps(privileged)[j].1 == seq![LIMITS_CONF@],
{
    let kf = |st: (StepKind, Seq<Seq<char>>)| keeps_other_files(st);
    let s = profile_steps(c, privileged);
    if privileged {
        lemma_plan_parts(c);
        let pre = plan_head(c);
        let tail = plan_tail(c);
        let k = (pre.len() + 1) as int;
        assert forall|j: int| 0 <= j < s.len() implies keeps_other_files(#[trigger] s[j]) by {
            if j == 0 {
                assert(s[j].0 == StepKind::EnsureSshSafety);
            } else if j < k {
                assert(s[j] == pre[j - 1]);
                assert(kf(pre[j - 1]));
            } else if j > k {
                assert(s[j] == tail[j - k - 1]);
                assert(kf(tail[j - k - 1]));
            } else {
                assert(s[j] == firewall_on_step());
            }
        }
    }
    let r = reset_steps(privileged);
    assert forall|j: int| 0 <= j < r.len() && (#[trigger] r[j]).0 == StepKind::RemoveFile implies r[j].1 == seq![
        SYSCTL_CONF@,
    ] || r[j].1 == seq![LIMITS_CONF@] by {
        if privileged {
            assert(j == 4 || j == 5);
        } else {
            assert(false);
        }
    }
}

fn sysctl_content(c: &ProfileConfig) -> (r: String)
    ensures
        r@ == sysctl_conf(c.kernel.pairs()),
{
    let mut content = String::new();
    let n = c.kernel.len();
    let mut i: usize = 0;
    while i < n
        invariant
            n == c.kernel.pairs().len(),
            i <= n,
            content@ == sysctl_conf(c.kernel.pairs().subrange(0, i as int)),
        decreases n - i,
    {
        let k = c.kernel.key_at(i);
        let v = c.kernel.value_at(i);
        content = join5(content.as_str(), k, " = ", v, "\n");
        proof {
            let s = c.kernel.pairs().subrange(0, i + 1);
            assert(s.drop_last() =~= c.kernel.pairs().subrange(0, i as int));
        }
        i = i + 1;
    }
    assert(c.kernel.pairs().subrange(0, n as int) =~= c.kernel.pairs());
    content
}

fn limits_content(l: &SecurityLimitsConfig) -> (r: String)
    ensures
        r@ == limits_conf(*l),
{
    let a = match &l.core_dump {
        Some(c) => join3("* soft core ", c.as_str(), "\n"),
        None => String::new(),
    };
    let b = match l.nofile_soft {
        Some(n) => join3("* soft nofile ", fmt_u64(n).as_str(), "\n"),
        None => String::new(),
    };
    let d = match l.nofile_hard {
        Some(n) => join3("* hard nofile ", fmt_u64(n).as_str(), "\n"),
        None => String::new(),
    };
    let r = join3(a.as_str(), b.as_str(), d.as_str());
    proof {
        if l.core_dump is None {
            assert(a@ =~= Seq::<char>::empty());
        }
        if l.nofile_soft is None {
            assert(b@ =~= Seq::<char>::empty());
        }
        if l.nofile_hard is None {
            assert(d@ =~= Seq::<char>::empty());
        }
    }
    r
}

fn add_interface_steps(steps: &mut Vec<PlanStep>, ifaces: &Vec<String>)
    ensures
        steps_view(final(steps)@) == steps_view(old(steps)@) + interface_steps(ifaces@),
{
    let ghost start = steps_view(steps@);
    let mut i: usize = 0;
    while i < ifaces.len()
        invariant
            i <= ifaces@.len(),
            steps_view(steps@) == start + interface_steps(ifaces@.subrange(0, i as int)),
        decreases ifaces.len() - i,
    {
        let name = ifaces[i].as_str();
        let kind = if contains_char(chars_of(name).as_slice(), '+') {
            StepKind::Ufw
        } else {
            StepKind::UfwOnInterface
        };
        add6(steps, kind, "allow", "in", "on", name, "comment", "Profile Interface");
        add6(steps, kind, "allow", "out", "on", name, "comment", "Profile Interface");
        proof {
            let s = ifaces@.subrange(0, i + 1);
            assert(s.drop_last() =~= ifaces@.subrange(0, i as int));
        }
        i = i + 1;
    }
    assert(ifaces@.subrange(0, ifaces@.len() as int) =~= ifaces@);
}

fn add_port_steps(steps: &mut Vec<PlanStep>, rules: &Vec<PortRule>)
    ensures
        steps_view(final(steps)@) == steps_view(old(steps)@) + port_steps(rules@),
{
    let ghost start = steps_view(steps@);
    let mut i: usize = 0;
    while i < rules.len()
        invariant
            i <= rules@.len(),
            steps_view(steps@) == start + port_steps(rules@.subrange(0, i as int)),
        decreases rules.len() - i,
    {
        let port = rules[i].port.as_str();
        let comment = rules[i].comment.as_str();
        if comment.unicode_len() > 0 {
            add4(steps, StepKind::Ufw, "allow", port, "comment", comment);
        } else {
            add2(steps, StepKind::Ufw, "allow", port);
        }
        proof {
            let s = rules@.subrange(0, i + 1);
            assert(s.drop_last() =~= rules@.subrange(0, i as int));
        }
        i = i + 1;
    }
    assert(rules@.subrange(0, rules@.len() as int) =~= rules@);
}

fn add_cleanup_steps(steps: &mut Vec<PlanStep>)
    ensures
        steps_view(final(steps)@) == steps_view(old(steps)@) + cleanup_steps(),
{
    let ghost start = steps_view(steps@);
    let rules = clean_ufw_custom_rules();
    let mut i: usize = 0;
    while i < rules.len()
        invariant
            i <= rules@.len(),
            string_views(rules@) == cleanup_rules(),
            steps_view(steps@) == start + cleanup_steps().subrange(0, i as int),
        decreases rules.len() - i,
    {
        let r = rules[i].as_str();
        add3(steps, StepKind::Ufw, "delete", "allow", r);
        assert(cleanup_steps().subrange(0, i + 1) =~= cleanup_steps().subrange(0, i as int).push(
            (StepKind::Ufw, seq!["delete"@, "allow"@, cleanup_rules()[i as int]]),
        ));
        i = i + 1;
    }
    assert(cleanup_steps().subrange(0, rules@.len() as int) =~= cleanup_steps());
}

/// The plan that applies `config` (see `profile_steps`).
#[verifier::rlimit(60)]
#[verifier::spinoff_prover]
pub fn profile_plan(config: &ProfileConfig, privileged: bool) -> (r: Vec<PlanStep>)
    ensures
        steps_view(r@) == profile_steps(*config, privileged),
{
    let mut steps: Vec<PlanStep> = Vec::new();
    let id = config.profile.id.as_str();
    if !privileged {
        add1(&mut steps, StepKind::SaveState, id);
        assert(steps_view(steps@) =~= profile_steps(*config, privileged));
        return steps;
    }
    let ghost c = *config;
    assert(steps_view(steps@) =~= Seq::empty());
    add0(&mut steps, StepKind::EnsureSshSafety);
    let ghost s0 = steps_view(steps@);
    if config.kernel.len() > 0 {
        let content = sysctl_content(config);
        add1(&mut steps, StepKind::WriteSysctlConf, content.as_str());
        add0(&mut steps, StepKind::LoadSysctlConf);
    }
    let ghost s1 = steps_view(steps@);
    let lc = limits_content(&config.limits);
    if lc.unicode_len() > 0 {
        add1(&mut steps, StepKind::WriteLimitsConf, lc.as_str());
    }
    let ghost s2 = steps_view(steps@);
    add4(&mut steps, StepKind::Ufw, "--force", "default", config.firewall.default_incoming.as_str(), "incoming");
    add4(&mut steps, StepKind::Ufw, "--force", "default", config.firewall.default_outgoing.as_str(), "outgoing");
    let ghost s3 = steps_view(steps@);
    if config.firewall.allow_loopback {
        add4(&mut steps, StepKind::Ufw, "allow", "in", "on", "lo");
        add4(&mut steps, StepKind::Ufw, "allow", "out", "on", "lo");
    }
    let ghost s4 = steps_view(steps@);
    add_cleanup_steps(&mut steps);
    add_interface_steps(&mut steps, &config.firewall.allow_interfaces);
    add_port_steps(&mut steps, &config.firewall.allow_ports);
    let ghost s5 = steps_view(steps@);
    add2(&mut steps, StepKind::Ufw, "--force", "enable");
    let ghost s6 = steps_view(steps@);
    match config.desktop.idle_delay_seconds {
        Some(s) => {
            let secs = fmt_u32(s);
            add1(&mut steps, StepKind::SetIdleDelay, secs.as_str());
        },
        None => {},
    }
    let ghost s7 = steps_view(steps@);
    match &config.power.power_profile {
        Some(p) => {
            add1(&mut steps, StepKind::PowerProfile, p.as_str());
        },
        None => {},
    }
    let ghost s8 = steps_view(steps@);
    match config.power.battery_charge_limit {
        Some(n) => {
            let limit = fmt_u32(n);
            add1(&mut steps, StepKind::ChargeLimit, limit.as_str());
        },
        None => {},
    }
    let ghost s9 = steps_view(steps@);
    add1(&mut steps, StepKind::SaveState, id);
    proof {
        let p0 = seq![(StepKind::EnsureSshSafety, Seq::<Seq<char>>::empty())];
        assert(s0 =~= p0);
        let kernel = c.kernel.pairs();
        let p1: Seq<(StepKind, Seq<Seq<char>>)> = if kernel.len() > 0 {
            seq![(StepKind::WriteSysctlConf, seq![sysctl_conf(kernel)]), (StepKind::LoadSysctlConf, Seq::empty())]
        } else {
            Seq::empty()
        };
        assert(s1 =~= p0 + p1);
        let lcv = limits_conf(c.limits);
        let p2: Seq<(StepKind, Seq<Seq<char>>)> = if lcv.len() > 0 {
            seq![(StepKind::WriteLimitsConf, seq![lcv])]
        } else {
            Seq::empty()
        };
        assert(s2 =~= p0 + p1 + p2);
        let p3 = seq![
            (StepKind::Ufw, seq!["--force"@, "default"@, c.firewall.default_incoming@, "incoming"@]),
            (StepKind::Ufw, seq!["--force"@, "default"@, c.firewall.default_outgoing@, "outgoing"@]),
        ];
        assert(s3 =~= p0 + p1 + p2 + p3);
        let p4: Seq<(StepKind, Seq<Seq<char>>)> = if c.firewall.allow_loopback {
            seq![
                (StepKind::Ufw, seq!["allow"@, "in"@, "on"@, "lo"@]),
                (StepKind::Ufw, seq!["allow"@, "out"@, "on"@, "lo"@]),
            ]
        } else {
            Seq::empty()
        };
        assert(s4 =~= p0 + p1 + p2 + p3 + p4);
        let p5 = cleanup_steps() + interface_steps(c.firewall.allow_interfaces@) + port_steps(
            c.firewall.allow_ports@,
        );
        assert(s5 =~= p0 + p1 + p2 + p3 + p4 + p5);
        let p6 = seq![(StepKind::Ufw, seq!["--force"@, "enable"@])];
        assert(s6 =~= p0 + p1 + p2 + p3 + p4 + p5 + p6);
        let p7: Seq<(StepKind, Seq<Seq<char>>)> = match c.desktop.idle_delay_seconds {
            Some(s) => seq![(StepKind::SetIdleDelay, seq![decimal(s as nat)])],
            None => Seq::empty(),
        };
        assert(s7 =~= p0 + p1 + p2 + p3 + p4 + p5 + p6 + p7);
        let p8: Seq<(StepKind, Seq<Seq<char>>)> = match c.power.power_profile {
            Some(p) => seq![(StepKind::PowerProfile, seq![p@])],
            None => Seq::empty(),
        };
        assert(s8 =~= p0 + p1 + p2 + p3 + p4 + p5 + p6 + p7 + p8);
        let p9: Seq<(StepKind, Seq<Seq<char>>)> = match c.power.battery_charge_limit {
            Some(n) => seq![(StepKind::ChargeLimit, seq![decimal(n as nat)])],
            None => Seq::empty(),
        };
        assert(s9 =~= p0 + p1 + p2 + p3 + p4 + p5 + p6 + p7 + p8 + p9);
        assert(steps_view(steps@) =~= p0 + p1 + p2 + p3 + p4 + p5 + p6 + p7 + p8 + p9 + seq![
            (StepKind::SaveState, seq![c.profile.id@]),
        ]);
    }
    steps
}

/// The error for an id that names no profile.
pub open spec fn not_found_message(id: Seq<char>) -> Seq<char> {
    "Profile '"@ + id + "' not found."@
}

/// The plan that applies the profile with id `id` from `profiles` (the
/// catalog; the id is matched as `find_profile` does), or the error naming it
/// when there is none.
pub fn apply_profile_by_id(profiles: Vec<ProfileConfig>, id: &str, privileged: bool) -> (r: Result<Vec<PlanStep>, String>)
    ensures
        match r {
            Ok(steps) => exists|i: int|
                0 <= i < profiles@.len() && lowercased(profiles@[i].profile.id@) == requested_key(id@)
                    && steps_view(steps@) == profile_steps(profiles@[i], privileged) && forall|j: int|
                    0 <= j < i ==> lowercased((#[trigger] profiles@[j]).profile.id@) != requested_key(id@),
            Err(e) => e@ == not_found_message(id@) && forall|j: int|
                0 <= j < profiles@.len() ==> lowercased((#[trigger] profiles@[j]).profile.id@)
                    != requested_key(id@),
        },
{
    match find_profile(profiles, id) {
        Some(config) => Ok(profile_plan(&config, privileged)),
        None => Err(join3("Profile '", id, "' not found.")),
    }
}

/// The plan that applies a built-in profile (by its id).
pub fn apply_profile(profiles: Vec<ProfileConfig>, profile: Profile, privileged: bool) -> (r: Result<
    Vec<PlanStep>,
    String,
>)
    ensures
        match r {
            Ok(steps) => exists|i: int|
                0 <= i < profiles@.len() && lowercased(profiles@[i].profile.id@) == requested_key(profile.spec_id())
                    && steps_view(steps@) == profile_steps(profiles@[i], privileged),
            Err(e) => e@ == not_found_message(profile.spec_id()) && forall|j: int|
                0 <= j < profiles@.len() ==> lowercased((#[trigger] profiles@[j]).profile.id@)
                    != requested_key(profile.spec_id()),
        },
{
    apply_profile_by_id(profiles, profile.as_str(), privileged)
}

/// The plan that restores the factory state: the record of the active
/// profile removed and the idle delay back to fifteen minutes; with
/// privileges also the firewall switched off and reset, the profile's kernel
/// and limits files removed and all kernel settings reloaded, the balanced
/// power profile, and charging up to 100%.
pub open spec fn reset_steps(privileged: bool) -> Seq<(StepKind, Seq<Seq<char>>)> {
    seq![(StepKind::RemoveState, Seq::empty()), (StepKind::SetIdleDelay, seq!["900"@])] + if privileged {
        seq![
            (StepKind::Ufw, seq!["--force"@, "disable"@]),
            (StepKind::Ufw, seq!["--force"@, "reset"@]),
            (StepKind::RemoveFile, seq![SYSCTL_CONF@]),
            (StepKind::RemoveFile, seq![LIMITS_CONF@]),
            (StepKind::ReloadAllSysctl, Seq::empty()),
            (StepKind::PowerProfile, seq!["balanced"@]),
            (StepKind::ChargeLimit, seq!["100"@]),
        ]
    } else {
        Seq::empty()
    }
}

/// The plan that restores the factory state (see `reset_steps`).
pub fn reset_plan(privileged: bool) -> (r: Vec<PlanStep>)
    ensures
        steps_view(r@) == reset_steps(privileged),
{
    let mut steps: Vec<PlanStep> = Vec::new();
    add0(&mut steps, StepKind::RemoveState);
    add1(&mut steps, StepKind::SetIdleDelay, "900");
    let ghost s1 = steps_view(steps@);
    if privileged {
        add2(&mut steps, StepKind::Ufw, "--force", "disable");
        add2(&mut steps, StepKind::Ufw, "--force", "reset");
        add1(&mut steps, StepKind::RemoveFile, SYSCTL_CONF);
        add1(&mut steps, StepKind::RemoveFile, LIMITS_CONF);
        add0(&mut steps, StepKind::ReloadAllSysctl);
        add1(&mut steps, StepKind::PowerProfile, "balanced");
        add1(&mut steps, StepKind::ChargeLimit, "100");
    }
    proof {
        assert(s1 =~= seq![(StepKind::RemoveState, Seq::empty()), (StepKind::SetIdleDelay, seq!["900"@])]);
        assert(steps_view(steps@) =~= reset_steps(privileged));
    }
    steps
}

/// Where the active profile is recorded: the path given in the environment;
/// else the system file for a privileged run; else a file in the runtime
/// directory (when it is an existing directory); else one in `/tmp`.
pub fn state_file_path(env_path: Option<&str>, privileged: bool, runtime_dir: Option<&str>) -> (r: String)
    ensures
        r@ == match env_path {
            Some(p) => p@,
            None => if privileged {
                STATE_FILE@
            } else {
                match runtime_dir {
                    Some(d) => d@ + "/popos-security-profile"@,
                    None => "/tmp/popos-security-profile"@,
                }
            },
        },
{
    match env_path {
        Some(p) => owned(p),
        None => if privileged {
            owned(STATE_FILE)
        } else {
            match runtime_dir {
                Some(d) => join2(d, "/popos-security-profile"),
                None => owned("/tmp/popos-security-profile"),
            }
        },
    }
}

/// The active profile from the record's contents (`None` when it could not
/// be read): the contents trimmed, or `default` when there are none.
pub fn active_profile_from_state(content: Option<&str>) -> (r: String)
    ensures
        r@ == match content {
            Some(s) => if trimmed(s@).len() > 0 {
                trimmed(s@)
            } else {
                "default"@
            },
            None => "default"@,
        },
{
    match content {
        Some(s) => {
            let t = trim_str(s);
            if t.unicode_len() > 0 {
                owned(t)
            } else {
                owned("default")
            }
        },
        None => owned("default"),
    }
}

/// Whether SSH must stay reachable: a remote session is open (the SSH
/// environment variables are set), or the listening sockets (`ss -tulpn`
/// output, when it ran) show port 22 or an SSH server.
pub fn needs_ssh_anti_lockout(ssh_session: bool, sockets: Option<&str>) -> (r: bool)
    ensures
        r == (ssh_session || match sockets {
            Some(out) => has_substring(out@, ":22 "@) || has_substring(out@, "sshd"@),
            None => false,
        }),
{
    if ssh_session {
        return true;
    }
    match sockets {
        Some(out) => str_contains(out, ":22 ") || str_contains(out, "sshd"),
        None => false,
    }
}

/// The `ufw` arguments that keep SSH open.
pub fn ssh_anti_lockout_rule() -> (r: Vec<String>)
    ensures
        string_views(r@) == seq!["allow"@, "22/tcp"@, "comment"@, "SSH Anti-Lockout"@],
{
    let r = vec![owned("allow"), owned("22/tcp"), owned("comment"), owned("SSH Anti-Lockout")];
    assert(string_views(r@) =~= seq!["allow"@, "22/tcp"@, "comment"@, "SSH Anti-Lockout"@]);
    r
}

/// The command that sets the desktop's idle delay: for a user who ran sudo
/// (and whose uid is known) `gsettings` runs as that user on their session
/// bus; otherwise it runs directly.
pub fn idle_delay_command(sudo_user: Option<&str>, uid: Option<&str>, seconds: u32) -> (r: (String, Vec<String>))
    ensures
        match (sudo_user, uid) {
            (Some(u), Some(id)) => r.0@ == "sudo"@ && string_views(r.1@) == seq![
                "-u"@,
                u@,
                "DBUS_SESSION_BUS_ADDRESS=unix:path=/run/user/"@ + trimmed(id@) + "/bus"@,
                "gsettings"@,
                "set"@,
                "org.gnome.desktop.session"@,
                "idle-delay"@,
                decimal(seconds as nat),
            ],
            _ => r.0@ == "gsettings"@ && string_views(r.1@) == seq![
                "set"@,
                "org.gnome.desktop.session"@,
                "idle-delay"@,
                decimal(seconds as nat),
            ],
        },
{
    let secs = fmt_u32(seconds);
    match (sudo_user, uid) {
        (Some(u), Some(id)) => {
            let bus = join3("DBUS_SESSION_BUS_ADDRESS=unix:path=/run/user/", trim_str(id), "/bus");
            let args = vec![
                owned("-u"),
                owned(u),
                bus,
                owned("gsettings"),
                owned("set"),
                owned("org.gnome.desktop.session"),
                owned("idle-delay"),
                secs,
            ];
            let ghost expected = seq![
                "-u"@,
                u@,
                "DBUS_SESSION_BUS_ADDRESS=unix:path=/run/user/"@ + trimmed(id@) + "/bus"@,
                "gsettings"@,
                "set"@,
                "org.gnome.desktop.session"@,
                "idle-delay"@,
                decimal(seconds as nat),
            ];
            assert(string_views(args@) =~= expected);
            (owned("sudo"), args)
        },
        _ => {
            let args = vec![owned("set"), owned("org.gnome.desktop.session"), owned("idle-delay"), secs];
            let ghost expected = seq![
                "set"@,
                "org.gnome.desktop.session"@,
                "idle-delay"@,
                decimal(seconds as nat),
            ];
            assert(string_views(args@) =~= expected);
            (owned("gsettings"), args)
        },
    }
}

/// A value read with `sysctl -n`, or `N/A` when it could not be read.
pub open spec fn or_na(v: Option<&str>) -> Seq<char> {
    match v {
        Some(s) => s@,
        None => "N/A"@,
    }
}

/// The status report: the active profile (uppercased), three kernel values
/// (`N/A` when unreadable), and the firewall's status (`inactive` when `ufw`
/// did not run).
pub fn get_status_report(
    profile: &str,
    ptrace: Option<&str>,
    inotify: Option<&str>,
    map_count: Option<&str>,
    ufw_status: Option<&str>,
) -> (r: String)
    ensures
        r@ == "Active Profile: "@ + uppercased(profile@) + "\nptrace_scope: "@ + or_na(ptrace)
            + "\ninotify watches: "@ + or_na(inotify) + "\nvm.max_map_count: "@ + or_na(map_count)
            + "\nUFW Status:\n"@ + match ufw_status {
            Some(s) => s@,
            None => "inactive"@,
        },
{
    let p = to_upper(profile);
    let a: &str = match ptrace {
        Some(s) => s,
        None => "N/A",
    };
    let b: &str = match inotify {
        Some(s) => s,
        None => "N/A",
    };
    let c: &str = match map_count {
        Some(s) => s,
        None => "N/A",
    };
    let u: &str = match ufw_status {
        Some(s) => s,
        None => "inactive",
    };
    let head = join5("Active Profile: ", p.as_str(), "\nptrace_scope: ", a, "\ninotify watches: ");
    let tail = join5(b, "\nvm.max_map_count: ", c, "\nUFW Status:\n", u);
    let r = join2(head.as_str(), tail.as_str());
    assert(r@ =~= "Active Profile: "@ + uppercased(profile@) + "\nptrace_scope: "@ + or_na(ptrace)
        + "\ninotify watches: "@ + or_na(inotify) + "\nvm.max_map_count: "@ + or_na(map_count)
        + "\nUFW Status:\n"@ + match ufw_status {
        Some(s) => s@,
        None => "inactive"@,
    });
    r
}

} // verus!
