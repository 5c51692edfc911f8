//! App-aware dynamic triggers: rules that, while one of their programs runs,
//! boost the CPU energy preference and kernel limits and may switch the
//! posture, and the session that records what to restore afterwards.
use vstd::prelude::*;
use crate::strmap::{StringMap, put_all};
use crate::text::{
    owned, str_eq, to_lower, lowercased, trim_str, trimmed, string_views, opt_view, copy_opt, join3,
};
use vstd::string::StrSliceExecFns;
use vstd::string::StringExecFns;

verus! {

/// Where the system-wide trigger rules are kept.
pub const SYSTEM_TRIGGERS_FILE: &'static str = "/etc/postureflow/triggers.toml";

/// A rule: while any of `process_names` runs, apply the boosts.
#[derive(Debug)]
pub struct TriggerRule {
    pub name: String,
    pub process_names: Vec<String>,
    pub target_profile: Option<String>,
    pub boost_cpu_epp: Option<String>,
    pub boost_sysctl: StringMap,
    pub comment: Option<String>,
}

/// The trigger engine's configuration.
#[derive(Debug)]
pub struct TriggersConfig {
    pub enabled: bool,
    pub check_interval_seconds: u64,
    pub rules: Vec<TriggerRule>,
}

/// The engine is on unless configured otherwise.
pub fn default_true() -> (r: bool)
    ensures
        r,
{
    true
}

/// Running programs are checked every three seconds unless configured otherwise.
pub fn default_check_interval() -> (r: u64)
    ensures
        r == 3,
{
    3
}

fn text_list(items: &[&str]) -> (r: Vec<String>)
    ensures
        r@.len() == items@.len(),
        forall|i: int| 0 <= i < items@.len() ==> #[trigger] r@[i]@ == items@[i]@,
{
    let mut r: Vec<String> = Vec::new();
    let mut i: usize = 0;
    while i < items.len()
        invariant
            i <= items@.len(),
            r@.len() == i,
            forall|j: int| 0 <= j < i ==> #[trigger] r@[j]@ == items@[j]@,
        decreases items.len() - i,
    {
        r.push(owned(items[i]));
        i = i + 1;
    }
    r
}

/// The rule for games and Steam.
fn gaming_rule() -> (r: TriggerRule)
    ensures
        r.name@ == "Gaming & Steam Engine Boost"@,
        string_views(r.process_names@) == seq![
            "steam"@, "steamwebhelper"@, "gamescope"@, "lutris"@, "heroic"@, "wine-preloader"@,
            "wine64-preloader"@, "proton"@,
        ],
        opt_view(r.target_profile) == Some("home"@),
        opt_view(r.boost_cpu_epp) == Some("performance"@),
        r.boost_sysctl.wf(),
        r.boost_sysctl.pairs() == seq![("vm.max_map_count"@, "2147483642"@)],
        opt_view(r.comment) == Some("Maximum CPU responsiveness and 2.1B map count for Steam & Proton gaming"@),
{
    let mut sysctl = StringMap::new();
    sysctl.insert(owned("vm.max_map_count"), owned("2147483642"));
    let names = text_list(
        &[
            "steam",
            "steamwebhelper",
            "gamescope",
            "lutris",
            "heroic",
            "wine-preloader",
            "wine64-preloader",
            "proton",
        ],
    );
    let r = TriggerRule {
        name: owned("Gaming & Steam Engine Boost"),
        process_names: names,
        target_profile: Some(owned("home")),
        boost_cpu_epp: Some(owned("performance")),
        boost_sysctl: sysctl,
        comment: Some(owned("Maximum CPU responsiveness and 2.1B map count for Steam & Proton gaming")),
    };
    assert(string_views(r.process_names@) =~= seq![
        "steam"@, "steamwebhelper"@, "gamescope"@, "lutris"@, "heroic"@, "wine-preloader"@,
        "wine64-preloader"@, "proton"@,
    ]);
    r
}

/// The rule for containers and coding.
fn dev_rule() -> (r: TriggerRule)
    ensures
        r.name@ == "Dev Containers & Coding Workload"@,
        string_views(r.process_names@) == seq![
            "dockerd"@, "containerd"@, "podman"@, "cargo"@, "rust-analyzer"@, "code"@,
        ],
        opt_view(r.target_profile) == Some("dev"@),
        opt_view(r.boost_cpu_epp) == Some("performance"@),
        r.boost_sysctl.wf(),
        r.boost_sysctl.pairs() == seq![("fs.inotify.max_user_watches"@, "1048576"@)],
        opt_view(r.comment) == Some("Auto-transition to Dev mode and boost inotify limits when coding"@),
{
    let mut sysctl = StringMap::new();
    sysctl.insert(owned("fs.inotify.max_user_watches"), owned("1048576"));
    let names = text_list(&["dockerd", "containerd", "podman", "cargo", "rust-analyzer", "code"]);
    let r = TriggerRule {
        name: owned("Dev Containers & Coding Workload"),
        process_names: names,
        target_profile: Some(owned("dev")),
        boost_cpu_epp: Some(owned("performance")),
        boost_sysctl: sysctl,
        comment: Some(owned("Auto-transition to Dev mode and boost inotify limits when coding")),
    };
    assert(string_views(r.process_names@) =~= seq![
        "dockerd"@, "containerd"@, "podman"@, "cargo"@, "rust-analyzer"@, "code"@,
    ]);
    r
}

/// The rule for office work and meetings.
fn office_rule() -> (r: TriggerRule)
    ensures
        r.name@ == "Office & Meetings Suite"@,
        string_views(r.process_names@) == seq!["slack"@, "teams"@, "zoom"@, "thunderbird"@],
        opt_view(r.target_profile) == Some("work"@),
        opt_view(r.boost_cpu_epp) == Some("balance_power"@),
        r.boost_sysctl.wf(),
        r.boost_sysctl.pairs().len() == 0,
        opt_view(r.comment) == Some("Quiet fan acoustics and work VPN/CUPS access during office work"@),
{
    let names = text_list(&["slack", "teams", "zoom", "thunderbird"]);
    let r = TriggerRule {
        name: owned("Office & Meetings Suite"),
        process_names: names,
        target_profile: Some(owned("work")),
        boost_cpu_epp: Some(owned("balance_power")),
        boost_sysctl: StringMap::new(),
        comment: Some(owned("Quiet fan acoustics and work VPN/CUPS access during office work")),
    };
    assert(string_views(r.process_names@) =~= seq!["slack"@, "teams"@, "zoom"@, "thunderbird"@]);
    r
}

/// The built-in rules: gaming, coding and office, checked every three seconds.
pub open spec fn is_default_triggers(r: TriggersConfig) -> bool {
    &&& r.enabled
    &&& r.check_interval_seconds == 3
    &&& r.rules@.len() == 3
    &&& r.rules@[0].name@ == "Gaming & Steam Engine Boost"@
    &&& string_views(r.rules@[0].process_names@) == seq![
        "steam"@, "steamwebhelper"@, "gamescope"@, "lutris"@, "heroic"@, "wine-preloader"@,
        "wine64-preloader"@, "proton"@,
    ]
    &&& opt_view(r.rules@[0].target_profile) == Some("home"@)
    &&& opt_view(r.rules@[0].boost_cpu_epp) == Some("performance"@)
    &&& r.rules@[0].boost_sysctl.pairs() == seq![("vm.max_map_count"@, "2147483642"@)]
    &&& r.rules@[1].name@ == "Dev Containers & Coding Workload"@
    &&& string_views(r.rules@[1].process_names@) == seq![
        "dockerd"@, "containerd"@, "podman"@, "cargo"@, "rust-analyzer"@, "code"@,
    ]
    &&& opt_view(r.rules@[1].target_profile) == Some("dev"@)
    &&& opt_view(r.rules@[1].boost_cpu_epp) == Some("performance"@)
    &&& r.rules@[1].boost_sysctl.pairs() == seq![("fs.inotify.max_user_watches"@, "1048576"@)]
    &&& r.rules@[2].name@ == "Office & Meetings Suite"@
    &&& string_views(r.rules@[2].process_names@) == seq!["slack"@, "teams"@, "zoom"@, "thunderbird"@]
    &&& opt_view(r.rules@[2].target_profile) == Some("work"@)
    &&& opt_view(r.rules@[2].boost_cpu_epp) == Some("balance_power"@)
    &&& r.rules@[2].boost_sysctl.pairs().len() == 0
    &&& forall|i: int| 0 <= i < 3 ==> (#[trigger] r.rules@[i]).boost_sysctl.wf() && r.rules@[i].comment is Some
}

/// The built-in rules (see `is_default_triggers`).
pub fn default_triggers_config() -> (r: TriggersConfig)
    ensures
        is_default_triggers(r),
{
    let rules = vec![gaming_rule(), dev_rule(), office_rule()];
    TriggersConfig { enabled: default_true(), check_interval_seconds: default_check_interval(), rules }
}

impl Default for TriggersConfig {
    fn default() -> (r: Self)
        ensures
            is_default_triggers(r),
    {
        default_triggers_config()
    }
}

/// Whether the set of running program names holds the lowercased `name`.
pub open spec fn is_running(running: Seq<String>, name: Seq<char>) -> bool {
    exists|i: int| 0 <= i < running.len() && #[trigger] running[i]@ == lowercased(name)
}

/// The names among `names` whose programs run, in their order, as written.
pub open spec fn running_names(names: Seq<String>, running: Seq<String>) -> Seq<Seq<char>>
    decreases names.len(),
{
    if names.len() == 0 {
        Seq::empty()
    } else {
        let rest = running_names(names.drop_last(), running);
        if is_running(running, names.last()@) {
            rest.push(names.last()@)
        } else {
            rest
        }
    }
}

/// The first of the first `n` rules with a running program.
pub open spec fn first_matching_rule(rules: Seq<TriggerRule>, running: Seq<String>, n: int) -> Option<int>
    decreases n,
{
    if n <= 0 {
        None
    } else {
        match first_matching_rule(rules, running, n - 1) {
            Some(i) => Some(i),
            None => if running_names(rules[n - 1].process_names@, running).len() > 0 {
                Some(n - 1)
            } else {
                None
            },
        }
    }
}

/// A rule that fires, with the programs that made it fire.
#[derive(Debug)]
pub struct MatchedTrigger {
    pub rule_name: String,
    pub matched_processes: Vec<String>,
    pub target_profile: Option<String>,
    pub boost_cpu_epp: Option<String>,
    pub boost_sysctl: StringMap,
}

/// `m` reports rule `rule` firing on the programs in `running`.
pub open spec fn reports(m: MatchedTrigger, rule: TriggerRule, running: Seq<String>) -> bool {
    &&& m.rule_name@ == rule.name@
    &&& string_views(m.matched_processes@) == running_names(rule.process_names@, running)
    &&& opt_view(m.target_profile) == opt_view(rule.target_profile)
    &&& opt_view(m.boost_cpu_epp) == opt_view(rule.boost_cpu_epp)
    &&& m.boost_sysctl.pairs() == rule.boost_sysctl.pairs()
}

/// Whether `name` is one of the running programs.
pub fn running_contains(running: &Vec<String>, name: &str) -> (r: bool)
    ensures
        r == exists|i: int| 0 <= i < running@.len() && #[trigger] running@[i]@ == name@,
{
    let mut i: usize = 0;
    while i < running.len()
        invariant
            i <= running@.len(),
            forall|j: int| 0 <= j < i ==> #[trigger] running@[j]@ != name@,
        decreases running.len() - i,
    {
        if str_eq(running[i].as_str(), name) {
            return true;
        }
        i = i + 1;
    }
    false
}

/// The names of `rule` whose programs run, as written in the rule.
fn running_names_of(names: &Vec<String>, running: &Vec<String>) -> (r: Vec<String>)
    ensures
        string_views(r@) == running_names(names@, running@),
{
    let mut r: Vec<String> = Vec::new();
    let mut i: usize = 0;
    while i < names.len()
        invariant
            i <= names@.len(),
            string_views(r@) == running_names(names@.subrange(0, i as int), running@),
        decreases names.len() - i,
    {
        let p_lower = to_lower(names[i].as_str());
        let hit = running_contains(running, p_lower.as_str());
        let ghost before = r@;
        if hit {
            r.push(owned(names[i].as_str()));
        }
        proof {
            let s = names@.subrange(0, i + 1);
            assert(s.drop_last() =~= names@.subrange(0, i as int));
            assert(s.last() == names@[i as int]);
            if hit {
                assert(string_views(r@) =~= string_views(before).push(names@[i as int]@));
            } else {
                assert(string_views(r@) =~= string_views(before));
            }
        }
        i = i + 1;
    }
    assert(names@.subrange(0, names@.len() as int) =~= names@);
    r
}

proof fn lemma_first_rule_stable(rules: Seq<TriggerRule>, running: Seq<String>, n: int, m: int)
    requires
        0 <= n <= m,
        first_matching_rule(rules, running, n) is Some,
    ensures
        first_matching_rule(rules, running, m) == first_matching_rule(rules, running, n),
    decreases m - n,
{
    if n < m {
        lemma_first_rule_stable(rules, running, n, m - 1);
    }
}

/// The first rule (in configured order) with a running program, with the
/// programs that matched; nothing when the engine is off or no rule fires.
/// A rule's program name matches when its lowercased form is among `running`
/// (the set of running program names, lowercased).
pub fn evaluate_triggers(config: &TriggersConfig, running: &Vec<String>) -> (r: Option<MatchedTrigger>)
    ensures
        !config.enabled ==> r is None,
        config.enabled ==> match first_matching_rule(config.rules@, running@, config.rules@.len() as int) {
            Some(i) => r is Some && reports(r->0, config.rules@[i], running@),
            None => r is None,
        },
{
    if !config.enabled {
        return None;
    }
    let mut i: usize = 0;
    while i < config.rules.len()
        invariant
            i <= config.rules@.len(),
            config.enabled,
            first_matching_rule(config.rules@, running@, i as int) is None,
        decreases config.rules.len() - i,
    {
        let rule = &config.rules[i];
        let matched = running_names_of(&rule.process_names, running);
        if matched.len() > 0 {
            proof {
                assert(first_matching_rule(config.rules@, running@, i + 1) == Some(i as int));
                lemma_first_rule_stable(config.rules@, running@, i + 1, config.rules@.len() as int);
            }
            return Some(
                MatchedTrigger {
                    rule_name: owned(rule.name.as_str()),
                    matched_processes: matched,
                    target_profile: copy_opt(&rule.target_profile),
                    boost_cpu_epp: copy_opt(&rule.boost_cpu_epp),
                    boost_sysctl: rule.boost_sysctl.duplicate(),
                },
            );
        }
        i = i + 1;
    }
    None
}

/// What a trigger session recorded when it engaged: the rule that holds, and
/// the profile, energy preference and kernel values to restore.
#[derive(Debug)]
pub struct TriggerSession {
    pub active_rule_name: Option<String>,
    pub baseline_profile: Option<String>,
    pub baseline_cpu_epp: Option<String>,
    pub baseline_sysctls: StringMap,
}

/// What a session records: the active rule, the baseline profile, the
/// baseline energy preference and the baseline kernel values.
pub open spec fn session_view(s: TriggerSession) -> (
    Option<Seq<char>>,
    Option<Seq<char>>,
    Option<Seq<char>>,
    Seq<(Seq<char>, Seq<char>)>,
) {
    (opt_view(s.active_rule_name), opt_view(s.baseline_profile), opt_view(s.baseline_cpu_epp), s.baseline_sysctls.pairs())
}

/// A session that records nothing.
pub open spec fn idle_session() -> (Option<Seq<char>>, Option<Seq<char>>, Option<Seq<char>>, Seq<(Seq<char>, Seq<char>)>) {
    (None, None, None, Seq::empty())
}

/// What a session records after engaging `rule` while `current` is active,
/// with energy preference `epp` and the kernel `readings` taken.
pub open spec fn engaged(
    v: (Option<Seq<char>>, Option<Seq<char>>, Option<Seq<char>>, Seq<(Seq<char>, Seq<char>)>),
    rule: Seq<char>,
    current: Seq<char>,
    epp: Option<Seq<char>>,
    readings: Seq<(Seq<char>, Seq<char>)>,
) -> (Option<Seq<char>>, Option<Seq<char>>, Option<Seq<char>>, Seq<(Seq<char>, Seq<char>)>) {
    (Some(rule), Some(current), epp, put_all(v.3, readings))
}

/// What ending a session hands back while `current` is active: the recorded
/// kernel values, the recorded energy preference, and the recorded profile
/// when it is not the active one.
pub open spec fn restored(
    v: (Option<Seq<char>>, Option<Seq<char>>, Option<Seq<char>>, Seq<(Seq<char>, Seq<char>)>),
    current: Seq<char>,
) -> (Seq<(Seq<char>, Seq<char>)>, Option<Seq<char>>, Option<Seq<char>>) {
    (v.3, v.2, match v.1 {
        Some(b) => if b != current {
            Some(b)
        } else {
            None
        },
        None => None,
    })
}

/// The view of a revert plan: kernel values, energy preference, profile.
pub open spec fn plan_view(p: RevertPlan) -> (Seq<(Seq<char>, Seq<char>)>, Option<Seq<char>>, Option<Seq<char>>) {
    (p.sysctls.pairs(), opt_view(p.cpu_epp), opt_view(p.profile))
}

/// Reverting undoes engaging: from a session that records nothing, engaging
/// a rule and then reverting hands back exactly the kernel values read
/// before the boost, the energy preference that was in force, and the
/// profile that was active (when another one is active by then), and the
/// session records nothing again.
pub proof fn lemma_revert_undoes_engage(
    rule: Seq<char>,
    current: Seq<char>,
    epp: Option<Seq<char>>,
    readings: Seq<(Seq<char>, Seq<char>)>,
    later: Seq<char>,
)
    ensures
        restored(engaged(idle_session(), rule, current, epp, readings), later) == (
            put_all(Seq::empty(), readings),
            epp,
            if current != later {
                Some(current)
            } else {
                None
            },
        ),
{
}

impl Default for TriggerSession {
    fn default() -> (r: Self)
        ensures
            session_view(r) == idle_session(),
            r.baseline_sysctls.wf(),
    {
        TriggerSession {
            active_rule_name: None,
            baseline_profile: None,
            baseline_cpu_epp: None,
            baseline_sysctls: StringMap::new(),
        }
    }
}

/// What the trigger monitor does on a tick.
#[derive(Debug, Clone, Copy, PartialEq, Eq, Structural)]
pub enum TriggerStep {
    /// Nothing changes.
    Hold,
    /// A rule fires and no session is active: engage it.
    Engage,
    /// The active session's programs are gone or the engine is off: restore.
    Revert,
    /// Another rule fires than the active one: restore, then engage it.
    Replace,
}

/// The monitor's decision from the session's active rule, whether the engine
/// is on, and the rule that fires now.
pub open spec fn trigger_step_spec(active: Option<Seq<char>>, enabled: bool, firing: Option<Seq<char>>) -> TriggerStep {
    if !enabled {
        if active is Some {
            TriggerStep::Revert
        } else {
            TriggerStep::Hold
        }
    } else {
        match (active, firing) {
            (None, Some(_)) => TriggerStep::Engage,
            (Some(a), Some(f)) => if a != f {
                TriggerStep::Replace
            } else {
                TriggerStep::Hold
            },
            (Some(_), None) => TriggerStep::Revert,
            (None, None) => TriggerStep::Hold,
        }
    }
}

/// The monitor's decision for one tick (see `trigger_step_spec`).
pub fn trigger_step(session: &TriggerSession, enabled: bool, matched: &Option<MatchedTrigger>) -> (r: TriggerStep)
    ensures
        r == trigger_step_spec(
            opt_view(session.active_rule_name),
            enabled,
            match matched {
                Some(m) => Some(m.rule_name@),
                None => None,
            },
        ),
{
    if !enabled {
        if session.active_rule_name.is_some() {
            return TriggerStep::Revert;
        }
        return TriggerStep::Hold;
    }
    match (&session.active_rule_name, matched) {
        (None, Some(_)) => TriggerStep::Engage,
        (Some(a), Some(m)) => if !str_eq(a.as_str(), m.rule_name.as_str()) {
            TriggerStep::Replace
        } else {
            TriggerStep::Hold
        },
        (Some(_), None) => TriggerStep::Revert,
        (None, None) => TriggerStep::Hold,
    }
}

/// The views of a list of readings.
pub open spec fn reading_views(v: Seq<(String, String)>) -> Seq<(Seq<char>, Seq<char>)> {
    v.map_values(|e: (String, String)| (e.0@, e.1@))
}

impl TriggerSession {
    /// Engages rule `m`: records the rule, the active profile, the current
    /// energy preference and the current values of the kernel settings that
    /// the rule boosts (`readings`, those that could be read). Returns the
    /// profile to switch to: the rule's target when it differs from the
    /// active profile.
    pub fn engage(
        &mut self,
        m: &MatchedTrigger,
        current_profile: &str,
        current_cpu_epp: Option<String>,
        readings: &Vec<(String, String)>,
    ) -> (switch_to: Option<String>)
        requires
            old(self).baseline_sysctls.wf(),
        ensures
            session_view(*final(self)) == engaged(
                session_view(*old(self)),
                m.rule_name@,
                current_profile@,
                opt_view(current_cpu_epp),
                reading_views(readings@),
            ),
            final(self).baseline_sysctls.wf(),
            opt_view(switch_to) == match m.target_profile {
                Some(t) => if t@ != current_profile@ {
                    Some(t@)
                } else {
                    None
                },
                None => None,
            },
    {
        self.baseline_profile = Some(owned(current_profile));
        self.baseline_cpu_epp = current_cpu_epp;
        self.active_rule_name = Some(owned(m.rule_name.as_str()));
        let mut i: usize = 0;
        while i < readings.len()
            invariant
                i <= readings@.len(),
                self.baseline_sysctls.wf(),
                self.baseline_sysctls.pairs() == put_all(
                    old(self).baseline_sysctls.pairs(),
                    reading_views(readings@).subrange(0, i as int),
                ),
                opt_view(self.active_rule_name) == Some(m.rule_name@),
                opt_view(self.baseline_profile) == Some(current_profile@),
                opt_view(self.baseline_cpu_epp) == opt_view(current_cpu_epp),
            decreases readings.len() - i,
        {
            let k = owned(readings[i].0.as_str());
            let v = owned(readings[i].1.as_str());
            self.baseline_sysctls.insert(k, v);
            proof {
                let s = reading_views(readings@).subrange(0, i + 1);
                assert(s.drop_last() =~= reading_views(readings@).subrange(0, i as int));
            }
            i = i + 1;
        }
        assert(reading_views(readings@).subrange(0, readings@.len() as int) =~= reading_views(readings@));
        match &m.target_profile {
            Some(t) => if !str_eq(t.as_str(), current_profile) {
                Some(owned(t.as_str()))
            } else {
                None
            },
            None => None,
        }
    }

    /// Ends the session: hands back what to restore (the recorded kernel
    /// values, the recorded energy preference, and the recorded profile when
    /// it differs from the active one) and forgets everything.
    pub fn revert(&mut self, current_profile: &str) -> (plan: RevertPlan)
        ensures
            session_view(*final(self)) == idle_session(),
            final(self).baseline_sysctls.wf(),
            plan_view(plan) == restored(session_view(*old(self)), current_profile@),
    {
        let sysctls = self.baseline_sysctls.duplicate();
        let cpu_epp = copy_opt(&self.baseline_cpu_epp);
        let profile = match &self.baseline_profile {
            Some(b) => if !str_eq(b.as_str(), current_profile) {
                Some(owned(b.as_str()))
            } else {
                None
            },
            None => None,
        };
        self.baseline_sysctls = StringMap::new();
        self.baseline_cpu_epp = None;
        self.baseline_profile = None;
        self.active_rule_name = None;
        RevertPlan { sysctls, cpu_epp, profile }
    }
}

/// What ending a trigger session restores.
#[derive(Debug)]
pub struct RevertPlan {
    /// Kernel settings to write back, in the order they were recorded.
    pub sysctls: StringMap,
    /// The energy preference to write back.
    pub cpu_epp: Option<String>,
    /// The profile to switch back to.
    pub profile: Option<String>,
}

/// The name a running program goes by: the contents of its `comm` file,
/// trimmed and lowercased; nothing when that is empty.
pub fn process_key(comm: &str) -> (r: Option<String>)
    ensures
        match r {
            Some(k) => lowercased(trimmed(comm@)).len() > 0 && k@ == lowercased(trimmed(comm@)),
            None => lowercased(trimmed(comm@)).len() == 0,
        },
{
    let clean = to_lower(trim_str(comm));
    if clean.unicode_len() == 0 {
        None
    } else {
        Some(clean)
    }
}

/// Whether a directory name of the process table is a process id: all its
/// characters are ASCII digits.
pub fn is_pid_name(name: &str) -> (r: bool)
    ensures
        r == forall|i: int| 0 <= i < name@.len() ==> '0' <= #[trigger] name@[i] <= '9',
{
    let n = name.unicode_len();
    let mut i: usize = 0;
    while i < n
        invariant
            n == name@.len(),
            i <= n,
            forall|j: int| 0 <= j < i ==> '0' <= #[trigger] name@[j] <= '9',
        decreases n - i,
    {
        let c = name.get_char(i);
        if !('0' <= c && c <= '9') {
            return false;
        }
        i = i + 1;
    }
    true
}

/// The argument of `sysctl -w` that sets `key` to `val`.
pub fn sysctl_assignment(key: &str, val: &str) -> (r: String)
    ensures
        r@ == key@ + "="@ + val@,
{
    join3(key, "=", val)
}

/// The value printed by `sysctl -n`, trimmed.
pub fn sysctl_reading(stdout: &str) -> (r: String)
    ensures
        r@ == trimmed(stdout@),
{
    owned(trim_str(stdout))
}

} // verus!
