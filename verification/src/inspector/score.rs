//! The security posture score: 100 points over the firewall (35), the attack
//! surface (25), kernel hardening (25) and desktop limits (15), with a letter
//! grade and the recommendations for what is missing.
use vstd::prelude::*;
use crate::inspector::ports::{ListeningPort, port_view};
use crate::text::{owned, to_lower, lowercased, trim_str, trimmed, str_contains, has_substring, str_eq, fmt_usize,
    decimal, join2, parse_i32, parse_i32_spec, parse_u32, parse_unsigned, chars_of, string_of};

verus! {

/// What the score is computed from, as read from the system. A kernel value
/// that could not be read is `None`.
#[derive(Debug)]
pub struct ScoreInputs {
    pub ufw_active: bool,
    pub default_deny: bool,
    pub ports: Vec<ListeningPort>,
    pub ptrace_scope: Option<i32>,
    pub bpf_disabled: Option<i32>,
    pub kptr_restrict: Option<i32>,
    pub syncookies: Option<i32>,
    pub rp_filter: Option<i32>,
    pub idle_timeout_seconds: u32,
    pub suid_dumpable: Option<i32>,
}

/// The score and what it was computed from.
#[derive(Debug)]
pub struct PostureScoreReport {
    pub total_score: u32,
    pub letter_grade: String,
    pub firewall_score: u32,
    pub attack_surface_score: u32,
    pub kernel_score: u32,
    pub limits_score: u32,
    pub ufw_active: bool,
    pub public_ports_count: usize,
    pub local_ports_count: usize,
    pub ptrace_scope: i32,
    pub bpf_disabled: i32,
    pub kptr_restrict: i32,
    pub syncookies: bool,
    pub rp_filter: i32,
    pub idle_timeout_seconds: u32,
    pub recommendations: Vec<String>,
    pub public_ports: Vec<ListeningPort>,
}

/// A kernel value, or the value assumed when it could not be read.
pub open spec fn or_default(v: Option<i32>, d: i32) -> i32 {
    match v {
        Some(x) => x,
        None => d,
    }
}

/// Firewall points: 25 when UFW is active, 10 more when it denies incoming by default.
pub open spec fn firewall_points(active: bool, deny: bool) -> u32 {
    if active {
        if deny {
            35
        } else {
            25
        }
    } else {
        0
    }
}

/// Attack-surface points by the number of publicly exposed sockets.
pub open spec fn surface_points(public: nat) -> u32 {
    if public == 0 {
        25
    } else if public == 1 {
        18
    } else if public == 2 {
        12
    } else if public <= 5 {
        6
    } else {
        0
    }
}

/// Kernel points: ptrace scope 2 gives 7 and 1 gives 5; unprivileged eBPF
/// off 6; kernel pointers hidden 4; SYN cookies 4; reverse-path filter 4.
pub open spec fn kernel_points(ptrace: i32, bpf: i32, kptr: i32, syncookies: bool, rp: i32) -> int {
    (if ptrace == 2 {
        7int
    } else if ptrace == 1 {
        5int
    } else {
        0int
    }) + (if bpf >= 1 {
        6int
    } else {
        0int
    }) + (if kptr >= 1 {
        4int
    } else {
        0int
    }) + (if syncookies {
        4int
    } else {
        0int
    }) + (if rp >= 1 {
        4int
    } else {
        0int
    })
}

/// Screen-lock points: 8 within five minutes, 6 within fifteen, 4 within thirty.
pub open spec fn idle_points(t: u32) -> u32 {
    if 0 < t <= 300 {
        8
    } else if 0 < t <= 900 {
        6
    } else if 0 < t <= 1800 {
        4
    } else {
        0
    }
}

/// Core-dump points: 7 when setuid programs never dump, 5 in debug mode, 2 otherwise.
pub open spec fn suid_points(s: i32) -> u32 {
    if s == 0 {
        7
    } else if s == 2 {
        5
    } else {
        2
    }
}

/// The letter grade of a total score.
pub open spec fn grade_of(total: int) -> Seq<char> {
    if 90 <= total <= 100 {
        "A+"@
    } else if 80 <= total <= 89 {
        "A"@
    } else if 70 <= total <= 79 {
        "B"@
    } else if 55 <= total <= 69 {
        "C"@
    } else {
        "F"@
    }
}

/// The sockets that are publicly exposed, in order.
pub open spec fn public_of(ports: Seq<ListeningPort>) -> Seq<ListeningPort> {
    ports.filter(|p: ListeningPort| p.is_public)
}

/// The sockets that listen on loopback only, in order.
pub open spec fn local_of(ports: Seq<ListeningPort>) -> Seq<ListeningPort> {
    ports.filter(|p: ListeningPort| p.is_local_only)
}

pub open spec fn rec_permissive() -> Seq<char> {
    "Default incoming firewall policy is permissive. Switch to deny/reject."@
}

pub open spec fn rec_inactive() -> Seq<char> {
    "UFW firewall is inactive. Enable firewall protection in Home, Work, or Travel profile."@
}

pub open spec fn rec_exposed(n: nat) -> Seq<char> {
    decimal(n) + " port(s) are actively exposed to LAN/WAN (0.0.0.0). Review in Port Inspector."@
}

pub open spec fn rec_ptrace() -> Seq<char> {
    "ptrace_scope is 0 (unrestricted memory reading). Set to 1 or 2."@
}

pub open spec fn rec_bpf() -> Seq<char> {
    "Unprivileged eBPF is enabled. Set kernel.unprivileged_bpf_disabled to 2."@
}

pub open spec fn rec_idle() -> Seq<char> {
    "Screen lock delay is longer than 30 minutes or disabled."@
}

/// The recommendations for what the inputs lack, in the order of the categories.
pub open spec fn recommendations_for(i: ScoreInputs) -> Seq<Seq<char>> {
    let public = public_of(i.ports@).len();
    let ptrace = or_default(i.ptrace_scope, 1);
    let bpf = or_default(i.bpf_disabled, 2);
    (if i.ufw_active {
        if i.default_deny {
            Seq::empty()
        } else {
            seq![rec_permissive()]
        }
    } else {
        seq![rec_inactive()]
    }) + (if public > 0 {
        seq![rec_exposed(public)]
    } else {
        Seq::empty()
    }) + (if ptrace == 2 || ptrace == 1 {
        Seq::empty()
    } else {
        seq![rec_ptrace()]
    }) + (if bpf >= 1 {
        Seq::empty()
    } else {
        seq![rec_bpf()]
    }) + (if idle_points(i.idle_timeout_seconds) > 0 {
        Seq::empty()
    } else {
        seq![rec_idle()]
    })
}

/// The report computed from the inputs is exactly this one.
pub open spec fn scores(r: PostureScoreReport, i: ScoreInputs) -> bool {
    let ptrace = or_default(i.ptrace_scope, 1);
    let bpf = or_default(i.bpf_disabled, 2);
    let kptr = or_default(i.kptr_restrict, 1);
    let sync = or_default(i.syncookies, 1) == 1;
    let rp = or_default(i.rp_filter, 1);
    let public = public_of(i.ports@);
    &&& r.firewall_score == firewall_points(i.ufw_active, i.default_deny)
    &&& r.attack_surface_score == surface_points(public.len())
    &&& r.kernel_score == kernel_points(ptrace, bpf, kptr, sync, rp)
    &&& r.limits_score == idle_points(i.idle_timeout_seconds) + suid_points(or_default(i.suid_dumpable, 2))
    &&& r.total_score == r.firewall_score + r.attack_surface_score + r.kernel_score + r.limits_score
    &&& r.letter_grade@ == grade_of(r.total_score as int)
    &&& r.ufw_active == i.ufw_active
    &&& r.public_ports_count == public.len()
    &&& r.local_ports_count == local_of(i.ports@).len()
    &&& r.ptrace_scope == ptrace
    &&& r.bpf_disabled == bpf
    &&& r.kptr_restrict == kptr
    &&& r.syncookies == sync
    &&& r.rp_filter == rp
    &&& r.idle_timeout_seconds == i.idle_timeout_seconds
    &&& r.recommendations@.map_values(|s: String| s@) == recommendations_for(i)
    &&& r.public_ports@.map_values(|p: ListeningPort| port_view(p)) == public.map_values(
        |p: ListeningPort| port_view(p),
    )
}

fn grade(total: u32) -> (r: String)
    ensures
        r@ == grade_of(total as int),
{
    if 90 <= total && total <= 100 {
        owned("A+")
    } else if 80 <= total && total <= 89 {
        owned("A")
    } else if 70 <= total && total <= 79 {
        owned("B")
    } else if 55 <= total && total <= 69 {
        owned("C")
    } else {
        owned("F")
    }
}

fn value_or(v: Option<i32>, d: i32) -> (r: i32)
    ensures
        r == or_default(v, d),
{
    match v {
        Some(x) => x,
        None => d,
    }
}

/// The sockets split by exposure: copies of the public ones, and the number
/// of loopback-only ones.
fn split_exposure(ports: &Vec<ListeningPort>) -> (r: (Vec<ListeningPort>, usize))
    ensures
        r.0@.map_values(|p: ListeningPort| port_view(p)) == public_of(ports@).map_values(|p: ListeningPort| port_view(p)),
        r.1 == local_of(ports@).len(),
{
    let mut public: Vec<ListeningPort> = Vec::new();
    let mut local: usize = 0;
    let mut i: usize = 0;
    while i < ports.len()
        invariant
            i <= ports@.len(),
            public@.map_values(|p: ListeningPort| port_view(p)) == public_of(ports@.subrange(0, i as int)).map_values(
                |p: ListeningPort| port_view(p),
            ),
            local == local_of(ports@.subrange(0, i as int)).len(),
            local <= i,
        decreases ports.len() - i,
    {
        let ghost before = public@;
        let ghost s = ports@.subrange(0, i + 1);
        proof {
            assert(s.drop_last() =~= ports@.subrange(0, i as int));
            assert(s.last() == ports@[i as int]);
            reveal(Seq::filter);
        }
        if ports[i].is_public {
            public.push(ports[i].duplicate());
            assert(public@.map_values(|p: ListeningPort| port_view(p)) =~= before.map_values(
                |p: ListeningPort| port_view(p),
            ).push(port_view(ports@[i as int])));
        } else {
            assert(public@ == before);
        }
        if ports[i].is_local_only {
            local = local + 1;
        }
        i = i + 1;
    }
    assert(ports@.subrange(0, ports@.len() as int) =~= ports@);
    (public, local)
}

/// The recommendations for what the inputs lack (see `recommendations_for`),
/// given the number of publicly exposed sockets.
fn recommendations_of(inputs: &ScoreInputs, public_count: usize) -> (r: Vec<String>)
    requires
        public_count == public_of(inputs.ports@).len(),
    ensures
        r@.map_values(|s: String| s@) == recommendations_for(*inputs),
{
    let mut recs: Vec<String> = Vec::new();
    if inputs.ufw_active {
        if !inputs.default_deny {
            recs.push(owned("Default incoming firewall policy is permissive. Switch to deny/reject."));
        }
    } else {
        recs.push(owned("UFW firewall is inactive. Enable firewall protection in Home, Work, or Travel profile."));
    }
    let ghost r1 = recs@.map_values(|s: String| s@);
    if public_count > 0 {
        let n = fmt_usize(public_count);
        recs.push(join2(n.as_str(), " port(s) are actively exposed to LAN/WAN (0.0.0.0). Review in Port Inspector."));
    }
    let ghost r2 = recs@.map_values(|s: String| s@);
    let ptrace_scope = value_or(inputs.ptrace_scope, 1);
    if !(ptrace_scope == 2 || ptrace_scope == 1) {
        recs.push(owned("ptrace_scope is 0 (unrestricted memory reading). Set to 1 or 2."));
    }
    let ghost r3 = recs@.map_values(|s: String| s@);
    if value_or(inputs.bpf_disabled, 2) < 1 {
        recs.push(owned("Unprivileged eBPF is enabled. Set kernel.unprivileged_bpf_disabled to 2."));
    }
    let ghost r4 = recs@.map_values(|s: String| s@);
    let t = inputs.idle_timeout_seconds;
    if !(t > 0 && t <= 1800) {
        recs.push(owned("Screen lock delay is longer than 30 minutes or disabled."));
    }
    proof {
        let i = *inputs;
        let public = public_of(i.ports@).len();
        let p1: Seq<Seq<char>> = if i.ufw_active {
            if i.default_deny {
                Seq::empty()
            } else {
                seq![rec_permissive()]
            }
        } else {
            seq![rec_inactive()]
        };
        assert(r1 =~= p1);
        let p2: Seq<Seq<char>> = if public > 0 {
            seq![rec_exposed(public)]
        } else {
            Seq::empty()
        };
        assert(r2 =~= p1 + p2);
        let pt = or_default(i.ptrace_scope, 1);
        let p3: Seq<Seq<char>> = if pt == 2 || pt == 1 {
            Seq::empty()
        } else {
            seq![rec_ptrace()]
        };
        assert(r3 =~= p1 + p2 + p3);
        let p4: Seq<Seq<char>> = if or_default(i.bpf_disabled, 2) >= 1 {
            Seq::empty()
        } else {
            seq![rec_bpf()]
        };
        assert(r4 =~= p1 + p2 + p3 + p4);
        let p5: Seq<Seq<char>> = if idle_points(t) > 0 {
            Seq::empty()
        } else {
            seq![rec_idle()]
        };
        assert(recs@.map_values(|s: String| s@) =~= p1 + p2 + p3 + p4 + p5);
    }
    recs
}

impl PostureScoreReport {
    /// Scores the inputs (see `scores`): the total is the sum of the four
    /// categories and never exceeds 100.
    pub fn compute(inputs: &ScoreInputs) -> (r: Self)
        ensures
            scores(r, *inputs),
            r.total_score <= 100,
    {
        let firewall_score: u32 = if inputs.ufw_active {
            if inputs.default_deny {
                35
            } else {
                25
            }
        } else {
            0
        };
        let (public_ports, local_ports_count) = split_exposure(&inputs.ports);
        let public_ports_count = public_ports.len();
        proof {
            assert(public_ports@.map_values(|p: ListeningPort| port_view(p)).len() == public_ports@.len());
        }
        let attack_surface_score: u32 = if public_ports_count == 0 {
            25
        } else if public_ports_count == 1 {
            18
        } else if public_ports_count == 2 {
            12
        } else if public_ports_count <= 5 {
            6
        } else {
            0
        };
        let ptrace_scope = value_or(inputs.ptrace_scope, 1);
        let bpf_disabled = value_or(inputs.bpf_disabled, 2);
        let kptr_restrict = value_or(inputs.kptr_restrict, 1);
        let syncookies = value_or(inputs.syncookies, 1) == 1;
        let rp_filter = value_or(inputs.rp_filter, 1);
        let kernel_score: u32 = (if ptrace_scope == 2 {
            7
        } else if ptrace_scope == 1 {
            5
        } else {
            0
        }) + (if bpf_disabled >= 1 {
            6
        } else {
            0
        }) + (if kptr_restrict >= 1 {
            4
        } else {
            0
        }) + (if syncookies {
            4
        } else {
            0
        }) + (if rp_filter >= 1 {
            4
        } else {
            0
        });
        let t = inputs.idle_timeout_seconds;
        let suid_dumpable = value_or(inputs.suid_dumpable, 2);
        let idle: u32 = if t <= 300 && t > 0 {
            8
        } else if t <= 900 && t > 0 {
            6
        } else if t <= 1800 && t > 0 {
            4
        } else {
            0
        };
        let suid: u32 = if suid_dumpable == 0 {
            7
        } else if suid_dumpable == 2 {
            5
        } else {
            2
        };
        let limits_score = idle + suid;
        let total_score = firewall_score + attack_surface_score + kernel_score + limits_score;
        let letter_grade = grade(total_score);
        let recommendations = recommendations_of(inputs, public_ports_count);
        PostureScoreReport {
            total_score,
            letter_grade,
            firewall_score,
            attack_surface_score,
            kernel_score,
            limits_score,
            ufw_active: inputs.ufw_active,
            public_ports_count,
            local_ports_count,
            ptrace_scope,
            bpf_disabled,
            kptr_restrict,
            syncookies,
            rp_filter,
            idle_timeout_seconds: t,
            recommendations,
            public_ports,
        }
    }
}

/// Every score lies within its category's maximum and the total within 100,
/// and the grade follows the total: A+ for 90-100, A for 80-89, B for 70-79,
/// C for 55-69 and F below 55.
pub proof fn lemma_score_bounds(r: PostureScoreReport, i: ScoreInputs)
    requires
        scores(r, i),
    ensures
        r.firewall_score <= 35,
        r.attack_surface_score <= 25,
        r.kernel_score <= 25,
        r.limits_score <= 15,
        r.total_score <= 100,
        r.total_score >= 90 <==> r.letter_grade@ == "A+"@,
        80 <= r.total_score <= 89 <==> r.letter_grade@ == "A"@,
        70 <= r.total_score <= 79 <==> r.letter_grade@ == "B"@,
        55 <= r.total_score <= 69 <==> r.letter_grade@ == "C"@,
        r.total_score < 55 <==> r.letter_grade@ == "F"@,
{
    reveal_strlit("A+");
    assert("A+"@.len() == 2);
    reveal_strlit("A");
    reveal_strlit("B");
    reveal_strlit("C");
    reveal_strlit("F");
    assert("A"@.len() == 1 && "B"@.len() == 1 && "C"@.len() == 1 && "F"@.len() == 1);
    assert("A"@[0] != "B"@[0] && "A"@[0] != "C"@[0] && "A"@[0] != "F"@[0]);
    assert("B"@[0] != "C"@[0] && "B"@[0] != "F"@[0] && "C"@[0] != "F"@[0]);
}

/// Firewall points: 35 for an active firewall that denies incoming by
/// default, 25 for an active one that does not, 0 for an inactive one.
pub proof fn lemma_firewall_points(active: bool, deny: bool)
    ensures
        active && deny ==> firewall_points(active, deny) == 35,
        active && !deny ==> firewall_points(active, deny) == 25,
        !active ==> firewall_points(active, deny) == 0,
{
}

/// Attack-surface points never rise with more exposed sockets: 25 with none,
/// 18 with one, 12 with two, 6 with three to five, 0 with more.
pub proof fn lemma_surface_points(p: nat, q: nat)
    ensures
        p <= q ==> surface_points(q) <= surface_points(p),
        p == 0 ==> surface_points(p) == 25,
        p == 1 ==> surface_points(p) == 18,
        p == 2 ==> surface_points(p) == 12,
        3 <= p <= 5 ==> surface_points(p) == 6,
        p > 5 ==> surface_points(p) == 0,
{
}

/// Screen-lock points never fall with a shorter lock delay: 8 up to five
/// minutes, 6 up to fifteen, 4 up to thirty, 0 beyond or when the lock is
/// off (delay 0).
pub proof fn lemma_idle_points(t1: u32, t2: u32)
    ensures
        0 < t1 <= t2 ==> idle_points(t1) >= idle_points(t2),
        0 < t1 <= 300 ==> idle_points(t1) == 8,
        300 < t1 <= 900 ==> idle_points(t1) == 6,
        900 < t1 <= 1800 ==> idle_points(t1) == 4,
        t1 == 0 || t1 > 1800 ==> idle_points(t1) == 0,
{
}

/// Core-dump points: 7 when setuid programs never dump, 5 in debug mode (2),
/// 2 for any other setting.
pub proof fn lemma_suid_points(s: i32)
    ensures
        s == 0 ==> suid_points(s) == 7,
        s == 2 ==> suid_points(s) == 5,
        s != 0 && s != 2 ==> suid_points(s) == 2,
{
}

/// Kernel points add up per setting: ptrace scope 2 gives 7 and 1 gives 5,
/// and eBPF restricted, kernel pointers hidden and reverse-path filtering
/// (each at level 1 or more) give 6, 4 and 4, SYN cookies 4; a weaker setting
/// gives nothing, so the kernel score never exceeds 25 and reaches it only
/// with every setting hardened.
pub proof fn lemma_kernel_points(ptrace: i32, bpf: i32, kptr: i32, syncookies: bool, rp: i32)
    ensures
        kernel_points(ptrace, bpf, kptr, syncookies, rp) == (if ptrace == 2 {
            7int
        } else if ptrace == 1 {
            5int
        } else {
            0int
        }) + (if bpf >= 1 { 6int } else { 0int }) + (if kptr >= 1 { 4int } else { 0int }) + (if syncookies {
            4int
        } else {
            0int
        }) + (if rp >= 1 { 4int } else { 0int }),
        kernel_points(ptrace, bpf, kptr, syncookies, rp) <= 25,
        kernel_points(ptrace, bpf, kptr, syncookies, rp) == 25 <==> (ptrace == 2 && bpf >= 1 && kptr >= 1
            && syncookies && rp >= 1),
{
}

/// What `ufw status verbose` printed: whether the firewall is active, and
/// whether it denies or rejects incoming connections by default (compared
/// lowercased).
pub fn parse_ufw_status(stdout: &str) -> (r: (bool, bool))
    ensures
        r.0 == has_substring(lowercased(stdout@), "status: active"@),
        r.1 == (has_substring(lowercased(stdout@), "default: deny (incoming)"@) || has_substring(
            lowercased(stdout@),
            "default: reject (incoming)"@,
        )),
{
    let s = to_lower(stdout);
    let is_active = str_contains(s.as_str(), "status: active");
    let default_deny = str_contains(s.as_str(), "default: deny (incoming)") || str_contains(
        s.as_str(),
        "default: reject (incoming)",
    );
    (is_active, default_deny)
}

/// What `systemctl is-active ufw` printed, trimmed, says: the service runs
/// (then it is taken to deny incoming by default too).
pub fn ufw_service_active(stdout: &str) -> (r: bool)
    ensures
        r == (trimmed(stdout@) == "active"@),
{
    str_eq(trim_str(stdout), "active")
}

/// The integer printed by `sysctl -n`, trimmed; nothing when it is not one.
pub fn parse_sysctl_i32(stdout: &str) -> (r: Option<i32>)
    ensures
        match r {
            Some(v) => parse_i32_spec(trimmed(stdout@)) == Some(v as int),
            None => parse_i32_spec(trimmed(stdout@)) is None,
        },
{
    parse_i32(trim_str(stdout))
}

/// The ASCII digits of a text, in order.
pub open spec fn ascii_digits(s: Seq<char>) -> Seq<char> {
    s.filter(|c: char| '0' <= c <= '9')
}

/// The idle delay printed by `gsettings get org.gnome.desktop.session
/// idle-delay` ("uint32 900" or "900"): the number its digits form, or 900
/// when they form none that fits.
pub fn parse_idle_delay(stdout: &str) -> (r: u32)
    ensures
        r == match parse_unsigned(ascii_digits(trimmed(stdout@)), 10, 0xffff_ffff) {
            Some(n) => n as u32,
            None => 900u32,
        },
{
    let s = chars_of(trim_str(stdout));
    let mut digits: Vec<char> = Vec::new();
    let mut i: usize = 0;
    while i < s.len()
        invariant
            i <= s@.len(),
            digits@ == ascii_digits(s@.subrange(0, i as int)),
        decreases s.len() - i,
    {
        proof {
            let t = s@.subrange(0, i + 1);
            assert(t.drop_last() =~= s@.subrange(0, i as int));
            reveal(Seq::filter);
        }
        if '0' <= s[i] && s[i] <= '9' {
            digits.push(s[i]);
        }
        i = i + 1;
    }
    assert(s@.subrange(0, s@.len() as int) =~= s@);
    let text = string_of(digits.as_slice());
    match parse_u32(text.as_str()) {
        Some(n) => n,
        None => 900,
    }
}

} // verus!
