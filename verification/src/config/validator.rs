//! Safety validation of profiles: every profile, built-in or custom, passes
//! here before it can be applied or saved.
use vstd::prelude::*;
use crate::config::schema::{ProfileConfig, PortRule};
use crate::strmap::{StringMap, lookup, position_of, lemma_position_of};
use crate::text::{lemma_plain_word_fixed, lemma_trim_idempotent, is_ascii_text, unicode_white_space, lowercased, trimmed, trim_str, to_lower, owned, str_eq, chars_of, string_of, split_chars, split_on, views, contains_char, parse_unsigned, parse_unsigned_chars, decimal, fmt_u32, join3, join5, is_prefix, str_starts_with};

verus! {

/// The number of bytes that UTF-8 uses for a character.
pub open spec fn utf8_width(c: char) -> nat {
    if (c as u32) < 0x80 {
        1
    } else if (c as u32) < 0x800 {
        2
    } else if (c as u32) < 0x10000 {
        3
    } else {
        4
    }
}

/// The length in bytes of a text in UTF-8 (what `str::len` counts).
pub open spec fn byte_len(s: Seq<char>) -> nat
    decreases s.len(),
{
    if s.len() == 0 {
        0
    } else {
        byte_len(s.drop_last()) + utf8_width(s.last())
    }
}

proof fn lemma_byte_len_prefix(s: Seq<char>, k: int)
    requires
        0 <= k <= s.len(),
    ensures
        byte_len(s.subrange(0, k)) <= byte_len(s),
    decreases s.len(),
{
    if k < s.len() {
        lemma_byte_len_prefix(s.drop_last(), k);
        assert(s.drop_last().subrange(0, k) =~= s.subrange(0, k));
    } else {
        assert(s.subrange(0, k) =~= s);
    }
}

/// Whether the UTF-8 length of `s` exceeds `cap`.
pub fn byte_len_exceeds(s: &str, cap: u64) -> (r: bool)
    requires
        cap < 0x1000_0000,
    ensures
        r == (byte_len(s@) > cap),
{
    let v = chars_of(s);
    let mut total: u64 = 0;
    let mut i: usize = 0;
    while i < v.len()
        invariant
            v@ == s@,
            i <= v@.len(),
            cap < 0x1000_0000,
            total == byte_len(v@.subrange(0, i as int)),
            total <= cap,
        decreases v.len() - i,
    {
        let c = v[i] as u32;
        let w: u64 = if c < 0x80 {
            1
        } else if c < 0x800 {
            2
        } else if c < 0x10000 {
            3
        } else {
            4
        };
        assert(v@.subrange(0, i + 1).drop_last() =~= v@.subrange(0, i as int));
        total = total + w;
        i = i + 1;
        if total > cap {
            proof {
                lemma_byte_len_prefix(s@, i as int);
            }
            return true;
        }
    }
    assert(v@.subrange(0, v@.len() as int) =~= s@);
    false
}

/// A character allowed in a profile id: ASCII lowercase letter, digit, `-` or `_`.
pub open spec fn is_id_char(c: char) -> bool {
    (97 <= c as u32 && c as u32 <= 122) || (48 <= c as u32 && c as u32 <= 57) || c == '-' || c == '_'
}

/// The normal form of a policy word: trimmed, then lowercased.
pub open spec fn normalized(s: Seq<char>) -> Seq<char> {
    lowercased(trimmed(s))
}

/// Why a profile id is refused, if it is.
pub open spec fn id_error(raw: Seq<char>) -> Option<Seq<char>> {
    let id = normalized(raw);
    if id.len() == 0 {
        Some("Profile ID cannot be empty"@)
    } else if byte_len(id) > 32 {
        Some("Profile ID cannot exceed 32 characters"@)
    } else if !(forall|i: int| 0 <= i < id.len() ==> is_id_char(#[trigger] id[i])) {
        Some(
            "Invalid profile ID '"@ + id
                + "'. Only lowercase letters, digits, '-', and '_' are allowed."@,
        )
    } else {
        None
    }
}

/// Why a profile name is refused, if it is.
pub open spec fn name_error(raw: Seq<char>) -> Option<Seq<char>> {
    let name = trimmed(raw);
    if name.len() == 0 {
        Some("Profile name cannot be empty"@)
    } else if byte_len(name) > 64 {
        Some("Profile name cannot exceed 64 characters"@)
    } else {
        None
    }
}

/// Why an incoming policy is refused, if it is: it must be deny, allow or reject.
pub open spec fn incoming_error(raw: Seq<char>) -> Option<Seq<char>> {
    let inc = normalized(raw);
    if inc != "deny"@ && inc != "allow"@ && inc != "reject"@ {
        Some("Invalid default_incoming '"@ + inc + "'. Expected 'deny', 'allow', or 'reject'."@)
    } else {
        None
    }
}

/// The incoming policies a profile may ask for are exactly deny, allow and
/// reject, in any letter case and with any surrounding whitespace: every
/// other text is refused, with a message that names it.
pub proof fn lemma_incoming_policies(raw: Seq<char>)
    ensures
        incoming_error(raw) is None <==> (normalized(raw) == "deny"@ || normalized(raw) == "allow"@
            || normalized(raw) == "reject"@),
        incoming_error(raw) is Some ==> incoming_error(raw)->0 == "Invalid default_incoming '"@ + normalized(raw)
            + "'. Expected 'deny', 'allow', or 'reject'."@,
{
}

/// Why an outgoing policy is refused, if it is: it must be allow or deny.
pub open spec fn outgoing_error(raw: Seq<char>) -> Option<Seq<char>> {
    let out = normalized(raw);
    if out != "allow"@ && out != "deny"@ {
        Some("Invalid default_outgoing '"@ + out + "'. Expected 'allow' or 'deny'."@)
    } else {
        None
    }
}

/// Why the number or range before the protocol is refused, if it is.
pub open spec fn port_number_error(port_part: Seq<char>) -> Option<Seq<char>> {
    if port_part.contains(':') {
        let range = split_on(port_part, ':');
        if range.len() != 2 {
            Some("Invalid port range '"@ + port_part + "'. Expected '<start>:<end>'."@)
        } else {
            match parse_unsigned(range[0], 10, 0xffff) {
                None => Some("Invalid start port '"@ + range[0] + "'"@),
                Some(start) => match parse_unsigned(range[1], 10, 0xffff) {
                    None => Some("Invalid end port '"@ + range[1] + "'"@),
                    Some(end) => if start == 0 || end == 0 || start > end {
                        Some(
                            "Invalid port range '"@ + decimal(start) + ":"@ + decimal(end)
                                + "'. Start must be <= end."@,
                        )
                    } else {
                        None
                    },
                },
            }
        }
    } else {
        match parse_unsigned(port_part, 10, 0xffff) {
            None => Some("Invalid port number '"@ + port_part + "'"@),
            Some(n) => if n == 0 {
                Some("Port number cannot be 0"@)
            } else {
                None
            },
        }
    }
}

/// Why a port rule (`<port>[/<protocol>]`, port a number or `start:end`) is refused, if it is.
pub open spec fn port_rule_error(raw: Seq<char>) -> Option<Seq<char>> {
    let p = trimmed(raw);
    let parts = split_on(p, '/');
    if p.len() == 0 {
        Some("Port rule cannot be empty"@)
    } else if parts.len() > 2 {
        Some("Invalid port format '"@ + p + "'. Expected '<port>/<protocol>'."@)
    } else if parts.len() == 2 && lowercased(parts[1]) != "tcp"@ && lowercased(parts[1]) != "udp"@ {
        Some(
            "Invalid protocol '"@ + lowercased(parts[1]) + "' in port '"@ + p
                + "'. Expected 'tcp' or 'udp'."@,
        )
    } else {
        port_number_error(parts[0])
    }
}

/// The first refusal among the first `n` port rules.
pub open spec fn ports_error(rules: Seq<PortRule>, n: int) -> Option<Seq<char>>
    decreases n,
{
    if n <= 0 {
        None
    } else {
        match ports_error(rules, n - 1) {
            Some(e) => Some(e),
            None => port_rule_error(rules[n - 1].port@),
        }
    }
}

proof fn lemma_ports_error_stable(rules: Seq<PortRule>, n: int, m: int)
    requires
        0 <= n <= m,
        ports_error(rules, n) is Some,
    ensures
        ports_error(rules, m) == ports_error(rules, n),
    decreases m - n,
{
    if n < m {
        lemma_ports_error_stable(rules, n, m - 1);
    }
}

/// A sysctl key under one of the permitted trees.
pub open spec fn sysctl_key_allowed(key: Seq<char>) -> bool {
    is_prefix("kernel."@, key) || is_prefix("fs."@, key) || is_prefix("vm."@, key)
        || is_prefix("net.ipv4."@, key) || is_prefix("net.ipv6."@, key)
}

/// Why a kernel parameter is refused, if it is: a key outside the permitted
/// trees, or a pipe anywhere in the value of `kernel.core_pattern` or
/// `fs.suid_dumpable`.
pub open spec fn kernel_entry_error(key: Seq<char>, val: Seq<char>) -> Option<Seq<char>> {
    if !sysctl_key_allowed(key) {
        Some(
            "Sysctl key '"@ + key
                + "' is not permitted. Only kernel.*, fs.*, vm.*, net.ipv4.*, and net.ipv6.* are allowed."@,
        )
    } else if (key == "kernel.core_pattern"@ || key == "fs.suid_dumpable"@) && val.contains('|') {
        Some("Piping "@ + key + " to arbitrary programs is disallowed for security."@)
    } else {
        None
    }
}

/// The first refusal among the first `n` kernel parameters.
pub open spec fn kernel_error(pairs: Seq<(Seq<char>, Seq<char>)>, n: int) -> Option<Seq<char>>
    decreases n,
{
    if n <= 0 {
        None
    } else {
        match kernel_error(pairs, n - 1) {
            Some(e) => Some(e),
            None => kernel_entry_error(pairs[n - 1].0, pairs[n - 1].1),
        }
    }
}

proof fn lemma_kernel_error_stable(pairs: Seq<(Seq<char>, Seq<char>)>, n: int, m: int)
    requires
        0 <= n <= m,
        kernel_error(pairs, n) is Some,
    ensures
        kernel_error(pairs, m) == kernel_error(pairs, n),
    decreases m - n,
{
    if n < m {
        lemma_kernel_error_stable(pairs, n, m - 1);
    }
}

/// The cpu energy-performance preferences that may be named.
pub open spec fn epp_allowed(e: Seq<char>) -> bool {
    e == "default"@ || e == "performance"@ || e == "balance_performance"@ || e == "balance_power"@
        || e == "power"@
}

/// Why the power section is refused, if it is.
pub open spec fn power_error(limit: Option<u32>, prof: Option<String>, epp: Option<String>) -> Option<Seq<char>> {
    if limit is Some && !(20 <= limit->0 && limit->0 <= 100) {
        Some(
            "Invalid battery_charge_limit '"@ + decimal(limit->0 as nat)
                + "%'. Expected a value between 20 and 100."@,
        )
    } else if prof is Some && lowercased(prof->0@) != "battery"@ && lowercased(prof->0@)
        != "balanced"@ && lowercased(prof->0@) != "performance"@ {
        Some(
            "Invalid power_profile '"@ + prof->0@
                + "'. Expected 'battery', 'balanced', or 'performance'."@,
        )
    } else if epp is Some && !epp_allowed(normalized(epp->0@)) {
        Some(
            "Invalid cpu_epp '"@ + epp->0@
                + "'. Expected 'default', 'performance', 'balance_performance', 'balance_power', or 'power'."@,
        )
    } else {
        None
    }
}

/// The outgoing policies a profile may ask for are exactly allow and deny,
/// in any letter case and with any surrounding whitespace.
pub proof fn lemma_outgoing_policies(raw: Seq<char>)
    ensures
        outgoing_error(raw) is None <==> (normalized(raw) == "allow"@ || normalized(raw) == "deny"@),
{
}

/// A kernel parameter is accepted exactly when its key lies under
/// `kernel.`, `fs.`, `vm.`, `net.ipv4.` or `net.ipv6.` and it does not pipe
/// `kernel.core_pattern` or `fs.suid_dumpable` to a program.
pub proof fn lemma_kernel_entries(key: Seq<char>, val: Seq<char>)
    ensures
        kernel_entry_error(key, val) is None <==> ((is_prefix("kernel."@, key) || is_prefix("fs."@, key)
            || is_prefix("vm."@, key) || is_prefix("net.ipv4."@, key) || is_prefix("net.ipv6."@, key)) && !((key
            == "kernel.core_pattern"@ || key == "fs.suid_dumpable"@) && val.contains('|'))),
{
}

/// The power section is accepted exactly when the charge limit, if given,
/// lies in 20..=100, the power profile, if given, is battery, balanced or
/// performance (any letter case), and the cpu preference, if given, is
/// default, performance, balance_performance, balance_power or power (any
/// letter case, surrounding whitespace allowed).
pub proof fn lemma_power_section(limit: Option<u32>, prof: Option<String>, epp: Option<String>)
    ensures
        power_error(limit, prof, epp) is None <==> {
            &&& (limit is Some ==> 20 <= limit->0 <= 100)
            &&& (prof is Some ==> (lowercased(prof->0@) == "battery"@ || lowercased(prof->0@) == "balanced"@
                || lowercased(prof->0@) == "performance"@))
            &&& (epp is Some ==> {
                let e = normalized(epp->0@);
                e == "default"@ || e == "performance"@ || e == "balance_performance"@ || e == "balance_power"@
                    || e == "power"@
            })
        },
{
}

/// The first reason, in the order the checks run, why a profile is refused.
pub open spec fn profile_error(c: ProfileConfig) -> Option<Seq<char>> {
    if id_error(c.profile.id@) is Some {
        id_error(c.profile.id@)
    } else if name_error(c.profile.name@) is Some {
        name_error(c.profile.name@)
    } else if incoming_error(c.firewall.default_incoming@) is Some {
        incoming_error(c.firewall.default_incoming@)
    } else if outgoing_error(c.firewall.default_outgoing@) is Some {
        outgoing_error(c.firewall.default_outgoing@)
    } else if ports_error(c.firewall.allow_ports@, c.firewall.allow_ports@.len() as int) is Some {
        ports_error(c.firewall.allow_ports@, c.firewall.allow_ports@.len() as int)
    } else if kernel_error(c.kernel.pairs(), c.kernel.pairs().len() as int) is Some {
        kernel_error(c.kernel.pairs(), c.kernel.pairs().len() as int)
    } else {
        power_error(c.power.battery_charge_limit, c.power.power_profile, c.power.cpu_epp)
    }
}

/// The warning given when loopback traffic was not allowed.
pub open spec fn loopback_warning() -> Seq<char> {
    "Firewall 'allow_loopback' was false; enforced to true to protect system IPC."@
}

/// The warning given when eBPF was to be locked until reboot.
pub open spec fn bpf_warning() -> Seq<char> {
    "kernel.unprivileged_bpf_disabled=1 irreversibly locks eBPF until reboot. Adjusted to 2 (admin-managed)."@
}

/// The sysctl key that can lock eBPF until reboot.
pub open spec fn bpf_key() -> Seq<char> {
    "kernel.unprivileged_bpf_disabled"@
}

/// The warnings of an accepted profile, in order.
pub open spec fn profile_warnings(c: ProfileConfig) -> Seq<Seq<char>> {
    let w1: Seq<Seq<char>> = if !c.firewall.allow_loopback {
        seq![loopback_warning()]
    } else {
        Seq::empty()
    };
    if lookup(c.kernel.pairs(), bpf_key()) == Some("1"@) {
        w1.push(bpf_warning())
    } else {
        w1
    }
}

/// The kernel parameters with an eBPF lock (value `1`) turned into `2`.
pub open spec fn sanitized_kernel(p: Seq<(Seq<char>, Seq<char>)>) -> Seq<(Seq<char>, Seq<char>)> {
    if lookup(p, bpf_key()) == Some("1"@) {
        p.update(position_of(p, bpf_key()), (bpf_key(), "2"@))
    } else {
        p
    }
}

/// `s` is the sanitized form of `c`: ids and policies normalized, names
/// trimmed, loopback enforced, eBPF lock defused, cpu epp normalized, and
/// everything else unchanged.
pub open spec fn is_sanitized_form(c: ProfileConfig, s: ProfileConfig) -> bool {
    &&& s.profile.id@ == normalized(c.profile.id@)
    &&& s.profile.name@ == trimmed(c.profile.name@)
    &&& s.profile.description == c.profile.description
    &&& s.profile.icon == c.profile.icon
    &&& s.profile.version == c.profile.version
    &&& s.profile.author == c.profile.author
    &&& s.profile.is_builtin == c.profile.is_builtin
    &&& s.kernel.pairs() == sanitized_kernel(c.kernel.pairs())
    &&& s.limits == c.limits
    &&& s.firewall.default_incoming@ == normalized(c.firewall.default_incoming@)
    &&& s.firewall.default_outgoing@ == normalized(c.firewall.default_outgoing@)
    &&& s.firewall.allow_loopback
    &&& s.firewall.allow_interfaces == c.firewall.allow_interfaces
    &&& s.firewall.allow_ports == c.firewall.allow_ports
    &&& s.power.battery_charge_limit == c.power.battery_charge_limit
    &&& s.power.power_profile == c.power.power_profile
    &&& match c.power.cpu_epp {
        None => s.power.cpu_epp is None,
        Some(e) => s.power.cpu_epp is Some && s.power.cpu_epp->0@ == normalized(e@),
    }
    &&& s.peripherals == c.peripherals
    &&& s.desktop == c.desktop
}

/// Each policy word is its own normal form.
proof fn lemma_policy_words_fixed()
    ensures
        normalized("deny"@) == "deny"@,
        normalized("allow"@) == "allow"@,
        normalized("reject"@) == "reject"@,
        normalized("default"@) == "default"@,
        normalized("performance"@) == "performance"@,
        normalized("balance_performance"@) == "balance_performance"@,
        normalized("balance_power"@) == "balance_power"@,
        normalized("power"@) == "power"@,
{
    reveal_strlit("deny");
    reveal_strlit("allow");
    reveal_strlit("reject");
    reveal_strlit("default");
    reveal_strlit("performance");
    reveal_strlit("balance_performance");
    reveal_strlit("balance_power");
    reveal_strlit("power");
    lemma_plain_word_fixed("deny"@);
    lemma_plain_word_fixed("allow"@);
    lemma_plain_word_fixed("reject"@);
    lemma_plain_word_fixed("default"@);
    lemma_plain_word_fixed("performance"@);
    lemma_plain_word_fixed("balance_performance"@);
    lemma_plain_word_fixed("balance_power"@);
    lemma_plain_word_fixed("power"@);
}

proof fn lemma_kernel_update_ok(p: Seq<(Seq<char>, Seq<char>)>, i: int, v: Seq<char>, n: int)
    requires
        0 <= i < p.len(),
        0 <= n <= p.len(),
        kernel_error(p, n) is None,
        kernel_entry_error(p[i].0, v) is None,
    ensures
        kernel_error(p.update(i, (p[i].0, v)), n) is None,
    decreases n,
{
    if n > 0 {
        lemma_kernel_update_ok(p, i, v, n - 1);
    }
}

proof fn lemma_position_same_keys(p: Seq<(Seq<char>, Seq<char>)>, i: int, v: Seq<char>, k: Seq<char>)
    requires
        0 <= i < p.len(),
    ensures
        position_of(p.update(i, (p[i].0, v)), k) == position_of(p, k),
    decreases p.len(),
{
    let q = p.update(i, (p[i].0, v));
    if i < p.len() - 1 {
        assert(q.drop_last() =~= p.drop_last().update(i, (p.drop_last()[i].0, v)));
        lemma_position_same_keys(p.drop_last(), i, v, k);
    } else {
        assert(q.drop_last() =~= p.drop_last());
    }
}

/// Sanitizing kernel parameters twice is sanitizing them once, and what it
/// leaves holds no eBPF lock.
proof fn lemma_sanitized_kernel_fixed(p: Seq<(Seq<char>, Seq<char>)>)
    ensures
        lookup(sanitized_kernel(p), bpf_key()) != Some("1"@),
        sanitized_kernel(sanitized_kernel(p)) == sanitized_kernel(p),
{
    reveal_strlit("1");
    reveal_strlit("2");
    assert("2"@ != "1"@) by {
        assert("2"@[0] != "1"@[0]);
    }
    if lookup(p, bpf_key()) == Some("1"@) {
        lemma_position_of(p, bpf_key());
        let i = position_of(p, bpf_key());
        lemma_position_same_keys(p, i, "2"@, bpf_key());
        assert(p[i].0 == bpf_key());
    }
}

/// Validating an accepted profile again, in its sanitized form `s`, accepts
/// it, gives back the same profile and warns of nothing.
pub proof fn lemma_revalidation_fixed(c: ProfileConfig, s: ProfileConfig)
    requires
        profile_error(c) is None,
        is_sanitized_form(c, s),
    ensures
        profile_error(s) is None,
        is_sanitized_form(s, s),
        profile_warnings(s) == Seq::<Seq<char>>::empty(),
{
    lemma_policy_words_fixed();
    let id0 = normalized(c.profile.id@);
    assert forall|i: int| 0 <= i < id0.len() implies !('A' <= #[trigger] id0[i] <= 'Z') && !unicode_white_space(
        id0[i],
    ) by {
        assert(is_id_char(id0[i]));
    }
    assert(is_ascii_text(id0)) by {
        assert forall|i: int| 0 <= i < id0.len() implies (#[trigger] id0[i] as u32) < 128 by {
            assert(is_id_char(id0[i]));
        }
    }
    lemma_plain_word_fixed(id0);
    assert(normalized(s.profile.id@) == id0);
    lemma_trim_idempotent(c.profile.name@);
    let p = c.kernel.pairs();
    lemma_sanitized_kernel_fixed(p);
    if lookup(p, bpf_key()) == Some("1"@) {
        lemma_position_of(p, bpf_key());
        let i = position_of(p, bpf_key());
        assert(p[i].0 == bpf_key());
        reveal_strlit("2");
        reveal_strlit("kernel.unprivileged_bpf_disabled");
        assert(kernel_entry_error(bpf_key(), "2"@) is None) by {
            assert(kernel_entry_error(p[i].0, p[i].1) is None) by {
                lemma_kernel_entry_of_ok(p, i, p.len() as int);
            }
            assert(!("2"@.contains('|')));
            assert(bpf_key() != "kernel.core_pattern"@) by {
                reveal_strlit("kernel.core_pattern");
                assert(bpf_key().len() != "kernel.core_pattern"@.len());
            }
        }
        lemma_kernel_update_ok(p, i, "2"@, p.len() as int);
    }
    match c.power.cpu_epp {
        Some(e) => {
            assert(normalized(normalized(e@)) == normalized(e@));
        },
        None => {},
    }
}

proof fn lemma_kernel_entry_of_ok(p: Seq<(Seq<char>, Seq<char>)>, i: int, n: int)
    requires
        0 <= i < n <= p.len(),
        kernel_error(p, n) is None,
    ensures
        kernel_entry_error(p[i].0, p[i].1) is None,
    decreases n,
{
    if n - 1 > i {
        lemma_kernel_entry_of_ok(p, i, n - 1);
    }
}

/// The outcome of validating a profile that passed.
#[derive(Debug, Clone)]
pub struct ValidationReport {
    pub is_valid: bool,
    pub warnings: Vec<String>,
    pub sanitized_config: ProfileConfig,
}

fn id_error_exec(raw: &str) -> (r: (Option<String>, String))
    ensures
        r.1@ == normalized(raw@),
        match r.0 {
            Some(e) => id_error(raw@) == Some(e@),
            None => id_error(raw@) is None,
        },
{
    let id = to_lower(trim_str(raw));
    if id.as_str().is_empty() {
        return (Some(owned("Profile ID cannot be empty")), id);
    }
    if byte_len_exceeds(id.as_str(), 32) {
        return (Some(owned("Profile ID cannot exceed 32 characters")), id);
    }
    let v = chars_of(id.as_str());
    let mut i: usize = 0;
    while i < v.len()
        invariant
            v@ == id@,
            id@ == normalized(raw@),
            id@.len() > 0,
            !(byte_len(id@) > 32),
            i <= v@.len(),
            forall|j: int| 0 <= j < i ==> is_id_char(#[trigger] v@[j]),
        decreases v.len() - i,
    {
        let n = v[i] as u32;
        let ok = (97 <= n && n <= 122) || (48 <= n && n <= 57) || v[i] == '-' || v[i] == '_';
        if !ok {
            assert(!is_id_char(id@[i as int]));
            let e = join3(
                "Invalid profile ID '",
                id.as_str(),
                "'. Only lowercase letters, digits, '-', and '_' are allowed.",
            );
            return (Some(e), id);
        }
        i = i + 1;
    }
    (None, id)
}

fn name_error_exec(raw: &str) -> (r: (Option<String>, String))
    ensures
        r.1@ == trimmed(raw@),
        match r.0 {
            Some(e) => name_error(raw@) == Some(e@),
            None => name_error(raw@) is None,
        },
{
    let name = owned(trim_str(raw));
    if name.as_str().is_empty() {
        return (Some(owned("Profile name cannot be empty")), name);
    }
    if byte_len_exceeds(name.as_str(), 64) {
        return (Some(owned("Profile name cannot exceed 64 characters")), name);
    }
    (None, name)
}

fn incoming_error_exec(raw: &str) -> (r: (Option<String>, String))
    ensures
        r.1@ == normalized(raw@),
        match r.0 {
            Some(e) => incoming_error(raw@) == Some(e@),
            None => incoming_error(raw@) is None,
        },
{
    let inc = to_lower(trim_str(raw));
    if !str_eq(inc.as_str(), "deny") && !str_eq(inc.as_str(), "allow") && !str_eq(inc.as_str(), "reject") {
        let e = join3("Invalid default_incoming '", inc.as_str(), "'. Expected 'deny', 'allow', or 'reject'.");
        return (Some(e), inc);
    }
    (None, inc)
}

fn outgoing_error_exec(raw: &str) -> (r: (Option<String>, String))
    ensures
        r.1@ == normalized(raw@),
        match r.0 {
            Some(e) => outgoing_error(raw@) == Some(e@),
            None => outgoing_error(raw@) is None,
        },
{
    let out = to_lower(trim_str(raw));
    if !str_eq(out.as_str(), "allow") && !str_eq(out.as_str(), "deny") {
        let e = join3("Invalid default_outgoing '", out.as_str(), "'. Expected 'allow' or 'deny'.");
        return (Some(e), out);
    }
    (None, out)
}

fn port_number_error_exec(port_part: &[char]) -> (r: Option<String>)
    ensures
        match r {
            Some(e) => port_number_error(port_part@) == Some(e@),
            None => port_number_error(port_part@) is None,
        },
{
    if contains_char(port_part, ':') {
        let range = split_chars(port_part, ':');
        assert(views(range@)[0] == range@[0]@);
        if range.len() != 2 {
            let pp = string_of(port_part);
            return Some(join3("Invalid port range '", pp.as_str(), "'. Expected '<start>:<end>'."));
        }
        assert(views(range@)[1] == range@[1]@);
        let start = match parse_unsigned_chars(range[0].as_slice(), 10, 0xffff) {
            Some(s) => s,
            None => {
                let r0 = string_of(range[0].as_slice());
                return Some(join3("Invalid start port '", r0.as_str(), "'"));
            },
        };
        let end = match parse_unsigned_chars(range[1].as_slice(), 10, 0xffff) {
            Some(s) => s,
            None => {
                let r1 = string_of(range[1].as_slice());
                return Some(join3("Invalid end port '", r1.as_str(), "'"));
            },
        };
        if start == 0 || end == 0 || start > end {
            let s1 = fmt_u32(start);
            let s2 = fmt_u32(end);
            return Some(
                join5("Invalid port range '", s1.as_str(), ":", s2.as_str(), "'. Start must be <= end."),
            );
        }
        None
    } else {
        match parse_unsigned_chars(port_part, 10, 0xffff) {
            None => {
                let pp = string_of(port_part);
                Some(join3("Invalid port number '", pp.as_str(), "'"))
            },
            Some(n) => {
                if n == 0 {
                    Some(owned("Port number cannot be 0"))
                } else {
                    None
                }
            },
        }
    }
}

fn port_rule_error_exec(raw: &str) -> (r: Option<String>)
    ensures
        match r {
            Some(e) => port_rule_error(raw@) == Some(e@),
            None => port_rule_error(raw@) is None,
        },
{
    let p = trim_str(raw);
    let pv = chars_of(p);
    if pv.len() == 0 {
        return Some(owned("Port rule cannot be empty"));
    }
    let parts = split_chars(pv.as_slice(), '/');
    assert(views(parts@)[0] == parts@[0]@);
    if parts.len() > 2 {
        return Some(join3("Invalid port format '", p, "'. Expected '<port>/<protocol>'."));
    }
    if parts.len() == 2 {
        assert(views(parts@)[1] == parts@[1]@);
        let raw_proto = string_of(parts[1].as_slice());
        let proto = to_lower(raw_proto.as_str());
        if !str_eq(proto.as_str(), "tcp") && !str_eq(proto.as_str(), "udp") {
            return Some(
                join5(
                    "Invalid protocol '",
                    proto.as_str(),
                    "' in port '",
                    p,
                    "'. Expected 'tcp' or 'udp'.",
                ),
            );
        }
    }
    port_number_error_exec(parts[0].as_slice())
}

fn kernel_entry_error_exec(key: &str, val: &str) -> (r: Option<String>)
    ensures
        match r {
            Some(e) => kernel_entry_error(key@, val@) == Some(e@),
            None => kernel_entry_error(key@, val@) is None,
        },
{
    let allowed = str_starts_with(key, "kernel.") || str_starts_with(key, "fs.")
        || str_starts_with(key, "vm.") || str_starts_with(key, "net.ipv4.")
        || str_starts_with(key, "net.ipv6.");
    if !allowed {
        return Some(
            join3(
                "Sysctl key '",
                key,
                "' is not permitted. Only kernel.*, fs.*, vm.*, net.ipv4.*, and net.ipv6.* are allowed.",
            ),
        );
    }
    let vv = chars_of(val);
    if (str_eq(key, "kernel.core_pattern") || str_eq(key, "fs.suid_dumpable")) && contains_char(vv.as_slice(), '|') {
        return Some(join3("Piping ", key, " to arbitrary programs is disallowed for security."));
    }
    None
}

fn power_error_exec(limit: Option<u32>, prof: &Option<String>, epp: &Option<String>) -> (r: (
    Option<String>,
    Option<String>,
))
    ensures
        match r.0 {
            Some(e) => power_error(limit, *prof, *epp) == Some(e@),
            None => power_error(limit, *prof, *epp) is None,
        },
        match *epp {
            None => r.1 is None,
            Some(e) => r.1 is Some && r.1->0@ == normalized(e@),
        },
{
    let epp_norm: Option<String> = match epp {
        Some(e) => Some(to_lower(trim_str(e.as_str()))),
        None => None,
    };
    if let Some(l) = limit {
        if !(20 <= l && l <= 100) {
            let ls = fmt_u32(l);
            return (
                Some(join3("Invalid battery_charge_limit '", ls.as_str(), "%'. Expected a value between 20 and 100.")),
                epp_norm,
            );
        }
    }
    if let Some(p) = prof {
        let pl = to_lower(p.as_str());
        if !str_eq(pl.as_str(), "battery") && !str_eq(pl.as_str(), "balanced") && !str_eq(
            pl.as_str(),
            "performance",
        ) {
            return (
                Some(
                    join3(
                        "Invalid power_profile '",
                        p.as_str(),
                        "'. Expected 'battery', 'balanced', or 'performance'.",
                    ),
                ),
                epp_norm,
            );
        }
    }
    if let Some(e) = epp {
        let en = to_lower(trim_str(e.as_str()));
        let s = en.as_str();
        if !(str_eq(s, "default") || str_eq(s, "performance") || str_eq(s, "balance_performance")
            || str_eq(s, "balance_power") || str_eq(s, "power")) {
            return (
                Some(
                    join3(
                        "Invalid cpu_epp '",
                        e.as_str(),
                        "'. Expected 'default', 'performance', 'balance_performance', 'balance_power', or 'power'.",
                    ),
                ),
                epp_norm,
            );
        }
    }
    (None, epp_norm)
}

/// Checks a profile against the safety rules and returns it in sanitized form.
///
/// Refused (with the message of the first failed check, in this order): an
/// empty, over-long (32 bytes) or ill-formed id; an empty or over-long (64
/// bytes) name; an incoming policy other than deny/allow/reject; an outgoing
/// policy other than allow/deny; a malformed or zero port or range; a sysctl
/// key outside kernel./fs./vm./net.ipv4./net.ipv6., or a piped core pattern;
/// a battery limit outside 20..=100; an unknown power profile or cpu epp.
/// Accepted profiles come back with loopback enforced and an eBPF lock
/// (`kernel.unprivileged_bpf_disabled = 1`) turned into `2`, each with a warning.
#[verifier::loop_isolation(false)]
pub fn validate_and_sanitize(config: ProfileConfig) -> (r: Result<ValidationReport, String>)
    requires
        config.kernel.wf(),
    ensures
        match r {
            Ok(rep) => {
                &&& profile_error(config) is None
                &&& rep.is_valid
                &&& views_of(rep.warnings@) == profile_warnings(config)
                &&& is_sanitized_form(config, rep.sanitized_config)
                &&& rep.sanitized_config.kernel.wf()
            },
            Err(e) => profile_error(config) == Some(e@),
        },
{
    let ghost c = config;
    let mut config = config;
    let mut warnings: Vec<String> = Vec::new();

    // 1. Id
    let (e, id) = id_error_exec(config.profile.id.as_str());
    if let Some(e) = e {
        return Err(e);
    }
    config.profile.id = id;

    // 2. Name
    let (e, name) = name_error_exec(config.profile.name.as_str());
    if let Some(e) = e {
        return Err(e);
    }
    config.profile.name = name;

    // 3. Loopback is never disabled
    if !config.firewall.allow_loopback {
        warnings.push(owned("Firewall 'allow_loopback' was false; enforced to true to protect system IPC."));
        config.firewall.allow_loopback = true;
    }

    // 4. Firewall policies
    let (e, inc) = incoming_error_exec(config.firewall.default_incoming.as_str());
    if let Some(e) = e {
        return Err(e);
    }
    config.firewall.default_incoming = inc;
    let (e, out) = outgoing_error_exec(config.firewall.default_outgoing.as_str());
    if let Some(e) = e {
        return Err(e);
    }
    config.firewall.default_outgoing = out;

    // 5. Port rules
    let mut i: usize = 0;
    while i < config.firewall.allow_ports.len()
        invariant
            config.firewall.allow_ports == c.firewall.allow_ports,
            i <= c.firewall.allow_ports@.len(),
            ports_error(c.firewall.allow_ports@, i as int) is None,
            id_error(c.profile.id@) is None,
            name_error(c.profile.name@) is None,
            incoming_error(c.firewall.default_incoming@) is None,
            outgoing_error(c.firewall.default_outgoing@) is None,
        decreases config.firewall.allow_ports.len() - i,
    {
        if let Some(e) = port_rule_error_exec(config.firewall.allow_ports[i].port.as_str()) {
            proof {
                assert(ports_error(c.firewall.allow_ports@, i + 1) == Some(e@));
                lemma_ports_error_stable(
                    c.firewall.allow_ports@,
                    i + 1,
                    c.firewall.allow_ports@.len() as int,
                );
                assert(profile_error(c) == Some(e@));
            }
            return Err(e);
        }
        i = i + 1;
    }

    // 6. Sysctl keys
    let n = config.kernel.len();
    let mut k: usize = 0;
    while k < n
        invariant
            config.kernel == c.kernel,
            n == c.kernel.pairs().len(),
            k <= n,
            kernel_error(c.kernel.pairs(), k as int) is None,
            id_error(c.profile.id@) is None,
            name_error(c.profile.name@) is None,
            incoming_error(c.firewall.default_incoming@) is None,
            outgoing_error(c.firewall.default_outgoing@) is None,
            ports_error(c.firewall.allow_ports@, c.firewall.allow_ports@.len() as int) is None,
        decreases n - k,
    {
        if let Some(e) = kernel_entry_error_exec(config.kernel.key_at(k), config.kernel.value_at(k)) {
            proof {
                assert(kernel_error(c.kernel.pairs(), k + 1) == Some(e@));
                lemma_kernel_error_stable(c.kernel.pairs(), k + 1, n as int);
                assert(profile_error(c) == Some(e@));
            }
            return Err(e);
        }
        k = k + 1;
    }
    let bpf_locked = match config.kernel.get("kernel.unprivileged_bpf_disabled") {
        Some(v) => str_eq(v.as_str(), "1"),
        None => false,
    };
    if bpf_locked {
        warnings.push(
            owned(
                "kernel.unprivileged_bpf_disabled=1 irreversibly locks eBPF until reboot. Adjusted to 2 (admin-managed).",
            ),
        );
        proof {
            lemma_position_of(config.kernel.pairs(), bpf_key());
        }
        config.kernel.insert(owned("kernel.unprivileged_bpf_disabled"), owned("2"));
    }

    // 7-9. Power
    let (e, epp) = power_error_exec(
        config.power.battery_charge_limit,
        &config.power.power_profile,
        &config.power.cpu_epp,
    );
    if let Some(e) = e {
        return Err(e);
    }
    config.power.cpu_epp = epp;

    assert(views_of(warnings@) =~= profile_warnings(c));
    Ok(ValidationReport { is_valid: true, warnings, sanitized_config: config })
}

/// The views of a vector of strings.
pub open spec fn views_of(v: Seq<String>) -> Seq<Seq<char>> {
    v.map_values(|s: String| s@)
}

} // verus!
