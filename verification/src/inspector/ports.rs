//! Listening sockets: reading `ss -tulpn` output and classifying exposure.
use vstd::prelude::*;
use crate::text::{
    owned, str_eq, chars_of, string_of, to_lower, to_upper, trim_str, join3, fmt_u32, lowercased,
    uppercased, trimmed, decimal, is_prefix, has_substring, occurs_at, str_starts_with, str_contains,
    split_words, words, split_lines, lines, views, find_seq, first_index_of, rfind_char, last_index_of,
    parse_unsigned, parse_unsigned_chars, leading_digits, take_digits, slice_chars, split_chars, split_on,
};

verus! {

/// A listening socket and how exposed it is.
#[derive(Debug, Clone)]
pub struct ListeningPort {
    pub protocol: String,
    pub local_ip: String,
    pub port: u16,
    pub process_name: String,
    pub pid: Option<u32>,
    pub is_local_only: bool,
    pub is_public: bool,
    pub service_hint: String,
}

/// The well-known service behind a port and protocol, or `<port>/<PROTO>`.
pub open spec fn service_hint(port: u16, proto: Seq<char>) -> Seq<char> {
    if port == 22 {
        "SSH Server"@
    } else if port == 53 {
        "DNS Resolver / systemd-resolved"@
    } else if port == 80 && proto == "tcp"@ {
        "HTTP Web Server"@
    } else if port == 443 && proto == "tcp"@ {
        "HTTPS Web Server"@
    } else if port == 631 {
        "IPP / CUPS Print Server"@
    } else if 1714 <= port <= 1764 {
        "GSConnect / KDE Connect"@
    } else if port == 3000 && proto == "tcp"@ {
        "Dev Server (React / Vite / Rails)"@
    } else if port == 323 && proto == "udp"@ {
        "NTP Time Sync (Chrony)"@
    } else if port == 51413 {
        "BitTorrent Client"@
    } else if port == 5353 && proto == "udp"@ {
        "mDNS / Avahi Zeroconf"@
    } else if port == 8000 && proto == "tcp"@ {
        "Dev Server (Python / Django)"@
    } else if port == 8080 && proto == "tcp"@ {
        "Web Proxy / Alt HTTP"@
    } else if port == 11434 && proto == "tcp"@ {
        "Ollama Local AI API"@
    } else if 27031 <= port <= 27040 {
        "Steam In-Home Streaming"@
    } else if port == 53317 {
        "LocalSend File Sharing"@
    } else {
        decimal(port as nat) + "/"@ + uppercased(proto)
    }
}

/// The view of a listening socket: protocol, address, port, process, pid,
/// loopback-only, public, service.
pub open spec fn port_view(p: ListeningPort) -> (Seq<char>, Seq<char>, u16, Seq<char>, Option<u32>, bool, bool, Seq<char>) {
    (p.protocol@, p.local_ip@, p.port, p.process_name@, p.pid, p.is_local_only, p.is_public, p.service_hint@)
}

impl ListeningPort {
    /// A copy of this socket's description.
    pub fn duplicate(&self) -> (r: Self)
        ensures
            port_view(r) == port_view(*self),
    {
        ListeningPort {
            protocol: owned(self.protocol.as_str()),
            local_ip: owned(self.local_ip.as_str()),
            port: self.port,
            process_name: owned(self.process_name.as_str()),
            pid: self.pid,
            is_local_only: self.is_local_only,
            is_public: self.is_public,
            service_hint: owned(self.service_hint.as_str()),
        }
    }
}

impl ListeningPort {
    /// The well-known service behind a port and protocol.
    pub fn get_service_hint(port: u16, proto: &str) -> (r: String)
        ensures
            r@ == service_hint(port, proto@),
    {
        let tcp = str_eq(proto, "tcp");
        let udp = str_eq(proto, "udp");
        if port == 22 {
            owned("SSH Server")
        } else if port == 53 {
            owned("DNS Resolver / systemd-resolved")
        } else if port == 80 && tcp {
            owned("HTTP Web Server")
        } else if port == 443 && tcp {
            owned("HTTPS Web Server")
        } else if port == 631 {
            owned("IPP / CUPS Print Server")
        } else if 1714 <= port && port <= 1764 {
            owned("GSConnect / KDE Connect")
        } else if port == 3000 && tcp {
            owned("Dev Server (React / Vite / Rails)")
        } else if port == 323 && udp {
            owned("NTP Time Sync (Chrony)")
        } else if port == 51413 {
            owned("BitTorrent Client")
        } else if port == 5353 && udp {
            owned("mDNS / Avahi Zeroconf")
        } else if port == 8000 && tcp {
            owned("Dev Server (Python / Django)")
        } else if port == 8080 && tcp {
            owned("Web Proxy / Alt HTTP")
        } else if port == 11434 && tcp {
            owned("Ollama Local AI API")
        } else if 27031 <= port && port <= 27040 {
            owned("Steam In-Home Streaming")
        } else if port == 53317 {
            owned("LocalSend File Sharing")
        } else {
            let p = fmt_u32(port as u32);
            let up = to_upper(proto);
            join3(p.as_str(), "/", up.as_str())
        }
    }
}

/// An address bound to the loopback interface only.
pub open spec fn loopback_address(ip: Seq<char>) -> bool {
    is_prefix("127."@, ip) || ip == "::1"@ || ip == "localhost"@ || has_substring(ip, "%lo"@)
}

/// Whether an address is bound to the loopback interface only.
pub fn is_loopback(ip: &str) -> (r: bool)
    ensures
        r == loopback_address(ip@),
{
    str_starts_with(ip, "127.") || str_eq(ip, "::1") || str_eq(ip, "localhost") || str_contains(ip, "%lo")
}

/// The address part with IPv6 brackets removed and `*` read as `0.0.0.0`.
pub open spec fn clean_ip(ip: Seq<char>) -> Seq<char> {
    let unbracketed = if ip.len() > 0 && ip[0] == '[' && ip.last() == ']' {
        ip.subrange(1, ip.len() - 1)
    } else {
        ip
    };
    if unbracketed == "*"@ {
        "0.0.0.0"@
    } else {
        unbracketed
    }
}

/// The address and port of a local `address:port` column; the port follows
/// the last colon and must be a 16-bit number.
pub open spec fn ip_and_port(addr: Seq<char>) -> Option<(Seq<char>, nat)> {
    let k = last_index_of(addr, ':');
    if k < 0 {
        None
    } else {
        match parse_unsigned(addr.subrange(k + 1, addr.len() as int), 10, 0xffff) {
            None => None,
            Some(p) => Some((clean_ip(addr.subrange(0, k)), p)),
        }
    }
}

/// Splits an `address:port` column into address and port.
pub fn parse_ip_and_port(addr: &str) -> (r: Option<(String, u16)>)
    ensures
        match r {
            Some((ip, port)) => ip_and_port(addr@) == Some((ip@, port as nat)),
            None => ip_and_port(addr@) is None,
        },
{
    let a = chars_of(addr);
    let k = match rfind_char(a.as_slice(), ':') {
        Some(k) => k,
        None => return None,
    };
    let port_part = slice_chars(a.as_slice(), k + 1, a.len());
    let port = match parse_unsigned_chars(port_part.as_slice(), 10, 0xffff) {
        Some(p) => p as u16,
        None => return None,
    };
    let ip = slice_chars(a.as_slice(), 0, k);
    let unbracketed = if ip.len() > 0 && ip[0] == '[' && ip[ip.len() - 1] == ']' {
        slice_chars(ip.as_slice(), 1, ip.len() - 1)
    } else {
        ip
    };
    let s = string_of(unbracketed.as_slice());
    if str_eq(s.as_str(), "*") {
        Some((owned("0.0.0.0"), port))
    } else {
        Some((s, port))
    }
}

proof fn lemma_first_index_of(s: Seq<char>, pat: Seq<char>, i: int)
    requires
        occurs_at(s, pat, i),
        forall|j: int| 0 <= j < i ==> !occurs_at(s, pat, j),
    ensures
        first_index_of(s, pat) == Some(i),
{
    assert(has_substring(s, pat));
    let k = choose|k: int| occurs_at(s, pat, k) && forall|j: int| 0 <= j < k ==> !occurs_at(s, pat, j);
    assert(occurs_at(s, pat, k) && forall|j: int| 0 <= j < k ==> !occurs_at(s, pat, j));
    if k < i {
        assert(!occurs_at(s, pat, k));
    }
    if i < k {
        assert(!occurs_at(s, pat, i));
    }
}

fn find_first(s: &[char], pat: &str) -> (r: Option<usize>)
    ensures
        match r {
            Some(i) => first_index_of(s@, pat@) == Some(i as int) && i + pat@.len() <= s@.len(),
            None => first_index_of(s@, pat@) is None,
        },
{
    let p = chars_of(pat);
    match find_seq(s, p.as_slice()) {
        Some(i) => {
            proof {
                lemma_first_index_of(s@, pat@, i as int);
            }
            Some(i)
        },
        None => None,
    }
}

/// The pid written after `pid=` at position `k` of `u`.
pub open spec fn pid_after(u: Seq<char>, k: int) -> Option<nat> {
    parse_unsigned(leading_digits(u.subrange(k + 4, u.len() as int)), 10, 0xffff_ffff)
}

/// The process of an `ss` users column, `users:(("name",pid=N,fd=M))`: the
/// quoted name and the pid after it; failing that `process` and the first
/// `pid=`; failing that `system/unprivileged` without a pid.
pub open spec fn process_info(u: Seq<char>) -> (Seq<char>, Option<nat>) {
    let secondary = secondary_process_info(u);
    match first_index_of(u, "((\""@) {
        Some(st) => {
            let rest = u.subrange(st + 3, u.len() as int);
            match first_index_of(rest, "\""@) {
                Some(en) => (
                    rest.subrange(0, en),
                    match first_index_of(rest, "pid="@) {
                        Some(k) => pid_after(rest, k),
                        None => None,
                    },
                ),
                None => secondary,
            }
        },
        None => secondary,
    }
}

fn pid_after_exec(u: &[char], k: usize) -> (r: Option<u32>)
    requires
        k + 4 <= u@.len(),
    ensures
        match r {
            Some(p) => pid_after(u@, k as int) == Some(p as nat),
            None => pid_after(u@, k as int) is None,
        },
{
    let n = u.len();
    let d = take_digits(u, k + 4);
    parse_unsigned_chars(d.as_slice(), 10, 0xffff_ffff)
}

/// The `process`/`system/unprivileged` reading of a users column.
pub open spec fn secondary_process_info(u: Seq<char>) -> (Seq<char>, Option<nat>) {
    match first_index_of(u, "pid="@) {
        Some(k) => ("process"@, pid_after(u, k)),
        None => ("system/unprivileged"@, None),
    }
}

fn secondary_process_info_exec(u: &[char]) -> (r: (String, Option<u32>))
    ensures
        r.0@ == secondary_process_info(u@).0,
        match r.1 {
            Some(p) => secondary_process_info(u@).1 == Some(p as nat),
            None => secondary_process_info(u@).1 is None,
        },
{
    proof {
        reveal_strlit("pid=");
    }
    match find_first(u, "pid=") {
        Some(k) => (owned("process"), pid_after_exec(u, k)),
        None => (owned("system/unprivileged"), None),
    }
}

fn quoted_process_info(rest: &[char]) -> (r: Option<(String, Option<u32>)>)
    ensures
        match r {
            Some((name, pid)) => first_index_of(rest@, "\""@) is Some && name@ == rest@.subrange(
                0,
                first_index_of(rest@, "\""@)->0,
            ) && match pid {
                Some(p) => first_index_of(rest@, "pid="@) is Some && pid_after(
                    rest@,
                    first_index_of(rest@, "pid="@)->0,
                ) == Some(p as nat),
                None => first_index_of(rest@, "pid="@) is None || pid_after(
                    rest@,
                    first_index_of(rest@, "pid="@)->0,
                ) is None,
            },
            None => first_index_of(rest@, "\""@) is None,
        },
{
    proof {
        reveal_strlit("pid=");
        reveal_strlit("\"");
    }
    match find_first(rest, "\"") {
        Some(en) => {
            let name = slice_chars(rest, 0, en);
            let pid = match find_first(rest, "pid=") {
                Some(k) => pid_after_exec(rest, k),
                None => None,
            };
            Some((string_of(name.as_slice()), pid))
        },
        None => None,
    }
}

/// The process name and pid of an `ss` users column.
#[verifier::rlimit(40)]
pub fn parse_process_info(users_str: &str) -> (r: (String, Option<u32>))
    ensures
        r.0@ == process_info(users_str@).0,
        match r.1 {
            Some(p) => process_info(users_str@).1 == Some(p as nat),
            None => process_info(users_str@).1 is None,
        },
{
    proof {
        reveal_strlit("((\"");
    }
    let u = chars_of(users_str);
    if let Some(st) = find_first(u.as_slice(), "((\"") {
        let n = u.len();
        assert(("((\""@).len() == 3);
        assert(st + 3 <= n);
        let rest = slice_chars(u.as_slice(), st + 3, n);
        if let Some(found) = quoted_process_info(rest.as_slice()) {
            assert(first_index_of(users_str@, "((\""@) == Some(st as int));
            assert(rest@ == users_str@.subrange(st + 3, users_str@.len() as int));
            return found;
        }
    }
    secondary_process_info_exec(u.as_slice())
}

/// The words joined with single spaces.
pub open spec fn join_spaced(ws: Seq<Seq<char>>) -> Seq<char>
    decreases ws.len(),
{
    if ws.len() == 0 {
        Seq::empty()
    } else if ws.len() == 1 {
        ws[0]
    } else {
        join_spaced(ws.drop_last()) + seq![' '] + ws.last()
    }
}

pub(crate) fn join_words(ws: &Vec<Vec<char>>, from: usize) -> (r: Vec<char>)
    requires
        from <= ws@.len(),
    ensures
        r@ == join_spaced(views(ws@).subrange(from as int, ws@.len() as int)),
{
    let mut out: Vec<char> = Vec::new();
    let mut i: usize = from;
    while i < ws.len()
        invariant
            from <= i <= ws@.len(),
            out@ == join_spaced(views(ws@).subrange(from as int, i as int)),
        decreases ws.len() - i,
    {
        let ghost pre = views(ws@).subrange(from as int, i as int);
        let ghost next = views(ws@).subrange(from as int, i + 1);
        assert(next.drop_last() =~= pre);
        assert(next.last() == ws@[i as int]@);
        if i > from {
            out.push(' ');
        }
        let mut k: usize = 0;
        let ghost base = out@;
        while k < ws[i].len()
            invariant
                i < ws@.len(),
                k <= ws@[i as int]@.len(),
                out@ == base + ws@[i as int]@.subrange(0, k as int),
            decreases ws@[i as int]@.len() - k,
        {
            out.push(ws[i][k]);
            k = k + 1;
            assert(out@ =~= base + ws@[i as int]@.subrange(0, k as int));
        }
        assert(ws@[i as int]@.subrange(0, k as int) =~= ws@[i as int]@);
        i = i + 1;
        if i - 1 == from {
            assert(out@ =~= join_spaced(next));
        } else {
            assert(out@ =~= join_spaced(next));
        }
    }
    out
}

/// A line of `ss -tulpn -H` read as (protocol, address, port, process, pid),
/// or nothing for blank, short, or non-tcp/udp lines and bad addresses.
pub open spec fn ss_entry(line: Seq<char>) -> Option<(Seq<char>, Seq<char>, nat, Seq<char>, Option<nat>)> {
    let t = trimmed(line);
    let parts = words(t);
    if t.len() == 0 || parts.len() < 5 {
        None
    } else {
        let proto = lowercased(parts[0]);
        if proto != "tcp"@ && proto != "udp"@ {
            None
        } else {
            match ip_and_port(parts[4]) {
                None => None,
                Some((ip, port)) => {
                    let (name, pid) = if parts.len() >= 6 {
                        process_info(join_spaced(parts.subrange(5, parts.len() as int)))
                    } else {
                        ("unknown"@, None)
                    };
                    Some((proto, ip, port, name, pid))
                },
            }
        }
    }
}

/// The sockets read from the first `n` lines: one per (protocol, address,
/// port), the first line of each kept, in order.
pub open spec fn ss_sockets(ls: Seq<Seq<char>>, n: int) -> Seq<(Seq<char>, Seq<char>, nat, Seq<char>, Option<nat>)>
    decreases n,
{
    if n <= 0 {
        Seq::empty()
    } else {
        let prev = ss_sockets(ls, n - 1);
        match ss_entry(ls[n - 1]) {
            None => prev,
            Some(e) => if exists|j: int| 0 <= j < prev.len() && prev[j].0 == e.0 && prev[j].1 == e.1 && prev[j].2 == e.2 {
                prev
            } else {
                prev.push(e)
            },
        }
    }
}

/// A listening port as read from an entry, with its exposure and hint.
pub open spec fn port_describes(p: ListeningPort, e: (Seq<char>, Seq<char>, nat, Seq<char>, Option<nat>)) -> bool {
    &&& p.protocol@ == e.0
    &&& p.local_ip@ == e.1
    &&& p.port as nat == e.2
    &&& p.process_name@ == e.3
    &&& (match p.pid {
        Some(x) => e.4 == Some(x as nat),
        None => e.4 is None,
    })
    &&& p.is_local_only == loopback_address(e.1)
    &&& p.is_public == !loopback_address(e.1)
    &&& p.service_hint@ == service_hint(p.port, e.0)
}

fn ss_entry_exec(line: &Vec<char>) -> (r: Option<ListeningPort>)
    ensures
        match r {
            Some(p) => ss_entry(line@) is Some && port_describes(p, ss_entry(line@)->0),
            None => ss_entry(line@) is None,
        },
{
    let ls = string_of(line.as_slice());
    let t = trim_str(ls.as_str());
    let tv = chars_of(t);
    let parts = split_words(tv.as_slice());
    if tv.len() == 0 || parts.len() < 5 {
        return None;
    }
    assert(views(parts@)[0] == parts@[0]@);
    assert(views(parts@)[4] == parts@[4]@);
    let p0 = string_of(parts[0].as_slice());
    let proto = to_lower(p0.as_str());
    if !str_eq(proto.as_str(), "tcp") && !str_eq(proto.as_str(), "udp") {
        return None;
    }
    let p4 = string_of(parts[4].as_slice());
    let (ip, port) = match parse_ip_and_port(p4.as_str()) {
        Some(x) => x,
        None => return None,
    };
    let (name, pid) = if parts.len() >= 6 {
        let joined = join_words(&parts, 5);
        let js = string_of(joined.as_slice());
        parse_process_info(js.as_str())
    } else {
        (owned("unknown"), None)
    };
    let local = is_loopback(ip.as_str());
    let hint = ListeningPort::get_service_hint(port, proto.as_str());
    Some(
        ListeningPort {
            protocol: proto,
            local_ip: ip,
            port,
            process_name: name,
            pid,
            is_local_only: local,
            is_public: !local,
            service_hint: hint,
        },
    )
}

fn already_listed(ports: &Vec<ListeningPort>, p: &ListeningPort) -> (r: bool)
    ensures
        r == exists|j: int|
            0 <= j < ports@.len() && ports@[j].protocol@ == p.protocol@ && ports@[j].local_ip@
                == p.local_ip@ && ports@[j].port == p.port,
{
    let mut j: usize = 0;
    while j < ports.len()
        invariant
            j <= ports@.len(),
            forall|k: int|
                0 <= k < j ==> !(ports@[k].protocol@ == p.protocol@ && ports@[k].local_ip@ == p.local_ip@
                    && ports@[k].port == p.port),
        decreases ports.len() - j,
    {
        if str_eq(ports[j].protocol.as_str(), p.protocol.as_str()) && str_eq(
            ports[j].local_ip.as_str(),
            p.local_ip.as_str(),
        ) && ports[j].port == p.port {
            return true;
        }
        j = j + 1;
    }
    false
}

/// The listening sockets in the output of `ss -tulpn -H`, one per
/// (protocol, address, port), in order of first appearance.
#[verifier::rlimit(40)]
pub fn parse_ss_output(text: &str) -> (r: Vec<ListeningPort>)
    ensures
        r@.len() == ss_sockets(lines(text@), lines(text@).len() as int).len(),
        forall|i: int|
            0 <= i < r@.len() ==> port_describes(
                #[trigger] r@[i],
                ss_sockets(lines(text@), lines(text@).len() as int)[i],
            ),
{
    let tv = chars_of(text);
    let ls = split_lines(tv.as_slice());
    let ghost lv = views(ls@);
    let mut ports: Vec<ListeningPort> = Vec::new();
    let mut i: usize = 0;
    while i < ls.len()
        invariant
            lv == views(ls@),
            lv == lines(text@),
            i <= ls@.len(),
            ports@.len() == ss_sockets(lv, i as int).len(),
            forall|k: int| 0 <= k < ports@.len() ==> port_describes(#[trigger] ports@[k], ss_sockets(lv, i as int)[k]),
        decreases ls.len() - i,
    {
        assert(lv[i as int] == ls@[i as int]@);
        let ghost prev = ss_sockets(lv, i as int);
        match ss_entry_exec(&ls[i]) {
            Some(p) => {
                let dup = already_listed(&ports, &p);
                proof {
                    let e = ss_entry(lv[i as int])->0;
                    if dup {
                        let j = choose|j: int|
                            0 <= j < ports@.len() && ports@[j].protocol@ == p.protocol@ && ports@[j].local_ip@
                                == p.local_ip@ && ports@[j].port == p.port;
                        assert(port_describes(ports@[j], prev[j]));
                        assert(0 <= j < prev.len() && prev[j].0 == e.0 && prev[j].1 == e.1 && prev[j].2 == e.2);
                    } else {
                        assert forall|j: int| 0 <= j < prev.len() implies !(prev[j].0 == e.0 && prev[j].1 == e.1
                            && prev[j].2 == e.2) by {
                            assert(port_describes(ports@[j], prev[j]));
                        }
                    }
                }
                if !dup {
                    ports.push(p);
                }
            },
            None => {},
        }
        i = i + 1;
    }
    ports
}

/// The IPv4 address of a `/proc/net` hex word (little-endian bytes).
pub open spec fn dotted_quad(n: nat) -> Seq<char> {
    decimal(n % 256) + "."@ + decimal((n / 256) % 256) + "."@ + decimal((n / 65536) % 256) + "."@
        + decimal((n / 16777216) % 256)
}

/// An `ADDR:PORT` word of `/proc/net/tcp` read as an IPv4 address and port,
/// both in hexadecimal.
pub open spec fn proc_hex_addr(s: Seq<char>) -> Option<(Seq<char>, nat)> {
    let parts = split_on(s, ':');
    if parts.len() != 2 {
        None
    } else {
        match parse_unsigned(parts[1], 16, 0xffff) {
            None => None,
            Some(port) => match parse_unsigned(parts[0], 16, 0xffff_ffff) {
                None => None,
                Some(ip) => Some((dotted_quad(ip), port)),
            },
        }
    }
}

/// Reads an `ADDR:PORT` word of `/proc/net/tcp` (hexadecimal, address bytes little-endian).
pub fn parse_proc_hex_addr(hex_str: &str) -> (r: Option<(String, u16)>)
    ensures
        match r {
            Some((ip, port)) => proc_hex_addr(hex_str@) == Some((ip@, port as nat)),
            None => proc_hex_addr(hex_str@) is None,
        },
{
    let v = chars_of(hex_str);
    let parts = split_chars(v.as_slice(), ':');
    if parts.len() != 2 {
        return None;
    }
    assert(views(parts@)[0] == parts@[0]@);
    assert(views(parts@)[1] == parts@[1]@);
    let port = match parse_unsigned_chars(parts[1].as_slice(), 16, 0xffff) {
        Some(p) => p as u16,
        None => return None,
    };
    let ip_num = match parse_unsigned_chars(parts[0].as_slice(), 16, 0xffff_ffff) {
        Some(n) => n,
        None => return None,
    };
    let b1 = fmt_u32(ip_num % 256);
    let b2 = fmt_u32((ip_num / 256) % 256);
    let b3 = fmt_u32((ip_num / 65536) % 256);
    let b4 = fmt_u32((ip_num / 16777216) % 256);
    let s = String::from_str(b1.as_str()).concat(".").concat(b2.as_str()).concat(".").concat(b3.as_str()).concat(".").concat(b4.as_str());
    Some((s, port))
}

/// A line of `/proc/net/tcp` or `/proc/net/udp` read as (address, port): a
/// line of at least four words whose second word is an address; for TCP only
/// listening sockets (state `0A`).
pub open spec fn proc_net_entry(line: Seq<char>, proto: Seq<char>) -> Option<(Seq<char>, nat)> {
    let parts = words(line);
    if parts.len() < 4 || (proto == "tcp"@ && parts[3] != "0A"@) {
        None
    } else {
        proc_hex_addr(parts[1])
    }
}

/// The sockets read from the first `n` lines (after the header).
pub open spec fn proc_net_sockets(ls: Seq<Seq<char>>, proto: Seq<char>, n: int) -> Seq<(Seq<char>, nat)>
    decreases n,
{
    if n <= 0 {
        Seq::empty()
    } else {
        match proc_net_entry(ls[n - 1], proto) {
            Some(e) => proc_net_sockets(ls, proto, n - 1).push(e),
            None => proc_net_sockets(ls, proto, n - 1),
        }
    }
}

/// A socket of the kernel tables: unknown process, exposure by address.
pub open spec fn kernel_port_describes(p: ListeningPort, proto: Seq<char>, e: (Seq<char>, nat)) -> bool {
    &&& p.protocol@ == proto
    &&& p.local_ip@ == e.0
    &&& p.port as nat == e.1
    &&& p.process_name@ == "kernel"@
    &&& p.pid is None
    &&& p.is_local_only == loopback_address(e.0)
    &&& p.is_public == !loopback_address(e.0)
    &&& p.service_hint@ == service_hint(p.port, proto)
}

/// The lines of a table after its header line.
pub open spec fn after_header(ls: Seq<Seq<char>>) -> Seq<Seq<char>> {
    if ls.len() > 0 {
        ls.subrange(1, ls.len() as int)
    } else {
        ls
    }
}

/// The listening sockets of `/proc/net/tcp` or `/proc/net/udp` (`proto` is
/// `tcp` or `udp`), in order.
pub fn parse_proc_net(content: &str, proto: &str) -> (r: Vec<ListeningPort>)
    ensures
        r@.len() == proc_net_sockets(after_header(lines(content@)), proto@, after_header(lines(content@)).len() as int).len(),
        forall|i: int|
            0 <= i < r@.len() ==> kernel_port_describes(
                #[trigger] r@[i],
                proto@,
                proc_net_sockets(after_header(lines(content@)), proto@, after_header(lines(content@)).len() as int)[i],
            ),
{
    let tv = chars_of(content);
    let ls = split_lines(tv.as_slice());
    let ghost body = after_header(lines(content@));
    let tcp = str_eq(proto, "tcp");
    let mut ports: Vec<ListeningPort> = Vec::new();
    if ls.len() == 0 {
        return ports;
    }
    let mut i: usize = 1;
    while i < ls.len()
        invariant
            views(ls@) == lines(content@),
            ls@.len() > 0,
            body == lines(content@).subrange(1, ls@.len() as int),
            tcp == (proto@ == "tcp"@),
            1 <= i <= ls@.len(),
            ports@.len() == proc_net_sockets(body, proto@, i - 1).len(),
            forall|k: int|
                0 <= k < ports@.len() ==> kernel_port_describes(
                    #[trigger] ports@[k],
                    proto@,
                    proc_net_sockets(body, proto@, i - 1)[k],
                ),
        decreases ls.len() - i,
    {
        proof {
            assert(views(ls@)[i as int] == ls@[i as int]@);
            assert(body[i - 1] == ls@[i as int]@);
        }
        let parts = split_words(ls[i].as_slice());
        proof {
            assert(views(parts@).len() == parts@.len());
        }
        if parts.len() >= 4 {
            proof {
                assert(views(parts@)[1] == parts@[1]@);
                assert(views(parts@)[3] == parts@[3]@);
            }
            let state = string_of(parts[3].as_slice());
            if !(tcp && !str_eq(state.as_str(), "0A")) {
                let addr = string_of(parts[1].as_slice());
                match parse_proc_hex_addr(addr.as_str()) {
                    Some((ip, port)) => {
                        let local = is_loopback(ip.as_str());
                        let hint = ListeningPort::get_service_hint(port, proto);
                        ports.push(
                            ListeningPort {
                                protocol: owned(proto),
                                local_ip: ip,
                                port,
                                process_name: owned("kernel"),
                                pid: None,
                                is_local_only: local,
                                is_public: !local,
                                service_hint: hint,
                            },
                        );
                    },
                    None => {},
                }
            }
        }
        i = i + 1;
    }
    ports
}

/// The order in which the inspector lists sockets: exposed ones first, then by port.
pub open spec fn exposure_key(p: ListeningPort) -> int {
    (if p.is_public {
        0int
    } else {
        65536int
    }) + p.port as int
}

/// The position of the first of the first `n` sockets ordered after `key`.
pub open spec fn first_after(s: Seq<ListeningPort>, key: int, n: int) -> int
    decreases n,
{
    if n <= 0 {
        0
    } else if first_after(s, key, n - 1) < n - 1 {
        first_after(s, key, n - 1)
    } else if exposure_key(s[n - 1]) > key {
        n - 1
    } else {
        n
    }
}

/// `s` with `x` placed after every socket that does not order after it.
pub open spec fn insert_by_exposure(s: Seq<ListeningPort>, x: ListeningPort) -> Seq<ListeningPort> {
    s.insert(first_after(s, exposure_key(x), s.len() as int), x)
}

/// The sockets stably ordered by exposure: exposed first, then by port,
/// sockets that tie keeping their order.
pub open spec fn sorted_by_exposure(s: Seq<ListeningPort>) -> Seq<ListeningPort>
    decreases s.len(),
{
    if s.len() == 0 {
        s
    } else {
        insert_by_exposure(sorted_by_exposure(s.drop_last()), s.last())
    }
}

proof fn lemma_first_after(s: Seq<ListeningPort>, key: int, n: int)
    requires
        0 <= n <= s.len(),
    ensures
        0 <= first_after(s, key, n) <= n,
        forall|j: int| 0 <= j < first_after(s, key, n) ==> exposure_key(#[trigger] s[j]) <= key,
        first_after(s, key, n) < n ==> exposure_key(s[first_after(s, key, n)]) > key,
    decreases n,
{
    if n > 0 {
        lemma_first_after(s, key, n - 1);
    }
}

fn position_after(s: &Vec<ListeningPort>, key: u32) -> (r: usize)
    ensures
        r as int == first_after(s@, key as int, s@.len() as int),
{
    let mut i: usize = 0;
    while i < s.len()
        invariant
            i <= s@.len(),
            first_after(s@, key as int, i as int) == i as int,
        decreases s.len() - i,
    {
        let k: u32 = if s[i].is_public {
            0
        } else {
            65536
        } + s[i].port as u32;
        if k > key {
            proof {
                lemma_first_after_stable(s@, key as int, i + 1, s@.len() as int);
            }
            return i;
        }
        i = i + 1;
    }
    i
}

proof fn lemma_first_after_stable(s: Seq<ListeningPort>, key: int, n: int, m: int)
    requires
        0 <= n <= m,
        first_after(s, key, n) < n,
    ensures
        first_after(s, key, m) == first_after(s, key, n),
    decreases m - n,
{
    if n < m {
        lemma_first_after_stable(s, key, n, m - 1);
    }
}

/// The sockets as the inspector lists them: exposed ones first, then by
/// port, ties in their given order.
pub fn sort_by_exposure(ports: Vec<ListeningPort>) -> (r: Vec<ListeningPort>)
    ensures
        r@ == sorted_by_exposure(ports@),
{
    let ghost all = ports@;
    let mut rest = ports;
    let mut out: Vec<ListeningPort> = Vec::new();
    while rest.len() > 0
        invariant
            rest@.len() <= all.len(),
            rest@ == all.subrange(all.len() - rest@.len(), all.len() as int),
            out@ == sorted_by_exposure(all.subrange(0, all.len() - rest@.len())),
        decreases rest.len(),
    {
        let ghost k = all.len() - rest@.len();
        let x = rest.remove(0);
        let key: u32 = if x.is_public {
            0
        } else {
            65536
        } + x.port as u32;
        let pos = position_after(&out, key);
        proof {
            lemma_first_after(out@, key as int, out@.len() as int);
            let pre = all.subrange(0, k + 1);
            assert(pre.drop_last() =~= all.subrange(0, k));
            assert(pre.last() == x);
            assert(rest@ =~= all.subrange(all.len() - rest@.len(), all.len() as int));
        }
        out.insert(pos, x);
    }
    assert(all.subrange(0, all.len() as int) =~= all);
    out
}

/// The inspector's listing order holds every socket given, once each, and
/// lists them exposed first, then by port.
pub proof fn lemma_sorted_by_exposure(s: Seq<ListeningPort>)
    ensures
        sorted_by_exposure(s).len() == s.len(),
        sorted_by_exposure(s).to_multiset() == s.to_multiset(),
        forall|i: int, j: int|
            0 <= i < j < s.len() ==> exposure_key(#[trigger] sorted_by_exposure(s)[i]) <= exposure_key(
                #[trigger] sorted_by_exposure(s)[j],
            ),
    decreases s.len(),
{
    if s.len() > 0 {
        let t = sorted_by_exposure(s.drop_last());
        lemma_sorted_by_exposure(s.drop_last());
        let x = s.last();
        let kx = exposure_key(x);
        let p = first_after(t, kx, t.len() as int);
        lemma_first_after(t, kx, t.len() as int);
        let r = t.insert(p, x);
        assert(r == sorted_by_exposure(s));
        vstd::seq_lib::to_multiset_insert(t, p, x);
        vstd::seq_lib::to_multiset_build(s.drop_last(), x);
        assert(s.drop_last().push(x) =~= s);
        assert forall|i: int, j: int| 0 <= i < j < r.len() implies exposure_key(#[trigger] r[i]) <= exposure_key(
            #[trigger] r[j],
        ) by {
            if j < p {
                assert(r[i] == t[i] && r[j] == t[j]);
            } else if j == p {
                assert(r[i] == t[i]);
            } else if i < p {
                assert(r[i] == t[i] && r[j] == t[j - 1]);
                assert(exposure_key(t[i]) <= kx);
                assert(exposure_key(t[p]) > kx);
                if j - 1 > p {
                    assert(exposure_key(t[p]) <= exposure_key(t[j - 1]));
                }
            } else if i == p {
                assert(r[j] == t[j - 1]);
                assert(exposure_key(t[p]) > kx);
                if j - 1 > p {
                    assert(exposure_key(t[p]) <= exposure_key(t[j - 1]));
                }
            } else {
                assert(r[i] == t[i - 1] && r[j] == t[j - 1]);
            }
        }
    }
}

} // verus!
