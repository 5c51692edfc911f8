//! Reading the network context from NetworkManager's and the kernel's
//! reports: active connections, virtual tunnel interfaces, the Wi-Fi access
//! point and the gateway's hardware address.
use vstd::prelude::*;
use crate::autoflow::ActiveNetworkInfo;
use crate::config::validator::{byte_len, byte_len_exceeds};
use crate::text::{
    owned, str_eq, chars_of, string_of, to_lower, lowercased, trim_str, trimmed, is_prefix, has_substring,
    str_starts_with, str_contains, split_chars, split_on, split_lines, lines, split_words, words, views,
    string_views, opt_view, contains_char,
};
use vstd::string::StrSliceExecFns;

verus! {

/// What the connection scan found so far: the kind of the primary
/// connection, the Wi-Fi name, the VPN, the tunnels and the active devices.
#[derive(Debug)]
pub struct NetScan {
    pub primary_type: String,
    pub current_ssid: Option<String>,
    pub active_vpn: Option<String>,
    pub vpn_tunnels: Vec<String>,
    pub active_devices: Vec<String>,
}

/// The view of a scan.
pub type ScanView = (Seq<char>, Option<Seq<char>>, Option<Seq<char>>, Seq<Seq<char>>, Seq<Seq<char>>);

/// The view of a scan: kind, Wi-Fi name, VPN, tunnels, devices.
pub open spec fn scan_view(n: NetScan) -> ScanView {
    (n.primary_type@, opt_view(n.current_ssid), opt_view(n.active_vpn), string_views(n.vpn_tunnels@), string_views(
        n.active_devices@,
    ))
}

/// Nothing found: no connection.
pub open spec fn empty_scan() -> ScanView {
    ("none"@, None, None, Seq::empty(), Seq::empty())
}

/// A VPN: its type names a VPN or WireGuard, or its device is a tunnel.
pub open spec fn is_vpn_connection(ty: Seq<char>, dev: Seq<char>) -> bool {
    has_substring(ty, "vpn"@) || has_substring(ty, "wireguard"@) || is_prefix("tun"@, dev) || is_prefix("wg"@, dev)
        || is_prefix("tailscale"@, dev)
}

/// A Wi-Fi connection.
pub open spec fn is_wifi_connection(ty: Seq<char>) -> bool {
    has_substring(ty, "wireless"@) || has_substring(ty, "wifi"@) || has_substring(ty, "802-11"@)
}

/// A wired connection: its type names Ethernet, or its device is a wired one.
pub open spec fn is_ethernet_connection(ty: Seq<char>, dev: Seq<char>) -> bool {
    has_substring(ty, "ethernet"@) || is_prefix("en"@, dev) || is_prefix("eth"@, dev)
}

/// One line of `nmcli -t -f TYPE,NAME,DEVICE con show --active`. Lines with
/// fewer than three fields and loopback connections are skipped; every
/// other device is active. A VPN becomes the VPN (its name and, when it has
/// another device, the device are tunnels) and makes the primary kind `vpn`
/// unless Wi-Fi is up; Wi-Fi gives the network name and makes the kind
/// `wifi`; a wired connection makes it `ethernet` when none was found yet.
pub open spec fn nm_step(st: ScanView, line: Seq<char>) -> ScanView {
    let parts = split_on(line, ':');
    if parts.len() < 3 {
        st
    } else {
        let ty = lowercased(parts[0]);
        let name = parts[1];
        let dev = parts[2];
        if ty == "loopback"@ {
            st
        } else {
            let devices = st.4.push(dev);
            if is_vpn_connection(ty, dev) {
                let tunnels = if dev.len() > 0 && dev != name {
                    st.3.push(name).push(dev)
                } else {
                    st.3.push(name)
                };
                let primary = if st.0 != "wifi"@ {
                    "vpn"@
                } else {
                    st.0
                };
                (primary, st.1, Some(name), tunnels, devices)
            } else if is_wifi_connection(ty) {
                ("wifi"@, Some(name), st.2, st.3, devices)
            } else if is_ethernet_connection(ty, dev) {
                (
                    if st.0 == "none"@ {
                        "ethernet"@
                    } else {
                        st.0
                    },
                    st.1,
                    st.2,
                    st.3,
                    devices,
                )
            } else {
                (st.0, st.1, st.2, st.3, devices)
            }
        }
    }
}

/// The scan of the first `n` lines.
pub open spec fn nm_scan(ls: Seq<Seq<char>>, n: int) -> ScanView
    decreases n,
{
    if n <= 0 {
        empty_scan()
    } else {
        nm_step(nm_scan(ls, n - 1), ls[n - 1])
    }
}

fn push_copy(v: &mut Vec<String>, s: &str)
    ensures
        string_views(final(v)@) == string_views(old(v)@).push(s@),
{
    let ghost before = v@;
    v.push(owned(s));
    assert(string_views(v@) =~= string_views(before).push(s@));
}

impl NetScan {
    /// A scan that found nothing.
    pub fn new() -> (r: Self)
        ensures
            scan_view(r) == empty_scan(),
    {
        let r = NetScan {
            primary_type: owned("none"),
            current_ssid: None,
            active_vpn: None,
            vpn_tunnels: Vec::new(),
            active_devices: Vec::new(),
        };
        assert(string_views(r.vpn_tunnels@) =~= Seq::<Seq<char>>::empty());
        assert(string_views(r.active_devices@) =~= Seq::<Seq<char>>::empty());
        r
    }

    /// Takes one line of the connection list into account (see `nm_step`).
    pub fn add_connection_line(&mut self, line: &[char])
        ensures
            scan_view(*final(self)) == nm_step(scan_view(*old(self)), line@),
    {
        let parts = split_chars(line, ':');
        proof {
            assert(views(parts@).len() == parts@.len());
        }
        if parts.len() < 3 {
            return;
        }
        proof {
            assert(views(parts@)[0] == parts@[0]@);
            assert(views(parts@)[1] == parts@[1]@);
            assert(views(parts@)[2] == parts@[2]@);
        }
        let ty_text = string_of(parts[0].as_slice());
        let ty = to_lower(ty_text.as_str());
        let name = string_of(parts[1].as_slice());
        let dev = string_of(parts[2].as_slice());
        if str_eq(ty.as_str(), "loopback") {
            return;
        }
        let t = ty.as_str();
        let d = dev.as_str();
        let n = name.as_str();
        push_copy(&mut self.active_devices, d);
        let vpn = str_contains(t, "vpn") || str_contains(t, "wireguard") || str_starts_with(d, "tun")
            || str_starts_with(d, "wg") || str_starts_with(d, "tailscale");
        if vpn {
            self.active_vpn = Some(owned(n));
            push_copy(&mut self.vpn_tunnels, n);
            if d.unicode_len() > 0 && !str_eq(d, n) {
                push_copy(&mut self.vpn_tunnels, d);
            }
            if !str_eq(self.primary_type.as_str(), "wifi") {
                self.primary_type = owned("vpn");
            }
        } else if str_contains(t, "wireless") || str_contains(t, "wifi") || str_contains(t, "802-11") {
            self.current_ssid = Some(owned(n));
            self.primary_type = owned("wifi");
        } else if str_contains(t, "ethernet") || str_starts_with(d, "en") || str_starts_with(d, "eth") {
            if str_eq(self.primary_type.as_str(), "none") {
                self.primary_type = owned("ethernet");
            }
        }
    }
}

/// The scan of `nmcli -t -f TYPE,NAME,DEVICE con show --active` output.
pub fn scan_nmcli_connections(output: &str) -> (r: NetScan)
    ensures
        scan_view(r) == nm_scan(lines(output@), lines(output@).len() as int),
{
    let chars = chars_of(output);
    let ls = split_lines(chars.as_slice());
    let mut scan = NetScan::new();
    let mut i: usize = 0;
    while i < ls.len()
        invariant
            views(ls@) == lines(output@),
            i <= ls@.len(),
            scan_view(scan) == nm_scan(lines(output@), i as int),
        decreases ls.len() - i,
    {
        proof {
            assert(views(ls@)[i as int] == ls@[i as int]@);
        }
        scan.add_connection_line(ls[i].as_slice());
        i = i + 1;
    }
    scan
}

/// A virtual tunnel interface (Tailscale, WireGuard, ZeroTier, WARP).
pub open spec fn is_virtual_tunnel(name: Seq<char>) -> bool {
    is_prefix("tailscale"@, name) || is_prefix("wg"@, name) || is_prefix("zt"@, name) || is_prefix("warp"@, name)
}

/// A kernel interface with its link state: a virtual tunnel that is up (or
/// in an unknown state) is an active device and a tunnel (each once), and
/// becomes the VPN when none was found, making the kind `vpn` unless Wi-Fi
/// is up.
pub open spec fn interface_step(st: ScanView, name: Seq<char>, operstate: Seq<char>) -> ScanView {
    let state = trimmed(operstate);
    if is_virtual_tunnel(name) && (state == "up"@ || state == "unknown"@) {
        let devices = if st.4.contains(name) {
            st.4
        } else {
            st.4.push(name)
        };
        let tunnels = if st.3.contains(name) {
            st.3
        } else {
            st.3.push(name)
        };
        if st.2 is None {
            (
                if st.0 != "wifi"@ {
                    "vpn"@
                } else {
                    st.0
                },
                st.1,
                Some(name),
                tunnels,
                devices,
            )
        } else {
            (st.0, st.1, st.2, tunnels, devices)
        }
    } else {
        st
    }
}

fn contains_text(v: &Vec<String>, s: &str) -> (r: bool)
    ensures
        r == string_views(v@).contains(s@),
{
    let mut i: usize = 0;
    while i < v.len()
        invariant
            i <= v@.len(),
            forall|j: int| 0 <= j < i ==> #[trigger] v@[j]@ != s@,
        decreases v.len() - i,
    {
        if str_eq(v[i].as_str(), s) {
            assert(string_views(v@)[i as int] == s@);
            return true;
        }
        i = i + 1;
    }
    proof {
        if string_views(v@).contains(s@) {
            let k = choose|k: int| 0 <= k < string_views(v@).len() && string_views(v@)[k] == s@;
            assert(v@[k]@ == s@);
        }
    }
    false
}

impl NetScan {
    /// Takes a kernel interface and its link state into account (see `interface_step`).
    pub fn add_interface(&mut self, name: &str, operstate: &str)
        ensures
            scan_view(*final(self)) == interface_step(scan_view(*old(self)), name@, operstate@),
    {
        let state = trim_str(operstate);
        let virt = str_starts_with(name, "tailscale") || str_starts_with(name, "wg") || str_starts_with(name, "zt")
            || str_starts_with(name, "warp");
        if !(virt && (str_eq(state, "up") || str_eq(state, "unknown"))) {
            return;
        }
        if !contains_text(&self.active_devices, name) {
            push_copy(&mut self.active_devices, name);
        }
        if !contains_text(&self.vpn_tunnels, name) {
            push_copy(&mut self.vpn_tunnels, name);
        }
        if self.active_vpn.is_none() {
            self.active_vpn = Some(owned(name));
            if !str_eq(self.primary_type.as_str(), "wifi") {
                self.primary_type = owned("vpn");
            }
        }
    }

    /// The network context: this scan with the access point and gateway found.
    pub fn finish(self, bssid: Option<String>, gateway_mac: Option<String>) -> (r: ActiveNetworkInfo)
        ensures
            r.primary_type@ == self.primary_type@,
            opt_view(r.current_ssid) == opt_view(self.current_ssid),
            opt_view(r.current_bssid) == opt_view(bssid),
            opt_view(r.current_gateway_mac) == opt_view(gateway_mac),
            opt_view(r.active_vpn) == opt_view(self.active_vpn),
            string_views(r.vpn_tunnels@) == string_views(self.vpn_tunnels@),
            string_views(r.active_devices@) == string_views(self.active_devices@),
    {
        ActiveNetworkInfo {
            primary_type: self.primary_type,
            current_ssid: self.current_ssid,
            current_bssid: bssid,
            current_gateway_mac: gateway_mac,
            active_vpn: self.active_vpn,
            vpn_tunnels: self.vpn_tunnels,
            active_devices: self.active_devices,
        }
    }
}

/// The first result of `f` over the first `n` lines, in order.
pub open spec fn first_hit(ls: Seq<Seq<char>>, f: spec_fn(Seq<char>) -> Option<Seq<char>>, n: int) -> Option<Seq<char>>
    decreases n,
{
    if n <= 0 {
        None
    } else {
        match first_hit(ls, f, n - 1) {
            Some(x) => Some(x),
            None => f(ls[n - 1]),
        }
    }
}

/// The position of the first word equal to `w` among the first `n`.
pub open spec fn first_word(ws: Seq<Seq<char>>, w: Seq<char>, n: int) -> Option<int>
    decreases n,
{
    if n <= 0 {
        None
    } else {
        match first_word(ws, w, n - 1) {
            Some(i) => Some(i),
            None => if ws[n - 1] == w {
                Some(n - 1)
            } else {
                None
            },
        }
    }
}

/// The word after the first word equal to `w`, if both exist.
pub open spec fn word_after(ws: Seq<Seq<char>>, w: Seq<char>) -> Option<Seq<char>> {
    match first_word(ws, w, ws.len() as int) {
        Some(i) => if i + 1 < ws.len() {
            Some(ws[i + 1])
        } else {
            None
        },
        None => None,
    }
}

proof fn lemma_first_word_bounds(ws: Seq<Seq<char>>, w: Seq<char>, n: int)
    ensures
        first_word(ws, w, n) matches Some(i) ==> 0 <= i < n && ws[i] == w,
    decreases n,
{
    if n > 0 {
        lemma_first_word_bounds(ws, w, n - 1);
    }
}

proof fn lemma_first_word_stable(ws: Seq<Seq<char>>, w: Seq<char>, n: int, m: int)
    requires
        0 <= n <= m,
        first_word(ws, w, n) is Some,
    ensures
        first_word(ws, w, m) == first_word(ws, w, n),
    decreases m - n,
{
    if n < m {
        lemma_first_word_stable(ws, w, n, m - 1);
    }
}

/// The word after the first word equal to `w`.
fn word_after_exec(ws: &Vec<Vec<char>>, w: &str) -> (r: Option<Vec<char>>)
    ensures
        match r {
            Some(x) => word_after(views(ws@), w@) == Some(x@),
            None => word_after(views(ws@), w@) is None,
        },
{
    let wv = chars_of(w);
    let ghost vs = views(ws@);
    let mut i: usize = 0;
    while i < ws.len()
        invariant
            vs == views(ws@),
            wv@ == w@,
            i <= ws@.len(),
            first_word(vs, w@, i as int) is None,
        decreases ws.len() - i,
    {
        if crate::text::chars_eq(ws[i].as_slice(), wv.as_slice()) {
            proof {
                assert(vs[i as int] == w@);
                assert(first_word(vs, w@, i + 1) == Some(i as int));
                lemma_first_word_stable(vs, w@, i + 1, vs.len() as int);
            }
            if i + 1 < ws.len() {
                assert(vs[i + 1] == ws@[i + 1]@);
                return Some(ws[i + 1].clone());
            } else {
                return None;
            }
        }
        i = i + 1;
    }
    None
}

/// What remains of `s` without the character `c`.
pub open spec fn without_char(s: Seq<char>, c: char) -> Seq<char> {
    s.filter(|x: char| x != c)
}

fn remove_char(s: &[char], c: char) -> (r: Vec<char>)
    ensures
        r@ == without_char(s@, c),
{
    let mut out: Vec<char> = Vec::new();
    let mut i: usize = 0;
    while i < s.len()
        invariant
            i <= s@.len(),
            out@ == without_char(s@.subrange(0, i as int), c),
        decreases s.len() - i,
    {
        proof {
            let t = s@.subrange(0, i + 1);
            assert(t.drop_last() =~= s@.subrange(0, i as int));
            reveal(Seq::filter);
        }
        if s[i] != c {
            out.push(s[i]);
        }
        i = i + 1;
    }
    assert(s@.subrange(0, s@.len() as int) =~= s@);
    out
}

/// The access point a line of `nmcli -t -f active,bssid dev wifi` names:
/// on the active line (starting `yes:` or `*:`, once trimmed), what follows
/// the first colon, without backslashes and trimmed, when it holds a colon
/// and is at least 11 bytes long.
pub open spec fn bssid_of_line(line: Seq<char>) -> Option<Seq<char>> {
    let t = trimmed(line);
    if is_prefix("yes:"@, t) || is_prefix("*:"@, t) {
        let rest = if is_prefix("yes:"@, t) {
            t.subrange(4, t.len() as int)
        } else {
            t.subrange(2, t.len() as int)
        };
        let clean = trimmed(without_char(rest, '\\'));
        if clean.contains(':') && byte_len(clean) >= 11 {
            Some(clean)
        } else {
            None
        }
    } else {
        None
    }
}

/// `bssid_of_line` as a function value.
pub open spec fn bssid_parser() -> spec_fn(Seq<char>) -> Option<Seq<char>> {
    |l: Seq<char>| bssid_of_line(l)
}

fn bssid_of_line_exec(line: &[char]) -> (r: Option<String>)
    ensures
        opt_view(r) == bssid_of_line(line@),
{
    let text = string_of(line);
    let t = chars_of(trim_str(text.as_str()));
    let yes = crate::text::starts_with(t.as_slice(), chars_of("yes:").as_slice());
    let star = crate::text::starts_with(t.as_slice(), chars_of("*:").as_slice());
    if !(yes || star) {
        return None;
    }
    proof {
        reveal_strlit("yes:");
        reveal_strlit("*:");
    }
    let from: usize = if yes {
        4
    } else {
        2
    };
    let rest = crate::text::slice_chars(t.as_slice(), from, t.len());
    let kept = remove_char(rest.as_slice(), '\\');
    let kept_text = string_of(kept.as_slice());
    let clean = trim_str(kept_text.as_str());
    let clean_chars = chars_of(clean);
    if contains_char(clean_chars.as_slice(), ':') && byte_len_exceeds(clean, 10) {
        Some(owned(clean))
    } else {
        None
    }
}

/// The access point of the active Wi-Fi connection, from
/// `nmcli -t -f active,bssid dev wifi` output: that of the first line that names one.
pub fn parse_bssid(output: &str) -> (r: Option<String>)
    ensures
        opt_view(r) == first_hit(lines(output@), bssid_parser(), lines(output@).len() as int),
{
    let chars = chars_of(output);
    let ls = split_lines(chars.as_slice());
    let mut i: usize = 0;
    while i < ls.len()
        invariant
            views(ls@) == lines(output@),
            i <= ls@.len(),
            first_hit(lines(output@), bssid_parser(), i as int) is None,
        decreases ls.len() - i,
    {
        proof {
            assert(views(ls@)[i as int] == ls@[i as int]@);
        }
        let hit = bssid_of_line_exec(ls[i].as_slice());
        proof {

        }
        if hit.is_some() {
            proof {
                lemma_first_hit_stable(lines(output@), bssid_parser(), i + 1, lines(output@).len() as int);
            }
            return hit;
        }
        i = i + 1;
    }
    None
}

proof fn lemma_first_hit_stable(ls: Seq<Seq<char>>, f: spec_fn(Seq<char>) -> Option<Seq<char>>, n: int, m: int)
    requires
        0 <= n <= m,
        first_hit(ls, f, n) is Some,
    ensures
        first_hit(ls, f, m) == first_hit(ls, f, n),
    decreases m - n,
{
    if n < m {
        lemma_first_hit_stable(ls, f, n, m - 1);
    }
}

/// The default gateway's address from `ip route show default` output: the
/// word after the first `via`.
pub fn parse_gateway_ip(output: &str) -> (r: Option<String>)
    ensures
        opt_view(r) == word_after(words(output@), "via"@),
{
    let chars = chars_of(output);
    let ws = split_words(chars.as_slice());
    match word_after_exec(&ws, "via") {
        Some(x) => Some(string_of(x.as_slice())),
        None => None,
    }
}

/// A device name of a wireless or wired interface.
pub open spec fn is_lan_device(dev: Seq<char>) -> bool {
    is_prefix("wl"@, dev) || is_prefix("en"@, dev) || is_prefix("eth"@, dev)
}

/// The gateway's hardware address on a line of `/proc/net/arp`: a line of at
/// least four columns whose address (fourth) has a colon and is not all
/// zeros; with a known gateway address, the line of that address; else a
/// line of at least six columns whose device (sixth) is a LAN device.
pub open spec fn arp_line_mac(line: Seq<char>, gw: Option<Seq<char>>) -> Option<Seq<char>> {
    let cols = words(line);
    if cols.len() >= 4 && cols[3].contains(':') && cols[3] != "00:00:00:00:00:00"@ {
        match gw {
            Some(ip) => if cols[0] == ip {
                Some(cols[3])
            } else {
                None
            },
            None => if cols.len() >= 6 && is_lan_device(cols[5]) {
                Some(cols[3])
            } else {
                None
            },
        }
    } else {
        None
    }
}

/// The lines after the header line.
pub open spec fn body_lines(ls: Seq<Seq<char>>) -> Seq<Seq<char>> {
    if ls.len() > 0 {
        ls.subrange(1, ls.len() as int)
    } else {
        ls
    }
}

/// `arp_line_mac` for a known or unknown gateway, as a function value.
pub open spec fn arp_parser(gw: Option<Seq<char>>) -> spec_fn(Seq<char>) -> Option<Seq<char>> {
    |l: Seq<char>| arp_line_mac(l, gw)
}

/// The view of an optional text.
pub open spec fn opt_str_view(o: Option<&str>) -> Option<Seq<char>> {
    match o {
        Some(g) => Some(g@),
        None => None,
    }
}

fn arp_line_mac_exec(line: &[char], gw: Option<&str>) -> (r: Option<String>)
    ensures
        opt_view(r) == arp_line_mac(line@, opt_str_view(gw)),
{
    let cols = split_words(line);
    proof {
        assert(views(cols@).len() == cols@.len());
    }
    if cols.len() < 4 {
        return None;
    }
    proof {
        assert(views(cols@)[0] == cols@[0]@);
        assert(views(cols@)[3] == cols@[3]@);
    }
    let mac = string_of(cols[3].as_slice());
    if !(contains_char(cols[3].as_slice(), ':') && !str_eq(mac.as_str(), "00:00:00:00:00:00")) {
        return None;
    }
    match gw {
        Some(ip) => {
            let first = string_of(cols[0].as_slice());
            if str_eq(first.as_str(), ip) {
                Some(mac)
            } else {
                None
            }
        },
        None => {
            if cols.len() >= 6 {
                proof {
                    assert(views(cols@)[5] == cols@[5]@);
                }
                let dev = string_of(cols[5].as_slice());
                let d = dev.as_str();
                if str_starts_with(d, "wl") || str_starts_with(d, "en") || str_starts_with(d, "eth") {
                    return Some(mac);
                }
            }
            None
        },
    }
}

/// The gateway's hardware address from `/proc/net/arp` (after its header
/// line): that of the first line that names it (see `arp_line_mac`).
pub fn gateway_mac_from_arp(content: &str, gw: Option<&str>) -> (r: Option<String>)
    ensures
        opt_view(r) == first_hit(
            body_lines(lines(content@)),
            arp_parser(opt_str_view(gw)),
            body_lines(lines(content@)).len() as int,
        ),
{
    let chars = chars_of(content);
    let ls = split_lines(chars.as_slice());
    let ghost body = body_lines(lines(content@));
    if ls.len() == 0 {
        return None;
    }
    let mut i: usize = 1;
    while i < ls.len()
        invariant
            views(ls@) == lines(content@),
            ls@.len() > 0,
            body == lines(content@).subrange(1, ls@.len() as int),
            1 <= i <= ls@.len(),
            first_hit(body, arp_parser(opt_str_view(gw)), i - 1) is None,
        decreases ls.len() - i,
    {
        proof {
            assert(views(ls@)[i as int] == ls@[i as int]@);
            assert(body[i - 1] == ls@[i as int]@);
        }
        let hit = arp_line_mac_exec(ls[i].as_slice(), gw);
        if hit.is_some() {
            proof {
                lemma_first_hit_stable(body, arp_parser(opt_str_view(gw)), i as int, body.len() as int);
            }
            return hit;
        }
        i = i + 1;
    }
    None
}

/// The gateway's hardware address on a line of `ip neigh show`: a line that
/// mentions `router`, `REACHABLE` or `DELAY`, the word after `lladdr` when it
/// has a colon.
pub open spec fn neigh_line_mac(line: Seq<char>) -> Option<Seq<char>> {
    if has_substring(line, "router"@) || has_substring(line, "REACHABLE"@) || has_substring(line, "DELAY"@) {
        match word_after(words(line), "lladdr"@) {
            Some(mac) => if mac.contains(':') {
                Some(mac)
            } else {
                None
            },
            None => None,
        }
    } else {
        None
    }
}

/// `neigh_line_mac` as a function value.
pub open spec fn neigh_parser() -> spec_fn(Seq<char>) -> Option<Seq<char>> {
    |l: Seq<char>| neigh_line_mac(l)
}

fn neigh_line_mac_exec(line: &[char]) -> (r: Option<String>)
    ensures
        opt_view(r) == neigh_line_mac(line@),
{
    let text = string_of(line);
    let t = text.as_str();
    if !(str_contains(t, "router") || str_contains(t, "REACHABLE") || str_contains(t, "DELAY")) {
        return None;
    }
    let ws = split_words(line);
    match word_after_exec(&ws, "lladdr") {
        Some(mac) => if contains_char(mac.as_slice(), ':') {
            Some(string_of(mac.as_slice()))
        } else {
            None
        },
        None => None,
    }
}

/// The gateway's hardware address from `ip neigh show` output: that of the
/// first line that names one (see `neigh_line_mac`).
pub fn gateway_mac_from_neigh(output: &str) -> (r: Option<String>)
    ensures
        opt_view(r) == first_hit(lines(output@), neigh_parser(), lines(output@).len() as int),
{
    let chars = chars_of(output);
    let ls = split_lines(chars.as_slice());
    let mut i: usize = 0;
    while i < ls.len()
        invariant
            views(ls@) == lines(output@),
            i <= ls@.len(),
            first_hit(lines(output@), neigh_parser(), i as int) is None,
        decreases ls.len() - i,
    {
        proof {
            assert(views(ls@)[i as int] == ls@[i as int]@);
        }
        let hit = neigh_line_mac_exec(ls[i].as_slice());
        if hit.is_some() {
            proof {
                lemma_first_hit_stable(lines(output@), neigh_parser(), i + 1, lines(output@).len() as int);
            }
            return hit;
        }
        i = i + 1;
    }
    None
}

/// The gateway's hardware address on a line of `arp -an`: the word after
/// `at`, when it has a colon and is neither `(incomplete)` nor the broadcast address.
pub open spec fn arp_an_line_mac(line: Seq<char>) -> Option<Seq<char>> {
    match word_after(words(line), "at"@) {
        Some(mac) => if mac.contains(':') && mac != "(incomplete)"@ && mac != "ff:ff:ff:ff:ff:ff"@ {
            Some(mac)
        } else {
            None
        },
        None => None,
    }
}

/// `arp_an_line_mac` as a function value.
pub open spec fn arp_an_parser() -> spec_fn(Seq<char>) -> Option<Seq<char>> {
    |l: Seq<char>| arp_an_line_mac(l)
}

fn arp_an_line_mac_exec(line: &[char]) -> (r: Option<String>)
    ensures
        opt_view(r) == arp_an_line_mac(line@),
{
    let ws = split_words(line);
    match word_after_exec(&ws, "at") {
        Some(mac) => {
            let m = string_of(mac.as_slice());
            if contains_char(mac.as_slice(), ':') && !str_eq(m.as_str(), "(incomplete)") && !str_eq(
                m.as_str(),
                "ff:ff:ff:ff:ff:ff",
            ) {
                Some(m)
            } else {
                None
            }
        },
        None => None,
    }
}

/// The gateway's hardware address from `arp -an` output: that of the first
/// line that names one (see `arp_an_line_mac`).
pub fn gateway_mac_from_arp_an(output: &str) -> (r: Option<String>)
    ensures
        opt_view(r) == first_hit(lines(output@), arp_an_parser(), lines(output@).len() as int),
{
    let chars = chars_of(output);
    let ls = split_lines(chars.as_slice());
    let mut i: usize = 0;
    while i < ls.len()
        invariant
            views(ls@) == lines(output@),
            i <= ls@.len(),
            first_hit(lines(output@), arp_an_parser(), i as int) is None,
        decreases ls.len() - i,
    {
        proof {
            assert(views(ls@)[i as int] == ls@[i as int]@);
        }
        let hit = arp_an_line_mac_exec(ls[i].as_slice());
        if hit.is_some() {
            proof {
                lemma_first_hit_stable(lines(output@), arp_an_parser(), i + 1, lines(output@).len() as int);
            }
            return hit;
        }
        i = i + 1;
    }
    None
}

} // verus!
