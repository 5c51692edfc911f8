//! Honeypot trap ports: connection attempts are recorded as incidents.
use vstd::prelude::*;
use crate::text::{owned, str_eq, fmt_u32, join2, join3, decimal};

verus! {

/// The most incidents kept.
pub open spec fn max_incidents() -> int {
    100
}

/// A recorded intrusion attempt.
#[derive(Debug, Clone)]
pub struct HoneypotIncident {
    pub timestamp: u64,
    pub source_ip: String,
    pub trap_port: u16,
    pub blocked: bool,
    pub description: String,
}

/// The honeypot configuration.
#[derive(Debug, Clone)]
pub struct HoneypotConfig {
    pub enabled: bool,
    pub trap_ports: Vec<u16>,
    pub auto_block_offender: bool,
    pub notify_on_intrusion: bool,
}

/// Trapping is off unless configured.
pub fn default_false() -> (r: bool)
    ensures
        !r,
{
    false
}

/// Blocking and notifying are on unless configured otherwise.
pub fn default_true() -> (r: bool)
    ensures
        r,
{
    true
}

/// The decoy ports: 2222, 8080 and 4450.
pub fn default_trap_ports() -> (r: Vec<u16>)
    ensures
        r@ == seq![2222u16, 8080, 4450],
{
    let r = vec![2222u16, 8080, 4450];
    assert(r@ =~= seq![2222u16, 8080, 4450]);
    r
}

impl Default for HoneypotConfig {
    fn default() -> (r: Self)
        ensures
            !r.enabled,
            r.trap_ports@ == seq![2222u16, 8080, 4450],
            r.auto_block_offender,
            r.notify_on_intrusion,
    {
        HoneypotConfig {
            enabled: false,
            trap_ports: default_trap_ports(),
            auto_block_offender: true,
            notify_on_intrusion: true,
        }
    }
}

/// The incident log after recording `incident`: it is appended, and only the
/// most recent 100 are kept, oldest first.
pub open spec fn log_after(log: Seq<HoneypotIncident>, incident: HoneypotIncident) -> Seq<HoneypotIncident> {
    let all = log.push(incident);
    if all.len() > max_incidents() {
        all.subrange(all.len() - max_incidents(), all.len() as int)
    } else {
        all
    }
}

/// Appends an incident to the log and drops the oldest beyond the most recent 100.
pub fn push_incident(incidents: Vec<HoneypotIncident>, incident: HoneypotIncident) -> (r: Vec<HoneypotIncident>)
    ensures
        r@ == log_after(incidents@, incident),
        r@.len() <= 100,
        r@.last() == incident,
{
    let mut incidents = incidents;
    let ghost all = incidents@.push(incident);
    incidents.push(incident);
    if incidents.len() > 100 {
        let excess = incidents.len() - 100;
        let kept = incidents.split_off(excess);
        assert(kept@ =~= all.subrange(all.len() - 100, all.len() as int));
        kept
    } else {
        incidents
    }
}

/// Connections from the local machine are not intrusions.
pub fn is_loopback_peer(ip: &str) -> (r: bool)
    ensures
        r == (ip@ == "127.0.0.1"@ || ip@ == "::1"@),
{
    str_eq(ip, "127.0.0.1") || str_eq(ip, "::1")
}

/// The incident recorded for a connection to a trap port.
pub fn trap_incident(timestamp: u64, source_ip: String, trap_port: u16, blocked: bool) -> (r: HoneypotIncident)
    ensures
        r.timestamp == timestamp,
        r.source_ip@ == source_ip@,
        r.trap_port == trap_port,
        r.blocked == blocked,
        r.description@ == "Connection attempt to decoy honeypot trap port "@ + decimal(trap_port as nat),
{
    let p = fmt_u32(trap_port as u32);
    HoneypotIncident {
        timestamp,
        source_ip,
        trap_port,
        blocked,
        description: join2("Connection attempt to decoy honeypot trap port ", p.as_str()),
    }
}

/// The desktop notification of an intrusion on a trap port.
pub fn intrusion_notice(peer_ip: &str, port: u16, blocked: bool) -> (r: String)
    ensures
        r@ == "⚠️ Port scan intrusion detected from IP "@ + peer_ip@ + "\nTargeting trap port "@ + decimal(
            port as nat,
        ) + "\nAction: "@ + if blocked {
            "Firewall Blocked"@
        } else {
            "Logged"@
        },
{
    let p = fmt_u32(port as u32);
    let action: &str = if blocked {
        "Firewall Blocked"
    } else {
        "Logged"
    };
    let head = join3("⚠️ Port scan intrusion detected from IP ", peer_ip, "\nTargeting trap port ");
    let tail = join3(p.as_str(), "\nAction: ", action);
    join2(head.as_str(), tail.as_str())
}

/// The address a trap listens on: every interface, on `port`.
pub fn trap_bind_address(port: u16) -> (r: String)
    ensures
        r@ == "0.0.0.0:"@ + decimal(port as nat),
{
    let p = fmt_u32(port as u32);
    join2("0.0.0.0:", p.as_str())
}

} // verus!
