//! The contents of a posture profile.
use vstd::prelude::*;
use crate::strmap::StringMap;
use crate::text::owned;

verus! {

/// Who a profile is and where it came from.
#[derive(Debug, Clone)]
pub struct ProfileMetadata {
    pub id: String,
    pub name: String,
    pub description: String,
    pub icon: String,
    pub version: String,
    pub author: String,
    pub is_builtin: bool,
}

/// The icon of a profile that names none.
pub fn default_icon() -> (r: String)
    ensures
        r@ == "preferences-system-symbolic"@,
{
    owned("preferences-system-symbolic")
}

/// The version of a profile that names none.
pub fn default_version() -> (r: String)
    ensures
        r@ == "1.0.0"@,
{
    owned("1.0.0")
}

/// Resource limits written to the limits configuration.
#[derive(Debug, Clone)]
pub struct SecurityLimitsConfig {
    pub core_dump: Option<String>,
    pub nofile_soft: Option<u64>,
    pub nofile_hard: Option<u64>,
}

impl Default for SecurityLimitsConfig {
    fn default() -> (r: Self)
        ensures
            r.core_dump is None,
            r.nofile_soft is None,
            r.nofile_hard is None,
    {
        SecurityLimitsConfig { core_dump: None, nofile_soft: None, nofile_hard: None }
    }
}

/// A port (`80`, `80/tcp`) or port range (`1714:1764/udp`) to open, with a comment.
#[derive(Debug, Clone)]
pub struct PortRule {
    pub port: String,
    pub comment: String,
}

/// Firewall policy of a profile.
#[derive(Debug, Clone)]
pub struct FirewallConfig {
    pub default_incoming: String,
    pub default_outgoing: String,
    pub allow_loopback: bool,
    pub allow_interfaces: Vec<String>,
    pub allow_ports: Vec<PortRule>,
}

/// The incoming policy of a firewall section that names none.
pub fn default_deny() -> (r: String)
    ensures
        r@ == "deny"@,
{
    owned("deny")
}

/// The outgoing policy of a firewall section that names none.
pub fn default_allow() -> (r: String)
    ensures
        r@ == "allow"@,
{
    owned("allow")
}

/// Loopback traffic is allowed unless a profile says otherwise.
pub fn default_true() -> (r: bool)
    ensures
        r,
{
    true
}

impl Default for FirewallConfig {
    fn default() -> (r: Self)
        ensures
            r.default_incoming@ == "deny"@,
            r.default_outgoing@ == "allow"@,
            r.allow_loopback,
            r.allow_interfaces@.len() == 0,
            r.allow_ports@.len() == 0,
    {
        FirewallConfig {
            default_incoming: default_deny(),
            default_outgoing: default_allow(),
            allow_loopback: true,
            allow_interfaces: Vec::new(),
            allow_ports: Vec::new(),
        }
    }
}

/// Framework laptop power settings.
#[derive(Debug, Clone)]
pub struct FrameworkPowerConfig {
    pub battery_charge_limit: Option<u32>,
    pub power_profile: Option<String>,
    pub cpu_epp: Option<String>,
}

impl Default for FrameworkPowerConfig {
    fn default() -> (r: Self)
        ensures
            r.battery_charge_limit is None,
            r.power_profile is None,
            r.cpu_epp is None,
    {
        FrameworkPowerConfig { battery_charge_limit: None, power_profile: None, cpu_epp: None }
    }
}

/// Peripheral policy.
#[derive(Debug, Clone, Copy, PartialEq, Eq)]
pub struct PeripheralsConfig {
    pub block_new_usb: Option<bool>,
    pub bluetooth: Option<bool>,
}

impl Default for PeripheralsConfig {
    fn default() -> (r: Self)
        ensures
            r.block_new_usb is None,
            r.bluetooth is None,
    {
        PeripheralsConfig { block_new_usb: None, bluetooth: None }
    }
}

/// Desktop session settings.
#[derive(Debug, Clone, Copy, PartialEq, Eq)]
pub struct DesktopConfig {
    pub idle_delay_seconds: Option<u32>,
}

impl Default for DesktopConfig {
    fn default() -> (r: Self)
        ensures
            r.idle_delay_seconds is None,
    {
        DesktopConfig { idle_delay_seconds: None }
    }
}

/// A complete posture profile: kernel parameters (sysctl keys to values),
/// limits, firewall, power, peripherals and desktop settings.
#[derive(Debug, Clone)]
pub struct ProfileConfig {
    pub profile: ProfileMetadata,
    pub kernel: StringMap,
    pub limits: SecurityLimitsConfig,
    pub firewall: FirewallConfig,
    pub power: FrameworkPowerConfig,
    pub peripherals: PeripheralsConfig,
    pub desktop: DesktopConfig,
}

} // verus!
