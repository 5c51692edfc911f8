//! The daemon's background monitors, as decisions: from what a monitor
//! remembers and what it sees on a tick, what it applies next. The daemon
//! performs the action and reports whether it succeeded.
use vstd::prelude::*;
use crate::autoflow::ActiveNetworkInfo;
use crate::schedule::ScheduleDecision;
use crate::text::{owned, str_eq, join5, opt_view, copy_opt};

verus! {

/// The seconds a monitor sleeps: the configured interval, at least `minimum`.
pub fn tick_seconds(configured: u64, minimum: u64) -> (r: u64)
    ensures
        r == if configured >= minimum {
            configured
        } else {
            minimum
        },
{
    if configured >= minimum {
        configured
    } else {
        minimum
    }
}

/// The text that identifies a network context: the connection type, the
/// Wi-Fi name and the VPN (`none` when absent), separated by colons.
pub open spec fn network_key_spec(net: ActiveNetworkInfo) -> Seq<char> {
    net.primary_type@ + ":"@ + match net.current_ssid {
        Some(s) => s@,
        None => "none"@,
    } + ":"@ + match net.active_vpn {
        Some(v) => v@,
        None => "none"@,
    }
}

/// The text that identifies a network context (see `network_key_spec`).
pub fn network_key(net: &ActiveNetworkInfo) -> (r: String)
    ensures
        r@ == network_key_spec(*net),
{
    let ssid: &str = match &net.current_ssid {
        Some(s) => s.as_str(),
        None => "none",
    };
    let vpn: &str = match &net.active_vpn {
        Some(v) => v.as_str(),
        None => "none",
    };
    join5(net.primary_type.as_str(), ":", ssid, ":", vpn)
}

/// What the Auto-Flow monitor remembers between ticks.
#[derive(Debug)]
pub struct AutoFlowMonitor {
    pub last_applied_profile: String,
    pub last_network_key: String,
}

impl AutoFlowMonitor {
    /// A monitor that has seen no network and applied nothing.
    pub fn new() -> (r: Self)
        ensures
            r.last_applied_profile@ == Seq::<char>::empty(),
            r.last_network_key@ == Seq::<char>::empty(),
    {
        AutoFlowMonitor { last_applied_profile: String::new(), last_network_key: String::new() }
    }

    /// A tick: when Auto-Flow is on and the network context changed, the new
    /// context is remembered; then, unless an app trigger holds, the profile
    /// that Auto-Flow chose (`target`) is to be applied when it is neither
    /// the active profile nor the one this monitor applied last.
    pub fn tick(
        &mut self,
        enabled: bool,
        key: &str,
        app_trigger_active: bool,
        target: Option<&str>,
        current: &str,
    ) -> (apply: Option<String>)
        ensures
            !enabled || key@ == old(self).last_network_key@ ==> *final(self) == *old(self) && apply is None,
            enabled && key@ != old(self).last_network_key@ ==> {
                &&& final(self).last_network_key@ == key@
                &&& final(self).last_applied_profile == old(self).last_applied_profile
                &&& opt_view(apply) == match target {
                    Some(t) => if !app_trigger_active && t@ != current@ && t@
                        != old(self).last_applied_profile@ {
                        Some(t@)
                    } else {
                        None
                    },
                    None => None,
                }
            },
    {
        if !enabled || str_eq(key, self.last_network_key.as_str()) {
            return None;
        }
        self.last_network_key = owned(key);
        if app_trigger_active {
            return None;
        }
        match target {
            Some(t) => if !str_eq(t, current) && !str_eq(t, self.last_applied_profile.as_str()) {
                Some(owned(t))
            } else {
                None
            },
            None => None,
        }
    }

    /// The profile chosen on a tick was applied.
    pub fn applied(&mut self, profile: &str)
        ensures
            final(self).last_applied_profile@ == profile@,
            final(self).last_network_key == old(self).last_network_key,
    {
        self.last_applied_profile = owned(profile);
    }
}

/// What the schedule monitor remembers between ticks.
#[derive(Debug)]
pub struct ScheduleMonitor {
    pub last_applied_profile: String,
    pub was_emergency: bool,
}

/// What the schedule monitor does on a tick.
#[derive(Debug)]
pub enum ScheduleAction {
    /// Apply the battery fallback profile, then the energy preference (if
    /// any) and switch Bluetooth off (if asked).
    ApplyEmergency { profile: String, cpu_epp: Option<String>, disable_bluetooth: bool },
    /// Apply the scheduled profile.
    ApplyShift { profile: String },
}

impl ScheduleMonitor {
    /// A monitor outside any emergency that has applied nothing.
    pub fn new() -> (r: Self)
        ensures
            r.last_applied_profile@ == Seq::<char>::empty(),
            !r.was_emergency,
    {
        ScheduleMonitor { last_applied_profile: String::new(), was_emergency: false }
    }

    /// A tick with the schedule's decision: a battery emergency is applied
    /// when it was not already in force or the active profile is not its
    /// target; a scheduled shift ends an emergency and, unless an app
    /// trigger holds, is applied when its target is neither the active
    /// profile nor the one last applied; no decision ends an emergency.
    pub fn tick(&mut self, decision: &Option<ScheduleDecision>, current: &str, app_trigger_active: bool) -> (r: Option<
        ScheduleAction,
    >)
        ensures
            final(self).last_applied_profile == old(self).last_applied_profile,
            match decision {
                Some(ScheduleDecision::BatteryEmergency { target_profile, cpu_epp, disable_bluetooth, .. }) => {
                    &&& final(self).was_emergency == old(self).was_emergency
                    &&& if !old(self).was_emergency || current@ != target_profile@ {
                        &&& r matches Some(ScheduleAction::ApplyEmergency { profile, cpu_epp: e, disable_bluetooth: b })
                        &&& profile@ == target_profile@ && opt_view(e) == opt_view(*cpu_epp) && b == *disable_bluetooth
                    } else {
                        r is None
                    }
                },
                Some(ScheduleDecision::ScheduledShift { target_profile, .. }) => {
                    &&& !final(self).was_emergency
                    &&& if !app_trigger_active && target_profile@ != current@ && target_profile@
                        != old(self).last_applied_profile@ {
                        r matches Some(ScheduleAction::ApplyShift { profile }) && profile@ == target_profile@
                    } else {
                        r is None
                    }
                },
                None => !final(self).was_emergency && r is None,
            },
    {
        match decision {
            Some(ScheduleDecision::BatteryEmergency { target_profile, cpu_epp, disable_bluetooth, .. }) => {
                if !self.was_emergency || !str_eq(current, target_profile.as_str()) {
                    Some(
                        ScheduleAction::ApplyEmergency {
                            profile: owned(target_profile.as_str()),
                            cpu_epp: copy_opt(cpu_epp),
                            disable_bluetooth: *disable_bluetooth,
                        },
                    )
                } else {
                    None
                }
            },
            Some(ScheduleDecision::ScheduledShift { target_profile, .. }) => {
                self.was_emergency = false;
                if !app_trigger_active && !str_eq(target_profile.as_str(), current) && !str_eq(
                    target_profile.as_str(),
                    self.last_applied_profile.as_str(),
                ) {
                    Some(ScheduleAction::ApplyShift { profile: owned(target_profile.as_str()) })
                } else {
                    None
                }
            },
            None => {
                self.was_emergency = false;
                None
            },
        }
    }

    /// The battery fallback profile was applied: the emergency is in force.
    pub fn emergency_applied(&mut self, profile: &str)
        ensures
            final(self).last_applied_profile@ == profile@,
            final(self).was_emergency,
    {
        self.was_emergency = true;
        self.last_applied_profile = owned(profile);
    }

    /// A scheduled profile was applied.
    pub fn shift_applied(&mut self, profile: &str)
        ensures
            final(self).last_applied_profile@ == profile@,
            final(self).was_emergency == old(self).was_emergency,
    {
        self.last_applied_profile = owned(profile);
    }
}

} // verus!
