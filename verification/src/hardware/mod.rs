//! Hardware defenses: YubiKey tethering, honeypot ports, sensor privacy,
//! Bluetooth walk-away proximity and the motion sentry.
pub mod yubikey;
pub mod honeypot;
pub mod sensors;
pub mod proximity;
pub mod motion;

use vstd::prelude::*;
use crate::text::{owned, to_upper, uppercased, join3};
use yubikey::{TetherAction, tether_view, tether_outcome, evaluate_tether_transition};
use proximity::{ProximityAction, proximity_view, proximity_outcome, evaluate_proximity_transition};

verus! {

/// The hardware defense configuration: every defense is off by default.
#[derive(Debug, Clone)]
pub struct HardwareDefenseConfig {
    pub yubikey: yubikey::YubikeyTetherConfig,
    pub honeypot: honeypot::HoneypotConfig,
    pub sensors: sensors::SensorPrivacyConfig,
    pub proximity: proximity::ProximityConfig,
}

impl Default for HardwareDefenseConfig {
    fn default() -> (r: Self)
        ensures
            !r.yubikey.enabled,
            r.yubikey.lock_session_on_removal,
            r.yubikey.fallback_profile@ == "travel"@,
            r.yubikey.restore_profile_on_insert,
            r.yubikey.preferred_profile@ == "work"@,
            r.yubikey.target_serial is None,
            !r.honeypot.enabled,
            r.honeypot.trap_ports@ == seq![2222u16, 8080, 4450],
            r.honeypot.auto_block_offender,
            r.honeypot.notify_on_intrusion,
            !r.sensors.camera_blocked && !r.sensors.microphone_muted && !r.sensors.location_blocked,
            !r.proximity.enabled,
            r.proximity.target_device_mac is None,
            r.proximity.target_device_name is None,
            r.proximity.rssi_lock_threshold == -85,
            r.proximity.rssi_unlock_threshold == -70,
            r.proximity.grace_period_seconds == 10,
            r.proximity.auto_lock_screen,
            r.proximity.lock_profile@ == "travel"@,
    {
        HardwareDefenseConfig {
            yubikey: yubikey::YubikeyTetherConfig::default(),
            honeypot: honeypot::HoneypotConfig::default(),
            sensors: sensors::SensorPrivacyConfig::default(),
            proximity: proximity::ProximityConfig::default(),
        }
    }
}

/// A desktop notification: urgency, title and text.
#[derive(Debug)]
pub struct Notice {
    pub urgency: String,
    pub title: String,
    pub body: String,
}

/// The notification of a tether action.
pub fn tether_notice(action: &TetherAction) -> (r: Notice)
    ensures
        r.title@ == "PostureFlow Hardware Security"@,
        match action {
            TetherAction::LockAndDemote { .. } => r.urgency@ == "critical"@ && r.body@
                == "🔑 YubiKey detached: Session locked and Travel lockdown engaged."@,
            TetherAction::Restore { preferred_profile } => r.urgency@ == "normal"@ && r.body@
                == "🔑 YubiKey detected: Restored "@ + uppercased(preferred_profile@) + " posture."@,
        },
{
    match action {
        TetherAction::LockAndDemote { .. } => Notice {
            urgency: owned("critical"),
            title: owned("PostureFlow Hardware Security"),
            body: owned("🔑 YubiKey detached: Session locked and Travel lockdown engaged."),
        },
        TetherAction::Restore { preferred_profile } => {
            let p = to_upper(preferred_profile.as_str());
            Notice {
                urgency: owned("normal"),
                title: owned("PostureFlow Hardware Security"),
                body: join3("🔑 YubiKey detected: Restored ", p.as_str(), " posture."),
            }
        },
    }
}

/// The notification of a walk-away action.
pub fn proximity_notice(action: &ProximityAction) -> (r: Notice)
    ensures
        r.title@ == "PostureFlow Walk-Away Security"@,
        match action {
            ProximityAction::LockAndDemote { lock_profile } => r.urgency@ == "critical"@ && r.body@
                == "🛰️ Bluetooth device out of range: Locked session and engaged "@ + uppercased(lock_profile@)
                + " posture."@,
            ProximityAction::Restore { restore_profile } => r.urgency@ == "normal"@ && r.body@
                == "🛰️ Bluetooth device in range: Restored "@ + uppercased(restore_profile@) + " posture."@,
        },
{
    match action {
        ProximityAction::LockAndDemote { lock_profile } => {
            let p = to_upper(lock_profile.as_str());
            Notice {
                urgency: owned("critical"),
                title: owned("PostureFlow Walk-Away Security"),
                body: join3("🛰️ Bluetooth device out of range: Locked session and engaged ", p.as_str(), " posture."),
            }
        },
        ProximityAction::Restore { restore_profile } => {
            let p = to_upper(restore_profile.as_str());
            Notice {
                urgency: owned("normal"),
                title: owned("PostureFlow Walk-Away Security"),
                body: join3("🛰️ Bluetooth device in range: Restored ", p.as_str(), " posture."),
            }
        },
    }
}

/// What the hardware monitor remembers between ticks: whether the token was
/// present, how many walk-away readings in a row were out of range, and
/// whether walk-away locked the session.
#[derive(Debug, Clone, Copy)]
pub struct HardwareMonitor {
    pub was_yubikey_present: bool,
    pub consecutive_out_of_range: u32,
    pub proximity_locked: bool,
}

impl HardwareMonitor {
    /// A monitor that starts with the token's current presence.
    pub fn new(token_present: bool) -> (r: Self)
        ensures
            r.was_yubikey_present == token_present,
            r.consecutive_out_of_range == 0,
            !r.proximity_locked,
    {
        HardwareMonitor { was_yubikey_present: token_present, consecutive_out_of_range: 0, proximity_locked: false }
    }

    /// A tick with the configuration, the active profile, whether the token
    /// is present now (read when tethering is on) and the walk-away device's
    /// signal (read when walk-away is on for a device): the tether and
    /// walk-away actions, with the monitor's memory updated.
    pub fn tick(
        &mut self,
        cfg: &HardwareDefenseConfig,
        current: &str,
        token_present: bool,
        rssi: Option<i32>,
    ) -> (r: (Option<TetherAction>, Option<ProximityAction>))
        requires
            old(self).consecutive_out_of_range < u32::MAX,
        ensures
            cfg.yubikey.enabled ==> tether_view(r.0) == tether_outcome(
                old(self).was_yubikey_present,
                token_present,
                cfg.yubikey,
                current@,
            ) && final(self).was_yubikey_present == token_present,
            !cfg.yubikey.enabled ==> r.0 is None && final(self).was_yubikey_present == old(self).was_yubikey_present,
            cfg.proximity.enabled && cfg.proximity.target_device_mac is Some ==> (
                proximity_view(r.1),
                final(self).consecutive_out_of_range as int,
                final(self).proximity_locked,
            ) == proximity_outcome(
                rssi,
                old(self).consecutive_out_of_range,
                cfg.proximity,
                current@,
                old(self).proximity_locked,
            ),
            !(cfg.proximity.enabled && cfg.proximity.target_device_mac is Some) ==> r.1 is None
                && final(self).consecutive_out_of_range == old(self).consecutive_out_of_range
                && final(self).proximity_locked == old(self).proximity_locked,
    {
        let mut tether: Option<TetherAction> = None;
        if cfg.yubikey.enabled {
            tether = evaluate_tether_transition(self.was_yubikey_present, token_present, &cfg.yubikey, current);
            self.was_yubikey_present = token_present;
        }
        let mut walk: Option<ProximityAction> = None;
        if cfg.proximity.enabled && cfg.proximity.target_device_mac.is_some() {
            let (action, count, locked) = evaluate_proximity_transition(
                rssi,
                self.consecutive_out_of_range,
                &cfg.proximity,
                current,
                self.proximity_locked,
            );
            self.consecutive_out_of_range = count;
            self.proximity_locked = locked;
            walk = action;
        }
        (tether, walk)
    }
}

} // verus!
