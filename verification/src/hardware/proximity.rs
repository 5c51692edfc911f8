//! Bluetooth walk-away proximity: when a paired device stays out of range
//! for a grace period the session is locked and the posture demoted; when it
//! returns in strong range the posture is restored.
use vstd::prelude::*;
use crate::text::{
    owned, str_eq, chars_of, string_of, split_lines, lines, split_words, words, views, trim_str,
    trimmed, is_prefix, starts_with, slice_chars, parse_i32, parse_i32_spec,
};
use crate::inspector::ports::join_spaced;

verus! {

/// The walk-away configuration.
#[derive(Debug, Clone)]
pub struct ProximityConfig {
    pub enabled: bool,
    pub target_device_mac: Option<String>,
    pub target_device_name: Option<String>,
    pub rssi_lock_threshold: i32,
    pub rssi_unlock_threshold: i32,
    pub grace_period_seconds: u32,
    pub auto_lock_screen: bool,
    pub lock_profile: String,
}

/// Walk-away locking is off unless configured.
pub fn default_false() -> (r: bool)
    ensures
        !r,
{
    false
}

/// Screen locking is on unless configured otherwise.
pub fn default_true() -> (r: bool)
    ensures
        r,
{
    true
}

/// The signal strength (dBm) below which the device counts as out of range.
pub fn default_lock_threshold() -> (r: i32)
    ensures
        r == -85,
{
    -85
}

/// The signal strength (dBm) from which a returned device restores the posture.
pub fn default_unlock_threshold() -> (r: i32)
    ensures
        r == -70,
{
    -70
}

/// Seconds out of range before locking.
pub fn default_grace_period() -> (r: u32)
    ensures
        r == 10,
{
    10
}

/// The posture engaged on walk-away.
pub fn default_lock_profile() -> (r: String)
    ensures
        r@ == "travel"@,
{
    owned("travel")
}

impl Default for ProximityConfig {
    fn default() -> (r: Self)
        ensures
            !r.enabled,
            r.target_device_mac is None,
            r.target_device_name is None,
            r.rssi_lock_threshold == -85,
            r.rssi_unlock_threshold == -70,
            r.grace_period_seconds == 10,
            r.auto_lock_screen,
            r.lock_profile@ == "travel"@,
    {
        ProximityConfig {
            enabled: false,
            target_device_mac: None,
            target_device_name: None,
            rssi_lock_threshold: -85,
            rssi_unlock_threshold: -70,
            grace_period_seconds: 10,
            auto_lock_screen: true,
            lock_profile: owned("travel"),
        }
    }
}

/// What a proximity reading asks for.
#[derive(Debug, Clone, PartialEq, Eq)]
pub enum ProximityAction {
    LockAndDemote { lock_profile: String },
    Restore { restore_profile: String },
}

/// The number of consecutive out-of-range readings (two seconds apart) that
/// exhausts the grace period: half the grace seconds, at least one.
pub open spec fn ticks_needed(grace: u32) -> int {
    if grace / 2 >= 1 {
        (grace / 2) as int
    } else {
        1
    }
}

/// A reading counts as out of range when it is missing or below the lock threshold.
pub open spec fn out_of_range(rssi: Option<i32>, config: ProximityConfig) -> bool {
    match rssi {
        Some(v) => v < config.rssi_lock_threshold,
        None => true,
    }
}

/// An action as (lock and demote?, profile).
pub open spec fn proximity_view(a: Option<ProximityAction>) -> Option<(bool, Seq<char>)> {
    match a {
        Some(ProximityAction::LockAndDemote { lock_profile }) => Some((true, lock_profile@)),
        Some(ProximityAction::Restore { restore_profile }) => Some((false, restore_profile@)),
        None => None,
    }
}

/// One reading of the walk-away monitor: the action as (lock and demote?,
/// profile), the new count of out-of-range readings, and whether the session
/// is locked by walk-away (see `evaluate_proximity_transition`).
pub open spec fn proximity_outcome(
    rssi: Option<i32>,
    count: u32,
    config: ProximityConfig,
    current: Seq<char>,
    locked: bool,
) -> (Option<(bool, Seq<char>)>, int, bool) {
    if !config.enabled || config.target_device_mac is None {
        (None, 0, false)
    } else if out_of_range(rssi, config) {
        let n = count + 1;
        if n >= ticks_needed(config.grace_period_seconds) && !locked && current != config.lock_profile@ {
            (Some((true, config.lock_profile@)), n, true)
        } else {
            (None, n, locked)
        }
    } else if rssi->0 >= config.rssi_unlock_threshold && locked {
        (Some((false, "work"@)), 0, false)
    } else {
        (None, 0, locked)
    }
}

/// One reading of the walk-away monitor: returns the action, the new count of
/// consecutive out-of-range readings and whether the session is now locked by
/// walk-away. While disabled or without a target device, nothing, and the
/// state resets. Out of range: the count grows; once it reaches the grace
/// period, if not already locked and the lock profile is not active, lock and
/// demote. In range: the count resets; a reading at or above the unlock
/// threshold after a walk-away lock restores the work posture and clears the lock.
pub fn evaluate_proximity_transition(
    rssi_opt: Option<i32>,
    consecutive_out_of_range: u32,
    config: &ProximityConfig,
    current_profile: &str,
    previously_locked: bool,
) -> (r: (Option<ProximityAction>, u32, bool))
    requires
        consecutive_out_of_range < u32::MAX,
    ensures
        (proximity_view(r.0), r.1 as int, r.2) == proximity_outcome(
            rssi_opt,
            consecutive_out_of_range,
            *config,
            current_profile@,
            previously_locked,
        ),
        !config.enabled || config.target_device_mac is None ==> r == (None::<ProximityAction>, 0u32, false),
        config.enabled && config.target_device_mac is Some && out_of_range(rssi_opt, *config) ==> {
            &&& r.1 == consecutive_out_of_range + 1
            &&& if r.1 >= ticks_needed(config.grace_period_seconds) && !previously_locked
                && current_profile@ != config.lock_profile@ {
                &&& r.0 matches Some(ProximityAction::LockAndDemote { lock_profile })
                &&& lock_profile@ == config.lock_profile@
                &&& r.2
            } else {
                r.0 is None && r.2 == previously_locked
            }
        },
        config.enabled && config.target_device_mac is Some && !out_of_range(rssi_opt, *config) ==> {
            &&& r.1 == 0
            &&& if rssi_opt->0 >= config.rssi_unlock_threshold && previously_locked {
                &&& r.0 matches Some(ProximityAction::Restore { restore_profile })
                &&& restore_profile@ == "work"@
                &&& !r.2
            } else {
                r.0 is None && r.2 == previously_locked
            }
        },
{
    if !config.enabled || config.target_device_mac.is_none() {
        return (None, 0, false);
    }
    let is_out_of_range = match rssi_opt {
        Some(rssi) => rssi < config.rssi_lock_threshold,
        None => true,
    };
    if is_out_of_range {
        let new_count = consecutive_out_of_range + 1;
        let half = config.grace_period_seconds / 2;
        let ticks = if half >= 1 {
            half
        } else {
            1
        };
        if new_count >= ticks && !previously_locked {
            if !str_eq(current_profile, config.lock_profile.as_str()) {
                return (
                    Some(ProximityAction::LockAndDemote { lock_profile: owned(config.lock_profile.as_str()) }),
                    new_count,
                    true,
                );
            }
        }
        (None, new_count, previously_locked)
    } else {
        if let Some(rssi) = rssi_opt {
            if rssi >= config.rssi_unlock_threshold && previously_locked {
                return (Some(ProximityAction::Restore { restore_profile: owned("work") }), 0, false);
            }
        }
        (None, 0, previously_locked)
    }
}

// ---------------------------------------------------------------------------
// Reading `bluetoothctl` output
// ---------------------------------------------------------------------------

/// The paired devices listed by `bluetoothctl devices`: from each line of at
/// least three words starting with `Device`, the address and the rest of the
/// words (the name) joined by spaces.
pub open spec fn paired_devices(ls: Seq<Seq<char>>, n: int) -> Seq<(Seq<char>, Seq<char>)>
    decreases n,
{
    if n <= 0 {
        Seq::empty()
    } else {
        let prev = paired_devices(ls, n - 1);
        let parts = words(ls[n - 1]);
        if parts.len() >= 3 && parts[0] == "Device"@ {
            prev.push((parts[1], join_spaced(parts.subrange(2, parts.len() as int))))
        } else {
            prev
        }
    }
}

fn join_from(ws: &Vec<Vec<char>>, from: usize) -> (r: String)
    requires
        from <= ws@.len(),
    ensures
        r@ == join_spaced(views(ws@).subrange(from as int, ws@.len() as int)),
{
    let v = crate::inspector::ports::join_words(ws, from);
    string_of(v.as_slice())
}

/// The (address, name) pairs of the paired devices in `bluetoothctl devices` output.
pub fn list_paired_bluetooth_devices(output: &str) -> (r: Vec<(String, String)>)
    ensures
        r@.len() == paired_devices(lines(output@), lines(output@).len() as int).len(),
        forall|i: int|
            0 <= i < r@.len() ==> (#[trigger] r@[i]).0@ == paired_devices(
                lines(output@),
                lines(output@).len() as int,
            )[i].0 && r@[i].1@ == paired_devices(lines(output@), lines(output@).len() as int)[i].1,
{
    let ov = chars_of(output);
    let ls = split_lines(ov.as_slice());
    let ghost lv = views(ls@);
    let mut devices: Vec<(String, String)> = Vec::new();
    let mut i: usize = 0;
    while i < ls.len()
        invariant
            lv == views(ls@),
            lv == lines(output@),
            i <= ls@.len(),
            devices@.len() == paired_devices(lv, i as int).len(),
            forall|k: int|
                0 <= k < devices@.len() ==> (#[trigger] devices@[k]).0@ == paired_devices(lv, i as int)[k].0
                    && devices@[k].1@ == paired_devices(lv, i as int)[k].1,
        decreases ls.len() - i,
    {
        assert(lv[i as int] == ls@[i as int]@);
        let parts = split_words(ls[i].as_slice());
        if parts.len() >= 3 {
            assert(views(parts@)[0] == parts@[0]@);
            assert(views(parts@)[1] == parts@[1]@);
            let first = string_of(parts[0].as_slice());
            if str_eq(first.as_str(), "Device") {
                let mac = string_of(parts[1].as_slice());
                let name = join_from(&parts, 2);
                devices.push((mac, name));
            }
        }
        i = i + 1;
    }
    devices
}

/// The signal strength in `bluetoothctl info` output: the first line that,
/// trimmed, starts with `RSSI:` and whose remainder, trimmed, is a number.
pub open spec fn rssi_reading(ls: Seq<Seq<char>>, n: int) -> Option<int>
    decreases n,
{
    if n <= 0 {
        None
    } else {
        match rssi_reading(ls, n - 1) {
            Some(v) => Some(v),
            None => {
                let t = trimmed(ls[n - 1]);
                if is_prefix("RSSI:"@, t) {
                    parse_i32_spec(trimmed(t.subrange(5, t.len() as int)))
                } else {
                    None
                }
            },
        }
    }
}

proof fn lemma_rssi_stable(ls: Seq<Seq<char>>, n: int, m: int)
    requires
        0 <= n <= m,
        rssi_reading(ls, n) is Some,
    ensures
        rssi_reading(ls, m) == rssi_reading(ls, n),
    decreases m - n,
{
    if n < m {
        lemma_rssi_stable(ls, n, m - 1);
    }
}

/// The signal strength reported in `bluetoothctl info` output, if any.
pub fn query_device_rssi(output: &str) -> (r: Option<i32>)
    ensures
        match r {
            Some(v) => rssi_reading(lines(output@), lines(output@).len() as int) == Some(v as int),
            None => rssi_reading(lines(output@), lines(output@).len() as int) is None,
        },
{
    proof {
        reveal_strlit("RSSI:");
    }
    let ov = chars_of(output);
    let ls = split_lines(ov.as_slice());
    let ghost lv = views(ls@);
    let prefix = chars_of("RSSI:");
    let n = ls.len();
    let mut i: usize = 0;
    while i < n
        invariant
            lv == views(ls@),
            lv == lines(output@),
            n == ls@.len(),
            i <= n,
            prefix@ == "RSSI:"@,
            prefix@.len() == 5,
            rssi_reading(lv, i as int) is None,
        decreases n - i,
    {
        assert(lv[i as int] == ls@[i as int]@);
        let line = string_of(ls[i].as_slice());
        let t = trim_str(line.as_str());
        let tv = chars_of(t);
        if starts_with(tv.as_slice(), prefix.as_slice()) {
            let rest = slice_chars(tv.as_slice(), 5, tv.len());
            let rs = string_of(rest.as_slice());
            let rt = trim_str(rs.as_str());
            if let Some(v) = parse_i32(rt) {
                proof {
                    lemma_rssi_stable(lv, i + 1, n as int);
                }
                return Some(v);
            }
        }
        i = i + 1;
    }
    None
}

} // verus!
