//! Motion sentry: an armed laptop that is moved raises the alarm.
use vstd::prelude::*;
use crate::hardware::honeypot::HoneypotIncident;
use crate::text::{owned, opt_view, str_contains, has_substring, trim_str, trimmed, parse_i32, parse_i32_spec, fmt_u32, decimal, join3, join5};

verus! {

/// A raw three-axis accelerometer reading.
#[derive(Debug, Clone, Copy, PartialEq, Eq)]
pub struct AccelVector {
    pub x: i32,
    pub y: i32,
    pub z: i32,
}

impl Default for AccelVector {
    fn default() -> (r: Self)
        ensures
            r.x == 0 && r.y == 0 && r.z == 0,
    {
        AccelVector { x: 0, y: 0, z: 0 }
    }
}

/// The motion sentry configuration.
#[derive(Debug, Clone, Copy, PartialEq, Eq)]
pub struct MotionSentryConfig {
    pub enabled: bool,
    pub armed: bool,
    pub sensitivity: u32,
    pub auto_arm_on_travel: bool,
    pub trigger_alarm_sound: bool,
    pub auto_lock_screen: bool,
    pub auto_engage_travel: bool,
}

/// Arming is off until asked for.
pub fn default_false() -> (r: bool)
    ensures
        !r,
{
    false
}

/// The sentry and its responses are on unless configured otherwise.
pub fn default_true() -> (r: bool)
    ensures
        r,
{
    true
}

/// The displacement at which the alarm goes off.
pub fn default_sensitivity() -> (r: u32)
    ensures
        r == 2000,
{
    2000
}

impl Default for MotionSentryConfig {
    fn default() -> (r: Self)
        ensures
            r.enabled,
            !r.armed,
            r.sensitivity == 2000,
            r.auto_arm_on_travel,
            r.trigger_alarm_sound,
            r.auto_lock_screen,
            r.auto_engage_travel,
    {
        MotionSentryConfig {
            enabled: true,
            armed: false,
            sensitivity: 2000,
            auto_arm_on_travel: true,
            trigger_alarm_sound: true,
            auto_lock_screen: true,
            auto_engage_travel: true,
        }
    }
}

/// What the sentry asks for.
#[derive(Debug, Clone, Copy, PartialEq, Eq)]
pub enum MotionAction {
    TriggerAlarm { displacement: u32, current: AccelVector, baseline: AccelVector },
}

/// Whether a reading displaced by `displacement` (the rounded Euclidean
/// distance between `current` and `baseline`) raises the alarm: only when the
/// sentry is enabled and armed and the displacement reaches the sensitivity.
pub fn evaluate_motion_transition(
    current: AccelVector,
    baseline: AccelVector,
    displacement: u32,
    config: &MotionSentryConfig,
) -> (r: Option<MotionAction>)
    ensures
        r == if config.enabled && config.armed && displacement >= config.sensitivity {
            Some(MotionAction::TriggerAlarm { displacement, current, baseline })
        } else {
            None
        },
{
    if !config.enabled || !config.armed {
        return None;
    }
    if displacement >= config.sensitivity {
        Some(MotionAction::TriggerAlarm { displacement, current, baseline })
    } else {
        None
    }
}

/// The first of the first `n` candidates whose name mentions `accel`.
pub open spec fn first_accel(c: Seq<(String, String)>, n: int) -> Option<int>
    decreases n,
{
    if n <= 0 {
        None
    } else {
        match first_accel(c, n - 1) {
            Some(i) => Some(i),
            None => if has_substring(c[n - 1].1@, "accel"@) {
                Some(n - 1)
            } else {
                None
            },
        }
    }
}

proof fn lemma_first_accel_stable(c: Seq<(String, String)>, n: int, m: int)
    requires
        0 <= n <= m,
        first_accel(c, n) is Some,
    ensures
        first_accel(c, m) == first_accel(c, n),
    decreases m - n,
{
    if n < m {
        lemma_first_accel_stable(c, n, m - 1);
    }
}

/// The accelerometer to read among the IIO devices that have an X axis
/// (path and `name` file contents): the first whose name mentions `accel`,
/// else the first.
pub fn choose_accelerometer(candidates: &Vec<(String, String)>) -> (r: Option<String>)
    ensures
        opt_view(r) == match first_accel(candidates@, candidates@.len() as int) {
            Some(i) => Some(candidates@[i].0@),
            None => if candidates@.len() > 0 {
                Some(candidates@[0].0@)
            } else {
                None
            },
        },
{
    let mut i: usize = 0;
    while i < candidates.len()
        invariant
            i <= candidates@.len(),
            first_accel(candidates@, i as int) is None,
        decreases candidates.len() - i,
    {
        if str_contains(candidates[i].1.as_str(), "accel") {
            proof {
                lemma_first_accel_stable(candidates@, i + 1, candidates@.len() as int);
            }
            return Some(owned(candidates[i].0.as_str()));
        }
        i = i + 1;
    }
    if candidates.len() > 0 {
        Some(owned(candidates[0].0.as_str()))
    } else {
        None
    }
}

/// A reading from the three raw axis files: each trimmed and parsed as an
/// integer; nothing when one does not parse.
pub fn accel_from_raw(x: &str, y: &str, z: &str) -> (r: Option<AccelVector>)
    ensures
        match r {
            Some(v) => parse_i32_spec(trimmed(x@)) == Some(v.x as int) && parse_i32_spec(trimmed(y@)) == Some(
                v.y as int,
            ) && parse_i32_spec(trimmed(z@)) == Some(v.z as int),
            None => parse_i32_spec(trimmed(x@)) is None || parse_i32_spec(trimmed(y@)) is None || parse_i32_spec(
                trimmed(z@),
            ) is None,
        },
{
    let a = match parse_i32(trim_str(x)) {
        Some(v) => v,
        None => return None,
    };
    let b = match parse_i32(trim_str(y)) {
        Some(v) => v,
        None => return None,
    };
    let c = match parse_i32(trim_str(z)) {
        Some(v) => v,
        None => return None,
    };
    Some(AccelVector { x: a, y: b, z: c })
}

/// The incident recorded when the sentry raises the alarm.
pub fn motion_incident(timestamp: u64, displacement: u32, sensitivity: u32) -> (r: HoneypotIncident)
    ensures
        r.timestamp == timestamp,
        r.source_ip@ == "FRAMEWORK ACCELEROMETER"@,
        r.trap_port == 0,
        r.blocked,
        r.description@ == "🚨 Physical Displacement: Laptop moved/tilted (Δ = "@ + decimal(displacement as nat)
            + ", Threshold = "@ + decimal(sensitivity as nat) + ")"@,
{
    let d = fmt_u32(displacement);
    let t = fmt_u32(sensitivity);
    HoneypotIncident {
        timestamp,
        source_ip: owned("FRAMEWORK ACCELEROMETER"),
        trap_port: 0,
        blocked: true,
        description: join5(
            "🚨 Physical Displacement: Laptop moved/tilted (Δ = ",
            d.as_str(),
            ", Threshold = ",
            t.as_str(),
            ")",
        ),
    }
}

/// The desktop notification of an alarm.
pub fn motion_notice(displacement: u32) -> (r: String)
    ensures
        r@ == "🚨 Physical motion detected (Δ = "@ + decimal(displacement as nat)
            + ")! Laptop locked and Travel mode engaged."@,
{
    let d = fmt_u32(displacement);
    join3("🚨 Physical motion detected (Δ = ", d.as_str(), ")! Laptop locked and Travel mode engaged.")
}

} // verus!
