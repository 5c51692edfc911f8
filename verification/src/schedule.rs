//! Circadian scheduling: time-of-day windows and the low-battery fallback
//! that choose a posture.
use vstd::prelude::*;
use crate::config::validator::normalized;
use crate::text::{
    trim_str, to_lower, owned, str_eq, chars_of, split_chars, split_on, views, parse_unsigned,
    parse_unsigned_chars, join3, trimmed, is_prefix, str_starts_with, eq_ignore_ascii_case,
    str_eq_ignore_ascii_case, parse_u32, string_views, opt_view,
};

verus! {

/// A named window of days and hours during which a profile should be active.
#[derive(Debug, Clone)]
pub struct ScheduleWindow {
    pub name: String,
    pub days: Vec<String>,
    pub start_time: String,
    pub end_time: String,
    pub target_profile: String,
    pub comment: Option<String>,
}

/// The fallback taken when the battery runs low while discharging.
#[derive(Debug, Clone)]
pub struct BatteryEmergencyConfig {
    pub enabled: bool,
    pub threshold_percent: u32,
    pub target_profile: String,
    pub force_cpu_epp: Option<String>,
    pub disable_bluetooth: bool,
    pub auto_recover_on_ac: bool,
}

/// Schedules are on unless configured otherwise.
pub fn default_true() -> (r: bool)
    ensures
        r,
{
    true
}

/// The battery percentage at or below which the fallback engages.
pub fn default_threshold() -> (r: u32)
    ensures
        r == 15,
{
    15
}

/// The profile of the battery fallback.
pub fn default_emergency_profile() -> (r: String)
    ensures
        r@ == "travel"@,
{
    owned("travel")
}

/// The cpu energy-performance preference forced by the battery fallback.
pub fn default_power_epp() -> (r: Option<String>)
    ensures
        r is Some && r->0@ == "power"@,
{
    Some(owned("power"))
}

/// Seconds between two schedule checks.
pub fn default_interval() -> (r: u64)
    ensures
        r == 10,
{
    10
}

impl Default for BatteryEmergencyConfig {
    fn default() -> (r: Self)
        ensures
            is_default_battery_emergency(r),
    {
        BatteryEmergencyConfig {
            enabled: true,
            threshold_percent: 15,
            target_profile: owned("travel"),
            force_cpu_epp: Some(owned("power")),
            disable_bluetooth: true,
            auto_recover_on_ac: true,
        }
    }
}

/// The whole schedule configuration.
#[derive(Debug, Clone)]
pub struct CircadianConfig {
    pub enabled: bool,
    pub check_interval_seconds: u64,
    pub battery_emergency: BatteryEmergencyConfig,
    pub schedules: Vec<ScheduleWindow>,
}

fn strings(v: &[&str]) -> (r: Vec<String>)
    ensures
        r@.len() == v@.len(),
        forall|i: int| 0 <= i < v@.len() ==> (#[trigger] r@[i])@ == v@[i]@,
{
    let mut r: Vec<String> = Vec::new();
    let mut i: usize = 0;
    while i < v.len()
        invariant
            i <= v@.len(),
            r@.len() == i,
            forall|j: int| 0 <= j < i ==> (#[trigger] r@[j])@ == v@[j]@,
        decreases v.len() - i,
    {
        r.push(owned(v[i]));
        i = i + 1;
    }
    r
}

/// Whether `w` is the window named `name` over `days`, from `start` to `end`,
/// asking for `target`, with the note `comment`.
pub open spec fn window_is(
    w: ScheduleWindow,
    name: Seq<char>,
    days: Seq<Seq<char>>,
    start: Seq<char>,
    end: Seq<char>,
    target: Seq<char>,
    comment: Seq<char>,
) -> bool {
    &&& w.name@ == name
    &&& string_views(w.days@) == days
    &&& w.start_time@ == start
    &&& w.end_time@ == end
    &&& w.target_profile@ == target
    &&& opt_view(w.comment) == Some(comment)
}

/// The battery fallback as shipped: on, at 15% to travel, forcing the `power`
/// cpu preference, switching Bluetooth off and recovering on AC.
pub open spec fn is_default_battery_emergency(b: BatteryEmergencyConfig) -> bool {
    &&& b.enabled
    &&& b.threshold_percent == 15
    &&& b.target_profile@ == "travel"@
    &&& opt_view(b.force_cpu_epp) == Some("power"@)
    &&& b.disable_bluetooth
    &&& b.auto_recover_on_ac
}

/// The shipped schedule: office hours Monday to Friday (09:00-17:00, work),
/// evenings (17:00-23:00, home) and nights (23:00-07:00, travel) every day,
/// with the shipped battery fallback, checked every 10 seconds.
pub open spec fn is_default_schedule(c: CircadianConfig) -> bool {
    let weekdays = seq!["Mon"@, "Tue"@, "Wed"@, "Thu"@, "Fri"@];
    let week = seq!["Mon"@, "Tue"@, "Wed"@, "Thu"@, "Fri"@, "Sat"@, "Sun"@];
    &&& c.enabled
    &&& c.check_interval_seconds == 10
    &&& is_default_battery_emergency(c.battery_emergency)
    &&& c.schedules@.len() == 3
    &&& window_is(
        c.schedules@[0],
        "Workday Office Hours"@,
        weekdays,
        "09:00"@,
        "17:00"@,
        "work"@,
        "Work & Corporate VPN posture during office hours"@,
    )
    &&& window_is(
        c.schedules@[1],
        "Evening Wind-Down & Gaming"@,
        week,
        "17:00"@,
        "23:00"@,
        "home"@,
        "Streaming, Proton gaming, and media mode"@,
    )
    &&& window_is(
        c.schedules@[2],
        "Overnight Stealth Lockdown"@,
        week,
        "23:00"@,
        "07:00"@,
        "travel"@,
        "Maximum firewall stealth and perimeter defense overnight"@,
    )
}

/// The shipped schedule (see `is_default_schedule`).
pub fn default_schedule_config() -> (r: CircadianConfig)
    ensures
        is_default_schedule(r),
{
    let office = ScheduleWindow {
        name: owned("Workday Office Hours"),
        days: strings(&["Mon", "Tue", "Wed", "Thu", "Fri"]),
        start_time: owned("09:00"),
        end_time: owned("17:00"),
        target_profile: owned("work"),
        comment: Some(owned("Work & Corporate VPN posture during office hours")),
    };
    let evening = ScheduleWindow {
        name: owned("Evening Wind-Down & Gaming"),
        days: strings(&["Mon", "Tue", "Wed", "Thu", "Fri", "Sat", "Sun"]),
        start_time: owned("17:00"),
        end_time: owned("23:00"),
        target_profile: owned("home"),
        comment: Some(owned("Streaming, Proton gaming, and media mode")),
    };
    let night = ScheduleWindow {
        name: owned("Overnight Stealth Lockdown"),
        days: strings(&["Mon", "Tue", "Wed", "Thu", "Fri", "Sat", "Sun"]),
        start_time: owned("23:00"),
        end_time: owned("07:00"),
        target_profile: owned("travel"),
        comment: Some(owned("Maximum firewall stealth and perimeter defense overnight")),
    };
    proof {
        assert(string_views(office.days@) =~= seq!["Mon"@, "Tue"@, "Wed"@, "Thu"@, "Fri"@]);
        assert(string_views(evening.days@) =~= seq!["Mon"@, "Tue"@, "Wed"@, "Thu"@, "Fri"@, "Sat"@, "Sun"@]);
        assert(string_views(night.days@) =~= seq!["Mon"@, "Tue"@, "Wed"@, "Thu"@, "Fri"@, "Sat"@, "Sun"@]);
    }
    CircadianConfig {
        enabled: true,
        check_interval_seconds: 10,
        battery_emergency: BatteryEmergencyConfig::default(),
        schedules: vec![office, evening, night],
    }
}

impl Default for CircadianConfig {
    fn default() -> (r: Self)
        ensures
            is_default_schedule(r),
    {
        default_schedule_config()
    }
}

/// A time of day, `HH:MM`.
#[derive(Debug, Clone, Copy, PartialEq, Eq, PartialOrd, Ord)]
pub struct TimeOfDay {
    pub hour: u32,
    pub minute: u32,
}

/// The time of day that a `HH:MM` text denotes: after trimming, exactly one
/// colon between two unsigned decimal numbers, the hour below 24 and the
/// minute below 60.
pub open spec fn parse_time(s: Seq<char>) -> Option<(nat, nat)> {
    let parts = split_on(trimmed_text(s), ':');
    if parts.len() != 2 {
        None
    } else {
        match (parse_unsigned(parts[0], 10, 0xffff_ffff), parse_unsigned(parts[1], 10, 0xffff_ffff)) {
            (Some(h), Some(m)) => if h < 24 && m < 60 {
                Some((h, m))
            } else {
                None
            },
            _ => None,
        }
    }
}

/// The trimmed text (what `str::trim` returns).
pub open spec fn trimmed_text(s: Seq<char>) -> Seq<char> {
    crate::text::trimmed(s)
}

/// Minutes since midnight.
pub open spec fn minutes(t: TimeOfDay) -> int {
    t.hour * 60 + t.minute
}

/// Whether `t` lies in the window from `s` (included) to `e` (excluded); a
/// window whose start is after its end runs across midnight.
pub open spec fn in_window(t: int, s: int, e: int) -> bool {
    if s <= e {
        s <= t && t < e
    } else {
        t >= s || t < e
    }
}

impl TimeOfDay {
    /// Reads `HH:MM` (surrounding whitespace allowed).
    pub fn parse(s: &str) -> (r: Option<Self>)
        ensures
            match r {
                Some(t) => parse_time(s@) == Some((t.hour as nat, t.minute as nat)),
                None => parse_time(s@) is None,
            },
    {
        let t = trim_str(s);
        let tv = chars_of(t);
        let parts = split_chars(tv.as_slice(), ':');
        if parts.len() != 2 {
            return None;
        }
        assert(views(parts@)[0] == parts@[0]@);
        assert(views(parts@)[1] == parts@[1]@);
        let h = match parse_unsigned_chars(parts[0].as_slice(), 10, 0xffff_ffff) {
            Some(h) => h,
            None => return None,
        };
        let m = match parse_unsigned_chars(parts[1].as_slice(), 10, 0xffff_ffff) {
            Some(m) => m,
            None => return None,
        };
        if h < 24 && m < 60 {
            Some(TimeOfDay { hour: h, minute: m })
        } else {
            None
        }
    }

    /// Minutes since midnight.
    pub fn to_minutes(&self) -> (r: u32)
        requires
            minutes(*self) <= u32::MAX,
        ensures
            r == minutes(*self),
    {
        self.hour * 60 + self.minute
    }
}

/// Whether `time` lies in the window from `start` (included) to `end`
/// (excluded); a window that starts after it ends runs across midnight.
pub fn is_time_in_range(time: TimeOfDay, start: TimeOfDay, end: TimeOfDay) -> (r: bool)
    requires
        minutes(time) <= u32::MAX,
        minutes(start) <= u32::MAX,
        minutes(end) <= u32::MAX,
    ensures
        r == in_window(minutes(time), minutes(start), minutes(end)),
{
    let t = time.to_minutes();
    let s = start.to_minutes();
    let e = end.to_minutes();
    if s <= e {
        t >= s && t < e
    } else {
        t >= s || t < e
    }
}

/// A window and its reverse split the day: for distinct ends, a time lies in
/// exactly one of them. The start is always inside, the end never.
pub proof fn lemma_window_complement(t: int, s: int, e: int)
    requires
        s != e,
    ensures
        in_window(t, s, e) == !in_window(t, e, s),
        in_window(s, s, e),
        !in_window(e, s, e),
{
}

/// The weekday that a day name (short or long, lowercase) denotes.
pub open spec fn day_number(d: Seq<char>) -> Option<u32> {
    if d == "sun"@ || d == "sunday"@ {
        Some(0)
    } else if d == "mon"@ || d == "monday"@ {
        Some(1)
    } else if d == "tue"@ || d == "tuesday"@ {
        Some(2)
    } else if d == "wed"@ || d == "wednesday"@ {
        Some(3)
    } else if d == "thu"@ || d == "thursday"@ {
        Some(4)
    } else if d == "fri"@ || d == "friday"@ {
        Some(5)
    } else if d == "sat"@ || d == "saturday"@ {
        Some(6)
    } else {
        None
    }
}

/// Whether the day rule (already trimmed and lowercased) covers weekday `w`
/// (0 = Sunday .. 6 = Saturday).
pub open spec fn day_rule_covers(d: Seq<char>, w: u32) -> bool {
    ||| d == "*"@ || d == "all"@ || d == "daily"@
    ||| (d == "weekdays"@ || d == "workdays"@) && 1 <= w <= 5
    ||| d == "weekends"@ && (w == 0 || w == 6)
    ||| day_number(d) == Some(w)
}

/// Whether a list of day rules covers weekday `w`: an empty list covers every day.
pub open spec fn days_cover(days: Seq<String>, w: u32) -> bool {
    days.len() == 0 || exists|i: int| 0 <= i < days.len() && day_rule_covers(normalized(days[i]@), w)
}

proof fn lemma_day_words_distinct()
    ensures
        day_number("weekdays"@) is None && day_number("workdays"@) is None && day_number("weekends"@) is None,
        "weekdays"@ != "*"@ && "weekdays"@ != "all"@ && "weekdays"@ != "daily"@ && "weekdays"@ != "weekends"@,
        "workdays"@ != "*"@ && "workdays"@ != "all"@ && "workdays"@ != "daily"@ && "workdays"@ != "weekends"@,
        "weekends"@ != "*"@ && "weekends"@ != "all"@ && "weekends"@ != "daily"@ && "weekends"@ != "weekdays"@
            && "weekends"@ != "workdays"@,
{
    reveal_strlit("weekdays");
    reveal_strlit("workdays");
    reveal_strlit("weekends");
    reveal_strlit("*");
    reveal_strlit("all");
    reveal_strlit("daily");
    reveal_strlit("sun");
    reveal_strlit("sunday");
    reveal_strlit("mon");
    reveal_strlit("monday");
    reveal_strlit("tue");
    reveal_strlit("tuesday");
    reveal_strlit("wed");
    reveal_strlit("wednesday");
    reveal_strlit("thu");
    reveal_strlit("thursday");
    reveal_strlit("fri");
    reveal_strlit("friday");
    reveal_strlit("sat");
    reveal_strlit("saturday");
    assert("weekdays"@[4] != "weekends"@[4]);
    assert("workdays"@[1] != "weekends"@[1]);
    assert("weekdays"@.len() == 8 && "workdays"@.len() == 8 && "weekends"@.len() == 8);
    assert("sun"@.len() == 3 && "mon"@.len() == 3 && "tue"@.len() == 3 && "wed"@.len() == 3);
    assert("thu"@.len() == 3 && "fri"@.len() == 3 && "sat"@.len() == 3);
    assert("sunday"@.len() == 6 && "monday"@.len() == 6 && "friday"@.len() == 6);
    assert("tuesday"@.len() == 7 && "wednesday"@.len() == 9);
    assert("weekdays"@[0] != "saturday"@[0] && "weekdays"@[0] != "thursday"@[0]);
    assert("workdays"@[0] != "saturday"@[0] && "workdays"@[0] != "thursday"@[0]);
    assert("weekends"@[0] != "saturday"@[0] && "weekends"@[0] != "thursday"@[0]);
    assert("workdays"@.len() != "*"@.len() && "workdays"@.len() != "all"@.len() && "workdays"@.len()
        != "daily"@.len());
}

/// A day list made of one rule covers the weekdays it names: `weekdays` and
/// `workdays` cover Monday to Friday (1..=5) and not Sunday (0) or Saturday
/// (6); `weekends` covers Saturday and Sunday only; `*`, `all` and `daily`
/// cover every day. Rules are compared trimmed and lowercased.
pub proof fn lemma_single_day_rule(days: Seq<String>, w: u32)
    requires
        days.len() == 1,
        w <= 6,
    ensures
        normalized(days[0]@) == "weekdays"@ || normalized(days[0]@) == "workdays"@ ==> (days_cover(days, w) <==> 1
            <= w <= 5),
        normalized(days[0]@) == "weekends"@ ==> (days_cover(days, w) <==> (w == 0 || w == 6)),
        normalized(days[0]@) == "*"@ || normalized(days[0]@) == "all"@ || normalized(days[0]@) == "daily"@
            ==> days_cover(days, w),
{
    lemma_day_words_distinct();
    if days_cover(days, w) {
        let i = choose|i: int| 0 <= i < days.len() && day_rule_covers(normalized(days[i]@), w);
        assert(i == 0);
    }
    if normalized(days[0]@) == "*"@ || normalized(days[0]@) == "all"@ || normalized(days[0]@) == "daily"@ {
        assert(day_rule_covers(normalized(days[0]@), w));
    }
    if (normalized(days[0]@) == "weekdays"@ || normalized(days[0]@) == "workdays"@) && 1 <= w <= 5 {
        assert(day_rule_covers(normalized(days[0]@), w));
    }
    if normalized(days[0]@) == "weekends"@ && (w == 0 || w == 6) {
        assert(day_rule_covers(normalized(days[0]@), w));
    }
}

proof fn lemma_day_names_known()
    ensures
        day_number("sun"@) == Some(0u32) && day_number("sunday"@) == Some(0u32),
        day_number("mon"@) == Some(1u32) && day_number("monday"@) == Some(1u32),
        day_number("tue"@) == Some(2u32) && day_number("tuesday"@) == Some(2u32),
        day_number("wed"@) == Some(3u32) && day_number("wednesday"@) == Some(3u32),
        day_number("thu"@) == Some(4u32) && day_number("thursday"@) == Some(4u32),
        day_number("fri"@) == Some(5u32) && day_number("friday"@) == Some(5u32),
        day_number("sat"@) == Some(6u32) && day_number("saturday"@) == Some(6u32),
        forall|d: Seq<char>| #[trigger] day_number(d) is Some ==> d != "*"@ && d != "all"@ && d != "daily"@ && d
            != "weekdays"@ && d != "workdays"@ && d != "weekends"@,
{
    lemma_day_words_distinct();
    reveal_strlit("*");
    reveal_strlit("all");
    reveal_strlit("daily");
    reveal_strlit("sun");
    reveal_strlit("sunday");
    reveal_strlit("mon");
    reveal_strlit("monday");
    reveal_strlit("tue");
    reveal_strlit("tuesday");
    reveal_strlit("wed");
    reveal_strlit("wednesday");
    reveal_strlit("thu");
    reveal_strlit("thursday");
    reveal_strlit("fri");
    reveal_strlit("friday");
    reveal_strlit("sat");
    reveal_strlit("saturday");
    assert("*"@.len() == 1 && "all"@.len() == 3 && "daily"@.len() == 5);
    assert("sun"@.len() == 3 && "mon"@.len() == 3 && "tue"@.len() == 3 && "wed"@.len() == 3);
    assert("thu"@.len() == 3 && "fri"@.len() == 3 && "sat"@.len() == 3);
    assert("sunday"@.len() == 6 && "monday"@.len() == 6 && "friday"@.len() == 6);
    assert("tuesday"@.len() == 7 && "wednesday"@.len() == 9 && "thursday"@.len() == 8 && "saturday"@.len() == 8);
    assert("sun"@[0] != "mon"@[0] && "sun"@[0] != "tue"@[0] && "sun"@[0] != "wed"@[0] && "sun"@[0] != "thu"@[0]
        && "sun"@[0] != "fri"@[0] && "sun"@[1] != "sat"@[1] && "sun"@[0] != "all"@[0]);
    assert("mon"@[0] != "tue"@[0] && "mon"@[0] != "wed"@[0] && "mon"@[0] != "thu"@[0] && "mon"@[0] != "fri"@[0]
        && "mon"@[0] != "sat"@[0] && "mon"@[0] != "all"@[0]);
    assert("tue"@[0] != "wed"@[0] && "tue"@[1] != "thu"@[1] && "tue"@[0] != "fri"@[0] && "tue"@[0] != "sat"@[0]
        && "tue"@[0] != "all"@[0]);
    assert("wed"@[0] != "thu"@[0] && "wed"@[0] != "fri"@[0] && "wed"@[0] != "sat"@[0] && "wed"@[0] != "all"@[0]);
    assert("thu"@[0] != "fri"@[0] && "thu"@[0] != "sat"@[0] && "thu"@[0] != "all"@[0]);
    assert("fri"@[0] != "sat"@[0] && "fri"@[0] != "all"@[0] && "sat"@[0] != "all"@[0]);
    assert("sunday"@[0] != "monday"@[0] && "sunday"@[0] != "friday"@[0] && "monday"@[0] != "friday"@[0]);
    assert("thursday"@[0] != "saturday"@[0]);
}

/// A day list made of one day name (three letters or in full, any letter
/// case, surrounding whitespace allowed) covers that day of the week only.
pub proof fn lemma_single_day_name(days: Seq<String>, w: u32)
    requires
        days.len() == 1,
        w <= 6,
    ensures
        normalized(days[0]@) == "sun"@ || normalized(days[0]@) == "sunday"@ ==> (days_cover(days, w) <==> w == 0),
        normalized(days[0]@) == "mon"@ || normalized(days[0]@) == "monday"@ ==> (days_cover(days, w) <==> w == 1),
        normalized(days[0]@) == "tue"@ || normalized(days[0]@) == "tuesday"@ ==> (days_cover(days, w) <==> w == 2),
        normalized(days[0]@) == "wed"@ || normalized(days[0]@) == "wednesday"@ ==> (days_cover(days, w) <==> w
            == 3),
        normalized(days[0]@) == "thu"@ || normalized(days[0]@) == "thursday"@ ==> (days_cover(days, w) <==> w
            == 4),
        normalized(days[0]@) == "fri"@ || normalized(days[0]@) == "friday"@ ==> (days_cover(days, w) <==> w == 5),
        normalized(days[0]@) == "sat"@ || normalized(days[0]@) == "saturday"@ ==> (days_cover(days, w) <==> w
            == 6),
{
    lemma_day_names_known();
    let d = normalized(days[0]@);
    if days_cover(days, w) {
        let i = choose|i: int| 0 <= i < days.len() && day_rule_covers(normalized(days[i]@), w);
        assert(i == 0);
    }
    if day_number(d) is Some {
        assert(d != "*"@ && d != "all"@ && d != "daily"@ && d != "weekdays"@ && d != "workdays"@ && d != "weekends"@);
        if day_number(d) == Some(w) {
            assert(day_rule_covers(d, w));
        }
    }
}

fn day_rule_covers_exec(d: &str, w: u32) -> (r: bool)
    ensures
        r == day_rule_covers(d@, w),
{
    if str_eq(d, "*") || str_eq(d, "all") || str_eq(d, "daily") {
        return true;
    }
    if (str_eq(d, "weekdays") || str_eq(d, "workdays")) && 1 <= w && w <= 5 {
        return true;
    }
    if str_eq(d, "weekends") && (w == 0 || w == 6) {
        return true;
    }
    let target: Option<u32> = if str_eq(d, "sun") || str_eq(d, "sunday") {
        Some(0)
    } else if str_eq(d, "mon") || str_eq(d, "monday") {
        Some(1)
    } else if str_eq(d, "tue") || str_eq(d, "tuesday") {
        Some(2)
    } else if str_eq(d, "wed") || str_eq(d, "wednesday") {
        Some(3)
    } else if str_eq(d, "thu") || str_eq(d, "thursday") {
        Some(4)
    } else if str_eq(d, "fri") || str_eq(d, "friday") {
        Some(5)
    } else if str_eq(d, "sat") || str_eq(d, "saturday") {
        Some(6)
    } else {
        None
    };
    match target {
        Some(t) => t == w,
        None => false,
    }
}

/// Whether the day rules cover weekday `wday` (0 = Sunday .. 6 = Saturday).
/// Each rule is trimmed and lowercased; `*`, `all`, `daily`, `weekdays`,
/// `workdays`, `weekends` and day names (short or long) are understood.
pub fn matches_weekday(wday: u32, rule_days: &[String]) -> (r: bool)
    ensures
        r == days_cover(rule_days@, wday),
{
    if rule_days.len() == 0 {
        return true;
    }
    let mut i: usize = 0;
    while i < rule_days.len()
        invariant
            i <= rule_days@.len(),
            forall|j: int| 0 <= j < i ==> !day_rule_covers(normalized(rule_days@[j]@), wday),
        decreases rule_days.len() - i,
    {
        let clean = to_lower(trim_str(rule_days[i].as_str()));
        if day_rule_covers_exec(clean.as_str(), wday) {
            return true;
        }
        i = i + 1;
    }
    false
}

/// The local wall-clock time and weekday (0 = Sunday .. 6 = Saturday).
#[derive(Debug, Clone, Copy, PartialEq, Eq)]
pub struct LocalTime {
    pub hour: u32,
    pub minute: u32,
    pub weekday: u32,
}

impl LocalTime {
    /// The English name of the weekday, or `Unknown` outside 0..=6.
    pub fn weekday_name(&self) -> (r: &'static str)
        ensures
            r@ == if self.weekday == 0 {
                "Sunday"@
            } else if self.weekday == 1 {
                "Monday"@
            } else if self.weekday == 2 {
                "Tuesday"@
            } else if self.weekday == 3 {
                "Wednesday"@
            } else if self.weekday == 4 {
                "Thursday"@
            } else if self.weekday == 5 {
                "Friday"@
            } else if self.weekday == 6 {
                "Saturday"@
            } else {
                "Unknown"@
            },
    {
        match self.weekday {
            0 => "Sunday",
            1 => "Monday",
            2 => "Tuesday",
            3 => "Wednesday",
            4 => "Thursday",
            5 => "Friday",
            6 => "Saturday",
            _ => "Unknown",
        }
    }
}

/// The battery's state as the power-supply interface reports it.
#[derive(Debug, Clone)]
pub struct BatteryInfo {
    pub capacity_percent: Option<u32>,
    pub status: String,
    pub is_discharging: bool,
    pub on_ac_power: bool,
}

/// One entry of the power-supply class: its name and the contents of its
/// `type`, `online`, `scope`, `capacity` and `status` files (`None` where a
/// file could not be read).
#[derive(Debug)]
pub struct PowerSupplyEntry {
    pub name: String,
    pub kind: Option<String>,
    pub online: Option<String>,
    pub scope: Option<String>,
    pub capacity: Option<String>,
    pub status: Option<String>,
}

/// The view of the battery state: capacity, status, discharging, on AC.
pub open spec fn battery_view(b: BatteryInfo) -> (Option<u32>, Seq<char>, bool, bool) {
    (b.capacity_percent, b.status@, b.is_discharging, b.on_ac_power)
}

/// The contents of a file read as text, trimmed; empty when unreadable.
pub open spec fn trimmed_or_empty(o: Option<String>) -> Seq<char> {
    match o {
        Some(s) => trimmed(s@),
        None => Seq::empty(),
    }
}

/// The battery state before any entry is read: unknown, on battery.
pub open spec fn no_battery() -> (Option<u32>, Seq<char>, bool, bool) {
    (None, "Unknown"@, false, false)
}

/// One power-supply entry taken into account. A mains adapter (type
/// `Mains`, or a name starting `AC`) that is online means AC power. A
/// battery (type `Battery`, or a name starting `BAT`) that is not a
/// peripheral's (scope `Device`, or a name starting `hid`) gives the
/// capacity and status, when no capacity is known yet or its name starts
/// `BAT`; the status is discharging when it reads `Discharging`. Words are
/// compared ignoring ASCII case.
pub open spec fn battery_step(b: (Option<u32>, Seq<char>, bool, bool), e: PowerSupplyEntry) -> (
    Option<u32>,
    Seq<char>,
    bool,
    bool,
) {
    let name = e.name@;
    let kind = trimmed_or_empty(e.kind);
    let mains = eq_ignore_ascii_case(kind, "Mains"@) || is_prefix("AC"@, name);
    let on_ac = b.3 || (mains && e.online is Some && trimmed(e.online->0@) == "1"@);
    let scope = trimmed_or_empty(e.scope);
    let peripheral = eq_ignore_ascii_case(scope, "Device"@) || is_prefix("hid"@, name);
    if (eq_ignore_ascii_case(kind, "Battery"@) || is_prefix("BAT"@, name)) && !peripheral && (b.0 is None
        || is_prefix("BAT"@, name)) {
        let cap = match e.capacity {
            Some(c) => match parse_unsigned(trimmed(c@), 10, 0xffff_ffff) {
                Some(v) => Some(v as u32),
                None => b.0,
            },
            None => b.0,
        };
        match e.status {
            Some(st) => (cap, trimmed(st@), eq_ignore_ascii_case(trimmed(st@), "Discharging"@), on_ac),
            None => (cap, b.1, b.2, on_ac),
        }
    } else {
        (b.0, b.1, b.2, on_ac)
    }
}

/// The battery state after the first `n` entries.
pub open spec fn battery_scan(es: Seq<PowerSupplyEntry>, n: int) -> (Option<u32>, Seq<char>, bool, bool)
    decreases n,
{
    if n <= 0 {
        no_battery()
    } else {
        battery_step(battery_scan(es, n - 1), es[n - 1])
    }
}

impl BatteryInfo {
    /// The state before any power-supply entry is read.
    pub fn unknown() -> (r: Self)
        ensures
            battery_view(r) == no_battery(),
    {
        BatteryInfo { capacity_percent: None, status: owned("Unknown"), is_discharging: false, on_ac_power: false }
    }

    /// Takes one power-supply entry into account (see `battery_step`).
    pub fn add_entry(&mut self, e: &PowerSupplyEntry)
        ensures
            battery_view(*final(self)) == battery_step(battery_view(*old(self)), *e),
    {
        let name = e.name.as_str();
        let kind: &str = match &e.kind {
            Some(k) => trim_str(k.as_str()),
            None => "",
        };
        let scope: &str = match &e.scope {
            Some(k) => trim_str(k.as_str()),
            None => "",
        };
        proof {
            reveal_strlit("");
        }
        let mains = str_eq_ignore_ascii_case(kind, "Mains") || str_starts_with(name, "AC");
        if mains {
            match &e.online {
                Some(o) => if str_eq(trim_str(o.as_str()), "1") {
                    self.on_ac_power = true;
                },
                None => {},
            }
        }
        let peripheral = str_eq_ignore_ascii_case(scope, "Device") || str_starts_with(name, "hid");
        let primary = str_starts_with(name, "BAT");
        if (str_eq_ignore_ascii_case(kind, "Battery") || primary) && !peripheral && (self.capacity_percent.is_none()
            || primary) {
            match &e.capacity {
                Some(c) => match parse_u32(trim_str(c.as_str())) {
                    Some(v) => {
                        self.capacity_percent = Some(v);
                    },
                    None => {},
                },
                None => {},
            }
            match &e.status {
                Some(st) => {
                    let clean = trim_str(st.as_str());
                    self.is_discharging = str_eq_ignore_ascii_case(clean, "Discharging");
                    self.status = owned(clean);
                },
                None => {},
            }
        }
    }
}

/// The battery state from the power-supply entries (see `battery_step`).
pub fn battery_status_from(entries: &Vec<PowerSupplyEntry>) -> (r: BatteryInfo)
    ensures
        battery_view(r) == battery_scan(entries@, entries@.len() as int),
{
    let mut b = BatteryInfo::unknown();
    let mut i: usize = 0;
    while i < entries.len()
        invariant
            i <= entries@.len(),
            battery_view(b) == battery_scan(entries@, i as int),
        decreases entries.len() - i,
    {
        b.add_entry(&entries[i]);
        i = i + 1;
    }
    b
}

/// What the schedule asks for at a given moment.
#[derive(Debug, Clone, PartialEq, Eq)]
pub enum ScheduleDecision {
    BatteryEmergency {
        rule_name: String,
        target_profile: String,
        battery_percent: u32,
        cpu_epp: Option<String>,
        disable_bluetooth: bool,
    },
    ScheduledShift { rule_name: String, target_profile: String, window: String },
}

/// The battery fallback applies: enabled, a known capacity at or below the
/// threshold, and discharging.
pub open spec fn battery_emergency_applies(cfg: CircadianConfig, battery: BatteryInfo) -> bool {
    cfg.battery_emergency.enabled && battery.capacity_percent is Some && battery.is_discharging
        && battery.capacity_percent->0 <= cfg.battery_emergency.threshold_percent
}

/// Minutes since midnight of an (hour, minute) pair.
pub open spec fn clock_minutes(hm: (nat, nat)) -> int {
    let (h, m) = hm;
    (h * 60 + m) as int
}

/// Window `w` is active at `now`: its days cover today and both of its times
/// parse with `now` between them.
pub open spec fn window_active(w: ScheduleWindow, now: LocalTime) -> bool {
    days_cover(w.days@, now.weekday) && parse_time(w.start_time@) is Some && parse_time(w.end_time@) is Some
        && in_window(
        now.hour * 60 + now.minute,
        clock_minutes(parse_time(w.start_time@)->0),
        clock_minutes(parse_time(w.end_time@)->0),
    )
}

/// The first active window among the first `n`.
pub open spec fn first_active_window(ws: Seq<ScheduleWindow>, now: LocalTime, n: int) -> Option<int>
    decreases n,
{
    if n <= 0 {
        None
    } else {
        match first_active_window(ws, now, n - 1) {
            Some(i) => Some(i),
            None => if window_active(ws[n - 1], now) {
                Some(n - 1)
            } else {
                None
            },
        }
    }
}

proof fn lemma_first_active_stable(ws: Seq<ScheduleWindow>, now: LocalTime, n: int, m: int)
    requires
        0 <= n <= m,
        first_active_window(ws, now, n) is Some,
    ensures
        first_active_window(ws, now, m) == first_active_window(ws, now, n),
    decreases m - n,
{
    if n < m {
        lemma_first_active_stable(ws, now, n, m - 1);
    }
}

fn clone_opt(s: &Option<String>) -> (r: Option<String>)
    ensures
        r is Some == s is Some,
        r is Some ==> r->0@ == s->0@,
{
    match s {
        Some(x) => Some(owned(x.as_str())),
        None => None,
    }
}

/// What the schedule asks for now. When disabled, nothing. Otherwise the
/// battery fallback comes first (enabled, capacity known, discharging, at or
/// below the threshold); then the first window whose days cover today and
/// whose parsed times contain the current time; otherwise nothing.
#[verifier::loop_isolation(false)]
pub fn evaluate_schedule(cfg: &CircadianConfig, now: &LocalTime, battery: &BatteryInfo) -> (r: Option<
    ScheduleDecision,
>)
    requires
        now.hour * 60 + now.minute <= u32::MAX,
    ensures
        !cfg.enabled ==> r is None,
        cfg.enabled && battery_emergency_applies(*cfg, *battery) ==> match r {
            Some(ScheduleDecision::BatteryEmergency {
                rule_name,
                target_profile,
                battery_percent,
                cpu_epp,
                disable_bluetooth,
            }) => {
                &&& rule_name@ == "Battery Critical Fallback"@
                &&& target_profile@ == cfg.battery_emergency.target_profile@
                &&& battery_percent == battery.capacity_percent->0
                &&& (cpu_epp is Some == cfg.battery_emergency.force_cpu_epp is Some)
                &&& (cpu_epp is Some ==> cpu_epp->0@ == cfg.battery_emergency.force_cpu_epp->0@)
                &&& disable_bluetooth == cfg.battery_emergency.disable_bluetooth
            },
            _ => false,
        },
        cfg.enabled && !battery_emergency_applies(*cfg, *battery) ==> match first_active_window(
            cfg.schedules@,
            *now,
            cfg.schedules@.len() as int,
        ) {
            Some(i) => match r {
                Some(ScheduleDecision::ScheduledShift { rule_name, target_profile, window }) => {
                    &&& rule_name@ == cfg.schedules@[i].name@
                    &&& target_profile@ == cfg.schedules@[i].target_profile@
                    &&& window@ == cfg.schedules@[i].start_time@ + "-"@ + cfg.schedules@[i].end_time@
                },
                _ => false,
            },
            None => r is None,
        },
{
    if !cfg.enabled {
        return None;
    }
    if cfg.battery_emergency.enabled {
        if let Some(cap) = battery.capacity_percent {
            if battery.is_discharging && cap <= cfg.battery_emergency.threshold_percent {
                return Some(
                    ScheduleDecision::BatteryEmergency {
                        rule_name: owned("Battery Critical Fallback"),
                        target_profile: owned(cfg.battery_emergency.target_profile.as_str()),
                        battery_percent: cap,
                        cpu_epp: clone_opt(&cfg.battery_emergency.force_cpu_epp),
                        disable_bluetooth: cfg.battery_emergency.disable_bluetooth,
                    },
                );
            }
        }
    }
    let tod = TimeOfDay { hour: now.hour, minute: now.minute };
    let n = cfg.schedules.len();
    let mut i: usize = 0;
    while i < n
        invariant
            n == cfg.schedules@.len(),
            i <= n,
            first_active_window(cfg.schedules@, *now, i as int) is None,
        decreases n - i,
    {
        let rule = &cfg.schedules[i];
        if matches_weekday(now.weekday, rule.days.as_slice()) {
            if let Some(start) = TimeOfDay::parse(rule.start_time.as_str()) {
                if let Some(end) = TimeOfDay::parse(rule.end_time.as_str()) {
                    if is_time_in_range(tod, start, end) {
                        proof {
                            assert(window_active(cfg.schedules@[i as int], *now));
                            assert(first_active_window(cfg.schedules@, *now, i + 1) == Some(i as int));
                            lemma_first_active_stable(cfg.schedules@, *now, i + 1, n as int);
                        }
                        return Some(
                            ScheduleDecision::ScheduledShift {
                                rule_name: owned(rule.name.as_str()),
                                target_profile: owned(rule.target_profile.as_str()),
                                window: join3(rule.start_time.as_str(), "-", rule.end_time.as_str()),
                            },
                        );
                    }
                }
            }
        }
        i = i + 1;
    }
    None
}

} // verus!
