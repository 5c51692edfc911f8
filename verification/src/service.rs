//! The decisions of the daemon's D-Bus service: which callers must be
//! authorized, what an authorization answer means, and the values its
//! methods report.
use vstd::prelude::*;
use crate::autoflow::ActiveNetworkInfo;
use crate::config::schema::ProfileConfig;
use crate::triggers::MatchedTrigger;
use crate::text::{owned, str_eq, to_lower, trim_str, lowercased, trimmed, str_contains, has_substring, join2};
use vstd::string::StrSliceExecFns;

verus! {

/// The service's bus name and interface.
pub const DBUS_INTERFACE: &'static str = "io.github.mzia.PostureFlow";

/// The service's object path.
pub const DBUS_PATH: &'static str = "/io/github/mzia/PostureFlow";

/// The PolicyKit action that guards every change of posture.
pub const POLKIT_ACTION_ID: &'static str = "io.github.mzia.PostureFlow.set-profile";

/// The id a `SetProfile` request names: trimmed, then lowercased.
pub fn requested_profile_id(profile: &str) -> (r: String)
    ensures
        r@ == lowercased(trimmed(profile@)),
{
    to_lower(trim_str(profile))
}

/// Whether a caller must be authorized: only a caller with a known, non-empty bus name is asked.
pub fn sender_requires_auth(sender: Option<&str>) -> (r: bool)
    ensures
        r == match sender {
            Some(s) => s@.len() > 0,
            None => false,
        },
{
    match sender {
        Some(s) => s.unicode_len() > 0,
        None => false,
    }
}

/// Whether a caller's user must be authorized: root never is.
pub fn uid_requires_auth(uid: u32) -> (r: bool)
    ensures
        r == (uid != 0),
{
    uid != 0
}

/// Why a request was refused.
#[derive(Debug)]
pub enum AuthError {
    /// PolicyKit could not be asked.
    Failed(String),
    /// PolicyKit said no.
    AccessDenied(String),
}

/// The refusal when PolicyKit denies a request.
pub open spec fn denied_message() -> Seq<char> {
    "Polkit authorization required to set profile or modify system posture"@
}

/// What PolicyKit's answer means: an authorization allows; a denial refuses;
/// an error allows when no PolicyKit service is on the bus (test setups)
/// and fails otherwise.
pub fn polkit_verdict(answer: Result<bool, &str>) -> (r: Result<(), AuthError>)
    ensures
        match answer {
            Ok(true) => r is Ok,
            Ok(false) => r matches Err(AuthError::AccessDenied(m)) && m@ == denied_message(),
            Err(e) => if has_substring(e@, "ServiceUnknown"@) || has_substring(e@, "NameHasNoOwner"@) {
                r is Ok
            } else {
                r matches Err(AuthError::Failed(m)) && m@ == "PolicyKit error: "@ + e@
            },
        },
{
    match answer {
        Ok(true) => Ok(()),
        Ok(false) => Err(
            AuthError::AccessDenied(owned("Polkit authorization required to set profile or modify system posture")),
        ),
        Err(e) => if str_contains(e, "ServiceUnknown") || str_contains(e, "NameHasNoOwner") {
            Ok(())
        } else {
            Err(AuthError::Failed(join2("PolicyKit error: ", e)))
        },
    }
}

/// Whether a profile is the active one: its id is the active id, or it is
/// `home` while no profile was chosen (`default`).
pub open spec fn is_listed_active(id: Seq<char>, active: Seq<char>) -> bool {
    id == active || (active == "default"@ && id == "home"@)
}

/// A profile as `ListProfiles` reports it: id, name, description, icon, and
/// whether it is active.
pub type ProfileEntry = (String, String, String, String, bool);

/// The view of an entry.
pub open spec fn entry_view(e: ProfileEntry) -> (Seq<char>, Seq<char>, Seq<char>, Seq<char>, bool) {
    (e.0@, e.1@, e.2@, e.3@, e.4)
}

/// The entry of a profile.
pub open spec fn listed(p: ProfileConfig, active: Seq<char>) -> (Seq<char>, Seq<char>, Seq<char>, Seq<char>, bool) {
    (
        p.profile.id@,
        p.profile.name@,
        p.profile.description@,
        p.profile.icon@,
        is_listed_active(p.profile.id@, active),
    )
}

/// The `ListProfiles` answer: every profile, in order, with whether it is active.
pub fn profile_listing(profiles: &Vec<ProfileConfig>, active: &str) -> (r: Vec<ProfileEntry>)
    ensures
        r@.len() == profiles@.len(),
        forall|i: int| 0 <= i < profiles@.len() ==> entry_view(#[trigger] r@[i]) == listed(profiles@[i], active@),
{
    let is_default = str_eq(active, "default");
    let mut r: Vec<ProfileEntry> = Vec::new();
    let mut i: usize = 0;
    while i < profiles.len()
        invariant
            i <= profiles@.len(),
            r@.len() == i,
            is_default == (active@ == "default"@),
            forall|j: int| 0 <= j < i ==> entry_view(#[trigger] r@[j]) == listed(profiles@[j], active@),
        decreases profiles.len() - i,
    {
        let p = &profiles[i].profile;
        let is_active = str_eq(p.id.as_str(), active) || (is_default && str_eq(p.id.as_str(), "home"));
        r.push(
            (
                owned(p.id.as_str()),
                owned(p.name.as_str()),
                owned(p.description.as_str()),
                owned(p.icon.as_str()),
                is_active,
            ),
        );
        i = i + 1;
    }
    r
}

/// The `GetAutoFlowStatus` answer: whether Auto-Flow is on, the network (its
/// Wi-Fi name, else its connection type), and the profile Auto-Flow chooses
/// (`none` when it chooses none).
pub fn auto_flow_status(enabled: bool, net: &ActiveNetworkInfo, matched: Option<&str>) -> (r: (bool, String, String))
    ensures
        r.0 == enabled,
        r.1@ == match net.current_ssid {
            Some(s) => s@,
            None => net.primary_type@,
        },
        r.2@ == match matched {
            Some(m) => m@,
            None => "none"@,
        },
{
    let desc = match &net.current_ssid {
        Some(s) => owned(s.as_str()),
        None => owned(net.primary_type.as_str()),
    };
    let m = match matched {
        Some(m) => owned(m),
        None => owned("none"),
    };
    (enabled, desc, m)
}

/// The `GetTriggersStatus` answer: whether triggers are on, and the rule that
/// fires (`none` when none does).
pub fn triggers_status(enabled: bool, matched: &Option<MatchedTrigger>) -> (r: (bool, String))
    ensures
        r.0 == enabled,
        r.1@ == match matched {
            Some(m) => m.rule_name@,
            None => "none"@,
        },
{
    match matched {
        Some(m) => (enabled, owned(m.rule_name.as_str())),
        None => (enabled, owned("none")),
    }
}

} // verus!
