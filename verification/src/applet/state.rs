//! What the applet knows of the active profile.
use vstd::prelude::*;
use crate::profile::Profile;

verus! {

/// The revision after one change: one more, wrapping at `u32::MAX`.
pub open spec fn next_revision(r: u32) -> u32 {
    if r == u32::MAX {
        0
    } else {
        (r + 1) as u32
    }
}

/// The applet's view of the daemon: the active profile and the revision of its menu.
#[derive(Debug, Clone)]
pub struct AppState {
    pub active_profile: Profile,
    pub menu_revision: u32,
    pub cached_status: Option<String>,
}

impl AppState {
    /// The state after showing `p`.
    pub open spec fn after_set(self, p: Profile) -> AppState {
        if self.active_profile != p {
            AppState {
                active_profile: p,
                menu_revision: next_revision(self.menu_revision),
                cached_status: self.cached_status,
            }
        } else {
            self
        }
    }

    /// A state showing `initial_profile`, at menu revision 1, with no cached status.
    pub fn new(initial_profile: Profile) -> (r: Self)
        ensures
            r.active_profile == initial_profile,
            r.menu_revision == 1,
            r.cached_status is None,
    {
        AppState { active_profile: initial_profile, menu_revision: 1, cached_status: None }
    }

    /// Shows `profile`. Returns whether it differs from the one shown; only
    /// then is the menu revision advanced (by one, wrapping).
    pub fn set_profile(&mut self, profile: Profile) -> (changed: bool)
        ensures
            changed == (old(self).active_profile != profile),
            *final(self) == old(self).after_set(profile),
    {
        if self.active_profile != profile {
            self.active_profile = profile;
            self.menu_revision = self.menu_revision.wrapping_add(1);
            true
        } else {
            false
        }
    }
}

/// Showing a profile twice: the second time changes nothing and reports no change,
/// and after any showing the shown profile is the one asked for.
pub proof fn lemma_set_profile_idempotent(s: AppState, p: Profile)
    ensures
        s.after_set(p).active_profile == p,
        s.after_set(p).after_set(p) == s.after_set(p),
        !(s.after_set(p).active_profile != p),
{
}

} // verus!
