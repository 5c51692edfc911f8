//! The four built-in security postures and their names.
use vstd::prelude::*;
use crate::text::{trim_str, to_lower, str_eq, join3, lowercased, trimmed};

verus! {

/// A built-in security posture.
#[derive(Debug, Clone, Copy, PartialEq, Eq, Structural)]
pub enum Profile {
    Home,
    Work,
    Dev,
    Travel,
}

/// The profile that a normalized (lowercased, trimmed) name selects:
/// `home`, `default` and the empty name select Home; `secure` is an alias of Travel.
pub open spec fn profile_named(t: Seq<char>) -> Option<Profile> {
    if t == "home"@ || t == "default"@ || t.len() == 0 {
        Some(Profile::Home)
    } else if t == "work"@ {
        Some(Profile::Work)
    } else if t == "dev"@ {
        Some(Profile::Dev)
    } else if t == "travel"@ || t == "secure"@ {
        Some(Profile::Travel)
    } else {
        None
    }
}

/// The text that `Profile::parse` compares: the input lowercased, then trimmed.
pub open spec fn profile_key(s: Seq<char>) -> Seq<char> {
    trimmed(lowercased(s))
}

/// The message for a name that selects no profile.
pub open spec fn unknown_profile_message(key: Seq<char>) -> Seq<char> {
    "Unknown profile: '"@ + key + "'. Expected home, work, dev, or travel."@
}

impl Profile {
    /// The profile's identifier.
    pub open spec fn spec_id(self) -> Seq<char> {
        match self {
            Profile::Home => "home"@,
            Profile::Work => "work"@,
            Profile::Dev => "dev"@,
            Profile::Travel => "travel"@,
        }
    }

    /// The successor in the cycle Home, Work, Dev, Travel, Home.
    pub open spec fn spec_next(self) -> Profile {
        match self {
            Profile::Home => Profile::Work,
            Profile::Work => Profile::Dev,
            Profile::Dev => Profile::Travel,
            Profile::Travel => Profile::Home,
        }
    }

    /// All four profiles, in cycle order.
    pub fn all() -> (r: [Profile; 4])
        ensures
            r@ == seq![Profile::Home, Profile::Work, Profile::Dev, Profile::Travel],
    {
        let r = [Profile::Home, Profile::Work, Profile::Dev, Profile::Travel];
        assert(r@ =~= seq![Profile::Home, Profile::Work, Profile::Dev, Profile::Travel]);
        r
    }

    /// The profile's identifier (`home`, `work`, `dev`, `travel`).
    pub fn as_str(&self) -> (r: &'static str)
        ensures
            r@ == self.spec_id(),
    {
        match self {
            Profile::Home => "home",
            Profile::Work => "work",
            Profile::Dev => "dev",
            Profile::Travel => "travel",
        }
    }

    /// The themed symbolic icon.
    pub open spec fn icon_text(self) -> Seq<char> {
        match self {
            Profile::Home => "postureflow-home-symbolic"@,
            Profile::Work => "postureflow-work-symbolic"@,
            Profile::Dev => "postureflow-dev-symbolic"@,
            Profile::Travel => "postureflow-travel-symbolic"@,
        }
    }

    /// The human-readable name.
    pub open spec fn display_text(self) -> Seq<char> {
        match self {
            Profile::Home => "Home / Streaming / Gaming"@,
            Profile::Work => "Work / Office / Corporate VPN"@,
            Profile::Dev => "Developer / Coding Mode"@,
            Profile::Travel => "Travel / Public Wi-Fi Lockdown"@,
        }
    }

    /// The human-readable name.
    pub fn display_name(&self) -> (r: &'static str)
        ensures
            r@ == self.display_text(),
    {
        match self {
            Profile::Home => "Home / Streaming / Gaming",
            Profile::Work => "Work / Office / Corporate VPN",
            Profile::Dev => "Developer / Coding Mode",
            Profile::Travel => "Travel / Public Wi-Fi Lockdown",
        }
    }

    /// The themed symbolic icon.
    pub fn icon_name(&self) -> (r: &'static str)
        ensures
            r@ == self.icon_text(),
    {
        match self {
            Profile::Home => "postureflow-home-symbolic",
            Profile::Work => "postureflow-work-symbolic",
            Profile::Dev => "postureflow-dev-symbolic",
            Profile::Travel => "postureflow-travel-symbolic",
        }
    }

    /// The stock icon used where the themed one is missing.
    pub fn fallback_icon_name(&self) -> (r: &'static str)
        ensures
            r@ == match self {
                Profile::Home => "user-home-symbolic"@,
                Profile::Work => "applications-office-symbolic"@,
                Profile::Dev => "utilities-terminal-symbolic"@,
                Profile::Travel => "security-high-symbolic"@,
            },
    {
        match self {
            Profile::Home => "user-home-symbolic",
            Profile::Work => "applications-office-symbolic",
            Profile::Dev => "utilities-terminal-symbolic",
            Profile::Travel => "security-high-symbolic",
        }
    }

    /// The next profile in the cycle Home, Work, Dev, Travel, Home.
    pub fn next(&self) -> (r: Profile)
        ensures
            r == self.spec_next(),
    {
        match self {
            Profile::Home => Profile::Work,
            Profile::Work => Profile::Dev,
            Profile::Dev => Profile::Travel,
            Profile::Travel => Profile::Home,
        }
    }

    /// Reads a profile name: the text is lowercased and trimmed, then
    /// `home`/`default`/empty, `work`, `dev`, `travel`/`secure` are accepted.
    pub fn parse(s: &str) -> (r: Result<Profile, String>)
        ensures
            match r {
                Ok(p) => profile_named(profile_key(s@)) == Some(p),
                Err(e) => profile_named(profile_key(s@)) is None
                    && e@ == unknown_profile_message(profile_key(s@)),
            },
    {
        let lowered = to_lower(s);
        let key = trim_str(lowered.as_str());
        if str_eq(key, "home") || str_eq(key, "default") || key.is_empty() {
            Ok(Profile::Home)
        } else if str_eq(key, "work") {
            Ok(Profile::Work)
        } else if str_eq(key, "dev") {
            Ok(Profile::Dev)
        } else if str_eq(key, "travel") || str_eq(key, "secure") {
            Ok(Profile::Travel)
        } else {
            Err(join3("Unknown profile: '", key, "'. Expected home, work, dev, or travel."))
        }
    }
}

impl core::str::FromStr for Profile {
    type Err = String;

    fn from_str(s: &str) -> (r: Result<Self, Self::Err>)
        ensures
            match r {
                Ok(p) => profile_named(profile_key(s@)) == Some(p),
                Err(e) => profile_named(profile_key(s@)) is None
                    && e@ == unknown_profile_message(profile_key(s@)),
            },
    {
        Profile::parse(s)
    }
}

/// Four steps of `next` lead back to the starting profile, and the three
/// intermediate profiles are the other three.
pub proof fn lemma_next_cycles(p: Profile)
    ensures
        p.spec_next().spec_next().spec_next().spec_next() == p,
        p.spec_next() != p,
        p.spec_next().spec_next() != p,
        p.spec_next().spec_next().spec_next() != p,
{
}

/// `next` never maps two profiles to the same one.
pub proof fn lemma_next_injective(p: Profile, q: Profile)
    requires
        p.spec_next() == q.spec_next(),
    ensures
        p == q,
{
}

/// Distinct profiles have distinct identifiers.
pub proof fn lemma_id_injective(p: Profile, q: Profile)
    requires
        p != q,
    ensures
        p.spec_id() != q.spec_id(),
{
    reveal_strlit("home");
    reveal_strlit("work");
    reveal_strlit("dev");
    reveal_strlit("travel");
    assert("home"@[0] != "work"@[0]);
    assert("home"@[0] != "dev"@[0]);
    assert("home"@[0] != "travel"@[0]);
    assert("work"@[0] != "dev"@[0]);
    assert("work"@[0] != "travel"@[0]);
    assert("dev"@[0] != "travel"@[0]);
}

/// A name whose normalized form is a profile's identifier selects that profile.
pub proof fn lemma_parse_own_id(p: Profile, s: Seq<char>)
    requires
        profile_key(s) == p.spec_id(),
    ensures
        profile_named(profile_key(s)) == Some(p),
{
    reveal_strlit("home");
    reveal_strlit("work");
    reveal_strlit("dev");
    reveal_strlit("travel");
    reveal_strlit("default");
    reveal_strlit("secure");
    assert("work"@[0] != "home"@[0]);
    assert("work"@[0] != "default"@[0]);
    assert("dev"@ != "home"@);
    assert("dev"@.len() != "default"@.len());
    assert("dev"@ != "work"@);
    assert("travel"@ != "home"@);
    assert("travel"@[0] != "default"@[0]);
    assert("travel"@ != "work"@);
    assert("travel"@ != "dev"@);
}

} // verus!
