//! Posture-aware desktop themes: an accent colour and a wallpaper for each
//! profile, and the settings files that apply them.
use vstd::prelude::*;
use crate::text::{owned, str_eq, join2, join3};

verus! {

/// Where the system-wide theme settings are kept.
pub const SYSTEM_THEME_CONFIG: &'static str = "/etc/postureflow/theme.toml";

/// The look of one profile.
#[derive(Debug, Clone, PartialEq, Eq)]
pub struct ProfileTheme {
    pub display_name: String,
    pub accent_hex: String,
    pub wallpaper_path: String,
}

/// The view of a theme: its name, accent and wallpaper.
pub open spec fn theme_view(t: ProfileTheme) -> (Seq<char>, Seq<char>, Seq<char>) {
    (t.display_name@, t.accent_hex@, t.wallpaper_path@)
}

/// The position of the first key equal to `k`, or -1.
pub open spec fn key_position(keys: Seq<Seq<char>>, k: Seq<char>) -> int
    decreases keys.len(),
{
    if keys.len() == 0 {
        -1
    } else if key_position(keys.drop_last(), k) >= 0 {
        key_position(keys.drop_last(), k)
    } else if keys.last() == k {
        keys.len() - 1
    } else {
        -1
    }
}

proof fn lemma_key_position(keys: Seq<Seq<char>>, k: Seq<char>)
    ensures
        -1 <= key_position(keys, k) < keys.len(),
        key_position(keys, k) >= 0 ==> keys[key_position(keys, k)] == k,
        key_position(keys, k) >= 0 ==> forall|j: int| 0 <= j < key_position(keys, k) ==> keys[j] != k,
        key_position(keys, k) == -1 <==> forall|j: int| 0 <= j < keys.len() ==> keys[j] != k,
    decreases keys.len(),
{
    if keys.len() > 0 {
        lemma_key_position(keys.drop_last(), k);
        let q = keys.drop_last();
        assert forall|j: int| 0 <= j < q.len() implies q[j] == keys[j] by {}
    }
}

/// Profile ids mapped to their themes, each id at most once, in insertion order.
#[derive(Debug, Clone)]
pub struct ThemeTable {
    entries: Vec<(String, ProfileTheme)>,
}

impl ThemeTable {
    /// The profile ids, in order.
    pub closed spec fn keys(self) -> Seq<Seq<char>> {
        self.entries@.map_values(|e: (String, ProfileTheme)| e.0@)
    }

    /// The themes, in the order of their ids.
    pub closed spec fn themes(self) -> Seq<ProfileTheme> {
        self.entries@.map_values(|e: (String, ProfileTheme)| e.1)
    }

    /// No id occurs twice.
    pub open spec fn wf(self) -> bool {
        &&& self.keys().len() == self.themes().len()
        &&& forall|i: int, j: int| 0 <= i < j < self.keys().len() ==> self.keys()[i] != self.keys()[j]
    }

    /// The theme of profile `k`, if there is one.
    pub open spec fn spec_get(self, k: Seq<char>) -> Option<ProfileTheme> {
        let i = key_position(self.keys(), k);
        if i >= 0 {
            Some(self.themes()[i])
        } else {
            None
        }
    }

    /// An empty table.
    pub fn new() -> (r: Self)
        ensures
            r.wf(),
            r.keys().len() == 0,
    {
        let r = ThemeTable { entries: Vec::new() };
        assert(r.keys() =~= Seq::<Seq<char>>::empty());
        assert(r.themes() =~= Seq::<ProfileTheme>::empty());
        r
    }

    /// The number of themes.
    pub fn len(&self) -> (n: usize)
        ensures
            n == self.keys().len(),
    {
        self.entries.len()
    }

    /// The profile id of entry `i`.
    pub fn key_at(&self, i: usize) -> (k: &str)
        requires
            i < self.keys().len(),
        ensures
            k@ == self.keys()[i as int],
    {
        self.entries[i].0.as_str()
    }

    /// The theme of entry `i`.
    pub fn theme_at(&self, i: usize) -> (t: &ProfileTheme)
        requires
            i < self.keys().len(),
        ensures
            *t == self.themes()[i as int],
    {
        &self.entries[i].1
    }

    fn find(&self, k: &str) -> (r: Option<usize>)
        ensures
            match r {
                Some(i) => key_position(self.keys(), k@) == i as int && i < self.entries@.len(),
                None => key_position(self.keys(), k@) == -1,
            },
    {
        proof {
            lemma_key_position(self.keys(), k@);
        }
        let mut i: usize = 0;
        while i < self.entries.len()
            invariant
                i <= self.keys().len(),
                self.keys().len() == self.entries@.len(),
                forall|j: int| 0 <= j < i ==> self.keys()[j] != k@,
                -1 <= key_position(self.keys(), k@) < self.keys().len(),
                key_position(self.keys(), k@) >= 0 ==> self.keys()[key_position(self.keys(), k@)] == k@,
                key_position(self.keys(), k@) >= 0 ==> forall|j: int|
                    0 <= j < key_position(self.keys(), k@) ==> self.keys()[j] != k@,
                key_position(self.keys(), k@) == -1 <==> forall|j: int|
                    0 <= j < self.keys().len() ==> self.keys()[j] != k@,
            decreases self.entries.len() - i,
        {
            if str_eq(self.entries[i].0.as_str(), k) {
                assert(self.keys()[i as int] == k@);
                return Some(i);
            }
            i = i + 1;
        }
        None
    }

    /// The theme of profile `k`, if there is one.
    pub fn get(&self, k: &str) -> (r: Option<&ProfileTheme>)
        ensures
            match r {
                Some(t) => self.spec_get(k@) == Some(*t),
                None => self.spec_get(k@) is None,
            },
    {
        match self.find(k) {
            Some(i) => {
                assert(self.themes()[i as int] == self.entries@[i as int].1);
                Some(&self.entries[i].1)
            },
            None => None,
        }
    }

    /// Whether profile `k` has a theme.
    pub fn contains_key(&self, k: &str) -> (b: bool)
        ensures
            b == (self.spec_get(k@) is Some),
    {
        self.find(k).is_some()
    }

    /// Gives profile `k` the theme `t`: an existing entry keeps its place.
    pub fn insert(&mut self, k: String, t: ProfileTheme)
        requires
            old(self).wf(),
        ensures
            final(self).wf(),
            final(self).spec_get(k@) == Some(t),
            forall|other: Seq<char>| other != k@ ==> #[trigger] final(self).spec_get(other) == old(self).spec_get(other),
    {
        proof {
            lemma_key_position(self.keys(), k@);
        }
        let ghost kv = k@;
        let ghost before = *self;
        match self.find(k.as_str()) {
            Some(i) => {
                self.entries.set(i, (k, t));
                assert(self.keys() =~= before.keys());
                assert(self.themes() =~= before.themes().update(i as int, t));
            },
            None => {
                self.entries.push((k, t));
                assert(self.keys() =~= before.keys().push(kv));
                assert(self.themes() =~= before.themes().push(t));
                assert forall|j: int| 0 <= j < before.keys().len() implies self.keys()[j] != kv by {}
            },
        }
        proof {
            lemma_key_position(self.keys(), kv);
            assert forall|other: Seq<char>| other != kv implies #[trigger] self.spec_get(other) == before.spec_get(
                other,
            ) by {
                lemma_key_position(self.keys(), other);
                lemma_key_position(before.keys(), other);
                let a = key_position(self.keys(), other);
                let b = key_position(before.keys(), other);
                if b >= 0 {
                    assert(self.keys()[b] == other);
                    if a >= 0 && a < b {
                        assert(before.keys()[a] == other);
                    }
                    if a > b || a < 0 {
                        assert(self.keys()[b] == other);
                    }
                } else if a >= 0 {
                    if a < before.keys().len() {
                        assert(before.keys()[a] == other);
                    }
                }
            }
        }
    }
}

/// The theming settings.
#[derive(Debug, Clone)]
pub struct DynamicThemeConfig {
    pub enabled: bool,
    pub apply_accent: bool,
    pub apply_wallpaper: bool,
    pub themes: ThemeTable,
}

/// Theming is on unless configured otherwise.
pub fn default_true() -> (r: bool)
    ensures
        r,
{
    true
}

fn theme(name: &str, accent: &str, wallpaper: &str) -> (t: ProfileTheme)
    ensures
        theme_view(t) == (name@, accent@, wallpaper@),
{
    ProfileTheme { display_name: owned(name), accent_hex: owned(accent), wallpaper_path: owned(wallpaper) }
}

/// The built-in themes of the four built-in profiles.
pub fn default_themes() -> (r: ThemeTable)
    ensures
        r.wf(),
        r.keys() == seq!["home"@, "work"@, "dev"@, "travel"@],
        theme_view(r.spec_get("home"@)->0) == (
            "Warm Amber Sunset"@,
            "#FF8C00FF"@,
            "/usr/share/backgrounds/cosmic/A_stormy_stellar_nursery_esa_379309.jpg"@,
        ),
        theme_view(r.spec_get("work"@)->0) == (
            "Focused Corporate Cyan"@,
            "#48B9C7FF"@,
            "/usr/share/backgrounds/cosmic/COSMIC-logo-Dark.png"@,
        ),
        theme_view(r.spec_get("dev"@)->0) == (
            "Matrix Hacker Emerald"@,
            "#26AC72FF"@,
            "/usr/share/backgrounds/cosmic/COSMIC-Pattern-Dark.png"@,
        ),
        theme_view(r.spec_get("travel"@)->0) == (
            "Stealth Crimson Lockdown"@,
            "#FF5555FF"@,
            "/usr/share/backgrounds/cosmic/orion_nebula_nasa_heic0601a.jpg"@,
        ),
{
    let home = theme(
        "Warm Amber Sunset",
        "#FF8C00FF",
        "/usr/share/backgrounds/cosmic/A_stormy_stellar_nursery_esa_379309.jpg",
    );
    let work = theme("Focused Corporate Cyan", "#48B9C7FF", "/usr/share/backgrounds/cosmic/COSMIC-logo-Dark.png");
    let dev = theme("Matrix Hacker Emerald", "#26AC72FF", "/usr/share/backgrounds/cosmic/COSMIC-Pattern-Dark.png");
    let travel = theme(
        "Stealth Crimson Lockdown",
        "#FF5555FF",
        "/usr/share/backgrounds/cosmic/orion_nebula_nasa_heic0601a.jpg",
    );
    let ghost (h, w, d, t) = (home, work, dev, travel);
    let r = ThemeTable {
        entries: vec![
            (owned("home"), home),
            (owned("work"), work),
            (owned("dev"), dev),
            (owned("travel"), travel),
        ],
    };
    proof {
        reveal_strlit("home");
        reveal_strlit("work");
        reveal_strlit("dev");
        reveal_strlit("travel");
        assert(r.keys() =~= seq!["home"@, "work"@, "dev"@, "travel"@]);
        assert(r.themes() =~= seq![h, w, d, t]);
        assert(r.keys()[0] == "home"@ && r.keys()[1] == "work"@ && r.keys()[2] == "dev"@ && r.keys()[3]
            == "travel"@);
        assert("home"@[0] != "work"@[0]);
        assert("home"@ != "work"@);
        assert("home"@.len() != "dev"@.len());
        assert("work"@.len() != "dev"@.len());
        assert("home"@ != "dev"@);
        lemma_key_position(r.keys(), "home"@);
        lemma_key_position(r.keys(), "work"@);
        lemma_key_position(r.keys(), "dev"@);
        lemma_key_position(r.keys(), "travel"@);
        assert(key_position(r.keys(), "home"@) == 0);
        assert(key_position(r.keys(), "work"@) == 1);
        assert(key_position(r.keys(), "dev"@) == 2);
        assert(key_position(r.keys(), "travel"@) == 3);
    }
    r
}

impl Default for DynamicThemeConfig {
    fn default() -> (r: Self)
        ensures
            r.enabled,
            r.apply_accent,
            r.apply_wallpaper,
            r.themes.wf(),
            r.themes.keys() == seq!["home"@, "work"@, "dev"@, "travel"@],
    {
        DynamicThemeConfig {
            enabled: default_true(),
            apply_accent: default_true(),
            apply_wallpaper: default_true(),
            themes: default_themes(),
        }
    }
}

/// What applying a profile's theme does: write this accent, and set this
/// wallpaper (when its file exists).
#[derive(Debug)]
pub struct ThemePlan {
    pub display_name: String,
    pub accent_hex: Option<String>,
    pub wallpaper_path: Option<String>,
}

/// The theme work for `profile_id`: nothing when theming is off or the
/// profile has no theme; otherwise its accent (when accents are applied) and
/// its wallpaper (when wallpapers are applied).
pub fn posture_theme_plan(config: &DynamicThemeConfig, profile_id: &str) -> (r: Option<ThemePlan>)
    ensures
        (!config.enabled || config.themes.spec_get(profile_id@) is None) <==> r is None,
        r is Some ==> {
            let t = config.themes.spec_get(profile_id@)->0;
            &&& r->0.display_name@ == t.display_name@
            &&& (config.apply_accent ==> r->0.accent_hex is Some && r->0.accent_hex->0@ == t.accent_hex@)
            &&& (!config.apply_accent ==> r->0.accent_hex is None)
            &&& (config.apply_wallpaper ==> r->0.wallpaper_path is Some && r->0.wallpaper_path->0@
                == t.wallpaper_path@)
            &&& (!config.apply_wallpaper ==> r->0.wallpaper_path is None)
        },
{
    if !config.enabled {
        return None;
    }
    match config.themes.get(profile_id) {
        Some(t) => {
            let accent_hex = if config.apply_accent {
                Some(owned(t.accent_hex.as_str()))
            } else {
                None
            };
            let wallpaper_path = if config.apply_wallpaper {
                Some(owned(t.wallpaper_path.as_str()))
            } else {
                None
            };
            Some(ThemePlan { display_name: owned(t.display_name.as_str()), accent_hex, wallpaper_path })
        },
        None => None,
    }
}

/// The contents of COSMIC's accent setting for `accent_hex`.
pub fn cosmic_accent_content(accent_hex: &str) -> (r: String)
    ensures
        r@ == "Some(\""@ + accent_hex@ + "\")\n"@,
{
    join3("Some(\"", accent_hex, "\")\n")
}

/// The contents of COSMIC's background setting showing `wallpaper_path` on all outputs.
pub fn cosmic_wallpaper_content(wallpaper_path: &str) -> (r: String)
    ensures
        r@ == "(\n    output: \"all\",\n    source: Path(\""@ + wallpaper_path@
            + "\"),\n    filter_by_theme: true,\n    rotation_frequency: 300,\n    filter_method: Lanczos,\n    scaling_mode: Zoom,\n    sampling_method: Alphanumeric,\n)\n"@,
{
    join3(
        "(\n    output: \"all\",\n    source: Path(\"",
        wallpaper_path,
        "\"),\n    filter_by_theme: true,\n    rotation_frequency: 300,\n    filter_method: Lanczos,\n    scaling_mode: Zoom,\n    sampling_method: Alphanumeric,\n)\n",
    )
}

/// The URI GNOME's background setting takes for `wallpaper_path`.
pub fn gnome_wallpaper_uri(wallpaper_path: &str) -> (r: String)
    ensures
        r@ == "file://"@ + wallpaper_path@,
{
    join2("file://", wallpaper_path)
}

} // verus!
