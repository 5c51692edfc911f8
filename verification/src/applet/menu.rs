//! The applet menu's items and what clicking them asks for.
use vstd::prelude::*;
use crate::profile::Profile;
use crate::text::{owned, join2};

verus! {

/// What a click in the applet menu asks the applet to do.
#[derive(Debug, Clone, Copy, PartialEq, Eq, Structural)]
pub enum MenuAction {
    SwitchProfile(Profile),
    ShowStatus,
    ResetDefaults,
    OpenGui,
    Quit,
}

/// The action of a click on the menu item with the given id.
pub open spec fn spec_action_for_item(id: i32) -> Option<MenuAction> {
    if id == 10 {
        Some(MenuAction::SwitchProfile(Profile::Home))
    } else if id == 11 {
        Some(MenuAction::SwitchProfile(Profile::Work))
    } else if id == 12 {
        Some(MenuAction::SwitchProfile(Profile::Dev))
    } else if id == 13 {
        Some(MenuAction::SwitchProfile(Profile::Travel))
    } else if id == 21 {
        Some(MenuAction::ShowStatus)
    } else if id == 22 {
        Some(MenuAction::ResetDefaults)
    } else if id == 23 {
        Some(MenuAction::OpenGui)
    } else if id == 31 {
        Some(MenuAction::Quit)
    } else {
        None
    }
}

/// The action that a `clicked` event on menu item `id` requests, if any.
pub fn action_for_item(id: i32) -> (r: Option<MenuAction>)
    ensures
        r == spec_action_for_item(id),
{
    match id {
        10 => Some(MenuAction::SwitchProfile(Profile::Home)),
        11 => Some(MenuAction::SwitchProfile(Profile::Work)),
        12 => Some(MenuAction::SwitchProfile(Profile::Dev)),
        13 => Some(MenuAction::SwitchProfile(Profile::Travel)),
        21 => Some(MenuAction::ShowStatus),
        22 => Some(MenuAction::ResetDefaults),
        23 => Some(MenuAction::OpenGui),
        31 => Some(MenuAction::Quit),
        _ => None,
    }
}

/// The ids of the menu's children, in display order.
pub fn menu_child_ids() -> (r: Vec<i32>)
    ensures
        r@ == seq![1i32, 2, 3, 10, 11, 12, 13, 20, 21, 22, 23, 30, 31],
{
    let r = vec![1i32, 2, 3, 10, 11, 12, 13, 20, 21, 22, 23, 30, 31];
    assert(r@ =~= seq![1i32, 2, 3, 10, 11, 12, 13, 20, 21, 22, 23, 30, 31]);
    r
}

/// The profile toggle item of the menu that shows `p`.
pub open spec fn spec_item_for_profile(p: Profile) -> i32 {
    match p {
        Profile::Home => 10,
        Profile::Work => 11,
        Profile::Dev => 12,
        Profile::Travel => 13,
    }
}

/// Whether menu item `id` is drawn checked while `active` is the active profile.
pub fn item_is_checked(id: i32, active: Profile) -> (r: bool)
    ensures
        r == (id == spec_item_for_profile(active)),
{
    match active {
        Profile::Home => id == 10,
        Profile::Work => id == 11,
        Profile::Dev => id == 12,
        Profile::Travel => id == 13,
    }
}

/// Clicking the item that shows a profile asks to switch to that profile.
pub proof fn lemma_profile_item_switches(p: Profile)
    ensures
        spec_action_for_item(spec_item_for_profile(p)) == Some(MenuAction::SwitchProfile(p)),
{
}

/// The value of a menu item property.
#[derive(Debug, Clone)]
pub enum PropValue {
    Text(String),
    Flag(bool),
    Number(i32),
}

/// The view of a property value.
pub enum PropView {
    Text(Seq<char>),
    Flag(bool),
    Number(i32),
}

/// The view of a property value.
pub open spec fn prop_view(v: PropValue) -> PropView {
    match v {
        PropValue::Text(s) => PropView::Text(s@),
        PropValue::Flag(b) => PropView::Flag(b),
        PropValue::Number(n) => PropView::Number(n),
    }
}

/// The views of a list of properties.
pub open spec fn props_view(v: Seq<(String, PropValue)>) -> Seq<(Seq<char>, PropView)> {
    v.map_values(|e: (String, PropValue)| (e.0@, prop_view(e.1)))
}

/// The properties of a profile's checkmark item.
pub open spec fn toggle_props(label: Seq<char>, checked: bool) -> Seq<(Seq<char>, PropView)> {
    seq![
        ("label"@, PropView::Text(label)),
        ("toggle-type"@, PropView::Text("checkmark"@)),
        ("toggle-state"@, PropView::Number(if checked { 1 } else { 0 })),
    ]
}

/// The properties of the menu item `id` while `active` is the active profile:
/// the root shows a submenu; a disabled title and active-profile line; three
/// separators; a checkmark item per profile; the status, reset, settings and
/// quit items; nothing for any other id.
pub open spec fn item_props_spec(id: i32, active: Profile) -> Option<Seq<(Seq<char>, PropView)>> {
    if id == 0 {
        Some(seq![("children-display"@, PropView::Text("submenu"@))])
    } else if id == 1 {
        Some(seq![("label"@, PropView::Text("Pop! Profile Manager"@)), ("enabled"@, PropView::Flag(false))])
    } else if id == 2 {
        Some(seq![("label"@, PropView::Text("Active: "@ + active.display_text())), ("enabled"@, PropView::Flag(false))])
    } else if id == 3 || id == 20 || id == 30 {
        Some(seq![("type"@, PropView::Text("separator"@))])
    } else if id == 10 {
        Some(toggle_props("🏠 Home Profile (Balanced Power & Media)"@, active == Profile::Home))
    } else if id == 11 {
        Some(toggle_props("💼 Work Profile (PowerTOP, Strict FW, VPN)"@, active == Profile::Work))
    } else if id == 12 {
        Some(toggle_props("💻 Dev Profile (Docker, SSH, High Performance)"@, active == Profile::Dev))
    } else if id == 13 {
        Some(toggle_props("🔒 Secure Profile (Lockdown, Kill Unused)"@, active == Profile::Travel))
    } else if id == 21 {
        Some(seq![("label"@, PropView::Text("📊 View Profile & Power Status..."@))])
    } else if id == 22 {
        Some(seq![("label"@, PropView::Text("🔄 Reset to Factory Defaults"@))])
    } else if id == 23 {
        Some(seq![("label"@, PropView::Text("⚙ Configure Profiles & Import..."@))])
    } else if id == 31 {
        Some(seq![("label"@, PropView::Text("✕ Quit Applet"@))])
    } else {
        None
    }
}

fn text_prop(k: &str, v: &str) -> (r: (String, PropValue))
    ensures
        r.0@ == k@,
        prop_view(r.1) == PropView::Text(v@),
{
    (owned(k), PropValue::Text(owned(v)))
}

fn one_prop(k: &str, v: &str) -> (r: Vec<(String, PropValue)>)
    ensures
        props_view(r@) == seq![(k@, PropView::Text(v@))],
{
    let r = vec![text_prop(k, v)];
    assert(props_view(r@) =~= seq![(k@, PropView::Text(v@))]);
    r
}

fn label_disabled(label: String) -> (r: Vec<(String, PropValue)>)
    ensures
        props_view(r@) == seq![("label"@, PropView::Text(label@)), ("enabled"@, PropView::Flag(false))],
{
    let ghost l = label@;
    let r = vec![(owned("label"), PropValue::Text(label)), (owned("enabled"), PropValue::Flag(false))];
    assert(props_view(r@) =~= seq![("label"@, PropView::Text(l)), ("enabled"@, PropView::Flag(false))]);
    r
}

fn toggle(label: &str, checked: bool) -> (r: Vec<(String, PropValue)>)
    ensures
        props_view(r@) == toggle_props(label@, checked),
{
    let state: i32 = if checked {
        1
    } else {
        0
    };
    let r = vec![
        text_prop("label", label),
        text_prop("toggle-type", "checkmark"),
        (owned("toggle-state"), PropValue::Number(state)),
    ];
    assert(props_view(r@) =~= toggle_props(label@, checked));
    r
}

/// The properties of the menu item `id` (see `item_props_spec`).
pub fn item_props(id: i32, active: Profile) -> (r: Option<Vec<(String, PropValue)>>)
    ensures
        match r {
            Some(v) => item_props_spec(id, active) == Some(props_view(v@)),
            None => item_props_spec(id, active) is None,
        },
{
    match id {
        0 => Some(one_prop("children-display", "submenu")),
        1 => Some(label_disabled(owned("Pop! Profile Manager"))),
        2 => Some(label_disabled(join2("Active: ", active.display_name()))),
        3 | 20 | 30 => Some(one_prop("type", "separator")),
        10 => Some(toggle("🏠 Home Profile (Balanced Power & Media)", active == Profile::Home)),
        11 => Some(toggle("💼 Work Profile (PowerTOP, Strict FW, VPN)", active == Profile::Work)),
        12 => Some(toggle("💻 Dev Profile (Docker, SSH, High Performance)", active == Profile::Dev)),
        13 => Some(toggle("🔒 Secure Profile (Lockdown, Kill Unused)", active == Profile::Travel)),
        21 => Some(one_prop("label", "📊 View Profile & Power Status...")),
        22 => Some(one_prop("label", "🔄 Reset to Factory Defaults")),
        23 => Some(one_prop("label", "⚙ Configure Profiles & Import...")),
        31 => Some(one_prop("label", "✕ Quit Applet")),
        _ => None,
    }
}

fn copy_prop(v: &PropValue) -> (r: PropValue)
    ensures
        prop_view(r) == prop_view(*v),
{
    match v {
        PropValue::Text(s) => PropValue::Text(owned(s.as_str())),
        PropValue::Flag(b) => PropValue::Flag(*b),
        PropValue::Number(n) => PropValue::Number(*n),
    }
}

/// The value of property `name` of item `id`, or the empty text when the
/// item or the property does not exist.
pub fn item_property(id: i32, active: Profile, name: &str) -> (r: PropValue)
    ensures
        match item_props_spec(id, active) {
            Some(ps) => match first_prop(ps, name@, ps.len() as int) {
                Some(v) => prop_view(r) == v,
                None => prop_view(r) == PropView::Text(Seq::empty()),
            },
            None => prop_view(r) == PropView::Text(Seq::empty()),
        },
{
    proof {
        reveal_strlit("");
    }
    match item_props(id, active) {
        Some(props) => {
            let ghost ps = props_view(props@);
            let mut i: usize = 0;
            while i < props.len()
                invariant
                    ps == props_view(props@),
                    item_props_spec(id, active) == Some(ps),
                    i <= props@.len(),
                    first_prop(ps, name@, i as int) is None,
                decreases props.len() - i,
            {
                if crate::text::str_eq(props[i].0.as_str(), name) {
                    proof {
                        assert(ps[i as int] == (props@[i as int].0@, prop_view(props@[i as int].1)));
                        assert(ps[i as int].0 == name@);
                        assert(first_prop(ps, name@, i + 1) == Some(ps[i as int].1));
                        lemma_first_prop_stable(ps, name@, i + 1, ps.len() as int);
                    }
                    return copy_prop(&props[i].1);
                }
                i = i + 1;
            }
            assert(ps.len() == props@.len());
            let e = owned("");
            assert(e@ =~= Seq::<char>::empty());
            PropValue::Text(e)
        },
        None => {
            let e = owned("");
            assert(e@ =~= Seq::<char>::empty());
            PropValue::Text(e)
        },
    }
}

/// The value of the first of the first `n` properties named `name`.
pub open spec fn first_prop(ps: Seq<(Seq<char>, PropView)>, name: Seq<char>, n: int) -> Option<PropView>
    decreases n,
{
    if n <= 0 {
        None
    } else {
        match first_prop(ps, name, n - 1) {
            Some(v) => Some(v),
            None => if ps[n - 1].0 == name {
                Some(ps[n - 1].1)
            } else {
                None
            },
        }
    }
}

proof fn lemma_first_prop_stable(ps: Seq<(Seq<char>, PropView)>, name: Seq<char>, n: int, m: int)
    requires
        0 <= n <= m,
        first_prop(ps, name, n) is Some,
    ensures
        first_prop(ps, name, m) == first_prop(ps, name, n),
    decreases m - n,
{
    if n < m {
        lemma_first_prop_stable(ps, name, n, m - 1);
    }
}

} // verus!
