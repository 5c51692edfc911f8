//! The tray icon: its title, tooltip, and what clicking or scrolling it asks for.
use vstd::prelude::*;
use crate::profile::Profile;
use crate::applet::menu::MenuAction;
use crate::text::{owned, to_upper, uppercased, join2, join3};

verus! {

/// The tray item's title: `PostureFlow (<PROFILE>)`.
pub fn tray_title(active: Profile) -> (r: String)
    ensures
        r@ == "PostureFlow ("@ + uppercased(active.spec_id()) + ")"@,
{
    let up = to_upper(active.as_str());
    join3("PostureFlow (", up.as_str(), ")")
}

/// The tray item's tooltip: the profile's icon, a title naming it, and its
/// description with the hint that a click cycles profiles.
pub fn tray_tool_tip(active: Profile) -> (r: (String, String, String))
    ensures
        r.0@ == active.icon_text(),
        r.1@ == "PostureFlow: "@ + uppercased(active.spec_id()),
        r.2@ == active.display_text() + "\nClick to cycle context profile."@,
{
    let up = to_upper(active.as_str());
    (
        owned(active.icon_name()),
        join2("PostureFlow: ", up.as_str()),
        join2(active.display_name(), "\nClick to cycle context profile."),
    )
}

/// A click on the tray icon switches to the next profile.
pub fn click_action(active: Profile) -> (r: MenuAction)
    ensures
        r == MenuAction::SwitchProfile(active.spec_next()),
{
    MenuAction::SwitchProfile(active.next())
}

/// Scrolling forward over the tray icon switches to the next profile; other
/// scrolling does nothing.
pub fn scroll_action(active: Profile, delta: i32) -> (r: Option<MenuAction>)
    ensures
        r == if delta > 0 {
            Some(MenuAction::SwitchProfile(active.spec_next()))
        } else {
            None
        },
{
    if delta > 0 {
        Some(MenuAction::SwitchProfile(active.next()))
    } else {
        None
    }
}

} // verus!
