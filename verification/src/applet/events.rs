//! What the applet does on each event: the new state and the effects the
//! host carries out (console lines, desktop notifications, daemon calls,
//! menu refreshes).
use vstd::prelude::*;
use crate::applet::menu::MenuAction;
use crate::applet::state::AppState;
use crate::profile::Profile;
use crate::text::{owned, join2, join3, to_upper, uppercased, chars_of, string_of, split_lines, views, lines};

verus! {

/// Something the applet learns: a profile change announced by the daemon, a
/// menu action, or the answer to a daemon call it made.
#[derive(Debug)]
pub enum AppletEvent {
    DaemonChanged(Profile),
    Menu(MenuAction),
    SwitchDone(Profile, Result<(), String>),
    StatusFetched(Result<String, String>),
    ResetDone(Result<(), String>),
}

/// Something the host does for the applet.
#[derive(Debug, Clone, PartialEq, Eq)]
pub enum AppletEffect {
    /// A line on standard output.
    Log(String),
    /// A line on standard error.
    LogError(String),
    /// A desktop notification.
    Notify { summary: String, body: String, icon: String },
    /// Ask the daemon to switch profile.
    CallSetProfile(Profile),
    /// Ask the daemon for its status report.
    CallStatus,
    /// Ask the daemon to restore the factory defaults.
    CallReset,
    /// Announce a new icon, tooltip, title and menu layout.
    EmitLayoutUpdated,
    /// Open the settings window.
    LaunchGui,
    /// Leave the event loop.
    Exit,
}

/// The view of an effect.
pub enum EffectView {
    Log(Seq<char>),
    LogError(Seq<char>),
    Notify(Seq<char>, Seq<char>, Seq<char>),
    CallSetProfile(Profile),
    CallStatus,
    CallReset,
    EmitLayoutUpdated,
    LaunchGui,
    Exit,
}

/// The view of an effect.
pub open spec fn effect_view(e: AppletEffect) -> EffectView {
    match e {
        AppletEffect::Log(t) => EffectView::Log(t@),
        AppletEffect::LogError(t) => EffectView::LogError(t@),
        AppletEffect::Notify { summary, body, icon } => EffectView::Notify(summary@, body@, icon@),
        AppletEffect::CallSetProfile(p) => EffectView::CallSetProfile(p),
        AppletEffect::CallStatus => EffectView::CallStatus,
        AppletEffect::CallReset => EffectView::CallReset,
        AppletEffect::EmitLayoutUpdated => EffectView::EmitLayoutUpdated,
        AppletEffect::LaunchGui => EffectView::LaunchGui,
        AppletEffect::Exit => EffectView::Exit,
    }
}

/// The views of a list of effects.
pub open spec fn effect_views(v: Seq<AppletEffect>) -> Seq<EffectView> {
    v.map_values(|e: AppletEffect| effect_view(e))
}

/// A profile's id in capitals, as the applet shows it.
pub open spec fn shown(p: Profile) -> Seq<char> {
    uppercased(p.spec_id())
}

/// Lines joined with `\n` between them.
pub open spec fn joined_lines(ls: Seq<Seq<char>>) -> Seq<char>
    decreases ls.len(),
{
    if ls.len() == 0 {
        Seq::empty()
    } else if ls.len() == 1 {
        ls[0]
    } else {
        joined_lines(ls.drop_last()) + seq!['\n'] + ls.last()
    }
}

/// The summary of a status report: its first six lines.
pub open spec fn status_summary(status: Seq<char>) -> Seq<char> {
    let ls = lines(status);
    joined_lines(ls.subrange(0, if ls.len() < 6 { ls.len() as int } else { 6 }))
}

/// The effects of an event on a state showing `active` (see `applet_step`).
pub open spec fn step_effects(active: Profile, event: AppletEvent) -> Seq<EffectView> {
    match event {
        AppletEvent::DaemonChanged(p) => if p != active {
            seq![
                EffectView::Log("[*] Daemon signal: Active profile changed to ["@ + shown(p) + "]"@),
                EffectView::EmitLayoutUpdated,
                EffectView::Notify("Pop! Profile Manager"@, "Profile switched to ["@ + shown(p) + "]"@, p.icon_text()),
            ]
        } else {
            Seq::empty()
        },
        AppletEvent::Menu(MenuAction::SwitchProfile(t)) => if t == active {
            seq![EffectView::Log("[*] Profile already ["@ + shown(t) + "]"@)]
        } else {
            seq![
                EffectView::Log("[*] Switching profile to ["@ + shown(t) + "]..."@),
                EffectView::Notify("Pop! Profile Manager"@, "Applying profile: "@ + t.display_text() + "..."@, t.icon_text()),
                EffectView::CallSetProfile(t),
            ]
        },
        AppletEvent::Menu(MenuAction::ShowStatus) => seq![
            EffectView::Log("[*] Fetching system status from daemon..."@),
            EffectView::CallStatus,
        ],
        AppletEvent::Menu(MenuAction::ResetDefaults) => seq![
            EffectView::Log("[*] Resetting to Pop!_OS factory defaults..."@),
            EffectView::CallReset,
        ],
        AppletEvent::Menu(MenuAction::OpenGui) => seq![EffectView::LaunchGui],
        AppletEvent::Menu(MenuAction::Quit) => seq![
            EffectView::Log("[*] Quit action received. Exiting applet..."@),
            EffectView::Exit,
        ],
        AppletEvent::SwitchDone(t, Ok(())) => seq![
            EffectView::EmitLayoutUpdated,
            EffectView::Notify("Pop! Profile Manager"@, "Active profile is now ["@ + shown(t) + "]"@, t.icon_text()),
            EffectView::Log("[+] Successfully activated ["@ + shown(t) + "] mode!"@),
        ],
        AppletEvent::SwitchDone(_, Err(e)) => seq![
            EffectView::LogError("[-] Failed to switch profile: "@ + e@),
            EffectView::Notify("Pop! Profile Error"@, "Failed to switch profile: "@ + e@, "dialog-error-symbolic"@),
        ],
        AppletEvent::StatusFetched(Ok(status)) => seq![
            EffectView::Notify("Pop! Profile & Power Posture"@, status_summary(status@), active.icon_text()),
        ],
        AppletEvent::StatusFetched(Err(e)) => seq![EffectView::LogError("[-] Failed to query status: "@ + e@)],
        AppletEvent::ResetDone(Ok(())) => seq![
            EffectView::EmitLayoutUpdated,
            EffectView::Notify(
                "Pop! Profile Manager"@,
                "Firewall and system power settings restored to factory defaults."@,
                "security-medium-symbolic"@,
            ),
            EffectView::Log("[+] Reset to defaults complete."@),
        ],
        AppletEvent::ResetDone(Err(e)) => seq![EffectView::LogError("[-] Failed to reset defaults: "@ + e@)],
    }
}

/// The state after an event: a profile announced by the daemon or switched
/// to is shown, a completed reset shows Home; nothing else changes it.
pub open spec fn step_state(s: AppState, event: AppletEvent) -> AppState {
    match event {
        AppletEvent::DaemonChanged(p) => s.after_set(p),
        AppletEvent::SwitchDone(t, Ok(())) => s.after_set(t),
        AppletEvent::ResetDone(Ok(())) => s.after_set(Profile::Home),
        _ => s,
    }
}

fn status_summary_exec(status: &str) -> (r: String)
    ensures
        r@ == status_summary(status@),
{
    let cs = chars_of(status);
    let ls = split_lines(cs.as_slice());
    let ghost lv = views(ls@);
    let n: usize = if ls.len() < 6 {
        ls.len()
    } else {
        6
    };
    let mut out: Vec<char> = Vec::new();
    let mut i: usize = 0;
    while i < n
        invariant
            lv == views(ls@),
            lv == lines(status@),
            n <= ls@.len(),
            i <= n,
            out@ == joined_lines(lv.subrange(0, i as int)),
        decreases n - i,
    {
        if i > 0 {
            out.push('\n');
        }
        let line = &ls[i];
        let mut j: usize = 0;
        let ghost before = out@;
        while j < line.len()
            invariant
                j <= line@.len(),
                out@ == before + line@.subrange(0, j as int),
            decreases line.len() - j,
        {
            out.push(line[j]);
            j = j + 1;
        }
        proof {
            let s = lv.subrange(0, i + 1);
            assert(line@.subrange(0, line@.len() as int) =~= line@);
            assert(lv[i as int] == line@);
            if i == 0 {
                assert(s.len() == 1);
                assert(out@ =~= s[0]);
            } else {
                assert(s.drop_last() =~= lv.subrange(0, i as int));
                assert(out@ =~= joined_lines(lv.subrange(0, i as int)) + seq!['\n'] + line@);
            }
        }
        i = i + 1;
    }
    proof {
        let ls_spec = lines(status@);
        assert(n == (if ls_spec.len() < 6 { ls_spec.len() as int } else { 6 }));
    }
    string_of(out.as_slice())
}

fn log(text: String) -> (r: AppletEffect)
    ensures
        effect_view(r) == EffectView::Log(text@),
{
    AppletEffect::Log(text)
}

fn notify(summary: &str, body: String, icon: &str) -> (r: AppletEffect)
    ensures
        effect_view(r) == EffectView::Notify(summary@, body@, icon@),
{
    AppletEffect::Notify { summary: owned(summary), body, icon: owned(icon) }
}

/// Handles one event: `state` becomes `step_state` of it, and the effects
/// returned are `step_effects` of the shown profile and the event, in order.
pub fn applet_step(state: &mut AppState, event: AppletEvent) -> (effects: Vec<AppletEffect>)
    ensures
        *final(state) == step_state(*old(state), event),
        effect_views(effects@) == step_effects(old(state).active_profile, event),
{
    let active = state.active_profile;
    let mut v: Vec<AppletEffect> = Vec::new();
    match event {
        AppletEvent::DaemonChanged(p) => {
            if state.set_profile(p) {
                let up = to_upper(p.as_str());
                v.push(log(join3("[*] Daemon signal: Active profile changed to [", up.as_str(), "]")));
                v.push(AppletEffect::EmitLayoutUpdated);
                v.push(notify("Pop! Profile Manager", join3("Profile switched to [", up.as_str(), "]"), p.icon_name()));
            }
        },
        AppletEvent::Menu(MenuAction::SwitchProfile(t)) => {
            let up = to_upper(t.as_str());
            if t == active {
                v.push(log(join3("[*] Profile already [", up.as_str(), "]")));
            } else {
                v.push(log(join3("[*] Switching profile to [", up.as_str(), "]...")));
                v.push(notify("Pop! Profile Manager", join3("Applying profile: ", t.display_name(), "..."), t.icon_name()));
                v.push(AppletEffect::CallSetProfile(t));
            }
        },
        AppletEvent::Menu(MenuAction::ShowStatus) => {
            v.push(log(owned("[*] Fetching system status from daemon...")));
            v.push(AppletEffect::CallStatus);
        },
        AppletEvent::Menu(MenuAction::ResetDefaults) => {
            v.push(log(owned("[*] Resetting to Pop!_OS factory defaults...")));
            v.push(AppletEffect::CallReset);
        },
        AppletEvent::Menu(MenuAction::OpenGui) => {
            v.push(AppletEffect::LaunchGui);
        },
        AppletEvent::Menu(MenuAction::Quit) => {
            v.push(log(owned("[*] Quit action received. Exiting applet...")));
            v.push(AppletEffect::Exit);
        },
        AppletEvent::SwitchDone(t, Ok(())) => {
            state.set_profile(t);
            let up = to_upper(t.as_str());
            v.push(AppletEffect::EmitLayoutUpdated);
            v.push(notify("Pop! Profile Manager", join3("Active profile is now [", up.as_str(), "]"), t.icon_name()));
            v.push(log(join3("[+] Successfully activated [", up.as_str(), "] mode!")));
        },
        AppletEvent::SwitchDone(_, Err(e)) => {
            v.push(AppletEffect::LogError(join2("[-] Failed to switch profile: ", e.as_str())));
            v.push(notify("Pop! Profile Error", join2("Failed to switch profile: ", e.as_str()), "dialog-error-symbolic"));
        },
        AppletEvent::StatusFetched(Ok(status)) => {
            let summary = status_summary_exec(status.as_str());
            v.push(notify("Pop! Profile & Power Posture", summary, active.icon_name()));
        },
        AppletEvent::StatusFetched(Err(e)) => {
            v.push(AppletEffect::LogError(join2("[-] Failed to query status: ", e.as_str())));
        },
        AppletEvent::ResetDone(Ok(())) => {
            state.set_profile(Profile::Home);
            v.push(AppletEffect::EmitLayoutUpdated);
            v.push(
                notify(
                    "Pop! Profile Manager",
                    owned("Firewall and system power settings restored to factory defaults."),
                    "security-medium-symbolic",
                ),
            );
            v.push(log(owned("[+] Reset to defaults complete.")));
        },
        AppletEvent::ResetDone(Err(e)) => {
            v.push(AppletEffect::LogError(join2("[-] Failed to reset defaults: ", e.as_str())));
        },
    }
    assert(effect_views(v@) =~= step_effects(active, event));
    v
}

/// The profile `--cycle` switches to: the one after the active profile, or
/// after Home when the daemon could not be asked.
pub fn cycle_target(active: Option<Profile>) -> (r: Profile)
    ensures
        r == match active {
            Some(p) => p.spec_next(),
            None => Profile::Home.spec_next(),
        },
{
    match active {
        Some(p) => p.next(),
        None => Profile::Home.next(),
    }
}

} // verus!
