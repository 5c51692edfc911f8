use postureflow::applet::events::{applet_step, cycle_target, AppletEffect, AppletEvent};
use postureflow::applet::menu::{action_for_item, item_is_checked, item_property, item_props, menu_child_ids, MenuAction, PropValue};
use postureflow::applet::state::AppState;
use postureflow::applet::tray::{click_action, scroll_action, tray_title, tray_tool_tip};
use postureflow::profile::Profile;
use std::str::FromStr;

#[test]
fn test_app_state_profile_switch() {
    let mut state = AppState::new(Profile::Home);
    assert_eq!(state.active_profile, Profile::Home);
    assert_eq!(state.menu_revision, 1);

    let changed = state.set_profile(Profile::Work);
    assert!(changed);
    assert_eq!(state.active_profile, Profile::Work);
    assert_eq!(state.menu_revision, 2);

    let changed_again = state.set_profile(Profile::Work);
    assert!(!changed_again);
    assert_eq!(state.menu_revision, 2);
}

#[test]
fn test_profile_cycling_loop() {
    let p1 = Profile::Home;
    let p2 = p1.next();
    let p3 = p2.next();
    let p4 = p3.next();
    let p5 = p4.next();

    assert_eq!(p2, Profile::Work);
    assert_eq!(p3, Profile::Dev);
    assert_eq!(p4, Profile::Travel);
    assert_eq!(p5, Profile::Home);
}

#[test]
fn test_profile_parsing() {
    assert_eq!(Profile::from_str("home").unwrap(), Profile::Home);
    assert_eq!(Profile::from_str("work").unwrap(), Profile::Work);
    assert_eq!(Profile::from_str("dev").unwrap(), Profile::Dev);
    assert_eq!(Profile::from_str("travel").unwrap(), Profile::Travel);
    assert_eq!(Profile::from_str("secure").unwrap(), Profile::Travel);
    assert!(Profile::from_str("invalid").is_err());
}

#[test]
fn test_profile_display_and_icons() {
    assert_eq!(Profile::Home.as_str(), "home");
    assert_eq!(Profile::Home.icon_name(), "postureflow-home-symbolic");
    assert_eq!(Profile::Home.fallback_icon_name(), "user-home-symbolic");
    assert_eq!(Profile::Work.icon_name(), "postureflow-work-symbolic");
    assert_eq!(Profile::Work.fallback_icon_name(), "applications-office-symbolic");
    assert_eq!(Profile::Dev.icon_name(), "postureflow-dev-symbolic");
    assert_eq!(Profile::Dev.fallback_icon_name(), "utilities-terminal-symbolic");
    assert_eq!(Profile::Travel.as_str(), "travel");
    assert_eq!(Profile::Travel.icon_name(), "postureflow-travel-symbolic");
    assert_eq!(Profile::Travel.fallback_icon_name(), "security-high-symbolic");
}

#[test]
fn unknown_profile_error_names_the_input() {
    let err = Profile::parse("  Gaming ").unwrap_err();
    assert_eq!(err, "Unknown profile: 'gaming'. Expected home, work, dev, or travel.");
    assert_eq!(Profile::parse(" WORK ").unwrap(), Profile::Work);
}

#[test]
fn revision_wraps_at_the_top() {
    let mut state = AppState::new(Profile::Home);
    state.menu_revision = u32::MAX;
    assert!(state.set_profile(Profile::Dev));
    assert_eq!(state.menu_revision, 0);
}

#[test]
fn menu_items_and_actions() {
    assert_eq!(menu_child_ids(), vec![1, 2, 3, 10, 11, 12, 13, 20, 21, 22, 23, 30, 31]);
    assert_eq!(action_for_item(13), Some(MenuAction::SwitchProfile(Profile::Travel)));
    assert_eq!(action_for_item(31), Some(MenuAction::Quit));
    assert_eq!(action_for_item(99), None);
    assert!(item_is_checked(11, Profile::Work));
    assert!(!item_is_checked(10, Profile::Work));
    let props = item_props(2, Profile::Dev).unwrap();
    assert_eq!(props[0].0, "label");
    match &props[0].1 {
        PropValue::Text(t) => assert_eq!(t, "Active: Developer / Coding Mode"),
        _ => panic!("label is text"),
    }
    assert!(item_props(7, Profile::Dev).is_none());
    match item_property(12, Profile::Dev, "toggle-state") {
        PropValue::Number(n) => assert_eq!(n, 1),
        _ => panic!("toggle state is a number"),
    }
    match item_property(12, Profile::Home, "toggle-state") {
        PropValue::Number(n) => assert_eq!(n, 0),
        _ => panic!("toggle state is a number"),
    }
    match item_property(12, Profile::Home, "missing") {
        PropValue::Text(t) => assert_eq!(t, ""),
        _ => panic!("missing property reads as empty text"),
    }
}

#[test]
fn tray_texts_and_gestures() {
    assert_eq!(tray_title(Profile::Dev), "PostureFlow (DEV)");
    let (icon, title, desc) = tray_tool_tip(Profile::Travel);
    assert_eq!(icon, "postureflow-travel-symbolic");
    assert_eq!(title, "PostureFlow: TRAVEL");
    assert_eq!(desc, "Travel / Public Wi-Fi Lockdown\nClick to cycle context profile.");
    assert_eq!(click_action(Profile::Travel), MenuAction::SwitchProfile(Profile::Home));
    assert_eq!(scroll_action(Profile::Home, 1), Some(MenuAction::SwitchProfile(Profile::Work)));
    assert_eq!(scroll_action(Profile::Home, -1), None);
}

fn notify(summary: &str, body: &str, icon: &str) -> AppletEffect {
    AppletEffect::Notify { summary: summary.to_string(), body: body.to_string(), icon: icon.to_string() }
}

#[test]
fn applet_switch_request_notifies_and_calls_daemon() {
    let mut state = AppState::new(Profile::Home);
    let effects = applet_step(&mut state, AppletEvent::Menu(MenuAction::SwitchProfile(Profile::Work)));
    assert_eq!(
        effects,
        vec![
            AppletEffect::Log("[*] Switching profile to [WORK]...".to_string()),
            notify("Pop! Profile Manager", &format!("Applying profile: {}...", Profile::Work.display_name()), Profile::Work.icon_name()),
            AppletEffect::CallSetProfile(Profile::Work),
        ]
    );
    assert_eq!(state.active_profile, Profile::Home);
    assert_eq!(state.menu_revision, 1);
}

#[test]
fn applet_skips_switch_to_active_profile() {
    let mut state = AppState::new(Profile::Dev);
    let effects = applet_step(&mut state, AppletEvent::Menu(MenuAction::SwitchProfile(Profile::Dev)));
    assert_eq!(effects, vec![AppletEffect::Log("[*] Profile already [DEV]".to_string())]);
    assert_eq!(state.active_profile, Profile::Dev);
}

#[test]
fn applet_switch_result_updates_state() {
    let mut state = AppState::new(Profile::Home);
    let effects = applet_step(&mut state, AppletEvent::SwitchDone(Profile::Travel, Ok(())));
    assert_eq!(
        effects,
        vec![
            AppletEffect::EmitLayoutUpdated,
            notify("Pop! Profile Manager", "Active profile is now [TRAVEL]", Profile::Travel.icon_name()),
            AppletEffect::Log("[+] Successfully activated [TRAVEL] mode!".to_string()),
        ]
    );
    assert_eq!(state.active_profile, Profile::Travel);
    assert_eq!(state.menu_revision, 2);

    let effects = applet_step(&mut state, AppletEvent::SwitchDone(Profile::Work, Err("denied".to_string())));
    assert_eq!(
        effects,
        vec![
            AppletEffect::LogError("[-] Failed to switch profile: denied".to_string()),
            notify("Pop! Profile Error", "Failed to switch profile: denied", "dialog-error-symbolic"),
        ]
    );
    assert_eq!(state.active_profile, Profile::Travel);
}

#[test]
fn applet_daemon_signal_changes_shown_profile_once() {
    let mut state = AppState::new(Profile::Home);
    let effects = applet_step(&mut state, AppletEvent::DaemonChanged(Profile::Work));
    assert_eq!(
        effects,
        vec![
            AppletEffect::Log("[*] Daemon signal: Active profile changed to [WORK]".to_string()),
            AppletEffect::EmitLayoutUpdated,
            notify("Pop! Profile Manager", "Profile switched to [WORK]", Profile::Work.icon_name()),
        ]
    );
    assert_eq!(state.active_profile, Profile::Work);
    let again = applet_step(&mut state, AppletEvent::DaemonChanged(Profile::Work));
    assert!(again.is_empty());
    assert_eq!(state.menu_revision, 2);
}

#[test]
fn applet_status_summary_keeps_six_lines() {
    let mut state = AppState::new(Profile::Dev);
    let first = applet_step(&mut state, AppletEvent::Menu(MenuAction::ShowStatus));
    assert_eq!(
        first,
        vec![AppletEffect::Log("[*] Fetching system status from daemon...".to_string()), AppletEffect::CallStatus]
    );
    let status = "l1\nl2\nl3\nl4\nl5\nl6\nl7\nl8".to_string();
    let effects = applet_step(&mut state, AppletEvent::StatusFetched(Ok(status)));
    assert_eq!(effects, vec![notify("Pop! Profile & Power Posture", "l1\nl2\nl3\nl4\nl5\nl6", Profile::Dev.icon_name())]);
    let short = applet_step(&mut state, AppletEvent::StatusFetched(Ok("only\ntwo".to_string())));
    assert_eq!(short, vec![notify("Pop! Profile & Power Posture", "only\ntwo", Profile::Dev.icon_name())]);
    let failed = applet_step(&mut state, AppletEvent::StatusFetched(Err("no bus".to_string())));
    assert_eq!(failed, vec![AppletEffect::LogError("[-] Failed to query status: no bus".to_string())]);
    assert_eq!(state.active_profile, Profile::Dev);
}

#[test]
fn applet_reset_shows_home() {
    let mut state = AppState::new(Profile::Travel);
    let first = applet_step(&mut state, AppletEvent::Menu(MenuAction::ResetDefaults));
    assert_eq!(
        first,
        vec![AppletEffect::Log("[*] Resetting to Pop!_OS factory defaults...".to_string()), AppletEffect::CallReset]
    );
    let effects = applet_step(&mut state, AppletEvent::ResetDone(Ok(())));
    assert_eq!(
        effects,
        vec![
            AppletEffect::EmitLayoutUpdated,
            notify(
                "Pop! Profile Manager",
                "Firewall and system power settings restored to factory defaults.",
                "security-medium-symbolic"
            ),
            AppletEffect::Log("[+] Reset to defaults complete.".to_string()),
        ]
    );
    assert_eq!(state.active_profile, Profile::Home);
    let failed = applet_step(&mut state, AppletEvent::ResetDone(Err("x".to_string())));
    assert_eq!(failed, vec![AppletEffect::LogError("[-] Failed to reset defaults: x".to_string())]);
}

#[test]
fn applet_quit_and_gui() {
    let mut state = AppState::new(Profile::Home);
    let quit = applet_step(&mut state, AppletEvent::Menu(MenuAction::Quit));
    assert_eq!(
        quit,
        vec![AppletEffect::Log("[*] Quit action received. Exiting applet...".to_string()), AppletEffect::Exit]
    );
    let gui = applet_step(&mut state, AppletEvent::Menu(MenuAction::OpenGui));
    assert_eq!(gui, vec![AppletEffect::LaunchGui]);
}

#[test]
fn cycle_goes_to_next_profile() {
    assert_eq!(cycle_target(None), Profile::Work);
    assert_eq!(cycle_target(Some(Profile::Home)), Profile::Work);
    assert_eq!(cycle_target(Some(Profile::Travel)), Profile::Home);
    assert_eq!(cycle_target(Some(Profile::Dev)), Profile::Home.next().next().next());
}
