use wintag::common::{
    WM_APP_EDIT_TAG, WM_APP_EXIT, WM_APP_OPEN_SETTINGS, WM_APP_TAGS_CHANGED, WM_APP_THEME_CHANGED,
    WM_APP_WINEVENT, WM_CREATE_OVERLAY, WM_DESTROY_OVERLAY,
};
use wintag::hotkey::Hotkey;
use wintag::model::settings::{CornerPreference, Settings, SharedSettings, ThemeMode};
use wintag::model::tag::{Tag, TagColor};
use wintag::session::{
    activate_target, build_tag_rows, handle_quick_tag, popup_position, PollStep, PolledWindow,
    Session, SessionEffect, FAST_POLL_MS, MAX_OVERLAYS, POLL_MS, TIMER_BALLOON,
    TIMER_POLL_OVERLAYS, WM_SETTINGCHANGE, WM_TIMER,
};
use wintag::sys::overlay::{HidePlan, InsertAfter, Overlay, PostedMessage, RaisePlan};
use wintag::sys::tray::TrayCommand;
use wintag::sys::win_event::{
    bind_hidden, install, win_event_callback, EventTarget, ForwardedEvent, NotBound,
    EVENT_OBJECT_DESTROY, EVENT_OBJECT_HIDE, EVENT_OBJECT_LOCATIONCHANGE, EVENT_OBJECT_SHOW,
    EVENT_SYSTEM_MOVESIZEEND, EVENT_SYSTEM_MOVESIZESTART,
};
use wintag::sys::window::{window_info, WindowError, WindowInfo};
use wintag::ui::geo::Rect;
use wintag::ui::iced_proto::{GuiEvent, IcedCommand};
use wintag::ui::theme::{dark_colors, light_colors};

const HIDDEN: isize = 7;

fn tag(title: &str) -> Tag {
    Tag {
        title: title.to_string(),
        note: "note".to_string(),
        color: TagColor::Blue,
        window_title: "window".to_string(),
        process_name: "test.exe".to_string(),
    }
}

fn session() -> Session {
    Session::new(
        HIDDEN,
        SharedSettings {
            value: Some(Settings::default()),
        },
    )
}

fn with_theme(theme: ThemeMode) -> Session {
    Session::new(
        HIDDEN,
        SharedSettings {
            value: Some(Settings {
                theme,
                ..Settings::default()
            }),
        },
    )
}

fn post(msg: u32, wparam: isize) -> PostedMessage {
    PostedMessage {
        to: HIDDEN,
        msg,
        wparam,
    }
}

/// What is left to do, in words.
fn words(effects: &[SessionEffect]) -> Vec<String> {
    effects.iter().map(|e| format!("{e:?}")).collect()
}

// ------------------------------------------------------------------
// Badges
// ------------------------------------------------------------------

#[test]
fn a_badge_is_made_once() {
    let mut s = session();
    let effects = s.hidden_wndproc(WM_CREATE_OVERLAY, 100, 0, true, (0, 0));
    assert!(matches!(
        effects[..],
        [SessionEffect::CreateOverlay { target: 100 }]
    ));
    assert!(s.overlay_created(100, 900));
    assert!(!s.overlay_created(100, 901));
    let effects = s.hidden_wndproc(WM_CREATE_OVERLAY, 100, 0, true, (0, 0));
    assert!(matches!(
        effects[..],
        [SessionEffect::RefreshOverlay {
            overlay: Overlay { hwnd: 900, .. }
        }]
    ));
    // A window that is not there gets none.
    assert!(s
        .hidden_wndproc(WM_CREATE_OVERLAY, 101, 0, false, (0, 0))
        .is_empty());
}

#[test]
fn there_are_not_too_many_badges() {
    let mut s = session();
    for i in 0..MAX_OVERLAYS as isize {
        assert!(s.overlay_created(1000 + i, i));
    }
    assert_eq!(s.overlays.len(), 256);
    assert!(!s.overlay_created(1, 1));
    assert!(s.create_overlay(1, true).is_empty());
    assert!(s.create_overlay(1000, true).is_empty());
}

#[test]
fn a_badge_is_taken_away() {
    let mut s = session();
    assert!(s.overlay_created(100, 900));
    let effects = s.hidden_wndproc(WM_DESTROY_OVERLAY, 100, 0, true, (0, 0));
    assert!(matches!(
        effects[..],
        [SessionEffect::DestroyOverlay {
            overlay: Overlay {
                hwnd: 900,
                target_hwnd: 100,
                ..
            }
        }]
    ));
    assert!(s
        .hidden_wndproc(WM_DESTROY_OVERLAY, 100, 0, true, (0, 0))
        .is_empty());
}

#[test]
fn badges_follow_their_windows() {
    let mut s = session();
    assert!(s.overlay_created(100, 900));
    let event = |s: &mut Session, target: usize, event: u32| {
        s.hidden_wndproc(WM_APP_WINEVENT, target, event as isize, true, (0, 0))
    };
    assert!(matches!(
        event(&mut s, 100, EVENT_OBJECT_LOCATIONCHANGE)[..],
        [SessionEffect::SyncOverlay { force: false, .. }]
    ));
    assert!(matches!(
        event(&mut s, 100, EVENT_OBJECT_HIDE)[..],
        [SessionEffect::HideOverlay { .. }]
    ));
    assert!(matches!(
        event(&mut s, 100, EVENT_OBJECT_SHOW)[..],
        [
            SessionEffect::ShowOverlay { .. },
            SessionEffect::SyncOverlay { force: false, .. }
        ]
    ));
    assert!(matches!(
        event(&mut s, 100, EVENT_SYSTEM_MOVESIZESTART)[..],
        [SessionEffect::SetPollInterval(FAST_POLL_MS)]
    ));
    assert!(event(&mut s, 5, EVENT_SYSTEM_MOVESIZESTART).is_empty());
    assert!(matches!(
        event(&mut s, 100, EVENT_SYSTEM_MOVESIZEEND)[..],
        [
            SessionEffect::SyncOverlay { force: true, .. },
            SessionEffect::SetPollInterval(POLL_MS)
        ]
    ));
    assert!(matches!(
        event(&mut s, 5, EVENT_SYSTEM_MOVESIZEEND)[..],
        [SessionEffect::SetPollInterval(POLL_MS)]
    ));
    assert!(event(&mut s, 100, 0x9999).is_empty());
}

#[test]
fn a_window_that_goes_away_is_forgotten() {
    let mut s = session();
    assert!(s.overlay_created(100, 900));
    s.tags.insert(100, tag("a"));
    s.tags.insert(200, tag("b"));
    let effects = s.handle_winevent(100, EVENT_OBJECT_DESTROY);
    assert!(matches!(effects[..], [SessionEffect::DestroyOverlay { .. }]));
    assert!(s.overlays.is_empty());
    assert!(!s.tags.contains_key(&100));
    assert!(s.tags.contains_key(&200));
}

#[test]
fn badges_are_hidden_and_shown() {
    let mut s = session();
    assert!(s.overlay_created(100, 101));
    assert!(s.overlay_created(200, 201));
    assert_eq!(
        s.hide_overlay(100, 55),
        Some(HidePlan {
            hide_window: true,
            close_tooltip: Some(55),
        })
    );
    assert_eq!(
        s.overlays.get(&100),
        Some(&Overlay {
            hwnd: 101,
            target_hwnd: 100,
            running: true,
            visible: false,
        })
    );
    assert!(s.overlays.get(&200).unwrap().visible);
    assert_eq!(
        s.hide_overlay(100, 55),
        Some(HidePlan {
            hide_window: false,
            close_tooltip: None,
        })
    );
    assert_eq!(s.hide_overlay(300, 55), None);
    assert_eq!(
        s.hide_overlay(200, 0),
        Some(HidePlan {
            hide_window: true,
            close_tooltip: None,
        })
    );
    assert!(s.show_overlay(100));
    assert!(!s.show_overlay(100));
    assert!(!s.show_overlay(300));
    assert!(s.overlays.get(&100).unwrap().visible);
    assert!(!s.overlays.get(&200).unwrap().visible);
    assert_eq!(s.overlays.len(), 2);
}

#[test]
fn a_badge_goes_with_its_window_and_comes_back() {
    let mut s = session();
    assert!(s.overlay_created(100, 101));
    for event in [
        EVENT_OBJECT_HIDE,
        EVENT_OBJECT_SHOW,
        EVENT_OBJECT_HIDE,
        EVENT_OBJECT_HIDE,
    ] {
        for effect in s.handle_winevent(100, event) {
            match effect {
                SessionEffect::HideOverlay { overlay } => {
                    let _ = s.hide_overlay(overlay.target_hwnd, 0);
                }
                SessionEffect::ShowOverlay { overlay } => {
                    let _ = s.show_overlay(overlay.target_hwnd);
                }
                _ => {}
            }
        }
        assert_eq!(
            s.overlays.get(&100).unwrap().visible,
            event == EVENT_OBJECT_SHOW
        );
    }
    let seen = PolledWindow {
        target: 100,
        alive: true,
        iconic: false,
        visible: true,
    };
    for step in s.poll_overlays(&[seen]) {
        match step {
            PollStep::Sync { overlay, show } => {
                assert!(show);
                assert!(s.show_overlay(overlay.target_hwnd));
            }
            _ => panic!("the window is alive"),
        }
    }
    assert!(s.overlays.get(&100).unwrap().visible);
}

#[test]
fn a_look_at_the_badges_finds_what_changed() {
    let mut s = session();
    for target in [100, 200, 300, 400] {
        assert!(s.overlay_created(target, target + 1));
        s.tags.insert(target, tag("t"));
    }
    s.tags.insert(500, tag("no badge"));
    s.overlays.get_mut(&200).unwrap().visible = false;
    s.overlays.get_mut(&300).unwrap().visible = false;
    let seen = [
        PolledWindow {
            target: 100,
            alive: false,
            iconic: false,
            visible: false,
        },
        PolledWindow {
            target: 200,
            alive: true,
            iconic: false,
            visible: true,
        },
        PolledWindow {
            target: 300,
            alive: true,
            iconic: true,
            visible: true,
        },
        PolledWindow {
            target: 400,
            alive: true,
            iconic: false,
            visible: true,
        },
        PolledWindow {
            target: 500,
            alive: false,
            iconic: false,
            visible: false,
        },
    ];
    let steps = s.poll_overlays(&seen);
    assert!(matches!(steps[0], PollStep::Destroy { .. }));
    assert!(matches!(steps[1], PollStep::Sync { show: true, .. }));
    assert!(matches!(steps[2], PollStep::Sync { show: false, .. }));
    assert!(matches!(steps[3], PollStep::Sync { show: false, .. }));
    assert!(matches!(steps[4], PollStep::Nothing));
    assert!(!s.overlays.contains_key(&100));
    assert!(!s.tags.contains_key(&100));
    assert!(s.tags.contains_key(&500));
    assert_eq!(s.overlays.len(), 3);
}

// ------------------------------------------------------------------
// The panel
// ------------------------------------------------------------------

#[test]
fn the_panel_is_told_of_the_tags() {
    let mut s = session();
    s.tags.insert(1, tag("a"));
    s.tags.insert(2, tag("b"));
    let effects = s.dispatch_tray_command(TrayCommand::OpenPanel);
    assert!(s.panel_visible());
    assert_eq!(effects.len(), 2);
    assert!(matches!(
        effects[0],
        SessionEffect::Send(IcedCommand::ShowPanel)
    ));
    if let SessionEffect::Send(IcedCommand::RefreshTags { rows }) = &effects[1] {
        let mut targets: Vec<isize> = rows.iter().map(|r| r.target).collect();
        targets.sort();
        assert_eq!(targets, vec![1, 2]);
    } else {
        panic!("no rows");
    }
    let effects = s.dispatch_hotkey(Hotkey::TogglePanel);
    assert!(!s.panel_visible());
    assert!(matches!(
        effects[..],
        [SessionEffect::Send(IcedCommand::HidePanel)]
    ));
    // A hidden panel is not told.
    assert!(s
        .hidden_wndproc(WM_APP_TAGS_CHANGED, 1, 0, true, (0, 0))
        .is_empty());
    s.set_panel_visible(true);
    assert!(matches!(
        s.hidden_wndproc(WM_APP_TAGS_CHANGED, 1, 0, true, (0, 0))[..],
        [SessionEffect::Send(IcedCommand::RefreshTags { .. })]
    ));
}

#[test]
fn rows_hold_every_tag_once() {
    let mut s = session();
    for i in 0..20 {
        s.tags.insert(i, tag(&format!("t{i}")));
    }
    let rows = build_tag_rows(&s.tags);
    assert_eq!(rows.len(), 20);
    for row in &rows {
        assert_eq!(row.tag.title, format!("t{}", row.target));
    }
}

// ------------------------------------------------------------------
// The user interface
// ------------------------------------------------------------------

#[test]
fn a_saved_tag_gets_its_badge() {
    let mut s = session();
    let effects = s.dispatch_iced_event(
        GuiEvent::TagSaved {
            target: 42,
            tag: tag("saved"),
        },
        (0, 0),
    );
    assert_eq!(
        words(&effects),
        vec![
            format!("{:?}", SessionEffect::Post(post(WM_CREATE_OVERLAY, 42))),
            format!("{:?}", SessionEffect::Post(post(WM_APP_TAGS_CHANGED, 42))),
        ]
    );
    let effects = s.dispatch_iced_event(GuiEvent::EditTagRequested { target: 42 }, (3, 4));
    if let [SessionEffect::Send(IcedCommand::EditTag {
        target: 42,
        position: (3, 4),
        tag,
    })] = &effects[..]
    {
        assert_eq!(tag.title, "saved");
        assert_eq!(tag.color, TagColor::Blue);
    } else {
        panic!("no editor");
    }
}

#[test]
fn a_removed_tag_is_gone() {
    let mut s = session();
    s.tags.insert(42, tag("a"));
    s.set_panel_visible(true);
    let effects = s.dispatch_iced_event(GuiEvent::RemoveTag { target: 42 }, (0, 0));
    assert_eq!(effects.len(), 2);
    assert!(
        matches!(&effects[0], SessionEffect::Post(m) if *m == post(WM_DESTROY_OVERLAY, 42))
    );
    assert!(
        matches!(&effects[1], SessionEffect::Send(IcedCommand::RefreshTags { rows }) if rows.is_empty())
    );
    assert!(s
        .dispatch_iced_event(GuiEvent::EditTagRequested { target: 42 }, (0, 0))
        .is_empty());
}

#[test]
fn tags_are_not_thrown_away_unasked() {
    let mut s = session();
    assert!(matches!(
        s.dispatch_tray_command(TrayCommand::Exit)[..],
        [SessionEffect::Quit]
    ));
    s.tags.insert(1, tag("a"));
    s.tags.insert(2, tag("b"));
    assert!(matches!(
        s.dispatch_tray_command(TrayCommand::Exit)[..],
        [SessionEffect::Send(IcedCommand::ShowConfirm { count: 2 })]
    ));
    assert!(matches!(
        s.dispatch_iced_event(GuiEvent::PanelExit, (0, 0))[..],
        [SessionEffect::Send(IcedCommand::ShowConfirm { count: 2 })]
    ));
    assert!(matches!(
        s.hidden_wndproc(WM_APP_EXIT, 0, 0, true, (0, 0))[..],
        [SessionEffect::Send(IcedCommand::ShowConfirm { count: 2 })]
    ));
    assert!(s
        .dispatch_iced_event(GuiEvent::CancelExit, (0, 0))
        .is_empty());
    assert!(matches!(
        s.dispatch_iced_event(GuiEvent::ConfirmExit, (0, 0))[..],
        [SessionEffect::Quit]
    ));
    assert!(matches!(
        s.hidden_wndproc(WM_APP_EXIT, 1, 0, true, (0, 0))[..],
        [SessionEffect::Quit]
    ));
}

#[test]
fn other_events_of_the_user_interface() {
    let mut s = session();
    assert!(matches!(
        s.dispatch_iced_event(GuiEvent::ActivateWindow { target: 9 }, (0, 0))[..],
        [SessionEffect::ActivateWindow { target: 9 }]
    ));
    assert!(s
        .dispatch_iced_event(GuiEvent::PanelVisibilityChanged(true), (0, 0))
        .is_empty());
    assert!(s.panel_visible());
    assert!(s
        .dispatch_iced_event(GuiEvent::ReorderTags { targets: vec![1] }, (0, 0))
        .is_empty());
    let dark = Settings {
        theme: ThemeMode::Dark,
        ..Settings::default()
    };
    let effects = s.dispatch_iced_event(GuiEvent::SettingsChanged(dark), (0, 0));
    assert!(
        matches!(&effects[..], [SessionEffect::SaveSettings(c), SessionEffect::ReapplyTheme] if *c == dark)
    );
    assert_eq!(s.settings.value, Some(dark));
}

#[test]
fn choices_of_the_tray_and_hotkeys_agree() {
    let mut s = session();
    assert!(matches!(
        s.dispatch_tray_command(TrayCommand::QuickTag)[..],
        [SessionEffect::QuickTag]
    ));
    assert!(matches!(
        s.dispatch_hotkey(Hotkey::QuickTag)[..],
        [SessionEffect::QuickTag]
    ));
    assert!(matches!(
        s.dispatch_tray_command(TrayCommand::OpenSettings)[..],
        [SessionEffect::Send(IcedCommand::OpenSettings)]
    ));
    assert!(matches!(
        s.dispatch_hotkey(Hotkey::OpenSettings)[..],
        [SessionEffect::Send(IcedCommand::OpenSettings)]
    ));
}

// ------------------------------------------------------------------
// Messages and themes
// ------------------------------------------------------------------

#[test]
fn messages_are_routed() {
    let mut s = with_theme(ThemeMode::System);
    s.tags.insert(5, tag("a"));
    assert!(matches!(
        s.hidden_wndproc(WM_APP_OPEN_SETTINGS, 0, 0, true, (0, 0))[..],
        [SessionEffect::Send(IcedCommand::OpenSettings)]
    ));
    assert!(matches!(
        s.hidden_wndproc(WM_APP_EDIT_TAG, 5, 0, true, (1, 2))[..],
        [SessionEffect::Send(IcedCommand::EditTag {
            target: 5,
            position: (1, 2),
            ..
        })]
    ));
    assert!(s
        .hidden_wndproc(WM_APP_EDIT_TAG, 5, 0, false, (1, 2))
        .is_empty());
    assert!(matches!(
        s.hidden_wndproc(WM_APP_THEME_CHANGED, 0, 0, true, (0, 0))[..],
        [SessionEffect::ReapplyTheme]
    ));
    assert!(matches!(
        s.hidden_wndproc(WM_SETTINGCHANGE, 0, 0, true, (0, 0))[..],
        [SessionEffect::ReapplyTheme]
    ));
    assert!(matches!(
        s.hidden_wndproc(WM_TIMER, TIMER_POLL_OVERLAYS, 0, true, (0, 0))[..],
        [SessionEffect::PollOverlays]
    ));
    assert!(matches!(
        s.hidden_wndproc(WM_TIMER, TIMER_BALLOON, 0, true, (0, 0))[..],
        [SessionEffect::ShowBalloon]
    ));
    assert!(s
        .hidden_wndproc(WM_TIMER, 1, 0, true, (0, 0))
        .is_empty());
    assert!(matches!(
        s.hidden_wndproc(0x0001, 0, 0, true, (0, 0))[..],
        [SessionEffect::PassOn]
    ));
    let mut dark = with_theme(ThemeMode::Dark);
    assert!(dark
        .hidden_wndproc(WM_SETTINGCHANGE, 0, 0, true, (0, 0))
        .is_empty());
}

#[test]
fn the_theme_is_looked_up() {
    let mut s = with_theme(ThemeMode::System);
    let effects = s.reapply_theme(true);
    assert!(matches!(
        effects[..],
        [
            SessionEffect::StyleWindow {
                dark: true,
                corner: CornerPreference::Default
            },
            SessionEffect::Send(IcedCommand::ApplyTheme { dark: true }),
            SessionEffect::RedrawOverlays
        ]
    ));
    assert_eq!(s.theme.colors, Some(dark_colors()));
    assert_eq!(
        s.prefs.value.unwrap().tooltip_bg,
        dark_colors().tooltip_bg
    );
    let _ = s.reapply_theme(false);
    assert_eq!(s.theme.colors, Some(light_colors()));
}

// ------------------------------------------------------------------
// Windows of others
// ------------------------------------------------------------------

fn units(s: &str) -> Vec<u16> {
    s.encode_utf16().collect()
}

#[test]
fn a_window_is_read() {
    let title = units("标题 😀");
    let name = units("a.exe");
    let path = units("C:\\a.exe");
    let info = window_info(9, &title, 4, Some(&name), Some(&path)).unwrap();
    assert_eq!(info.hwnd, 9);
    assert_eq!(info.title, "标题 😀");
    assert_eq!(info.process_name, "a.exe");
    assert_eq!(info.process_path, "C:\\a.exe");
    assert_eq!(info.pid, 4);
    // Nothing is read of program 0.
    let info = window_info(9, &[], 0, None, None).unwrap();
    assert_eq!(info.title, "");
    assert_eq!(info.process_name, "");
}

#[test]
fn a_window_that_cannot_be_read() {
    let bad = [0xD800u16];
    let good = units("a");
    assert!(matches!(
        window_info(9, &bad, 4, None, None),
        Err(WindowError::Title)
    ));
    assert!(matches!(
        window_info(9, &good, 4, None, Some(&good)),
        Err(WindowError::ProcessName)
    ));
    assert!(matches!(
        window_info(9, &good, 4, Some(&bad), Some(&good)),
        Err(WindowError::ProcessName)
    ));
    assert!(matches!(
        window_info(9, &good, 4, Some(&good), None),
        Err(WindowError::ProcessPath)
    ));
}

#[test]
fn a_new_tag_starts_with_the_window() {
    let info = WindowInfo {
        hwnd: 11,
        title: "Editor".to_string(),
        process_name: "ed.exe".to_string(),
        process_path: "C:\\ed.exe".to_string(),
        pid: 3,
    };
    if let Some(IcedCommand::EditTag {
        target,
        position,
        tag,
    }) = handle_quick_tag(Some(info), (5, 6))
    {
        assert_eq!(target, 11);
        assert_eq!(position, (5, 6));
        assert_eq!(tag.title, "Editor");
        assert_eq!(tag.note, "");
        assert_eq!(tag.color, TagColor::Orange);
        assert_eq!(tag.window_title, "Editor");
        assert_eq!(tag.process_name, "ed.exe");
    } else {
        panic!("no editor");
    }
    assert!(handle_quick_tag(None, (0, 0)).is_none());
}

#[test]
fn the_editor_stays_on_the_screen() {
    let work = Rect {
        left: 0,
        top: 0,
        right: 1920,
        bottom: 1040,
    };
    assert_eq!(popup_position((100, 100), 96, Some(work)), (116, 116));
    assert_eq!(popup_position((1900, 1000), 96, Some(work)), (1500, 720));
    assert_eq!(popup_position((1900, 1000), 144, Some(work)), (1290, 560));
    assert_eq!(popup_position((1900, 1000), 96, None), (1916, 1016));
}

#[test]
fn windows_are_brought_to_the_front() {
    assert_eq!(activate_target(false, true), None);
    assert_eq!(
        activate_target(true, true),
        Some(RaisePlan {
            restore: true,
            foreground: true,
            insert_after: InsertAfter::Top,
            keep_place: true,
            keep_size: true,
        })
    );
    assert_eq!(
        activate_target(true, false),
        Some(RaisePlan {
            restore: false,
            foreground: true,
            insert_after: InsertAfter::Top,
            keep_place: true,
            keep_size: true,
        })
    );
}

#[test]
fn events_are_passed_on() {
    let mut target = EventTarget { hwnd: None };
    assert_eq!(
        win_event_callback(&target, EVENT_OBJECT_HIDE, 5, 0, 0, false),
        None
    );
    assert!(install(&target, 1, 2) == Err(NotBound));
    bind_hidden(&mut target, HIDDEN);
    bind_hidden(&mut target, 99);
    assert!(!install(&target, 1, 0).unwrap().is_degraded());
    assert!(install(&target, 0, 0).unwrap().is_degraded());
    assert_eq!(
        win_event_callback(&target, EVENT_OBJECT_HIDE, 5, 0, 0, false),
        Some(ForwardedEvent {
            to: HIDDEN,
            msg: WM_APP_WINEVENT,
            wparam: 5,
            lparam: EVENT_OBJECT_HIDE,
        })
    );
    assert_eq!(
        win_event_callback(&target, EVENT_OBJECT_HIDE, 5, 0, 0, true),
        None
    );
    assert_eq!(
        win_event_callback(&target, EVENT_OBJECT_HIDE, 5, 1, 0, false),
        None
    );
    assert!(win_event_callback(&target, EVENT_SYSTEM_MOVESIZEEND, 5, 0, 0, true).is_some());
}
