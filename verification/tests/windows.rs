use std::collections::{HashMap, HashSet};
use wintag::common::{
    WM_APP_EDIT_TAG, WM_APP_EXIT, WM_APP_TAGS_CHANGED, WM_APP_THEME_CHANGED, WM_CREATE_OVERLAY,
    WM_DESTROY_OVERLAY,
};
use wintag::model::settings::{CornerPreference, Settings, SharedSettings, ThemeMode};
use wintag::model::tag::{Tag, TagColor, TagStore};
use wintag::sys::overlay::{raise_plan, PostedMessage};
use wintag::ui::button::{
    button_paint, draw_button, ButtonEvent, ButtonState, ButtonStates, ButtonStyle, VK_ESCAPE,
    VK_RETURN, VK_TAB,
};
use wintag::ui::confirm;
use wintag::ui::controls::{
    erase_background, handle_ctlcolor, search_forwards, tree_forwards, ColorPair, ControlKind,
};
use wintag::ui::geo::{Place, Rect};
use wintag::ui::panel;
use wintag::ui::popup;
use wintag::ui::settings;
use wintag::ui::theme::{
    corner_value, dark_colors, detect_system_dark, light_colors, set_theme, theme_colors,
    ThemeState,
};

fn tag(title: &str, note: &str) -> Tag {
    Tag {
        title: title.to_string(),
        note: note.to_string(),
        color: TagColor::Green,
        window_title: format!("win-{title}"),
        process_name: "test.exe".to_string(),
    }
}

fn place(x: i32, y: i32, width: i32, height: i32) -> Place {
    Place {
        x,
        y,
        width,
        height,
    }
}

// ------------------------------------------------------------------
// The question whether to quit
// ------------------------------------------------------------------

#[test]
fn only_agreement_quits() {
    let yes = PostedMessage {
        to: 7,
        msg: WM_APP_EXIT,
        wparam: 1,
    };
    let a = confirm::confirm_wndproc(
        Some(7),
        confirm::ConfirmEvent::Command(confirm::IDC_OK_BUTTON),
    );
    assert_eq!((a.post, a.destroy), (Some(yes), true));
    let a = confirm::confirm_wndproc(
        Some(7),
        confirm::ConfirmEvent::KeyDown {
            key: VK_RETURN,
            shift: false,
            focused: confirm::IDC_CANCEL_BUTTON,
        },
    );
    assert_eq!((a.post, a.destroy), (Some(yes), true));
    let a = confirm::confirm_wndproc(
        Some(7),
        confirm::ConfirmEvent::Command(confirm::IDC_CANCEL_BUTTON),
    );
    assert_eq!((a.post, a.destroy), (None, true));
    let a = confirm::confirm_wndproc(
        Some(7),
        confirm::ConfirmEvent::KeyDown {
            key: VK_ESCAPE,
            shift: false,
            focused: 0,
        },
    );
    assert_eq!((a.post, a.destroy), (None, true));
    let a = confirm::confirm_wndproc(Some(7), confirm::ConfirmEvent::Close);
    assert_eq!((a.post, a.destroy), (None, true));
    let a = confirm::confirm_wndproc(None, confirm::ConfirmEvent::Command(confirm::IDC_OK_BUTTON));
    assert!(a.pass_on && !a.destroy);
}

#[test]
fn the_question_moves_the_keyboard() {
    let a = confirm::confirm_wndproc(
        Some(7),
        confirm::ConfirmEvent::KeyDown {
            key: VK_TAB,
            shift: false,
            focused: confirm::IDC_OK_BUTTON,
        },
    );
    assert_eq!(a.focus, Some(confirm::IDC_CANCEL_BUTTON));
    assert_eq!(
        confirm::focus_next_control(confirm::IDC_OK_BUTTON, false),
        confirm::IDC_CANCEL_BUTTON
    );
}

#[test]
fn the_question_is_laid_out() {
    let l = confirm::confirm_layout(96);
    assert_eq!((l.width, l.height), (380, 160));
    assert_eq!(l.message, place(16, 16, 348, 60));
    assert_eq!(l.ok, place(180, 84, 88, 30));
    assert_eq!(l.cancel, place(276, 84, 88, 30));
    assert_eq!(confirm::centered(1920, 1080, 380, 160), (770, 460));
    assert_eq!(confirm::centered(100, 100, 201, 103), (-50, -1));
}

// ------------------------------------------------------------------
// The settings
// ------------------------------------------------------------------

#[test]
fn lists_show_what_is_in_force() {
    let shared = SharedSettings {
        value: Some(Settings {
            theme: ThemeMode::Dark,
            corner: CornerPreference::Round,
            ..Settings::default()
        }),
    };
    assert_eq!(settings::refresh_selections(&shared), (2, 1));
    assert_eq!(
        settings::refresh_selections(&SharedSettings { value: None }),
        (0, 0)
    );
    assert_eq!(
        settings::current_settings(&SharedSettings { value: None }),
        Settings::default()
    );
}

#[test]
fn settings_are_saved() {
    let mut shared = SharedSettings {
        value: Some(Settings {
            badge_always_top: false,
            ..Settings::default()
        }),
    };
    let data = settings::SettingsData {
        hidden_hwnd: 7,
        visible: true,
    };
    let (saved, message) = settings::save_and_hide(&data, &mut shared, 1, 2);
    assert_eq!(
        saved,
        Settings {
            theme: ThemeMode::Light,
            corner: CornerPreference::SmallRound,
            badge_always_top: false,
            ..Settings::default()
        }
    );
    assert_eq!(shared.value, Some(saved));
    assert_eq!(
        message,
        PostedMessage {
            to: 7,
            msg: WM_APP_THEME_CHANGED,
            wparam: 0
        }
    );
}

#[test]
fn the_settings_window_reacts() {
    let mut data = Some(settings::SettingsData {
        hidden_hwnd: 7,
        visible: true,
    });
    assert_eq!(
        settings::settings_wndproc(&mut data, settings::SettingsEvent::KeyDown(0x41)),
        settings::SettingsAction::PassOn
    );
    assert_eq!(
        settings::settings_wndproc(&mut data, settings::SettingsEvent::Command(201)),
        settings::SettingsAction::Nothing
    );
    assert!(data.unwrap().visible);
    assert_eq!(
        settings::settings_wndproc(&mut data, settings::SettingsEvent::KeyDown(0x0D)),
        settings::SettingsAction::Save
    );
    assert!(!data.unwrap().visible);
    assert!(settings::toggle_settings(data.as_mut().unwrap(), 8));
    assert_eq!(data.unwrap().hidden_hwnd, 8);
    assert_eq!(
        settings::settings_wndproc(
            &mut data,
            settings::SettingsEvent::Command(settings::IDC_CANCEL_BUTTON)
        ),
        settings::SettingsAction::Disappear
    );
    let mut unknown = None;
    assert_eq!(
        settings::settings_wndproc(
            &mut unknown,
            settings::SettingsEvent::Command(settings::IDC_SAVE_BUTTON)
        ),
        settings::SettingsAction::Nothing
    );
    assert_eq!(
        settings::settings_wndproc(&mut unknown, settings::SettingsEvent::KeyDown(0x1B)),
        settings::SettingsAction::PassOn
    );
    assert_eq!(
        settings::settings_wndproc(&mut unknown, settings::SettingsEvent::Close),
        settings::SettingsAction::Disappear
    );
}

#[test]
fn the_settings_window_is_laid_out() {
    let l = settings::settings_layout(96);
    assert_eq!(l.theme_label, place(20, 28, 80, 26));
    assert_eq!(l.theme_combo, place(100, 28, 340, 200));
    assert_eq!(l.corner_label, place(20, 102, 80, 26));
    assert_eq!(l.save, place(256, 200, 88, 30));
    assert_eq!(l.cancel, place(352, 200, 88, 30));
    let l = settings::settings_layout(192);
    assert_eq!(l.theme_combo, place(200, 56, 680, 400));
    assert_eq!(l.save, place(512, 400, 176, 60));
    assert_eq!(l.cancel, place(704, 400, 176, 60));
    let mut handle = settings::SettingsHandle { hwnd: None };
    settings::set_settings_hwnd(&mut handle, 4);
    settings::set_settings_hwnd(&mut handle, 5);
    assert_eq!(settings::settings_hwnd(&handle), Some(4));
    assert_eq!(
        settings::settings_ctlcolor(None, ControlKind::Edit, true),
        ColorPair {
            fg: light_colors().edit_fg,
            bg: light_colors().edit_bg
        }
    );
    assert_eq!(
        settings::settings_ctlcolor(Some(dark_colors()), ControlKind::Edit, false),
        ColorPair {
            fg: dark_colors().fg,
            bg: dark_colors().bg
        }
    );
}

// ------------------------------------------------------------------
// The tag editor
// ------------------------------------------------------------------

fn editor() -> popup::PopupData {
    popup::PopupData {
        target_hwnd: 42,
        window_title: "Editor".to_string(),
        process_name: "ed.exe".to_string(),
        hidden_hwnd: 7,
        selected_color: TagColor::Orange,
    }
}

#[test]
fn the_editor_saves_a_tag() {
    let mut store: TagStore = HashMap::new();
    let messages = popup::save_and_close(&editor(), &mut store, "  title \t", "\n note\u{3000}");
    let saved = &store[&42];
    assert_eq!(saved.title, "title");
    assert_eq!(saved.note, "note");
    assert_eq!(saved.window_title, "Editor");
    assert_eq!(messages[0].msg, WM_CREATE_OVERLAY);
    assert_eq!(messages[1].msg, WM_APP_TAGS_CHANGED);
    assert_eq!((messages[0].to, messages[0].wparam), (7, 42));
    // Without a title the window gives it.
    let _ = popup::save_and_close(&editor(), &mut store, "   ", "");
    assert_eq!(store[&42].title, "Editor");
}

#[test]
fn the_editor_shows_the_tag() {
    let mut store: TagStore = HashMap::new();
    let p = popup::prefill(&store, 42, "Editor");
    assert_eq!((p.title.as_str(), p.note.as_str()), ("Editor", ""));
    assert_eq!(p.color, TagColor::Orange);
    store.insert(42, tag("mine", "text"));
    let p = popup::prefill(&store, 42, "Editor");
    assert_eq!((p.title.as_str(), p.note.as_str()), ("mine", "text"));
    assert_eq!(p.color, TagColor::Green);
    assert_eq!(popup::info_line("a", "b"), "窗口：a · 进程：b");
}

#[test]
fn the_editor_reacts() {
    let mut data = Some(editor());
    assert_eq!(
        popup::popup_wndproc(&mut data, popup::PopupEvent::Command(112)),
        popup::PopupAction::Redraw
    );
    assert_eq!(data.as_ref().unwrap().selected_color, TagColor::Green);
    assert_eq!(
        popup::popup_wndproc(
            &mut data,
            popup::PopupEvent::DrawItem {
                is_button: true,
                id: 112
            }
        ),
        popup::PopupAction::DrawChip {
            color: TagColor::Green,
            selected: true
        }
    );
    assert_eq!(
        popup::popup_wndproc(
            &mut data,
            popup::PopupEvent::KeyDown {
                key: VK_RETURN,
                shift: false,
                focused: 0
            }
        ),
        popup::PopupAction::Save
    );
    assert_eq!(
        popup::popup_wndproc(
            &mut data,
            popup::PopupEvent::KeyDown {
                key: VK_TAB,
                shift: true,
                focused: popup::IDC_TITLE_EDIT
            }
        ),
        popup::PopupAction::Focus(popup::IDC_CANCEL_BUTTON)
    );
    assert_eq!(
        popup::popup_wndproc(&mut None, popup::PopupEvent::Command(popup::IDC_OK_BUTTON)),
        popup::PopupAction::PassOn
    );
}

#[test]
fn text_fields_hand_keys_on() {
    assert_eq!(
        popup::edit_subclass_proc(popup::VK_A, true, false, true),
        popup::EditKey::SelectAll
    );
    assert_eq!(
        popup::edit_subclass_proc(VK_RETURN, false, true, false),
        popup::EditKey::Keep
    );
    assert_eq!(
        popup::edit_subclass_proc(VK_RETURN, false, false, false),
        popup::EditKey::Forward
    );
    assert!(search_forwards(VK_TAB) && !search_forwards(VK_RETURN));
    assert!(tree_forwards(VK_RETURN) && !tree_forwards(0x41));
}

#[test]
fn there_is_one_editor() {
    let mut active = None;
    popup::popup_opened(&mut active, 42, 900);
    assert_eq!(active.map(|a| (a.target, a.hwnd)), Some((42, 900)));
    popup::popup_destroyed(&mut active, 1);
    assert!(active.is_some());
    popup::popup_destroyed(&mut active, 900);
    assert!(active.is_none());
}

#[test]
fn the_editor_is_laid_out() {
    let l = popup::popup_layout(96);
    assert_eq!((l.width, l.height), (420, 320));
    assert_eq!(l.ok, place(224, 248, 88, 30));
    assert_eq!(l.cancel, place(320, 248, 88, 30));
    assert_eq!(l.note_edit, place(12, 142, 396, 98));
    assert_eq!(l.chips[0], place(64, 83, 40, 16));
    assert_eq!(l.chips[4], place(256, 83, 40, 16));
    let paint = popup::draw_color_chip(None, TagColor::Orange, true);
    assert_eq!((paint.fill, paint.pen, paint.pen_width), (0x004DB7FF, 0x00FFFFFF, 2));
}

// ------------------------------------------------------------------
// The panel
// ------------------------------------------------------------------

#[test]
fn the_tree_is_sorted_and_searched() {
    let mut store: TagStore = HashMap::new();
    store.insert(1, tag("beta", "first\r\nsecond\n\nlast"));
    store.insert(2, tag("alpha", ""));
    store.insert(3, tag("Gamma", "ALPHABET"));
    let expanded = HashSet::from([1]);
    let collapsed = HashSet::from([2]);
    let items = panel::refresh_tree(&store, "", &expanded, &collapsed);
    let captions: Vec<&str> = items.iter().map(|i| i.text.as_str()).collect();
    assert_eq!(
        captions,
        vec!["Gamma | win-Gamma", "alpha | win-alpha", "beta | win-beta"]
    );
    assert_eq!(items[1].details, vec!["备注：", "（无）"]);
    assert_eq!(items[2].details, vec!["备注：", "first", "second", "", "last"]);
    assert_eq!(
        items.iter().map(|i| i.expanded).collect::<Vec<_>>(),
        vec![true, false, true]
    );
    let items = panel::refresh_tree(&store, "  ALPHA ", &expanded, &collapsed);
    assert_eq!(
        items.iter().map(|i| i.target).collect::<Vec<_>>(),
        vec![3, 2]
    );
    assert!(panel::refresh_tree(&store, "nothing", &expanded, &collapsed).is_empty());
}

#[test]
fn what_is_open_is_remembered() {
    let (expanded, collapsed) = panel::collect_tree_snapshot(&[(1, true), (2, false), (3, true)]);
    assert_eq!(expanded, HashSet::from([1, 3]));
    assert_eq!(collapsed, HashSet::from([2]));
}

#[test]
fn the_panel_reacts() {
    let mut data = Some(panel::PanelData {
        visible: true,
        hidden_hwnd: 7,
    });
    let mut react = |event| panel::panel_wndproc(&mut data, event);
    assert_eq!(
        react(panel::PanelEvent::Command {
            id: panel::IDC_SEARCH_EDIT,
            code: panel::EN_CHANGE
        }),
        panel::PanelAction::Refresh
    );
    assert_eq!(
        react(panel::PanelEvent::Command {
            id: panel::IDC_EXPAND_ALL,
            code: panel::BN_CLICKED
        }),
        panel::PanelAction::SetAllExpanded(true)
    );
    assert_eq!(
        react(panel::PanelEvent::Command {
            id: panel::IDC_COLLAPSE_ALL,
            code: panel::BN_CLICKED
        }),
        panel::PanelAction::SetAllExpanded(false)
    );
    assert_eq!(
        react(panel::PanelEvent::Click {
            control: 202,
            double: true
        }),
        panel::PanelAction::TreeClick {
            keep_open_state: true
        }
    );
    assert_eq!(
        react(panel::PanelEvent::ContextMenu { with_mouse: false }),
        panel::PanelAction::Nothing
    );
    assert_eq!(
        react(panel::PanelEvent::ContextMenu { with_mouse: true }),
        panel::PanelAction::OfferMenu
    );
    assert_eq!(
        react(panel::PanelEvent::KeyDown {
            key: VK_TAB,
            shift: false,
            focused: panel::IDC_COLLAPSE_ALL
        }),
        panel::PanelAction::Focus(panel::IDC_SEARCH_EDIT)
    );
    assert_eq!(
        react(panel::PanelEvent::KeyDown {
            key: VK_RETURN,
            shift: false,
            focused: panel::IDC_LIST_VIEW
        }),
        panel::PanelAction::ActivateCaret
    );
    assert_eq!(
        react(panel::PanelEvent::TagsChanged),
        panel::PanelAction::Refresh
    );
    assert_eq!(
        react(panel::PanelEvent::Close),
        panel::PanelAction::Disappear
    );
    assert!(!data.unwrap().visible);
    assert!(panel::toggle_panel(data.as_mut().unwrap()));
    assert!(!panel::toggle_panel(data.as_mut().unwrap()));
    assert_eq!(
        panel::panel_wndproc(
            &mut None,
            panel::PanelEvent::ContextMenu { with_mouse: true }
        ),
        panel::PanelAction::PassOn
    );
}

#[test]
fn clicks_mean_tags() {
    let hit = |item, flags, parent| {
        panel::handle_tree_click(panel::TreeHit {
            item,
            flags,
            parent,
        })
    };
    assert_eq!(hit(5, 0x0004, 0), Some(5));
    assert_eq!(hit(5, 0x0010, 0), None);
    assert_eq!(hit(5, 0x0008, 0), None);
    assert_eq!(hit(5, 0x0004, 4), None);
    assert_eq!(hit(0, 0x0004, 0), None);
    assert_eq!(panel::activate_caret_item(0, 0), None);
    assert_eq!(panel::activate_caret_item(5, 0), Some(5));
    assert_eq!(panel::activate_caret_item(5, 4), Some(4));
}

#[test]
fn the_menu_of_a_tag() {
    let data = panel::PanelData {
        visible: true,
        hidden_hwnd: 7,
    };
    let mut store: TagStore = HashMap::new();
    store.insert(1, tag("a", ""));
    store.insert(2, tag("b", ""));
    assert_eq!(
        panel::handle_tree_context_menu(&data, &mut store, 1, panel::IDM_ACTIVATE, true, true),
        panel::MenuAction::Activate(panel::ActivatePlan::Raise(raise_plan(true)))
    );
    assert_eq!(
        panel::handle_tree_context_menu(&data, &mut store, 1, panel::IDM_EDIT, true, false),
        panel::MenuAction::Post(PostedMessage {
            to: 7,
            msg: WM_APP_EDIT_TAG,
            wparam: 1
        })
    );
    assert_eq!(store.len(), 2);
    assert_eq!(
        panel::handle_tree_context_menu(&data, &mut store, 1, panel::IDM_REMOVE, true, false),
        panel::MenuAction::PostAndRefresh(PostedMessage {
            to: 7,
            msg: WM_DESTROY_OVERLAY,
            wparam: 1
        })
    );
    assert!(!store.contains_key(&1));
    assert_eq!(
        panel::handle_tree_context_menu(&data, &mut store, 2, panel::IDM_ACTIVATE, false, false),
        panel::MenuAction::Activate(panel::ActivatePlan::Refresh)
    );
    assert!(store.is_empty());
    assert_eq!(
        panel::handle_tree_context_menu(&data, &mut store, 0, panel::IDM_REMOVE, true, false),
        panel::MenuAction::Nothing
    );
}

#[test]
fn the_panel_is_laid_out() {
    let l = panel::layout_children(400, 640, 96);
    assert_eq!(l.search, place(12, 12, 208, 28));
    assert_eq!(l.expand, place(228, 12, 76, 28));
    assert_eq!(l.collapse, place(312, 12, 76, 28));
    assert_eq!(l.list, place(12, 48, 376, 580));
    let l = panel::layout_children(0, 0, 96);
    assert_eq!((l.list.width, l.list.height), (1, 1));
    let l = panel::layout_children(-50, -50, 96);
    assert_eq!(l.search, place(12, 12, 0, 28));
    assert_eq!(l.expand, place(12, 12, 76, 28));
    assert_eq!(l.list, place(12, 48, 1, 1));
    let l = panel::layout_children(100_000, 70_000, 96);
    assert_eq!(l.collapse, place(99_912, 12, 76, 28));
    assert_eq!(l.list, place(12, 48, 99_976, 69_940));
    assert_eq!(panel::lparam_size(0x0280_0190), (400, 640));
    let look = panel::tree_theme(None, true);
    assert_eq!(look.class, "DarkMode_Explorer");
    assert_eq!(look.bg, light_colors().listview_bg);
    assert_eq!(panel::tree_theme(None, false).class, "Explorer");
}

// ------------------------------------------------------------------
// Buttons, colours, themes
// ------------------------------------------------------------------

#[test]
fn buttons_react() {
    let mut states = ButtonStates::new();
    states.register(1, ButtonStyle::Secondary);
    let r = states.handle(1, ButtonEvent::MouseMove);
    assert!(r.redraw && r.track_leave && r.pass_on);
    let r = states.handle(1, ButtonEvent::MouseMove);
    assert!(!r.redraw && !r.track_leave);
    assert!(states.update_state(1, ButtonEvent::LeftDown));
    assert!(states.get(1).unwrap().pressed);
    let r = states.handle(1, ButtonEvent::KeyDown(VK_TAB));
    assert!(r.forward_key && !r.pass_on);
}

#[test]
fn buttons_are_drawn() {
    let state = ButtonState {
        style: ButtonStyle::Accent,
        hot: false,
        pressed: false,
    };
    let paint = button_paint(&light_colors(), &state, false);
    assert_eq!(paint.bg, light_colors().accent);
    assert_eq!(paint.fg, 0x00FFFFFF);
    assert_eq!(paint.border, None);
    let rc = Rect {
        left: 0,
        top: 0,
        right: 88,
        bottom: 30,
    };
    let plan = draw_button(Some(light_colors()), Some(state), rc, false, true).unwrap();
    assert_eq!(plan.radius, 4);
    assert_eq!(
        plan.focus,
        Some(Rect {
            left: 4,
            top: 4,
            right: 84,
            bottom: 26
        })
    );
    assert!(draw_button(None, None, rc, false, true).is_none());
}

#[test]
fn controls_have_colours() {
    assert_eq!(handle_ctlcolor(None, ControlKind::Edit), None);
    assert_eq!(
        handle_ctlcolor(Some(dark_colors()), ControlKind::ListBox),
        Some(ColorPair {
            fg: dark_colors().listview_fg,
            bg: dark_colors().listview_bg
        })
    );
    assert_eq!(erase_background(Some(dark_colors())), Some(dark_colors().bg));
    assert_eq!(erase_background(None), None);
}

#[test]
fn themes_are_set() {
    let mut state = ThemeState { colors: None };
    assert!(theme_colors(&state).is_none());
    set_theme(&mut state, dark_colors());
    assert_eq!(theme_colors(&state), Some(dark_colors()));
    assert_eq!(corner_value(CornerPreference::Default), 0);
    assert_eq!(corner_value(CornerPreference::Round), 2);
    assert_eq!(corner_value(CornerPreference::SmallRound), 3);
    assert!(detect_system_dark(Some(0), 0x00FFFFFF));
    assert!(!detect_system_dark(Some(1), 0x00000000));
}
