use std::collections::HashSet;
use wintag::hotkey::{all_hotkeys, Hotkey};
use wintag::model::settings::{CornerPreference, Settings, ThemeMode};
use wintag::model::tag::{Tag, TagColor};
use wintag::session::{
    apply_native_prefs, parse_cli_no_tray, should_confirm_exit, single_instance_conflict,
    ERROR_ALREADY_EXISTS,
};
use wintag::sys::badge::truncate_title;
use wintag::sys::native_prefs::{native_prefs, set_native_prefs, NativePrefs, PrefsSlot};
use wintag::sys::tray::{
    should_show_balloon, tray_command_from_lparam, TrayCommand, NIN_BALLOONUSERCLICK, WM_LBUTTONUP,
    WM_RBUTTONUP,
};
use wintag::sys::win_event::{
    classify, should_forward, WinEventAction, CHILDID_SELF, EVENT_OBJECT_CLOAKED,
    EVENT_OBJECT_DESTROY, EVENT_OBJECT_HIDE, EVENT_OBJECT_LOCATIONCHANGE, EVENT_OBJECT_SHOW,
    EVENT_OBJECT_UNCLOAKED, EVENT_SYSTEM_FOREGROUND, EVENT_SYSTEM_MINIMIZEEND,
    EVENT_SYSTEM_MINIMIZESTART, EVENT_SYSTEM_MOVESIZEEND, EVENT_SYSTEM_MOVESIZESTART, OBJID_WINDOW,
};
use wintag::ui::button::{ButtonEvent, ButtonState, ButtonStates, ButtonStyle};
use wintag::ui::controls::tab_cycle_index;
use wintag::ui::geo;
use wintag::ui::iced_app::{
    apply_edit_to_rows, filter_rows, preview_reorder, reorder_rows, EditField, PanelDrag, PanelEdit,
};
use wintag::ui::iced_proto::TagRow;
use wintag::ui::layout;
use wintag::ui::panel::{button_row_layout, focus_order, root_expand_default, MIN_W};
use wintag::ui::panel_style::{
    panel_palette, truncate_units, Tint, CHEVRON_DOWN, CHEVRON_RIGHT, DRAG_HANDLE, ICON_CANCEL,
    ICON_DELETE, ICON_EDIT, ICON_SAVE, ICON_TOP,
};
use wintag::ui::popup::{color_choices, color_of_chip, IDC_COLOR_BASE};
use wintag::ui::settings::{corner_from_index, theme_from_index};
use wintag::ui::theme::{blend, dark_colors, light_colors, resolve_colors, BrushCache};

// ------------------------------------------------------------------
// Hotkeys
// ------------------------------------------------------------------

#[test]
fn test_hotkey_from_id_roundtrip() {
    for hk in [Hotkey::QuickTag, Hotkey::TogglePanel, Hotkey::OpenSettings] {
        assert_eq!(Hotkey::from_id(hk.id()), Some(hk));
    }
    assert_eq!(Hotkey::from_id(999), None);
}

#[test]
fn hotkeys_are_registered_in_order() {
    assert_eq!(
        all_hotkeys(),
        [Hotkey::QuickTag, Hotkey::TogglePanel, Hotkey::OpenSettings]
    );
    for (i, hotkey) in all_hotkeys().iter().enumerate() {
        assert_eq!(hotkey.id(), i as i32 + 1);
    }
}

#[test]
fn test_hotkey_open_settings_constants() {
    assert_eq!(Hotkey::OpenSettings.id(), 3);
    assert_eq!(Hotkey::OpenSettings.vk(), 0x53);
    assert_eq!(Hotkey::OpenSettings.modifiers(), 0x0006);
    assert_eq!(Hotkey::from_id(3), Some(Hotkey::OpenSettings));
}

// ------------------------------------------------------------------
// Starting and quitting
// ------------------------------------------------------------------

fn arg(s: &str) -> Option<String> {
    Some(s.to_string())
}

#[test]
fn single_instance_conflict_detects_duplicate() {
    assert!(single_instance_conflict(ERROR_ALREADY_EXISTS));
}

#[test]
fn single_instance_conflict_ignores_other_errors() {
    assert!(!single_instance_conflict(0));
    assert!(!single_instance_conflict(5));
}

#[test]
fn should_confirm_exit_only_when_tags_and_unconfirmed() {
    assert!(should_confirm_exit(true, false));
    assert!(!should_confirm_exit(false, false));
    assert!(!should_confirm_exit(true, true));
    assert!(!should_confirm_exit(false, true));
}

#[test]
fn parse_no_tray_true_when_flag_present() {
    let args = [
        arg("wintag"),
        arg("--no-tray"),
        arg("--config-dir"),
        arg("C:\\cfg"),
    ];
    assert!(parse_cli_no_tray(&args));
}

#[test]
fn parse_no_tray_false_when_flag_absent() {
    let args = [arg("wintag"), arg("--config-dir"), arg("C:\\cfg")];
    assert!(!parse_cli_no_tray(&args));
    assert!(!parse_cli_no_tray(&[arg("wintag")]));
}

#[test]
fn parse_no_tray_handles_non_utf8() {
    let args = [arg("wintag"), None];
    assert!(!parse_cli_no_tray(&args));
}

#[test]
fn parse_no_tray_does_not_match_prefix() {
    let args = [arg("wintag"), arg("--no-tray-extra")];
    assert!(!parse_cli_no_tray(&args));
}

#[test]
fn apply_native_prefs_maps_dark_theme() {
    let cfg = Settings {
        theme: ThemeMode::Dark,
        corner: CornerPreference::Round,
        show_badge_title: false,
        badge_always_top: false,
        show_balloon: false,
    };
    let prefs = apply_native_prefs(cfg, false);
    assert!(!prefs.show_title);
    assert!(!prefs.badge_always_top);
    assert!(!prefs.balloon_enabled);
    assert_eq!(prefs.tooltip_bg, dark_colors().tooltip_bg);
    assert_eq!(prefs.tooltip_fg, dark_colors().tooltip_fg);
}

#[test]
fn apply_native_prefs_system_follows_dark() {
    let cfg = Settings {
        theme: ThemeMode::System,
        ..Settings::default()
    };
    let dark = apply_native_prefs(cfg, true);
    let light = apply_native_prefs(cfg, false);
    assert_eq!(dark.tooltip_bg, dark_colors().tooltip_bg);
    assert_eq!(light.tooltip_bg, light_colors().tooltip_bg);
}

// ------------------------------------------------------------------
// Badges, preferences, the tray
// ------------------------------------------------------------------

#[test]
fn truncate_title_limits_and_ellipsizes() {
    assert_eq!(truncate_title("短", 5), "短");
    assert_eq!(truncate_title("五字标题哦", 5), "五字标题哦");
    assert_eq!(truncate_title("五字标题哦超出", 5), "五字标题哦…");
    assert_eq!(truncate_title("abcdefgh", 5), "abcde…");
    assert_eq!(truncate_title("窗口标题测试超长", 5), "窗口标题测…");
    assert_eq!(truncate_title("", 5), "");
    assert_eq!(truncate_title("任意", 0), "…");
}

#[test]
fn default_fields() {
    let prefs = NativePrefs::default();
    assert!(prefs.show_title);
    assert!(prefs.badge_always_top);
    assert!(prefs.balloon_enabled);
    assert_eq!(prefs.tooltip_bg, 0x00FFFFFF);
    assert_eq!(prefs.tooltip_fg, 0x00000000);
}

#[test]
fn set_then_read_roundtrip() {
    let prefs = NativePrefs {
        show_title: false,
        badge_always_top: false,
        tooltip_bg: 0x00202020,
        tooltip_fg: 0x00E6E6E6,
        balloon_enabled: false,
    };
    let mut slot = PrefsSlot { value: None };
    assert_eq!(native_prefs(&slot), NativePrefs::default());
    set_native_prefs(&mut slot, prefs);
    assert_eq!(native_prefs(&slot), prefs);
}

#[test]
fn lbutton_up_maps_to_open_panel() {
    assert_eq!(
        tray_command_from_lparam(WM_LBUTTONUP),
        Some(TrayCommand::OpenPanel)
    );
}

#[test]
fn balloon_user_click_maps_to_open_panel() {
    assert_eq!(
        tray_command_from_lparam(NIN_BALLOONUSERCLICK),
        Some(TrayCommand::OpenPanel)
    );
}

#[test]
fn rbutton_up_and_zero_map_to_none() {
    assert_eq!(tray_command_from_lparam(WM_RBUTTONUP), None);
    assert_eq!(tray_command_from_lparam(0), None);
}

#[test]
fn balloon_shown_only_when_enabled_and_tray_present() {
    assert!(should_show_balloon(false, true));
    assert!(!should_show_balloon(true, true));
    assert!(!should_show_balloon(false, false));
}

// ------------------------------------------------------------------
// Events of other windows
// ------------------------------------------------------------------

#[test]
fn classify_location_change_and_foreground_and_unknown() {
    assert_eq!(classify(EVENT_OBJECT_LOCATIONCHANGE), WinEventAction::Sync);
    assert_eq!(
        classify(EVENT_SYSTEM_FOREGROUND),
        WinEventAction::BringToTop
    );
    assert_eq!(classify(0x9999), WinEventAction::Ignore);
}

#[test]
fn classify_destroy_and_minimize_start() {
    assert_eq!(classify(EVENT_OBJECT_DESTROY), WinEventAction::Forget);
    assert_eq!(classify(EVENT_SYSTEM_MINIMIZESTART), WinEventAction::Hide);
}

#[test]
fn classify_hide_variants() {
    assert_eq!(classify(EVENT_OBJECT_HIDE), WinEventAction::Hide);
    assert_eq!(classify(EVENT_OBJECT_CLOAKED), WinEventAction::Hide);
}

#[test]
fn classify_show_variants() {
    assert_eq!(classify(EVENT_SYSTEM_MINIMIZEEND), WinEventAction::Show);
    assert_eq!(classify(EVENT_OBJECT_SHOW), WinEventAction::Show);
    assert_eq!(classify(EVENT_OBJECT_UNCLOAKED), WinEventAction::Show);
}

#[test]
fn classify_move_start_end() {
    assert_eq!(
        classify(EVENT_SYSTEM_MOVESIZESTART),
        WinEventAction::MoveStart
    );
    assert_eq!(classify(EVENT_SYSTEM_MOVESIZEEND), WinEventAction::MoveEnd);
}

#[test]
fn should_forward_true_when_all_filters_match() {
    assert!(should_forward(OBJID_WINDOW, CHILDID_SELF, 0x1234));
}

#[test]
fn should_forward_false_when_any_filter_breaks() {
    assert!(!should_forward(1, CHILDID_SELF, 0x1234));
    assert!(!should_forward(OBJID_WINDOW, 1, 0x1234));
    assert!(!should_forward(OBJID_WINDOW, CHILDID_SELF, 0));
}

// ------------------------------------------------------------------
// Buttons
// ------------------------------------------------------------------

#[test]
fn state_registry_insert_remove() {
    let mut states = ButtonStates::new();
    states.register(0xDEAD_BEEF, ButtonStyle::Accent);
    assert_eq!(
        states.get(0xDEAD_BEEF),
        Some(ButtonState {
            style: ButtonStyle::Accent,
            hot: false,
            pressed: false,
        })
    );
    let _ = states.handle(0xDEAD_BEEF, ButtonEvent::Destroyed);
    assert!(states.get(0xDEAD_BEEF).is_none());
}

// ------------------------------------------------------------------
// Scaling
// ------------------------------------------------------------------

#[test]
fn geo_scale_px_levels() {
    assert_eq!(geo::scale_px(12, 96), 12);
    assert_eq!(geo::scale_px(12, 144), 18);
    assert_eq!(geo::scale_px(12, 192), 24);
    assert_eq!(geo::scale_px(100, 120), 125);
}

#[test]
fn geo_scale_px_rounding() {
    assert_eq!(geo::scale_px(12, 110), 14);
    assert_eq!(geo::scale_px(10, 110), 11);
}

#[test]
fn geo_scale_px_fallbacks() {
    assert_eq!(geo::scale_px(12, 0), 12);
    assert_eq!(geo::scale_px(1, 96), 1);
    assert_eq!(geo::scale_px(0, 96), 1);
}

#[test]
fn unscale_px_reverts_scale() {
    assert_eq!(geo::unscale_px(24, 96), 24);
    assert_eq!(geo::unscale_px(36, 144), 24);
    assert_eq!(geo::unscale_px(48, 192), 24);
}

#[test]
fn the_largest_size_is_kept() {
    assert_eq!(geo::scale_px(i32::MAX, 96), i32::MAX);
    assert_eq!(geo::unscale_px(geo::scale_px(i32::MAX, 96), 96), i32::MAX);
    assert_eq!(geo::scale_px(i32::MAX, 192), i32::MAX);
}

#[test]
fn unscale_scale_roundtrip() {
    for dpi in [96, 110, 120, 144, 192] {
        for logical in [1, 8, 16, 24, 100, 420] {
            assert_eq!(
                geo::unscale_px(geo::scale_px(logical, dpi), dpi),
                logical
            );
        }
    }
}

#[test]
fn unscale_px_fallback() {
    assert_eq!(geo::unscale_px(24, 0), 24);
}

#[test]
fn layout_scale_px_levels() {
    assert_eq!(layout::scale_px(12, 96), 12);
    assert_eq!(layout::scale_px(12, 144), 18);
    assert_eq!(layout::scale_px(12, 192), 24);
    assert_eq!(layout::scale_px(100, 120), 125);
}

#[test]
fn layout_scale_px_rounding() {
    assert_eq!(layout::scale_px(12, 110), 14);
    assert_eq!(layout::scale_px(10, 110), 11);
}

#[test]
fn layout_scale_px_fallbacks() {
    assert_eq!(layout::scale_px(12, 0), 12);
    assert_eq!(layout::scale_px(1, 96), 1);
    assert_eq!(layout::scale_px(0, 96), 1);
}

// ------------------------------------------------------------------
// The rows of the panel
// ------------------------------------------------------------------

fn row(title: &str, note: &str, target: isize) -> TagRow {
    TagRow {
        target,
        tag: Tag {
            title: title.to_string(),
            note: note.to_string(),
            color: TagColor::Orange,
            window_title: format!("win-{title}"),
            process_name: format!("proc-{title}"),
        },
    }
}

#[test]
fn filter_rows_matches_any_field_case_insensitive() {
    let rows = vec![row("记事本", "工作便签", 1), row("浏览器", "阅读", 2)];
    assert_eq!(filter_rows(&rows, "").len(), 2);
    assert_eq!(filter_rows(&rows, "记事").len(), 1);
    assert_eq!(filter_rows(&rows, "阅读").len(), 1);
    assert_eq!(filter_rows(&rows, "WIN-浏览器").len(), 1);
    assert_eq!(filter_rows(&rows, "proc-浏览器").len(), 1);
    assert_eq!(filter_rows(&rows, "不存在").len(), 0);
    assert_eq!(filter_rows(&rows, "WIN-记事本").len(), 1);
}

#[test]
fn apply_edit_title_updates_row() {
    let rows = vec![row("旧标题", "备注", 1), row("另一", "备注2", 2)];
    let edit = PanelEdit {
        target: 1,
        field: EditField::Title,
        draft: "新标题".to_string(),
    };
    let (new_rows, tag) = apply_edit_to_rows(&rows, &edit);
    assert_eq!(new_rows[0].tag.title, "新标题");
    assert_eq!(new_rows[0].tag.note, "备注");
    assert_eq!(tag.title, "新标题");
    assert_eq!(new_rows[1].tag.title, "另一");
}

#[test]
fn apply_edit_note_updates_row() {
    let rows = vec![row("标题", "旧备注", 1)];
    let edit = PanelEdit {
        target: 1,
        field: EditField::Note,
        draft: "新备注".to_string(),
    };
    let (new_rows, tag) = apply_edit_to_rows(&rows, &edit);
    assert_eq!(new_rows[0].tag.note, "新备注");
    assert_eq!(tag.note, "新备注");
    assert_eq!(tag.title, "标题");
}

#[test]
fn apply_edit_unknown_target_falls_back() {
    let rows = vec![row("标题", "备注", 1)];
    let edit = PanelEdit {
        target: 99,
        field: EditField::Title,
        draft: "x".to_string(),
    };
    let (new_rows, tag) = apply_edit_to_rows(&rows, &edit);
    assert_eq!(new_rows[0].tag.title, "标题");
    assert_eq!(tag.title, "标题");
}

#[test]
fn preview_reorder_move_down() {
    let rows = vec![row("a", "", 1), row("b", "", 2), row("c", "", 3)];
    let drag = PanelDrag {
        from_target: 1,
        over_target: Some(2),
    };
    assert_eq!(preview_reorder(&rows, &drag), vec![2, 1, 3]);
}

#[test]
fn preview_reorder_move_up_and_same() {
    let rows = vec![row("a", "", 1), row("b", "", 2), row("c", "", 3)];
    let drag = PanelDrag {
        from_target: 1,
        over_target: Some(3),
    };
    assert_eq!(preview_reorder(&rows, &drag), vec![2, 3, 1]);
    let same = PanelDrag {
        from_target: 2,
        over_target: Some(2),
    };
    assert_eq!(preview_reorder(&rows, &same), vec![1, 2, 3]);
}

#[test]
fn preview_reorder_noop() {
    let rows = vec![row("a", "", 1), row("b", "", 2)];
    let none = PanelDrag {
        from_target: 1,
        over_target: None,
    };
    assert_eq!(preview_reorder(&rows, &none), vec![1, 2]);
    let unknown = PanelDrag {
        from_target: 99,
        over_target: Some(1),
    };
    assert_eq!(preview_reorder(&rows, &unknown), vec![1, 2]);
}

#[test]
fn reorder_rows_applies_order() {
    let rows = vec![row("a", "", 1), row("b", "", 2), row("c", "", 3)];
    let reordered = reorder_rows(&rows, &[2, 3, 1]);
    assert_eq!(
        reordered.iter().map(|r| r.target).collect::<Vec<_>>(),
        vec![2, 3, 1]
    );
    assert_eq!(reordered[0].tag.title, "b");
}

#[test]
fn reorder_rows_append_missing() {
    let rows = vec![row("a", "", 1), row("b", "", 2)];
    let reordered = reorder_rows(&rows, &[1]);
    assert_eq!(
        reordered.iter().map(|r| r.target).collect::<Vec<_>>(),
        vec![1, 2]
    );
}

// ------------------------------------------------------------------
// The panel of controls
// ------------------------------------------------------------------

#[test]
fn unknown_target_expands_by_default() {
    let expanded = HashSet::new();
    let collapsed = HashSet::new();
    assert!(root_expand_default(&expanded, &collapsed, 42));
}

#[test]
fn collapsed_target_stays_collapsed() {
    let expanded = HashSet::new();
    let collapsed = HashSet::from([42]);
    assert!(!root_expand_default(&expanded, &collapsed, 42));
}

#[test]
fn expanded_target_stays_expanded() {
    let expanded = HashSet::from([42]);
    let collapsed = HashSet::new();
    assert!(root_expand_default(&expanded, &collapsed, 42));
}

#[test]
fn expanded_takes_priority_when_in_both_sets() {
    let expanded = HashSet::from([42]);
    let collapsed = HashSet::from([42]);
    assert!(root_expand_default(&expanded, &collapsed, 42));
}

#[test]
fn button_row_normal_width_right_aligns() {
    let (search_w, btn_x, btn_y) = button_row_layout(400, 12, 64, 8);
    assert_eq!(btn_x, 252);
    assert_eq!(btn_x + 64 * 2 + 8 + 12, 400);
    assert_eq!(search_w, 232);
    assert_eq!(btn_y, 12);
}

#[test]
fn button_row_min_width_keeps_positive_sizes() {
    let (search_w, btn_x, btn_y) = button_row_layout(MIN_W, 12, 64, 8);
    assert!(search_w > 0);
    assert!(btn_x >= 12);
    assert_eq!(btn_y, 12);
}

#[test]
fn button_row_extremely_narrow_clamps() {
    let (search_w, btn_x, btn_y) = button_row_layout(100, 12, 64, 8);
    assert_eq!(search_w, 0);
    assert_eq!(btn_x, 12);
    assert_eq!(btn_y, 12);
}

#[test]
fn button_row_y_is_margin_always() {
    for w in [160, 300, 400, 800] {
        assert_eq!(button_row_layout(w, 12, 64, 8).2, 12);
    }
}

#[test]
fn tab_cycle_forward_returns_next_index() {
    let order = [201, 202, 203, 204];
    assert_eq!(tab_cycle_index(201, &order, true), 1);
    assert_eq!(tab_cycle_index(202, &order, true), 2);
    assert_eq!(tab_cycle_index(203, &order, true), 3);
}

#[test]
fn tab_cycle_backward_returns_previous_index() {
    let order = [201, 202, 203, 204];
    assert_eq!(tab_cycle_index(202, &order, false), 0);
    assert_eq!(tab_cycle_index(203, &order, false), 1);
    assert_eq!(tab_cycle_index(204, &order, false), 2);
}

#[test]
fn tab_cycle_wraps_around_both_directions() {
    let order = [201, 202, 203, 204];
    assert_eq!(tab_cycle_index(204, &order, true), 0);
    assert_eq!(tab_cycle_index(201, &order, false), 3);
}

#[test]
fn tab_cycle_unknown_id_returns_first() {
    let order = [201, 202, 203, 204];
    assert_eq!(tab_cycle_index(999, &order, true), 0);
    assert_eq!(tab_cycle_index(-1, &order, false), 0);
}

#[test]
fn tab_cycle_round_trip_on_focus_order() {
    let order = focus_order();
    for &id in order.iter() {
        let fwd = tab_cycle_index(id, &order, true);
        let back = tab_cycle_index(order[fwd], &order, false);
        assert_eq!(order[back], id);
    }
}

// ------------------------------------------------------------------
// The look of the panel
// ------------------------------------------------------------------

#[test]
fn truncate_ascii() {
    assert_eq!(truncate_units("abcde", 3), "ab…");
    assert_eq!(truncate_units("abcde", 5), "abcde");
}

#[test]
fn truncate_chinese() {
    assert_eq!(truncate_units("测试字样", 6), "测试…");
    assert_eq!(truncate_units("测试字样", 4), "测…");
}

#[test]
fn truncate_mixed() {
    assert_eq!(truncate_units("ab测试", 4), "ab…");
    assert_eq!(truncate_units("ab测试", 5), "ab测…");
}

#[test]
fn truncate_under_limit_returns_clone() {
    let s = "短文本";
    assert_eq!(truncate_units(s, 100), s);
    assert_eq!(truncate_units("测试", 4), "测试");
}

#[test]
fn truncate_zero_limit() {
    assert_eq!(truncate_units("abc", 0), "…");
}

#[test]
fn palette_smoke() {
    let dark = panel_palette(true);
    let light = panel_palette(false);
    assert_ne!(dark.surface, light.surface);
    assert_eq!(
        dark.accent,
        Tint {
            red: 0x00,
            green: 0x78,
            blue: 0xD4,
            opacity: 100,
        }
    );
    assert_eq!(
        dark.surface,
        Tint {
            red: 0x20,
            green: 0x20,
            blue: 0x20,
            opacity: 100,
        }
    );
}

#[test]
fn glyphs_non_empty() {
    for g in [
        DRAG_HANDLE,
        CHEVRON_RIGHT,
        CHEVRON_DOWN,
        ICON_EDIT,
        ICON_DELETE,
        ICON_TOP,
        ICON_SAVE,
        ICON_CANCEL,
    ] {
        assert!(!g.is_empty());
    }
}

// ------------------------------------------------------------------
// The editor and the settings
// ------------------------------------------------------------------

#[test]
fn color_choices_are_distinct() {
    assert_eq!(color_choices().len(), 5);
    let mut rgba: Vec<_> = color_choices().iter().map(|c| c.as_rgba()).collect();
    rgba.sort();
    rgba.dedup();
    assert_eq!(rgba.len(), 5);
}

#[test]
fn color_chip_id_range_matches_choices() {
    let last = IDC_COLOR_BASE + color_choices().len() as i32 - 1;
    assert!(
        (IDC_COLOR_BASE..=last).contains(&(IDC_COLOR_BASE + 4)),
        "the fifth colour has a button"
    );
    assert!(!(IDC_COLOR_BASE..=last).contains(&(last + 1)));
    assert_eq!(color_of_chip(IDC_COLOR_BASE + 4), Some(TagColor::Purple));
    assert_eq!(color_of_chip(last + 1), None);
}

#[test]
fn theme_index_mapping() {
    assert_eq!(theme_from_index(0), ThemeMode::System);
    assert_eq!(theme_from_index(1), ThemeMode::Light);
    assert_eq!(theme_from_index(2), ThemeMode::Dark);
    assert_eq!(theme_from_index(-1), ThemeMode::System);
    assert_eq!(theme_from_index(99), ThemeMode::System);
}

#[test]
fn corner_index_mapping() {
    assert_eq!(corner_from_index(0), CornerPreference::Default);
    assert_eq!(corner_from_index(1), CornerPreference::Round);
    assert_eq!(corner_from_index(2), CornerPreference::SmallRound);
    assert_eq!(corner_from_index(-1), CornerPreference::Default);
    assert_eq!(corner_from_index(99), CornerPreference::Default);
}

// ------------------------------------------------------------------
// Themes
// ------------------------------------------------------------------

#[test]
fn resolve_light_dark_match_palettes() {
    let light = resolve_colors(ThemeMode::Light, true);
    let dark = resolve_colors(ThemeMode::Dark, false);
    assert_eq!(light, light_colors());
    assert_eq!(dark, dark_colors());
    assert_ne!(light.bg, dark.bg);
    assert_ne!(light.fg, dark.fg);
    assert_ne!(light.edit_bg, dark.edit_bg);
    assert_ne!(light.tooltip_bg, dark.tooltip_bg);
    assert_ne!(light.border, dark.border);
    assert_ne!(light.hover, dark.hover);
    assert_ne!(light.selected, dark.selected);
    assert_ne!(light.muted, dark.muted);
    assert_ne!(light.listview_alt_bg, dark.listview_alt_bg);
}

#[test]
fn blend_endpoints_and_midpoint() {
    let black = 0x00000000;
    let white = 0x00FFFFFF;
    assert_eq!(blend(black, white, 0), black);
    assert_eq!(blend(black, white, 100), white);
    let mid = blend(black, white, 50);
    assert_eq!(mid & 0xFF, 128);
    assert_eq!(blend(black, white, 200), white);
    assert_eq!(blend(black, white, -100), black);
    let red = 0x000000FF;
    let blue = 0x00FF0000;
    let mid_rb = blend(red, blue, 50);
    assert_eq!(mid_rb & 0xFF, 128);
    assert_eq!((mid_rb >> 16) & 0xFF, 128);
}

#[test]
fn dark_palette_soft_contrast() {
    let dark = dark_colors();
    let luma = |c: u32| -> u32 {
        let r = c & 0xFF;
        let g = (c >> 8) & 0xFF;
        let b = (c >> 16) & 0xFF;
        (r * 299 + g * 587 + b * 114) / 1000
    };
    assert!(luma(dark.bg) >= 28 && luma(dark.bg) <= 48);
    assert!(luma(dark.fg) - luma(dark.bg) > 180);
    assert_ne!(dark.hover, dark.bg);
    assert_ne!(dark.selected, dark.bg);
}

#[test]
fn resolve_system_follows_system_dark() {
    assert_eq!(resolve_colors(ThemeMode::System, true), dark_colors());
    assert_eq!(resolve_colors(ThemeMode::System, false), light_colors());
}

#[test]
fn get_brush_caches_same_pointer() {
    let mut cache = BrushCache::new();
    assert_eq!(cache.get_brush(0x00FFFFFF), None);
    cache.keep(0x00FFFFFF, 0x77);
    let first = cache.get_brush(0x00FFFFFF);
    let second = cache.get_brush(0x00FFFFFF);
    assert_eq!(first, Some(0x77));
    assert_eq!(first, second);
}
