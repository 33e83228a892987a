use std::collections::HashMap;
use wintag::common::{encode_utf16, widestring, WM_APP_EDIT_TAG};
use wintag::model::tag::{Tag, TagColor, TagStore};
use wintag::sys::badge::{pixel_buffer, Pixel};
use wintag::sys::overlay::{
    badge_always_top, badge_layout, badge_stroke_rgba, badge_title, begin_hover, click_request,
    colorref_to_rgb, compose_badge,
    fallback_color, get_target_hwnd, handle_mouse_leave, hit_test, hover_not_armed, lparam_point,
    overlay_style, overlay_text_into, paint_tooltip, pill_colors, place_badge, place_tooltip,
    point_in_badge_triangle, register_overlay, request_edit_tag, set_badge_always_top,
    set_message_target, set_show_title, set_tag_store, set_tooltip_theme, stack_plan,
    sync_position, tag_color_rgba, text_strip, title_text, title_width, tooltip_note_rect,
    tooltip_request, tooltip_size, tooltip_style, tooltip_title_rect, unregister_overlay,
    InsertAfter, Overlay, OverlayConfig, PostedMessage, StackPlan, SyncPlan, TargetMap,
    TargetWindow, TRIANGLE_BYTES,
};
use wintag::sys::tray::{
    balloon_enabled, fill_wide, menu_command, set_balloon_enabled, tray_action, tray_message,
    BalloonSwitch, TrayAction, TrayCommand, MENU_ID_EXIT, MENU_ID_OPEN_SETTINGS, MENU_ID_QUICK_TAG,
};
use wintag::sys::win_event::{event_ranges, should_post, EVENT_SYSTEM_MOVESIZEEND};
use wintag::ui::geo::{clamp_to_work, Place, Rect};

fn tag(title: &str, note: &str) -> Tag {
    Tag {
        title: title.to_string(),
        note: note.to_string(),
        color: TagColor::Red,
        window_title: " window ".to_string(),
        process_name: "test.exe".to_string(),
    }
}

fn rect(left: i32, top: i32, right: i32, bottom: i32) -> Rect {
    Rect {
        left,
        top,
        right,
        bottom,
    }
}

// ------------------------------------------------------------------
// Following windows
// ------------------------------------------------------------------

#[test]
fn badges_are_connected() {
    let mut config = OverlayConfig::new();
    assert_eq!(request_edit_tag(&config, 5), None);
    set_message_target(&mut config, 7);
    set_message_target(&mut config, 8);
    assert_eq!(
        request_edit_tag(&config, 5),
        Some(PostedMessage {
            to: 7,
            msg: WM_APP_EDIT_TAG,
            wparam: 5
        })
    );
    let mut targets: TargetMap = HashMap::new();
    register_overlay(&mut targets, 30, 5);
    assert_eq!(
        click_request(&config, &targets, 30),
        Some(PostedMessage {
            to: 7,
            msg: WM_APP_EDIT_TAG,
            wparam: 5
        })
    );
    assert_eq!(click_request(&config, &targets, 31), None);
    assert_eq!(click_request(&OverlayConfig::new(), &targets, 30), None);
    assert!(badge_always_top(&config));
    set_badge_always_top(&mut config, false);
    assert!(!badge_always_top(&config));
    let mut slot = None;
    set_tag_store(&mut slot, 1);
    set_tag_store(&mut slot, 2);
    assert_eq!(slot, Some(1));
}

#[test]
fn badges_follow_windows() {
    let window = TargetWindow {
        minimized: false,
        visible: true,
        frame: Some(rect(10, 20, 110, 120)),
        window: Some(rect(3, 20, 117, 127)),
        topmost: false,
        previous: 0,
    };
    assert_eq!(
        sync_position(&window, false, true, true),
        SyncPlan::Move {
            left: 10,
            top: 20,
            stack: StackPlan {
                band: None,
                insert_after: InsertAfter::Topmost
            }
        }
    );
    // At the end of a move the whole window counts.
    assert!(matches!(
        sync_position(&window, true, true, true),
        SyncPlan::Move { left: 3, .. }
    ));
    let minimized = TargetWindow {
        minimized: true,
        ..window
    };
    assert_eq!(sync_position(&minimized, false, true, true), SyncPlan::Hide);
    let flat = TargetWindow {
        frame: Some(rect(10, 20, 10, 120)),
        ..window
    };
    assert_eq!(sync_position(&flat, false, true, true), SyncPlan::Keep);
    let lost = TargetWindow {
        frame: None,
        window: None,
        ..window
    };
    assert_eq!(sync_position(&lost, false, true, true), SyncPlan::Lost);
}

#[test]
fn badges_are_stacked() {
    assert_eq!(
        stack_plan(false, true, false, 9),
        StackPlan {
            band: Some(true),
            insert_after: InsertAfter::Window(9)
        }
    );
    assert_eq!(
        stack_plan(false, false, true, 0),
        StackPlan {
            band: Some(false),
            insert_after: InsertAfter::Top
        }
    );
    assert_eq!(overlay_style(true), 0x0808_0088);
    assert_eq!(overlay_style(false), 0x0808_0080);
    assert_eq!(tooltip_style(true), 0x0800_0088);
    assert_eq!(place_badge(rect(1, 2, 3, 4)), Some((1, 2)));
    assert_eq!(place_badge(rect(1, 2, 1, 4)), None);
}

#[test]
fn badges_are_shown_and_hidden() {
    let mut overlay = Overlay::new(900, 100);
    assert!(overlay.is_visible() && overlay.is_running());
    let plan = overlay.hide_badge(5);
    assert!(plan.hide_window);
    assert_eq!(plan.close_tooltip, Some(5));
    let plan = overlay.hide_badge(5);
    assert!(!plan.hide_window);
    assert_eq!(plan.close_tooltip, None);
    assert!(overlay.show());
    assert!(!overlay.show());
    assert_eq!(overlay.end(0), None);
    assert!(!overlay.is_running());
}

// ------------------------------------------------------------------
// Pointing at badges
// ------------------------------------------------------------------

#[test]
fn every_visit_is_tracked() {
    let mut map: TargetMap = HashMap::new();
    register_overlay(&mut map, 900, 100);
    assert_eq!(get_target_hwnd(&map, 900), 100);
    assert_eq!(get_target_hwnd(&map, 901), 0);
    assert!(begin_hover(&mut map, 900));
    assert!(!begin_hover(&mut map, 900));
    assert_eq!(handle_mouse_leave(&mut map, 900, 3), Some(3));
    assert!(begin_hover(&mut map, 900));
    hover_not_armed(&mut map, 900);
    assert!(begin_hover(&mut map, 900));
    assert!(!begin_hover(&mut map, 901));
    unregister_overlay(&mut map, 900);
    assert_eq!(get_target_hwnd(&map, 900), 0);
}

#[test]
fn the_pointer_is_taken() {
    assert!(point_in_badge_triangle(0, 0, 18));
    assert!(point_in_badge_triangle(9, 9, 18));
    assert!(!point_in_badge_triangle(10, 9, 18));
    assert!(!point_in_badge_triangle(-1, 0, 18));
    let win = rect(100, 100, 180, 122);
    assert!(hit_test(win, 102, 102));
    assert!(!hit_test(win, 101, 101));
    assert!(hit_test(win, 122, 103));
    assert!(!hit_test(win, 122, 119));
    assert!(!hit_test(win, 180, 103));
    assert_eq!(lparam_point(0xFFFE_0005u32 as isize), (5, -2));
}

// ------------------------------------------------------------------
// What badges show
// ------------------------------------------------------------------

#[test]
fn badges_have_colours() {
    let mut map: TargetMap = HashMap::new();
    register_overlay(&mut map, 900, 100);
    let mut store: TagStore = HashMap::new();
    assert_eq!(tag_color_rgba(&map, 900, Some(&store)), fallback_color());
    store.insert(100, tag("a", ""));
    assert_eq!(
        tag_color_rgba(&map, 900, Some(&store)),
        [239, 83, 80, 255]
    );
    assert_eq!(tag_color_rgba(&map, 900, None), [255, 183, 77, 255]);
    assert_eq!(badge_stroke_rgba(None), [60, 60, 60, 255]);
    assert_eq!(badge_stroke_rgba(Some(0x00112233)), [0x33, 0x22, 0x11, 255]);
    assert_eq!(colorref_to_rgb(0x00112233), [0x33, 0x22, 0x11]);
}

#[test]
fn badges_have_titles() {
    let mut config = OverlayConfig::new();
    let mut store: TagStore = HashMap::new();
    store.insert(1, tag("  很长的标题文字 ", ""));
    store.insert(2, tag("", ""));
    store.insert(3, tag(" \u{3000}", ""));
    assert_eq!(
        title_text(&config, Some(&store), 1),
        Some("很长的标题…".to_string())
    );
    assert_eq!(
        title_text(&config, Some(&store), 2),
        Some("windo…".to_string())
    );
    assert_eq!(title_text(&config, Some(&store), 3), None);
    assert_eq!(title_text(&config, Some(&store), 4), None);
    let mut targets: TargetMap = HashMap::new();
    register_overlay(&mut targets, 30, 2);
    store.insert(0, tag("no window", ""));
    assert_eq!(
        badge_title(&config, &targets, Some(&store), 30),
        Some("windo…".to_string())
    );
    assert_eq!(badge_title(&config, &targets, Some(&store), 31), None);
    assert_eq!(badge_title(&config, &targets, None, 30), None);
    set_show_title(&mut config, false);
    assert_eq!(title_text(&config, Some(&store), 1), None);
    assert_eq!(title_width(50, 3), 50);
    assert_eq!(title_width(0, 3), 36);
    assert_eq!(title_width(50, 0), 0);
}

#[test]
fn a_badge_is_put_together() {
    let layout = badge_layout(Some(2));
    assert_eq!((layout.width, layout.pill_width), (38, 16));
    let triangle = vec![7u8; TRIANGLE_BYTES];
    let pill = vec![9u8; 16 * 16 * 4];
    let picture = compose_badge(&layout, &triangle, &pill);
    assert_eq!(picture.len(), 38 * 22 * 4);
    let at = |x: usize, y: usize| picture[(y * 38 + x) * 4];
    assert_eq!(at(0, 0), 0);
    assert_eq!(at(2, 2), 7);
    assert_eq!(at(19, 19), 7);
    assert_eq!(at(20, 19), 0);
    assert_eq!(at(22, 2), 0);
    assert_eq!(at(22, 3), 9);
    assert_eq!(at(37, 18), 9);
    assert_eq!(at(37, 19), 0);
    assert_eq!(badge_layout(None).width, 22);
    assert_eq!(
        text_strip(&layout),
        Place {
            x: 29,
            y: 3,
            width: 2,
            height: 16
        }
    );
}

#[test]
fn text_is_laid_over_a_badge() {
    let mut picture = vec![100u8; 2 * 2 * 4];
    let strip = Place {
        x: 1,
        y: 0,
        width: 1,
        height: 2,
    };
    // Fully covered above, half covered below.
    let mask = [0, 0, 255, 0, 0, 0, 128, 0];
    overlay_text_into(&mut picture, 2, &strip, &mask, &[10, 20, 30]);
    assert_eq!(picture[0..4], [100, 100, 100, 100]);
    assert_eq!(picture[4..8], [30, 20, 10, 255]);
    assert_eq!(picture[8..12], [100, 100, 100, 100]);
    assert_eq!(picture[12..16], [65, 60, 55, 178]);
}

#[test]
fn points_become_bytes() {
    let p = Pixel {
        red: 1,
        green: 2,
        blue: 3,
        alpha: 4,
    };
    assert_eq!(
        pixel_buffer(&[Some(p), None]),
        vec![3, 2, 1, 4, 0, 0, 0, 0]
    );
    assert!(pixel_buffer(&[]).is_empty());
}

// ------------------------------------------------------------------
// Tooltips
// ------------------------------------------------------------------

#[test]
fn tooltips_show_tags() {
    let mut map: TargetMap = HashMap::new();
    register_overlay(&mut map, 900, 100);
    let mut store: TagStore = HashMap::new();
    assert!(tooltip_request(&map, 900, 0, Some(&store)).is_none());
    store.insert(100, tag("title", "one\ntwo"));
    assert!(tooltip_request(&map, 900, 5, Some(&store)).is_none());
    let text = tooltip_request(&map, 900, 0, Some(&store)).unwrap();
    assert_eq!(text.text, "title\none\ntwo");
    let config = OverlayConfig::new();
    let paint = paint_tooltip(&config, None, rect(0, 0, 100, 50), &text.text);
    assert_eq!(paint.title, "title");
    assert_eq!(paint.note, "one\ntwo");
    assert_eq!(paint.frame, rect(0, 0, 99, 49));
    assert_eq!((paint.bg, paint.border), (0x00FFFFFF, 0x00808080));
}

#[test]
fn tooltips_have_places() {
    assert_eq!(tooltip_size(false, false, (200, 18), (90, 40)), (222, 84));
    assert_eq!(tooltip_size(false, true, (50, 18), (0, 0)), (142, 42));
    let work = rect(0, 0, 1000, 800);
    assert_eq!(place_tooltip(100, 100, (142, 42), Some(work)), (90, 116));
    assert_eq!(place_tooltip(990, 790, (142, 42), Some(work)), (858, 740));
    assert_eq!(place_tooltip(5, 5, (142, 42), None), (-5, 21));
    assert_eq!(tooltip_title_rect(rect(0, 0, 100, 50)), rect(10, 10, 90, 40));
    assert_eq!(
        tooltip_note_rect(rect(0, 0, 100, 50), Some(18)),
        rect(10, 32, 90, 40)
    );
    assert_eq!(
        tooltip_note_rect(rect(0, 0, 100, 50), None),
        rect(10, 10, 90, 40)
    );
    let mut config = OverlayConfig::new();
    set_tooltip_theme(&mut config, 0x00302010, 0x00605040);
    let colors = pill_colors(&config, Some(0x00030201));
    assert_eq!(colors.fill, [0x10, 0x20, 0x30]);
    assert_eq!(colors.stroke, [1, 2, 3]);
    assert_eq!(colors.text, [0x40, 0x50, 0x60]);
}

#[test]
fn windows_are_kept_on_the_screen() {
    let work = rect(0, 0, 1000, 800);
    assert_eq!(clamp_to_work(900, 700, 200, 200, Some(work)), (800, 600));
    assert_eq!(clamp_to_work(-50, -60, 200, 200, Some(work)), (0, 0));
    assert_eq!(clamp_to_work(100, 100, 2000, 20, Some(work)), (0, 100));
}

// ------------------------------------------------------------------
// The tray, and texts for the system
// ------------------------------------------------------------------

#[test]
fn the_menu_of_the_tray() {
    assert_eq!(menu_command(MENU_ID_EXIT), TrayCommand::Exit);
    assert_eq!(menu_command(MENU_ID_OPEN_SETTINGS), TrayCommand::OpenSettings);
    assert_eq!(menu_command(MENU_ID_QUICK_TAG), TrayCommand::QuickTag);
    assert_eq!(menu_command(0), TrayCommand::OpenPanel);
    assert_eq!(tray_message(0x0202), Some(TrayCommand::OpenPanel));
    assert_eq!(tray_action(0x0205), TrayAction::Menu);
    assert_eq!(
        tray_action(0x0202),
        TrayAction::Command(TrayCommand::OpenPanel)
    );
    assert_eq!(
        tray_action(0x0405),
        TrayAction::Command(TrayCommand::OpenPanel)
    );
    assert_eq!(tray_action(0x0200), TrayAction::Nothing);
    assert_eq!(tray_action(0), TrayAction::Nothing);
    let mut switch = BalloonSwitch { set_to: None };
    assert!(balloon_enabled(&switch));
    set_balloon_enabled(&mut switch, false);
    assert!(!balloon_enabled(&switch));
}

#[test]
fn texts_for_the_system() {
    assert_eq!(widestring("aé😀"), vec![0x61, 0xE9, 0xD83D, 0xDE00, 0]);
    assert_eq!(
        encode_utf16("标题"),
        "标题".encode_utf16().collect::<Vec<u16>>()
    );
    let mut buf = [7u16; 6];
    fill_wide(&mut buf, "abc", 5);
    assert_eq!(buf[0..4], [0x61, 0x62, 0x63, 0]);
}

#[test]
fn events_are_listened_to() {
    assert_eq!(event_ranges(), [(0x0003, 0x0017), (0x8001, 0x8018)]);
    assert!(should_post(1, false));
    assert!(!should_post(1, true));
    assert!(should_post(EVENT_SYSTEM_MOVESIZEEND, true));
}
