use wintag::model::settings::{Settings, ThemeMode};
use wintag::model::tag::{Tag, TagColor};
use wintag::text::{contains, decimal_text, is_not_after, lines, same, strip_prefix, trim};
use wintag::ui::iced_app::{EditField, Effect, Message, WinTagApp};
use wintag::ui::iced_proto::{plan_popup_action, GuiEvent, IcedCommand, PopupPlan, TagRow};
use wintag::ui::iced_view::{
    color_swatch, keyboard_event, panel_row, popup_caption, tag_colors, KeyName, RowHead, RowNote,
    WindowKind,
};

fn row(title: &str, target: isize) -> TagRow {
    TagRow {
        target,
        tag: Tag {
            title: title.to_string(),
            note: String::new(),
            color: TagColor::Orange,
            window_title: format!("win-{title}"),
            process_name: "p.exe".to_string(),
        },
    }
}

fn step(app: &mut WinTagApp, message: Message, fresh: u64) -> Vec<Effect> {
    app.update(message, fresh, Some(Settings::default()))
}

fn pump(app: &mut WinTagApp, command: IcedCommand, fresh: u64) -> Vec<Effect> {
    step(app, Message::Pump(vec![command]), fresh)
}

fn with_panel(rows: Vec<TagRow>) -> WinTagApp {
    let mut app = WinTagApp::new(false);
    let _ = pump(&mut app, IcedCommand::ShowPanel, 1);
    let _ = pump(&mut app, IcedCommand::RefreshTags { rows }, 2);
    app
}

// ------------------------------------------------------------------
// Windows
// ------------------------------------------------------------------

#[test]
fn the_question_is_answered() {
    let mut app = WinTagApp::new(true);
    let effects = pump(&mut app, IcedCommand::ShowConfirm { count: 12 }, 5);
    assert!(matches!(
        effects[..],
        [Effect::OpenConfirm(5), Effect::GainFocus(5)]
    ));
    assert_eq!(
        app.confirm.as_ref().unwrap().message,
        "确定退出？将丢弃 12 个标签/便签"
    );
    assert_eq!(app.kind(5), WindowKind::Confirm);
    // A second question brings the first to the front.
    assert!(matches!(
        pump(&mut app, IcedCommand::ShowConfirm { count: 3 }, 6)[..],
        [Effect::GainFocus(5)]
    ));
    assert!(matches!(
        step(&mut app, Message::EnterPressed, 7)[..],
        [Effect::Send(GuiEvent::ConfirmExit), Effect::Close(5)]
    ));
    let _ = pump(&mut app, IcedCommand::ShowConfirm { count: 1 }, 8);
    assert!(matches!(
        step(&mut app, Message::WindowClosed(8), 9)[..],
        [Effect::Send(GuiEvent::CancelExit)]
    ));
    assert!(app.confirm.is_none());
}

#[test]
fn settings_are_changed() {
    let mut app = WinTagApp::new(false);
    let _ = pump(&mut app, IcedCommand::OpenSettings, 1);
    let _ = step(
        &mut app,
        Message::SettingsThemeSelected(ThemeMode::Dark),
        2,
    );
    let _ = step(&mut app, Message::SettingsBalloonToggled(false), 2);
    let effects = step(&mut app, Message::SettingsSavePressed, 2);
    if let [Effect::Send(GuiEvent::SettingsChanged(s)), Effect::Close(1)] = effects[..] {
        assert_eq!(
            s,
            Settings {
                theme: ThemeMode::Dark,
                show_balloon: false,
                ..Settings::default()
            }
        );
    } else {
        panic!("not saved");
    }
    assert!(app.settings.is_none());
}

#[test]
fn a_tag_is_edited() {
    let mut app = WinTagApp::new(false);
    let edit = |target: isize| IcedCommand::EditTag {
        target,
        position: (10, 20),
        tag: row("old", target).tag,
    };
    assert!(matches!(
        pump(&mut app, edit(4), 1)[..],
        [Effect::OpenPopup(1, (10, 20)), Effect::GainFocus(1)]
    ));
    assert!(matches!(
        pump(&mut app, edit(4), 2)[..],
        [Effect::FocusTitle(1), Effect::GainFocus(1)]
    ));
    assert!(matches!(
        pump(&mut app, edit(5), 3)[..],
        [
            Effect::Close(1),
            Effect::OpenPopup(3, _),
            Effect::GainFocus(3)
        ]
    ));
    let _ = step(&mut app, Message::PopupTitleChanged("new".to_string()), 4);
    let _ = step(&mut app, Message::PopupColorSelected(TagColor::Red), 4);
    let effects = step(&mut app, Message::PopupSavePressed, 4);
    if let [Effect::Send(GuiEvent::TagSaved { target: 5, tag }), Effect::Close(3)] = &effects[..] {
        assert_eq!(tag.title, "new");
        assert_eq!(tag.color, TagColor::Red);
        assert_eq!(tag.window_title, "win-old");
    } else {
        panic!("not saved");
    }
    assert_eq!(plan_popup_action(None, 1, false), PopupPlan::Fresh);
    assert_eq!(
        plan_popup_action(Some((1, 9)), 1, true),
        PopupPlan::Reuse(9)
    );
    assert_eq!(
        plan_popup_action(Some((2, 9)), 1, true),
        PopupPlan::Replace(9)
    );
    assert_eq!(plan_popup_action(Some((2, 9)), 1, false), PopupPlan::Fresh);
}

#[test]
fn the_theme_changes() {
    let mut app = WinTagApp::new(false);
    assert!(pump(&mut app, IcedCommand::ApplyTheme { dark: true }, 1).is_empty());
    assert!(app.dark);
}

// ------------------------------------------------------------------
// The panel
// ------------------------------------------------------------------

#[test]
fn a_hidden_panel_is_reported() {
    let mut app = with_panel(vec![row("a", 1)]);
    assert!(matches!(
        pump(&mut app, IcedCommand::HidePanel, 3)[..],
        [Effect::Close(1)]
    ));
    assert!(app.panel.is_none());
    assert!(matches!(
        step(&mut app, Message::WindowClosed(1), 3)[..],
        [Effect::Send(GuiEvent::PanelVisibilityChanged(false))]
    ));
}

#[test]
fn rows_are_expanded() {
    let mut app = with_panel(vec![row("a", 1), row("b", 2)]);
    let _ = step(&mut app, Message::PanelExpandAll, 3);
    assert_eq!(app.panel.as_ref().unwrap().expanded.len(), 2);
    let _ = step(&mut app, Message::PanelToggleExpand(1), 3);
    assert!(!app.panel.as_ref().unwrap().expanded.contains(&1));
    // A row that is gone is no longer expanded.
    let _ = pump(
        &mut app,
        IcedCommand::RefreshTags {
            rows: vec![row("a", 1)],
        },
        3,
    );
    assert!(app.panel.as_ref().unwrap().expanded.is_empty());
    let _ = step(&mut app, Message::PanelExpandAll, 3);
    let _ = step(&mut app, Message::PanelCollapseAll, 3);
    assert!(app.panel.as_ref().unwrap().expanded.is_empty());
}

#[test]
fn a_row_is_edited_in_place() {
    let mut app = with_panel(vec![row("a", 1), row("b", 2)]);
    let _ = step(
        &mut app,
        Message::PanelBeginEdit {
            target: 2,
            field: EditField::Title,
        },
        3,
    );
    let _ = step(&mut app, Message::PanelEditInput("c".to_string()), 3);
    let effects = step(&mut app, Message::PanelEditCommit, 3);
    assert!(
        matches!(&effects[..], [Effect::Send(GuiEvent::TagSaved { target: 2, tag })] if tag.title == "c")
    );
    assert_eq!(app.panel.as_ref().unwrap().rows[1].tag.title, "c");
    // Escape ends an edit before it closes the panel.
    let _ = step(
        &mut app,
        Message::PanelBeginEdit {
            target: 1,
            field: EditField::Note,
        },
        3,
    );
    assert!(step(&mut app, Message::EscapePressed, 3).is_empty());
    assert!(matches!(
        step(&mut app, Message::EscapePressed, 3)[..],
        [Effect::Close(1)]
    ));
}

#[test]
fn a_row_is_dragged() {
    let mut app = with_panel(vec![row("a", 1), row("b", 2), row("c", 3)]);
    let _ = step(&mut app, Message::PanelDragStart(1), 3);
    let _ = step(&mut app, Message::PanelDragHover(1), 3);
    let _ = step(&mut app, Message::PanelDragHover(3), 3);
    let effects = step(&mut app, Message::PanelDragDrop, 3);
    assert!(
        matches!(&effects[..], [Effect::Send(GuiEvent::ReorderTags { targets })] if *targets == vec![2, 3, 1])
    );
    assert_eq!(app.panel.as_ref().unwrap().rows[0].target, 2);
    // Nothing is dragged while a search is shown.
    let _ = step(&mut app, Message::PanelSearchChanged("x".to_string()), 3);
    let _ = step(&mut app, Message::PanelDragStart(1), 3);
    assert!(app.panel.as_ref().unwrap().drag.is_none());
}

#[test]
fn rows_report_what_is_pressed() {
    let mut app = with_panel(vec![row("a", 1)]);
    assert!(matches!(
        step(&mut app, Message::PanelRowActivated(1), 3)[..],
        [Effect::Send(GuiEvent::ActivateWindow { target: 1 })]
    ));
    assert!(matches!(
        step(&mut app, Message::PanelRowEdit(1), 3)[..],
        [Effect::Send(GuiEvent::EditTagRequested { target: 1 })]
    ));
    assert!(matches!(
        step(&mut app, Message::PanelRowRemove(1), 3)[..],
        [Effect::Send(GuiEvent::RemoveTag { target: 1 })]
    ));
    assert!(matches!(
        step(&mut app, Message::PanelExitPressed, 3)[..],
        [Effect::Send(GuiEvent::PanelExit)]
    ));
}

#[test]
fn rows_are_shown() {
    let mut app = with_panel(vec![row("a title that is far too long", 1)]);
    let panel = app.panel.as_ref().unwrap();
    let model = panel_row(panel, &panel.rows[0]);
    assert_eq!(model.chevron, "▸");
    assert!(model.note.is_none());
    if let RowHead::Plain { caption, .. } = model.head {
        assert_eq!(
            caption,
            "a title that … | win-a title that is far too long"
        );
    } else {
        panic!("not plain");
    }
    let _ = step(&mut app, Message::PanelToggleExpand(1), 3);
    let panel = app.panel.as_ref().unwrap();
    let model = panel_row(panel, &panel.rows[0]);
    assert_eq!(model.chevron, "▾");
    assert!(matches!(model.note, Some(RowNote::Plain { text }) if text == "（无）"));
}

#[test]
fn keys_become_messages() {
    assert!(matches!(
        keyboard_event(KeyName::Escape, false, true),
        Some(Message::EscapePressed)
    ));
    assert!(keyboard_event(KeyName::Enter, false, true).is_none());
    assert!(matches!(
        keyboard_event(KeyName::Tab, true, false),
        Some(Message::TabPressed { backwards: true })
    ));
    assert!(keyboard_event(KeyName::Other, false, false).is_none());
    assert_eq!(color_swatch(TagColor::Blue, TagColor::Blue), "● 蓝");
    assert_eq!(color_swatch(TagColor::Blue, TagColor::Red), "○ 蓝");
    assert_eq!(popup_caption("w", "p"), "w / p");
    assert_eq!(tag_colors()[4], TagColor::Purple);
}

// ------------------------------------------------------------------
// Texts
// ------------------------------------------------------------------

#[test]
fn texts_are_trimmed_and_searched() {
    assert_eq!(trim(" \u{3000}a b\t\r\n"), "a b");
    assert_eq!(trim(" \n"), "");
    assert!(contains("abcabd", "abd"));
    assert!(contains("abc", ""));
    assert!(!contains("ab", "abc"));
    assert!(same("标题", "标题") && !same("a", "b"));
    assert_eq!(strip_prefix("--x=1", "--x="), Some("1".to_string()));
    assert_eq!(strip_prefix("-x", "--x="), None);
}

#[test]
fn texts_have_lines() {
    for text in ["", "a", "a\n", "a\r\nb", "a\n\nb\n", "\n", "a\r", "a\r\r\nb\r"] {
        assert_eq!(lines(text), text.lines().collect::<Vec<_>>(), "{text:?}");
    }
}

#[test]
fn texts_are_ordered() {
    let texts = ["", "A", "Z", "a", "ab", "b", "é", "中", "😀"];
    for a in texts {
        for b in texts {
            assert_eq!(is_not_after(a, b), a <= b, "{a:?} {b:?}");
        }
    }
}

#[test]
fn numbers_have_digits() {
    assert_eq!(decimal_text(0), "0");
    assert_eq!(decimal_text(1204), "1204");
    assert_eq!(decimal_text(u64::MAX), u64::MAX.to_string());
}

#[test]
fn copied_commands_ask_for_the_same() {
    let command = IcedCommand::RefreshTags {
        rows: vec![row("a", 1), row("b", 2)],
    };
    match command.clone() {
        IcedCommand::RefreshTags { rows } => {
            let found: Vec<(isize, String)> =
                rows.into_iter().map(|r| (r.target, r.tag.title)).collect();
            assert_eq!(found, vec![(1, "a".to_string()), (2, "b".to_string())]);
        }
        other => panic!("{other:?}"),
    }
    let edit = IcedCommand::EditTag {
        target: 7,
        position: (3, -4),
        tag: row("c", 7).tag,
    };
    match edit.clone() {
        IcedCommand::EditTag {
            target,
            position,
            tag,
        } => {
            assert_eq!((target, position), (7, (3, -4)));
            assert_eq!(tag.title, "c");
        }
        other => panic!("{other:?}"),
    }
    assert!(matches!(
        IcedCommand::ShowConfirm { count: 3 }.clone(),
        IcedCommand::ShowConfirm { count: 3 }
    ));
}

#[test]
fn white_space_is_trimmed_and_nothing_else() {
    let mut white: Vec<u32> = Vec::new();
    for code in 0..=0x10FFFF_u32 {
        if let Some(c) = char::from_u32(code) {
            assert_eq!(trim(&c.to_string()).is_empty(), c.is_whitespace());
            if c.is_whitespace() {
                white.push(code);
            }
        }
    }
    let mut expected: Vec<u32> = (0x09..=0x0D).collect();
    expected.extend([0x20, 0x85, 0xA0, 0x1680]);
    expected.extend(0x2000..=0x200A);
    expected.extend([0x2028, 0x2029, 0x202F, 0x205F, 0x3000]);
    assert_eq!(white, expected);
}

fn events(effects: Vec<Effect>) -> Vec<String> {
    effects
        .into_iter()
        .filter_map(|effect| match effect {
            Effect::Send(event) => Some(format!("{event:?}")),
            _ => None,
        })
        .collect()
}

#[test]
fn the_question_is_answered_once() {
    let answers = [
        (Some(Message::ConfirmPressed), "ConfirmExit"),
        (Some(Message::EnterPressed), "ConfirmExit"),
        (Some(Message::CancelPressed), "CancelExit"),
        (Some(Message::EscapePressed), "CancelExit"),
        (None, "CancelExit"),
    ];
    for (answer, expected) in answers {
        let mut app = with_panel(vec![row("a", 1)]);
        let _ = pump(&mut app, IcedCommand::HidePanel, 3);
        let mut sent = events(pump(&mut app, IcedCommand::ShowConfirm { count: 1 }, 9));
        if let Some(message) = answer {
            sent.extend(events(step(&mut app, message, 10)));
        }
        sent.extend(events(step(&mut app, Message::WindowClosed(9), 10)));
        assert_eq!(sent, vec![expected.to_string()]);
        assert!(app.confirm.is_none());
    }
}
