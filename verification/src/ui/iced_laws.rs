//! What the user can rely on in the windows of the user interface, from one
//! message to the next.

use crate::model::settings;
use crate::model::settings::Settings;
use crate::model::tag::{Tag, TagColor};
use crate::text;
use crate::ui::iced_app;
use crate::ui::iced_app::{
    AppView, EditField, Effect, EffectView, Message, PanelState, PanelView, PopupWindow, WinTagApp,
    WindowId,
};
use crate::ui::iced_proto::{GuiEventView, IcedCommand, TagRow};
use crate::ui::iced_view;
use crate::ui::iced_view::{
    keyboard_event, popup_caption, KeyName, RowHeadView, RowModel, RowNoteView, WindowKind,
};
use crate::ui::panel_style;
use crate::ui::rows;
use vstd::prelude::*;

verus! {

/// The state after some messages, one after the other.
pub open spec fn after(
    app: AppView,
    messages: Seq<Message>,
    fresh: WindowId,
    current: Option<Settings>,
) -> AppView
    decreases messages.len(),
{
    if messages.len() == 0 {
        app
    } else {
        iced_app::app_step(
            after(app, messages.drop_last(), fresh, current),
            messages.last(),
            fresh,
            current,
        ).app
    }
}

// ---------------------------------------------------------------------
// The tag editor
// ---------------------------------------------------------------------
/// Whether a message is something that the user fills in in the tag editor.
pub open spec fn is_typing(message: Message) -> bool {
    message is PopupTitleChanged || message is PopupNoteChanged || message is PopupColorSelected
}

/// The title that was typed last, or else `first`.
pub open spec fn last_title(first: String, messages: Seq<Message>) -> String
    decreases messages.len(),
{
    if messages.len() == 0 {
        first
    } else if let Message::PopupTitleChanged(s) = messages.last() {
        s
    } else {
        last_title(first, messages.drop_last())
    }
}

/// The note that was typed last, or else `first`.
pub open spec fn last_note(first: String, messages: Seq<Message>) -> String
    decreases messages.len(),
{
    if messages.len() == 0 {
        first
    } else if let Message::PopupNoteChanged(s) = messages.last() {
        s
    } else {
        last_note(first, messages.drop_last())
    }
}

/// The colour that was chosen last, or else `first`.
pub open spec fn last_color(first: TagColor, messages: Seq<Message>) -> TagColor
    decreases messages.len(),
{
    if messages.len() == 0 {
        first
    } else if let Message::PopupColorSelected(c) = messages.last() {
        c
    } else {
        last_color(first, messages.drop_last())
    }
}

/// Filling in a field of the tag editor changes this field, no other one, no other
/// window, and reports nothing.
pub proof fn fields_are_filled_in_one_by_one(
    app: AppView,
    s: String,
    c: TagColor,
    fresh: WindowId,
    current: Option<Settings>,
)
    requires
        app.popup is Some,
    ensures
        ({
            let p = app.popup->0;
            let titled = iced_app::app_step(app, Message::PopupTitleChanged(s), fresh, current);
            let noted = iced_app::app_step(app, Message::PopupNoteChanged(s), fresh, current);
            let colored = iced_app::app_step(app, Message::PopupColorSelected(c), fresh, current);
            &&& titled.app == (AppView { popup: Some(PopupWindow { title: s, ..p }), ..app })
            &&& noted.app == (AppView { popup: Some(PopupWindow { note: s, ..p }), ..app })
            &&& colored.app == (AppView { popup: Some(PopupWindow { color: c, ..p }), ..app })
            &&& titled.effects.len() == 0
            &&& noted.effects.len() == 0
            &&& colored.effects.len() == 0
        }),
{
}

proof fn lemma_typed(
    app: AppView,
    messages: Seq<Message>,
    fresh: WindowId,
    current: Option<Settings>,
)
    requires
        app.popup is Some,
        forall|i: int| 0 <= i < messages.len() ==> is_typing(#[trigger] messages[i]),
    ensures
        after(app, messages, fresh, current) == (AppView {
            popup: Some(
                PopupWindow {
                    title: last_title(app.popup->0.title, messages),
                    note: last_note(app.popup->0.note, messages),
                    color: last_color(app.popup->0.color, messages),
                    ..app.popup->0
                },
            ),
            ..app
        }),
    decreases messages.len(),
{
    if messages.len() > 0 {
        lemma_typed(app, messages.drop_last(), fresh, current);
        assert(is_typing(messages[messages.len() - 1]));
    }
}

/// What is typed is what gets saved: whatever is filled in in the tag editor, in
/// any order and however often, saving reports one tag for the editor's window,
/// with the title, the note and the colour that came last, and the window title
/// and the process name that the editor had. Then the editor is closed.
pub proof fn typed_tag_is_saved(
    app: AppView,
    messages: Seq<Message>,
    fresh: WindowId,
    current: Option<Settings>,
)
    requires
        app.popup is Some,
        forall|i: int| 0 <= i < messages.len() ==> is_typing(#[trigger] messages[i]),
    ensures
        ({
            let p = app.popup->0;
            let saved = iced_app::app_step(
                after(app, messages, fresh, current),
                Message::PopupSavePressed,
                fresh,
                current,
            );
            let tag = Tag {
                title: last_title(p.title, messages),
                note: last_note(p.note, messages),
                color: last_color(p.color, messages),
                window_title: p.window_title,
                process_name: p.process_name,
            };
            &&& saved.effects == seq![
                EffectView::Send(GuiEventView::TagSaved { target: p.target, tag }),
                EffectView::Close(p.id),
            ]
            &&& saved.app == (AppView { popup: None, ..app })
        }),
{
    lemma_typed(app, messages, fresh, current);
    let p = app.popup->0;
    let saved = iced_app::app_step(
        after(app, messages, fresh, current),
        Message::PopupSavePressed,
        fresh,
        current,
    );
    assert(saved.effects =~= seq![saved.effects[0], EffectView::Close(p.id)]);
}

/// After a title, a note and a colour were filled in, in any order, exactly these
/// are saved.
pub proof fn title_note_and_color_are_saved(
    app: AppView,
    messages: Seq<Message>,
    title: String,
    note: String,
    color: TagColor,
    fresh: WindowId,
    current: Option<Settings>,
)
    requires
        app.popup is Some,
        messages.len() == 3,
        messages.contains(Message::PopupTitleChanged(title)),
        messages.contains(Message::PopupNoteChanged(note)),
        messages.contains(Message::PopupColorSelected(color)),
    ensures
        ({
            let p = app.popup->0;
            let saved = iced_app::app_step(
                after(app, messages, fresh, current),
                Message::PopupSavePressed,
                fresh,
                current,
            );
            saved.effects[0] == EffectView::Send(
                GuiEventView::TagSaved {
                    target: p.target,
                    tag: Tag {
                        title,
                        note,
                        color,
                        window_title: p.window_title,
                        process_name: p.process_name,
                    },
                },
            )
        }),
{
    let t = messages.index_of(Message::PopupTitleChanged(title));
    let n = messages.index_of(Message::PopupNoteChanged(note));
    let c = messages.index_of(Message::PopupColorSelected(color));
    assert forall|i: int| 0 <= i < messages.len() implies is_typing(#[trigger] messages[i]) by {
        assert(i == t || i == n || i == c);
    }
    typed_tag_is_saved(app, messages, fresh, current);
    let p = app.popup->0;
    reveal_with_fuel(last_title, 4);
    reveal_with_fuel(last_note, 4);
    reveal_with_fuel(last_color, 4);
    let m2 = messages.drop_last();
    let m1 = m2.drop_last();
    assert(messages.last() == messages[2]);
    assert(m2.last() == messages[1]);
    assert(m1.last() == messages[0]);
}

/// The editor shows the tag that it is opened with, at the place that was asked
/// for: saving at once reports this tag for this window. Whatever editor was open
/// for another window is closed.
pub proof fn opened_editor_shows_the_tag(
    app: AppView,
    commands: Vec<IcedCommand>,
    target: isize,
    position: (i32, i32),
    tag: Tag,
    messages: Seq<Message>,
    fresh: WindowId,
    later: WindowId,
    current: Option<Settings>,
)
    requires
        app.popup is Some ==> app.popup->0.target != target,
        commands@ == seq![IcedCommand::EditTag { target, position, tag }],
        forall|i: int| 0 <= i < messages.len() ==> is_typing(#[trigger] messages[i]),
    ensures
        ({
            let opened = iced_app::app_step(app, Message::Pump(commands), fresh, current);
            let saved = iced_app::app_step(
                after(opened.app, messages, later, current),
                Message::PopupSavePressed,
                later,
                current,
            );
            let typed = Tag {
                title: last_title(tag.title, messages),
                note: last_note(tag.note, messages),
                color: last_color(tag.color, messages),
                window_title: tag.window_title,
                process_name: tag.process_name,
            };
            &&& opened.effects.contains(EffectView::OpenPopup(fresh, position))
            &&& opened.effects.last() == EffectView::GainFocus(fresh)
            &&& app.popup is Some ==> opened.effects[0] == EffectView::Close(app.popup->0.id)
            &&& opened.app == (AppView { popup: opened.app.popup, ..app })
            &&& opened.app.popup is Some
            &&& opened.app.popup->0.id == fresh
            &&& saved.effects == seq![
                EffectView::Send(GuiEventView::TagSaved { target, tag: typed }),
                EffectView::Close(fresh),
            ]
            &&& saved.app == (AppView { popup: None, ..app })
        }),
{
    let opened = iced_app::app_step(app, Message::Pump(commands), fresh, current);
    reveal_with_fuel(iced_app::commands_run, 2);
    assert(commands@.drop_last() =~= Seq::empty());
    let opening = seq![EffectView::OpenPopup(fresh, position), EffectView::GainFocus(fresh)];
    match app.popup {
        Some(p) => {
            assert(opened.effects =~= seq![
                EffectView::Close(p.id),
                EffectView::OpenPopup(fresh, position),
                EffectView::GainFocus(fresh),
            ]);
            assert(opened.effects[1] == EffectView::OpenPopup(fresh, position));
        },
        None => {
            assert(opened.effects =~= opening);
            assert(opened.effects[0] == EffectView::OpenPopup(fresh, position));
        },
    }
    typed_tag_is_saved(opened.app, messages, later, current);
}

/// Asking again for the tag that is being edited only brings the editor to the
/// front: nothing that was typed is lost.
pub proof fn open_editor_keeps_what_was_typed(
    app: AppView,
    commands: Vec<IcedCommand>,
    position: (i32, i32),
    tag: Tag,
    fresh: WindowId,
    current: Option<Settings>,
)
    requires
        app.popup is Some,
        commands@ == seq![IcedCommand::EditTag { target: app.popup->0.target, position, tag }],
    ensures
        ({
            let asked = iced_app::app_step(app, Message::Pump(commands), fresh, current);
            &&& asked.app == app
            &&& asked.effects == seq![
                EffectView::FocusTitle(app.popup->0.id),
                EffectView::GainFocus(app.popup->0.id),
            ]
        }),
{
    reveal_with_fuel(iced_app::commands_run, 2);
    assert(commands@.drop_last() =~= Seq::empty());
    let asked = iced_app::app_step(app, Message::Pump(commands), fresh, current);
    assert(asked.effects =~= seq![
        EffectView::FocusTitle(app.popup->0.id),
        EffectView::GainFocus(app.popup->0.id),
    ]);
}

/// Leaving the tag editor, by its button or by Escape when nothing else is open,
/// closes it and saves nothing.
pub proof fn left_editor_saves_nothing(app: AppView, fresh: WindowId, current: Option<Settings>)
    requires
        app.popup is Some,
    ensures
        ({
            let left = iced_app::app_step(app, Message::PopupCancelPressed, fresh, current);
            let escaped = iced_app::app_step(app, Message::EscapePressed, fresh, current);
            &&& left.effects == seq![EffectView::Close(app.popup->0.id)]
            &&& left.app == (AppView { popup: None, ..app })
            &&& app.confirm is None && app.settings is None && app.panel is None ==> escaped
                == left
        }),
{
    let left = iced_app::app_step(app, Message::PopupCancelPressed, fresh, current);
    assert(left.effects =~= seq![EffectView::Close(app.popup->0.id)]);
}

// ---------------------------------------------------------------------
// The settings window
// ---------------------------------------------------------------------
/// Whether a message is a choice in the settings window.
pub open spec fn is_choice(message: Message) -> bool {
    ||| message is SettingsThemeSelected
    ||| message is SettingsCornerSelected
    ||| message is SettingsTitleToggled
    ||| message is SettingsTopToggled
    ||| message is SettingsBalloonToggled
}

/// Whether preferences are those of `before` but for the one that a message
/// chooses, which is as chosen.
pub open spec fn is_chosen(now: Settings, before: Settings, message: Message) -> bool {
    &&& now.theme == (match message {
        Message::SettingsThemeSelected(v) => v,
        _ => before.theme,
    })
    &&& now.corner == (match message {
        Message::SettingsCornerSelected(v) => v,
        _ => before.corner,
    })
    &&& now.show_badge_title == (match message {
        Message::SettingsTitleToggled(v) => v,
        _ => before.show_badge_title,
    })
    &&& now.badge_always_top == (match message {
        Message::SettingsTopToggled(v) => v,
        _ => before.badge_always_top,
    })
    &&& now.show_balloon == (match message {
        Message::SettingsBalloonToggled(v) => v,
        _ => before.show_balloon,
    })
}

/// What is chosen in the settings window is what is saved: after a choice, saving
/// by the button or by Enter reports preferences in which this one is as chosen
/// and every other one as the window showed it before. Then the window is closed.
pub proof fn chosen_preference_is_saved(
    app: AppView,
    choice: Message,
    fresh: WindowId,
    current: Option<Settings>,
)
    requires
        app.settings is Some,
        is_choice(choice),
    ensures
        ({
            let w = app.settings->0;
            let chosen = iced_app::app_step(app, choice, fresh, current);
            let saved = iced_app::app_step(
                chosen.app,
                Message::SettingsSavePressed,
                fresh,
                current,
            );
            let entered = iced_app::app_step(chosen.app, Message::EnterPressed, fresh, current);
            &&& chosen.effects.len() == 0
            &&& chosen.app == (AppView { settings: chosen.app.settings, ..app })
            &&& saved.effects.len() == 2
            &&& saved.effects[0] matches EffectView::Send(GuiEventView::SettingsChanged(s))
                && is_chosen(s, w.draft, choice)
            &&& saved.effects[1] == EffectView::Close(w.id)
            &&& saved.app == (AppView { settings: None, ..app })
            &&& app.confirm is None ==> entered == saved
        }),
{
    let chosen = iced_app::app_step(app, choice, fresh, current);
    let saved = iced_app::app_step(chosen.app, Message::SettingsSavePressed, fresh, current);
    assert(saved.effects.len() == 2);
}

/// Choices add up: after any choices in the settings window, every preference is
/// the last one that was chosen, or else what the window showed at first. Each
/// preference is counted by its own messages alone.
pub proof fn choices_add_up(
    app: AppView,
    choices: Seq<Message>,
    more: Message,
    fresh: WindowId,
    current: Option<Settings>,
)
    requires
        app.settings is Some,
        forall|i: int| 0 <= i < choices.len() ==> is_choice(#[trigger] choices[i]),
        is_choice(more),
    ensures
        ({
            let before = after(app, choices, fresh, current);
            let now = after(app, choices.push(more), fresh, current);
            &&& before.settings is Some
            &&& now.settings is Some
            &&& before == (AppView { settings: before.settings, ..app })
            &&& now == (AppView { settings: now.settings, ..app })
            &&& now.settings->0.id == app.settings->0.id
            &&& is_chosen(now.settings->0.draft, before.settings->0.draft, more)
        }),
    decreases choices.len(),
{
    if choices.len() > 0 {
        let front = choices.drop_last();
        assert(is_choice(choices[choices.len() - 1]));
        assert forall|i: int| 0 <= i < front.len() implies is_choice(#[trigger] front[i]) by {
            assert(is_choice(choices[i]));
        }
        choices_add_up(app, front, choices.last(), fresh, current);
        assert(front.push(choices.last()) =~= choices);
    }
    assert(choices.push(more).drop_last() =~= choices);
}

/// The settings window opens with the preferences in force, or with the defaults
/// while there are none: saving at once reports these.
pub proof fn settings_open_with_what_is_in_force(
    app: AppView,
    commands: Vec<IcedCommand>,
    fresh: WindowId,
    later: WindowId,
    current: Option<Settings>,
)
    requires
        app.settings is None,
        commands@ == seq![IcedCommand::OpenSettings],
    ensures
        ({
            let opened = iced_app::app_step(app, Message::Pump(commands), fresh, current);
            let saved = iced_app::app_step(
                opened.app,
                Message::SettingsSavePressed,
                later,
                current,
            );
            let shown = match current {
                Some(s) => s,
                None => settings::default_settings(),
            };
            &&& opened.effects == seq![
                EffectView::OpenSettings(fresh),
                EffectView::GainFocus(fresh),
            ]
            &&& saved.effects == seq![
                EffectView::Send(GuiEventView::SettingsChanged(shown)),
                EffectView::Close(fresh),
            ]
            &&& saved.app == app
        }),
{
    reveal_with_fuel(iced_app::commands_run, 2);
    assert(commands@.drop_last() =~= Seq::empty());
    let opened = iced_app::app_step(app, Message::Pump(commands), fresh, current);
    assert(opened.effects =~= seq![EffectView::OpenSettings(fresh), EffectView::GainFocus(fresh)]);
    let saved = iced_app::app_step(opened.app, Message::SettingsSavePressed, later, current);
    assert(saved.effects =~= seq![saved.effects[0], EffectView::Close(fresh)]);
}

/// Leaving the settings window, by its button or by Escape, closes it and saves
/// nothing.
pub proof fn left_settings_save_nothing(app: AppView, fresh: WindowId, current: Option<Settings>)
    requires
        app.settings is Some,
    ensures
        ({
            let left = iced_app::app_step(app, Message::SettingsCancelPressed, fresh, current);
            &&& left.effects == seq![EffectView::Close(app.settings->0.id)]
            &&& left.app == (AppView { settings: None, ..app })
            &&& app.confirm is None ==> iced_app::app_step(
                app,
                Message::EscapePressed,
                fresh,
                current,
            ) == left
        }),
{
    let left = iced_app::app_step(app, Message::SettingsCancelPressed, fresh, current);
    assert(left.effects =~= seq![EffectView::Close(app.settings->0.id)]);
}

// ---------------------------------------------------------------------
// The overview panel
// ---------------------------------------------------------------------
/// What happens in the search box, with the pointer and with the arrows of the rows
/// concerns the panel alone, and nothing is reported: the search box holds what was
/// typed, the row under the pointer is known until the pointer leaves, and an arrow
/// opens a row that is closed and closes one that is open.
pub proof fn panel_follows_the_user(
    app: AppView,
    s: String,
    target: isize,
    fresh: WindowId,
    current: Option<Settings>,
)
    requires
        app.panel is Some,
    ensures
        ({
            let p = app.panel->0;
            let searched = iced_app::app_step(app, Message::PanelSearchChanged(s), fresh, current);
            let entered = iced_app::app_step(
                app,
                Message::PanelRowEntered(target),
                fresh,
                current,
            );
            let exited = iced_app::app_step(app, Message::PanelRowExited, fresh, current);
            let toggled = iced_app::app_step(
                app,
                Message::PanelToggleExpand(target),
                fresh,
                current,
            );
            &&& searched.app == (AppView { panel: Some(PanelView { search: s@, ..p }), ..app })
            &&& entered.app == (AppView {
                panel: Some(PanelView { hovered: Some(target), ..p }),
                ..app
            })
            &&& exited.app == (AppView { panel: Some(PanelView { hovered: None, ..p }), ..app })
            &&& toggled.app.panel is Some
            &&& toggled.app == (AppView {
                panel: Some(PanelView { expanded: toggled.app.panel->0.expanded, ..p }),
                ..app
            })
            &&& toggled.app.panel->0.expanded.contains(target) == !p.expanded.contains(target)
            &&& forall|other: isize|
                other != target ==> #[trigger] toggled.app.panel->0.expanded.contains(other)
                    == p.expanded.contains(other)
            &&& searched.effects.len() == 0
            &&& entered.effects.len() == 0
            &&& exited.effects.len() == 0
            &&& toggled.effects.len() == 0
        }),
{
}

/// Opening all rows opens every row that there is, closing all leaves none open,
/// and neither changes anything else.
pub proof fn all_rows_open_and_close(
    app: AppView,
    i: int,
    target: isize,
    fresh: WindowId,
    current: Option<Settings>,
)
    requires
        app.panel is Some,
    ensures
        ({
            let p = app.panel->0;
            let open = iced_app::app_step(app, Message::PanelExpandAll, fresh, current);
            let closed = iced_app::app_step(app, Message::PanelCollapseAll, fresh, current);
            &&& open.app.panel is Some
            &&& open.app == (AppView {
                panel: Some(PanelView { expanded: open.app.panel->0.expanded, ..p }),
                ..app
            })
            &&& closed.app == (AppView {
                panel: Some(PanelView { expanded: Set::empty(), ..p }),
                ..app
            })
            &&& 0 <= i < p.rows.len() ==> open.app.panel->0.expanded.contains(p.rows[i].target)
            &&& open.app.panel->0.expanded.contains(target) ==> rows::has_row(p.rows, target)
            &&& open.effects.len() == 0
            &&& closed.effects.len() == 0
        }),
{
    let p = app.panel->0;
    let targets = rows::row_targets(p.rows);
    if 0 <= i < p.rows.len() {
        assert(targets[i] == p.rows[i].target);
        assert(targets.contains(p.rows[i].target));
    }
    if targets.contains(target) {
        let k = targets.index_of(target);
        assert(p.rows[k].target == target);
    }
}

/// The buttons of a row report what they are for, for the window of their own row
/// and nothing else, and change nothing.
pub proof fn row_buttons_report_their_row(
    app: AppView,
    target: isize,
    fresh: WindowId,
    current: Option<Settings>,
)
    ensures
        ({
            let raised = iced_app::app_step(
                app,
                Message::PanelRowActivated(target),
                fresh,
                current,
            );
            let edited = iced_app::app_step(app, Message::PanelRowEdit(target), fresh, current);
            let removed = iced_app::app_step(app, Message::PanelRowRemove(target), fresh, current);
            let quit = iced_app::app_step(app, Message::PanelExitPressed, fresh, current);
            &&& raised.effects == seq![EffectView::Send(GuiEventView::ActivateWindow { target })]
            &&& edited.effects == seq![EffectView::Send(GuiEventView::EditTagRequested { target })]
            &&& removed.effects == seq![EffectView::Send(GuiEventView::RemoveTag { target })]
            &&& quit.effects == seq![EffectView::Send(GuiEventView::PanelExit)]
            &&& raised.app == app
            &&& edited.app == app
            &&& removed.app == app
            &&& quit.app == app
        }),
{
}

/// The text of a field of a tag.
pub open spec fn field_of(tag: Tag, field: EditField) -> String {
    match field {
        EditField::Title => tag.title,
        EditField::Note => tag.note,
    }
}

/// Whether a tag is another one with this text in one field.
pub open spec fn differs_in(tag: Tag, before: Tag, field: EditField, s: String) -> bool {
    &&& field_of(tag, field) == s
    &&& field is Title ==> tag.note == before.note
    &&& field is Note ==> tag.title == before.title
    &&& tag.color == before.color
    &&& tag.window_title == before.window_title
    &&& tag.process_name == before.process_name
}

/// Editing in place saves what is typed: the edit begins with the text that the
/// row has, what is typed replaces it, and at the end the tag of the row is
/// reported with this text in this field and everything else as it was. The row
/// shows the tag that was reported, and the other rows are as before.
pub proof fn edit_in_place_is_saved(
    app: AppView,
    i: int,
    field: EditField,
    s: String,
    fresh: WindowId,
    current: Option<Settings>,
)
    requires
        app.panel is Some,
        0 <= i < app.panel->0.rows.len(),
        forall|k: int|
            0 <= k < i ==> (#[trigger] app.panel->0.rows[k]).target
                != app.panel->0.rows[i].target,
    ensures
        ({
            let p = app.panel->0;
            let target = p.rows[i].target;
            let begun = iced_app::app_step(
                app,
                Message::PanelBeginEdit { target, field },
                fresh,
                current,
            );
            let typed = iced_app::app_step(begun.app, Message::PanelEditInput(s), fresh, current);
            let done = iced_app::app_step(typed.app, Message::PanelEditCommit, fresh, current);
            let left = iced_app::app_step(typed.app, Message::PanelEditCancel, fresh, current);
            let after = done.app.panel->0;
            &&& begun.app.panel is Some
            &&& begun.app.panel->0.editing is Some
            &&& begun.app.panel->0.editing->0.target == target
            &&& begun.app.panel->0.editing->0.field == field
            &&& begun.app.panel->0.editing->0.draft == field_of(p.rows[i].tag, field)
            &&& begun.effects.len() == 0
            &&& typed.app.panel is Some
            &&& typed.app.panel->0.editing is Some
            &&& typed.app.panel->0.editing->0.draft == s
            &&& typed.app.panel->0.rows == p.rows
            &&& typed.effects.len() == 0
            &&& done.effects.len() == 1
            &&& done.effects[0] matches EffectView::Send(
                GuiEventView::TagSaved { target: reported, tag },
            ) && reported == target && tag == after.rows[i].tag && differs_in(
                tag,
                p.rows[i].tag,
                field,
                s,
            )
            &&& done.app.panel is Some
            &&& done.app == (AppView {
                panel: Some(PanelView { rows: after.rows, editing: None, ..p }),
                ..app
            })
            &&& after.rows.len() == p.rows.len()
            &&& after.rows[i].target == target
            &&& forall|k: int|
                0 <= k < p.rows.len() && k != i ==> #[trigger] after.rows[k] == p.rows[k]
            &&& left.app == (AppView { panel: Some(PanelView { editing: None, ..p }), ..app })
            &&& left.effects.len() == 0
        }),
{
    let p = app.panel->0;
    let target = p.rows[i].target;
    rows::lemma_row_position(p.rows, target);
    assert(rows::has_row(p.rows, target));
    assert(rows::row_position(p.rows, target) == i) by {
        let at = rows::row_position(p.rows, target);
        if at < i {
            assert(p.rows[at].target == target);
        }
        if at > i {
            assert(p.rows[i].target != target);
        }
    }
}

/// Dragging a row onto another one puts it right behind that one: no row is lost,
/// added or changed, the others keep their order, and the order that is reported
/// is the order that the panel shows.
pub proof fn dragged_row_is_moved(
    app: AppView,
    from: isize,
    over: isize,
    fresh: WindowId,
    current: Option<Settings>,
)
    requires
        app.panel is Some,
        rows::row_targets(app.panel->0.rows).no_duplicates(),
        rows::has_row(app.panel->0.rows, from),
        rows::has_row(app.panel->0.rows, over),
        from != over,
        app.panel->0.editing is None,
        text::trimmed(app.panel->0.search).len() == 0,
    ensures
        ({
            let p = app.panel->0;
            let held = iced_app::app_step(app, Message::PanelDragStart(from), fresh, current);
            let moved = iced_app::app_step(held.app, Message::PanelDragHover(over), fresh, current);
            let dropped = iced_app::app_step(moved.app, Message::PanelDragDrop, fresh, current);
            let shown = dropped.app.panel->0.rows;
            &&& held.effects.len() == 0
            &&& moved.effects.len() == 0
            &&& moved.app.panel is Some
            &&& moved.app.panel->0.rows == p.rows
            &&& dropped.app.panel is Some
            &&& dropped.app == (AppView {
                panel: Some(PanelView { rows: shown, drag: None, ..p }),
                ..app
            })
            &&& dropped.effects == seq![
                EffectView::Send(
                    GuiEventView::ReorderTags { targets: rows::row_targets(shown) },
                ),
            ]
            &&& shown.to_multiset() == p.rows.to_multiset()
            &&& exists|i: int|
                0 <= i < shown.len() - 1 && (#[trigger] shown[i]).target == over && shown[i
                    + 1].target == from
            &&& rows::without(rows::row_targets(shown), from) == rows::without(
                rows::row_targets(p.rows),
                from,
            )
        }),
{
    let p = app.panel->0;
    let order = rows::row_targets(p.rows);
    let drag = rows::PanelDrag { from_target: from, over_target: Some(over) };
    let f = choose|i: int| 0 <= i < p.rows.len() && (#[trigger] p.rows[i]).target == from;
    let o = choose|i: int| 0 <= i < p.rows.len() && (#[trigger] p.rows[i]).target == over;
    assert(order[f] == from && order[o] == over);
    assert(order.contains(from) && order.contains(over));
    let next = rows::order_after_drag(order, drag);
    rows::drag_permutes_rows(order, drag);
    rows::dragged_row_follows_its_drop_target(order, drag);
    rows::drag_keeps_the_other_rows_in_order(order, drag);
    rows::reordering_permutes_rows(p.rows, next);
    order.lemma_multiset_has_no_duplicates();
    next.lemma_multiset_has_no_duplicates_conv();
    order.to_multiset_ensures();
    next.to_multiset_ensures();
    assert(next.len() == order.len());
    assert forall|t: isize| #[trigger] next.contains(t) implies rows::has_row(p.rows, t) by {
        assert(next.to_multiset().count(t) > 0);
        assert(order.contains(t));
        let k = order.index_of(t);
        assert(p.rows[k].target == t);
    }
    rows::reordered_rows_stand_in_the_order(p.rows, next);
    let shown = rows::rows_reordered(p.rows, next);
    shown.to_multiset_ensures();
    p.rows.to_multiset_ensures();
    assert(shown.len() == p.rows.len());
    assert(rows::row_targets(shown).take(next.len() as int) =~= rows::row_targets(shown));
    assert(rows::row_targets(shown) == next);
    let i = choose|i: int| 0 <= i < next.len() - 1 && #[trigger] next[i] == over && next[i + 1]
        == from;
    assert(shown[i].target == rows::row_targets(shown)[i]);
    assert(shown[i + 1].target == rows::row_targets(shown)[i + 1]);
    let held = iced_app::app_step(app, Message::PanelDragStart(from), fresh, current);
    let moved = iced_app::app_step(held.app, Message::PanelDragHover(over), fresh, current);
    let dropped = iced_app::app_step(moved.app, Message::PanelDragDrop, fresh, current);
    assert(moved.app.panel->0.drag == Some(drag));
    assert(dropped.app.panel->0.rows == shown);
    assert(dropped.effects =~= seq![
        EffectView::Send(GuiEventView::ReorderTags { targets: rows::row_targets(shown) }),
    ]);
}

/// A drag that was given up, or that ends where it began, leaves the rows as they
/// are and reports nothing. While the rows are searched or a row is edited, no drag
/// begins at all.
pub proof fn drags_that_move_nothing(
    app: AppView,
    from: isize,
    over: isize,
    fresh: WindowId,
    current: Option<Settings>,
)
    requires
        app.panel is Some,
    ensures
        ({
            let p = app.panel->0;
            let held = iced_app::app_step(app, Message::PanelDragStart(from), fresh, current);
            let back = iced_app::app_step(held.app, Message::PanelDragHover(from), fresh, current);
            let dropped = iced_app::app_step(back.app, Message::PanelDragDrop, fresh, current);
            let moved = iced_app::app_step(held.app, Message::PanelDragHover(over), fresh, current);
            let left = iced_app::app_step(moved.app, Message::PanelDragCancel, fresh, current);
            &&& text::trimmed(p.search).len() > 0 || p.editing is Some ==> held.app == app
            &&& p.drag is None ==> dropped.app == app && dropped.effects.len() == 0
            &&& left.app == (AppView { panel: Some(PanelView { drag: None, ..p }), ..app })
            &&& left.effects.len() == 0
        }),
{
}

// ---------------------------------------------------------------------
// What the windows are told
// ---------------------------------------------------------------------
/// The panel shows the tags that it is told of, and no other ones; a row that was
/// open stays open as long as it is there. A panel that is not open is not
/// concerned.
pub proof fn panel_shows_what_it_is_told(
    app: AppView,
    commands: Vec<IcedCommand>,
    list: Vec<TagRow>,
    target: isize,
    fresh: WindowId,
    current: Option<Settings>,
)
    requires
        commands@ == seq![IcedCommand::RefreshTags { rows: list }],
    ensures
        ({
            let told = iced_app::app_step(app, Message::Pump(commands), fresh, current);
            &&& told.effects.len() == 0
            &&& app.panel is None ==> told.app == app
            &&& app.panel is Some ==> {
                let p = app.panel->0;
                &&& told.app.panel is Some
                &&& told.app == (AppView {
                    panel: Some(
                        PanelView {
                            rows: list@,
                            expanded: told.app.panel->0.expanded,
                            ..p
                        },
                    ),
                    ..app
                })
                &&& told.app.panel->0.expanded.contains(target) <==> p.expanded.contains(target)
                    && rows::has_row(list@, target)
            }
        }),
{
    reveal_with_fuel(iced_app::commands_run, 2);
    assert(commands@.drop_last() =~= Seq::empty());
    let targets = rows::row_targets(list@);
    if rows::has_row(list@, target) {
        let k = choose|i: int| 0 <= i < list@.len() && (#[trigger] list@[i]).target == target;
        assert(targets[k] == target);
    }
    if targets.contains(target) {
        let k = targets.index_of(target);
        assert(list@[k].target == target);
    }
    let told = iced_app::app_step(app, Message::Pump(commands), fresh, current);
    assert(told.effects =~= Seq::empty());
}

/// The panel is opened empty and without a search, or brought to the front when it
/// is open; it is closed when it is told to, and what else is open stays as it is.
pub proof fn panel_opens_and_closes(
    app: AppView,
    show: Vec<IcedCommand>,
    conceal: Vec<IcedCommand>,
    fresh: WindowId,
    current: Option<Settings>,
)
    requires
        show@ == seq![IcedCommand::ShowPanel],
        conceal@ == seq![IcedCommand::HidePanel],
    ensures
        ({
            let shown = iced_app::app_step(app, Message::Pump(show), fresh, current);
            let closed = iced_app::app_step(app, Message::Pump(conceal), fresh, current);
            &&& app.panel is Some ==> shown.app == app && shown.effects == seq![
                EffectView::GainFocus(app.panel->0.id),
            ]
            &&& app.panel is None ==> {
                &&& shown.app.panel is Some
                &&& shown.app == (AppView { panel: shown.app.panel, ..app })
                &&& shown.app.panel->0.id == fresh
                &&& shown.app.panel->0.rows.len() == 0
                &&& shown.app.panel->0.search.len() == 0
                &&& shown.app.panel->0.editing is None
                &&& shown.app.panel->0.drag is None
                &&& shown.effects == seq![
                    EffectView::OpenPanel(fresh),
                    EffectView::GainFocus(fresh),
                ]
            }
            &&& app.panel is Some ==> closed.effects == seq![
                EffectView::Close(app.panel->0.id),
            ] && closed.app == (AppView {
                panel: None,
                closing_panel: Some(app.panel->0.id),
                ..app
            })
            &&& app.panel is None ==> closed.app == app && closed.effects.len() == 0
        }),
{
    reveal_with_fuel(iced_app::commands_run, 2);
    assert(show@.drop_last() =~= Seq::empty());
    assert(conceal@.drop_last() =~= Seq::empty());
    let shown = iced_app::app_step(app, Message::Pump(show), fresh, current);
    let closed = iced_app::app_step(app, Message::Pump(conceal), fresh, current);
    match app.panel {
        Some(p) => {
            assert(shown.effects =~= seq![EffectView::GainFocus(p.id)]);
            assert(closed.effects =~= seq![EffectView::Close(p.id)]);
        },
        None => {
            assert(shown.effects =~= seq![
                EffectView::OpenPanel(fresh),
                EffectView::GainFocus(fresh),
            ]);
            assert(closed.effects =~= Seq::empty());
        },
    }
}

/// The question whether to quit names the number of tags that would be lost, and is
/// asked once: asking again brings it to the front as it is. It is taken back when
/// nobody wants to quit any more.
pub proof fn question_names_what_would_be_lost(
    app: AppView,
    ask: Vec<IcedCommand>,
    retract: Vec<IcedCommand>,
    count: usize,
    fresh: WindowId,
    current: Option<Settings>,
)
    requires
        ask@ == seq![IcedCommand::ShowConfirm { count }],
        retract@ == seq![IcedCommand::CloseConfirm],
    ensures
        ({
            let asked = iced_app::app_step(app, Message::Pump(ask), fresh, current);
            let retracted = iced_app::app_step(app, Message::Pump(retract), fresh, current);
            &&& app.confirm is None ==> {
                &&& asked.app.confirm is Some
                &&& asked.app == (AppView { confirm: asked.app.confirm, ..app })
                &&& asked.app.confirm->0.id == fresh
                &&& text::is_inside(
                    text::decimal(count as nat),
                    asked.app.confirm->0.message,
                )
                &&& asked.effects == seq![
                    EffectView::OpenConfirm(fresh),
                    EffectView::GainFocus(fresh),
                ]
                &&& retracted.app == app
                &&& retracted.effects.len() == 0
            }
            &&& app.confirm is Some ==> {
                &&& asked.app == app
                &&& asked.effects == seq![EffectView::GainFocus(app.confirm->0.id)]
                &&& retracted.app == (AppView { confirm: None, ..app })
                &&& retracted.effects == seq![EffectView::Close(app.confirm->0.id)]
            }
        }),
{
    reveal_with_fuel(iced_app::commands_run, 2);
    assert(ask@.drop_last() =~= Seq::empty());
    assert(retract@.drop_last() =~= Seq::empty());
    let asked = iced_app::app_step(app, Message::Pump(ask), fresh, current);
    let retracted = iced_app::app_step(app, Message::Pump(retract), fresh, current);
    match app.confirm {
        Some(c) => {
            assert(asked.effects =~= seq![EffectView::GainFocus(c.id)]);
            assert(retracted.effects =~= seq![EffectView::Close(c.id)]);
        },
        None => {
            assert(asked.effects =~= seq![
                EffectView::OpenConfirm(fresh),
                EffectView::GainFocus(fresh),
            ]);
            assert(retracted.effects =~= Seq::empty());
            text::inside_means_between(
                text::decimal(count as nat),
                "确定退出？将丢弃 "@,
                " 个标签/便签"@,
            );
        },
    }
}

/// The theme that is told is the theme that is shown, and nothing else changes.
pub proof fn theme_is_as_told(
    app: AppView,
    commands: Vec<IcedCommand>,
    dark: bool,
    fresh: WindowId,
    current: Option<Settings>,
)
    requires
        commands@ == seq![IcedCommand::ApplyTheme { dark }],
    ensures
        ({
            let told = iced_app::app_step(app, Message::Pump(commands), fresh, current);
            told.app == (AppView { dark, ..app }) && told.effects.len() == 0
        }),
{
    reveal_with_fuel(iced_app::commands_run, 2);
    assert(commands@.drop_last() =~= Seq::empty());
    let told = iced_app::app_step(app, Message::Pump(commands), fresh, current);
    assert(told.effects =~= Seq::empty());
}

/// Commands are carried out one after the other: the first ones, and then the
/// others on what the first ones left.
pub proof fn commands_are_carried_out_in_order(
    app: AppView,
    first: Seq<IcedCommand>,
    others: Seq<IcedCommand>,
    fresh: int,
    current: Option<Settings>,
)
    ensures
        ({
            let begun = iced_app::commands_run(app, first, fresh, current);
            let ended = iced_app::commands_run(begun.app, others, fresh + first.len(), current);
            let all = iced_app::commands_run(app, first + others, fresh, current);
            &&& all.app == ended.app
            &&& all.effects == begun.effects + ended.effects
        }),
    decreases others.len(),
{
    let begun = iced_app::commands_run(app, first, fresh, current);
    let ended = iced_app::commands_run(begun.app, others, fresh + first.len(), current);
    let all = iced_app::commands_run(app, first + others, fresh, current);
    if others.len() == 0 {
        assert(first + others =~= first);
        assert(all.effects =~= begun.effects + ended.effects);
    } else {
        commands_are_carried_out_in_order(app, first, others.drop_last(), fresh, current);
        assert((first + others).drop_last() =~= first + others.drop_last());
        assert(fresh + (first + others).len() - 1 == fresh + first.len() + others.len() - 1);
        assert(all.effects =~= begun.effects + ended.effects);
    }
}

/// Tab goes to the next field of the tag editor, and with Shift to the previous
/// one; it changes nothing, and does nothing while no tag is edited.
pub proof fn tab_moves_in_the_editor(
    app: AppView,
    backwards: bool,
    fresh: WindowId,
    current: Option<Settings>,
)
    ensures
        ({
            let moved = iced_app::app_step(app, Message::TabPressed { backwards }, fresh, current);
            &&& moved.app == app
            &&& app.popup is None ==> moved.effects.len() == 0
            &&& app.popup is Some && backwards ==> moved.effects == seq![
                EffectView::FocusPrevious,
            ]
            &&& app.popup is Some && !backwards ==> moved.effects == seq![EffectView::FocusNext]
        }),
{
}

/// Escape takes away one thing at a time, the one on top: the question, the
/// settings, an edit in place, the panel, the tag editor. What lies below stays.
pub proof fn escape_takes_one_thing_away(
    app: AppView,
    fresh: WindowId,
    current: Option<Settings>,
)
    ensures
        ({
            let step = iced_app::app_step(app, Message::EscapePressed, fresh, current);
            let editing = app.panel is Some && app.panel->0.editing is Some;
            &&& app.confirm is Some ==> step.app == (AppView { confirm: None, ..app })
            &&& app.confirm is None && app.settings is Some ==> step.app == (AppView {
                settings: None,
                ..app
            })
            &&& app.confirm is None && app.settings is None && editing ==> step.app == (AppView {
                panel: Some(PanelView { editing: None, ..app.panel->0 }),
                ..app
            }) && step.effects.len() == 0
            &&& app.confirm is None && app.settings is None && app.panel is Some && !editing
                ==> step.app == (AppView {
                panel: None,
                closing_panel: Some(app.panel->0.id),
                ..app
            }) && step.effects == seq![EffectView::Close(app.panel->0.id)]
            &&& app.confirm is None && app.settings is None && app.panel is None ==> step.app
                == (AppView { popup: None, ..app })
        }),
{
    let step = iced_app::app_step(app, Message::EscapePressed, fresh, current);
    if app.confirm is None && app.settings is None && app.panel is Some && app.panel->0.editing is None {
        assert(step.effects =~= seq![EffectView::Close(app.panel->0.id)]);
    }
}

/// A window that is closed takes along what it held, and no other window is
/// concerned.
pub proof fn closed_windows_concern_no_other(
    app: AppView,
    id: WindowId,
    fresh: WindowId,
    current: Option<Settings>,
)
    ensures
        ({
            let gone = iced_app::app_step(app, Message::WindowClosed(id), fresh, current).app;
            &&& gone.dark == app.dark
            &&& gone.confirm == (if app.confirm is Some && app.confirm->0.id == id {
                None
            } else {
                app.confirm
            })
            &&& gone.settings == (if app.settings is Some && app.settings->0.id == id {
                None
            } else {
                app.settings
            })
            &&& gone.popup == (if app.popup is Some && app.popup->0.id == id {
                None
            } else {
                app.popup
            })
            &&& gone.panel == (if app.panel is Some && app.panel->0.id == id {
                None
            } else {
                app.panel
            })
        }),
{
}

/// The panel that the user closes is reported as closed, and nothing else is.
pub proof fn closed_panel_is_reported(app: AppView, fresh: WindowId, current: Option<Settings>)
    requires
        iced_app::ids_distinct(app),
        app.panel is Some,
    ensures
        ({
            let gone = iced_app::app_step(
                app,
                Message::WindowClosed(app.panel->0.id),
                fresh,
                current,
            );
            &&& gone.effects == seq![
                EffectView::Send(GuiEventView::PanelVisibilityChanged(false)),
            ]
            &&& gone.app == (AppView { panel: None, ..app })
        }),
{
    let gone = iced_app::app_step(app, Message::WindowClosed(app.panel->0.id), fresh, current);
    assert(gone.effects =~= seq![EffectView::Send(GuiEventView::PanelVisibilityChanged(false))]);
}

/// When the window of the tag editor is there, it comes to the front with the
/// cursor in its title field.
pub proof fn opened_editor_takes_the_title(
    app: AppView,
    fresh: WindowId,
    current: Option<Settings>,
)
    requires
        app.popup is Some,
    ensures
        ({
            let id = app.popup->0.id;
            let step = iced_app::app_step(app, Message::PopupOpened(id), fresh, current);
            &&& step.app == app
            &&& step.effects == seq![EffectView::FocusTitle(id), EffectView::GainFocus(id)]
        }),
{
}

// ---------------------------------------------------------------------
// What the windows show
// ---------------------------------------------------------------------
/// A row shows its own tag: the title, cut where it is long, and the window title
/// behind it. Its note is shown exactly while the row is open, and the arrow tells
/// which it is. The row under the pointer is highlighted, and no other one.
pub proof fn rows_show_their_tags(p: PanelView, row: TagRow, other: TagRow)
    ensures
        ({
            let shown = iced_view::row_shown(p, row);
            let beside = iced_view::row_shown(p, other);
            &&& shown.target == row.target
            &&& shown.note is Some <==> p.expanded.contains(row.target)
            &&& shown.chevron == beside.chevron <==> (shown.note is Some <==> beside.note is Some)
            &&& shown.hovered <==> p.hovered == Some(row.target)
            &&& p.editing is None ==> {
                &&& shown.head matches RowHeadView::Plain { caption, .. } && caption
                    == panel_style::cut_to_units(row.tag.title@, 14) + " | "@
                    + row.tag.window_title@
                &&& shown.note matches Some(n) ==> (n matches RowNoteView::Plain { text } && (
                row.tag.note@.len() > 0 ==> text == row.tag.note@))
            }
            &&& p.editing matches Some(e) ==> {
                &&& shown.head is Editing <==> e.target == row.target && e.field
                    == EditField::Title
                &&& shown.head matches RowHeadView::Editing { draft } ==> draft == e.draft@
                &&& shown.note matches Some(n) ==> {
                    &&& n is Editing <==> e.target == row.target && e.field == EditField::Note
                    &&& n matches RowNoteView::Editing { draft } ==> draft == e.draft@
                }
            }
        }),
{
    reveal_strlit("▾");
    reveal_strlit("▸");
    assert(panel_style::CHEVRON_DOWN@[0] != panel_style::CHEVRON_RIGHT@[0]);
}

/// What the pointer does on a row concerns this row: a press brings its window to
/// the front, a double click edits its title, and coming over it highlights it.
/// While a row is dragged, coming over another one makes that the place to drop it.
pub proof fn pointer_concerns_the_row(
    app: AppView,
    row: TagRow,
    fresh: WindowId,
    current: Option<Settings>,
)
    requires
        app.panel is Some,
        app.panel->0.editing is None,
        rows::has_row(app.panel->0.rows, row.target),
    ensures
        ({
            let p = app.panel->0;
            let head = iced_view::row_shown(p, row).head;
            &&& head is Plain
            &&& p.drag is None ==> {
                let pressed = iced_app::app_step(app, head->on_press, fresh, current);
                let edited = iced_app::app_step(app, head->on_double_click, fresh, current);
                let entered = iced_app::app_step(app, head->on_enter, fresh, current);
                &&& pressed.effects == seq![
                    EffectView::Send(GuiEventView::ActivateWindow { target: row.target }),
                ]
                &&& edited.app.panel is Some
                &&& edited.app.panel->0.editing is Some
                &&& edited.app.panel->0.editing->0.target == row.target
                &&& edited.app.panel->0.editing->0.field == EditField::Title
                &&& entered.app.panel is Some
                &&& entered.app.panel->0.hovered == Some(row.target)
            }
            &&& p.drag is Some && p.drag->0.from_target != row.target ==> {
                let entered = iced_app::app_step(app, head->on_enter, fresh, current);
                &&& entered.app.panel is Some
                &&& entered.app.panel->0.drag is Some
                &&& entered.app.panel->0.drag->0.over_target == Some(row.target)
                &&& entered.app.panel->0.drag->0.from_target == p.drag->0.from_target
            }
        }),
{
}

/// Every window that is open is known for what it is, and windows of different
/// kinds have different titles.
pub proof fn windows_are_known(app: AppView)
    requires
        iced_app::ids_distinct(app),
    ensures
        app.confirm matches Some(c) ==> iced_view::kind_of(app, c.id) == WindowKind::Confirm,
        app.settings matches Some(w) ==> iced_view::kind_of(app, w.id) == WindowKind::Settings,
        app.popup matches Some(p) ==> iced_view::kind_of(app, p.id) == WindowKind::Popup,
        app.panel matches Some(p) ==> iced_view::kind_of(app, p.id) == WindowKind::Panel,
        forall|a: WindowKind, b: WindowKind| #[trigger]
            iced_view::title_of(a) == #[trigger] iced_view::title_of(b) ==> a == b,
{
    reveal_strlit("退出确认");
    reveal_strlit("设置");
    reveal_strlit("标记窗口");
    reveal_strlit("WinTag 概览");
    reveal_strlit("WinTag");
    assert forall|a: WindowKind, b: WindowKind| #[trigger]
        iced_view::title_of(a) == #[trigger] iced_view::title_of(b) implies a == b by {
        assert(iced_view::title_of(WindowKind::Confirm)[0] == '退');
        assert(iced_view::title_of(WindowKind::Settings)[0] == '设');
        assert(iced_view::title_of(WindowKind::Popup)[0] == '标');
        assert(iced_view::title_of(WindowKind::Panel)[0] == 'W');
        assert(iced_view::title_of(WindowKind::Other)[0] == 'W');
        assert(iced_view::title_of(WindowKind::Panel).len() != iced_view::title_of(
            WindowKind::Other,
        ).len());
    }
}

/// Keys mean what they say: Escape leaves, Enter agrees, Tab moves on, and with Shift
/// back. Enter and Tab count once for every time they are pressed, and no other key
/// means anything.
pub proof fn keys_mean_what_they_say(
    shift: bool,
    repeat: bool,
    escape: Option<Message>,
    enter: Option<Message>,
    tab: Option<Message>,
    other: Option<Message>,
)
    requires
        call_ensures(keyboard_event, (KeyName::Escape, shift, repeat), escape),
        call_ensures(keyboard_event, (KeyName::Enter, shift, repeat), enter),
        call_ensures(keyboard_event, (KeyName::Tab, shift, repeat), tab),
        call_ensures(keyboard_event, (KeyName::Other, shift, repeat), other),
    ensures
        escape == Some(Message::EscapePressed),
        repeat ==> enter is None && tab is None,
        !repeat ==> enter == Some(Message::EnterPressed),
        !repeat ==> tab == Some(Message::TabPressed { backwards: shift }),
        other is None,
{
}

/// Of the colour buttons exactly the one of the chosen colour has a full dot, every
/// colour has one button, and no two buttons read the same.
pub proof fn color_buttons_tell_the_choice(a: TagColor, b: TagColor, chosen: TagColor)
    ensures
        iced_view::swatch_label(a, chosen)[0] == '●' <==> a == chosen,
        iced_view::swatch_label(a, chosen) == iced_view::swatch_label(b, chosen) ==> a == b,
        exists|i: int| 0 <= i < 5 && #[trigger] iced_view::color_at(i) == a,
        forall|i: int, j: int|
            0 <= i < 5 && 0 <= j < 5 && #[trigger] iced_view::color_at(i)
                == #[trigger] iced_view::color_at(j) ==> i == j,
{
    reveal_strlit("●");
    reveal_strlit("○");
    reveal_strlit(" ");
    reveal_strlit("橙");
    reveal_strlit("蓝");
    reveal_strlit("绿");
    reveal_strlit("红");
    reveal_strlit("紫");
    assert(iced_view::swatch_label(a, chosen)[2] == iced_view::color_name(a)[0]);
    assert(iced_view::swatch_label(b, chosen)[2] == iced_view::color_name(b)[0]);
    assert(iced_view::color_at(0) == TagColor::Orange);
    assert(iced_view::color_at(1) == TagColor::Blue);
    assert(iced_view::color_at(2) == TagColor::Green);
    assert(iced_view::color_at(3) == TagColor::Red);
    assert(iced_view::color_at(4) == TagColor::Purple);
}

/// The tag editor names the window and the process that it is about.
pub proof fn editor_names_its_window(window_title: &str, process_name: &str, caption: String)
    requires
        call_ensures(popup_caption, (window_title, process_name), caption),
    ensures
        text::begins_with(caption@, window_title@),
        text::is_inside(process_name@, caption@),
{
    let front = window_title@ + " / "@;
    assert(caption@ =~= front + process_name@ + Seq::<char>::empty());
    text::inside_means_between(process_name@, front, Seq::empty());
    assert(caption@.subrange(0, window_title@.len() as int) =~= window_title@);
}

// ---------------------------------------------------------------------
// The state machine
// ---------------------------------------------------------------------
/// Everything that is said here of steps is said of the program: the state after a
/// message, and what is left to do, are those of the step.
pub proof fn program_takes_these_steps(
    message: Message,
    command: IcedCommand,
    fresh: WindowId,
    current: Option<Settings>,
    effects: Vec<Effect>,
)
    ensures
        forall|app: &mut WinTagApp| #[trigger]
            call_ensures(WinTagApp::update, (app, message, fresh, current), effects) ==> {
                let step = iced_app::app_step(app@, message, fresh, current);
                &&& final(app)@ == step.app
                &&& iced_app::effect_views(effects@) == step.effects
            },
        forall|app: &mut WinTagApp| #[trigger]
            call_ensures(WinTagApp::handle_command, (app, command, fresh, current), effects) ==> {
                let step = iced_app::commands_run(app@, seq![command], fresh as int, current);
                &&& final(app)@ == step.app
                &&& iced_app::effect_views(effects@) == step.effects
            },
{
    reveal_with_fuel(iced_app::commands_run, 2);
    assert(seq![command].drop_last() =~= Seq::empty());
    assert forall|app: &mut WinTagApp| #[trigger]
        call_ensures(WinTagApp::handle_command, (app, command, fresh, current), effects) implies {
        let step = iced_app::commands_run(app@, seq![command], fresh as int, current);
        &&& final(app)@ == step.app
        &&& iced_app::effect_views(effects@) == step.effects
    } by {
        let step = iced_app::commands_run(app@, seq![command], fresh as int, current);
        let one = iced_app::command_step(app@, command, fresh, current);
        assert(step.effects =~= one.effects);
    }
}

/// The program starts with no window open, in the theme that it is told.
pub proof fn program_starts_with_no_window(dark: bool, app: WinTagApp)
    requires
        call_ensures(WinTagApp::new, (dark,), app),
    ensures
        app@.confirm is None && app@.settings is None && app@.popup is None && app@.panel is None,
        app@.closing_panel is None,
        app@.dark == dark,
{
}

/// What is said here of what windows show is said of the functions that show it.
pub proof fn windows_show_it_like_this(
    panel: PanelState,
    row: TagRow,
    model: RowModel,
    app: WinTagApp,
    id: WindowId,
    kind: WindowKind,
    title: &'static str,
    a: TagColor,
    b: TagColor,
    label: String,
    colors: [TagColor; 5],
    i: int,
)
    requires
        call_ensures(iced_view::panel_row, (&panel, &row), model),
        call_ensures(WinTagApp::kind, (&app, id), kind),
        call_ensures(WinTagApp::title, (&app, id), title),
        call_ensures(iced_view::color_swatch, (a, b), label),
        call_ensures(iced_view::tag_colors, (), colors),
        0 <= i < 5,
    ensures
        model@ == iced_view::row_shown(panel@, row),
        kind == iced_view::kind_of(app@, id),
        title@ == iced_view::title_of(kind),
        label@ == iced_view::swatch_label(a, b),
        colors@[0] == TagColor::Orange && colors@[1] == TagColor::Blue && colors@[2]
            == TagColor::Green && colors@[3] == TagColor::Red && colors@[4] == TagColor::Purple,
{
    assert(colors[0] == iced_view::color_at(0));
    assert(colors[1] == iced_view::color_at(1));
    assert(colors[2] == iced_view::color_at(2));
    assert(colors[3] == iced_view::color_at(3));
    assert(colors[4] == iced_view::color_at(4));
}

/// The colour buttons read as the colours that they choose.
pub proof fn color_names_are_right(label: String, color: TagColor, chosen: TagColor)
    requires
        call_ensures(iced_view::color_swatch, (color, chosen), label),
    ensures
        label@.len() == 3,
        label@[2] == '橙' <==> color == TagColor::Orange,
        label@[2] == '蓝' <==> color == TagColor::Blue,
        label@[2] == '绿' <==> color == TagColor::Green,
        label@[2] == '红' <==> color == TagColor::Red,
        label@[2] == '紫' <==> color == TagColor::Purple,
{
    reveal_strlit("●");
    reveal_strlit("○");
    reveal_strlit(" ");
    reveal_strlit("橙");
    reveal_strlit("蓝");
    reveal_strlit("绿");
    reveal_strlit("红");
    reveal_strlit("紫");
}

} // verus!
