//! The user interface as a state machine: windows that are open, what they
//! hold, and how every message changes them.
//!
//! A step never touches a window itself. It returns the [`Effect`]s that the
//! caller performs: opening, closing and focusing windows, and reporting events
//! to the thread that owns the tags.

use crate::model::settings;
use crate::model::settings::{CornerPreference, Settings, ThemeMode};
use crate::model::tag::{Tag, TagColor};
use crate::text;
use crate::text::{decimal_text, trim};
use crate::ui::iced_proto::{
    plan_popup_action, GuiEvent, GuiEventView, IcedCommand, PopupPlan, TagRow,
};
pub use crate::ui::rows::{
    apply_edit_to_rows, filter_rows, preview_reorder, reorder_rows, EditField, PanelDrag,
    PanelEdit,
};
use crate::ui::rows;
use crate::ui::rows::find_row;
use std::collections::HashSet;
use vstd::prelude::*;
use vstd::string::StringExecFns;

verus! {

broadcast use vstd::std_specs::hash::group_hash_axioms;

/// Names a window of the user interface. Two windows that are open at one time,
/// or one after the other, never share it.
pub type WindowId = u64;

// ---------------------------------------------------------------------
// State
// ---------------------------------------------------------------------
/// The question whether to quit.
#[derive(Debug)]
pub struct ConfirmState {
    pub id: WindowId,
    pub message: String,
}

/// The settings window.
#[derive(Debug, Clone, Copy, PartialEq, Eq, Structural)]
pub struct SettingsWindow {
    pub id: WindowId,
    /// The preferences as the window shows them.
    pub draft: Settings,
}

/// The tag editor.
#[derive(Debug)]
pub struct PopupWindow {
    pub id: WindowId,
    /// Window whose tag is edited.
    pub target: isize,
    pub title: String,
    pub note: String,
    pub color: TagColor,
    pub window_title: String,
    pub process_name: String,
}

/// The overview panel.
#[derive(Debug)]
pub struct PanelState {
    pub id: WindowId,
    pub rows: Vec<TagRow>,
    /// Text in the search box.
    pub search: String,
    /// Windows whose rows show their note.
    pub expanded: HashSet<isize>,
    /// Window whose row is under the pointer.
    pub hovered: Option<isize>,
    pub editing: Option<PanelEdit>,
    pub drag: Option<PanelDrag>,
}

/// The windows that are open, and the theme.
#[derive(Debug)]
pub struct WinTagApp {
    pub confirm: Option<ConfirmState>,
    pub settings: Option<SettingsWindow>,
    pub popup: Option<PopupWindow>,
    pub panel: Option<PanelState>,
    /// The panel that was told to close and has not reported its end yet.
    pub closing_panel: Option<WindowId>,
    pub dark: bool,
}

/// Contents of a [`ConfirmState`].
pub struct ConfirmView {
    pub id: WindowId,
    pub message: Seq<char>,
}

/// Contents of a [`PanelState`].
#[verifier::ext_equal]
pub struct PanelView {
    pub id: WindowId,
    pub rows: Seq<TagRow>,
    pub search: Seq<char>,
    pub expanded: Set<isize>,
    pub hovered: Option<isize>,
    pub editing: Option<PanelEdit>,
    pub drag: Option<PanelDrag>,
}

/// Contents of a [`WinTagApp`].
pub struct AppView {
    pub confirm: Option<ConfirmView>,
    pub settings: Option<SettingsWindow>,
    pub popup: Option<PopupWindow>,
    pub panel: Option<PanelView>,
    pub closing_panel: Option<WindowId>,
    pub dark: bool,
}

impl View for ConfirmState {
    type V = ConfirmView;

    open spec fn view(&self) -> ConfirmView {
        ConfirmView { id: self.id, message: self.message@ }
    }
}

impl View for PanelState {
    type V = PanelView;

    open spec fn view(&self) -> PanelView {
        PanelView {
            id: self.id,
            rows: self.rows@,
            search: self.search@,
            expanded: self.expanded@,
            hovered: self.hovered,
            editing: self.editing,
            drag: self.drag,
        }
    }
}

impl View for WinTagApp {
    type V = AppView;

    open spec fn view(&self) -> AppView {
        AppView {
            confirm: match self.confirm {
                Some(c) => Some(c@),
                None => None,
            },
            settings: self.settings,
            popup: self.popup,
            panel: match self.panel {
                Some(p) => Some(p@),
                None => None,
            },
            closing_panel: self.closing_panel,
            dark: self.dark,
        }
    }
}

/// The state before any window was opened.
pub open spec fn initial_app(dark: bool) -> AppView {
    AppView { confirm: None, settings: None, popup: None, panel: None, closing_panel: None, dark }
}

// ---------------------------------------------------------------------
// Messages and effects
// ---------------------------------------------------------------------
/// Something that happened in the user interface.
#[derive(Debug, Clone)]
pub enum Message {
    /// Nothing.
    Noop,
    /// These commands arrived.
    Pump(Vec<IcedCommand>),
    /// A window was closed.
    WindowClosed(WindowId),
    ConfirmPressed,
    CancelPressed,
    SettingsThemeSelected(ThemeMode),
    SettingsCornerSelected(CornerPreference),
    SettingsTitleToggled(bool),
    SettingsTopToggled(bool),
    SettingsBalloonToggled(bool),
    SettingsSavePressed,
    SettingsCancelPressed,
    PopupTitleChanged(String),
    PopupNoteChanged(String),
    PopupColorSelected(TagColor),
    PopupSavePressed,
    PopupCancelPressed,
    EscapePressed,
    EnterPressed,
    TabPressed { backwards: bool },
    /// The window of a popup is there.
    PopupOpened(WindowId),
    PanelSearchChanged(String),
    PanelToggleExpand(isize),
    PanelExpandAll,
    PanelCollapseAll,
    PanelRowActivated(isize),
    PanelRowEdit(isize),
    PanelRowRemove(isize),
    PanelRowEntered(isize),
    PanelRowExited,
    PanelBeginEdit { target: isize, field: EditField },
    PanelEditInput(String),
    PanelEditCommit,
    PanelEditCancel,
    PanelDragStart(isize),
    PanelDragHover(isize),
    PanelDragDrop,
    PanelDragCancel,
    PanelExitPressed,
}

/// Something for the caller to do.
#[derive(Debug)]
pub enum Effect {
    /// Report an event.
    Send(GuiEvent),
    /// Open the question whether to quit, centred.
    OpenConfirm(WindowId),
    /// Open the settings window, centred.
    OpenSettings(WindowId),
    /// Open the tag editor at a place on the screen.
    OpenPopup(WindowId, (i32, i32)),
    /// Open the overview panel, centred.
    OpenPanel(WindowId),
    /// Close a window.
    Close(WindowId),
    /// Bring a window to the front.
    GainFocus(WindowId),
    /// Put the cursor into the title field of the tag editor.
    FocusTitle(WindowId),
    /// Move the cursor to the next field.
    FocusNext,
    /// Move the cursor to the previous field.
    FocusPrevious,
}

/// Contents of an [`Effect`].
pub enum EffectView {
    Send(GuiEventView),
    OpenConfirm(WindowId),
    OpenSettings(WindowId),
    OpenPopup(WindowId, (i32, i32)),
    OpenPanel(WindowId),
    Close(WindowId),
    GainFocus(WindowId),
    FocusTitle(WindowId),
    FocusNext,
    FocusPrevious,
}

impl View for Effect {
    type V = EffectView;

    open spec fn view(&self) -> EffectView {
        match *self {
            Effect::Send(event) => EffectView::Send(event@),
            Effect::OpenConfirm(id) => EffectView::OpenConfirm(id),
            Effect::OpenSettings(id) => EffectView::OpenSettings(id),
            Effect::OpenPopup(id, at) => EffectView::OpenPopup(id, at),
            Effect::OpenPanel(id) => EffectView::OpenPanel(id),
            Effect::Close(id) => EffectView::Close(id),
            Effect::GainFocus(id) => EffectView::GainFocus(id),
            Effect::FocusTitle(id) => EffectView::FocusTitle(id),
            Effect::FocusNext => EffectView::FocusNext,
            Effect::FocusPrevious => EffectView::FocusPrevious,
        }
    }
}

/// Contents of a list of effects.
pub open spec fn effect_views(effects: Seq<Effect>) -> Seq<EffectView> {
    effects.map_values(|e: Effect| e@)
}

/// Result of a step: the next state and the effects.
pub struct Step {
    pub app: AppView,
    pub effects: Seq<EffectView>,
}

/// A step that has no effects.
pub open spec fn quiet(app: AppView) -> Step {
    Step { app, effects: seq![] }
}

/// A step that reports one event and changes nothing.
pub open spec fn report(app: AppView, event: GuiEventView) -> Step {
    Step { app, effects: seq![EffectView::Send(event)] }
}

fn no_effects() -> (effects: Vec<Effect>)
    ensures
        effect_views(effects@) == Seq::<EffectView>::empty(),
{
    let effects: Vec<Effect> = Vec::new();
    proof {
        assert(effect_views(effects@) =~= Seq::<EffectView>::empty());
    }
    effects
}

fn one_effect(effect: Effect) -> (effects: Vec<Effect>)
    ensures
        effect_views(effects@) == seq![effect@],
{
    let mut effects: Vec<Effect> = Vec::new();
    effects.push(effect);
    proof {
        assert(effect_views(effects@) =~= seq![effect@]);
    }
    effects
}

fn two_effects(first: Effect, second: Effect) -> (effects: Vec<Effect>)
    ensures
        effect_views(effects@) == seq![first@, second@],
{
    let mut effects: Vec<Effect> = Vec::new();
    effects.push(first);
    effects.push(second);
    proof {
        assert(effect_views(effects@) =~= seq![first@, second@]);
    }
    effects
}

// ---------------------------------------------------------------------
// Opening and closing windows
// ---------------------------------------------------------------------
/// The question whether to quit although `count` tags would be lost.
pub open spec fn confirm_message(count: usize) -> Seq<char> {
    "确定退出？将丢弃 "@ + text::decimal(count as nat) + " 个标签/便签"@
}

pub open spec fn confirm_opened(app: AppView, count: usize, fresh: WindowId) -> Step {
    match app.confirm {
        Some(c) => Step { app, effects: seq![EffectView::GainFocus(c.id)] },
        None => Step {
            app: AppView {
                confirm: Some(ConfirmView { id: fresh, message: confirm_message(count) }),
                ..app
            },
            effects: seq![EffectView::OpenConfirm(fresh), EffectView::GainFocus(fresh)],
        },
    }
}

pub open spec fn confirm_closed(app: AppView) -> Step {
    match app.confirm {
        Some(c) => Step {
            app: AppView { confirm: None, ..app },
            effects: seq![EffectView::Close(c.id)],
        },
        None => quiet(app),
    }
}

/// The settings window shows the current preferences, or the defaults when
/// there are none yet.
pub open spec fn settings_opened(app: AppView, current: Option<Settings>, fresh: WindowId)
    -> Step {
    match app.settings {
        Some(w) => Step { app, effects: seq![EffectView::GainFocus(w.id)] },
        None => Step {
            app: AppView {
                settings: Some(
                    SettingsWindow {
                        id: fresh,
                        draft: match current {
                            Some(s) => s,
                            None => settings::default_settings(),
                        },
                    },
                ),
                ..app
            },
            effects: seq![EffectView::OpenSettings(fresh), EffectView::GainFocus(fresh)],
        },
    }
}

pub open spec fn settings_closed(app: AppView) -> Step {
    match app.settings {
        Some(w) => Step {
            app: AppView { settings: None, ..app },
            effects: seq![EffectView::Close(w.id)],
        },
        None => quiet(app),
    }
}

/// A tag editor filled with a tag.
pub open spec fn popup_for(id: WindowId, target: isize, tag: Tag) -> PopupWindow {
    PopupWindow {
        id,
        target,
        title: tag.title,
        note: tag.note,
        color: tag.color,
        window_title: tag.window_title,
        process_name: tag.process_name,
    }
}

/// There is one tag editor: it is brought to the front when it already edits
/// this window's tag, and closed and opened anew when it edits another's.
pub open spec fn popup_opened(
    app: AppView,
    target: isize,
    position: (i32, i32),
    tag: Tag,
    fresh: WindowId,
) -> Step {
    let opened = AppView { popup: Some(popup_for(fresh, target, tag)), ..app };
    let opening = seq![EffectView::OpenPopup(fresh, position), EffectView::GainFocus(fresh)];
    match app.popup {
        Some(p) => if p.target == target {
            Step { app, effects: seq![EffectView::FocusTitle(p.id), EffectView::GainFocus(p.id)] }
        } else {
            Step { app: opened, effects: seq![EffectView::Close(p.id)] + opening }
        },
        None => Step { app: opened, effects: opening },
    }
}

pub open spec fn popup_closed(app: AppView) -> Step {
    match app.popup {
        Some(p) => Step {
            app: AppView { popup: None, ..app },
            effects: seq![EffectView::Close(p.id)],
        },
        None => quiet(app),
    }
}

pub open spec fn panel_opened(app: AppView, fresh: WindowId) -> Step {
    match app.panel {
        Some(p) => Step { app, effects: seq![EffectView::GainFocus(p.id)] },
        None => Step {
            app: AppView {
                panel: Some(
                    PanelView {
                        id: fresh,
                        rows: seq![],
                        search: seq![],
                        expanded: Set::empty(),
                        hovered: None,
                        editing: None,
                        drag: None,
                    },
                ),
                ..app
            },
            effects: seq![EffectView::OpenPanel(fresh), EffectView::GainFocus(fresh)],
        },
    }
}

pub open spec fn panel_closed(app: AppView) -> Step {
    match app.panel {
        Some(p) => Step {
            app: AppView { panel: None, closing_panel: Some(p.id), ..app },
            effects: seq![EffectView::Close(p.id)],
        },
        None => quiet(app),
    }
}

/// The app with its panel changed, if it is open.
pub open spec fn with_panel(app: AppView, panel: PanelView) -> AppView {
    AppView { panel: Some(panel), ..app }
}

/// The panel shows the new rows; rows that are gone are no longer expanded.
pub open spec fn panel_refreshed(app: AppView, rows: Seq<TagRow>) -> AppView {
    match app.panel {
        Some(p) => with_panel(
            app,
            PanelView {
                rows,
                expanded: p.expanded.filter(|t: isize| rows::row_targets(rows).contains(t)),
                ..p
            },
        ),
        None => app,
    }
}

/// What a command does.
pub open spec fn command_step(
    app: AppView,
    command: IcedCommand,
    fresh: WindowId,
    current: Option<Settings>,
) -> Step {
    match command {
        IcedCommand::ShowConfirm { count } => confirm_opened(app, count, fresh),
        IcedCommand::CloseConfirm => confirm_closed(app),
        IcedCommand::OpenSettings => settings_opened(app, current, fresh),
        IcedCommand::ApplyTheme { dark } => quiet(AppView { dark, ..app }),
        IcedCommand::EditTag { target, position, tag } => popup_opened(
            app,
            target,
            position,
            tag,
            fresh,
        ),
        IcedCommand::ShowPanel => panel_opened(app, fresh),
        IcedCommand::HidePanel => panel_closed(app),
        IcedCommand::RefreshTags { rows } => quiet(panel_refreshed(app, rows@)),
    }
}

/// What a run of commands does, one after the other. The command at position
/// `i` names a window that it opens `fresh + i`.
pub open spec fn commands_run(
    app: AppView,
    commands: Seq<IcedCommand>,
    fresh: int,
    current: Option<Settings>,
) -> Step
    decreases commands.len(),
{
    if commands.len() == 0 {
        quiet(app)
    } else {
        let before = commands_run(app, commands.drop_last(), fresh, current);
        let last = command_step(
            before.app,
            commands.last(),
            (fresh + commands.len() - 1) as WindowId,
            current,
        );
        Step { app: last.app, effects: before.effects + last.effects }
    }
}

// ---------------------------------------------------------------------
// Steps
// ---------------------------------------------------------------------
/// What the closing of window `id` does: whatever window it was is gone. A
/// question that is closed counts as answered with no. The end of the panel is
/// reported, whether the user closed it or it was told to close, unless another
/// panel was opened in the meantime.
pub open spec fn window_gone(app: AppView, id: WindowId) -> Step {
    let is_confirm = app.confirm is Some && app.confirm->0.id == id;
    let is_panel = app.panel is Some && app.panel->0.id == id;
    let was_closing = app.closing_panel == Some(id);
    Step {
        app: AppView {
            confirm: if is_confirm {
                None
            } else {
                app.confirm
            },
            settings: if app.settings is Some && app.settings->0.id == id {
                None
            } else {
                app.settings
            },
            popup: if app.popup is Some && app.popup->0.id == id {
                None
            } else {
                app.popup
            },
            panel: if is_panel {
                None
            } else {
                app.panel
            },
            closing_panel: if was_closing {
                None
            } else {
                app.closing_panel
            },
            dark: app.dark,
        },
        effects: (if is_confirm {
            seq![EffectView::Send(GuiEventView::CancelExit)]
        } else {
            seq![]
        }) + (if is_panel || (was_closing && app.panel is None) {
            seq![EffectView::Send(GuiEventView::PanelVisibilityChanged(false))]
        } else {
            seq![]
        }),
    }
}

/// Reports `event`, then does what `step` does.
pub open spec fn reporting(event: GuiEventView, step: Step) -> Step {
    Step { app: step.app, effects: seq![EffectView::Send(event)] + step.effects }
}

/// The preferences that the settings window shows.
pub open spec fn shown_settings(app: AppView) -> Settings {
    match app.settings {
        Some(w) => w.draft,
        None => settings::default_settings(),
    }
}

/// What a message does to the preferences that the settings window shows.
pub open spec fn draft_step(draft: Settings, message: Message) -> Settings {
    match message {
        Message::SettingsThemeSelected(v) => Settings { theme: v, ..draft },
        Message::SettingsCornerSelected(v) => Settings { corner: v, ..draft },
        Message::SettingsTitleToggled(v) => Settings { show_badge_title: v, ..draft },
        Message::SettingsTopToggled(v) => Settings { badge_always_top: v, ..draft },
        Message::SettingsBalloonToggled(v) => Settings { show_balloon: v, ..draft },
        _ => draft,
    }
}

/// What a message does to the fields of the tag editor.
pub open spec fn popup_step(p: PopupWindow, message: Message) -> PopupWindow {
    match message {
        Message::PopupTitleChanged(s) => PopupWindow { title: s, ..p },
        Message::PopupNoteChanged(s) => PopupWindow { note: s, ..p },
        Message::PopupColorSelected(c) => PopupWindow { color: c, ..p },
        _ => p,
    }
}

/// The tag that the tag editor shows.
pub open spec fn popup_tag(p: PopupWindow) -> Tag {
    Tag {
        title: p.title,
        note: p.note,
        color: p.color,
        window_title: p.window_title,
        process_name: p.process_name,
    }
}

pub open spec fn popup_saved(app: AppView) -> Step {
    match app.popup {
        Some(p) => reporting(
            GuiEventView::TagSaved { target: p.target, tag: popup_tag(p) },
            popup_closed(app),
        ),
        None => quiet(app),
    }
}

/// Escape goes to the first of these that is there: the question whether to
/// quit, the settings window, an edit in place, the panel, the tag editor.
pub open spec fn escape_pressed(app: AppView) -> Step {
    if app.confirm is Some {
        reporting(GuiEventView::CancelExit, confirm_closed(app))
    } else if app.settings is Some {
        settings_closed(app)
    } else if app.panel is Some && app.panel->0.editing is Some {
        quiet(with_panel(app, PanelView { editing: None, ..app.panel->0 }))
    } else if app.panel is Some {
        panel_closed(app)
    } else {
        popup_closed(app)
    }
}

/// Enter answers the question whether to quit with yes, or else saves the
/// settings.
pub open spec fn enter_pressed(app: AppView) -> Step {
    if app.confirm is Some {
        reporting(GuiEventView::ConfirmExit, confirm_closed(app))
    } else if app.settings is Some {
        reporting(GuiEventView::SettingsChanged(shown_settings(app)), settings_closed(app))
    } else {
        quiet(app)
    }
}

/// An edit in place begins with the text that the row has now.
pub open spec fn edit_begun(p: PanelView, target: isize, field: EditField) -> PanelView {
    if rows::has_row(p.rows, target) {
        let tag = p.rows[rows::row_position(p.rows, target)].tag;
        PanelView {
            editing: Some(
                PanelEdit {
                    target,
                    field,
                    draft: match field {
                        EditField::Title => tag.title,
                        EditField::Note => tag.note,
                    },
                },
            ),
            ..p
        }
    } else {
        p
    }
}

/// The end of an edit in place: the row is changed here and reported, unless it
/// is gone.
pub open spec fn edit_committed(app: AppView) -> Step {
    match app.panel {
        Some(p) => match p.editing {
            Some(edit) => if rows::has_row(p.rows, edit.target) {
                Step {
                    app: with_panel(
                        app,
                        PanelView { rows: rows::rows_edited(p.rows, edit), editing: None, ..p },
                    ),
                    effects: seq![
                        EffectView::Send(
                            GuiEventView::TagSaved {
                                target: edit.target,
                                tag: rows::tag_edited(
                                    p.rows[rows::row_position(p.rows, edit.target)].tag,
                                    edit,
                                ),
                            },
                        ),
                    ],
                }
            } else {
                quiet(with_panel(app, PanelView { editing: None, ..p }))
            },
            None => quiet(app),
        },
        None => quiet(app),
    }
}

/// The end of a drag: the rows take their new order here, and it is reported,
/// if the pointer is over another row.
pub open spec fn drag_dropped(app: AppView) -> Step {
    match app.panel {
        Some(p) => match p.drag {
            Some(drag) => if drag.over_target is Some && drag.over_target->0 != drag.from_target {
                let order = rows::order_after_drag(rows::row_targets(p.rows), drag);
                Step {
                    app: with_panel(
                        app,
                        PanelView { rows: rows::rows_reordered(p.rows, order), drag: None, ..p },
                    ),
                    effects: seq![EffectView::Send(GuiEventView::ReorderTags { targets: order })],
                }
            } else {
                quiet(with_panel(app, PanelView { drag: None, ..p }))
            },
            None => quiet(app),
        },
        None => quiet(app),
    }
}

/// What a message does to the panel alone.
pub open spec fn panel_step(p: PanelView, message: Message) -> PanelView {
    match message {
        Message::PanelSearchChanged(s) => PanelView { search: s@, ..p },
        Message::PanelToggleExpand(target) => PanelView {
            expanded: if p.expanded.contains(target) {
                p.expanded.remove(target)
            } else {
                p.expanded.insert(target)
            },
            ..p
        },
        Message::PanelExpandAll => PanelView { expanded: rows::row_targets(p.rows).to_set(), ..p },
        Message::PanelCollapseAll => PanelView { expanded: Set::empty(), ..p },
        Message::PanelRowEntered(target) => PanelView { hovered: Some(target), ..p },
        Message::PanelRowExited => PanelView { hovered: None, ..p },
        Message::PanelBeginEdit { target, field } => edit_begun(p, target, field),
        Message::PanelEditInput(s) => PanelView {
            editing: match p.editing {
                Some(edit) => Some(PanelEdit { draft: s, ..edit }),
                None => None,
            },
            ..p
        },
        Message::PanelEditCancel => PanelView { editing: None, ..p },
        Message::PanelDragStart(target) => if text::trimmed(p.search).len() == 0 && p.editing is None {
            PanelView {
                drag: Some(PanelDrag { from_target: target, over_target: None }),
                ..p
            }
        } else {
            p
        },
        Message::PanelDragHover(target) => PanelView {
            drag: match p.drag {
                Some(drag) => if drag.from_target != target {
                    Some(PanelDrag { over_target: Some(target), ..drag })
                } else {
                    Some(drag)
                },
                None => None,
            },
            ..p
        },
        Message::PanelDragCancel => PanelView { drag: None, ..p },
        _ => p,
    }
}

/// What a message does. `fresh` names the first window that is opened, and
/// `current` holds the preferences in force.
pub open spec fn app_step(
    app: AppView,
    message: Message,
    fresh: WindowId,
    current: Option<Settings>,
) -> Step {
    match message {
        Message::Noop => quiet(app),
        Message::Pump(commands) => commands_run(app, commands@, fresh as int, current),
        Message::WindowClosed(id) => window_gone(app, id),
        Message::ConfirmPressed => reporting(GuiEventView::ConfirmExit, confirm_closed(app)),
        Message::CancelPressed => reporting(GuiEventView::CancelExit, confirm_closed(app)),
        Message::SettingsSavePressed => reporting(
            GuiEventView::SettingsChanged(shown_settings(app)),
            settings_closed(app),
        ),
        Message::SettingsCancelPressed => settings_closed(app),
        Message::PopupSavePressed => popup_saved(app),
        Message::PopupCancelPressed => popup_closed(app),
        Message::EscapePressed => escape_pressed(app),
        Message::EnterPressed => enter_pressed(app),
        Message::TabPressed { backwards } => if app.popup is Some {
            Step {
                app,
                effects: seq![
                    if backwards {
                        EffectView::FocusPrevious
                    } else {
                        EffectView::FocusNext
                    },
                ],
            }
        } else {
            quiet(app)
        },
        Message::PopupOpened(id) => match app.popup {
            Some(p) => Step {
                app,
                effects: seq![EffectView::FocusTitle(p.id), EffectView::GainFocus(id)],
            },
            None => quiet(app),
        },
        Message::PanelRowActivated(target) => report(app, GuiEventView::ActivateWindow { target }),
        Message::PanelRowEdit(target) => report(app, GuiEventView::EditTagRequested { target }),
        Message::PanelRowRemove(target) => report(app, GuiEventView::RemoveTag { target }),
        Message::PanelExitPressed => report(app, GuiEventView::PanelExit),
        Message::PanelEditCommit => edit_committed(app),
        Message::PanelDragDrop => drag_dropped(app),
        _ => quiet(
            AppView {
                settings: match app.settings {
                    Some(w) => Some(
                        SettingsWindow { draft: draft_step(w.draft, message), ..w },
                    ),
                    None => None,
                },
                popup: match app.popup {
                    Some(p) => Some(popup_step(p, message)),
                    None => None,
                },
                panel: match app.panel {
                    Some(p) => Some(panel_step(p, message)),
                    None => None,
                },
                ..app
            },
        ),
    }
}

impl WinTagApp {
    /// The state before any window was opened.
    pub fn new(dark: bool) -> (app: Self)
        ensures
            app@ == initial_app(dark),
    {
        WinTagApp {
            confirm: None,
            settings: None,
            popup: None,
            panel: None,
            closing_panel: None,
            dark,
        }
    }

    /// Asks whether to quit although `count` tags would be lost.
    pub fn open_confirm(&mut self, count: usize, fresh: WindowId) -> (effects: Vec<Effect>)
        ensures
            final(self)@ == confirm_opened(old(self)@, count, fresh).app,
            effect_views(effects@) == confirm_opened(old(self)@, count, fresh).effects,
    {
        if let Some(c) = &self.confirm {
            return one_effect(Effect::GainFocus(c.id));
        }
        let mut message: String = text::owned("确定退出？将丢弃 ");
        let number: String = decimal_text(count as u64);
        message.append(number.as_str());
        message.append(" 个标签/便签");
        self.confirm = Some(ConfirmState { id: fresh, message });
        two_effects(Effect::OpenConfirm(fresh), Effect::GainFocus(fresh))
    }

    /// Takes the question whether to quit back.
    pub fn close_confirm(&mut self) -> (effects: Vec<Effect>)
        ensures
            final(self)@ == confirm_closed(old(self)@).app,
            effect_views(effects@) == confirm_closed(old(self)@).effects,
    {
        match self.confirm.take() {
            Some(c) => one_effect(Effect::Close(c.id)),
            None => no_effects(),
        }
    }

    /// Opens the settings window.
    pub fn open_settings(&mut self, current: Option<Settings>, fresh: WindowId) -> (effects: Vec<
        Effect,
    >)
        ensures
            final(self)@ == settings_opened(old(self)@, current, fresh).app,
            effect_views(effects@) == settings_opened(old(self)@, current, fresh).effects,
    {
        if let Some(w) = &self.settings {
            return one_effect(Effect::GainFocus(w.id));
        }
        let draft: Settings = match current {
            Some(s) => s,
            None => Settings::default(),
        };
        self.settings = Some(SettingsWindow { id: fresh, draft });
        two_effects(Effect::OpenSettings(fresh), Effect::GainFocus(fresh))
    }

    /// Closes the settings window.
    pub fn close_settings(&mut self) -> (effects: Vec<Effect>)
        ensures
            final(self)@ == settings_closed(old(self)@).app,
            effect_views(effects@) == settings_closed(old(self)@).effects,
    {
        match self.settings.take() {
            Some(w) => one_effect(Effect::Close(w.id)),
            None => no_effects(),
        }
    }

    /// Opens the tag editor, or brings it to the front.
    pub fn open_popup(
        &mut self,
        target: isize,
        position: (i32, i32),
        tag: Tag,
        fresh: WindowId,
    ) -> (effects: Vec<Effect>)
        ensures
            final(self)@ == popup_opened(old(self)@, target, position, tag, fresh).app,
            effect_views(effects@) == popup_opened(
                old(self)@,
                target,
                position,
                tag,
                fresh,
            ).effects,
    {
        let existing: Option<(isize, isize)> = match &self.popup {
            Some(p) => Some((p.target, 0)),
            None => None,
        };
        let alive: bool = self.popup.is_some();
        let mut effects: Vec<Effect> = Vec::new();
        match plan_popup_action(existing, target, alive) {
            PopupPlan::Reuse(_) => {
                if let Some(p) = &self.popup {
                    effects.push(Effect::FocusTitle(p.id));
                    effects.push(Effect::GainFocus(p.id));
                }
            },
            PopupPlan::Replace(_) => {
                if let Some(p) = self.popup.take() {
                    effects.push(Effect::Close(p.id));
                }
                self.open_popup_fresh(target, tag, fresh);
                effects.push(Effect::OpenPopup(fresh, position));
                effects.push(Effect::GainFocus(fresh));
            },
            PopupPlan::Fresh => {
                self.open_popup_fresh(target, tag, fresh);
                effects.push(Effect::OpenPopup(fresh, position));
                effects.push(Effect::GainFocus(fresh));
            },
        }
        proof {
            assert(effect_views(effects@) =~= popup_opened(
                old(self)@,
                target,
                position,
                tag,
                fresh,
            ).effects);
        }
        effects
    }

    /// Fills a new tag editor.
    fn open_popup_fresh(&mut self, target: isize, tag: Tag, fresh: WindowId)
        ensures
            final(self)@ == (AppView {
                popup: Some(popup_for(fresh, target, tag)),
                ..old(self)@
            }),
    {
        self.popup = Some(
            PopupWindow {
                id: fresh,
                target,
                title: tag.title,
                note: tag.note,
                color: tag.color,
                window_title: tag.window_title,
                process_name: tag.process_name,
            },
        );
    }

    /// Closes the tag editor.
    pub fn close_popup(&mut self) -> (effects: Vec<Effect>)
        ensures
            final(self)@ == popup_closed(old(self)@).app,
            effect_views(effects@) == popup_closed(old(self)@).effects,
    {
        match self.popup.take() {
            Some(p) => one_effect(Effect::Close(p.id)),
            None => no_effects(),
        }
    }

    /// Shows the overview panel, or brings it to the front.
    pub fn show_panel(&mut self, fresh: WindowId) -> (effects: Vec<Effect>)
        ensures
            final(self)@ == panel_opened(old(self)@, fresh).app,
            effect_views(effects@) == panel_opened(old(self)@, fresh).effects,
    {
        if let Some(p) = &self.panel {
            return one_effect(Effect::GainFocus(p.id));
        }
        self.panel = Some(
            PanelState {
                id: fresh,
                rows: Vec::new(),
                search: String::new(),
                expanded: HashSet::new(),
                hovered: None,
                editing: None,
                drag: None,
            },
        );
        two_effects(Effect::OpenPanel(fresh), Effect::GainFocus(fresh))
    }

    /// Hides the overview panel.
    pub fn hide_panel(&mut self) -> (effects: Vec<Effect>)
        ensures
            final(self)@ == panel_closed(old(self)@).app,
            effect_views(effects@) == panel_closed(old(self)@).effects,
    {
        match self.panel.take() {
            Some(p) => {
                self.closing_panel = Some(p.id);
                one_effect(Effect::Close(p.id))
            },
            None => no_effects(),
        }
    }

    /// Replaces the rows of the overview panel.
    pub fn refresh_panel(&mut self, rows: Vec<TagRow>)
        ensures
            final(self)@ == panel_refreshed(old(self)@, rows@),
    {
        if let Some(p) = &mut self.panel {
            let kept: HashSet<isize> = kept_targets(&rows, &p.expanded);
            p.expanded = kept;
            p.rows = rows;
        }
    }

    /// Does what a command asks for.
    pub fn handle_command(
        &mut self,
        command: IcedCommand,
        fresh: WindowId,
        current: Option<Settings>,
    ) -> (effects: Vec<Effect>)
        ensures
            final(self)@ == command_step(old(self)@, command, fresh, current).app,
            effect_views(effects@) == command_step(old(self)@, command, fresh, current).effects,
    {
        match command {
            IcedCommand::ShowConfirm { count } => self.open_confirm(count, fresh),
            IcedCommand::CloseConfirm => self.close_confirm(),
            IcedCommand::OpenSettings => self.open_settings(current, fresh),
            IcedCommand::ApplyTheme { dark } => {
                self.dark = dark;
                no_effects()
            },
            IcedCommand::EditTag { target, position, tag } => self.open_popup(
                target,
                position,
                tag,
                fresh,
            ),
            IcedCommand::ShowPanel => self.show_panel(fresh),
            IcedCommand::HidePanel => self.hide_panel(),
            IcedCommand::RefreshTags { rows } => {
                self.refresh_panel(rows);
                no_effects()
            },
        }
    }

    /// Does what the commands ask for, one after the other.
    pub fn drain_commands(
        &mut self,
        commands: Vec<IcedCommand>,
        fresh: WindowId,
        current: Option<Settings>,
    ) -> (effects: Vec<Effect>)
        requires
            fresh + commands.len() <= WindowId::MAX,
        ensures
            final(self)@ == commands_run(old(self)@, commands@, fresh as int, current).app,
            effect_views(effects@) == commands_run(
                old(self)@,
                commands@,
                fresh as int,
                current,
            ).effects,
    {
        let ghost all = commands@;
        let ghost start = self@;
        let mut effects: Vec<Effect> = Vec::new();
        let mut i: usize = 0;
        let n: usize = commands.len();
        for command in iter: commands
            invariant
                i == iter.index(),
                n == all.len(),
                iter.seq() == all,
                fresh + n <= WindowId::MAX,
                self@ == commands_run(start, all.take(i as int), fresh as int, current).app,
                effect_views(effects@) == commands_run(
                    start,
                    all.take(i as int),
                    fresh as int,
                    current,
                ).effects,
        {
            let ghost before = effects@;
            let mut more: Vec<Effect> = self.handle_command(command, fresh + i as u64, current);
            let ghost added = more@;
            effects.append(&mut more);
            proof {
                assert(all.take(i + 1).drop_last() =~= all.take(i as int));
                assert(effect_views(effects@) =~= effect_views(before) + effect_views(added));
            }
            i = i + 1;
        }
        proof {
            assert(all.take(n as int) =~= all);
        }
        effects
    }
}

/// Every window of the rows.
fn all_targets(rows: &[TagRow]) -> (all: HashSet<isize>)
    ensures
        all@ == rows::row_targets(rows@).to_set(),
{
    let mut all: HashSet<isize> = HashSet::new();
    let mut i: usize = 0;
    while i < rows.len()
        invariant
            i <= rows.len(),
            forall|t: isize| #[trigger]
                all@.contains(t) <==> exists|k: int|
                    0 <= k < i && (#[trigger] rows[k]).target == t,
        decreases rows.len() - i,
    {
        all.insert(rows[i].target);
        i = i + 1;
    }
    proof {
        let wanted = rows::row_targets(rows@).to_set();
        assert forall|t: isize| #[trigger] all@.contains(t) <==> wanted.contains(t) by {
            lemma_targets_contain(rows@, t);
        }
        assert(all@ =~= wanted);
    }
    all
}

impl WinTagApp {
    /// One step of the user interface.
    #[verifier::rlimit(60)]
    pub fn update(&mut self, message: Message, fresh: WindowId, current: Option<Settings>) -> (
    effects: Vec<Effect>)
        requires
            message matches Message::Pump(commands) ==> fresh + commands.len() <= WindowId::MAX,
        ensures
            final(self)@ == app_step(old(self)@, message, fresh, current).app,
            effect_views(effects@) == app_step(old(self)@, message, fresh, current).effects,
    {
        match message {
            Message::Noop => no_effects(),
            Message::Pump(commands) => self.drain_commands(commands, fresh, current),
            Message::WindowClosed(id) => self.window_closed(id),
            Message::ConfirmPressed => {
                let closing: Vec<Effect> = self.close_confirm();
                send_first(GuiEvent::ConfirmExit, closing)
            },
            Message::CancelPressed => {
                let closing: Vec<Effect> = self.close_confirm();
                send_first(GuiEvent::CancelExit, closing)
            },
            Message::SettingsSavePressed => self.save_settings(),
            Message::SettingsCancelPressed => self.close_settings(),
            Message::PopupSavePressed => self.save_popup(),
            Message::PopupCancelPressed => self.close_popup(),
            Message::EscapePressed => self.escape(),
            Message::EnterPressed => self.enter(),
            Message::TabPressed { backwards } => {
                if self.popup.is_none() {
                    no_effects()
                } else if backwards {
                    one_effect(Effect::FocusPrevious)
                } else {
                    one_effect(Effect::FocusNext)
                }
            },
            Message::PopupOpened(id) => match &self.popup {
                Some(p) => two_effects(Effect::FocusTitle(p.id), Effect::GainFocus(id)),
                None => no_effects(),
            },
            Message::PanelRowActivated(target) => one_effect(
                Effect::Send(GuiEvent::ActivateWindow { target }),
            ),
            Message::PanelRowEdit(target) => one_effect(
                Effect::Send(GuiEvent::EditTagRequested { target }),
            ),
            Message::PanelRowRemove(target) => one_effect(
                Effect::Send(GuiEvent::RemoveTag { target }),
            ),
            Message::PanelExitPressed => one_effect(Effect::Send(GuiEvent::PanelExit)),
            Message::PanelEditCommit => self.commit_edit(),
            Message::PanelDragDrop => self.drop_drag(),
            Message::SettingsThemeSelected(_)
            | Message::SettingsCornerSelected(_)
            | Message::SettingsTitleToggled(_)
            | Message::SettingsTopToggled(_)
            | Message::SettingsBalloonToggled(_) => {
                if let Some(w) = &mut self.settings {
                    w.update(message);
                }
                no_effects()
            },
            Message::PopupTitleChanged(_)
            | Message::PopupNoteChanged(_)
            | Message::PopupColorSelected(_) => {
                if let Some(p) = &mut self.popup {
                    p.update(message);
                }
                no_effects()
            },
            other => {
                if let Some(p) = &mut self.panel {
                    p.update(other);
                }
                no_effects()
            },
        }
    }

    /// A window is gone.
    fn window_closed(&mut self, id: WindowId) -> (effects: Vec<Effect>)
        ensures
            final(self)@ == window_gone(old(self)@, id).app,
            effect_views(effects@) == window_gone(old(self)@, id).effects,
    {
        let mut effects: Vec<Effect> = Vec::new();
        let is_confirm: bool = match &self.confirm {
            Some(c) => c.id == id,
            None => false,
        };
        if is_confirm {
            self.confirm = None;
            effects.push(Effect::Send(GuiEvent::CancelExit));
        }
        let is_settings: bool = match &self.settings {
            Some(w) => w.id == id,
            None => false,
        };
        if is_settings {
            self.settings = None;
        }
        let is_popup: bool = match &self.popup {
            Some(p) => p.id == id,
            None => false,
        };
        if is_popup {
            self.popup = None;
        }
        let is_panel: bool = match &self.panel {
            Some(p) => p.id == id,
            None => false,
        };
        let was_closing: bool = match self.closing_panel {
            Some(closing) => closing == id,
            None => false,
        };
        if is_panel || (was_closing && self.panel.is_none()) {
            effects.push(Effect::Send(GuiEvent::PanelVisibilityChanged(false)));
        }
        if is_panel {
            self.panel = None;
        }
        if was_closing {
            self.closing_panel = None;
        }
        proof {
            assert(effect_views(effects@) =~= window_gone(old(self)@, id).effects);
        }
        effects
    }

    /// Reports the preferences that the settings window shows, and closes it.
    fn save_settings(&mut self) -> (effects: Vec<Effect>)
        ensures
            final(self)@ == settings_closed(old(self)@).app,
            effect_views(effects@) == reporting(
                GuiEventView::SettingsChanged(shown_settings(old(self)@)),
                settings_closed(old(self)@),
            ).effects,
    {
        let draft: Settings = match &self.settings {
            Some(w) => w.draft,
            None => Settings::default(),
        };
        let closing: Vec<Effect> = self.close_settings();
        send_first(GuiEvent::SettingsChanged(draft), closing)
    }

    /// Reports the tag that the tag editor shows, and closes it.
    fn save_popup(&mut self) -> (effects: Vec<Effect>)
        ensures
            final(self)@ == popup_saved(old(self)@).app,
            effect_views(effects@) == popup_saved(old(self)@).effects,
    {
        match self.popup.take() {
            Some(p) => {
                let tag: Tag = Tag {
                    title: p.title,
                    note: p.note,
                    color: p.color,
                    window_title: p.window_title,
                    process_name: p.process_name,
                };
                let closing: Vec<Effect> = one_effect(Effect::Close(p.id));
                send_first(GuiEvent::TagSaved { target: p.target, tag }, closing)
            },
            None => no_effects(),
        }
    }

    /// Escape was pressed.
    fn escape(&mut self) -> (effects: Vec<Effect>)
        ensures
            final(self)@ == escape_pressed(old(self)@).app,
            effect_views(effects@) == escape_pressed(old(self)@).effects,
    {
        if self.confirm.is_some() {
            let closing: Vec<Effect> = self.close_confirm();
            return send_first(GuiEvent::CancelExit, closing);
        }
        if self.settings.is_some() {
            return self.close_settings();
        }
        let editing: bool = match &self.panel {
            Some(p) => p.editing.is_some(),
            None => false,
        };
        if editing {
            if let Some(p) = &mut self.panel {
                p.editing = None;
            }
            return no_effects();
        }
        if self.panel.is_some() {
            return self.hide_panel();
        }
        self.close_popup()
    }

    /// Enter was pressed.
    fn enter(&mut self) -> (effects: Vec<Effect>)
        ensures
            final(self)@ == enter_pressed(old(self)@).app,
            effect_views(effects@) == enter_pressed(old(self)@).effects,
    {
        if self.confirm.is_some() {
            let closing: Vec<Effect> = self.close_confirm();
            return send_first(GuiEvent::ConfirmExit, closing);
        }
        if self.settings.is_some() {
            return self.save_settings();
        }
        no_effects()
    }

    /// Ends the edit in place.
    fn commit_edit(&mut self) -> (effects: Vec<Effect>)
        ensures
            final(self)@ == edit_committed(old(self)@).app,
            effect_views(effects@) == edit_committed(old(self)@).effects,
    {
        if let Some(p) = &mut self.panel {
            if let Some(edit) = p.editing.take() {
                let at: usize = find_row(&p.rows, edit.target);
                if at < p.rows.len() {
                    let (rows, tag) = apply_edit_to_rows(&p.rows, &edit);
                    p.rows = rows;
                    return one_effect(
                        Effect::Send(GuiEvent::TagSaved { target: edit.target, tag }),
                    );
                }
            }
        }
        no_effects()
    }

    /// Ends the drag.
    fn drop_drag(&mut self) -> (effects: Vec<Effect>)
        ensures
            final(self)@ == drag_dropped(old(self)@).app,
            effect_views(effects@) == drag_dropped(old(self)@).effects,
    {
        if let Some(p) = &mut self.panel {
            if let Some(drag) = p.drag.take() {
                if let Some(over) = drag.over_target {
                    if over != drag.from_target {
                        let order: Vec<isize> = preview_reorder(&p.rows, &drag);
                        let rows: Vec<TagRow> = reorder_rows(&p.rows, &order);
                        p.rows = rows;
                        return one_effect(Effect::Send(GuiEvent::ReorderTags { targets: order }));
                    }
                }
            }
        }
        no_effects()
    }
}

/// Reports `event` before the other effects.
fn send_first(event: GuiEvent, rest: Vec<Effect>) -> (effects: Vec<Effect>)
    ensures
        effect_views(effects@) == seq![EffectView::Send(event@)] + effect_views(rest@),
{
    let mut effects: Vec<Effect> = Vec::new();
    let mut rest: Vec<Effect> = rest;
    let ghost others = rest@;
    effects.push(Effect::Send(event));
    effects.append(&mut rest);
    proof {
        assert(effect_views(effects@) =~= seq![EffectView::Send(event@)] + effect_views(others));
    }
    effects
}

impl SettingsWindow {
    /// What a message does to the preferences that the window shows.
    fn update(&mut self, message: Message)
        ensures
            *final(self) == (SettingsWindow {
                draft: draft_step(old(self).draft, message),
                ..*old(self)
            }),
    {
        match message {
            Message::SettingsThemeSelected(v) => {
                self.draft.theme = v;
            },
            Message::SettingsCornerSelected(v) => {
                self.draft.corner = v;
            },
            Message::SettingsTitleToggled(v) => {
                self.draft.show_badge_title = v;
            },
            Message::SettingsTopToggled(v) => {
                self.draft.badge_always_top = v;
            },
            Message::SettingsBalloonToggled(v) => {
                self.draft.show_balloon = v;
            },
            _ => {},
        }
    }
}

impl PopupWindow {
    /// What a message does to the fields of the tag editor.
    fn update(&mut self, message: Message)
        ensures
            *final(self) == popup_step(*old(self), message),
    {
        match message {
            Message::PopupTitleChanged(s) => {
                self.title = s;
            },
            Message::PopupNoteChanged(s) => {
                self.note = s;
            },
            Message::PopupColorSelected(c) => {
                self.color = c;
            },
            _ => {},
        }
    }
}

impl PanelState {
    /// What a message does to the panel alone.
    fn update(&mut self, message: Message)
        ensures
            final(self)@ == panel_step(old(self)@, message),
    {
        match message {
            Message::PanelSearchChanged(s) => {
                self.search = s;
            },
            Message::PanelToggleExpand(target) => {
                if !self.expanded.remove(&target) {
                    self.expanded.insert(target);
                }
                proof {
                    assert(self.expanded@ =~= panel_step(old(self)@, message).expanded);
                }
            },
            Message::PanelExpandAll => {
                self.expanded = all_targets(&self.rows);
            },
            Message::PanelCollapseAll => {
                self.expanded.clear();
            },
            Message::PanelRowEntered(target) => {
                self.hovered = Some(target);
            },
            Message::PanelRowExited => {
                self.hovered = None;
            },
            Message::PanelBeginEdit { target, field } => {
                let at: usize = find_row(&self.rows, target);
                if at < self.rows.len() {
                    let draft: String = match field {
                        EditField::Title => self.rows[at].tag.title.clone(),
                        EditField::Note => self.rows[at].tag.note.clone(),
                    };
                    self.editing = Some(PanelEdit { target, field, draft });
                }
            },
            Message::PanelEditInput(s) => {
                if let Some(edit) = &mut self.editing {
                    edit.draft = s;
                }
            },
            Message::PanelEditCancel => {
                self.editing = None;
            },
            Message::PanelDragStart(target) => {
                if trim(self.search.as_str()).is_empty() && self.editing.is_none() {
                    self.drag = Some(PanelDrag { from_target: target, over_target: None });
                }
            },
            Message::PanelDragHover(target) => {
                if let Some(drag) = &mut self.drag {
                    if drag.from_target != target {
                        drag.over_target = Some(target);
                    }
                }
            },
            Message::PanelDragCancel => {
                self.drag = None;
            },
            _ => {},
        }
    }
}

/// The windows of the rows that are in `expanded`.
fn kept_targets(rows: &[TagRow], expanded: &HashSet<isize>) -> (kept: HashSet<isize>)
    ensures
        kept@ == expanded@.filter(|t: isize| rows::row_targets(rows@).contains(t)),
{
    let mut kept: HashSet<isize> = HashSet::new();
    let mut i: usize = 0;
    while i < rows.len()
        invariant
            i <= rows.len(),
            forall|t: isize| #[trigger]
                kept@.contains(t) <==> expanded@.contains(t) && exists|k: int|
                    0 <= k < i && (#[trigger] rows[k]).target == t,
        decreases rows.len() - i,
    {
        if expanded.contains(&rows[i].target) {
            kept.insert(rows[i].target);
        }
        i = i + 1;
    }
    proof {
        let wanted = expanded@.filter(|t: isize| rows::row_targets(rows@).contains(t));
        assert forall|t: isize| #[trigger] kept@.contains(t) <==> wanted.contains(t) by {
            lemma_targets_contain(rows@, t);
        }
        assert(kept@ =~= wanted);
    }
    kept
}

proof fn lemma_targets_contain(rows: Seq<TagRow>, target: isize)
    ensures
        rows::row_targets(rows).contains(target) <==> rows::has_row(rows, target),
{
    let targets = rows::row_targets(rows);
    if targets.contains(target) {
        let i = targets.index_of(target);
        assert(rows[i].target == target);
    }
    if rows::has_row(rows, target) {
        let i = choose|i: int| 0 <= i < rows.len() && (#[trigger] rows[i]).target == target;
        assert(targets[i] == target);
    }
}

// ---------------------------------------------------------------------
// Laws of the state machine
// ---------------------------------------------------------------------
/// Whether no window has the name `id`, neither an open one nor the panel that was
/// told to close.
pub open spec fn is_free(app: AppView, id: WindowId) -> bool {
    &&& app.confirm matches Some(c) ==> c.id != id
    &&& app.settings matches Some(w) ==> w.id != id
    &&& app.popup matches Some(p) ==> p.id != id
    &&& app.panel matches Some(p) ==> p.id != id
    &&& app.closing_panel != Some(id)
}

/// Whether the windows have names of their own.
pub open spec fn ids_distinct(app: AppView) -> bool {
    &&& app.confirm matches Some(c) ==> is_free(AppView { confirm: None, ..app }, c.id)
    &&& app.settings matches Some(w) ==> is_free(AppView { settings: None, ..app }, w.id)
    &&& app.popup matches Some(p) ==> is_free(AppView { popup: None, ..app }, p.id)
    &&& app.panel matches Some(p) ==> is_free(AppView { panel: None, ..app }, p.id)
}

/// Every step keeps the names of the windows distinct, as long as the names it is
/// given for new windows are free. A name that no window has, and that is not
/// given to one, stays free.
pub proof fn window_names_stay_distinct(
    app: AppView,
    message: Message,
    fresh: WindowId,
    current: Option<Settings>,
    other: WindowId,
)
    requires
        ids_distinct(app),
        message matches Message::Pump(commands) ==> fresh + commands@.len() <= WindowId::MAX
            && forall|i: int|
            0 <= i < commands@.len() ==> #[trigger] is_free(app, (fresh + i) as WindowId),
    ensures
        ids_distinct(app_step(app, message, fresh, current).app),
        is_free(app, other) && (message matches Message::Pump(commands) ==> !(fresh <= other < fresh
            + commands@.len())) ==> is_free(app_step(app, message, fresh, current).app, other),
{
    if let Message::Pump(commands) = message {
        lemma_commands_keep_names(app, commands@, fresh as int, current, other);
    }
}

proof fn lemma_command_keeps_names(
    app: AppView,
    command: IcedCommand,
    fresh: WindowId,
    current: Option<Settings>,
    other: WindowId,
)
    requires
        ids_distinct(app),
        is_free(app, fresh),
    ensures
        ids_distinct(command_step(app, command, fresh, current).app),
        is_free(app, other) && other != fresh ==> is_free(
            command_step(app, command, fresh, current).app,
            other,
        ),
{
}

proof fn lemma_commands_keep_names(
    app: AppView,
    commands: Seq<IcedCommand>,
    fresh: int,
    current: Option<Settings>,
    other: WindowId,
)
    requires
        ids_distinct(app),
        0 <= fresh,
        fresh + commands.len() <= WindowId::MAX,
        forall|i: int| 0 <= i < commands.len() ==> #[trigger] is_free(app, (fresh + i) as WindowId),
    ensures
        ids_distinct(commands_run(app, commands, fresh, current).app),
        is_free(app, other) && !(fresh <= other < fresh + commands.len()) ==> is_free(
            commands_run(app, commands, fresh, current).app,
            other,
        ),
    decreases commands.len(),
{
    if commands.len() > 0 {
        let front = commands.drop_last();
        let id = (fresh + (commands.len() - 1)) as WindowId;
        assert(is_free(app, id));
        lemma_commands_keep_names(app, front, fresh, current, id);
        lemma_commands_keep_names(app, front, fresh, current, other);
        lemma_command_keeps_names(
            commands_run(app, front, fresh, current).app,
            commands.last(),
            id,
            current,
            other,
        );
    }
}

/// The events that effects report, in their order.
pub open spec fn sent(effects: Seq<EffectView>) -> Seq<GuiEventView>
    decreases effects.len(),
{
    if effects.len() == 0 {
        Seq::empty()
    } else {
        match effects.last() {
            EffectView::Send(event) => sent(effects.drop_last()).push(event),
            _ => sent(effects.drop_last()),
        }
    }
}

/// Declining to quit is reported, and nothing else, whichever way it is done: by the
/// button, by Escape, or by closing the window. Each way also ends the question.
pub proof fn declining_is_reported(app: AppView, fresh: WindowId, current: Option<Settings>)
    requires
        ids_distinct(app),
        app.confirm is Some,
    ensures
        ({
            let by_button = app_step(app, Message::CancelPressed, fresh, current);
            let by_escape = app_step(app, Message::EscapePressed, fresh, current);
            let by_closing = app_step(
                app,
                Message::WindowClosed(app.confirm->0.id),
                fresh,
                current,
            );
            &&& sent(by_button.effects) == seq![GuiEventView::CancelExit]
            &&& by_button.app == (AppView { confirm: None, ..app })
            &&& sent(by_escape.effects) == seq![GuiEventView::CancelExit]
            &&& by_escape.app == (AppView { confirm: None, ..app })
            &&& sent(by_closing.effects) == seq![GuiEventView::CancelExit]
            &&& by_closing.app == (AppView { confirm: None, ..app })
        }),
{
    let said = EffectView::Send(GuiEventView::CancelExit);
    let close = EffectView::Close(app.confirm->0.id);
    reveal_with_fuel(sent, 3);
    assert(app_step(app, Message::CancelPressed, fresh, current).effects =~= seq![said, close]);
    assert(app_step(app, Message::EscapePressed, fresh, current).effects =~= seq![said, close]);
    assert(app_step(
        app,
        Message::WindowClosed(app.confirm->0.id),
        fresh,
        current,
    ).effects =~= seq![said]);
    assert(seq![said, close].drop_last() =~= seq![said]);
    assert(seq![said].drop_last() =~= Seq::empty());
    assert(sent(seq![said, close]) =~= seq![GuiEventView::CancelExit]);
    assert(sent(seq![said]) =~= seq![GuiEventView::CancelExit]);
}

/// Agreeing to quit by Enter is the same as by the button: it is reported, and
/// nothing else, and ends the question.
pub proof fn enter_agrees_to_quit(app: AppView, fresh: WindowId, current: Option<Settings>)
    requires
        app.confirm is Some,
    ensures
        ({
            let by_enter = app_step(app, Message::EnterPressed, fresh, current);
            &&& by_enter == app_step(app, Message::ConfirmPressed, fresh, current)
            &&& sent(by_enter.effects) == seq![GuiEventView::ConfirmExit]
            &&& by_enter.app == (AppView { confirm: None, ..app })
        }),
{
    let said = EffectView::Send(GuiEventView::ConfirmExit);
    let close = EffectView::Close(app.confirm->0.id);
    reveal_with_fuel(sent, 3);
    assert(app_step(app, Message::EnterPressed, fresh, current).effects =~= seq![said, close]);
    assert(seq![said, close].drop_last() =~= seq![said]);
    assert(seq![said].drop_last() =~= Seq::empty());
    assert(sent(seq![said, close]) =~= seq![GuiEventView::ConfirmExit]);
}

/// Whether a message answers the question whether to quit.
pub open spec fn is_answer(message: Message) -> bool {
    match message {
        Message::CancelPressed | Message::EscapePressed => true,
        Message::ConfirmPressed | Message::EnterPressed => true,
        _ => false,
    }
}

/// The event that reports an answer to the question whether to quit. Without an
/// answer the closing of the window counts as no.
pub open spec fn reported_answer(answer: Option<Message>) -> GuiEventView {
    match answer {
        Some(Message::ConfirmPressed) | Some(Message::EnterPressed) => GuiEventView::ConfirmExit,
        _ => GuiEventView::CancelExit,
    }
}

/// What an answer to the question whether to quit does, if there is one.
pub open spec fn answered(
    app: AppView,
    answer: Option<Message>,
    fresh: WindowId,
    current: Option<Settings>,
) -> Step {
    match answer {
        Some(message) => app_step(app, message, fresh, current),
        None => quiet(app),
    }
}

/// From its opening to the closing of its window, the question whether to quit
/// is reported exactly once: as a yes after the button or Enter, and as a no
/// after the other button, after Escape, or when its window is just closed.
pub proof fn question_is_answered_once(
    app: AppView,
    commands: Vec<IcedCommand>,
    count: usize,
    id: WindowId,
    answer: Option<Message>,
    fresh: WindowId,
    current: Option<Settings>,
)
    requires
        ids_distinct(app),
        is_free(app, id),
        id < WindowId::MAX,
        app.confirm is None,
        commands@ == seq![IcedCommand::ShowConfirm { count }],
        answer matches Some(message) ==> is_answer(message),
    ensures
        ({
            let asked = app_step(app, Message::Pump(commands), id, current);
            let said = answered(asked.app, answer, fresh, current);
            let gone = app_step(said.app, Message::WindowClosed(id), fresh, current);
            &&& asked.app.confirm is Some
            &&& asked.app.confirm->0.id == id
            &&& sent(asked.effects + said.effects + gone.effects) == seq![reported_answer(answer)]
            &&& gone.app == app
        }),
{
    let asked = app_step(app, Message::Pump(commands), id, current);
    reveal_with_fuel(commands_run, 2);
    assert(commands@.drop_last() =~= Seq::empty());
    assert(asked.app == confirm_opened(app, count, id).app);
    assert(asked.effects =~= seq![EffectView::OpenConfirm(id), EffectView::GainFocus(id)]);
    assert(sent(asked.effects) == Seq::<GuiEventView>::empty()) by {
        reveal_with_fuel(sent, 3);
    }
    open_question_is_answered_once(asked.app, answer, fresh, current);
    let said = answered(asked.app, answer, fresh, current);
    let gone = app_step(said.app, Message::WindowClosed(id), fresh, current);
    lemma_sent_of_both(asked.effects, said.effects + gone.effects);
    assert(asked.effects + said.effects + gone.effects =~= asked.effects + (said.effects
        + gone.effects));
    assert(sent(asked.effects + said.effects + gone.effects) =~= seq![reported_answer(answer)]);
}

/// From any state in which the question whether to quit is open, until its window
/// is closed, it is reported exactly once, whatever else is open.
pub proof fn open_question_is_answered_once(
    app: AppView,
    answer: Option<Message>,
    fresh: WindowId,
    current: Option<Settings>,
)
    requires
        ids_distinct(app),
        app.confirm is Some,
        answer matches Some(message) ==> is_answer(message),
    ensures
        ({
            let said = answered(app, answer, fresh, current);
            let gone = app_step(
                said.app,
                Message::WindowClosed(app.confirm->0.id),
                fresh,
                current,
            );
            &&& sent(said.effects + gone.effects) == seq![reported_answer(answer)]
            &&& gone.app == (AppView { confirm: None, ..app })
        }),
{
    let id = app.confirm->0.id;
    let said = answered(app, answer, fresh, current);
    let gone = app_step(said.app, Message::WindowClosed(id), fresh, current);
    let report = EffectView::Send(reported_answer(answer));
    reveal_with_fuel(sent, 3);
    if answer is Some {
        assert(said.effects =~= seq![report, EffectView::Close(id)]);
        assert(said.app == (AppView { confirm: None, ..app }));
        windows_that_are_gone_report_nothing(said.app, id, fresh, current);
        assert(said.effects + gone.effects =~= said.effects);
        assert(said.effects.drop_last() =~= seq![report]);
    } else {
        assert(said.effects + gone.effects =~= seq![report]);
    }
    assert(seq![report].drop_last() =~= Seq::empty());
    assert(sent(said.effects + gone.effects) =~= seq![reported_answer(answer)]);
}

/// The closing of a window that the state no longer knows changes nothing and
/// reports nothing, however late it comes.
pub proof fn windows_that_are_gone_report_nothing(
    app: AppView,
    id: WindowId,
    fresh: WindowId,
    current: Option<Settings>,
)
    requires
        is_free(app, id),
    ensures
        app_step(app, Message::WindowClosed(id), fresh, current) == quiet(app),
{
    assert(app_step(app, Message::WindowClosed(id), fresh, current).effects =~= seq![]);
}

proof fn lemma_sent_of_both(a: Seq<EffectView>, b: Seq<EffectView>)
    ensures
        sent(a + b) == sent(a) + sent(b),
    decreases b.len(),
{
    if b.len() == 0 {
        assert(a + b =~= a);
        assert(sent(a) + sent(b) =~= sent(a));
    } else {
        assert((a + b).drop_last() =~= a + b.drop_last());
        lemma_sent_of_both(a, b.drop_last());
        assert(sent(a + b) =~= sent(a) + sent(b));
    }
}

/// A panel that is told to close disappears at once, and once its window is
/// gone its end is reported, and nothing else.
pub proof fn hidden_panel_is_reported(app: AppView, fresh: WindowId, current: Option<Settings>)
    requires
        app.panel is Some,
        ids_distinct(app),
    ensures
        ({
            let hidden = panel_closed(app).app;
            let gone = app_step(hidden, Message::WindowClosed(app.panel->0.id), fresh, current);
            &&& hidden.panel is None
            &&& sent(panel_closed(app).effects) == Seq::<GuiEventView>::empty()
            &&& sent(gone.effects) == seq![GuiEventView::PanelVisibilityChanged(false)]
            &&& gone.app == (AppView { panel: None, closing_panel: None, ..app })
        }),
{
    let hidden = panel_closed(app).app;
    let gone = app_step(hidden, Message::WindowClosed(app.panel->0.id), fresh, current);
    let report = EffectView::Send(GuiEventView::PanelVisibilityChanged(false));
    reveal_with_fuel(sent, 2);
    assert(gone.effects =~= seq![report]);
    assert(seq![report].drop_last() =~= Seq::empty());
    assert(panel_closed(app).effects.drop_last() =~= Seq::empty());
    assert(sent(gone.effects) =~= seq![GuiEventView::PanelVisibilityChanged(false)]);
}

/// After new rows arrived, only rows that are there are expanded, and a row
/// that stays keeps its state.
pub proof fn refreshing_keeps_live_rows_expanded(app: AppView, rows: Seq<TagRow>, target: isize)
    requires
        app.panel is Some,
    ensures
        panel_refreshed(app, rows).panel is Some,
        panel_refreshed(app, rows).panel->0.rows == rows,
        panel_refreshed(app, rows).panel->0.expanded.contains(target) <==> rows::row_targets(
            rows,
        ).contains(target) && app.panel->0.expanded.contains(target),
{
}

/// Pressing the arrow of a row twice leaves the panel as it was.
pub proof fn toggling_twice_changes_nothing(p: PanelView, target: isize)
    ensures
        panel_step(
            panel_step(p, Message::PanelToggleExpand(target)),
            Message::PanelToggleExpand(target),
        ) == p,
{
    let once = panel_step(p, Message::PanelToggleExpand(target));
    let twice = panel_step(once, Message::PanelToggleExpand(target));
    assert(twice.expanded =~= p.expanded);
}

/// A message that belongs to a window that is not open does nothing but report.
pub proof fn messages_to_closed_windows_change_nothing(
    app: AppView,
    message: Message,
    fresh: WindowId,
    current: Option<Settings>,
)
    requires
        app.confirm is None,
        app.settings is None,
        app.popup is None,
        app.panel is None,
        app.closing_panel is None,
        !(message is Pump),
    ensures
        app_step(app, message, fresh, current).app == app,
{
}

} // verus!
