//! What the windows of the user interface show, as plain values.

use crate::model::tag::TagColor;
use crate::text;
use crate::ui::iced_app::{
    AppView, EditField, Message, PanelEdit, PanelState, PanelView, WinTagApp, WindowId,
};
use crate::ui::iced_proto::TagRow;
use crate::ui::panel_style;
use crate::ui::panel_style::{truncate_units, CHEVRON_DOWN, CHEVRON_RIGHT};
use vstd::prelude::*;
use vstd::string::StringExecFns;

verus! {

broadcast use vstd::std_specs::hash::group_hash_axioms;

// ---------------------------------------------------------------------
// Windows
// ---------------------------------------------------------------------
/// What a window is for.
#[derive(Debug, Clone, Copy, PartialEq, Eq, Structural)]
pub enum WindowKind {
    Confirm,
    Settings,
    Popup,
    Panel,
    /// A window that is not known, or no longer.
    Other,
}

/// What window `id` is for.
pub open spec fn kind_of(app: AppView, id: WindowId) -> WindowKind {
    if app.confirm is Some && app.confirm->0.id == id {
        WindowKind::Confirm
    } else if app.settings is Some && app.settings->0.id == id {
        WindowKind::Settings
    } else if app.popup is Some && app.popup->0.id == id {
        WindowKind::Popup
    } else if app.panel is Some && app.panel->0.id == id {
        WindowKind::Panel
    } else {
        WindowKind::Other
    }
}

/// The title of a window.
pub open spec fn title_of(kind: WindowKind) -> Seq<char> {
    match kind {
        WindowKind::Confirm => "退出确认"@,
        WindowKind::Settings => "设置"@,
        WindowKind::Popup => "标记窗口"@,
        WindowKind::Panel => "WinTag 概览"@,
        WindowKind::Other => "WinTag"@,
    }
}

impl WinTagApp {
    /// What window `id` is for.
    pub fn kind(&self, id: WindowId) -> (kind: WindowKind)
        ensures
            kind == kind_of(self@, id),
    {
        if let Some(c) = &self.confirm {
            if c.id == id {
                return WindowKind::Confirm;
            }
        }
        if let Some(w) = &self.settings {
            if w.id == id {
                return WindowKind::Settings;
            }
        }
        if let Some(p) = &self.popup {
            if p.id == id {
                return WindowKind::Popup;
            }
        }
        if let Some(p) = &self.panel {
            if p.id == id {
                return WindowKind::Panel;
            }
        }
        WindowKind::Other
    }

    /// The title of window `id`.
    pub fn title(&self, id: WindowId) -> (title: &'static str)
        ensures
            title@ == title_of(kind_of(self@, id)),
    {
        match self.kind(id) {
            WindowKind::Confirm => "退出确认",
            WindowKind::Settings => "设置",
            WindowKind::Popup => "标记窗口",
            WindowKind::Panel => "WinTag 概览",
            WindowKind::Other => "WinTag",
        }
    }
}

// ---------------------------------------------------------------------
// Keys
// ---------------------------------------------------------------------
/// A key that was pressed.
#[derive(Debug, Clone, Copy, PartialEq, Eq, Structural)]
pub enum KeyName {
    Escape,
    Enter,
    Tab,
    Other,
}

/// The message for a key. Enter and Tab that repeat because they are held down
/// are ignored.
pub open spec fn key_message(key: KeyName, shift: bool, repeat: bool) -> Option<Message> {
    match key {
        KeyName::Escape => Some(Message::EscapePressed),
        KeyName::Enter => if repeat {
            None
        } else {
            Some(Message::EnterPressed)
        },
        KeyName::Tab => if repeat {
            None
        } else {
            Some(Message::TabPressed { backwards: shift })
        },
        KeyName::Other => None,
    }
}

/// The message for a key.
pub fn keyboard_event(key: KeyName, shift: bool, repeat: bool) -> (message: Option<Message>)
    ensures
        message == key_message(key, shift, repeat),
{
    match key {
        KeyName::Escape => Some(Message::EscapePressed),
        KeyName::Enter => {
            if repeat {
                None
            } else {
                Some(Message::EnterPressed)
            }
        },
        KeyName::Tab => {
            if repeat {
                None
            } else {
                Some(Message::TabPressed { backwards: shift })
            }
        },
        KeyName::Other => None,
    }
}

// ---------------------------------------------------------------------
// The tag editor
// ---------------------------------------------------------------------
/// The colours in the order of their buttons.
pub open spec fn color_at(i: int) -> TagColor {
    if i == 0 {
        TagColor::Orange
    } else if i == 1 {
        TagColor::Blue
    } else if i == 2 {
        TagColor::Green
    } else if i == 3 {
        TagColor::Red
    } else {
        TagColor::Purple
    }
}

/// The name of a colour.
pub open spec fn color_name(color: TagColor) -> Seq<char> {
    match color {
        TagColor::Orange => "橙"@,
        TagColor::Blue => "蓝"@,
        TagColor::Green => "绿"@,
        TagColor::Red => "红"@,
        TagColor::Purple => "紫"@,
    }
}

/// The five colours in the order of their buttons.
pub fn tag_colors() -> (colors: [TagColor; 5])
    ensures
        forall|i: int| 0 <= i < 5 ==> #[trigger] colors[i] == color_at(i),
{
    [TagColor::Orange, TagColor::Blue, TagColor::Green, TagColor::Red, TagColor::Purple]
}

/// The label of a colour button: a full dot marks the chosen colour.
pub open spec fn swatch_label(color: TagColor, selected: TagColor) -> Seq<char> {
    (if color == selected {
        "●"@
    } else {
        "○"@
    }) + " "@ + color_name(color)
}

/// The label of a colour button.
pub fn color_swatch(color: TagColor, selected: TagColor) -> (label: String)
    ensures
        label@ == swatch_label(color, selected),
{
    let mut label: String = text::owned(
        if color == selected {
            "●"
        } else {
            "○"
        },
    );
    label.append(" ");
    label.append(
        match color {
            TagColor::Orange => "橙",
            TagColor::Blue => "蓝",
            TagColor::Green => "绿",
            TagColor::Red => "红",
            TagColor::Purple => "紫",
        },
    );
    label
}

/// The line that names the window and the process of a tag.
pub fn popup_caption(window_title: &str, process_name: &str) -> (caption: String)
    ensures
        caption@ == window_title@ + " / "@ + process_name@,
{
    let mut caption: String = text::owned(window_title);
    caption.append(" / ");
    caption.append(process_name);
    caption
}

// ---------------------------------------------------------------------
// The rows of the panel
// ---------------------------------------------------------------------
/// Units of a title that a row shows.
pub const ROW_TITLE_UNITS: usize = 14;

/// The upper part of a row.
#[derive(Debug)]
pub enum RowHead {
    /// The title is being edited.
    Editing { draft: String },
    /// The title and the window, and what the pointer does there.
    Plain { caption: String, on_enter: Message, on_press: Message, on_double_click: Message },
}

/// The note of a row.
#[derive(Debug)]
pub enum RowNote {
    /// The note is being edited.
    Editing { draft: String },
    /// The note, or what stands for an empty one.
    Plain { text: String },
}

/// What a row shows.
#[derive(Debug)]
pub struct RowModel {
    pub target: isize,
    /// Arrow in front of the row.
    pub chevron: &'static str,
    /// Whether the row is highlighted.
    pub hovered: bool,
    pub head: RowHead,
    /// The note and the buttons, when the row is expanded.
    pub note: Option<RowNote>,
}

/// Contents of a [`RowHead`].
pub enum RowHeadView {
    Editing { draft: Seq<char> },
    Plain { caption: Seq<char>, on_enter: Message, on_press: Message, on_double_click: Message },
}

/// Contents of a [`RowNote`].
pub enum RowNoteView {
    Editing { draft: Seq<char> },
    Plain { text: Seq<char> },
}

/// Contents of a [`RowModel`].
pub struct RowModelView {
    pub target: isize,
    pub chevron: Seq<char>,
    pub hovered: bool,
    pub head: RowHeadView,
    pub note: Option<RowNoteView>,
}

impl View for RowHead {
    type V = RowHeadView;

    open spec fn view(&self) -> RowHeadView {
        match *self {
            RowHead::Editing { draft } => RowHeadView::Editing { draft: draft@ },
            RowHead::Plain { caption, on_enter, on_press, on_double_click } => RowHeadView::Plain {
                caption: caption@,
                on_enter,
                on_press,
                on_double_click,
            },
        }
    }
}

impl View for RowNote {
    type V = RowNoteView;

    open spec fn view(&self) -> RowNoteView {
        match *self {
            RowNote::Editing { draft } => RowNoteView::Editing { draft: draft@ },
            RowNote::Plain { text } => RowNoteView::Plain { text: text@ },
        }
    }
}

impl View for RowModel {
    type V = RowModelView;

    open spec fn view(&self) -> RowModelView {
        RowModelView {
            target: self.target,
            chevron: self.chevron@,
            hovered: self.hovered,
            head: self.head@,
            note: match self.note {
                Some(note) => Some(note@),
                None => None,
            },
        }
    }
}

/// Whether this field of the row of window `target` is being edited.
pub open spec fn is_edited(editing: Option<PanelEdit>, target: isize, field: EditField) -> bool {
    editing is Some && editing->0.target == target && editing->0.field == field
}

/// The title, cut where it is long, and the window.
pub open spec fn row_caption(row: TagRow) -> Seq<char> {
    panel_style::cut_to_units(row.tag.title@, ROW_TITLE_UNITS as nat) + " | "@
        + row.tag.window_title@
}

/// The upper part of a row. While a row is dragged, the pointer chooses where
/// to drop it; otherwise it highlights rows, and a press brings the row's
/// window to the front.
pub open spec fn row_head(panel: PanelView, row: TagRow) -> RowHeadView {
    if is_edited(panel.editing, row.target, EditField::Title) {
        RowHeadView::Editing { draft: panel.editing->0.draft@ }
    } else if panel.drag is Some {
        RowHeadView::Plain {
            caption: row_caption(row),
            on_enter: Message::PanelDragHover(row.target),
            on_press: Message::PanelDragHover(row.target),
            on_double_click: Message::PanelDragStart(row.target),
        }
    } else {
        RowHeadView::Plain {
            caption: row_caption(row),
            on_enter: Message::PanelRowEntered(row.target),
            on_press: Message::PanelRowActivated(row.target),
            on_double_click: Message::PanelBeginEdit {
                target: row.target,
                field: EditField::Title,
            },
        }
    }
}

/// The note of an expanded row.
pub open spec fn row_note(panel: PanelView, row: TagRow) -> RowNoteView {
    if is_edited(panel.editing, row.target, EditField::Note) {
        RowNoteView::Editing { draft: panel.editing->0.draft@ }
    } else if row.tag.note@.len() == 0 {
        RowNoteView::Plain { text: "（无）"@ }
    } else {
        RowNoteView::Plain { text: row.tag.note@ }
    }
}

/// What a row shows.
pub open spec fn row_shown(panel: PanelView, row: TagRow) -> RowModelView {
    let expanded = panel.expanded.contains(row.target);
    RowModelView {
        target: row.target,
        chevron: if expanded {
            CHEVRON_DOWN@
        } else {
            CHEVRON_RIGHT@
        },
        hovered: panel.hovered == Some(row.target),
        head: row_head(panel, row),
        note: if expanded {
            Some(row_note(panel, row))
        } else {
            None
        },
    }
}

/// The draft of the edit in place, if it is this field of this row.
fn edited_draft(editing: &Option<PanelEdit>, target: isize, field: EditField) -> (draft: Option<
    String,
>)
    ensures
        draft is Some <==> is_edited(*editing, target, field),
        draft is Some ==> draft->0@ == editing->0.draft@,
{
    match editing {
        Some(edit) => {
            if edit.target == target && edit.field == field {
                Some(edit.draft.clone())
            } else {
                None
            }
        },
        None => None,
    }
}

/// What a row of the panel shows.
pub fn panel_row(panel: &PanelState, row: &TagRow) -> (model: RowModel)
    ensures
        model@ == row_shown(panel@, *row),
{
    let expanded: bool = panel.expanded.contains(&row.target);
    let hovered: bool = match panel.hovered {
        Some(target) => target == row.target,
        None => false,
    };
    let head: RowHead = match edited_draft(&panel.editing, row.target, EditField::Title) {
        Some(draft) => RowHead::Editing { draft },
        None => {
            let mut caption: String = truncate_units(row.tag.title.as_str(), ROW_TITLE_UNITS);
            caption.append(" | ");
            caption.append(row.tag.window_title.as_str());
            if panel.drag.is_some() {
                RowHead::Plain {
                    caption,
                    on_enter: Message::PanelDragHover(row.target),
                    on_press: Message::PanelDragHover(row.target),
                    on_double_click: Message::PanelDragStart(row.target),
                }
            } else {
                RowHead::Plain {
                    caption,
                    on_enter: Message::PanelRowEntered(row.target),
                    on_press: Message::PanelRowActivated(row.target),
                    on_double_click: Message::PanelBeginEdit {
                        target: row.target,
                        field: EditField::Title,
                    },
                }
            }
        },
    };
    let note: Option<RowNote> = if !expanded {
        None
    } else {
        match edited_draft(&panel.editing, row.target, EditField::Note) {
            Some(draft) => Some(RowNote::Editing { draft }),
            None => {
                if row.tag.note.as_str().is_empty() {
                    Some(RowNote::Plain { text: text::owned("（无）") })
                } else {
                    Some(RowNote::Plain { text: row.tag.note.clone() })
                }
            },
        }
    };
    RowModel {
        target: row.target,
        chevron: if expanded {
            CHEVRON_DOWN
        } else {
            CHEVRON_RIGHT
        },
        hovered,
        head,
        note,
    }
}

} // verus!
