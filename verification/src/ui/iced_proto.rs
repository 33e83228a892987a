//! Messages between the thread that owns the windows of other programs and the
//! thread that owns the user interface.

use crate::model::settings::Settings;
use crate::model::tag::Tag;
use crate::ui::rows::clone_rows;
use vstd::prelude::*;

verus! {

/// One row of the overview panel.
#[derive(Debug)]
pub struct TagRow {
    /// Window that carries the tag.
    pub target: isize,
    pub tag: Tag,
}

impl Clone for TagRow {
    fn clone(&self) -> (row: Self)
        ensures
            row == *self,
    {
        TagRow { target: self.target, tag: self.tag.clone() }
    }
}

/// A request to the user interface.
#[derive(Debug)]
pub enum IcedCommand {
    /// Ask whether to quit although `count` tags would be lost.
    ShowConfirm { count: usize },
    /// Take the question back.
    CloseConfirm,
    /// Open the settings window.
    OpenSettings,
    /// Switch between the light and the dark theme.
    ApplyTheme { dark: bool },
    /// Edit the tag of window `target` in a popup at `position`.
    EditTag { target: isize, position: (i32, i32), tag: Tag },
    /// Show the overview panel.
    ShowPanel,
    /// Hide the overview panel.
    HidePanel,
    /// Replace the rows of the overview panel.
    RefreshTags { rows: Vec<TagRow> },
}

/// Whether two requests ask for the same.
pub open spec fn same_command(a: IcedCommand, b: IcedCommand) -> bool {
    match a {
        IcedCommand::RefreshTags { rows } => b is RefreshTags && b->RefreshTags_rows@ == rows@,
        _ => a == b,
    }
}

impl Clone for IcedCommand {
    fn clone(&self) -> (command: Self)
        ensures
            same_command(*self, command),
    {
        match self {
            IcedCommand::ShowConfirm { count } => IcedCommand::ShowConfirm { count: *count },
            IcedCommand::CloseConfirm => IcedCommand::CloseConfirm,
            IcedCommand::OpenSettings => IcedCommand::OpenSettings,
            IcedCommand::ApplyTheme { dark } => IcedCommand::ApplyTheme { dark: *dark },
            IcedCommand::EditTag { target, position, tag } => IcedCommand::EditTag {
                target: *target,
                position: *position,
                tag: tag.clone(),
            },
            IcedCommand::ShowPanel => IcedCommand::ShowPanel,
            IcedCommand::HidePanel => IcedCommand::HidePanel,
            IcedCommand::RefreshTags { rows } => IcedCommand::RefreshTags {
                rows: clone_rows(rows.as_slice()),
            },
        }
    }
}

/// What the user did in the user interface.
#[derive(Debug)]
pub enum GuiEvent {
    /// The user chose to quit.
    ConfirmExit,
    /// The user chose not to quit.
    CancelExit,
    /// The user saved new preferences.
    SettingsChanged(Settings),
    /// The user saved the tag of window `target`.
    TagSaved { target: isize, tag: Tag },
    /// The overview panel was opened or closed.
    PanelVisibilityChanged(bool),
    /// Bring window `target` to the front.
    ActivateWindow { target: isize },
    /// Open the tag editor for window `target`.
    EditTagRequested { target: isize },
    /// Remove the tag of window `target`.
    RemoveTag { target: isize },
    /// The user asked the panel to quit the program.
    PanelExit,
    /// The rows of the panel were put in this order.
    ReorderTags { targets: Vec<isize> },
}

/// Contents of a [`GuiEvent`].
pub enum GuiEventView {
    ConfirmExit,
    CancelExit,
    SettingsChanged(Settings),
    TagSaved { target: isize, tag: Tag },
    PanelVisibilityChanged(bool),
    ActivateWindow { target: isize },
    EditTagRequested { target: isize },
    RemoveTag { target: isize },
    PanelExit,
    ReorderTags { targets: Seq<isize> },
}

impl View for GuiEvent {
    type V = GuiEventView;

    open spec fn view(&self) -> GuiEventView {
        match *self {
            GuiEvent::ConfirmExit => GuiEventView::ConfirmExit,
            GuiEvent::CancelExit => GuiEventView::CancelExit,
            GuiEvent::SettingsChanged(s) => GuiEventView::SettingsChanged(s),
            GuiEvent::TagSaved { target, tag } => GuiEventView::TagSaved { target, tag },
            GuiEvent::PanelVisibilityChanged(v) => GuiEventView::PanelVisibilityChanged(v),
            GuiEvent::ActivateWindow { target } => GuiEventView::ActivateWindow { target },
            GuiEvent::EditTagRequested { target } => GuiEventView::EditTagRequested { target },
            GuiEvent::RemoveTag { target } => GuiEventView::RemoveTag { target },
            GuiEvent::PanelExit => GuiEventView::PanelExit,
            GuiEvent::ReorderTags { targets } => GuiEventView::ReorderTags { targets: targets@ },
        }
    }
}

/// What to do when a tag is to be edited while a popup may already be open.
#[derive(Debug, Clone, Copy, PartialEq, Eq, Structural)]
pub enum PopupPlan {
    /// The open popup edits that tag: bring it to the front.
    Reuse(isize),
    /// The open popup edits another tag: close it and open a new one.
    Replace(isize),
    /// No popup is open: open one.
    Fresh,
}

/// The plan for editing the tag of window `target`. `existing` is the target
/// and the handle of the last popup, and `alive` tells whether that popup is
/// still open.
pub open spec fn popup_plan(existing: Option<(isize, isize)>, target: isize, alive: bool)
    -> PopupPlan {
    match existing {
        Some((edited, handle)) => if !alive {
            PopupPlan::Fresh
        } else if edited == target {
            PopupPlan::Reuse(handle)
        } else {
            PopupPlan::Replace(handle)
        },
        None => PopupPlan::Fresh,
    }
}

/// Decides between reusing, replacing and opening a popup.
pub fn plan_popup_action(existing: Option<(isize, isize)>, target: isize, alive: bool) -> (plan:
    PopupPlan)
    ensures
        plan == popup_plan(existing, target, alive),
{
    match existing {
        Some((edited, handle)) => {
            if !alive {
                PopupPlan::Fresh
            } else if edited == target {
                PopupPlan::Reuse(handle)
            } else {
                PopupPlan::Replace(handle)
            }
        },
        None => PopupPlan::Fresh,
    }
}

/// At most one popup is ever open: a live popup is reused or replaced, never
/// left standing beside a new one.
pub proof fn live_popup_is_reused_or_replaced(edited: isize, handle: isize, target: isize)
    ensures
        popup_plan(Some((edited, handle)), target, true) == (if edited == target {
            PopupPlan::Reuse(handle)
        } else {
            PopupPlan::Replace(handle)
        }),
{
}

/// There is one editor at a time: an open one is used again for its own window and
/// replaced for another, and one that is gone does not count.
pub proof fn open_editors_are_used_again(
    existing: Option<(isize, isize)>,
    target: isize,
    alive: bool,
    plan: PopupPlan,
)
    requires
        call_ensures(plan_popup_action, (existing, target, alive), plan),
    ensures
        plan == PopupPlan::Fresh <==> existing is None || !alive,
        plan is Reuse <==> alive && (existing matches Some(e) && e.0 == target),
        plan is Replace <==> alive && (existing matches Some(e) && e.0 != target),
        existing matches Some(e) ==> (alive ==> plan == PopupPlan::Reuse(e.1) || plan
            == PopupPlan::Replace(e.1)),
{
}

} // verus!
