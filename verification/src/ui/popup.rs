//! The tag editor that opens beside the pointer.

use crate::common::{WM_APP_TAGS_CHANGED, WM_CREATE_OVERLAY};
use crate::model::matcher::upsert_tag;
use crate::model::tag;
use crate::model::tag::{Tag, TagColor, TagStore};
use crate::sys::overlay::PostedMessage;
use crate::text;
use crate::text::trim;
use crate::ui::button::{VK_ESCAPE, VK_RETURN, VK_TAB};
use crate::ui::controls;
use crate::ui::controls::tab_cycle_index;
use crate::ui::geo;
use crate::ui::geo::{scale_px, Place};
use crate::ui::iced_proto;
use crate::ui::iced_proto::{plan_popup_action, PopupPlan};
use crate::ui::layout;
use crate::ui::layout::client_height;
use crate::ui::theme::ThemeColors;
use vstd::prelude::*;
use vstd::string::StringExecFns;

verus! {

pub const IDC_TITLE_EDIT: i32 = 101;

pub const IDC_NOTE_EDIT: i32 = 103;

pub const IDC_OK_BUTTON: i32 = 104;

pub const IDC_CANCEL_BUTTON: i32 = 105;

/// The first of the colour buttons; the others follow it.
pub const IDC_COLOR_BASE: i32 = 110;

/// Number of colour buttons.
pub const COLOR_COUNT: i32 = 5;

pub const WIN_W: i32 = 420;

pub const WIN_H: i32 = 320;

/// Code of the key A.
pub const VK_A: u16 = 0x41;

/// The controls in the order of the keyboard.
pub open spec fn focus_order() -> Seq<i32> {
    seq![IDC_TITLE_EDIT, IDC_NOTE_EDIT, IDC_OK_BUTTON, IDC_CANCEL_BUTTON]
}

/// The colour of each colour button.
pub open spec fn choice(i: int) -> TagColor {
    if i == 0 {
        TagColor::Orange
    } else if i == 1 {
        TagColor::Blue
    } else if i == 2 {
        TagColor::Green
    } else if i == 3 {
        TagColor::Red
    } else {
        TagColor::Purple
    }
}

/// The colours in the order of their buttons.
pub fn color_choices() -> (choices: [TagColor; 5])
    ensures
        forall|i: int| 0 <= i < 5 ==> #[trigger] choices[i] == choice(i),
{
    [TagColor::Orange, TagColor::Blue, TagColor::Green, TagColor::Red, TagColor::Purple]
}

/// The colour of button `id`, if it is a colour button.
pub open spec fn chip_color(id: i32) -> Option<TagColor> {
    if IDC_COLOR_BASE <= id < IDC_COLOR_BASE + COLOR_COUNT {
        Some(choice(id - IDC_COLOR_BASE))
    } else {
        None
    }
}

/// The colour of button `id`, if it is a colour button.
pub fn color_of_chip(id: i32) -> (color: Option<TagColor>)
    ensures
        color == chip_color(id),
{
    if id < IDC_COLOR_BASE || id >= IDC_COLOR_BASE + COLOR_COUNT {
        return None;
    }
    let i: i32 = id - IDC_COLOR_BASE;
    Some(
        if i == 0 {
            TagColor::Orange
        } else if i == 1 {
            TagColor::Blue
        } else if i == 2 {
            TagColor::Green
        } else if i == 3 {
            TagColor::Red
        } else {
            TagColor::Purple
        },
    )
}

/// Every colour has exactly one button.
pub proof fn every_color_has_a_chip(color: TagColor, a: i32, b: i32)
    ensures
        exists|id: i32| chip_color(id) == Some(color),
        chip_color(a) == chip_color(b) && chip_color(a) is Some ==> a == b,
{
    let id: i32 = match color {
        TagColor::Orange => 110,
        TagColor::Blue => 111,
        TagColor::Green => 112,
        TagColor::Red => 113,
        TagColor::Purple => 114,
    };
    assert(chip_color(id) == Some(color));
}

// ---------------------------------------------------------------------
// One editor at a time
// ---------------------------------------------------------------------
/// The editor that is open: whose tag it edits, and its own window.
#[derive(Debug, Clone, Copy, PartialEq, Eq, Structural)]
pub struct ActivePopup {
    pub target: isize,
    pub hwnd: isize,
}

/// The editor as a pair.
pub open spec fn as_pair(active: Option<ActivePopup>) -> Option<(isize, isize)> {
    match active {
        Some(a) => Some((a.target, a.hwnd)),
        None => None,
    }
}

/// What to do when the tag of window `target` is to be edited. Unless the open
/// editor is reused, none is open afterwards.
pub fn begin_popup(active: &mut Option<ActivePopup>, target: isize, alive: bool) -> (plan:
    PopupPlan)
    ensures
        plan == iced_proto::popup_plan(as_pair(*old(active)), target, alive),
        *final(active) == (if plan is Reuse {
            *old(active)
        } else {
            None
        }),
{
    let existing: Option<(isize, isize)> = match *active {
        Some(a) => Some((a.target, a.hwnd)),
        None => None,
    };
    let plan: PopupPlan = plan_popup_action(existing, target, alive);
    match plan {
        PopupPlan::Reuse(_) => {},
        _ => {
            *active = None;
        },
    }
    plan
}

/// An editor was opened.
pub fn popup_opened(active: &mut Option<ActivePopup>, target: isize, hwnd: isize)
    ensures
        *final(active) == Some(ActivePopup { target, hwnd }),
{
    *active = Some(ActivePopup { target, hwnd });
}

/// An editor is gone. One that was opened after it stays.
pub fn popup_destroyed(active: &mut Option<ActivePopup>, hwnd: isize)
    ensures
        *final(active) == (match *old(active) {
            Some(a) => if a.hwnd == hwnd {
                None
            } else {
                Some(a)
            },
            None => None,
        }),
{
    let gone: bool = match *active {
        Some(a) => a.hwnd == hwnd,
        None => false,
    };
    if gone {
        *active = None;
    }
}

// ---------------------------------------------------------------------
// What the editor holds
// ---------------------------------------------------------------------
/// What an editor knows.
#[derive(Debug)]
pub struct PopupData {
    pub target_hwnd: isize,
    pub window_title: String,
    pub process_name: String,
    /// Window that takes the requests of the editor.
    pub hidden_hwnd: isize,
    pub selected_color: TagColor,
}

/// What an editor shows first.
#[derive(Debug)]
pub struct Prefill {
    pub title: String,
    pub note: String,
    pub color: TagColor,
}

/// What an editor shows first: the window's tag, if it has one. A tag without
/// title, and a window without tag, show the title of the window.
pub fn prefill(store: &TagStore, target: isize, window_title: &str) -> (shown: Prefill)
    ensures
        store@.contains_key(target) ==> {
            let t = store@[target];
            &&& shown.title@ == (if t.title@.len() == 0 {
                window_title@
            } else {
                t.title@
            })
            &&& shown.note@ == t.note@
            &&& shown.color == t.color
        },
        !store@.contains_key(target) ==> shown.title@ == window_title@ && shown.note@.len() == 0
            && shown.color == TagColor::Orange,
{
    broadcast use vstd::std_specs::hash::group_hash_axioms;

    match store.get(&target) {
        Some(t) => {
            let title: String = if t.title.as_str().is_empty() {
                text::owned(window_title)
            } else {
                t.title.clone()
            };
            Prefill { title, note: t.note.clone(), color: t.color }
        },
        None => Prefill {
            title: text::owned(window_title),
            note: String::new(),
            color: TagColor::Orange,
        },
    }
}

/// The line that names the window and its process.
pub fn info_line(window_title: &str, process_name: &str) -> (line: String)
    ensures
        line@ == "窗口："@ + window_title@ + " · 进程："@ + process_name@,
{
    let mut line: String = text::owned("窗口：");
    line.append(window_title);
    line.append(" · 进程：");
    line.append(process_name);
    line
}

/// Whether `t` is the tag that an editor saves when its fields hold `title` and
/// `note`: both without white space at their ends, and the title of the window
/// in place of an empty title.
pub open spec fn is_saved_tag(t: Tag, data: PopupData, title: Seq<char>, note: Seq<char>) -> bool {
    &&& t.title@ == (if text::trimmed(title).len() == 0 {
        data.window_title@
    } else {
        text::trimmed(title)
    })
    &&& t.note@ == text::trimmed(note)
    &&& t.color == data.selected_color
    &&& t.window_title@ == data.window_title@
    &&& t.process_name@ == data.process_name@
}

/// Saves what the fields hold as the tag of the window. Returns the messages that
/// ask for a badge and tell that the tags have changed.
pub fn save_and_close(data: &PopupData, store: &mut TagStore, title: &str, note: &str) -> (
messages: [PostedMessage; 2])
    ensures
        final(store)@.contains_key(data.target_hwnd),
        final(store)@ == old(store)@.insert(
            data.target_hwnd,
            final(store)@[data.target_hwnd],
        ),
        is_saved_tag(final(store)@[data.target_hwnd], *data, title@, note@),
        messages[0] == (PostedMessage {
            to: data.hidden_hwnd,
            msg: WM_CREATE_OVERLAY,
            wparam: data.target_hwnd,
        }),
        messages[1] == (PostedMessage {
            to: data.hidden_hwnd,
            msg: WM_APP_TAGS_CHANGED,
            wparam: data.target_hwnd,
        }),
{
    let typed: &str = trim(title);
    let kept: &str = if typed.is_empty() {
        data.window_title.as_str()
    } else {
        typed
    };
    let saved: Tag = Tag {
        title: text::owned(kept),
        note: text::owned(trim(note)),
        color: data.selected_color,
        window_title: data.window_title.clone(),
        process_name: data.process_name.clone(),
    };
    upsert_tag(store, data.target_hwnd, saved);
    [
        PostedMessage { to: data.hidden_hwnd, msg: WM_CREATE_OVERLAY, wparam: data.target_hwnd },
        PostedMessage { to: data.hidden_hwnd, msg: WM_APP_TAGS_CHANGED, wparam: data.target_hwnd },
    ]
}

// ---------------------------------------------------------------------
// What happens in the editor
// ---------------------------------------------------------------------
/// Something that happened in the editor.
#[derive(Debug, Clone, Copy, PartialEq, Eq, Structural)]
pub enum PopupEvent {
    /// A button was pressed.
    Command(i32),
    /// A key was pressed, with or without Shift, while this control had the
    /// keyboard.
    KeyDown { key: u16, shift: bool, focused: i32 },
    /// A button that the program draws itself is to be drawn.
    DrawItem { is_button: bool, id: i32 },
    /// The user closed the window.
    Close,
}

/// What the editor does about it.
#[derive(Debug, Clone, Copy, PartialEq, Eq, Structural)]
pub enum PopupAction {
    /// Nothing.
    Nothing,
    /// What the system usually does.
    PassOn,
    /// Save the tag and close.
    Save,
    /// Close without saving.
    Cancel,
    /// Show another colour as chosen.
    Redraw,
    /// Give a control the keyboard.
    Focus(i32),
    /// Draw a colour button.
    DrawChip { color: TagColor, selected: bool },
    /// Draw another button.
    DrawButton,
    /// Close the window.
    Destroy,
}

/// The control that gets the keyboard from `focused` when Tab is pressed.
pub open spec fn next_focus(focused: i32, shift: bool) -> i32 {
    focus_order()[controls::cycled(focused, focus_order(), !shift)]
}

/// What the editor does about an event. While nothing is known of the tag, only
/// what needs no tag is done.
pub open spec fn popup_reaction(data: Option<PopupData>, event: PopupEvent) -> PopupAction {
    match event {
        PopupEvent::Command(id) => if data is None {
            PopupAction::PassOn
        } else if id == IDC_OK_BUTTON {
            PopupAction::Save
        } else if id == IDC_CANCEL_BUTTON {
            PopupAction::Cancel
        } else if chip_color(id) is Some {
            PopupAction::Redraw
        } else {
            PopupAction::Nothing
        },
        PopupEvent::KeyDown { key, shift, focused } => if key == VK_RETURN {
            if data is None {
                PopupAction::Nothing
            } else {
                PopupAction::Save
            }
        } else if key == VK_ESCAPE {
            if data is None {
                PopupAction::Nothing
            } else {
                PopupAction::Cancel
            }
        } else if key == VK_TAB {
            PopupAction::Focus(next_focus(focused, shift))
        } else {
            PopupAction::Nothing
        },
        PopupEvent::DrawItem { is_button, id } => if !is_button {
            PopupAction::PassOn
        } else {
            match chip_color(id) {
                Some(color) => PopupAction::DrawChip {
                    color,
                    selected: data is Some && data->0.selected_color == color,
                },
                None => PopupAction::DrawButton,
            }
        },
        PopupEvent::Close => PopupAction::Destroy,
    }
}

/// The chosen colour after an event: that of the colour button that was pressed.
pub open spec fn color_after(data: PopupData, event: PopupEvent) -> TagColor {
    match event {
        PopupEvent::Command(id) => match chip_color(id) {
            Some(color) => color,
            None => data.selected_color,
        },
        _ => data.selected_color,
    }
}

/// What the editor does about an event.
pub fn popup_wndproc(data: &mut Option<PopupData>, event: PopupEvent) -> (action: PopupAction)
    ensures
        action == popup_reaction(*old(data), event),
        *final(data) == (match *old(data) {
            Some(d) => Some(PopupData { selected_color: color_after(d, event), ..d }),
            None => None,
        }),
{
    match event {
        PopupEvent::Command(id) => {
            if data.is_none() {
                return PopupAction::PassOn;
            }
            if id == IDC_OK_BUTTON {
                return PopupAction::Save;
            }
            if id == IDC_CANCEL_BUTTON {
                return PopupAction::Cancel;
            }
            match color_of_chip(id) {
                Some(color) => {
                    if let Some(d) = data {
                        d.selected_color = color;
                    }
                    PopupAction::Redraw
                },
                None => PopupAction::Nothing,
            }
        },
        PopupEvent::KeyDown { key, shift, focused } => {
            if key == VK_RETURN {
                if data.is_none() {
                    PopupAction::Nothing
                } else {
                    PopupAction::Save
                }
            } else if key == VK_ESCAPE {
                if data.is_none() {
                    PopupAction::Nothing
                } else {
                    PopupAction::Cancel
                }
            } else if key == VK_TAB {
                PopupAction::Focus(focus_next_control(focused, !shift))
            } else {
                PopupAction::Nothing
            }
        },
        PopupEvent::DrawItem { is_button, id } => {
            if !is_button {
                return PopupAction::PassOn;
            }
            match color_of_chip(id) {
                Some(color) => PopupAction::DrawChip {
                    color,
                    selected: match data {
                        Some(d) => d.selected_color == color,
                        None => false,
                    },
                },
                None => PopupAction::DrawButton,
            }
        },
        PopupEvent::Close => PopupAction::Destroy,
    }
}

/// The control that gets the keyboard next.
pub fn focus_next_control(focused: i32, forward: bool) -> (next: i32)
    ensures
        next == next_focus(focused, !forward),
{
    let order: [i32; 4] = [IDC_TITLE_EDIT, IDC_NOTE_EDIT, IDC_OK_BUTTON, IDC_CANCEL_BUTTON];
    proof {
        assert(order@ =~= focus_order());
    }
    let i: usize = tab_cycle_index(focused, &order, forward);
    order[i]
}

/// Enter in the window does what the button for saving does, and Escape what the
/// button for cancelling does.
pub proof fn keys_stand_for_buttons(data: PopupData, shift: bool, focused: i32)
    ensures
        popup_reaction(
            Some(data),
            PopupEvent::KeyDown { key: VK_RETURN, shift, focused },
        ) == popup_reaction(Some(data), PopupEvent::Command(IDC_OK_BUTTON)),
        popup_reaction(
            Some(data),
            PopupEvent::KeyDown { key: VK_ESCAPE, shift, focused },
        ) == popup_reaction(Some(data), PopupEvent::Command(IDC_CANCEL_BUTTON)),
{
}

/// A colour that is chosen is the one that is saved and shown as chosen.
pub proof fn chosen_color_is_kept(data: PopupData, id: i32)
    requires
        chip_color(id) is Some,
    ensures
        ({
            let after = PopupData {
                selected_color: color_after(data, PopupEvent::Command(id)),
                ..data
            };
            &&& Some(after.selected_color) == chip_color(id)
            &&& popup_reaction(
                Some(after),
                PopupEvent::DrawItem { is_button: true, id },
            ) == PopupAction::DrawChip { color: chip_color(id)->0, selected: true }
        }),
{
}

/// What a text field does with a key.
#[derive(Debug, Clone, Copy, PartialEq, Eq, Structural)]
pub enum EditKey {
    /// Select the whole text.
    SelectAll,
    /// Hand the key to the window.
    Forward,
    /// Type it.
    Keep,
}

/// What a text field of the editor does with a key. Control and A selects
/// everything. Enter saves, but with Shift it begins a new line of the note.
pub open spec fn edit_key(key: u16, ctrl: bool, shift: bool, is_title: bool) -> EditKey {
    if key == VK_A && ctrl {
        EditKey::SelectAll
    } else if key == VK_RETURN {
        if is_title || !shift {
            EditKey::Forward
        } else {
            EditKey::Keep
        }
    } else if key == VK_ESCAPE || key == VK_TAB {
        EditKey::Forward
    } else {
        EditKey::Keep
    }
}

/// What a text field of the editor does with a key.
pub fn edit_subclass_proc(key: u16, ctrl: bool, shift: bool, is_title: bool) -> (reaction: EditKey)
    ensures
        reaction == edit_key(key, ctrl, shift, is_title),
{
    if key == VK_A && ctrl {
        EditKey::SelectAll
    } else if key == VK_RETURN {
        if is_title || !shift {
            EditKey::Forward
        } else {
            EditKey::Keep
        }
    } else if key == VK_ESCAPE || key == VK_TAB {
        EditKey::Forward
    } else {
        EditKey::Keep
    }
}

/// How a colour button is drawn.
#[derive(Debug, Clone, Copy, PartialEq, Eq, Structural)]
pub struct ChipPaint {
    pub fill: u32,
    pub pen: u32,
    pub pen_width: i32,
}

/// How a colour button is drawn: filled with its colour, and with a thick ring
/// when it is chosen.
pub fn draw_color_chip(colors: Option<ThemeColors>, color: TagColor, selected: bool) -> (paint:
    ChipPaint)
    ensures
        ({
            let rgba = tag::color_rgba(color);
            paint.fill == rgba[0] + rgba[1] * 256 + rgba[2] * 65536
        }),
        paint.pen == (match colors {
            Some(c) => if selected {
                c.fg
            } else {
                c.border
            },
            None => if selected {
                0x00FFFFFF
            } else {
                0x00808080
            },
        }),
        paint.pen_width == (if selected {
            2i32
        } else {
            1i32
        }),
{
    let rgba: [u8; 4] = color.as_rgba();
    let pen: u32 = match colors {
        Some(c) => {
            if selected {
                c.fg
            } else {
                c.border
            }
        },
        None => {
            if selected {
                0x00FFFFFF
            } else {
                0x00808080
            }
        },
    };
    ChipPaint {
        fill: rgba[0] as u32 + rgba[1] as u32 * 256 + rgba[2] as u32 * 65536,
        pen,
        pen_width: if selected {
            2
        } else {
            1
        },
    }
}

// ---------------------------------------------------------------------
// Where everything is
// ---------------------------------------------------------------------
/// Places of the controls of the editor.
#[derive(Debug, Clone, Copy)]
pub struct PopupLayout {
    pub width: i32,
    pub height: i32,
    pub info: Place,
    pub title_label: Place,
    pub title_edit: Place,
    pub color_label: Place,
    pub chips: [Place; 5],
    pub note_label: Place,
    pub note_edit: Place,
    pub ok: Place,
    pub cancel: Place,
}

/// Left edge of the text fields.
pub open spec fn edit_x(dpi: u32) -> int {
    geo::scaled(12, dpi) + geo::scaled(52, dpi)
}

/// Upper edge of the buttons.
pub open spec fn button_y(dpi: u32) -> int {
    layout::inner_height(WIN_H as int, dpi) - geo::scaled(12, dpi) - geo::scaled(30, dpi)
}

/// Upper edge of the field for the note.
pub open spec fn note_y(dpi: u32) -> int {
    geo::scaled(112, dpi) + geo::scaled(26, dpi) + geo::scaled(4, dpi)
}

/// Left edge of the first button.
pub open spec fn button_x(dpi: u32) -> int {
    geo::scaled(WIN_W as int, dpi) - geo::scaled(12, dpi) - (geo::scaled(88, dpi) * 2 + geo::scaled(
        8,
        dpi,
    ))
}

/// The place of colour button `i`.
pub open spec fn chip_place(i: int, dpi: u32) -> Place {
    geo::place(
        edit_x(dpi) + (geo::scaled(40, dpi) + geo::scaled(8, dpi)) * i,
        geo::scaled(78, dpi) + (geo::scaled(26, dpi) - geo::scaled(16, dpi)) / 2,
        geo::scaled(40, dpi),
        geo::scaled(16, dpi),
    )
}

/// Whether these are the places of the controls at a resolution.
pub open spec fn is_popup_layout(l: PopupLayout, dpi: u32) -> bool {
    let win_w = geo::scaled(WIN_W as int, dpi);
    let m = geo::scaled(12, dpi);
    let label_w = geo::scaled(52, dpi);
    let ctrl_h = geo::scaled(26, dpi);
    let btn_w = geo::scaled(88, dpi);
    let btn_h = geo::scaled(30, dpi);
    let btn_gap = geo::scaled(8, dpi);
    &&& l.width == win_w
    &&& l.height == geo::scaled(WIN_H as int, dpi)
    &&& l.info == geo::place(m, m, win_w - 2 * m, geo::scaled(20, dpi))
    &&& l.title_label == geo::place(m, geo::scaled(44, dpi), label_w, ctrl_h)
    &&& l.title_edit == geo::place(
        edit_x(dpi),
        geo::scaled(44, dpi),
        win_w - m - edit_x(dpi),
        ctrl_h,
    )
    &&& l.color_label == geo::place(m, geo::scaled(78, dpi), label_w, ctrl_h)
    &&& (forall|i: int| 0 <= i < 5 ==> #[trigger] l.chips[i] == chip_place(i, dpi))
    &&& l.note_label == geo::place(m, geo::scaled(112, dpi), label_w, ctrl_h)
    &&& l.note_edit == geo::place(
        m,
        note_y(dpi),
        win_w - 2 * m,
        button_y(dpi) - btn_gap - note_y(dpi),
    )
    &&& l.ok == geo::place(button_x(dpi), button_y(dpi), btn_w, btn_h)
    &&& l.cancel == geo::place(button_x(dpi) + btn_w + btn_gap, button_y(dpi), btn_w, btn_h)
}

fn make_place(x: i32, y: i32, width: i32, height: i32) -> (p: Place)
    ensures
        p == geo::place(x as int, y as int, width as int, height as int),
{
    Place { x, y, width, height }
}

/// The places of the controls of the editor.
pub fn popup_layout(dpi: u32) -> (l: PopupLayout)
    requires
        geo::is_usual_dpi(dpi),
    ensures
        is_popup_layout(l, dpi),
{
    let win_w: i32 = scale_px(WIN_W, dpi);
    let m: i32 = scale_px(12, dpi);
    let label_w: i32 = scale_px(52, dpi);
    let ctrl_h: i32 = scale_px(26, dpi);
    let btn_w: i32 = scale_px(88, dpi);
    let btn_h: i32 = scale_px(30, dpi);
    let btn_gap: i32 = scale_px(8, dpi);
    let info_h: i32 = scale_px(20, dpi);
    let title_row_y: i32 = scale_px(44, dpi);
    let color_row_y: i32 = scale_px(78, dpi);
    let note_row_y: i32 = scale_px(112, dpi);
    let chip_w: i32 = scale_px(40, dpi);
    let chip_h: i32 = scale_px(16, dpi);
    let chip_gap: i32 = scale_px(8, dpi);
    let edit_left: i32 = m + label_w;
    let btn_row_y: i32 = client_height(WIN_H, dpi) - m - btn_h;
    let note_top: i32 = note_row_y + ctrl_h + scale_px(4, dpi);
    let note_h: i32 = btn_row_y - btn_gap - note_top;
    let btn_row_x: i32 = win_w - m - (btn_w * 2 + btn_gap);
    let chip_y: i32 = color_row_y + (ctrl_h - chip_h) / 2;
    let step: i32 = chip_w + chip_gap;
    let chips: [Place; 5] = [
        make_place(edit_left, chip_y, chip_w, chip_h),
        make_place(edit_left + step, chip_y, chip_w, chip_h),
        make_place(edit_left + step * 2, chip_y, chip_w, chip_h),
        make_place(edit_left + step * 3, chip_y, chip_w, chip_h),
        make_place(edit_left + step * 4, chip_y, chip_w, chip_h),
    ];
    proof {
        assert(chips[0] == chip_place(0, dpi));
        assert(chips[1] == chip_place(1, dpi));
        assert(chips[2] == chip_place(2, dpi));
        assert(chips[3] == chip_place(3, dpi));
        assert(chips[4] == chip_place(4, dpi));
        assert forall|i: int| 0 <= i < 5 implies #[trigger] chips[i] == chip_place(i, dpi) by {
            assert(i == 0 || i == 1 || i == 2 || i == 3 || i == 4);
        }
    }
    PopupLayout {
        width: win_w,
        height: scale_px(WIN_H, dpi),
        info: make_place(m, m, win_w - 2 * m, info_h),
        title_label: make_place(m, title_row_y, label_w, ctrl_h),
        title_edit: make_place(edit_left, title_row_y, win_w - m - edit_left, ctrl_h),
        color_label: make_place(m, color_row_y, label_w, ctrl_h),
        chips,
        note_label: make_place(m, note_row_y, label_w, ctrl_h),
        note_edit: make_place(m, note_top, win_w - 2 * m, note_h),
        ok: make_place(btn_row_x, btn_row_y, btn_w, btn_h),
        cancel: make_place(btn_row_x + btn_w + btn_gap, btn_row_y, btn_w, btn_h),
    }
}

/// From the base resolution up, every control lies in the window below its title
/// bar, and the field for the note ends above the buttons.
pub proof fn popup_controls_fit(l: PopupLayout, dpi: u32)
    requires
        geo::is_usual_dpi(dpi),
        geo::effective_dpi(dpi) >= geo::BASE_DPI,
        is_popup_layout(l, dpi),
    ensures
        ({
            let w = l.width as int;
            let h = layout::inner_height(WIN_H as int, dpi);
            &&& geo::lies_in(l.info, w, h)
            &&& geo::lies_in(l.title_label, w, h)
            &&& geo::lies_in(l.title_edit, w, h)
            &&& geo::lies_in(l.color_label, w, h)
            &&& geo::lies_in(l.chips[0], w, h)
            &&& geo::lies_in(l.chips[4], w, h)
            &&& geo::lies_in(l.note_label, w, h)
            &&& geo::lies_in(l.note_edit, w, h)
            &&& geo::lies_in(l.ok, w, h)
            &&& geo::lies_in(l.cancel, w, h)
        }),
        l.note_edit.height > 0,
        l.note_edit.y + l.note_edit.height < l.ok.y,
        l.ok.x + l.ok.width < l.cancel.x,
{
    assert(l.chips[0] == chip_place(0, dpi));
    assert(l.chips[4] == chip_place(4, dpi));
}

/// The editor saves what its fields hold, without white space at the ends; a title
/// that is left empty is that of the window. Colour, window title and process name
/// are those that the editor has.
pub proof fn fields_are_saved(t: Tag, data: PopupData, title: Seq<char>, note: Seq<char>)
    requires
        is_saved_tag(t, data, title, note),
    ensures
        text::trimmed(title).len() > 0 ==> t.title@ == text::trimmed(title),
        text::trimmed(title).len() == 0 ==> t.title@ == data.window_title@,
        t.note@ == text::trimmed(note),
        t.color == data.selected_color,
        t.window_title@ == data.window_title@,
        t.process_name@ == data.process_name@,
{
}

/// An editor that is opened on a tag and saved untouched saves the same tag, if its
/// title is not empty and neither title nor note has white space at an end. An
/// editor for a window without tag shows the title of the window, no note, and the
/// first colour.
pub proof fn untouched_editor_saves_the_same(
    store: TagStore,
    target: isize,
    window_title: &str,
    shown: Prefill,
    data: PopupData,
    t: Tag,
)
    requires
        call_ensures(prefill, (&store, target, window_title), shown),
        data.selected_color == shown.color,
        data.window_title@ == window_title@,
        is_saved_tag(t, data, shown.title@, shown.note@),
    ensures
        store@.contains_key(target) ==> {
            let kept = store@[target];
            &&& t.color == kept.color
            &&& text::trimmed(kept.note@) == kept.note@ ==> t.note@ == kept.note@
            &&& text::trimmed(kept.title@) == kept.title@ && kept.title@.len() > 0 ==> t.title@
                == kept.title@
        },
        !store@.contains_key(target) ==> shown.title@ == window_title@ && t.note@.len() == 0
            && t.color == TagColor::Orange,
{
    text::trimming_takes_only_white_space(shown.note@);
}

/// The editor saves when its button or Enter is pressed, gives up when the other
/// button or Escape is pressed, and does neither otherwise, nor while it knows of no
/// tag.
pub proof fn editor_saves_when_told(data: Option<PopupData>, event: PopupEvent)
    ensures
        popup_reaction(data, event) == PopupAction::Save <==> data is Some && (event
            == PopupEvent::Command(104) || (event is KeyDown && event->key == 0x0D)),
        popup_reaction(data, event) == PopupAction::Cancel <==> data is Some && (event
            == PopupEvent::Command(105) || (event is KeyDown && event->key == 0x1B)),
        popup_reaction(data, event) == PopupAction::Destroy <==> event is Close,
{
}

/// A colour button chooses its own colour, no other control changes the colour, and
/// the buttons stand in the order orange, blue, green, red, purple.
pub proof fn color_buttons_choose_their_color(data: PopupData, event: PopupEvent, id: i32)
    ensures
        ({
            let color = color_after(data, event);
            &&& event == PopupEvent::Command(110) ==> color == TagColor::Orange
            &&& event == PopupEvent::Command(111) ==> color == TagColor::Blue
            &&& event == PopupEvent::Command(112) ==> color == TagColor::Green
            &&& event == PopupEvent::Command(113) ==> color == TagColor::Red
            &&& event == PopupEvent::Command(114) ==> color == TagColor::Purple
            &&& !(event is Command) ==> color == data.selected_color
            &&& event matches PopupEvent::Command(pressed) ==> (pressed < 110 || pressed > 114
                ==> color == data.selected_color)
        }),
        popup_reaction(Some(data), PopupEvent::DrawItem { is_button: true, id }) matches
            PopupAction::DrawChip { color, selected } ==> (selected <==> color
            == data.selected_color),
{
}

/// A colour button is painted in the colour that it chooses, and the chosen one has
/// a thicker ring.
pub proof fn color_buttons_look_like_their_color(
    colors: Option<ThemeColors>,
    color: TagColor,
    chosen: ChipPaint,
    other: ChipPaint,
)
    requires
        call_ensures(draw_color_chip, (colors, color, true), chosen),
        call_ensures(draw_color_chip, (colors, color, false), other),
    ensures
        chosen.fill == other.fill,
        chosen.fill % 256 == tag::color_rgba(color)[0],
        (chosen.fill / 256) % 256 == tag::color_rgba(color)[1],
        (chosen.fill / 65536) % 256 == tag::color_rgba(color)[2],
        chosen.pen_width > other.pen_width,
        colors matches Some(c) ==> chosen.pen == c.fg && other.pen == c.border,
{
}

/// In a text field Control and A selects everything, Enter saves, except with Shift
/// in the note, where it begins a line, Escape and Tab go to the window, and every
/// other key is typed.
pub proof fn keys_in_text_fields(key: u16, ctrl: bool, shift: bool, is_title: bool, r: EditKey)
    requires
        call_ensures(edit_subclass_proc, (key, ctrl, shift, is_title), r),
    ensures
        r == EditKey::SelectAll <==> key == 0x41 && ctrl,
        key == 0x0D && shift && !is_title ==> r == EditKey::Keep,
        key == 0x0D && (!shift || is_title) ==> r == EditKey::Forward,
        key == 0x1B || key == 0x09 ==> r == EditKey::Forward,
        key != 0x0D && key != 0x1B && key != 0x09 && !(key == 0x41 && ctrl) ==> r == EditKey::Keep,
{
}

/// Tab goes round the controls: title, note, the button for saving, the button for
/// giving up, and title again. Shift and Tab goes the other way round.
pub proof fn tab_goes_round_the_editor(other: i32, shift: bool)
    ensures
        next_focus(101, false) == 103,
        next_focus(103, false) == 104,
        next_focus(104, false) == 105,
        next_focus(105, false) == 101,
        next_focus(103, true) == 101,
        next_focus(104, true) == 103,
        next_focus(105, true) == 104,
        next_focus(101, true) == 105,
        other < 101 || other > 105 ==> next_focus(other, shift) == 101,
{
    let order = focus_order();
    reveal_with_fuel(controls::id_position, 5);
    let o1 = order.subrange(1, 4);
    let o2 = o1.subrange(1, 3);
    let o3 = o2.subrange(1, 2);
    assert(order[0] == 101 && order[1] == 103 && order[2] == 104 && order[3] == 105);
    assert(o1[0] == 103 && o2[0] == 104 && o3[0] == 105);
    assert(o3.subrange(1, 1).len() == 0);
}

/// The line above the fields names the window and its process.
pub proof fn editor_line_names_the_window(window_title: &str, process_name: &str, line: String)
    requires
        call_ensures(info_line, (window_title, process_name), line),
    ensures
        text::is_inside(window_title@, line@),
        text::is_inside(process_name@, line@),
{
    let a = "窗口："@;
    let b = " · 进程："@;
    assert(line@ =~= a + window_title@ + (b + process_name@));
    text::inside_means_between(window_title@, a, b + process_name@);
    assert(line@ =~= (a + window_title@ + b) + process_name@ + Seq::<char>::empty());
    text::inside_means_between(process_name@, a + window_title@ + b, Seq::empty());
}

/// There is one editor at a time: an editor that is open for the same window is used
/// again, one for another window gives way, and one that is gone is not used. An
/// editor that closes late does not take a newer one along.
pub proof fn one_editor_at_a_time(target: isize, hwnd: isize, alive: bool, plan: PopupPlan)
    ensures
        forall|a: &mut Option<ActivePopup>| #[trigger]
            call_ensures(begin_popup, (a, target, alive), plan) ==> {
                let open = *a is Some && alive;
                &&& plan is Reuse <==> open && (*a)->0.target == target
                &&& plan is Replace <==> open && (*a)->0.target != target
                &&& plan matches PopupPlan::Reuse(h) ==> h == (*a)->0.hwnd && *final(a) == *a
                &&& plan matches PopupPlan::Replace(h) ==> h == (*a)->0.hwnd
                &&& !(plan is Reuse) ==> *final(a) is None
            },
        forall|a: &mut Option<ActivePopup>| #[trigger]
            call_ensures(popup_opened, (a, target, hwnd), ()) ==> {
                &&& *final(a) is Some
                &&& (*final(a))->0.target == target
                &&& (*final(a))->0.hwnd == hwnd
            },
        forall|a: &mut Option<ActivePopup>| #[trigger]
            call_ensures(popup_destroyed, (a, hwnd), ()) ==> {
                &&& *a is Some && (*a)->0.hwnd == hwnd ==> *final(a) is None
                &&& *a is Some && (*a)->0.hwnd != hwnd ==> *final(a) == *a
                &&& *a is None ==> *final(a) is None
            },
{
}

/// What happens in the editor changes nothing but the chosen colour.
pub proof fn only_the_color_changes(event: PopupEvent, action: PopupAction)
    ensures
        forall|d: &mut Option<PopupData>| #[trigger]
            call_ensures(popup_wndproc, (d, event), action) ==> {
                &&& action == popup_reaction(*d, event)
                &&& *d is None ==> *final(d) is None
                &&& *d is Some ==> {
                    let before = (*d)->0;
                    let after = (*final(d))->0;
                    &&& *final(d) is Some
                    &&& after.selected_color == color_after(before, event)
                    &&& after.target_hwnd == before.target_hwnd
                    &&& after.hidden_hwnd == before.hidden_hwnd
                    &&& after.window_title == before.window_title
                    &&& after.process_name == before.process_name
                }
            },
{
}

/// Saving gives the editor's window the tag, leaves every other tag alone, and asks
/// for a badge for this window and for the panel to be told.
pub proof fn saving_tags_the_window(
    data: PopupData,
    title: &str,
    note: &str,
    messages: [PostedMessage; 2],
    other: isize,
)
    requires
        other != data.target_hwnd,
    ensures
        forall|s: &mut TagStore| #[trigger]
            call_ensures(save_and_close, (&data, s, title, note), messages) ==> {
                &&& final(s)@.contains_key(data.target_hwnd)
                &&& is_saved_tag(final(s)@[data.target_hwnd], data, title@, note@)
                &&& final(s)@.contains_key(other) == s@.contains_key(other)
                &&& s@.contains_key(other) ==> final(s)@[other] == s@[other]
                &&& messages[0].to == data.hidden_hwnd && messages[1].to == data.hidden_hwnd
                &&& messages[0].msg == WM_CREATE_OVERLAY && messages[0].wparam == data.target_hwnd
                &&& messages[1].msg == WM_APP_TAGS_CHANGED
            },
{
}

/// The editor is read from the top: the line about the window, the title, the
/// colours, the note, and the buttons; labels stand to the left of what they are
/// for, and the colour buttons in a row without touching.
pub proof fn editor_is_read_from_the_top(l: PopupLayout, dpi: u32, i: int)
    requires
        geo::is_usual_dpi(dpi),
        geo::effective_dpi(dpi) >= geo::BASE_DPI,
        call_ensures(popup_layout, (dpi,), l),
        0 <= i < 4,
    ensures
        l.info.y + l.info.height < l.title_edit.y,
        l.title_edit.y == l.title_label.y,
        l.title_edit.y + l.title_edit.height < l.color_label.y,
        l.color_label.y <= l.chips[i].y && l.chips[i].y == l.chips[i + 1].y,
        l.chips[i].x + l.chips[i].width < l.chips[i + 1].x,
        l.chips[0].x == l.title_edit.x,
        l.title_label.x + l.title_label.width <= l.title_edit.x,
        l.color_label.y + l.color_label.height < l.note_label.y,
        l.note_label.y + l.note_label.height < l.note_edit.y,
        l.note_edit.y + l.note_edit.height < l.ok.y,
        l.ok.y == l.cancel.y && l.ok.width == l.cancel.width && l.ok.height == l.cancel.height,
        l.width == geo::scaled(420, dpi) && l.height == geo::scaled(320, dpi),
{
    popup_controls_fit(l, dpi);
    let step = geo::scaled(40, dpi) + geo::scaled(8, dpi);
    assert(step * 0 == 0 && step * 1 == step && step * 2 == step + step && step * 3 == step + step
        + step && step * 4 == step + step + step + step);
    assert(l.chips[0] == chip_place(0, dpi));
    assert(l.chips[1] == chip_place(1, dpi));
    assert(l.chips[2] == chip_place(2, dpi));
    assert(l.chips[3] == chip_place(3, dpi));
    assert(l.chips[4] == chip_place(4, dpi));
    if i == 0 {
        assert(l.chips[0].x + l.chips[0].width < l.chips[1].x);
    } else if i == 1 {
        assert(l.chips[1].x + l.chips[1].width < l.chips[2].x);
    } else if i == 2 {
        assert(l.chips[2].x + l.chips[2].width < l.chips[3].x);
    } else {
        assert(l.chips[3].x + l.chips[3].width < l.chips[4].x);
    }
}

/// There is a button for every colour, in the order of the colours.
pub proof fn every_color_can_be_chosen(
    choices: [TagColor; 5],
    color: TagColor,
    at: int,
    id: i32,
    chosen: Option<TagColor>,
)
    requires
        call_ensures(color_choices, (), choices),
        call_ensures(color_of_chip, (id,), chosen),
    ensures
        color == TagColor::Orange ==> choices[0] == color,
        color == TagColor::Blue ==> choices[1] == color,
        color == TagColor::Green ==> choices[2] == color,
        color == TagColor::Red ==> choices[3] == color,
        color == TagColor::Purple ==> choices[4] == color,
        0 <= at < 5 && id == IDC_COLOR_BASE + at ==> chosen == Some(choices[at]),
{
}

} // verus!
