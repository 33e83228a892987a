//! The question whether to quit.

use crate::common::WM_APP_EXIT;
use crate::sys::overlay::PostedMessage;
use crate::ui::button::{VK_ESCAPE, VK_RETURN, VK_TAB};
use crate::ui::controls;
use crate::ui::controls::tab_cycle_index;
use crate::ui::geo;
use crate::ui::geo::{scale_px, Place};
use crate::ui::layout;
use crate::ui::layout::client_height;
use vstd::prelude::*;

verus! {

pub const IDC_OK_BUTTON: i32 = 301;

pub const IDC_CANCEL_BUTTON: i32 = 302;

pub const WIN_W: i32 = 380;

pub const WIN_H: i32 = 160;

/// The controls in the order of the keyboard.
pub open spec fn focus_order() -> Seq<i32> {
    seq![IDC_OK_BUTTON, IDC_CANCEL_BUTTON]
}

/// Something that happened in the window.
#[derive(Debug, Clone, Copy, PartialEq, Eq, Structural)]
pub enum ConfirmEvent {
    /// A button was pressed.
    Command(i32),
    /// A key was pressed, with or without Shift, while this control had the
    /// keyboard.
    KeyDown { key: u16, shift: bool, focused: i32 },
    /// The user closed the window.
    Close,
}

/// What the window does about it.
#[derive(Debug, Clone, Copy, PartialEq, Eq, Structural)]
pub struct ConfirmAction {
    /// What the system usually does.
    pub pass_on: bool,
    /// Send this.
    pub post: Option<PostedMessage>,
    /// Close the window.
    pub destroy: bool,
    /// Give this control the keyboard.
    pub focus: Option<i32>,
}

/// The message that the user has agreed to quit.
pub open spec fn agreed(hidden_hwnd: isize) -> PostedMessage {
    PostedMessage { to: hidden_hwnd, msg: WM_APP_EXIT, wparam: 1 }
}

pub open spec fn no_action() -> ConfirmAction {
    ConfirmAction { pass_on: false, post: None, destroy: false, focus: None }
}

/// The message to send when the user agrees: none while the window that takes it
/// is not known.
pub open spec fn agreement(hidden_hwnd: Option<isize>) -> Option<PostedMessage> {
    match hidden_hwnd {
        Some(to) => Some(agreed(to)),
        None => None,
    }
}

/// The control that gets the keyboard from `focused` when Tab is pressed.
pub open spec fn next_focus(focused: i32, shift: bool) -> i32 {
    focus_order()[controls::cycled(focused, focus_order(), !shift)]
}

/// What the window does about an event. `hidden_hwnd` is the window that takes
/// the answer.
pub open spec fn confirm_reaction(hidden_hwnd: Option<isize>, event: ConfirmEvent)
    -> ConfirmAction {
    match event {
        ConfirmEvent::Command(id) => if hidden_hwnd is None {
            ConfirmAction { pass_on: true, ..no_action() }
        } else if id == IDC_OK_BUTTON {
            ConfirmAction { post: agreement(hidden_hwnd), destroy: true, ..no_action() }
        } else if id == IDC_CANCEL_BUTTON {
            ConfirmAction { destroy: true, ..no_action() }
        } else {
            no_action()
        },
        ConfirmEvent::KeyDown { key, shift, focused } => if key == VK_RETURN {
            ConfirmAction { post: agreement(hidden_hwnd), destroy: true, ..no_action() }
        } else if key == VK_ESCAPE {
            ConfirmAction { destroy: true, ..no_action() }
        } else if key == VK_TAB {
            ConfirmAction { focus: Some(next_focus(focused, shift)), ..no_action() }
        } else {
            no_action()
        },
        ConfirmEvent::Close => ConfirmAction { destroy: true, ..no_action() },
    }
}

/// The control that gets the keyboard next.
pub fn focus_next_control(focused: i32, forward: bool) -> (next: i32)
    ensures
        next == next_focus(focused, !forward),
{
    let order: [i32; 2] = [IDC_OK_BUTTON, IDC_CANCEL_BUTTON];
    proof {
        assert(order@ =~= focus_order());
    }
    let i: usize = tab_cycle_index(focused, &order, forward);
    order[i]
}

/// What the window does about an event.
pub fn confirm_wndproc(hidden_hwnd: Option<isize>, event: ConfirmEvent) -> (action: ConfirmAction)
    ensures
        action == confirm_reaction(hidden_hwnd, event),
{
    let nothing: ConfirmAction = ConfirmAction {
        pass_on: false,
        post: None,
        destroy: false,
        focus: None,
    };
    let agree: Option<PostedMessage> = match hidden_hwnd {
        Some(to) => Some(PostedMessage { to, msg: WM_APP_EXIT, wparam: 1 }),
        None => None,
    };
    match event {
        ConfirmEvent::Command(id) => {
            if hidden_hwnd.is_none() {
                ConfirmAction { pass_on: true, ..nothing }
            } else if id == IDC_OK_BUTTON {
                ConfirmAction { post: agree, destroy: true, ..nothing }
            } else if id == IDC_CANCEL_BUTTON {
                ConfirmAction { destroy: true, ..nothing }
            } else {
                nothing
            }
        },
        ConfirmEvent::KeyDown { key, shift, focused } => {
            if key == VK_RETURN {
                ConfirmAction { post: agree, destroy: true, ..nothing }
            } else if key == VK_ESCAPE {
                ConfirmAction { destroy: true, ..nothing }
            } else if key == VK_TAB {
                ConfirmAction { focus: Some(focus_next_control(focused, !shift)), ..nothing }
            } else {
                nothing
            }
        },
        ConfirmEvent::Close => ConfirmAction { destroy: true, ..nothing },
    }
}

/// Only the button and Enter agree to quit; every other event leaves the program
/// running.
pub proof fn only_agreement_quits(hidden_hwnd: isize, event: ConfirmEvent)
    ensures
        confirm_reaction(Some(hidden_hwnd), event).post is Some <==> (event
            == ConfirmEvent::Command(IDC_OK_BUTTON) || (event is KeyDown && event->key
            == VK_RETURN)),
        confirm_reaction(Some(hidden_hwnd), event).post is Some ==> confirm_reaction(
            Some(hidden_hwnd),
            event,
        ).destroy,
{
}

/// Places of the controls of the window.
#[derive(Debug, Clone, Copy, PartialEq, Eq, Structural)]
pub struct ConfirmLayout {
    pub width: i32,
    pub height: i32,
    pub message: Place,
    pub ok: Place,
    pub cancel: Place,
}

/// Upper edge of the buttons.
pub open spec fn button_y(dpi: u32) -> int {
    layout::inner_height(WIN_H as int, dpi) - geo::scaled(16, dpi) - geo::scaled(30, dpi)
}

/// Left edge of the first button.
pub open spec fn button_x(dpi: u32) -> int {
    geo::scaled(WIN_W as int, dpi) - geo::scaled(16, dpi) - (geo::scaled(88, dpi) * 2 + geo::scaled(
        8,
        dpi,
    ))
}

/// The places of the controls at a resolution.
pub open spec fn layout_at(dpi: u32) -> ConfirmLayout {
    let w = geo::scaled(WIN_W as int, dpi);
    let m = geo::scaled(16, dpi);
    let btn_w = geo::scaled(88, dpi);
    let btn_h = geo::scaled(30, dpi);
    let gap = geo::scaled(8, dpi);
    ConfirmLayout {
        width: w as i32,
        height: geo::scaled(WIN_H as int, dpi) as i32,
        message: geo::place(m, m, w - 2 * m, button_y(dpi) - gap - m),
        ok: geo::place(button_x(dpi), button_y(dpi), btn_w, btn_h),
        cancel: geo::place(button_x(dpi) + btn_w + gap, button_y(dpi), btn_w, btn_h),
    }
}

/// The places of the controls.
pub fn confirm_layout(dpi: u32) -> (l: ConfirmLayout)
    requires
        geo::is_usual_dpi(dpi),
    ensures
        l == layout_at(dpi),
{
    let w: i32 = scale_px(WIN_W, dpi);
    let m: i32 = scale_px(16, dpi);
    let btn_w: i32 = scale_px(88, dpi);
    let btn_h: i32 = scale_px(30, dpi);
    let gap: i32 = scale_px(8, dpi);
    let y: i32 = client_height(WIN_H, dpi) - m - btn_h;
    let x: i32 = w - m - (btn_w * 2 + gap);
    ConfirmLayout {
        width: w,
        height: scale_px(WIN_H, dpi),
        message: Place { x: m, y: m, width: w - 2 * m, height: y - gap - m },
        ok: Place { x, y, width: btn_w, height: btn_h },
        cancel: Place { x: x + btn_w + gap, y, width: btn_w, height: btn_h },
    }
}

/// From the base resolution up, the buttons are not cut off at the lower edge,
/// nor at the right one, and the message ends above them.
pub proof fn confirm_controls_fit(dpi: u32)
    requires
        geo::is_usual_dpi(dpi),
        geo::effective_dpi(dpi) >= geo::BASE_DPI,
    ensures
        ({
            let l = layout_at(dpi);
            let h = layout::inner_height(WIN_H as int, dpi);
            &&& geo::lies_in(l.message, l.width as int, h)
            &&& geo::lies_in(l.ok, l.width as int, h)
            &&& geo::lies_in(l.cancel, l.width as int, h)
            &&& l.message.y + l.message.height < l.ok.y
            &&& l.ok.x + l.ok.width < l.cancel.x
        }),
{
}

/// Half of a number, rounded towards zero.
pub open spec fn half(v: int) -> int {
    if v >= 0 {
        v / 2
    } else {
        -((-v) / 2)
    }
}

/// The corner of a window that stands in the middle of the screen.
pub fn centered(screen_w: i32, screen_h: i32, w: i32, h: i32) -> (corner: (i32, i32))
    requires
        geo::is_coordinate(screen_w - w),
        geo::is_coordinate(screen_h - h),
    ensures
        corner.0 == half(screen_w - w),
        corner.1 == half(screen_h - h),
{
    (halve(screen_w - w), halve(screen_h - h))
}

fn halve(v: i32) -> (r: i32)
    ensures
        r == half(v as int),
{
    if v >= 0 {
        v / 2
    } else {
        let positive: u32 = (-(v + 1)) as u32 + 1;
        -((positive / 2) as i32)
    }
}

/// A window that is smaller than the screen stands as far from one edge as from
/// the other, but for one pixel.
pub proof fn centered_is_in_the_middle(screen: int, size: int)
    requires
        0 <= size <= screen,
    ensures
        0 <= half(screen - size),
        half(screen - size) + size <= screen,
        (screen - (half(screen - size) + size)) - half(screen - size) <= 1,
        0 <= (screen - (half(screen - size) + size)) - half(screen - size),
{
}

/// The agreement goes to the window that takes it and says that the user has agreed;
/// declining in any way closes the window and says nothing.
pub proof fn declining_says_nothing(hidden_hwnd: isize, shift: bool, focused: i32)
    ensures
        confirm_reaction(Some(hidden_hwnd), ConfirmEvent::Command(301)).post == Some(
            PostedMessage { to: hidden_hwnd, msg: WM_APP_EXIT, wparam: 1 },
        ),
        forall|event: ConfirmEvent|
            event == ConfirmEvent::Command(302) || event is Close || (event is KeyDown && event->key
                == 0x1B) ==> (#[trigger] confirm_reaction(Some(hidden_hwnd), event)).destroy
                && confirm_reaction(Some(hidden_hwnd), event).post is None,
        confirm_reaction(
            Some(hidden_hwnd),
            ConfirmEvent::KeyDown { key: 0x0D, shift, focused },
        ) == confirm_reaction(Some(hidden_hwnd), ConfirmEvent::Command(301)),
{
}

/// Tab goes to the other one of the two buttons, with Shift or without.
pub proof fn tab_goes_to_the_other_button(shift: bool, other: i32)
    ensures
        next_focus(301, shift) == 302,
        next_focus(302, shift) == 301,
        other != 301 && other != 302 ==> next_focus(other, shift) == 301,
{
    let order = focus_order();
    reveal_with_fuel(controls::id_position, 3);
    let o1 = order.subrange(1, 2);
    assert(order[0] == 301 && order[1] == 302 && o1[0] == 302);
    assert(o1.subrange(1, 1).len() == 0);
}

/// A window is put in the middle of the screen, in both directions, and one that is
/// too large reaches as far beyond one edge as beyond the other.
pub proof fn windows_are_centered(
    screen_w: i32,
    screen_h: i32,
    w: i32,
    h: i32,
    corner: (i32, i32),
)
    requires
        call_ensures(centered, (screen_w, screen_h, w, h), corner),
    ensures
        w <= screen_w ==> 0 <= (screen_w - (corner.0 + w)) - corner.0 <= 1,
        h <= screen_h ==> 0 <= (screen_h - (corner.1 + h)) - corner.1 <= 1,
        w > screen_w ==> 0 <= corner.0 - (screen_w - (corner.0 + w)) <= 1,
        h > screen_h ==> 0 <= corner.1 - (screen_h - (corner.1 + h)) <= 1,
{
}

/// The question is read from the top, and its buttons stand side by side below it.
pub proof fn question_is_read_from_the_top(dpi: u32, l: ConfirmLayout)
    requires
        geo::is_usual_dpi(dpi),
        geo::effective_dpi(dpi) >= geo::BASE_DPI,
        call_ensures(confirm_layout, (dpi,), l),
    ensures
        l.message.y + l.message.height < l.ok.y,
        l.ok.y == l.cancel.y && l.ok.width == l.cancel.width && l.ok.height == l.cancel.height,
        l.ok.x + l.ok.width < l.cancel.x,
        l.cancel.x + l.cancel.width < l.width,
        l.width == geo::scaled(380, dpi) && l.height == geo::scaled(160, dpi),
{
    confirm_controls_fit(dpi);
}

/// What is said here of reactions is said of the window.
pub proof fn question_reacts_like_this(
    hidden_hwnd: Option<isize>,
    event: ConfirmEvent,
    action: ConfirmAction,
)
    requires
        call_ensures(confirm_wndproc, (hidden_hwnd, event), action),
    ensures
        action == confirm_reaction(hidden_hwnd, event),
        hidden_hwnd is None ==> action.post is None,
        action.pass_on <==> event is Command && hidden_hwnd is None,
        action.destroy <==> event is Close || (event matches ConfirmEvent::KeyDown { key, .. }
            && (key == 0x0D || key == 0x1B)) || (event matches ConfirmEvent::Command(id)
            && hidden_hwnd is Some && (id == 301 || id == 302)),
        action.focus is Some <==> (event matches ConfirmEvent::KeyDown { key, .. } && key == 0x09),
{
}

/// The function that moves the keyboard goes to the other button.
pub proof fn keyboard_goes_to_the_other_button(forward: bool, from_ok: i32, from_cancel: i32)
    requires
        call_ensures(focus_next_control, (301, forward), from_ok),
        call_ensures(focus_next_control, (302, forward), from_cancel),
    ensures
        from_ok == 302,
        from_cancel == 301,
{
    tab_goes_to_the_other_button(!forward, 0);
}

} // verus!
