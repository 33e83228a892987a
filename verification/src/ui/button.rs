//! Buttons that the program draws itself: their state and their looks.

use crate::ui::geo;
use crate::ui::geo::Rect;
use crate::ui::theme;
use crate::ui::theme::{blend, light_colors, ThemeColors};
use std::collections::HashMap;
use vstd::prelude::*;

verus! {

broadcast use vstd::std_specs::hash::group_hash_axioms;

pub const VK_TAB: u16 = 0x09;

pub const VK_RETURN: u16 = 0x0D;

pub const VK_ESCAPE: u16 = 0x1B;

pub const BLACK: u32 = 0x00000000;

pub const WHITE: u32 = 0x00FFFFFF;

/// How a button looks.
#[derive(Debug, Clone, Copy, PartialEq, Eq, Structural)]
pub enum ButtonStyle {
    /// The main action: white on the accent colour.
    Accent,
    /// Any other action: a thin frame.
    Secondary,
}

/// What is going on with a button.
#[derive(Debug, Clone, Copy, PartialEq, Eq, Structural)]
pub struct ButtonState {
    pub style: ButtonStyle,
    /// The pointer is over it.
    pub hot: bool,
    /// It is held down.
    pub pressed: bool,
}

/// The buttons that are there, by their handles.
#[derive(Debug)]
pub struct ButtonStates {
    pub map: HashMap<usize, ButtonState>,
}

/// Something that happened to a button.
#[derive(Debug, Clone, Copy, PartialEq, Eq, Structural)]
pub enum ButtonEvent {
    MouseMove,
    MouseLeave,
    LeftDown,
    LeftUp,
    /// It got or lost the keyboard.
    FocusChange,
    KeyDown(u16),
    /// It is gone.
    Destroyed,
    Other,
}

/// What to do about an event.
#[derive(Debug, Clone, Copy, PartialEq, Eq, Structural)]
pub struct ButtonReaction {
    /// Draw the button again.
    pub redraw: bool,
    /// Ask to be told when the pointer leaves.
    pub track_leave: bool,
    /// Hand the key to the window that holds the button.
    pub forward_key: bool,
    /// Let the system do what it usually does.
    pub pass_on: bool,
}

/// The state of a button after an event.
pub open spec fn state_after(state: ButtonState, event: ButtonEvent) -> ButtonState {
    match event {
        ButtonEvent::MouseMove => ButtonState { hot: true, ..state },
        ButtonEvent::MouseLeave => ButtonState { hot: false, ..state },
        ButtonEvent::LeftDown => ButtonState { pressed: true, ..state },
        ButtonEvent::LeftUp => ButtonState { pressed: false, ..state },
        _ => state,
    }
}

/// The buttons after an event on button `key`.
pub open spec fn states_after(map: Map<usize, ButtonState>, key: usize, event: ButtonEvent) -> Map<
    usize,
    ButtonState,
> {
    if event == ButtonEvent::Destroyed {
        map.remove(key)
    } else if map.contains_key(key) {
        map.insert(key, state_after(map[key], event))
    } else {
        map
    }
}

/// Whether an event changes the looks of button `key`.
pub open spec fn is_changed(map: Map<usize, ButtonState>, key: usize, event: ButtonEvent) -> bool {
    map.contains_key(key) && state_after(map[key], event) != map[key]
}

/// Whether a key belongs to the window that holds the button.
pub open spec fn is_window_key(key: u16) -> bool {
    key == VK_TAB || key == VK_ESCAPE
}

/// What to do about an event on button `key`. Tab and Escape go to the window;
/// everything else still reaches the system.
pub open spec fn reaction_to(map: Map<usize, ButtonState>, key: usize, event: ButtonEvent)
    -> ButtonReaction {
    let forward = event is KeyDown && is_window_key(event->KeyDown_0);
    ButtonReaction {
        redraw: event == ButtonEvent::FocusChange || is_changed(map, key, event),
        track_leave: event == ButtonEvent::MouseMove && is_changed(map, key, event),
        forward_key: forward,
        pass_on: !forward,
    }
}

impl ButtonStates {
    pub fn new() -> (states: Self)
        ensures
            states.map@ == Map::<usize, ButtonState>::empty(),
    {
        ButtonStates { map: HashMap::new() }
    }

    /// A new button.
    pub fn register(&mut self, key: usize, style: ButtonStyle)
        ensures
            final(self).map@ == old(self).map@.insert(
                key,
                ButtonState { style, hot: false, pressed: false },
            ),
    {
        self.map.insert(key, ButtonState { style, hot: false, pressed: false });
    }

    /// The state of a button.
    pub fn get(&self, key: usize) -> (state: Option<ButtonState>)
        ensures
            state == (if self.map@.contains_key(key) {
                Some(self.map@[key])
            } else {
                None
            }),
    {
        match self.map.get(&key) {
            Some(state) => Some(*state),
            None => None,
        }
    }

    /// Takes note of an event. Returns whether the button looks different now.
    pub fn update_state(&mut self, key: usize, event: ButtonEvent) -> (changed: bool)
        requires
            event != ButtonEvent::Destroyed,
        ensures
            final(self).map@ == states_after(old(self).map@, key, event),
            changed == is_changed(old(self).map@, key, event),
    {
        let before: ButtonState = match self.get(key) {
            Some(state) => state,
            None => {
                return false;
            },
        };
        let mut after: ButtonState = before;
        match event {
            ButtonEvent::MouseMove => {
                after.hot = true;
            },
            ButtonEvent::MouseLeave => {
                after.hot = false;
            },
            ButtonEvent::LeftDown => {
                after.pressed = true;
            },
            ButtonEvent::LeftUp => {
                after.pressed = false;
            },
            _ => {},
        }
        self.map.insert(key, after);
        before.hot != after.hot || before.pressed != after.pressed
    }

    /// Takes note of an event, and tells what to do about it.
    pub fn handle(&mut self, key: usize, event: ButtonEvent) -> (reaction: ButtonReaction)
        ensures
            final(self).map@ == states_after(old(self).map@, key, event),
            reaction == reaction_to(old(self).map@, key, event),
    {
        match event {
            ButtonEvent::Destroyed => {
                self.map.remove(&key);
                ButtonReaction {
                    redraw: false,
                    track_leave: false,
                    forward_key: false,
                    pass_on: true,
                }
            },
            ButtonEvent::KeyDown(code) => {
                let forward: bool = code == VK_TAB || code == VK_ESCAPE;
                proof {
                    assert(states_after(self.map@, key, event) =~= self.map@);
                }
                ButtonReaction {
                    redraw: false,
                    track_leave: false,
                    forward_key: forward,
                    pass_on: !forward,
                }
            },
            _ => {
                let changed: bool = self.update_state(key, event);
                ButtonReaction {
                    redraw: changed || event == ButtonEvent::FocusChange,
                    track_leave: changed && event == ButtonEvent::MouseMove,
                    forward_key: false,
                    pass_on: true,
                }
            },
        }
    }
}

/// A button that is registered is found, and once it is gone it is not.
pub proof fn registered_buttons_are_found(
    map: Map<usize, ButtonState>,
    key: usize,
    style: ButtonStyle,
)
    ensures
        ({
            let there = map.insert(key, ButtonState { style, hot: false, pressed: false });
            &&& there.contains_key(key)
            &&& there[key] == (ButtonState { style, hot: false, pressed: false })
            &&& !states_after(there, key, ButtonEvent::Destroyed).contains_key(key)
        }),
{
}

/// The pointer coming and going, and the button going down and up, leave a
/// button as it was at rest.
pub proof fn buttons_come_to_rest(state: ButtonState)
    requires
        !state.hot,
        !state.pressed,
    ensures
        state_after(state_after(state, ButtonEvent::MouseMove), ButtonEvent::MouseLeave) == state,
        state_after(state_after(state, ButtonEvent::LeftDown), ButtonEvent::LeftUp) == state,
{
}

// ---------------------------------------------------------------------
// Drawing
// ---------------------------------------------------------------------
/// The three colours of a button.
#[derive(Debug, Clone, Copy, PartialEq, Eq, Structural)]
pub struct ButtonPaint {
    pub bg: u32,
    pub fg: u32,
    /// The frame, if there is one.
    pub border: Option<u32>,
}

/// The ground colour of a button. Disabled buttons fade into the window; the
/// others grow darker or stand out when they are held down or pointed at.
pub open spec fn ground_of(colors: ThemeColors, state: ButtonState, disabled: bool) -> int {
    match state.style {
        ButtonStyle::Accent => if disabled {
            theme::mixed(colors.accent, colors.bg, 50)
        } else if state.pressed {
            theme::mixed(colors.accent, BLACK, 18)
        } else if state.hot {
            theme::mixed(colors.accent, WHITE, 14)
        } else {
            colors.accent as int
        },
        ButtonStyle::Secondary => if disabled {
            theme::mixed(colors.edit_bg, colors.bg, 50)
        } else if state.pressed {
            theme::mixed(colors.edit_bg, colors.fg, 14)
        } else if state.hot {
            theme::mixed(colors.edit_bg, colors.fg, 6)
        } else {
            colors.edit_bg as int
        },
    }
}

/// The text colour of a button.
pub open spec fn text_of(colors: ThemeColors, style: ButtonStyle, disabled: bool) -> u32 {
    if disabled {
        colors.muted
    } else {
        match style {
            ButtonStyle::Accent => WHITE,
            ButtonStyle::Secondary => colors.fg,
        }
    }
}

/// The frame of a button.
pub open spec fn frame_of(colors: ThemeColors, style: ButtonStyle) -> Option<u32> {
    match style {
        ButtonStyle::Accent => None,
        ButtonStyle::Secondary => Some(colors.border),
    }
}

/// The colours of a button.
pub fn button_paint(colors: &ThemeColors, state: &ButtonState, disabled: bool) -> (paint:
    ButtonPaint)
    ensures
        paint.bg == ground_of(*colors, *state, disabled),
        paint.fg == text_of(*colors, state.style, disabled),
        paint.border == frame_of(*colors, state.style),
{
    match state.style {
        ButtonStyle::Accent => {
            let bg: u32 = if disabled {
                blend(colors.accent, colors.bg, 50)
            } else if state.pressed {
                blend(colors.accent, BLACK, 18)
            } else if state.hot {
                blend(colors.accent, WHITE, 14)
            } else {
                colors.accent
            };
            ButtonPaint {
                bg,
                fg: if disabled {
                    colors.muted
                } else {
                    WHITE
                },
                border: None,
            }
        },
        ButtonStyle::Secondary => {
            let bg: u32 = if disabled {
                blend(colors.edit_bg, colors.bg, 50)
            } else if state.pressed {
                blend(colors.edit_bg, colors.fg, 14)
            } else if state.hot {
                blend(colors.edit_bg, colors.fg, 6)
            } else {
                colors.edit_bg
            };
            ButtonPaint {
                bg,
                fg: if disabled {
                    colors.muted
                } else {
                    colors.fg
                },
                border: Some(colors.border),
            }
        },
    }
}

/// A rectangle made smaller by `by` on every side.
pub open spec fn inset(rc: Rect, by: int) -> Rect {
    Rect {
        left: (rc.left + by) as i32,
        top: (rc.top + by) as i32,
        right: (rc.right - by) as i32,
        bottom: (rc.bottom - by) as i32,
    }
}

/// Whether a rectangle can be made smaller by four on every side.
pub open spec fn can_be_inset(rc: Rect) -> bool {
    &&& geo::is_coordinate(rc.left + 4)
    &&& geo::is_coordinate(rc.top + 4)
    &&& geo::is_coordinate(rc.right - 4)
    &&& geo::is_coordinate(rc.bottom - 4)
    &&& geo::is_coordinate((rc.bottom - 1) - (rc.top + 1))
}

/// Radius of the corners of a button with this height inside its frame: a third
/// of it, but no more than four.
pub open spec fn corner_radius(height: int) -> int {
    if height >= 12 {
        4
    } else if height >= 0 {
        height / 3
    } else {
        -((-height) / 3)
    }
}

/// How a button is drawn.
#[derive(Debug, Clone, Copy, PartialEq, Eq, Structural)]
pub struct ButtonPlan {
    pub paint: ButtonPaint,
    /// The rounded rectangle.
    pub frame: Rect,
    pub radius: i32,
    /// Where the text goes.
    pub text: Rect,
    /// Where the line goes that shows that the button has the keyboard.
    pub focus: Option<Rect>,
}

fn shrink(rc: Rect, by: i32) -> (r: Rect)
    requires
        0 <= by <= 4,
        can_be_inset(rc),
    ensures
        r == inset(rc, by as int),
{
    Rect {
        left: rc.left + by,
        top: rc.top + by,
        right: rc.right - by,
        bottom: rc.bottom - by,
    }
}

/// How a button is drawn in the rectangle `rc`; `None` for a button that is not
/// known. Without a theme the light one is used.
pub fn draw_button(
    colors: Option<ThemeColors>,
    state: Option<ButtonState>,
    rc: Rect,
    disabled: bool,
    focused: bool,
) -> (plan: Option<ButtonPlan>)
    requires
        can_be_inset(rc),
    ensures
        plan is Some <==> state is Some,
        plan matches Some(p) ==> {
            let c = match colors {
                Some(c) => c,
                None => theme::light(),
            };
            &&& p.paint.bg == ground_of(c, state->0, disabled)
            &&& p.paint.fg == text_of(c, state->0.style, disabled)
            &&& p.paint.border == frame_of(c, state->0.style)
            &&& p.frame == inset(rc, 1)
            &&& p.radius == corner_radius(p.frame.bottom - p.frame.top)
            &&& p.text == inset(rc, 2)
            &&& p.focus == (if focused && !disabled {
                Some(inset(rc, 4))
            } else {
                None
            })
        },
{
    let state: ButtonState = match state {
        Some(state) => state,
        None => {
            return None;
        },
    };
    let colors: ThemeColors = match colors {
        Some(colors) => colors,
        None => light_colors(),
    };
    let frame: Rect = shrink(rc, 1);
    let height: i32 = frame.bottom - frame.top;
    let radius: i32 = if height >= 12 {
        4
    } else if height >= 0 {
        height / 3
    } else if height > -3 {
        0
    } else {
        let positive: u32 = (-(height + 1)) as u32 + 1;
        -((positive / 3) as i32)
    };
    Some(
        ButtonPlan {
            paint: button_paint(&colors, &state, disabled),
            frame,
            radius,
            text: shrink(rc, 2),
            focus: if focused && !disabled {
                Some(shrink(rc, 4))
            } else {
                None
            },
        },
    )
}

/// Every event changes its own part of a button's state and no other one, and only
/// for the button that it happened to. A button is drawn again exactly when it looks
/// different, or when the keyboard comes or goes.
pub proof fn events_change_their_own_part(
    map: Map<usize, ButtonState>,
    key: usize,
    other: usize,
    event: ButtonEvent,
)
    requires
        map.contains_key(key),
        other != key,
    ensures
        ({
            let s = map[key];
            let after = states_after(map, key, event);
            let reaction = reaction_to(map, key, event);
            &&& after.contains_key(other) == map.contains_key(other)
            &&& map.contains_key(other) ==> after[other] == map[other]
            &&& event == ButtonEvent::Destroyed <==> !after.contains_key(key)
            &&& event != ButtonEvent::Destroyed ==> {
                let t = after[key];
                &&& t.style == s.style
                &&& event == ButtonEvent::MouseMove ==> t.hot
                &&& event == ButtonEvent::MouseLeave ==> !t.hot
                &&& event != ButtonEvent::MouseMove && event != ButtonEvent::MouseLeave ==> t.hot
                    == s.hot
                &&& event == ButtonEvent::LeftDown ==> t.pressed
                &&& event == ButtonEvent::LeftUp ==> !t.pressed
                &&& event != ButtonEvent::LeftDown && event != ButtonEvent::LeftUp ==> t.pressed
                    == s.pressed
                &&& reaction.redraw <==> t != s || event == ButtonEvent::FocusChange
            }
            &&& reaction.track_leave <==> event == ButtonEvent::MouseMove && !s.hot
            &&& reaction.forward_key <==> event == ButtonEvent::KeyDown(0x09) || event
                == ButtonEvent::KeyDown(0x1B)
            &&& reaction.pass_on == !reaction.forward_key
        }),
{
}

/// A main button is white on the accent colour and has no frame, any other one has
/// the colours of text fields and a frame; a button that is disabled reads in the
/// colour for less important text.
pub proof fn buttons_look_like_their_style(
    colors: ThemeColors,
    state: ButtonState,
    at_rest: ButtonPaint,
    disabled: ButtonPaint,
)
    requires
        call_ensures(button_paint, (&colors, &state, false), at_rest),
        call_ensures(button_paint, (&colors, &state, true), disabled),
    ensures
        disabled.fg == colors.muted,
        disabled.border == at_rest.border,
        state.style == ButtonStyle::Accent ==> at_rest.fg == 0x00FF_FFFF && at_rest.border is None,
        state.style == ButtonStyle::Secondary ==> at_rest.fg == colors.fg && at_rest.border
            == Some(colors.border),
        !state.hot && !state.pressed && state.style == ButtonStyle::Accent ==> at_rest.bg
            == colors.accent,
        !state.hot && !state.pressed && state.style == ButtonStyle::Secondary ==> at_rest.bg
            == colors.edit_bg,
{
}

/// What is drawn of a button lies inside its rectangle, one part inside the other:
/// the frame, the text, and the line that shows that it has the keyboard. That line
/// is drawn exactly for a button that has the keyboard and is not disabled.
pub proof fn buttons_are_drawn_inside(
    colors: Option<ThemeColors>,
    state: ButtonState,
    rc: Rect,
    disabled: bool,
    focused: bool,
    plan: Option<ButtonPlan>,
    unknown: Option<ButtonPlan>,
)
    requires
        can_be_inset(rc),
        call_ensures(draw_button, (colors, Some(state), rc, disabled, focused), plan),
        call_ensures(draw_button, (colors, None, rc, disabled, focused), unknown),
    ensures
        unknown is None,
        plan is Some,
        ({
            let p = plan->0;
            &&& p.frame.left == rc.left + 1 && p.frame.top == rc.top + 1 && p.frame.right
                == rc.right - 1 && p.frame.bottom == rc.bottom - 1
            &&& p.text.left == rc.left + 2 && p.text.top == rc.top + 2 && p.text.right == rc.right
                - 2 && p.text.bottom == rc.bottom - 2
            &&& p.focus is Some <==> focused && !disabled
            &&& p.focus matches Some(f) ==> f.left == rc.left + 4 && f.top == rc.top + 4 && f.right
                == rc.right - 4 && f.bottom == rc.bottom - 4
            &&& rc.bottom - rc.top >= 14 ==> p.radius == 4
            &&& rc.bottom - rc.top >= 2 ==> 0 <= p.radius <= 4
        }),
{
}

/// A new button is at rest in the style that it was given, and every event is noted
/// for the button that it happened to.
pub proof fn buttons_are_noted(
    key: usize,
    other: usize,
    style: ButtonStyle,
    event: ButtonEvent,
    reaction: ButtonReaction,
)
    requires
        other != key,
    ensures
        forall|b: &mut ButtonStates| #[trigger]
            call_ensures(ButtonStates::register, (b, key, style), ()) ==> {
                &&& final(b).map@.contains_key(key)
                &&& final(b).map@[key].style == style
                &&& !final(b).map@[key].hot && !final(b).map@[key].pressed
                &&& final(b).map@.contains_key(other) == b.map@.contains_key(other)
                &&& b.map@.contains_key(other) ==> final(b).map@[other] == b.map@[other]
            },
        forall|b: &mut ButtonStates| #[trigger]
            call_ensures(ButtonStates::handle, (b, key, event), reaction) ==> final(b).map@
                == states_after(b.map@, key, event) && reaction == reaction_to(
                b.map@,
                key,
                event,
            ),
        forall|b: &ButtonStates, state: Option<ButtonState>| #[trigger]
            call_ensures(ButtonStates::get, (b, key), state) ==> (state is Some
                <==> b.map@.contains_key(key)) && (state matches Some(s) ==> s == b.map@[key]),
{
}

/// Whether every part of a colour lies between the same parts of two others.
pub open spec fn lies_between(color: u32, a: u32, b: u32) -> bool {
    forall|i: int| #![trigger theme::channel(color, i)]
        0 <= i < 3 ==> {
            let x = theme::channel(a, i);
            let y = theme::channel(b, i);
            let c = theme::channel(color, i);
            (x <= c <= y) || (y <= c <= x)
        }
}

/// A button answers to the pointer: the main one grows darker when it is held down
/// and lighter when it is pointed at, the others take on some of the text colour,
/// and a disabled one fades towards the window.
pub proof fn buttons_answer_to_the_pointer(
    colors: ThemeColors,
    style: ButtonStyle,
    pressed: ButtonPaint,
    hot: ButtonPaint,
    disabled: ButtonPaint,
    over: bool,
)
    requires
        call_ensures(
            button_paint,
            (&colors, &ButtonState { style, hot: over, pressed: true }, false),
            pressed,
        ),
        call_ensures(
            button_paint,
            (&colors, &ButtonState { style, hot: true, pressed: false }, false),
            hot,
        ),
        call_ensures(
            button_paint,
            (&colors, &ButtonState { style, hot: over, pressed: over }, true),
            disabled,
        ),
    ensures
        style == ButtonStyle::Accent ==> {
            &&& lies_between(pressed.bg, colors.accent, 0x0000_0000)
            &&& lies_between(hot.bg, colors.accent, 0x00FF_FFFF)
            &&& lies_between(disabled.bg, colors.accent, colors.bg)
        },
        style == ButtonStyle::Secondary ==> {
            &&& lies_between(pressed.bg, colors.edit_bg, colors.fg)
            &&& lies_between(hot.bg, colors.edit_bg, colors.fg)
            &&& lies_between(disabled.bg, colors.edit_bg, colors.bg)
        },
{
    match style {
        ButtonStyle::Accent => {
            lemma_mixture_lies_between(colors.accent, BLACK, 18);
            lemma_mixture_lies_between(colors.accent, WHITE, 14);
            lemma_mixture_lies_between(colors.accent, colors.bg, 50);
        },
        ButtonStyle::Secondary => {
            lemma_mixture_lies_between(colors.edit_bg, colors.fg, 14);
            lemma_mixture_lies_between(colors.edit_bg, colors.fg, 6);
            lemma_mixture_lies_between(colors.edit_bg, colors.bg, 50);
        },
    }
}

proof fn lemma_mixture_lies_between(a: u32, b: u32, percent: i32)
    requires
        0 <= percent <= 100,
    ensures
        0 <= theme::mixed(a, b, percent) < 0x0100_0000,
        lies_between(theme::mixed(a, b, percent) as u32, a, b),
{
    theme::mixed_part(a, b, percent, 0);
    let color = theme::mixed(a, b, percent) as u32;
    assert forall|i: int| #![trigger theme::channel(color, i)] 0 <= i < 3 implies {
        let x = theme::channel(a, i);
        let y = theme::channel(b, i);
        let c = theme::channel(color, i);
        (x <= c <= y) || (y <= c <= x)
    } by {
        theme::mixed_part(a, b, percent, i);
        theme::mixtures_lie_between(
            theme::channel(a, i),
            theme::channel(b, i),
            percent as int,
        );
    }
}

} // verus!
