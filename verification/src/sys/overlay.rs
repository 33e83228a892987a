//! Badges on windows: where they are, what they show, and the tooltip that
//! opens over them.

use crate::common::WM_APP_EDIT_TAG;
use crate::model::tag;
use crate::model::tag::{Tag, TagStore};
use crate::sys::badge;
use crate::sys::badge::truncate_title;
use crate::text;
use crate::text::trim;
use crate::ui::geo;
use crate::ui::geo::{Place, Rect};
use crate::ui::theme;
use std::collections::HashMap;
use vstd::prelude::*;
use vstd::string::StringExecFns;

verus! {

broadcast use vstd::std_specs::hash::group_hash_axioms;

/// Length of the two sides of the badge's triangle.
pub const BADGE_SIZE: i32 = 18;

/// Clear space around the triangle.
pub const BADGE_OFFSET: i32 = 2;

/// Side of the square that holds the triangle, and height of the badge.
pub const BADGE_WIN_SIZE: i32 = 22;

/// Characters of a title that a badge shows.
pub const TITLE_MAX_CHARS: usize = 5;

/// Height of the strip with the title.
pub const TITLE_H: i32 = 16;

/// Space above the strip with the title.
pub const TITLE_Y: i32 = 3;

/// Space to the left and right of the title.
pub const TITLE_PAD_X: i32 = 7;

/// The strip with the title is centred in the badge, and the square leaves the
/// clear space on both sides of the triangle.
pub proof fn badge_measures_agree()
    ensures
        BADGE_WIN_SIZE == BADGE_SIZE + BADGE_OFFSET * 2,
        TITLE_Y == (BADGE_WIN_SIZE - TITLE_H) / 2,
        TITLE_Y + TITLE_H + TITLE_Y == BADGE_WIN_SIZE,
{
}

// ---------------------------------------------------------------------
// Switches and connections
// ---------------------------------------------------------------------
/// What the badges are told once and for all, and what can be switched.
#[derive(Debug, Clone, Copy, PartialEq, Eq, Structural)]
pub struct OverlayConfig {
    /// Whether badges show titles.
    pub show_title: bool,
    /// Whether badges stay above every window.
    pub always_top: bool,
    /// Window that takes the requests of the badges.
    pub message_target: Option<isize>,
    pub tooltip_theme: Option<TooltipTheme>,
}

/// Ground and text colour of tooltips.
#[derive(Debug, Clone, Copy, PartialEq, Eq, Structural)]
pub struct TooltipTheme {
    pub bg: u32,
    pub fg: u32,
}

impl OverlayConfig {
    /// Everything is switched on, and nothing is connected.
    pub fn new() -> (config: Self)
        ensures
            config == (OverlayConfig {
                show_title: true,
                always_top: true,
                message_target: None,
                tooltip_theme: None,
            }),
    {
        OverlayConfig {
            show_title: true,
            always_top: true,
            message_target: None,
            tooltip_theme: None,
        }
    }
}

/// Switches the titles on or off.
pub fn set_show_title(config: &mut OverlayConfig, enabled: bool)
    ensures
        *final(config) == (OverlayConfig { show_title: enabled, ..*old(config) }),
{
    config.show_title = enabled;
}

/// Lets badges stay above every window, or keep to their windows.
pub fn set_badge_always_top(config: &mut OverlayConfig, enabled: bool)
    ensures
        *final(config) == (OverlayConfig { always_top: enabled, ..*old(config) }),
{
    config.always_top = enabled;
}

/// Whether badges stay above every window.
pub fn badge_always_top(config: &OverlayConfig) -> (on: bool)
    ensures
        on == config.always_top,
{
    config.always_top
}

/// Connects the badges to the window that takes their requests. Only the first
/// call counts.
pub fn set_message_target(config: &mut OverlayConfig, hidden_hwnd: isize)
    ensures
        *final(config) == (OverlayConfig {
            message_target: match old(config).message_target {
                Some(earlier) => Some(earlier),
                None => Some(hidden_hwnd),
            },
            ..*old(config)
        }),
{
    if config.message_target.is_none() {
        config.message_target = Some(hidden_hwnd);
    }
}

/// Sets the colours of tooltips.
pub fn set_tooltip_theme(config: &mut OverlayConfig, bg: u32, fg: u32)
    ensures
        *final(config) == (OverlayConfig { tooltip_theme: Some(TooltipTheme { bg, fg }), ..*old(config) }),
{
    config.tooltip_theme = Some(TooltipTheme { bg, fg });
}

/// Connects the badges to the tags. Only the first call counts.
pub fn set_tag_store<T>(slot: &mut Option<T>, store: T)
    ensures
        *final(slot) == (match *old(slot) {
            Some(earlier) => Some(earlier),
            None => Some(store),
        }),
{
    if slot.is_none() {
        *slot = Some(store);
    }
}

/// A message to a window.
#[derive(Debug, Clone, Copy, PartialEq, Eq, Structural)]
pub struct PostedMessage {
    pub to: isize,
    pub msg: u32,
    pub wparam: isize,
}

/// The message that asks to edit the tag of window `target`. There is none while
/// nothing is connected.
pub fn request_edit_tag(config: &OverlayConfig, target: isize) -> (message: Option<PostedMessage>)
    ensures
        message == (match config.message_target {
            Some(to) => Some(PostedMessage { to, msg: WM_APP_EDIT_TAG, wparam: target }),
            None => None,
        }),
{
    match config.message_target {
        Some(to) => Some(PostedMessage { to, msg: WM_APP_EDIT_TAG, wparam: target }),
        None => None,
    }
}

// ---------------------------------------------------------------------
// Badges and their windows
// ---------------------------------------------------------------------
/// What is known of a badge.
#[derive(Debug, Clone, Copy, PartialEq, Eq, Structural)]
pub struct OverlayState {
    /// Window that carries the badge.
    pub target_hwnd: isize,
    /// Whether the system was asked to tell when the pointer leaves the badge.
    pub tracking: bool,
}

/// Badges by their own window handles.
pub type TargetMap = HashMap<isize, OverlayState>;

/// Window that carries a badge, or 0 for a badge that is not known.
pub open spec fn target_of(map: Map<isize, OverlayState>, overlay: isize) -> isize {
    if map.contains_key(overlay) {
        map[overlay].target_hwnd
    } else {
        0
    }
}

/// The badges with the tracking of one of them set.
pub open spec fn with_tracking(map: Map<isize, OverlayState>, overlay: isize, tracking: bool)
    -> Map<isize, OverlayState> {
    if map.contains_key(overlay) {
        map.insert(overlay, OverlayState { tracking, ..map[overlay] })
    } else {
        map
    }
}

/// Window that carries a badge.
pub fn get_target_hwnd(map: &TargetMap, overlay: isize) -> (target: isize)
    ensures
        target == target_of(map@, overlay),
{
    match map.get(&overlay) {
        Some(state) => state.target_hwnd,
        None => 0,
    }
}

/// What a click on a badge asks for: to edit the tag of its window. A badge without
/// a window asks for nothing.
pub fn click_request(config: &OverlayConfig, map: &TargetMap, overlay: isize) -> (message: Option<
    PostedMessage,
>)
    ensures
        message == (match config.message_target {
            Some(to) => if target_of(map@, overlay) == 0 {
                None
            } else {
                Some(PostedMessage { to, msg: WM_APP_EDIT_TAG, wparam: target_of(map@, overlay) })
            },
            None => None,
        }),
{
    let target: isize = get_target_hwnd(map, overlay);
    if target == 0 {
        None
    } else {
        request_edit_tag(config, target)
    }
}

/// A new badge.
pub fn register_overlay(map: &mut TargetMap, overlay: isize, target: isize)
    ensures
        final(map)@ == old(map)@.insert(
            overlay,
            OverlayState { target_hwnd: target, tracking: false },
        ),
{
    map.insert(overlay, OverlayState { target_hwnd: target, tracking: false });
}

/// A badge is gone.
pub fn unregister_overlay(map: &mut TargetMap, overlay: isize)
    ensures
        final(map)@ == old(map)@.remove(overlay),
{
    map.remove(&overlay);
}

fn set_tracking(map: &mut TargetMap, overlay: isize, tracking: bool)
    ensures
        final(map)@ == with_tracking(old(map)@, overlay, tracking),
{
    let known: Option<OverlayState> = match map.get(&overlay) {
        Some(state) => Some(*state),
        None => None,
    };
    if let Some(state) = known {
        map.insert(overlay, OverlayState { target_hwnd: state.target_hwnd, tracking });
    }
}

/// The pointer moves over a badge. Returns whether the system is to be asked to
/// tell when it leaves, which is once for every visit.
pub fn begin_hover(map: &mut TargetMap, overlay: isize) -> (should_arm: bool)
    ensures
        should_arm == (old(map)@.contains_key(overlay) && !old(map)@[overlay].tracking),
        final(map)@ == with_tracking(old(map)@, overlay, true),
{
    let should_arm: bool = match map.get(&overlay) {
        Some(state) => !state.tracking,
        None => false,
    };
    set_tracking(map, overlay, true);
    should_arm
}

/// The system could not be asked: the next move of the pointer tries again.
pub fn hover_not_armed(map: &mut TargetMap, overlay: isize)
    ensures
        final(map)@ == with_tracking(old(map)@, overlay, false),
{
    set_tracking(map, overlay, false);
}

/// The pointer has left a badge. Returns the tooltip to close, if one is open;
/// 0 stands for none.
pub fn handle_mouse_leave(map: &mut TargetMap, overlay: isize, tooltip: isize) -> (close: Option<
    isize,
>)
    ensures
        final(map)@ == with_tracking(old(map)@, overlay, false),
        close == open_tooltip(tooltip),
{
    set_tracking(map, overlay, false);
    tooltip_to_close(tooltip)
}

/// The tooltip that a badge holds; 0 stands for none.
pub open spec fn open_tooltip(tooltip: isize) -> Option<isize> {
    if tooltip != 0 {
        Some(tooltip)
    } else {
        None
    }
}

fn tooltip_to_close(tooltip: isize) -> (close: Option<isize>)
    ensures
        close == open_tooltip(tooltip),
{
    if tooltip != 0 {
        Some(tooltip)
    } else {
        None
    }
}

/// After a visit that ended, and after one that could not be tracked, the next
/// visit is tracked again; during a visit the system is asked only once.
pub proof fn every_visit_is_tracked(map: Map<isize, OverlayState>, overlay: isize)
    requires
        map.contains_key(overlay),
    ensures
        with_tracking(map, overlay, true)[overlay].tracking,
        !with_tracking(with_tracking(map, overlay, true), overlay, false)[overlay].tracking,
        target_of(with_tracking(map, overlay, true), overlay) == target_of(map, overlay),
        target_of(with_tracking(map, overlay, false), overlay) == target_of(map, overlay),
{
}

/// A badge's window, whether the badge is shown, and whether it is still there.
#[derive(Debug, Clone, Copy, PartialEq, Eq, Structural)]
pub struct Overlay {
    pub hwnd: isize,
    pub target_hwnd: isize,
    pub running: bool,
    pub visible: bool,
}

/// What hiding a badge asks for.
#[derive(Debug, Clone, Copy, PartialEq, Eq, Structural)]
pub struct HidePlan {
    /// Hide the badge's window.
    pub hide_window: bool,
    /// Close this tooltip.
    pub close_tooltip: Option<isize>,
}

impl Overlay {
    /// A badge that was just made, and is shown.
    pub fn new(hwnd: isize, target_hwnd: isize) -> (overlay: Self)
        ensures
            overlay == (Overlay { hwnd, target_hwnd, running: true, visible: true }),
    {
        Overlay { hwnd, target_hwnd, running: true, visible: true }
    }

    /// Hides the badge and its tooltip. A badge that is hidden already is left
    /// alone.
    pub fn hide_badge(&mut self, tooltip: isize) -> (plan: HidePlan)
        ensures
            *final(self) == (Overlay { visible: false, ..*old(self) }),
            plan == (HidePlan {
                hide_window: old(self).visible,
                close_tooltip: if old(self).visible {
                    open_tooltip(tooltip)
                } else {
                    None
                },
            }),
    {
        if !self.visible {
            return HidePlan { hide_window: false, close_tooltip: None };
        }
        self.visible = false;
        HidePlan { hide_window: true, close_tooltip: tooltip_to_close(tooltip) }
    }

    /// Shows the badge. Returns whether its window has to be shown; one that is
    /// shown already is left alone.
    pub fn show(&mut self) -> (show_window: bool)
        ensures
            *final(self) == (Overlay { visible: true, ..*old(self) }),
            show_window == !old(self).visible,
    {
        if self.visible {
            return false;
        }
        self.visible = true;
        true
    }

    /// Whether the badge is shown.
    pub fn is_visible(&self) -> (visible: bool)
        ensures
            visible == self.visible,
    {
        self.visible
    }

    /// Whether the badge is still there.
    pub fn is_running(&self) -> (running: bool)
        ensures
            running == self.running,
    {
        self.running
    }

    /// Ends the badge. Returns the tooltip to close.
    pub fn end(&mut self, tooltip: isize) -> (close: Option<isize>)
        ensures
            *final(self) == (Overlay { running: false, ..*old(self) }),
            close == open_tooltip(tooltip),
    {
        self.running = false;
        tooltip_to_close(tooltip)
    }
}

/// Style of a window that stays above the others.
pub const WS_EX_TOPMOST: u32 = 0x0000_0008;

/// Style of a window that stands in no task bar.
pub const WS_EX_TOOLWINDOW: u32 = 0x0000_0080;

/// Style of a window with a transparent ground.
pub const WS_EX_LAYERED: u32 = 0x0008_0000;

/// Style of a window that never takes the keyboard.
pub const WS_EX_NOACTIVATE: u32 = 0x0800_0000;

/// Style of a badge's window.
pub fn overlay_style(always_top: bool) -> (style: u32)
    ensures
        style == WS_EX_LAYERED + WS_EX_NOACTIVATE + WS_EX_TOOLWINDOW + (if always_top {
            WS_EX_TOPMOST as int
        } else {
            0
        }),
{
    if always_top {
        WS_EX_LAYERED + WS_EX_NOACTIVATE + WS_EX_TOOLWINDOW + WS_EX_TOPMOST
    } else {
        WS_EX_LAYERED + WS_EX_NOACTIVATE + WS_EX_TOOLWINDOW
    }
}

/// Style of a tooltip's window.
pub fn tooltip_style(always_top: bool) -> (style: u32)
    ensures
        style == WS_EX_NOACTIVATE + WS_EX_TOOLWINDOW + (if always_top {
            WS_EX_TOPMOST as int
        } else {
            0
        }),
{
    if always_top {
        WS_EX_NOACTIVATE + WS_EX_TOOLWINDOW + WS_EX_TOPMOST
    } else {
        WS_EX_NOACTIVATE + WS_EX_TOOLWINDOW
    }
}

/// Whether a rectangle holds anything.
pub open spec fn has_area(rc: Rect) -> bool {
    rc.left < rc.right && rc.top < rc.bottom
}

/// Where a new badge goes: the upper left corner of its window. A window without
/// extent gets none.
pub fn place_badge(target: Rect) -> (place: Option<(i32, i32)>)
    ensures
        place == (if has_area(target) {
            Some((target.left, target.top))
        } else {
            None
        }),
{
    if target.left < target.right && target.top < target.bottom {
        Some((target.left, target.top))
    } else {
        None
    }
}

// ---------------------------------------------------------------------
// Following a window
// ---------------------------------------------------------------------
/// The window behind which another one is put.
#[derive(Debug, Clone, Copy, PartialEq, Eq, Structural)]
pub enum InsertAfter {
    /// None: in front of everything.
    Topmost,
    /// None: in front of its own kind.
    Top,
    Window(isize),
}

/// How a window of another program is brought to the front.
#[derive(Debug, Clone, Copy, PartialEq, Eq, Structural)]
pub struct RaisePlan {
    /// Bring it back from the task bar first.
    pub restore: bool,
    /// Let it take what the user types.
    pub foreground: bool,
    pub insert_after: InsertAfter,
    pub keep_place: bool,
    pub keep_size: bool,
}

/// A window comes to the front of its own kind, but not above the windows that
/// stay on top. It keeps its place and its size.
pub open spec fn raised(restore: bool) -> RaisePlan {
    RaisePlan {
        restore,
        foreground: true,
        insert_after: InsertAfter::Top,
        keep_place: true,
        keep_size: true,
    }
}

/// How a window is brought to the front; `restore` tells that it stands in the
/// task bar.
pub fn raise_plan(restore: bool) -> (plan: RaisePlan)
    ensures
        plan == raised(restore),
{
    RaisePlan {
        restore,
        foreground: true,
        insert_after: InsertAfter::Top,
        keep_place: true,
        keep_size: true,
    }
}

/// How a window is put right above its anchor.
#[derive(Debug, Clone, Copy, PartialEq, Eq, Structural)]
pub struct StackPlan {
    /// Whether to move it first among the windows that stay above the others, or
    /// out of them.
    pub band: Option<bool>,
    pub insert_after: InsertAfter,
}

/// How a window is put right above its anchor. It stays above every window when
/// `always_top` says so or the anchor does; `previous` is the window in front of
/// the anchor, 0 for none.
pub open spec fn stacked(
    always_top: bool,
    anchor_topmost: bool,
    own_topmost: bool,
    previous: isize,
) -> StackPlan {
    let want_topmost = always_top || anchor_topmost;
    StackPlan {
        band: if want_topmost != own_topmost {
            Some(want_topmost)
        } else {
            None
        },
        insert_after: if always_top {
            InsertAfter::Topmost
        } else if previous != 0 {
            InsertAfter::Window(previous)
        } else {
            InsertAfter::Top
        },
    }
}

/// How a window is put right above its anchor.
pub fn stack_plan(always_top: bool, anchor_topmost: bool, own_topmost: bool, previous: isize) -> (
plan: StackPlan)
    ensures
        plan == stacked(always_top, anchor_topmost, own_topmost, previous),
{
    let want_topmost: bool = always_top || anchor_topmost;
    StackPlan {
        band: if want_topmost != own_topmost {
            Some(want_topmost)
        } else {
            None
        },
        insert_after: if always_top {
            InsertAfter::Topmost
        } else if previous != 0 {
            InsertAfter::Window(previous)
        } else {
            InsertAfter::Top
        },
    }
}

/// After the plan was carried out, the window is among those that stay above the
/// others exactly when it should be.
pub proof fn bands_agree_after_stacking(
    always_top: bool,
    anchor_topmost: bool,
    own_topmost: bool,
    previous: isize,
)
    ensures
        ({
            let plan = stacked(always_top, anchor_topmost, own_topmost, previous);
            let after = match plan.band {
                Some(topmost) => topmost,
                None => own_topmost,
            };
            after == (always_top || anchor_topmost)
        }),
{
}

/// What the system says about the window that carries a badge.
#[derive(Debug, Clone, Copy, PartialEq, Eq, Structural)]
pub struct TargetWindow {
    pub minimized: bool,
    pub visible: bool,
    /// The part that the user sees.
    pub frame: Option<Rect>,
    /// The whole window, with its invisible edges.
    pub window: Option<Rect>,
    pub topmost: bool,
    /// The window in front of it, 0 for none.
    pub previous: isize,
}

/// How a badge follows its window.
#[derive(Debug, Clone, Copy, PartialEq, Eq, Structural)]
pub enum SyncPlan {
    /// The window cannot be seen: hide the badge.
    Hide,
    /// The window has no extent: leave the badge alone.
    Keep,
    /// Put the badge at this place.
    Move { left: i32, top: i32, stack: StackPlan },
    /// The window has no place: it is gone.
    Lost,
}

/// The place of the window. While it moves the visible part lags behind, so that
/// at the end of a move the whole window comes first.
pub open spec fn place_of(target: TargetWindow, force: bool) -> Option<Rect> {
    if force {
        if target.window is Some {
            target.window
        } else {
            target.frame
        }
    } else if target.frame is Some {
        target.frame
    } else {
        target.window
    }
}

/// How a badge follows its window.
pub open spec fn synced(target: TargetWindow, force: bool, always_top: bool, own_topmost: bool)
    -> SyncPlan {
    if target.minimized || !target.visible {
        SyncPlan::Hide
    } else {
        match place_of(target, force) {
            Some(place) => if has_area(place) {
                SyncPlan::Move {
                    left: place.left,
                    top: place.top,
                    stack: stacked(always_top, target.topmost, own_topmost, target.previous),
                }
            } else {
                SyncPlan::Keep
            },
            None => SyncPlan::Lost,
        }
    }
}

/// How a badge follows its window.
pub fn sync_position(target: &TargetWindow, force: bool, always_top: bool, own_topmost: bool) -> (
plan: SyncPlan)
    ensures
        plan == synced(*target, force, always_top, own_topmost),
{
    if target.minimized || !target.visible {
        return SyncPlan::Hide;
    }
    let place: Option<Rect> = if force {
        if target.window.is_some() {
            target.window
        } else {
            target.frame
        }
    } else if target.frame.is_some() {
        target.frame
    } else {
        target.window
    };
    match place {
        Some(place) => {
            if place.left < place.right && place.top < place.bottom {
                SyncPlan::Move {
                    left: place.left,
                    top: place.top,
                    stack: stack_plan(always_top, target.topmost, own_topmost, target.previous),
                }
            } else {
                SyncPlan::Keep
            }
        },
        None => SyncPlan::Lost,
    }
}

/// A badge is hidden exactly while its window cannot be seen.
pub proof fn badges_hide_with_their_windows(
    target: TargetWindow,
    force: bool,
    always_top: bool,
    own_topmost: bool,
)
    ensures
        synced(target, force, always_top, own_topmost) == SyncPlan::Hide <==> target.minimized
            || !target.visible,
{
}

// ---------------------------------------------------------------------
// Pointing at a badge
// ---------------------------------------------------------------------
/// Whether a point lies in the triangle with its right angle at the origin.
pub open spec fn in_triangle(x: int, y: int, size: int) -> bool {
    x >= 0 && y >= 0 && x + y <= size
}

/// Whether a point lies in the badge's triangle.
pub fn point_in_badge_triangle(cx: i32, cy: i32, size: i32) -> (inside: bool)
    ensures
        inside == in_triangle(cx as int, cy as int, size as int),
{
    cx >= 0 && cy >= 0 && cx as i64 + cy as i64 <= size as i64
}

/// Whether the badge in the rectangle `win` takes the pointer at `(x, y)`: on
/// its triangle and on the strip with the title, but not beside them.
pub open spec fn takes_pointer(win: Rect, x: int, y: int) -> bool {
    let cx = x - win.left;
    let cy = y - win.top;
    let w = win.right - win.left;
    ||| in_triangle(cx - BADGE_OFFSET, cy - BADGE_OFFSET, BADGE_SIZE as int)
    ||| BADGE_WIN_SIZE <= cx < w && TITLE_Y <= cy < TITLE_Y + TITLE_H
}

/// Whether the badge in the rectangle `win` takes the pointer at `(x, y)`.
pub fn hit_test(win: Rect, x: i32, y: i32) -> (hit: bool)
    ensures
        hit == takes_pointer(win, x as int, y as int),
{
    let cx: i64 = x as i64 - win.left as i64;
    let cy: i64 = y as i64 - win.top as i64;
    let w: i64 = win.right as i64 - win.left as i64;
    let bx: i64 = cx - BADGE_OFFSET as i64;
    let by: i64 = cy - BADGE_OFFSET as i64;
    let in_badge: bool = bx >= 0 && by >= 0 && bx + by <= BADGE_SIZE as i64;
    let in_title: bool = BADGE_WIN_SIZE as i64 <= cx && cx < w && TITLE_Y as i64 <= cy && cy
        < (TITLE_Y + TITLE_H) as i64;
    in_badge || in_title
}

/// The part of a badge that takes the pointer lies within its rectangle, if that
/// is at least as large as a badge without title.
pub proof fn pointer_is_taken_inside_only(win: Rect, x: int, y: int)
    requires
        win.right - win.left >= BADGE_WIN_SIZE,
        win.bottom - win.top >= BADGE_WIN_SIZE,
        takes_pointer(win, x, y),
    ensures
        win.left <= x < win.right,
        win.top <= y < win.bottom,
{
}

/// The point in a message: two signed numbers of sixteen bits, the horizontal one
/// in the low half.
pub fn lparam_point(lparam: isize) -> (point: (i32, i32))
    ensures
        point.0 == (lparam as u16) as i16,
        point.1 == ((lparam >> 16) as u16) as i16,
{
    ((lparam as u16) as i16 as i32, ((lparam >> 16) as u16) as i16 as i32)
}

// ---------------------------------------------------------------------
// What a badge shows
// ---------------------------------------------------------------------
/// The colour of a badge without a tag.
pub fn fallback_color() -> (rgba: [u8; 4])
    ensures
        rgba == tag::color_rgba(tag::TagColor::Orange),
{
    tag::TagColor::Orange.as_rgba()
}

/// The tag of the window that carries a badge, if the badge, its window and the
/// tags are known.
pub open spec fn tag_of(map: Map<isize, OverlayState>, overlay: isize, store: Option<&TagStore>)
    -> Option<Tag> {
    let target = target_of(map, overlay);
    if target != 0 && store is Some && store->0@.contains_key(target) {
        Some(store->0@[target])
    } else {
        None
    }
}

fn find_badge_tag<'a>(map: &TargetMap, overlay: isize, store: Option<&'a TagStore>) -> (found:
    Option<&'a Tag>)
    ensures
        found is Some <==> tag_of(map@, overlay, store) is Some,
        found matches Some(t) ==> tag_of(map@, overlay, store) == Some(*t),
{
    let target: isize = get_target_hwnd(map, overlay);
    if target == 0 {
        return None;
    }
    match store {
        Some(store) => store.get(&target),
        None => None,
    }
}

/// The colour of a badge: that of its tag, or orange.
pub fn tag_color_rgba(map: &TargetMap, overlay: isize, store: Option<&TagStore>) -> (rgba: [u8; 4])
    ensures
        rgba == (match tag_of(map@, overlay, store) {
            Some(t) => tag::color_rgba(t.color),
            None => tag::color_rgba(tag::TagColor::Orange),
        }),
{
    match find_badge_tag(map, overlay, store) {
        Some(t) => t.color.as_rgba(),
        None => fallback_color(),
    }
}

/// The colour of the line along a badge: red, green and blue of the border colour
/// of the theme, opaque. Without a theme it is a dark grey.
pub fn badge_stroke_rgba(border: Option<u32>) -> (rgba: [u8; 4])
    ensures
        rgba[3] == 255,
        match border {
            Some(c) => rgba[0] == theme::channel(c, 0) && rgba[1] == theme::channel(c, 1)
                && rgba[2] == theme::channel(c, 2),
            None => rgba[0] == 60 && rgba[1] == 60 && rgba[2] == 60,
        },
{
    match border {
        Some(c) => {
            let rgb: [u8; 3] = colorref_to_rgb(c);
            [rgb[0], rgb[1], rgb[2], 255]
        },
        None => [60, 60, 60, 255],
    }
}

/// Red, green and blue of a colour.
pub fn colorref_to_rgb(c: u32) -> (rgb: [u8; 3])
    ensures
        rgb[0] == theme::channel(c, 0),
        rgb[1] == theme::channel(c, 1),
        rgb[2] == theme::channel(c, 2),
{
    [(c % 256) as u8, ((c / 256) % 256) as u8, ((c / 65536) % 256) as u8]
}

/// The title that a badge shows for a tag: the tag's own, or else that of the
/// window, without white space at its ends and cut where it is long. `None` when
/// nothing is left.
pub open spec fn shown_title(tag: Tag) -> Option<Seq<char>> {
    let raw = if tag.title@.len() == 0 {
        tag.window_title@
    } else {
        tag.title@
    };
    if text::trimmed(raw).len() == 0 {
        None
    } else {
        Some(badge::cut_to_chars(text::trimmed(raw), TITLE_MAX_CHARS as int))
    }
}

/// The title that the badge of window `target` shows.
pub fn title_text(config: &OverlayConfig, store: Option<&TagStore>, target: isize) -> (title:
    Option<String>)
    ensures
        ({
            let known = config.show_title && store is Some && store->0@.contains_key(target);
            let shown = if known {
                shown_title(store->0@[target])
            } else {
                None
            };
            match title {
                Some(t) => shown == Some(t@),
                None => shown is None,
            }
        }),
{
    if !config.show_title {
        return None;
    }
    let tag: &Tag = match store {
        Some(store) => match store.get(&target) {
            Some(tag) => tag,
            None => {
                return None;
            },
        },
        None => {
            return None;
        },
    };
    let raw: &str = if tag.title.as_str().is_empty() {
        tag.window_title.as_str()
    } else {
        tag.title.as_str()
    };
    let trimmed: &str = trim(raw);
    if trimmed.is_empty() {
        return None;
    }
    Some(truncate_title(trimmed, TITLE_MAX_CHARS))
}

/// The title that a badge shows. A badge without a window shows none.
pub fn badge_title(
    config: &OverlayConfig,
    map: &TargetMap,
    store: Option<&TagStore>,
    overlay: isize,
) -> (title: Option<String>)
    ensures
        ({
            let target = target_of(map@, overlay);
            let known = target != 0 && config.show_title && store is Some
                && store->0@.contains_key(target);
            let shown = if known {
                shown_title(store->0@[target])
            } else {
                None
            };
            match title {
                Some(t) => shown == Some(t@),
                None => shown is None,
            }
        }),
{
    let target: isize = get_target_hwnd(map, overlay);
    if target == 0 {
        None
    } else {
        title_text(config, store, target)
    }
}

/// Width of a title: as measured, or twelve pixels for every unit when that
/// failed.
pub fn title_width(measured: i32, units: i32) -> (width: i32)
    requires
        0 <= units,
        units * 12 <= i32::MAX,
    ensures
        width == (if units == 0 {
            0
        } else if measured <= 0 {
            units * 12
        } else {
            measured as int
        }),
{
    if units == 0 {
        0
    } else if measured <= 0 {
        units * 12
    } else {
        measured
    }
}

/// Measures of a badge.
#[derive(Debug, Clone, Copy, PartialEq, Eq, Structural)]
pub struct BadgeLayout {
    /// Width of the badge.
    pub width: i32,
    /// Width of the strip with the title, 0 for none.
    pub pill_width: i32,
}

/// Measures of a badge, with a title of this width or without.
pub open spec fn layout_of(title: Option<i32>) -> BadgeLayout {
    match title {
        Some(w) => BadgeLayout {
            width: (BADGE_WIN_SIZE + w + TITLE_PAD_X * 2) as i32,
            pill_width: (w + TITLE_PAD_X * 2) as i32,
        },
        None => BadgeLayout { width: BADGE_WIN_SIZE, pill_width: 0 },
    }
}

/// Whether a title is narrow enough for a badge.
pub open spec fn title_fits(title: Option<i32>) -> bool {
    title matches Some(w) ==> 0 <= w && BADGE_WIN_SIZE + w + TITLE_PAD_X * 2 <= i32::MAX
}

/// Measures of a badge.
pub fn badge_layout(title: Option<i32>) -> (layout: BadgeLayout)
    requires
        title_fits(title),
    ensures
        layout == layout_of(title),
        BADGE_WIN_SIZE <= layout.width,
        layout.width == BADGE_WIN_SIZE + layout.pill_width,
{
    match title {
        Some(w) => {
            let pill_width: i32 = w + TITLE_PAD_X * 2;
            BadgeLayout { width: BADGE_WIN_SIZE + pill_width, pill_width }
        },
        None => BadgeLayout { width: BADGE_WIN_SIZE, pill_width: 0 },
    }
}

// ---------------------------------------------------------------------
// The picture of a badge
// ---------------------------------------------------------------------
/// Bytes of the picture of the triangle.
pub const TRIANGLE_BYTES: usize = 1296;

/// One byte of the picture of a badge at column `x` and row `y`: the triangle,
/// then the strip with the title, and clear everywhere else.
pub open spec fn badge_byte(
    layout: BadgeLayout,
    triangle: Seq<u8>,
    pill: Seq<u8>,
    x: int,
    y: int,
    c: int,
) -> u8 {
    if BADGE_OFFSET <= x < BADGE_OFFSET + BADGE_SIZE && BADGE_OFFSET <= y < BADGE_OFFSET
        + BADGE_SIZE {
        triangle[((y - BADGE_OFFSET) * BADGE_SIZE + (x - BADGE_OFFSET)) * 4 + c]
    } else if layout.pill_width > 0 && BADGE_WIN_SIZE <= x && TITLE_Y <= y < TITLE_Y + TITLE_H {
        pill[((y - TITLE_Y) * layout.pill_width + (x - BADGE_WIN_SIZE)) * 4 + c]
    } else {
        0
    }
}

/// The picture of a badge, row by row, four bytes to a pixel.
pub open spec fn badge_picture(layout: BadgeLayout, triangle: Seq<u8>, pill: Seq<u8>) -> Seq<u8> {
    Seq::new(
        (layout.width * BADGE_WIN_SIZE * 4) as nat,
        |i: int|
            badge_byte(
                layout,
                triangle,
                pill,
                (i / 4) % (layout.width as int),
                (i / 4) / (layout.width as int),
                i % 4,
            ),
    )
}

/// Puts the picture of a badge together from the pictures of its triangle and of
/// the strip with the title.
pub fn compose_badge(layout: &BadgeLayout, triangle: &[u8], pill: &[u8]) -> (picture: Vec<u8>)
    requires
        0 <= layout.pill_width,
        layout.width == BADGE_WIN_SIZE + layout.pill_width,
        triangle.len() == TRIANGLE_BYTES,
        pill.len() == layout.pill_width * TITLE_H * 4,
    ensures
        picture@ == badge_picture(*layout, triangle@, pill@),
{
    let width: usize = layout.width as usize;
    let pill_width: usize = layout.pill_width as usize;
    let mut picture: Vec<u8> = Vec::new();
    let ghost whole = badge_picture(*layout, triangle@, pill@);
    let mut y: usize = 0;
    while y < 22
        invariant
            y <= 22,
            width == layout.width,
            pill_width == layout.pill_width,
            0 <= layout.pill_width,
            layout.width == BADGE_WIN_SIZE + layout.pill_width,
            triangle.len() == TRIANGLE_BYTES,
            pill.len() == layout.pill_width * TITLE_H * 4,
            whole == badge_picture(*layout, triangle@, pill@),
            picture.len() == y * width * 4,
            picture@ == whole.take(y * width * 4),
        decreases 22 - y,
    {
        let mut x: usize = 0;
        while x < width
            invariant
                y < 22,
                x <= width,
                width == layout.width,
                pill_width == layout.pill_width,
                0 <= layout.pill_width,
                layout.width == BADGE_WIN_SIZE + layout.pill_width,
                triangle.len() == TRIANGLE_BYTES,
                pill.len() == layout.pill_width * TITLE_H * 4,
                whole == badge_picture(*layout, triangle@, pill@),
                picture.len() == (y * width + x) * 4,
                picture@ == whole.take((y * width + x) * 4),
            decreases width - x,
        {
            let ghost done = (y * width + x) * 4;
            proof {
                lemma_pixel(y as int, x as int, width as int);
                assert(y * width + x < 22 * width) by (nonlinear_arith)
                    requires
                        y <= 21,
                        x < width,
                ;
            }
            let mut c: usize = 0;
            while c < 4
                invariant
                    c <= 4,
                    y < 22,
                    x < width,
                    width == layout.width,
                    pill_width == layout.pill_width,
                    0 <= layout.pill_width,
                    layout.width == BADGE_WIN_SIZE + layout.pill_width,
                    triangle.len() == TRIANGLE_BYTES,
                    pill.len() == layout.pill_width * TITLE_H * 4,
                    whole == badge_picture(*layout, triangle@, pill@),
                    done == (y * width + x) * 4,
                    (done / 4) / (width as int) == y,
                    (done / 4) % (width as int) == x,
                    0 <= done,
                    done + 4 <= whole.len(),
                    picture.len() == done + c,
                    picture@ == whole.take(done + c),
                decreases 4 - c,
            {
                let byte: u8 = if 2 <= x && x < 20 && 2 <= y && y < 20 {
                    triangle[((y - 2) * 18 + (x - 2)) * 4 + c]
                } else if pill_width > 0 && 22 <= x && 3 <= y && y < 19 {
                    proof {
                        lemma_strip_index(
                            y - 3,
                            x - 22,
                            c as int,
                            pill_width as int,
                        );
                    }
                    pill[((y - 3) * pill_width + (x - 22)) * 4 + c]
                } else {
                    0
                };
                picture.push(byte);
                proof {
                    assert((done + c) / 4 == done / 4);
                    assert((done + c) % 4 == c);
                    assert(whole[done + c] == byte);
                    assert(picture@ =~= whole.take(done + c + 1));
                }
                c = c + 1;
            }
            x = x + 1;
        }
        proof {
            assert((y * width + width) * 4 == (y + 1) * width * 4) by (nonlinear_arith);
        }
        y = y + 1;
    }
    proof {
        assert(whole.take(22 * width * 4) =~= whole);
    }
    picture
}

proof fn lemma_pixel(y: int, x: int, width: int)
    requires
        0 <= x < width,
        0 <= y,
    ensures
        (((y * width + x) * 4) / 4) / width == y,
        (((y * width + x) * 4) / 4) % width == x,
        0 <= y * width,
{
    assert(0 <= y * width) by (nonlinear_arith)
        requires
            0 <= y,
            0 < width,
    ;
    let k = y * width + x;
    assert(k / width == y && k % width == x) by (nonlinear_arith)
        requires
            0 <= x < width,
            k == y * width + x,
    ;
}

proof fn lemma_strip_index(row: int, col: int, c: int, width: int)
    requires
        0 <= row < 16,
        0 <= col < width,
        0 <= c < 4,
    ensures
        0 <= row * width,
        (row * width + col) * 4 + c < width * 16 * 4,
{
    assert(0 <= row * width <= 15 * width) by (nonlinear_arith)
        requires
            0 <= row <= 15,
            0 < width,
    ;
}

// ---------------------------------------------------------------------
// The text on a badge
// ---------------------------------------------------------------------
/// `ink` over `ground`, where `mask` out of 255 parts are covered, rounded to the
/// nearest.
pub open spec fn inked(ink: int, mask: int, ground: int) -> int {
    (2 * (ink * mask + ground * (255 - mask)) + 255) / 510
}

fn ink_over(ink: u8, mask: u8, ground: u8) -> (r: u8)
    ensures
        r == inked(ink as int, mask as int, ground as int),
{
    let i: u32 = ink as u32;
    let m: u32 = mask as u32;
    let g: u32 = ground as u32;
    proof {
        assert(0 <= i * m <= 255 * m) by (nonlinear_arith)
            requires
                0 <= i <= 255,
                0 <= m,
        ;
        assert(0 <= g * (255 - m) <= 255 * (255 - m)) by (nonlinear_arith)
            requires
                0 <= g <= 255,
                0 <= m <= 255,
        ;
    }
    ((2 * (i * m + g * (255 - m)) + 255) / 510) as u8
}

/// Where nothing is covered the ground stays, and where everything is covered
/// only the ink is left.
pub proof fn ink_covers_by_its_mask(ink: int, ground: int)
    requires
        0 <= ink <= 255,
        0 <= ground <= 255,
    ensures
        inked(ink, 0, ground) == ground,
        inked(ink, 255, ground) == ink,
{
}

/// How much of the pixel at column `x` and row `y` the text covers. The mask has
/// four bytes to a pixel, and its third byte counts.
pub open spec fn coverage(strip: Place, mask: Seq<u8>, x: int, y: int) -> int {
    if strip.x <= x < strip.x + strip.width && strip.y <= y < strip.y + strip.height {
        mask[((y - strip.y) * strip.width + (x - strip.x)) * 4 + 2] as int
    } else {
        0
    }
}

/// The ink for byte `c` of a pixel: blue, green, red, and full opacity.
pub open spec fn ink_byte(rgb: [u8; 3], c: int) -> int {
    if c == 0 {
        rgb[2] as int
    } else if c == 1 {
        rgb[1] as int
    } else if c == 2 {
        rgb[0] as int
    } else {
        255
    }
}

/// A picture of this width with a text laid over it.
pub open spec fn lettered(
    picture: Seq<u8>,
    width: int,
    strip: Place,
    mask: Seq<u8>,
    rgb: [u8; 3],
) -> Seq<u8> {
    Seq::new(
        picture.len(),
        |i: int|
            inked(
                ink_byte(rgb, i % 4),
                coverage(strip, mask, (i / 4) % width, (i / 4) / width),
                picture[i] as int,
            ) as u8,
    )
}

/// Lays a text over a picture. The text comes as a mask of its strip.
pub fn overlay_text_into(
    picture: &mut Vec<u8>,
    width: i32,
    strip: &Place,
    mask: &[u8],
    rgb: &[u8; 3],
)
    requires
        0 < width,
        0 <= strip.width,
        0 <= strip.height,
        mask.len() == strip.width * strip.height * 4,
    ensures
        final(picture)@ == lettered(old(picture)@, width as int, *strip, mask@, *rgb),
{
    let ghost before = picture@;
    let ghost goal = lettered(before, width as int, *strip, mask@, *rgb);
    let n: usize = picture.len();
    let mut i: usize = 0;
    while i < n
        invariant
            i <= n == picture.len() == before.len(),
            0 < width,
            0 <= strip.width,
            0 <= strip.height,
            mask.len() == strip.width * strip.height * 4,
            goal == lettered(before, width as int, *strip, mask@, *rgb),
            forall|k: int| 0 <= k < i ==> picture[k] == goal[k],
            forall|k: int| i <= k < n ==> picture[k] == before[k],
        decreases n - i,
    {
        let x: i64 = ((i / 4) % (width as usize)) as i64;
        let y: i64 = ((i / 4) / (width as usize)) as i64;
        let c: usize = i % 4;
        proof {
            lemma_div_small((i / 4) as int, width as int);
        }
        let ink: u8 = if c == 0 {
            rgb[2]
        } else if c == 1 {
            rgb[1]
        } else if c == 2 {
            rgb[0]
        } else {
            255
        };
        let inside: bool = strip.x as i64 <= x && x < strip.x as i64 + strip.width as i64
            && strip.y as i64 <= y && y < strip.y as i64 + strip.height as i64;
        let covered: u8 = if inside {
            let col: usize = (x - strip.x as i64) as usize;
            let row: usize = (y - strip.y as i64) as usize;
            proof {
                lemma_mask_index(row as int, col as int, strip.width as int, strip.height as int);
            }
            mask[(row * strip.width as usize + col) * 4 + 2]
        } else {
            0
        };
        let value: u8 = ink_over(ink, covered, picture[i]);
        proof {
            assert(covered == coverage(
                *strip,
                mask@,
                (i as int / 4) % (width as int),
                (i as int / 4) / (width as int),
            ));
            assert(goal[i as int] == value);
        }
        picture.set(i, value);
        i = i + 1;
    }
    proof {
        assert(picture@ =~= goal);
    }
}

proof fn lemma_div_small(k: int, width: int)
    requires
        0 <= k,
        0 < width,
    ensures
        0 <= k / width <= k,
        0 <= k % width < width,
{
    assert(0 <= k / width <= k) by (nonlinear_arith)
        requires
            0 <= k,
            0 < width,
    ;
}

proof fn lemma_mask_index(row: int, col: int, width: int, height: int)
    requires
        0 <= row < height,
        0 <= col < width,
    ensures
        0 <= row * width,
        row * width + col < width * height,
        (row * width + col) * 4 + 2 < width * height * 4,
{
    assert(0 <= row * width && row * width + width <= width * height) by (nonlinear_arith)
        requires
            0 <= row < height,
            0 < width,
    ;
}

/// A text changes nothing outside its strip.
pub proof fn text_stays_in_its_strip(
    picture: Seq<u8>,
    width: int,
    strip: Place,
    mask: Seq<u8>,
    rgb: [u8; 3],
    i: int,
)
    requires
        0 <= i < picture.len(),
        !(strip.x <= (i / 4) % width < strip.x + strip.width && strip.y <= (i / 4) / width < strip.y
            + strip.height),
    ensures
        lettered(picture, width, strip, mask, rgb)[i] == picture[i],
{
    lemma_no_ink(ink_byte(rgb, i % 4), picture[i]);
}

proof fn lemma_no_ink(ink: int, ground: u8)
    ensures
        inked(ink, 0, ground as int) == ground,
{
}

/// Where the text of a badge goes.
pub fn text_strip(layout: &BadgeLayout) -> (strip: Place)
    requires
        layout.pill_width >= TITLE_PAD_X * 2,
    ensures
        strip == (Place {
            x: (BADGE_WIN_SIZE + TITLE_PAD_X) as i32,
            y: TITLE_Y,
            width: (layout.pill_width - TITLE_PAD_X * 2) as i32,
            height: TITLE_H,
        }),
{
    Place {
        x: BADGE_WIN_SIZE + TITLE_PAD_X,
        y: TITLE_Y,
        width: layout.pill_width - TITLE_PAD_X * 2,
        height: TITLE_H,
    }
}

/// The text of a badge lies on the strip with the title.
pub proof fn text_lies_on_the_strip(title: i32)
    requires
        title_fits(Some(title)),
    ensures
        ({
            let layout = layout_of(Some(title));
            let x = BADGE_WIN_SIZE + TITLE_PAD_X;
            &&& BADGE_WIN_SIZE <= x
            &&& x + (layout.pill_width - TITLE_PAD_X * 2) + TITLE_PAD_X == layout.width
        }),
{
}

/// Colours of the strip with the title.
#[derive(Debug, Clone, Copy)]
pub struct PillColors {
    pub fill: [u8; 3],
    pub stroke: [u8; 3],
    pub text: [u8; 3],
}

/// Colours of tooltips, or black on white when none were set.
pub open spec fn tooltip_colors(config: OverlayConfig) -> TooltipTheme {
    match config.tooltip_theme {
        Some(set) => set,
        None => TooltipTheme { bg: 0x00FFFFFF, fg: 0x00000000 },
    }
}

/// Colour of thin lines, or a middle grey without a theme.
pub open spec fn line_color(border: Option<u32>) -> u32 {
    match border {
        Some(c) => c,
        None => 0x00808080,
    }
}

fn tooltip_theme(config: &OverlayConfig) -> (t: TooltipTheme)
    ensures
        t == tooltip_colors(*config),
{
    match config.tooltip_theme {
        Some(set) => set,
        None => TooltipTheme { bg: 0x00FFFFFF, fg: 0x00000000 },
    }
}

/// Whether three bytes are red, green and blue of a colour.
pub open spec fn is_rgb_of(rgb: [u8; 3], c: u32) -> bool {
    rgb[0] == theme::channel(c, 0) && rgb[1] == theme::channel(c, 1) && rgb[2] == theme::channel(
        c,
        2,
    )
}

/// Colours of the strip with the title: those of the tooltip.
pub fn pill_colors(config: &OverlayConfig, border: Option<u32>) -> (colors: PillColors)
    ensures
        is_rgb_of(colors.fill, tooltip_colors(*config).bg),
        is_rgb_of(colors.stroke, line_color(border)),
        is_rgb_of(colors.text, tooltip_colors(*config).fg),
{
    let t: TooltipTheme = tooltip_theme(config);
    let line: u32 = match border {
        Some(c) => c,
        None => 0x00808080,
    };
    PillColors {
        fill: colorref_to_rgb(t.bg),
        stroke: colorref_to_rgb(line),
        text: colorref_to_rgb(t.fg),
    }
}

// ---------------------------------------------------------------------
// The tooltip
// ---------------------------------------------------------------------
/// The texts of a tooltip.
#[derive(Debug)]
pub struct TooltipText {
    pub title: String,
    pub note: String,
    /// Title and note in one, on lines of their own.
    pub text: String,
}

/// Title and note on lines of their own; the title alone when there is no note.
pub open spec fn tooltip_lines(tag: Tag) -> Seq<char> {
    if tag.note@.len() == 0 {
        tag.title@
    } else {
        tag.title@ + "\n"@ + tag.note@
    }
}

/// The tooltip to open over a badge. There is none while one is open already, nor
/// for a badge whose tag is not known.
pub fn tooltip_request(
    map: &TargetMap,
    overlay: isize,
    open: isize,
    store: Option<&TagStore>,
) -> (request: Option<TooltipText>)
    ensures
        request is Some <==> open == 0 && tag_of(map@, overlay, store) is Some,
        request matches Some(r) ==> {
            let t = tag_of(map@, overlay, store)->0;
            &&& r.title@ == t.title@
            &&& r.note@ == t.note@
            &&& r.text@ == tooltip_lines(t)
        },
{
    if open != 0 {
        return None;
    }
    match find_badge_tag(map, overlay, store) {
        Some(t) => {
            let mut text: String = t.title.clone();
            if !t.note.as_str().is_empty() {
                text.append("\n");
                text.append(t.note.as_str());
            }
            Some(TooltipText { title: t.title.clone(), note: t.note.clone(), text })
        },
        None => None,
    }
}

/// The larger of two numbers.
pub open spec fn larger(a: int, b: int) -> int {
    if a >= b {
        a
    } else {
        b
    }
}

/// The size of a text: none when it is empty.
pub open spec fn text_size(empty: bool, measured: (i32, i32)) -> (int, int) {
    if empty {
        (0, 0)
    } else {
        (measured.0 as int, measured.1 as int)
    }
}

/// The size of a tooltip: title above note, four pixels between them, eleven
/// around them.
pub open spec fn tooltip_extent(
    title_empty: bool,
    note_empty: bool,
    title: (i32, i32),
    note: (i32, i32),
) -> (int, int) {
    let t = text_size(title_empty, title);
    let n = text_size(note_empty, note);
    let gap = if !title_empty && !note_empty {
        4int
    } else {
        0
    };
    (larger(larger(t.0, n.0), 120) + 22, larger(t.1 + gap + n.1, 20) + 22)
}

/// The place of a tooltip of this size for a pointer at `(x, y)`: right below the
/// pointer, or above it where there is no room below, and always in the work
/// area from its upper left on.
pub open spec fn tooltip_place(x: int, y: int, size: (int, int), work: Option<Rect>) -> (
    int,
    int,
) {
    match work {
        Some(work) => {
            let below = y + 16;
            let turned = if below + size.1 > work.bottom {
                y - size.1 - 8
            } else {
                below
            };
            (
                geo::kept_inside(x - 10, size.0, work.left as int, work.right as int),
                larger(turned, work.top as int),
            )
        },
        None => (x - 10, y + 16),
    }
}

/// The size of a tooltip, from the measures of its texts.
pub fn tooltip_size(
    title_empty: bool,
    note_empty: bool,
    title: (i32, i32),
    note: (i32, i32),
) -> (size: (i32, i32))
    requires
        geo::is_coordinate(title.0 + 22),
        geo::is_coordinate(note.0 + 22),
        geo::is_coordinate(title.1 + 26),
        geo::is_coordinate(note.1 + 26),
        geo::is_coordinate(title.1 + note.1 + 26),
        title.1 >= 0,
        note.1 >= 0,
    ensures
        (size.0 as int, size.1 as int) == tooltip_extent(title_empty, note_empty, title, note),
{
    let (tw, th) = if title_empty {
        (0i32, 0i32)
    } else {
        title
    };
    let (nw, nh) = if note_empty {
        (0i32, 0i32)
    } else {
        note
    };
    let widest: i32 = if tw >= nw {
        tw
    } else {
        nw
    };
    let width: i32 = if widest >= 120 {
        widest
    } else {
        120
    };
    let gap: i32 = if !title_empty && !note_empty {
        4
    } else {
        0
    };
    let content: i32 = th + gap + nh;
    let height: i32 = if content >= 20 {
        content
    } else {
        20
    };
    (width + 22, height + 22)
}

/// The place of a tooltip.
pub fn place_tooltip(x: i32, y: i32, size: (i32, i32), work: Option<Rect>) -> (place: (i32, i32))
    requires
        geo::is_coordinate(x - 10),
        geo::is_coordinate(y + 16),
        geo::is_coordinate(x - 10 + size.0),
        geo::is_coordinate(y + 16 + size.1),
        geo::is_coordinate(y - size.1),
        geo::is_coordinate(y - size.1 - 8),
        work matches Some(w) ==> geo::is_coordinate(w.right - size.0),
    ensures
        (place.0 as int, place.1 as int) == tooltip_place(
            x as int,
            y as int,
            (size.0 as int, size.1 as int),
            work,
        ),
{
    match work {
        Some(work) => {
            let below: i32 = y + 16;
            let turned: i32 = if below + size.1 > work.bottom {
                y - size.1 - 8
            } else {
                below
            };
            let left: i32 = x - 10;
            let back: i32 = if left + size.0 > work.right {
                work.right - size.0
            } else {
                left
            };
            (
                if back < work.left {
                    work.left
                } else {
                    back
                },
                if turned >= work.top {
                    turned
                } else {
                    work.top
                },
            )
        },
        None => (x - 10, y + 16),
    }
}

/// A tooltip that fits below or above the pointer, and is no wider than the work
/// area, lies in it as a whole.
pub proof fn tooltips_stay_on_the_screen(x: int, y: int, size: (int, int), work: Rect)
    requires
        0 <= size.0 <= work.right - work.left,
        0 <= size.1,
        work.top <= y + 16,
        y + 16 + size.1 <= work.bottom || (work.top <= y - size.1 - 8 && y - 8 <= work.bottom),
    ensures
        work.left <= tooltip_place(x, y, size, Some(work)).0,
        tooltip_place(x, y, size, Some(work)).0 + size.0 <= work.right,
        work.top <= tooltip_place(x, y, size, Some(work)).1,
        tooltip_place(x, y, size, Some(work)).1 + size.1 <= work.bottom,
{
}

/// How a tooltip is painted.
#[derive(Debug)]
pub struct TooltipPaint {
    pub bg: u32,
    pub fg: u32,
    pub border: u32,
    /// The rounded rectangle.
    pub frame: Rect,
    pub radius: i32,
    pub title: String,
    pub note: String,
}

/// How the window of a tooltip with this text is painted.
pub fn paint_tooltip(config: &OverlayConfig, border: Option<u32>, client: Rect, text: &str) -> (
paint: TooltipPaint)
    requires
        client.right > i32::MIN,
        client.bottom > i32::MIN,
    ensures
        paint.bg == tooltip_colors(*config).bg,
        paint.fg == tooltip_colors(*config).fg,
        paint.border == line_color(border),
        paint.frame == (Rect {
            right: (client.right - 1) as i32,
            bottom: (client.bottom - 1) as i32,
            ..client
        }),
        paint.radius == 6,
        paint.title@ == text::without_returns(text@.take(text::line_end(text@))),
        paint.note@ == (if text::line_end(text@) < text@.len() {
            text@.skip(text::line_end(text@) + 1)
        } else {
            Seq::empty()
        }),
{
    let t: TooltipTheme = tooltip_theme(config);
    let (title, note) = text::split_first_line(text);
    TooltipPaint {
        bg: t.bg,
        fg: t.fg,
        border: match border {
            Some(c) => c,
            None => 0x00808080,
        },
        frame: Rect {
            left: client.left,
            top: client.top,
            right: client.right - 1,
            bottom: client.bottom - 1,
        },
        radius: 6,
        title,
        note,
    }
}

/// Space around the texts of a tooltip.
pub const TOOLTIP_MARGIN: i32 = 10;

/// Where the title of a tooltip goes.
pub fn tooltip_title_rect(client: Rect) -> (rc: Rect)
    requires
        client.right >= i32::MIN + TOOLTIP_MARGIN,
        client.bottom >= i32::MIN + TOOLTIP_MARGIN,
    ensures
        rc == (Rect {
            left: TOOLTIP_MARGIN,
            top: TOOLTIP_MARGIN,
            right: (client.right - TOOLTIP_MARGIN) as i32,
            bottom: (client.bottom - TOOLTIP_MARGIN) as i32,
        }),
{
    Rect {
        left: TOOLTIP_MARGIN,
        top: TOOLTIP_MARGIN,
        right: client.right - TOOLTIP_MARGIN,
        bottom: client.bottom - TOOLTIP_MARGIN,
    }
}

/// Where the note of a tooltip goes, below a title of this height, if there is
/// one.
pub fn tooltip_note_rect(client: Rect, title_height: Option<i32>) -> (rc: Rect)
    requires
        client.right >= i32::MIN + TOOLTIP_MARGIN,
        client.bottom >= i32::MIN + TOOLTIP_MARGIN,
        title_height matches Some(h) ==> geo::is_coordinate(h + 14),
    ensures
        rc == (Rect {
            left: TOOLTIP_MARGIN,
            top: (match title_height {
                Some(h) => TOOLTIP_MARGIN + (h + 4),
                None => TOOLTIP_MARGIN as int,
            }) as i32,
            right: (client.right - TOOLTIP_MARGIN) as i32,
            bottom: (client.bottom - TOOLTIP_MARGIN) as i32,
        }),
{
    Rect {
        left: TOOLTIP_MARGIN,
        top: match title_height {
            Some(h) => {
                if h >= 0 {
                    h + 14
                } else {
                    TOOLTIP_MARGIN + (h + 4)
                }
            },
            None => TOOLTIP_MARGIN,
        },
        right: client.right - TOOLTIP_MARGIN,
        bottom: client.bottom - TOOLTIP_MARGIN,
    }
}

/// What a tooltip shows is what the tag says: painting the text of a tooltip
/// gives its title and its note again, if the title has one line and no carriage
/// return at its end.
pub proof fn tooltip_text_is_read_back(tag: Tag)
    requires
        forall|i: int| 0 <= i < tag.title@.len() ==> tag.title@[i] != '\n',
        tag.title@.len() > 0 ==> tag.title@.last() != '\r',
    ensures
        ({
            let text = tooltip_lines(tag);
            let end = text::line_end(text);
            &&& text::without_returns(text.take(end)) == tag.title@
            &&& (if end < text.len() {
                text.skip(end + 1)
            } else {
                Seq::empty()
            }) == tag.note@
        }),
{
    reveal_strlit("\n");
    let text = tooltip_lines(tag);
    let end = text::line_end(text);
    text::lemma_line_end(text);
    let n = tag.title@.len() as int;
    if tag.note@.len() == 0 {
        assert(end == n);
        assert(text.take(end) =~= tag.title@);
        assert(tag.note@ =~= Seq::<char>::empty());
    } else {
        assert(text[n] == '\n');
        if end < n {
            assert(text[end] == tag.title@[end]);
        }
        assert(end == n);
        assert(text.take(end) =~= tag.title@);
        assert(text.skip(end + 1) =~= tag.note@);
    }
}

} // verus!
