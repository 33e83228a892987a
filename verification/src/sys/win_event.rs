//! What happens to windows of other programs, and which of it matters.

use crate::common::WM_APP_WINEVENT;
use vstd::prelude::*;

verus! {

/// What a badge does when something happens to its window.
#[derive(Debug, Clone, Copy, PartialEq, Eq, Structural)]
pub enum WinEventAction {
    /// Follow the window.
    Sync,
    Hide,
    Show,
    /// Come above the window again.
    BringToTop,
    /// The window is gone.
    Forget,
    /// The user begins to move or resize the window: look at it more often.
    MoveStart,
    /// The user has moved or resized the window: take the final place.
    MoveEnd,
    Ignore,
}

pub const EVENT_SYSTEM_FOREGROUND: u32 = 0x0003;

pub const EVENT_SYSTEM_MOVESIZESTART: u32 = 0x000A;

pub const EVENT_SYSTEM_MOVESIZEEND: u32 = 0x000B;

pub const EVENT_SYSTEM_MINIMIZESTART: u32 = 0x0016;

pub const EVENT_SYSTEM_MINIMIZEEND: u32 = 0x0017;

pub const EVENT_OBJECT_DESTROY: u32 = 0x8001;

pub const EVENT_OBJECT_SHOW: u32 = 0x8002;

pub const EVENT_OBJECT_HIDE: u32 = 0x8003;

pub const EVENT_OBJECT_LOCATIONCHANGE: u32 = 0x800B;

pub const EVENT_OBJECT_CLOAKED: u32 = 0x8017;

pub const EVENT_OBJECT_UNCLOAKED: u32 = 0x8018;

/// The object of an event is the window itself.
pub const OBJID_WINDOW: isize = 0;

/// The event is about the object, not about a part of it.
pub const CHILDID_SELF: isize = 0;

/// What a badge does about an event.
pub open spec fn action_of(event: u32) -> WinEventAction {
    if event == EVENT_OBJECT_LOCATIONCHANGE {
        WinEventAction::Sync
    } else if event == EVENT_OBJECT_DESTROY {
        WinEventAction::Forget
    } else if event == EVENT_SYSTEM_MINIMIZESTART || event == EVENT_OBJECT_HIDE || event
        == EVENT_OBJECT_CLOAKED {
        WinEventAction::Hide
    } else if event == EVENT_SYSTEM_MINIMIZEEND || event == EVENT_OBJECT_SHOW || event
        == EVENT_OBJECT_UNCLOAKED {
        WinEventAction::Show
    } else if event == EVENT_SYSTEM_FOREGROUND {
        WinEventAction::BringToTop
    } else if event == EVENT_SYSTEM_MOVESIZESTART {
        WinEventAction::MoveStart
    } else if event == EVENT_SYSTEM_MOVESIZEEND {
        WinEventAction::MoveEnd
    } else {
        WinEventAction::Ignore
    }
}

/// What a badge does about an event.
pub fn classify(event: u32) -> (action: WinEventAction)
    ensures
        action == action_of(event),
{
    if event == EVENT_OBJECT_LOCATIONCHANGE {
        WinEventAction::Sync
    } else if event == EVENT_OBJECT_DESTROY {
        WinEventAction::Forget
    } else if event == EVENT_SYSTEM_MINIMIZESTART || event == EVENT_OBJECT_HIDE || event
        == EVENT_OBJECT_CLOAKED {
        WinEventAction::Hide
    } else if event == EVENT_SYSTEM_MINIMIZEEND || event == EVENT_OBJECT_SHOW || event
        == EVENT_OBJECT_UNCLOAKED {
        WinEventAction::Show
    } else if event == EVENT_SYSTEM_FOREGROUND {
        WinEventAction::BringToTop
    } else if event == EVENT_SYSTEM_MOVESIZESTART {
        WinEventAction::MoveStart
    } else if event == EVENT_SYSTEM_MOVESIZEEND {
        WinEventAction::MoveEnd
    } else {
        WinEventAction::Ignore
    }
}

/// Whether an event is about a window itself, and so worth passing on.
pub fn should_forward(idobject: isize, idchild: isize, hwnd: isize) -> (forward: bool)
    ensures
        forward == (idobject == OBJID_WINDOW && idchild == CHILDID_SELF && hwnd != 0),
{
    idobject == OBJID_WINDOW && idchild == CHILDID_SELF && hwnd != 0
}

/// Whether an event that is worth passing on is passed on now. While an earlier
/// one is still waiting it is dropped, since the earlier one will see the latest
/// state; only the end of a move is never dropped.
pub open spec fn is_posted(event: u32, has_pending: bool) -> bool {
    !has_pending || event == EVENT_SYSTEM_MOVESIZEEND
}

/// Whether an event is passed on now.
pub fn should_post(event: u32, has_pending: bool) -> (post: bool)
    ensures
        post == is_posted(event, has_pending),
{
    !has_pending || event == EVENT_SYSTEM_MOVESIZEEND
}

/// The end of a move always arrives, and nothing is lost while the queue is
/// empty.
pub proof fn final_place_is_never_dropped(event: u32, has_pending: bool)
    ensures
        action_of(event) == WinEventAction::MoveEnd ==> is_posted(event, has_pending),
        !has_pending ==> is_posted(event, has_pending),
{
}

/// The ranges of events to listen to, each from its first to its last.
pub fn event_ranges() -> (ranges: [(u32, u32); 2])
    ensures
        ranges[0] == (0x0003u32, 0x0017u32),
        ranges[1] == (0x8001u32, 0x8018u32),
{
    [(0x0003, 0x0017), (0x8001, 0x8018)]
}

/// Every event that matters lies in one of the ranges that are listened to.
pub proof fn ranges_cover_every_action(event: u32)
    ensures
        action_of(event) != WinEventAction::Ignore ==> 0x0003 <= event <= 0x0017 || 0x8001 <= event
            <= 0x8018,
{
}

/// The two listeners, by their handles; 0 stands for one that could not be
/// installed.
#[derive(Debug, Clone, Copy, PartialEq, Eq, Structural)]
pub struct WinEventHooks {
    pub system: isize,
    pub object: isize,
}

impl WinEventHooks {
    /// Whether no listener could be installed, so that only looking from time to
    /// time is left.
    pub fn is_degraded(&self) -> (degraded: bool)
        ensures
            degraded == (self.system == 0 && self.object == 0),
    {
        self.system == 0 && self.object == 0
    }
}

/// The window that events are passed on to. Only the first call that sets it
/// counts.
#[derive(Debug, Clone, Copy, PartialEq, Eq, Structural)]
pub struct EventTarget {
    pub hwnd: Option<isize>,
}

/// Takes note of the window that events are passed on to.
pub fn bind_hidden(target: &mut EventTarget, hwnd: isize)
    ensures
        final(target).hwnd == (match old(target).hwnd {
            Some(earlier) => Some(earlier),
            None => Some(hwnd),
        }),
{
    if target.hwnd.is_none() {
        target.hwnd = Some(hwnd);
    }
}

/// Listening was asked for before it was known where events go.
#[derive(Debug, Clone, Copy, PartialEq, Eq, Structural)]
pub struct NotBound;

/// The listeners for the two ranges, by their handles; 0 stands for one that could
/// not be installed. Nothing is installed before it is known where events go.
pub fn install(target: &EventTarget, system: isize, object: isize) -> (hooks: Result<
    WinEventHooks,
    NotBound,
>)
    ensures
        hooks == (if target.hwnd is Some {
            Ok::<WinEventHooks, NotBound>(WinEventHooks { system, object })
        } else {
            Err(NotBound)
        }),
{
    if target.hwnd.is_some() {
        Ok(WinEventHooks { system, object })
    } else {
        Err(NotBound)
    }
}

/// An event on its way to the program's own window.
#[derive(Debug, Clone, Copy, PartialEq, Eq, Structural)]
pub struct ForwardedEvent {
    pub to: isize,
    /// Always `WM_APP_WINEVENT`.
    pub msg: u32,
    /// Window that the event is about.
    pub wparam: isize,
    /// The event.
    pub lparam: u32,
}

/// What is passed on of an event. `has_pending` tells whether an earlier one is
/// still waiting.
pub fn win_event_callback(
    target: &EventTarget,
    event: u32,
    hwnd: isize,
    idobject: i32,
    idchild: i32,
    has_pending: bool,
) -> (forwarded: Option<ForwardedEvent>)
    ensures
        forwarded == (if idobject == OBJID_WINDOW && idchild == CHILDID_SELF && hwnd != 0
            && target.hwnd is Some && is_posted(event, has_pending) {
            Some(
                ForwardedEvent {
                    to: target.hwnd->0,
                    msg: WM_APP_WINEVENT,
                    wparam: hwnd,
                    lparam: event,
                },
            )
        } else {
            None
        }),
{
    if !should_forward(idobject as isize, idchild as isize, hwnd) {
        return None;
    }
    match target.hwnd {
        Some(to) => {
            if should_post(event, has_pending) {
                Some(ForwardedEvent { to, msg: WM_APP_WINEVENT, wparam: hwnd, lparam: event })
            } else {
                None
            }
        },
        None => None,
    }
}

/// Every event has one meaning, and the opposite of an event has the opposite
/// meaning: what hides a badge and what shows it again come in pairs.
pub proof fn events_mean_what_they_say(event: u32, action: WinEventAction)
    requires
        call_ensures(classify, (event,), action),
    ensures
        event == 0x8003 || event == 0x0016 || event == 0x8017 <==> action == WinEventAction::Hide,
        event == 0x8002 || event == 0x0017 || event == 0x8018 <==> action == WinEventAction::Show,
        event == 0x8001 <==> action == WinEventAction::Forget,
        event == 0x800B <==> action == WinEventAction::Sync,
        event == 0x0003 <==> action == WinEventAction::BringToTop,
        event == 0x000A <==> action == WinEventAction::MoveStart,
        event == 0x000B <==> action == WinEventAction::MoveEnd,
{
}

/// Only events about a window itself are worth passing on.
pub proof fn only_windows_matter(object: isize, child: isize, hwnd: isize, forward: bool)
    requires
        call_ensures(should_forward, (object, child, hwnd), forward),
    ensures
        forward <==> object == 0 && child == 0 && hwnd != 0,
{
}

/// Listening begins once it is known where events go, and works in part when one of
/// the two listeners could not be installed.
pub proof fn listening_needs_a_window(
    to: EventTarget,
    system: isize,
    object: isize,
    hooks: Result<WinEventHooks, NotBound>,
    degraded: bool,
)
    requires
        call_ensures(install, (&to, system, object), hooks),
        hooks matches Ok(h) ==> call_ensures(WinEventHooks::is_degraded, (&h,), degraded),
    ensures
        hooks is Ok <==> to.hwnd is Some,
        hooks matches Ok(h) ==> h.system == system && h.object == object && (degraded <==> system
            == 0 && object == 0),
{
}

/// Events go to the first window that was named for them.
pub proof fn events_go_to_the_first_window(hwnd: isize)
    ensures
        forall|t: &mut EventTarget| #[trigger]
            call_ensures(bind_hidden, (t, hwnd), ()) ==> {
                &&& t.hwnd is None ==> final(t).hwnd == Some(hwnd)
                &&& t.hwnd is Some ==> final(t).hwnd == t.hwnd
            },
{
}

/// Every event that matters is listened to.
pub proof fn events_that_matter_are_listened_to(
    event: u32,
    action: WinEventAction,
    ranges: [(u32, u32); 2],
)
    requires
        call_ensures(event_ranges, (), ranges),
        call_ensures(classify, (event,), action),
        action != WinEventAction::Ignore,
    ensures
        (ranges[0].0 <= event && event <= ranges[0].1) || (ranges[1].0 <= event && event
            <= ranges[1].1),
{
}

/// Everything is passed on while nothing waits; while something waits, only the end of
/// a move is.
pub proof fn waiting_events_stand_for_the_rest(event: u32, has_pending: bool, post: bool)
    requires
        call_ensures(should_post, (event, has_pending), post),
    ensures
        !has_pending ==> post,
        has_pending ==> (post <==> event == 0x000B),
{
}

} // verus!
