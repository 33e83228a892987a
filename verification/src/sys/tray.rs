//! The tray icon: what the user's actions on it mean.

use crate::common;
use crate::common::encode_utf16;
use vstd::prelude::*;

verus! {

/// The left button was released on the icon.
pub const WM_LBUTTONUP: u32 = 0x0202;

/// The right button was released on the icon.
pub const WM_RBUTTONUP: u32 = 0x0205;

/// First message that a control may define for itself.
pub const WM_USER: u32 = 0x0400;

/// The user clicked the balloon.
pub const NIN_BALLOONUSERCLICK: u32 = 0x0405;

/// What the user asks of the tray icon.
#[derive(Debug, Clone, Copy, PartialEq, Eq, Structural)]
pub enum TrayCommand {
    OpenPanel,
    OpenSettings,
    QuickTag,
    Exit,
}

/// Entries of the icon's menu.
pub const MENU_ID_OPEN_PANEL: usize = 100;

pub const MENU_ID_OPEN_SETTINGS: usize = 101;

pub const MENU_ID_QUICK_TAG: usize = 102;

pub const MENU_ID_EXIT: usize = 103;

/// What an action on the icon or its balloon asks for. A click on either opens
/// the panel; everything else, such as the right button that opens the menu, is
/// no command by itself.
pub open spec fn command_of_event(event: u32) -> Option<TrayCommand> {
    if event == WM_LBUTTONUP || event == NIN_BALLOONUSERCLICK {
        Some(TrayCommand::OpenPanel)
    } else {
        None
    }
}

/// What an action on the icon asks for.
pub fn tray_command_from_lparam(lparam: u32) -> (command: Option<TrayCommand>)
    ensures
        command == command_of_event(lparam),
{
    if lparam == WM_LBUTTONUP || lparam == NIN_BALLOONUSERCLICK {
        Some(TrayCommand::OpenPanel)
    } else {
        None
    }
}

/// What the icon's message asks for: the action is in the low 32 bits.
pub fn tray_message(lparam: usize) -> (command: Option<TrayCommand>)
    ensures
        command == command_of_event(lparam as u32),
{
    tray_command_from_lparam(lparam as u32)
}

/// What the program does about an action on the icon.
#[derive(Debug, Clone, Copy, PartialEq, Eq, Structural)]
pub enum TrayAction {
    /// Open the icon's menu.
    Menu,
    Command(TrayCommand),
    Nothing,
}

/// What the program does about an action on the icon: the right button opens the
/// menu, and a click opens the panel.
pub open spec fn action_of_event(event: u32) -> TrayAction {
    if event == WM_RBUTTONUP {
        TrayAction::Menu
    } else if event == WM_LBUTTONUP || event == NIN_BALLOONUSERCLICK {
        TrayAction::Command(TrayCommand::OpenPanel)
    } else {
        TrayAction::Nothing
    }
}

/// What the program does about the icon's message: the action is in the low 32
/// bits.
pub fn tray_action(lparam: usize) -> (action: TrayAction)
    ensures
        action == action_of_event(lparam as u32),
{
    if lparam as u32 == WM_RBUTTONUP {
        return TrayAction::Menu;
    }
    match tray_message(lparam) {
        Some(command) => TrayAction::Command(command),
        None => TrayAction::Nothing,
    }
}

/// What an entry of the menu asks for. A menu that is closed without a choice
/// opens the panel, which does no harm and is easily undone.
pub open spec fn command_of_entry(chosen: usize) -> TrayCommand {
    if chosen == MENU_ID_OPEN_SETTINGS {
        TrayCommand::OpenSettings
    } else if chosen == MENU_ID_QUICK_TAG {
        TrayCommand::QuickTag
    } else if chosen == MENU_ID_EXIT {
        TrayCommand::Exit
    } else {
        TrayCommand::OpenPanel
    }
}

/// What the chosen entry of the menu asks for.
pub fn menu_command(chosen: usize) -> (command: TrayCommand)
    ensures
        command == command_of_entry(chosen),
{
    if chosen == MENU_ID_OPEN_SETTINGS {
        TrayCommand::OpenSettings
    } else if chosen == MENU_ID_QUICK_TAG {
        TrayCommand::QuickTag
    } else if chosen == MENU_ID_EXIT {
        TrayCommand::Exit
    } else {
        TrayCommand::OpenPanel
    }
}

/// Only the entry for it quits the program.
pub proof fn only_the_exit_entry_quits(chosen: usize)
    ensures
        command_of_entry(chosen) == TrayCommand::Exit <==> chosen == MENU_ID_EXIT,
{
}

/// Whether the balloon is to be shown when the program starts.
pub fn should_show_balloon(no_tray: bool, show_balloon: bool) -> (show: bool)
    ensures
        show == (!no_tray && show_balloon),
{
    !no_tray && show_balloon
}

/// The switch for the balloon. It is on until it is set.
#[derive(Debug, Clone, Copy, PartialEq, Eq, Structural)]
pub struct BalloonSwitch {
    pub set_to: Option<bool>,
}

/// Sets the switch for the balloon.
pub fn set_balloon_enabled(switch: &mut BalloonSwitch, enabled: bool)
    ensures
        final(switch).set_to == Some(enabled),
{
    switch.set_to = Some(enabled);
}

/// Whether the balloon is switched on.
pub fn balloon_enabled(switch: &BalloonSwitch) -> (enabled: bool)
    ensures
        enabled == (match switch.set_to {
            Some(set) => set,
            None => true,
        }),
{
    match switch.set_to {
        Some(set) => set,
        None => true,
    }
}

/// The buffer after a text was written to its start: at most `max_units` units,
/// a zero behind them, and the rest as it was.
pub open spec fn wide_filled(buf: Seq<u16>, s: Seq<char>, max_units: int) -> Seq<u16> {
    let n = filled_units(s, max_units);
    common::utf16(s).take(n) + seq![0u16] + buf.skip(n + 1)
}

/// How many units of a text are written.
pub open spec fn filled_units(s: Seq<char>, max_units: int) -> int {
    if common::utf16(s).len() < max_units {
        common::utf16(s).len() as int
    } else {
        max_units
    }
}

/// Writes a text to the start of a buffer, cut to `max_units` units, with a zero
/// behind it.
pub fn fill_wide(buf: &mut [u16], s: &str, max_units: usize)
    requires
        filled_units(s@, max_units as int) < old(buf)@.len(),
    ensures
        final(buf)@ == wide_filled(old(buf)@, s@, max_units as int),
{
    let units: Vec<u16> = encode_utf16(s);
    let n: usize = if units.len() < max_units {
        units.len()
    } else {
        max_units
    };
    let ghost before = buf@;
    let mut i: usize = 0;
    while i < n
        invariant
            i <= n <= units.len(),
            n < buf@.len(),
            before.len() == buf@.len(),
            units@ == common::utf16(s@),
            buf@ == units@.take(i as int) + before.skip(i as int),
        decreases n - i,
    {
        buf[i] = units[i];
        proof {
            assert(buf@ =~= units@.take(i + 1) + before.skip(i + 1));
        }
        i = i + 1;
    }
    buf[n] = 0;
    proof {
        assert(buf@ =~= wide_filled(before, s@, max_units as int));
    }
}

/// What is written to a buffer is the text, as much of it as is allowed, and a zero
/// behind it; the rest of the buffer stays as it was, and so does its length.
pub proof fn buffers_hold_the_text(buf: Seq<u16>, s: Seq<char>, max: int)
    requires
        0 <= max,
        filled_units(s, max) < buf.len(),
    ensures
        ({
            let filled = wide_filled(buf, s, max);
            let units = common::utf16(s);
            let n = if units.len() < max {
                units.len() as int
            } else {
                max
            };
            &&& filled.len() == buf.len()
            &&& filled.take(n) == units.take(n)
            &&& filled[n] == 0
            &&& filled.skip(n + 1) == buf.skip(n + 1)
            &&& units.len() <= max ==> filled.take(n) == units
        }),
{
    let n = filled_units(s, max);
    let filled = wide_filled(buf, s, max);
    assert(filled.take(n) =~= common::utf16(s).take(n));
    assert(filled.skip(n + 1) =~= buf.skip(n + 1));
    if common::utf16(s).len() <= max {
        assert(common::utf16(s).take(n) =~= common::utf16(s));
    }
}

/// The balloon is shown at the start unless the user switched it off or keeps the
/// program out of the tray; the switch is on until it is set.
pub proof fn balloon_is_shown_when_wanted(
    no_tray: bool,
    wanted: bool,
    show: bool,
    set: bool,
    on: bool,
    first: bool,
)
    requires
        call_ensures(should_show_balloon, (no_tray, wanted), show),
        call_ensures(balloon_enabled, (&BalloonSwitch { set_to: Some(set) },), on),
        call_ensures(balloon_enabled, (&BalloonSwitch { set_to: None },), first),
    ensures
        show <==> wanted && !no_tray,
        on == set,
        first,
{
}

/// A click on the icon and one on the balloon open the panel, and nothing else does;
/// the right button opens the menu.
pub proof fn clicks_open_the_panel(
    lparam: u32,
    command: Option<TrayCommand>,
    action: TrayAction,
    chosen: usize,
    entry: TrayCommand,
)
    requires
        call_ensures(tray_command_from_lparam, (lparam,), command),
        call_ensures(tray_action, (lparam as usize,), action),
        call_ensures(menu_command, (chosen,), entry),
    ensures
        command is Some <==> lparam == 0x0202 || lparam == 0x0405,
        command matches Some(c) ==> c == TrayCommand::OpenPanel,
        action == TrayAction::Menu <==> lparam == 0x0205,
        action is Command <==> command is Some,
        action matches TrayAction::Command(c) ==> c == TrayCommand::OpenPanel,
        entry == TrayCommand::OpenSettings <==> chosen == 101,
        entry == TrayCommand::QuickTag <==> chosen == 102,
        entry == TrayCommand::Exit <==> chosen == 103,
{
    assert((lparam as usize) as u32 == lparam) by (bit_vector);
}

/// Texts for the system are written unit by unit with a zero behind them, and nothing
/// behind the zero is touched; the balloon is as it was last set; and a message means
/// the same in either form.
pub proof fn tray_texts_are_written_like_this(
    s: &str,
    max_units: usize,
    enabled: bool,
    lparam: usize,
    command: Option<TrayCommand>,
    same: Option<TrayCommand>,
)
    requires
        call_ensures(tray_message, (lparam,), command),
        call_ensures(tray_command_from_lparam, (lparam as u32,), same),
    ensures
        command == same,
        forall|buf: &mut [u16]| #[trigger]
            call_ensures(fill_wide, (buf, s, max_units), ()) && max_units < buf@.len() ==> {
                let n = if common::utf16(s@).len() < max_units {
                    common::utf16(s@).len() as int
                } else {
                    max_units as int
                };
                &&& final(buf)@.len() == buf@.len()
                &&& forall|i: int|
                    0 <= i < n ==> #[trigger] final(buf)@[i] == common::utf16(s@)[i]
                &&& final(buf)@[n] == 0
                &&& forall|i: int|
                    n < i < buf@.len() ==> #[trigger] final(buf)@[i] == buf@[i]
            },
        forall|switch: &mut BalloonSwitch, on: bool| #![trigger
            call_ensures(set_balloon_enabled, (switch, enabled), ()),
            call_ensures(balloon_enabled, (&*final(switch),), on)]
            call_ensures(set_balloon_enabled, (switch, enabled), ()) && call_ensures(
                balloon_enabled,
                (&*final(switch),),
                on,
            ) ==> on == enabled,
{
}

} // verus!
