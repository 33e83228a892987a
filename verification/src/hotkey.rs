//! The keyboard shortcuts that work everywhere.

use vstd::prelude::*;

verus! {

/// A keyboard shortcut.
#[derive(Debug, Clone, Copy, PartialEq, Eq, Structural)]
pub enum Hotkey {
    /// Ctrl+Shift+N: tag the window in front.
    QuickTag,
    /// Ctrl+Shift+M: show or hide the overview panel.
    TogglePanel,
    /// Ctrl+Shift+S: open the settings.
    OpenSettings,
}

/// The system's message for a shortcut.
pub const WM_HOTKEY: u32 = 0x0312;

/// Ctrl, as a modifier of a shortcut.
pub const MOD_CONTROL: u32 = 0x0002;

/// Shift, as a modifier of a shortcut.
pub const MOD_SHIFT: u32 = 0x0004;

/// The number under which a shortcut is registered.
pub open spec fn hotkey_id(hotkey: Hotkey) -> i32 {
    match hotkey {
        Hotkey::QuickTag => 1,
        Hotkey::TogglePanel => 2,
        Hotkey::OpenSettings => 3,
    }
}

/// The shortcut that is registered under a number.
pub open spec fn hotkey_with_id(id: i32) -> Option<Hotkey> {
    if id == 1 {
        Some(Hotkey::QuickTag)
    } else if id == 2 {
        Some(Hotkey::TogglePanel)
    } else if id == 3 {
        Some(Hotkey::OpenSettings)
    } else {
        None
    }
}

impl Hotkey {
    /// The number under which the shortcut is registered.
    pub fn id(&self) -> (id: i32)
        ensures
            id == hotkey_id(*self),
    {
        match self {
            Hotkey::QuickTag => 1,
            Hotkey::TogglePanel => 2,
            Hotkey::OpenSettings => 3,
        }
    }

    /// The keys to hold down.
    pub fn modifiers(&self) -> (modifiers: u32)
        ensures
            modifiers == 6,
            modifiers == MOD_CONTROL + MOD_SHIFT,
    {
        MOD_CONTROL + MOD_SHIFT
    }

    /// The code of the key to press: the capital letter itself.
    pub fn vk(&self) -> (vk: u32)
        ensures
            vk == (match *self {
                Hotkey::QuickTag => 'N' as u32,
                Hotkey::TogglePanel => 'M' as u32,
                Hotkey::OpenSettings => 'S' as u32,
            }),
    {
        match self {
            Hotkey::QuickTag => 78,
            Hotkey::TogglePanel => 77,
            Hotkey::OpenSettings => 83,
        }
    }

    /// The shortcut that is registered under a number.
    pub fn from_id(id: i32) -> (hotkey: Option<Hotkey>)
        ensures
            hotkey == hotkey_with_id(id),
    {
        if id == 1 {
            Some(Hotkey::QuickTag)
        } else if id == 2 {
            Some(Hotkey::TogglePanel)
        } else if id == 3 {
            Some(Hotkey::OpenSettings)
        } else {
            None
        }
    }
}

/// All shortcuts, in the order in which they are registered: that of their numbers.
pub fn all_hotkeys() -> (hotkeys: [Hotkey; 3])
    ensures
        hotkeys@ == seq![Hotkey::QuickTag, Hotkey::TogglePanel, Hotkey::OpenSettings],
        forall|i: int| 0 <= i < 3 ==> hotkey_id(#[trigger] hotkeys@[i]) == i + 1,
{
    let hotkeys: [Hotkey; 3] = [Hotkey::QuickTag, Hotkey::TogglePanel, Hotkey::OpenSettings];
    assert(hotkeys@ =~= seq![Hotkey::QuickTag, Hotkey::TogglePanel, Hotkey::OpenSettings]);
    hotkeys
}

/// The shortcut that a message stands for.
pub fn from_message(msg: u32, wparam: usize, _lparam: isize) -> (hotkey: Option<Hotkey>)
    ensures
        hotkey == (if msg == WM_HOTKEY {
            hotkey_with_id(wparam as i32)
        } else {
            None
        }),
{
    if msg != WM_HOTKEY {
        return None;
    }
    Hotkey::from_id(wparam as i32)
}

/// A shortcut is found again under its number, and no number belongs to two
/// shortcuts.
pub proof fn ids_name_hotkeys(a: Hotkey, b: Hotkey, id: i32)
    ensures
        hotkey_with_id(hotkey_id(a)) == Some(a),
        hotkey_id(a) == hotkey_id(b) ==> a == b,
        hotkey_with_id(id) == Some(a) ==> hotkey_id(a) == id,
{
}

/// The three shortcuts are Control, Shift and a letter of their own: N, M and S.
pub proof fn shortcuts_have_keys_of_their_own(a: Hotkey, b: Hotkey, x: u32, y: u32, held: u32)
    requires
        call_ensures(Hotkey::vk, (&a,), x),
        call_ensures(Hotkey::vk, (&b,), y),
        call_ensures(Hotkey::modifiers, (&a,), held),
    ensures
        x == y ==> a == b,
        a == Hotkey::QuickTag <==> x == 0x4E,
        a == Hotkey::TogglePanel <==> x == 0x4D,
        a == Hotkey::OpenSettings <==> x == 0x53,
        held == 0x0002 + 0x0004,
{
}

/// Only the system's message for a shortcut stands for one, and only with a number
/// that was registered.
pub proof fn other_messages_are_no_shortcuts(
    msg: u32,
    id: i32,
    lparam: isize,
    found: Option<Hotkey>,
    numbered: Option<Hotkey>,
)
    requires
        call_ensures(from_message, (msg, id as usize, lparam), found),
        call_ensures(Hotkey::from_id, (id,), numbered),
    ensures
        msg != 0x0312 ==> found is None,
        msg == 0x0312 ==> found == numbered,
        numbered is Some <==> 1 <= id <= 3,
        id == 1 ==> numbered == Some(Hotkey::QuickTag),
        id == 2 ==> numbered == Some(Hotkey::TogglePanel),
        id == 3 ==> numbered == Some(Hotkey::OpenSettings),
{
    assert((id as usize) as i32 == id) by (bit_vector);
}

} // verus!
