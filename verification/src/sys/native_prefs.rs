//! Preferences in the form in which badges, tooltips and the tray use them.

use crate::model::settings::Settings;
use vstd::prelude::*;

verus! {

/// What badges, tooltips and the tray need to know. Colours hold blue, green
/// and red from the high byte to the low.
#[derive(Debug, Clone, Copy, PartialEq, Eq, Structural)]
pub struct NativePrefs {
    /// Whether a badge shows its tag's title.
    pub show_title: bool,
    /// Whether badges stay above every window.
    pub badge_always_top: bool,
    pub tooltip_bg: u32,
    pub tooltip_fg: u32,
    /// Whether a balloon is shown when the program starts.
    pub balloon_enabled: bool,
}

/// Everything is shown, and tooltips are black on white.
pub open spec fn default_prefs() -> NativePrefs {
    NativePrefs {
        show_title: true,
        badge_always_top: true,
        tooltip_bg: 0x00FFFFFF,
        tooltip_fg: 0x00000000,
        balloon_enabled: true,
    }
}

impl Default for NativePrefs {
    fn default() -> (prefs: Self)
        ensures
            prefs == default_prefs(),
    {
        NativePrefs {
            show_title: true,
            badge_always_top: true,
            tooltip_bg: 0x00FFFFFF,
            tooltip_fg: 0x00000000,
            balloon_enabled: true,
        }
    }
}

/// The preferences that badges, tooltips and the tray share.
#[derive(Debug, Clone, Copy, PartialEq, Eq, Structural)]
pub struct PrefsSlot {
    pub value: Option<NativePrefs>,
}

/// Puts new preferences in force.
pub fn set_native_prefs(slot: &mut PrefsSlot, prefs: NativePrefs)
    ensures
        final(slot).value == Some(prefs),
{
    slot.value = Some(prefs);
}

/// The preferences in force, or the defaults when none were set.
pub fn native_prefs(slot: &PrefsSlot) -> (prefs: NativePrefs)
    ensures
        prefs == (match slot.value {
            Some(set) => set,
            None => default_prefs(),
        }),
{
    match slot.value {
        Some(set) => set,
        None => NativePrefs::default(),
    }
}

/// The preferences for badges, tooltips and the tray, from the user's
/// preferences and the tooltip colours of the theme.
pub fn prefs_from_settings(settings: &Settings, tooltip_bg: u32, tooltip_fg: u32) -> (prefs:
    NativePrefs)
    ensures
        prefs == (NativePrefs {
            show_title: settings.show_badge_title,
            badge_always_top: settings.badge_always_top,
            tooltip_bg,
            tooltip_fg,
            balloon_enabled: settings.show_balloon,
        }),
{
    NativePrefs {
        show_title: settings.show_badge_title,
        badge_always_top: settings.badge_always_top,
        tooltip_bg,
        tooltip_fg,
        balloon_enabled: settings.show_balloon,
    }
}

/// Every preference is handed on as it is, and tooltips get the colours that they
/// are given. Until preferences are set, everything is shown.
pub proof fn preferences_are_handed_on(
    settings: Settings,
    bg: u32,
    fg: u32,
    prefs: NativePrefs,
    first: NativePrefs,
    now: NativePrefs,
)
    requires
        call_ensures(prefs_from_settings, (&settings, bg, fg), prefs),
        call_ensures(native_prefs, (&PrefsSlot { value: None },), first),
        call_ensures(native_prefs, (&PrefsSlot { value: Some(prefs) },), now),
    ensures
        prefs.show_title == settings.show_badge_title,
        prefs.badge_always_top == settings.badge_always_top,
        prefs.balloon_enabled == settings.show_balloon,
        prefs.tooltip_bg == bg,
        prefs.tooltip_fg == fg,
        now == prefs,
        first.show_title && first.badge_always_top && first.balloon_enabled,
{
}

/// Preferences are read as they were last set.
pub proof fn set_preferences_are_read(prefs: NativePrefs, read: NativePrefs)
    ensures
        forall|slot: &mut PrefsSlot| #![trigger
            call_ensures(set_native_prefs, (slot, prefs), ()),
            call_ensures(native_prefs, (&*final(slot),), read)]
            call_ensures(set_native_prefs, (slot, prefs), ()) && call_ensures(
                native_prefs,
                (&*final(slot),),
                read,
            ) ==> read == prefs,
{
}

} // verus!
