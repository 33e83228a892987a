//! The settings window that is built from controls.

use crate::common::WM_APP_THEME_CHANGED;
use crate::model::settings;
use crate::model::settings::{
    global_settings, replace_global_settings, CornerPreference, Settings, SharedSettings, ThemeMode,
};
use crate::sys::overlay::PostedMessage;
use crate::ui::button::{VK_ESCAPE, VK_RETURN};
use crate::ui::controls::{ColorPair, ControlKind};
use crate::ui::geo;
use crate::ui::geo::{scale_px, Place};
use crate::ui::layout;
use crate::ui::layout::client_height;
use crate::ui::theme;
use crate::ui::theme::{light_colors, ThemeColors};
use vstd::prelude::*;

verus! {

pub const IDC_SAVE_BUTTON: i32 = 205;

pub const IDC_CANCEL_BUTTON: i32 = 206;

pub const WIN_W: i32 = 460;

pub const WIN_H: i32 = 280;

// ---------------------------------------------------------------------
// The two lists
// ---------------------------------------------------------------------
/// The theme at a position of the list; the system's when nothing is chosen.
pub open spec fn theme_at(idx: int) -> ThemeMode {
    if idx == 1 {
        ThemeMode::Light
    } else if idx == 2 {
        ThemeMode::Dark
    } else {
        ThemeMode::System
    }
}

/// The corner shape at a position of the list; the system's when nothing is
/// chosen.
pub open spec fn corner_at(idx: int) -> CornerPreference {
    if idx == 1 {
        CornerPreference::Round
    } else if idx == 2 {
        CornerPreference::SmallRound
    } else {
        CornerPreference::Default
    }
}

/// The position of a theme in the list.
pub open spec fn theme_position(theme: ThemeMode) -> int {
    match theme {
        ThemeMode::System => 0,
        ThemeMode::Light => 1,
        ThemeMode::Dark => 2,
    }
}

/// The position of a corner shape in the list.
pub open spec fn corner_position(corner: CornerPreference) -> int {
    match corner {
        CornerPreference::Default => 0,
        CornerPreference::Round => 1,
        CornerPreference::SmallRound => 2,
    }
}

/// The theme at a position of the list.
pub fn theme_from_index(idx: i32) -> (theme: ThemeMode)
    ensures
        theme == theme_at(idx as int),
{
    if idx == 1 {
        ThemeMode::Light
    } else if idx == 2 {
        ThemeMode::Dark
    } else {
        ThemeMode::System
    }
}

/// The corner shape at a position of the list.
pub fn corner_from_index(idx: i32) -> (corner: CornerPreference)
    ensures
        corner == corner_at(idx as int),
{
    if idx == 1 {
        CornerPreference::Round
    } else if idx == 2 {
        CornerPreference::SmallRound
    } else {
        CornerPreference::Default
    }
}

/// What is chosen in a list is what the list is set to.
pub proof fn lists_show_what_they_give(theme: ThemeMode, corner: CornerPreference)
    ensures
        theme_at(theme_position(theme)) == theme,
        corner_at(corner_position(corner)) == corner,
{
}

/// The preferences in force, or the defaults.
pub open spec fn in_force(shared: SharedSettings) -> Settings {
    match shared.value {
        Some(s) => s,
        None => settings::default_settings(),
    }
}

/// The preferences in force, or the defaults.
pub fn current_settings(shared: &SharedSettings) -> (s: Settings)
    ensures
        s == in_force(*shared),
{
    match global_settings(shared) {
        Some(s) => s,
        None => Settings::default(),
    }
}

/// The positions that the two lists are set to.
pub fn refresh_selections(shared: &SharedSettings) -> (positions: (usize, usize))
    ensures
        positions.0 == theme_position(in_force(*shared).theme),
        positions.1 == corner_position(in_force(*shared).corner),
{
    let current: Settings = current_settings(shared);
    (
        match current.theme {
            ThemeMode::System => 0,
            ThemeMode::Light => 1,
            ThemeMode::Dark => 2,
        },
        match current.corner {
            CornerPreference::Default => 0,
            CornerPreference::Round => 1,
            CornerPreference::SmallRound => 2,
        },
    )
}

/// The window of the settings, once it was made. Only the first call that sets it
/// counts.
#[derive(Debug, Clone, Copy, PartialEq, Eq, Structural)]
pub struct SettingsHandle {
    pub hwnd: Option<isize>,
}

/// Takes note of the window of the settings.
pub fn set_settings_hwnd(handle: &mut SettingsHandle, hwnd: isize)
    ensures
        final(handle).hwnd == (match old(handle).hwnd {
            Some(earlier) => Some(earlier),
            None => Some(hwnd),
        }),
{
    if handle.hwnd.is_none() {
        handle.hwnd = Some(hwnd);
    }
}

/// The window of the settings, if it was made.
pub fn settings_hwnd(handle: &SettingsHandle) -> (hwnd: Option<isize>)
    ensures
        hwnd == handle.hwnd,
{
    handle.hwnd
}

// ---------------------------------------------------------------------
// What happens in the window
// ---------------------------------------------------------------------
/// What the window knows.
#[derive(Debug, Clone, Copy, PartialEq, Eq, Structural)]
pub struct SettingsData {
    /// Window that is told when the preferences have changed.
    pub hidden_hwnd: isize,
    pub visible: bool,
}

/// Something that happened in the window.
#[derive(Debug, Clone, Copy, PartialEq, Eq, Structural)]
pub enum SettingsEvent {
    /// A control reported something.
    Command(i32),
    /// A key was pressed.
    KeyDown(usize),
    /// The user closed the window.
    Close,
}

/// What the window does about it.
#[derive(Debug, Clone, Copy, PartialEq, Eq, Structural)]
pub enum SettingsAction {
    Nothing,
    /// What the system usually does.
    PassOn,
    /// Save the preferences, then disappear.
    Save,
    /// Disappear.
    Disappear,
}

/// What the window does about an event. While nothing is known of it, it does not
/// save.
pub open spec fn settings_reaction(data: Option<SettingsData>, event: SettingsEvent)
    -> SettingsAction {
    match event {
        SettingsEvent::Command(id) => if id == IDC_SAVE_BUTTON {
            if data is Some {
                SettingsAction::Save
            } else {
                SettingsAction::Nothing
            }
        } else if id == IDC_CANCEL_BUTTON {
            SettingsAction::Disappear
        } else {
            SettingsAction::Nothing
        },
        SettingsEvent::KeyDown(key) => if data is None {
            SettingsAction::PassOn
        } else if key == VK_ESCAPE {
            SettingsAction::Disappear
        } else if key == VK_RETURN {
            SettingsAction::Save
        } else {
            SettingsAction::PassOn
        },
        SettingsEvent::Close => SettingsAction::Disappear,
    }
}

/// What the window does about an event. It counts as hidden as soon as it is told
/// to disappear.
pub fn settings_wndproc(data: &mut Option<SettingsData>, event: SettingsEvent) -> (action:
    SettingsAction)
    ensures
        action == settings_reaction(*old(data), event),
        *final(data) == (match *old(data) {
            Some(d) => Some(
                SettingsData {
                    visible: d.visible && action != SettingsAction::Save && action
                        != SettingsAction::Disappear,
                    ..d
                },
            ),
            None => None,
        }),
{
    let known: bool = data.is_some();
    let action: SettingsAction = match event {
        SettingsEvent::Command(id) => {
            if id == IDC_SAVE_BUTTON {
                if known {
                    SettingsAction::Save
                } else {
                    SettingsAction::Nothing
                }
            } else if id == IDC_CANCEL_BUTTON {
                SettingsAction::Disappear
            } else {
                SettingsAction::Nothing
            }
        },
        SettingsEvent::KeyDown(key) => {
            if !known {
                SettingsAction::PassOn
            } else if key == VK_ESCAPE as usize {
                SettingsAction::Disappear
            } else if key == VK_RETURN as usize {
                SettingsAction::Save
            } else {
                SettingsAction::PassOn
            }
        },
        SettingsEvent::Close => SettingsAction::Disappear,
    };
    if action == SettingsAction::Save || action == SettingsAction::Disappear {
        if let Some(d) = data {
            d.visible = false;
        }
    }
    action
}

/// The preferences that the two lists make of those in force: what they do not
/// show stays as it is.
pub open spec fn chosen_settings(current: Settings, theme_idx: i32, corner_idx: i32) -> Settings {
    Settings { theme: theme_at(theme_idx as int), corner: corner_at(corner_idx as int), ..current }
}

/// Puts what the two lists show in force. Returns the preferences to store, and
/// the message that the theme may have changed.
pub fn save_and_hide(
    data: &SettingsData,
    shared: &mut SharedSettings,
    theme_idx: i32,
    corner_idx: i32,
) -> (saved: (Settings, PostedMessage))
    ensures
        saved.0 == chosen_settings(in_force(*old(shared)), theme_idx, corner_idx),
        final(shared).value == (match old(shared).value {
            Some(_) => Some(saved.0),
            None => None,
        }),
        saved.1 == (PostedMessage { to: data.hidden_hwnd, msg: WM_APP_THEME_CHANGED, wparam: 0 }),
{
    let current: Settings = current_settings(shared);
    let chosen: Settings = Settings {
        theme: theme_from_index(theme_idx),
        corner: corner_from_index(corner_idx),
        show_badge_title: current.show_badge_title,
        badge_always_top: current.badge_always_top,
        show_balloon: current.show_balloon,
    };
    replace_global_settings(shared, chosen);
    (chosen, PostedMessage { to: data.hidden_hwnd, msg: WM_APP_THEME_CHANGED, wparam: 0 })
}

/// Shows the window when it is hidden, and hides it when it is shown. Returns
/// whether it is shown now.
pub fn toggle_settings(data: &mut SettingsData, hidden_hwnd: isize) -> (shown: bool)
    ensures
        shown == !old(data).visible,
        *final(data) == (SettingsData {
            visible: shown,
            hidden_hwnd: if shown {
                hidden_hwnd
            } else {
                old(data).hidden_hwnd
            },
        }),
{
    if data.visible {
        data.visible = false;
        false
    } else {
        data.hidden_hwnd = hidden_hwnd;
        data.visible = true;
        true
    }
}

/// The colours of a control. `themed_edit` marks a text field of the window's
/// own. Without a theme the light one is used.
pub fn settings_ctlcolor(colors: Option<ThemeColors>, kind: ControlKind, themed_edit: bool) -> (
pair: ColorPair)
    ensures
        ({
            let c = match colors {
                Some(c) => c,
                None => theme::light(),
            };
            pair == (if kind == ControlKind::Edit && themed_edit {
                ColorPair { fg: c.edit_fg, bg: c.edit_bg }
            } else {
                ColorPair { fg: c.fg, bg: c.bg }
            })
        }),
{
    let c: ThemeColors = match colors {
        Some(c) => c,
        None => light_colors(),
    };
    if kind == ControlKind::Edit && themed_edit {
        ColorPair { fg: c.edit_fg, bg: c.edit_bg }
    } else {
        ColorPair { fg: c.fg, bg: c.bg }
    }
}

// ---------------------------------------------------------------------
// Where everything is
// ---------------------------------------------------------------------
/// Places of the controls of the window.
#[derive(Debug, Clone, Copy, PartialEq, Eq, Structural)]
pub struct SettingsLayout {
    pub theme_label: Place,
    pub theme_combo: Place,
    pub corner_label: Place,
    pub corner_combo: Place,
    pub save: Place,
    pub cancel: Place,
}

/// Upper edge of the second row.
pub open spec fn second_row(dpi: u32) -> int {
    geo::scaled(20, dpi) + geo::scaled(8, dpi) + geo::scaled(26, dpi) + geo::scaled(48, dpi)
}

/// The places of the controls at a resolution.
pub open spec fn layout_at(dpi: u32) -> SettingsLayout {
    let m = geo::scaled(20, dpi);
    let label_w = geo::scaled(80, dpi);
    let ctrl_h = geo::scaled(26, dpi);
    let row1 = m + geo::scaled(8, dpi);
    let row2 = second_row(dpi);
    let combo_x = m + label_w;
    let w = geo::scaled(WIN_W as int, dpi);
    let combo_w = w - m - combo_x;
    let list_h = geo::scaled(200, dpi);
    let btn_w = geo::scaled(88, dpi);
    let btn_h = geo::scaled(30, dpi);
    let gap = geo::scaled(8, dpi);
    let btn_y = layout::inner_height(WIN_H as int, dpi) - m - btn_h;
    let btn_x = w - m - (btn_w * 2 + gap);
    SettingsLayout {
        theme_label: geo::place(m, row1, label_w, ctrl_h),
        theme_combo: geo::place(combo_x, row1, combo_w, list_h),
        corner_label: geo::place(m, row2, label_w, ctrl_h),
        corner_combo: geo::place(combo_x, row2, combo_w, list_h),
        save: geo::place(btn_x, btn_y, btn_w, btn_h),
        cancel: geo::place(btn_x + btn_w + gap, btn_y, btn_w, btn_h),
    }
}

/// The places of the controls.
pub fn settings_layout(dpi: u32) -> (l: SettingsLayout)
    requires
        geo::is_usual_dpi(dpi),
    ensures
        l == layout_at(dpi),
{
    let m: i32 = scale_px(20, dpi);
    let label_w: i32 = scale_px(80, dpi);
    let ctrl_h: i32 = scale_px(26, dpi);
    let row1: i32 = m + scale_px(8, dpi);
    let row2: i32 = row1 + ctrl_h + scale_px(48, dpi);
    let combo_x: i32 = m + label_w;
    let w: i32 = scale_px(WIN_W, dpi);
    let combo_w: i32 = w - m - combo_x;
    let list_h: i32 = scale_px(200, dpi);
    let btn_w: i32 = scale_px(88, dpi);
    let btn_h: i32 = scale_px(30, dpi);
    let gap: i32 = scale_px(8, dpi);
    let btn_y: i32 = client_height(WIN_H, dpi) - m - btn_h;
    let btn_x: i32 = w - m - (btn_w * 2 + gap);
    SettingsLayout {
        theme_label: Place { x: m, y: row1, width: label_w, height: ctrl_h },
        theme_combo: Place { x: combo_x, y: row1, width: combo_w, height: list_h },
        corner_label: Place { x: m, y: row2, width: label_w, height: ctrl_h },
        corner_combo: Place { x: combo_x, y: row2, width: combo_w, height: list_h },
        save: Place { x: btn_x, y: btn_y, width: btn_w, height: btn_h },
        cancel: Place { x: btn_x + btn_w + gap, y: btn_y, width: btn_w, height: btn_h },
    }
}

/// From the base resolution up, the labels and the buttons lie inside the window,
/// the buttons stand below the rows, and the lists end at the right margin.
pub proof fn settings_controls_fit(dpi: u32)
    requires
        geo::is_usual_dpi(dpi),
        geo::effective_dpi(dpi) >= geo::BASE_DPI,
    ensures
        ({
            let l = layout_at(dpi);
            let w = geo::scaled(WIN_W as int, dpi);
            let h = layout::inner_height(WIN_H as int, dpi);
            &&& geo::lies_in(l.theme_label, w, h)
            &&& geo::lies_in(l.corner_label, w, h)
            &&& geo::lies_in(l.save, w, h)
            &&& geo::lies_in(l.cancel, w, h)
            &&& l.theme_combo.width > 0
            &&& l.theme_combo.x + l.theme_combo.width == w - geo::scaled(20, dpi)
            &&& l.corner_combo.x + l.corner_combo.width == w - geo::scaled(20, dpi)
            &&& l.theme_label.y + l.theme_label.height < l.corner_label.y
            &&& l.corner_label.y + l.corner_label.height < l.save.y
            &&& l.save.x + l.save.width < l.cancel.x
        }),
{
}

/// What the lists show is what is saved: the theme and the corner shape at the
/// positions that the lists are set to, and everything else as it was. A window that
/// is opened and saved untouched changes nothing.
pub proof fn lists_are_saved(
    shared: SharedSettings,
    positions: (usize, usize),
    current: Settings,
    theme: ThemeMode,
    corner: CornerPreference,
)
    requires
        call_ensures(refresh_selections, (&shared,), positions),
    ensures
        ({
            let saved = chosen_settings(
                current,
                theme_position(theme) as i32,
                corner_position(corner) as i32,
            );
            &&& saved.theme == theme
            &&& saved.corner == corner
            &&& saved.show_badge_title == current.show_badge_title
            &&& saved.badge_always_top == current.badge_always_top
            &&& saved.show_balloon == current.show_balloon
        }),
        shared.value matches Some(s) ==> chosen_settings(
            s,
            positions.0 as i32,
            positions.1 as i32,
        ) == s,
{
}

/// The lists offer every choice once, in the order in which they are numbered.
pub proof fn lists_offer_every_choice(
    i: i32,
    theme: ThemeMode,
    corner: CornerPreference,
)
    requires
        0 <= i < 3,
        call_ensures(theme_from_index, (i,), theme),
        call_ensures(corner_from_index, (i,), corner),
    ensures
        theme_position(theme) == i,
        corner_position(corner) == i,
        i == 0 ==> theme == ThemeMode::System && corner == CornerPreference::Default,
        i == 1 ==> theme == ThemeMode::Light && corner == CornerPreference::Round,
        i == 2 ==> theme == ThemeMode::Dark && corner == CornerPreference::SmallRound,
{
}

/// The window saves when its button or Enter is pressed, and disappears without
/// saving when the other button or Escape is pressed or it is closed.
pub proof fn settings_save_when_told(data: Option<SettingsData>, event: SettingsEvent)
    ensures
        settings_reaction(data, event) == SettingsAction::Save <==> data is Some && (event
            == SettingsEvent::Command(205) || event == SettingsEvent::KeyDown(0x0D)),
        settings_reaction(data, event) == SettingsAction::Disappear <==> event
            == SettingsEvent::Command(206) || event is Close || (data is Some && event
            == SettingsEvent::KeyDown(0x1B)),
{
}

/// The controls have the colours of the theme: text fields those for text fields,
/// and everything else those of the window.
pub proof fn settings_have_the_colors_of_the_theme(
    c: ThemeColors,
    kind: ControlKind,
    field: ColorPair,
    label: ColorPair,
    bare: ColorPair,
)
    requires
        call_ensures(settings_ctlcolor, (Some(c), ControlKind::Edit, true), field),
        call_ensures(settings_ctlcolor, (Some(c), kind, false), label),
        call_ensures(settings_ctlcolor, (None, kind, false), bare),
    ensures
        field.fg == c.edit_fg && field.bg == c.edit_bg,
        label.fg == c.fg && label.bg == c.bg,
        bare.fg == theme::light().fg && bare.bg == theme::light().bg,
{
}

/// Saving puts what the lists show in force, stores the same, and tells the window
/// that takes it that the theme may have changed. What the lists do not show stays.
pub proof fn saved_lists_are_in_force(
    data: SettingsData,
    theme_idx: i32,
    corner_idx: i32,
    saved: (Settings, PostedMessage),
)
    ensures
        forall|shared: &mut SharedSettings| #[trigger]
            call_ensures(save_and_hide, (&data, shared, theme_idx, corner_idx), saved) ==> {
                &&& shared.value matches Some(before) ==> {
                    &&& final(shared).value == Some(saved.0)
                    &&& saved.0.show_badge_title == before.show_badge_title
                    &&& saved.0.badge_always_top == before.badge_always_top
                    &&& saved.0.show_balloon == before.show_balloon
                }
                &&& theme_idx == 0 ==> saved.0.theme == ThemeMode::System
                &&& theme_idx == 1 ==> saved.0.theme == ThemeMode::Light
                &&& theme_idx == 2 ==> saved.0.theme == ThemeMode::Dark
                &&& corner_idx == 0 ==> saved.0.corner == CornerPreference::Default
                &&& corner_idx == 1 ==> saved.0.corner == CornerPreference::Round
                &&& corner_idx == 2 ==> saved.0.corner == CornerPreference::SmallRound
                &&& saved.1.to == data.hidden_hwnd
                &&& saved.1.msg == WM_APP_THEME_CHANGED
            },
{
}

/// The window is shown and hidden in turn, and counts as hidden once it saved or was
/// told to disappear.
pub proof fn settings_are_shown_and_hidden(
    event: SettingsEvent,
    action: SettingsAction,
    hidden_hwnd: isize,
    shown: bool,
    hwnd: isize,
)
    ensures
        forall|d: &mut Option<SettingsData>| #[trigger]
            call_ensures(settings_wndproc, (d, event), action) ==> {
                &&& action == settings_reaction(*d, event)
                &&& *d is Some ==> {
                    &&& *final(d) is Some
                    &&& (*final(d))->0.hidden_hwnd == (*d)->0.hidden_hwnd
                    &&& action == SettingsAction::Save || action == SettingsAction::Disappear
                        ==> !(*final(d))->0.visible
                    &&& action != SettingsAction::Save && action != SettingsAction::Disappear
                        ==> (*final(d))->0.visible == (*d)->0.visible
                }
            },
        forall|d: &mut SettingsData| #[trigger]
            call_ensures(toggle_settings, (d, hidden_hwnd), shown) ==> {
                &&& shown == !d.visible
                &&& final(d).visible == shown
                &&& shown ==> final(d).hidden_hwnd == hidden_hwnd
                &&& !shown ==> final(d).hidden_hwnd == d.hidden_hwnd
            },
        forall|h: &mut SettingsHandle| #[trigger]
            call_ensures(set_settings_hwnd, (h, hwnd), ()) ==> {
                &&& h.hwnd is None ==> final(h).hwnd == Some(hwnd)
                &&& h.hwnd is Some ==> final(h).hwnd == h.hwnd
            },
{
}

/// The window is laid out as said here.
pub proof fn settings_are_laid_out_like_this(
    dpi: u32,
    l: SettingsLayout,
    shared: SharedSettings,
    s: Settings,
)
    requires
        call_ensures(settings_layout, (dpi,), l),
        call_ensures(current_settings, (&shared,), s),
    ensures
        l == layout_at(dpi),
        shared.value matches Some(set) ==> s == set,
{
}

} // verus!
