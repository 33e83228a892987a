//! Scaling for the windows that are laid out control by control.

use crate::ui::geo;
use vstd::prelude::*;

verus! {

/// Dots per inch at which design pixels and device pixels agree.
pub const BASE_DPI: u32 = 96;

/// Converts design pixels to device pixels.
pub fn scale_px(px: i32, dpi: u32) -> (r: i32)
    ensures
        r == geo::scaled(px as int, dpi),
{
    geo::scale_px(px, dpi)
}

/// Height of a window's title bar, roughly.
pub const TITLEBAR_H: i32 = 30;

/// Height that is left of a window of `win_h` design pixels below its title bar.
pub open spec fn inner_height(win_h: int, dpi: u32) -> int {
    geo::scaled(win_h, dpi) - geo::scaled(TITLEBAR_H as int, dpi)
}

/// Height that is left of a window below its title bar.
pub fn client_height(win_h: i32, dpi: u32) -> (h: i32)
    ensures
        h == inner_height(win_h as int, dpi),
{
    scale_px(win_h, dpi) - scale_px(TITLEBAR_H, dpi)
}

/// Title bar and what is left below it make up the window, at every resolution.
pub proof fn windows_have_a_title_bar(win_h: i32, dpi: u32, left: i32, bar: i32, whole: i32)
    requires
        call_ensures(client_height, (win_h, dpi), left),
        call_ensures(scale_px, (30, dpi), bar),
        call_ensures(scale_px, (win_h, dpi), whole),
    ensures
        left + bar == whole,
        left == inner_height(win_h as int, dpi),
        bar == geo::scaled(30, dpi),
{
}

} // verus!
