//! Colours of the light and the dark theme.
//!
//! A colour is a number that holds blue, green and red from the high byte to the
//! low, as the system takes it.

use crate::model::settings::{CornerPreference, ThemeMode};
use std::collections::HashMap;
use vstd::prelude::*;

verus! {

broadcast use vstd::std_specs::hash::group_hash_axioms;

/// The colours of a theme by purpose.
#[derive(Debug, Clone, Copy, PartialEq, Eq, Structural)]
pub struct ThemeColors {
    pub bg: u32,
    pub fg: u32,
    pub edit_bg: u32,
    pub edit_fg: u32,
    pub tooltip_bg: u32,
    pub tooltip_fg: u32,
    pub listview_bg: u32,
    pub listview_fg: u32,
    /// Main buttons and selections.
    pub accent: u32,
    /// Thin lines.
    pub border: u32,
    /// What is under the pointer.
    pub hover: u32,
    /// What is selected.
    pub selected: u32,
    /// Less important text.
    pub muted: u32,
    pub listview_alt_bg: u32,
    pub header_bg: u32,
    pub header_fg: u32,
}

/// The light theme.
pub open spec fn light() -> ThemeColors {
    ThemeColors {
        bg: 0x00F5F5F5,
        fg: 0x001F1F1F,
        edit_bg: 0x00FFFFFF,
        edit_fg: 0x001F1F1F,
        tooltip_bg: 0x00FFFFFF,
        tooltip_fg: 0x001F1F1F,
        listview_bg: 0x00FFFFFF,
        listview_fg: 0x001F1F1F,
        accent: 0x00008CFB,
        border: 0x00D0D0D0,
        hover: 0x00E9E9E9,
        selected: 0x00BFE2FE,
        muted: 0x006E6E6E,
        listview_alt_bg: 0x00F7F7F7,
        header_bg: 0x00F0F0F0,
        header_fg: 0x004A4A4A,
    }
}

/// The dark theme.
pub open spec fn dark() -> ThemeColors {
    ThemeColors {
        bg: 0x00202020,
        fg: 0x00E6E6E6,
        edit_bg: 0x002F2F2F,
        edit_fg: 0x00F0F0F0,
        tooltip_bg: 0x002F2F2F,
        tooltip_fg: 0x00F0F0F0,
        listview_bg: 0x00202020,
        listview_fg: 0x00E6E6E6,
        accent: 0x00008CFB,
        border: 0x003C3C3C,
        hover: 0x002A2A2A,
        selected: 0x00183B57,
        muted: 0x009E9E9E,
        listview_alt_bg: 0x00282828,
        header_bg: 0x00262626,
        header_fg: 0x00C8C8C8,
    }
}

/// The colours of the light theme.
pub fn light_colors() -> (colors: ThemeColors)
    ensures
        colors == light(),
{
    ThemeColors {
        bg: 0x00F5F5F5,
        fg: 0x001F1F1F,
        edit_bg: 0x00FFFFFF,
        edit_fg: 0x001F1F1F,
        tooltip_bg: 0x00FFFFFF,
        tooltip_fg: 0x001F1F1F,
        listview_bg: 0x00FFFFFF,
        listview_fg: 0x001F1F1F,
        accent: 0x00008CFB,
        border: 0x00D0D0D0,
        hover: 0x00E9E9E9,
        selected: 0x00BFE2FE,
        muted: 0x006E6E6E,
        listview_alt_bg: 0x00F7F7F7,
        header_bg: 0x00F0F0F0,
        header_fg: 0x004A4A4A,
    }
}

/// The colours of the dark theme.
pub fn dark_colors() -> (colors: ThemeColors)
    ensures
        colors == dark(),
{
    ThemeColors {
        bg: 0x00202020,
        fg: 0x00E6E6E6,
        edit_bg: 0x002F2F2F,
        edit_fg: 0x00F0F0F0,
        tooltip_bg: 0x002F2F2F,
        tooltip_fg: 0x00F0F0F0,
        listview_bg: 0x00202020,
        listview_fg: 0x00E6E6E6,
        accent: 0x00008CFB,
        border: 0x003C3C3C,
        hover: 0x002A2A2A,
        selected: 0x00183B57,
        muted: 0x009E9E9E,
        listview_alt_bg: 0x00282828,
        header_bg: 0x00262626,
        header_fg: 0x00C8C8C8,
    }
}

/// Whether a theme preference means dark colours, on a system that is dark or
/// not.
pub open spec fn means_dark(theme: ThemeMode, system_dark: bool) -> bool {
    match theme {
        ThemeMode::System => system_dark,
        ThemeMode::Light => false,
        ThemeMode::Dark => true,
    }
}

/// Whether a theme preference means dark colours.
pub fn is_dark(theme: ThemeMode, system_dark: bool) -> (dark: bool)
    ensures
        dark == means_dark(theme, system_dark),
{
    match theme {
        ThemeMode::System => system_dark,
        ThemeMode::Light => false,
        ThemeMode::Dark => true,
    }
}

/// The colours that a theme preference means.
pub fn resolve_colors(theme: ThemeMode, system_dark: bool) -> (colors: ThemeColors)
    ensures
        colors == (if means_dark(theme, system_dark) {
            dark()
        } else {
            light()
        }),
{
    if is_dark(theme, system_dark) {
        dark_colors()
    } else {
        light_colors()
    }
}

/// The two themes differ in every colour but the accent.
pub proof fn themes_differ()
    ensures
        light().bg != dark().bg,
        light().fg != dark().fg,
        light().edit_bg != dark().edit_bg,
        light().edit_fg != dark().edit_fg,
        light().tooltip_bg != dark().tooltip_bg,
        light().tooltip_fg != dark().tooltip_fg,
        light().listview_bg != dark().listview_bg,
        light().listview_fg != dark().listview_fg,
        light().border != dark().border,
        light().hover != dark().hover,
        light().selected != dark().selected,
        light().muted != dark().muted,
        light().listview_alt_bg != dark().listview_alt_bg,
        light().header_bg != dark().header_bg,
        light().header_fg != dark().header_fg,
        light().accent == dark().accent,
{
}

/// Brightness of a colour, from 0 to 255.
pub open spec fn luma(color: u32) -> int {
    (channel(color, 0) * 299 + channel(color, 1) * 587 + channel(color, 2) * 114) / 1000
}

/// The dark theme is neither black nor glaring: its background is a dark grey,
/// and its text stands out by a wide margin.
pub proof fn dark_theme_is_soft()
    ensures
        28 <= luma(dark().bg) <= 48,
        luma(dark().fg) - luma(dark().bg) > 180,
{
}

/// Whether the system is dark. `apps_use_light` is the system's own setting,
/// where it has one; otherwise the red part of the window colour decides.
pub fn detect_system_dark(apps_use_light: Option<u32>, window_color: u32) -> (dark: bool)
    ensures
        dark == (match apps_use_light {
            Some(value) => value == 0,
            None => channel(window_color, 0) < 128,
        }),
{
    match apps_use_light {
        Some(value) => value == 0,
        None => window_color % 256 < 128,
    }
}

/// The number by which the system knows a corner shape.
pub fn corner_value(corner: CornerPreference) -> (value: i32)
    ensures
        value == (match corner {
            CornerPreference::Default => 0i32,
            CornerPreference::Round => 2i32,
            CornerPreference::SmallRound => 3i32,
        }),
{
    match corner {
        CornerPreference::Default => 0,
        CornerPreference::Round => 2,
        CornerPreference::SmallRound => 3,
    }
}

// ---------------------------------------------------------------------
// Mixing colours
// ---------------------------------------------------------------------
/// One part of a colour: 0 is red, 1 is green, 2 is blue.
pub open spec fn channel(color: u32, i: int) -> int {
    if i == 0 {
        color as int % 256
    } else if i == 1 {
        (color as int / 256) % 256
    } else {
        (color as int / 65536) % 256
    }
}

/// A number between `x` and `y`, `percent` of the way, rounded to the nearest.
pub open spec fn between(x: int, y: int, percent: int) -> int {
    (x * (100 - percent) + y * percent + 50) / 100
}

/// A percentage between 0 and 100.
pub open spec fn as_percent(percent: i32) -> int {
    if percent < 0 {
        0
    } else if percent > 100 {
        100
    } else {
        percent as int
    }
}

/// The mixture of two colours.
pub open spec fn mixed(a: u32, b: u32, percent: i32) -> int {
    let p = as_percent(percent);
    between(channel(a, 0), channel(b, 0), p) + between(channel(a, 1), channel(b, 1), p) * 256
        + between(channel(a, 2), channel(b, 2), p) * 65536
}

fn mix_channel(x: u32, y: u32, percent: u32) -> (r: u32)
    requires
        x < 256,
        y < 256,
        percent <= 100,
    ensures
        r == between(x as int, y as int, percent as int),
        r < 256,
{
    proof {
        assert(0 <= x * (100 - percent) <= 255 * (100 - percent)) by (nonlinear_arith)
            requires
                0 <= x <= 255,
                percent <= 100,
        ;
        assert(0 <= y * percent <= 255 * percent) by (nonlinear_arith)
            requires
                0 <= y <= 255,
                0 <= percent,
        ;
    }
    (x * (100 - percent) + y * percent + 50) / 100
}

/// The mixture of `a` and `b`: `a` alone at 0 percent, `b` alone at 100.
pub fn blend(a: u32, b: u32, percent: i32) -> (color: u32)
    ensures
        color == mixed(a, b, percent),
        color < 0x0100_0000,
{
    let p: u32 = if percent < 0 {
        0
    } else if percent > 100 {
        100
    } else {
        percent as u32
    };
    let red: u32 = mix_channel(a % 256, b % 256, p);
    let green: u32 = mix_channel((a / 256) % 256, (b / 256) % 256, p);
    let blue: u32 = mix_channel((a / 65536) % 256, (b / 65536) % 256, p);
    red + green * 256 + blue * 65536
}

/// The ends of a mixture are the two colours themselves, and a colour mixed with
/// itself stays as it is.
pub proof fn mixture_ends(a: u32, b: u32, percent: i32)
    requires
        a < 0x0100_0000,
        b < 0x0100_0000,
    ensures
        mixed(a, b, 0) == a,
        mixed(a, b, 100) == b,
        mixed(a, a, percent) == a,
{
    let p = as_percent(percent);
    let r = channel(a, 0);
    let g = channel(a, 1);
    let bl = channel(a, 2);
    assert(r * (100 - p) + r * p == r * 100) by (nonlinear_arith);
    assert(g * (100 - p) + g * p == g * 100) by (nonlinear_arith);
    assert(bl * (100 - p) + bl * p == bl * 100) by (nonlinear_arith);
    assert forall|x: int, y: int| 0 <= x < 256 && 0 <= y < 256 implies #[trigger] between(
        x,
        y,
        100,
    ) == y && between(x, y, 0) == x by {}
    assert(a == r + g * 256 + bl * 65536);
    assert(b == channel(b, 0) + channel(b, 1) * 256 + channel(b, 2) * 65536);
}

// ---------------------------------------------------------------------
// Brushes and the theme in force
// ---------------------------------------------------------------------
/// Brushes by colour. A brush is made once and kept as long as the program runs.
#[derive(Debug)]
pub struct BrushCache {
    pub brushes: HashMap<u32, usize>,
}

impl BrushCache {
    pub fn new() -> (cache: Self)
        ensures
            cache.brushes@ == Map::<u32, usize>::empty(),
    {
        BrushCache { brushes: HashMap::new() }
    }

    /// The brush for a colour, if it was made.
    pub fn get_brush(&self, color: u32) -> (brush: Option<usize>)
        ensures
            brush == (if self.brushes@.contains_key(color) {
                Some(self.brushes@[color])
            } else {
                None
            }),
    {
        match self.brushes.get(&color) {
            Some(brush) => Some(*brush),
            None => None,
        }
    }

    /// Keeps the brush that was made for a colour.
    pub fn keep(&mut self, color: u32, brush: usize)
        ensures
            final(self).brushes@ == old(self).brushes@.insert(color, brush),
    {
        self.brushes.insert(color, brush);
    }
}

/// The theme in force, once there is one.
#[derive(Debug, Clone, Copy, PartialEq, Eq, Structural)]
pub struct ThemeState {
    pub colors: Option<ThemeColors>,
}

/// Puts a theme in force.
pub fn set_theme(state: &mut ThemeState, colors: ThemeColors)
    ensures
        final(state).colors == Some(colors),
{
    state.colors = Some(colors);
}

/// The colours in force.
pub fn theme_colors(state: &ThemeState) -> (colors: Option<ThemeColors>)
    ensures
        colors == state.colors,
{
    state.colors
}

/// The theme is the one that the user chose; who follows the system gets what the
/// system has.
pub proof fn themes_are_as_chosen(
    system_dark: bool,
    light_one: ThemeColors,
    dark_one: ThemeColors,
    followed: ThemeColors,
    dark: bool,
    theme: ThemeMode,
)
    requires
        call_ensures(resolve_colors, (ThemeMode::Light, system_dark), light_one),
        call_ensures(resolve_colors, (ThemeMode::Dark, system_dark), dark_one),
        call_ensures(resolve_colors, (ThemeMode::System, system_dark), followed),
        call_ensures(is_dark, (theme, system_dark), dark),
    ensures
        luma(light_one.bg) > 128 && luma(light_one.fg) < 128,
        luma(dark_one.bg) < 128 && luma(dark_one.fg) > 128,
        system_dark ==> followed == dark_one,
        !system_dark ==> followed == light_one,
        theme == ThemeMode::Light ==> !dark,
        theme == ThemeMode::Dark ==> dark,
        theme == ThemeMode::System ==> dark == system_dark,
{
}

/// Text can be read on its ground, in both themes and wherever there is text.
pub proof fn text_stands_out(dark_one: bool)
    ensures
        ({
            let c = if dark_one {
                dark()
            } else {
                light()
            };
            &&& (luma(c.bg) > luma(c.fg)) == !dark_one
            &&& (luma(c.edit_bg) > luma(c.edit_fg)) == !dark_one
            &&& (luma(c.tooltip_bg) > luma(c.tooltip_fg)) == !dark_one
            &&& (luma(c.listview_bg) > luma(c.listview_fg)) == !dark_one
            &&& (luma(c.header_bg) > luma(c.header_fg)) == !dark_one
        }),
{
}

/// The system is dark when it says so; where it says nothing, when the red part of
/// its window colour is in the lower half.
pub proof fn the_system_says_what_it_is(
    value: u32,
    window_color: u32,
    said: bool,
    guessed: bool,
)
    requires
        call_ensures(detect_system_dark, (Some(value), window_color), said),
        call_ensures(detect_system_dark, (None, window_color), guessed),
    ensures
        said <==> value == 0,
        guessed <==> window_color % 256 < 128,
{
}

/// Every corner shape has a number of its own, and the default one leaves the shape
/// to the system.
pub proof fn corner_shapes_are_told_apart(
    a: CornerPreference,
    b: CornerPreference,
    x: i32,
    y: i32,
)
    requires
        call_ensures(corner_value, (a,), x),
        call_ensures(corner_value, (b,), y),
    ensures
        x == y ==> a == b,
        a == CornerPreference::Default <==> x == 0,
        a == CornerPreference::Round <==> x == 2,
        a == CornerPreference::SmallRound <==> x == 3,
{
}

/// A mixture lies between its two colours in every part, and is the nearest number
/// to the exact mixture: the larger the percentage, the nearer to the second one.
pub proof fn mixtures_lie_between(x: int, y: int, percent: int)
    requires
        0 <= x <= 255,
        0 <= y <= 255,
        0 <= percent <= 100,
    ensures
        ({
            let exact = x * (100 - percent) + y * percent;
            let r = between(x, y, percent);
            &&& exact - 50 <= r * 100 <= exact + 50
            &&& x <= y ==> x <= r <= y
            &&& y <= x ==> y <= r <= x
        }),
{
    let exact = x * (100 - percent) + y * percent;
    assert(x <= y ==> x * 100 <= exact <= y * 100) by (nonlinear_arith)
        requires
            exact == x * (100 - percent) + y * percent,
            0 <= percent <= 100,
    ;
    assert(y <= x ==> y * 100 <= exact <= x * 100) by (nonlinear_arith)
        requires
            exact == x * (100 - percent) + y * percent,
            0 <= percent <= 100,
    ;
}

/// Every part of a mixture is mixed from the same part of the two colours.
pub proof fn parts_are_mixed_alike(a: u32, b: u32, percent: i32, color: u32, i: int)
    requires
        call_ensures(blend, (a, b, percent), color),
        0 <= percent <= 100,
        0 <= i < 3,
    ensures
        channel(color, i) == between(channel(a, i), channel(b, i), percent as int),
{
    let p = percent as int;
    let x = between(channel(a, 0), channel(b, 0), p);
    let y = between(channel(a, 1), channel(b, 1), p);
    let z = between(channel(a, 2), channel(b, 2), p);
    mixtures_lie_between(channel(a, 0), channel(b, 0), p);
    mixtures_lie_between(channel(a, 1), channel(b, 1), p);
    mixtures_lie_between(channel(a, 2), channel(b, 2), p);
    lemma_parts(color, x, y, z);
}

proof fn lemma_parts(color: u32, x: int, y: int, z: int)
    requires
        0 <= x < 256,
        0 <= y < 256,
        0 <= z < 256,
        color == x + y * 256 + z * 65536,
    ensures
        channel(color, 0) == x,
        channel(color, 1) == y,
        channel(color, 2) == z,
{
}

/// The theme that is put in force is in force, and a brush that was made for a colour
/// is found for this colour and no other one.
pub proof fn themes_and_brushes_are_kept(colors: ThemeColors, color: u32, other: u32, brush: usize)
    requires
        other != color,
    ensures
        forall|s: &mut ThemeState| #[trigger]
            call_ensures(set_theme, (s, colors), ()) ==> final(s).colors == Some(colors),
        forall|s: &ThemeState, now: Option<ThemeColors>| #[trigger]
            call_ensures(theme_colors, (s,), now) ==> now == s.colors,
        forall|c: &mut BrushCache| #[trigger]
            call_ensures(BrushCache::keep, (c, color, brush), ()) ==> {
                &&& final(c).brushes@.contains_key(color)
                &&& final(c).brushes@[color] == brush
                &&& final(c).brushes@.contains_key(other) == c.brushes@.contains_key(other)
                &&& c.brushes@.contains_key(other) ==> final(c).brushes@[other]
                    == c.brushes@[other]
            },
        forall|c: &BrushCache, found: Option<usize>| #[trigger]
            call_ensures(BrushCache::get_brush, (c, color), found) ==> (found is Some
                <==> c.brushes@.contains_key(color)) && (found matches Some(b) ==> b
                == c.brushes@[color]),
{
}

/// One part of a mixture.
pub proof fn mixed_part(a: u32, b: u32, percent: i32, i: int)
    requires
        0 <= percent <= 100,
        0 <= i < 3,
    ensures
        0 <= mixed(a, b, percent) < 0x0100_0000,
        channel(mixed(a, b, percent) as u32, i) == between(
            channel(a, i),
            channel(b, i),
            percent as int,
        ),
{
    let p = percent as int;
    let x = between(channel(a, 0), channel(b, 0), p);
    let y = between(channel(a, 1), channel(b, 1), p);
    let z = between(channel(a, 2), channel(b, 2), p);
    mixtures_lie_between(channel(a, 0), channel(b, 0), p);
    mixtures_lie_between(channel(a, 1), channel(b, 1), p);
    mixtures_lie_between(channel(a, 2), channel(b, 2), p);
    assert(mixed(a, b, percent) == x + y * 256 + z * 65536);
    lemma_parts(mixed(a, b, percent) as u32, x, y, z);
}

} // verus!
