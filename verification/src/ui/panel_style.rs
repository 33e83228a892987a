//! Colours, glyphs and text widths of the overview panel.

use crate::text;
use crate::text::chars_of;
use vstd::prelude::*;
use vstd::string::StrSliceExecFns;
use vstd::string::StringExecFns;

verus! {

/// A colour with its opacity in percent.
#[derive(Debug, Clone, Copy, PartialEq, Eq, Structural)]
pub struct Tint {
    pub red: u8,
    pub green: u8,
    pub blue: u8,
    pub opacity: u8,
}

/// The colours of the panel by purpose.
#[derive(Debug, Clone, Copy, PartialEq, Eq, Structural)]
pub struct PanelPalette {
    /// Behind everything.
    pub surface: Tint,
    /// Behind a row.
    pub card: Tint,
    /// Behind the row under the pointer.
    pub hover: Tint,
    pub text: Tint,
    /// Less important text.
    pub subtle: Tint,
    pub accent: Tint,
    pub border: Tint,
    /// Actions that destroy something.
    pub danger: Tint,
}

pub open spec fn tint(red: u8, green: u8, blue: u8, opacity: u8) -> Tint {
    Tint { red, green, blue, opacity }
}

/// The colours of the dark and of the light theme.
pub open spec fn palette_of(dark: bool) -> PanelPalette {
    if dark {
        PanelPalette {
            surface: tint(0x20, 0x20, 0x20, 100),
            card: tint(0x2D, 0x2D, 0x2D, 85),
            hover: tint(0xFF, 0xFF, 0xFF, 8),
            text: tint(0xF3, 0xF3, 0xF3, 100),
            subtle: tint(0xA0, 0xA0, 0xA0, 100),
            accent: tint(0x00, 0x78, 0xD4, 100),
            border: tint(0x3A, 0x3A, 0x3A, 100),
            danger: tint(0xD1, 0x34, 0x38, 100),
        }
    } else {
        PanelPalette {
            surface: tint(0xF5, 0xF5, 0xF5, 100),
            card: tint(0xFF, 0xFF, 0xFF, 100),
            hover: tint(0x00, 0x00, 0x00, 5),
            text: tint(0x1F, 0x1F, 0x1F, 100),
            subtle: tint(0x6E, 0x6E, 0x6E, 100),
            accent: tint(0x00, 0x78, 0xD4, 100),
            border: tint(0xD0, 0xD0, 0xD0, 100),
            danger: tint(0xD1, 0x34, 0x38, 100),
        }
    }
}

fn make_tint(red: u8, green: u8, blue: u8, opacity: u8) -> (t: Tint)
    ensures
        t == tint(red, green, blue, opacity),
{
    Tint { red, green, blue, opacity }
}

/// The colours of the panel in the given theme.
pub fn panel_palette(dark: bool) -> (palette: PanelPalette)
    ensures
        palette == palette_of(dark),
{
    if dark {
        PanelPalette {
            surface: make_tint(0x20, 0x20, 0x20, 100),
            card: make_tint(0x2D, 0x2D, 0x2D, 85),
            hover: make_tint(0xFF, 0xFF, 0xFF, 8),
            text: make_tint(0xF3, 0xF3, 0xF3, 100),
            subtle: make_tint(0xA0, 0xA0, 0xA0, 100),
            accent: make_tint(0x00, 0x78, 0xD4, 100),
            border: make_tint(0x3A, 0x3A, 0x3A, 100),
            danger: make_tint(0xD1, 0x34, 0x38, 100),
        }
    } else {
        PanelPalette {
            surface: make_tint(0xF5, 0xF5, 0xF5, 100),
            card: make_tint(0xFF, 0xFF, 0xFF, 100),
            hover: make_tint(0x00, 0x00, 0x00, 5),
            text: make_tint(0x1F, 0x1F, 0x1F, 100),
            subtle: make_tint(0x6E, 0x6E, 0x6E, 100),
            accent: make_tint(0x00, 0x78, 0xD4, 100),
            border: make_tint(0xD0, 0xD0, 0xD0, 100),
            danger: make_tint(0xD1, 0x34, 0x38, 100),
        }
    }
}

/// The two themes differ in every colour that does not stand for a meaning of
/// its own, and share the others.
pub proof fn themes_differ()
    ensures
        palette_of(true).surface != palette_of(false).surface,
        palette_of(true).card != palette_of(false).card,
        palette_of(true).hover != palette_of(false).hover,
        palette_of(true).text != palette_of(false).text,
        palette_of(true).subtle != palette_of(false).subtle,
        palette_of(true).border != palette_of(false).border,
        palette_of(true).accent == palette_of(false).accent,
        palette_of(true).danger == palette_of(false).danger,
{
}

/// Handle by which a row is dragged.
pub const DRAG_HANDLE: &'static str = "⋮⋮";

/// Arrow of a row whose note is hidden.
pub const CHEVRON_RIGHT: &'static str = "▸";

/// Arrow of a row whose note is shown.
pub const CHEVRON_DOWN: &'static str = "▾";

pub const ICON_EDIT: &'static str = "✎";

pub const ICON_DELETE: &'static str = "🗑";

pub const ICON_TOP: &'static str = "▲";

pub const ICON_SAVE: &'static str = "✓";

pub const ICON_CANCEL: &'static str = "✕";

/// Whether a character is as wide as two: Chinese and Japanese characters,
/// their punctuation, and full-width forms.
pub open spec fn is_wide(c: char) -> bool {
    ||| 0x3400 <= c as u32 <= 0x4DBF
    ||| 0x4E00 <= c as u32 <= 0x9FFF
    ||| 0x3040 <= c as u32 <= 0x30FF
    ||| 0x3000 <= c as u32 <= 0x303F
    ||| 0xFF00 <= c as u32 <= 0xFFEF
}

pub open spec fn width_of(c: char) -> nat {
    if is_wide(c) {
        2
    } else {
        1
    }
}

/// Width of a text in units.
pub open spec fn units(s: Seq<char>) -> nat
    decreases s.len(),
{
    if s.len() == 0 {
        0
    } else {
        units(s.drop_last()) + width_of(s.last())
    }
}

/// Length of the longest beginning of `s` that leaves one of `max` units free.
pub open spec fn kept_len(s: Seq<char>, max: nat) -> nat
    decreases s.len(),
{
    if s.len() == 0 {
        0
    } else if units(s) < max {
        s.len()
    } else {
        kept_len(s.drop_last(), max)
    }
}

/// `s` cut to `max` units: unchanged when it fits, else the longest beginning
/// that leaves room for the ellipsis behind it.
pub open spec fn cut_to_units(s: Seq<char>, max: nat) -> Seq<char> {
    if units(s) <= max {
        s
    } else {
        s.take(kept_len(s, max) as int) + "…"@
    }
}

/// Width of a character in units.
pub fn unit_width(c: char) -> (w: usize)
    ensures
        w == width_of(c),
{
    let cp: u32 = c as u32;
    if (0x3400 <= cp && cp <= 0x4DBF) || (0x4E00 <= cp && cp <= 0x9FFF) || (0x3040 <= cp && cp
        <= 0x30FF) || (0x3000 <= cp && cp <= 0x303F) || (0xFF00 <= cp && cp <= 0xFFEF) {
        2
    } else {
        1
    }
}

proof fn lemma_units_monotone(s: Seq<char>, i: int, j: int)
    requires
        0 <= i <= j <= s.len(),
    ensures
        units(s.take(i)) <= units(s.take(j)),
    decreases j - i,
{
    if i < j {
        lemma_units_monotone(s, i, j - 1);
        assert(s.take(j).drop_last() =~= s.take(j - 1));
    }
}

proof fn lemma_kept_len(s: Seq<char>, max: nat)
    ensures
        kept_len(s, max) <= s.len(),
        kept_len(s, max) > 0 ==> units(s.take(kept_len(s, max) as int)) < max,
        kept_len(s, max) < s.len() ==> units(s.take(kept_len(s, max) as int + 1)) >= max,
    decreases s.len(),
{
    if s.len() > 0 {
        if units(s) < max {
            assert(s.take(s.len() as int) =~= s);
        } else {
            lemma_kept_len(s.drop_last(), max);
            let k = kept_len(s, max) as int;
            assert(s.drop_last().take(k) =~= s.take(k));
            if k < s.len() - 1 {
                assert(s.drop_last().take(k + 1) =~= s.take(k + 1));
            } else {
                assert(s.take(k + 1) =~= s);
            }
        }
    }
}

/// Cuts a text to `max_units` units, with an ellipsis where something was cut.
pub fn truncate_units(s: &str, max_units: usize) -> (t: String)
    ensures
        t@ == cut_to_units(s@, max_units as nat),
{
    let chars: Vec<char> = chars_of(s);
    let n: usize = chars.len();
    let mut total: u128 = 0;
    let mut i: usize = 0;
    proof {
        assert(s@.take(0).len() == 0);
    }
    while i < n
        invariant
            i <= n == chars.len(),
            chars@ == s@,
            total == units(s@.take(i as int)),
            total <= 2 * i,
        decreases n - i,
    {
        proof {
            assert(s@.take(i + 1).drop_last() =~= s@.take(i as int));
        }
        total = total + unit_width(chars[i]) as u128;
        i = i + 1;
    }
    proof {
        assert(s@.take(n as int) =~= s@);
    }
    if total <= max_units as u128 {
        return text::owned(s);
    }
    let mut used: u128 = 0;
    let mut k: usize = 0;
    while k < n && used + unit_width(chars[k]) as u128 + 1 <= max_units as u128
        invariant
            k <= n == chars.len(),
            chars@ == s@,
            used == units(s@.take(k as int)),
            used <= 2 * k,
            k > 0 ==> used < max_units,
        decreases n - k,
    {
        proof {
            assert(s@.take(k + 1).drop_last() =~= s@.take(k as int));
        }
        used = used + unit_width(chars[k]) as u128;
        k = k + 1;
    }
    proof {
        let best = kept_len(s@, max_units as nat) as int;
        lemma_kept_len(s@, max_units as nat);
        if k < n {
            assert(s@.take(k + 1).drop_last() =~= s@.take(k as int));
            assert(units(s@.take(k + 1)) >= max_units);
        }
        if best < k {
            lemma_units_monotone(s@, best + 1, k as int);
        }
        if k < best {
            lemma_units_monotone(s@, k + 1, best);
        }
        assert(best == k);
        assert(s@.subrange(0, k as int) =~= s@.take(k as int));
    }
    let mut t: String = text::owned(s.substring_char(0, k));
    t.append("…");
    t
}

/// A cut text is never wider than asked for, unless not even the ellipsis fits.
pub proof fn cut_text_fits(s: Seq<char>, max: nat)
    requires
        max >= 1,
    ensures
        units(cut_to_units(s, max)) <= max,
{
    if units(s) > max {
        let k = kept_len(s, max) as int;
        lemma_kept_len(s, max);
        reveal_strlit("…");
        let t = s.take(k) + "…"@;
        assert(t.drop_last() =~= s.take(k));
        assert(t.last() == '…');
        if k == 0 {
            assert(units(s.take(0)) == 0);
        }
    }
}

/// A text that fits is not cut. A longer one keeps its beginning, ends with an
/// ellipsis, and no more of it would have fitted.
pub proof fn cut_text_keeps_its_beginning(s: Seq<char>, max: nat)
    requires
        max >= 1,
    ensures
        units(s) <= max ==> cut_to_units(s, max) == s,
        units(s) > max ==> {
            let cut = cut_to_units(s, max);
            let n = cut.len() - 1;
            &&& 0 <= n < s.len()
            &&& cut.take(n) == s.take(n)
            &&& cut.last() == '…'
            &&& units(s.take(n)) < max
            &&& units(s.take(n + 1)) >= max
        },
{
    reveal_strlit("…");
    if units(s) > max {
        lemma_kept_len(s, max);
        let n = kept_len(s, max) as int;
        let cut = cut_to_units(s, max);
        assert(cut.take(n) =~= s.take(n));
        if n == s.len() {
            assert(s.take(n) =~= s);
        }
        if n == 0 {
            assert(s.take(0) =~= Seq::empty());
        }
    }
}

/// The width of a text is the sum of the widths of its parts, a Chinese character is
/// as wide as two Latin letters, and no character takes no room.
pub proof fn widths_add_up(a: Seq<char>, b: Seq<char>, c: char)
    ensures
        units(a + b) == units(a) + units(b),
        width_of('中') == 2,
        width_of('a') == 1,
        1 <= width_of(c) <= 2,
        'a' <= c <= 'z' || 'A' <= c <= 'Z' || '0' <= c <= '9' ==> width_of(c) == 1,
        '一' <= c <= '鿿' ==> width_of(c) == 2,
    decreases b.len(),
{
    if b.len() == 0 {
        assert(a + b =~= a);
    } else {
        widths_add_up(a, b.drop_last(), c);
        assert((a + b).drop_last() =~= a + b.drop_last());
    }
}

/// Brightness of a colour.
pub open spec fn brightness(t: Tint) -> int {
    t.red * 299 + t.green * 587 + t.blue * 114
}

/// Text can be read in both themes: the dark one has light text on a dark ground and
/// the light one dark text on a light ground, less important text stands out less,
/// actions that destroy something are red, and the accent is blue.
pub proof fn panel_can_be_read(dark: bool, p: PanelPalette)
    requires
        call_ensures(panel_palette, (dark,), p),
    ensures
        p.text.opacity == 100 && p.surface.opacity == 100,
        dark ==> brightness(p.surface) < brightness(p.card) < brightness(p.subtle) < brightness(
            p.text,
        ),
        dark ==> brightness(p.surface) < brightness(p.border),
        !dark ==> brightness(p.text) < brightness(p.subtle) < brightness(p.border) < brightness(
            p.surface,
        ) < brightness(p.card),
        dark <==> brightness(p.hover) > 0,
        p.hover.opacity < 10,
        p.danger.red > p.danger.green + p.danger.blue,
        p.accent.blue > p.accent.red + p.accent.green / 2,
{
}

/// What is said here of cutting texts is said of the function that cuts them.
pub proof fn texts_are_cut_like_this(s: &str, max: usize, t: String, c: char, w: usize)
    requires
        call_ensures(truncate_units, (s, max), t),
        call_ensures(unit_width, (c,), w),
    ensures
        t@ == cut_to_units(s@, max as nat),
        w == width_of(c),
{
}

} // verus!
