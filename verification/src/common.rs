//! Window messages of the program and text in the form that the system takes.

use crate::text;
use crate::text::chars_of;
use vstd::prelude::*;

verus! {

/// First window message that a program may define for itself.
pub const WM_APP: u32 = 0x8000;

/// Give a window a badge. The first parameter is the window.
pub const WM_CREATE_OVERLAY: u32 = 0x8001;

/// Take a window's badge away. The first parameter is the window.
pub const WM_DESTROY_OVERLAY: u32 = 0x8002;

/// Something happened to a window of another program.
pub const WM_APP_WINEVENT: u32 = 0x8003;

/// Open the settings window.
pub const WM_APP_OPEN_SETTINGS: u32 = 0x8004;

/// The theme changed.
pub const WM_APP_THEME_CHANGED: u32 = 0x8005;

/// The tags changed. The first parameter is the window.
pub const WM_APP_TAGS_CHANGED: u32 = 0x8006;

/// Edit the tag of a window. The first parameter is the window.
pub const WM_APP_EDIT_TAG: u32 = 0x8007;

/// The user did something to the tray icon.
pub const WM_APP_TRAY: u32 = 0x8008;

/// Quit. The first parameter is 1 when the user has agreed already.
pub const WM_APP_EXIT: u32 = 0x8009;

/// The messages of the program do not collide with each other or with those of
/// the system.
pub proof fn messages_are_distinct()
    ensures
        WM_APP < WM_CREATE_OVERLAY < WM_DESTROY_OVERLAY < WM_APP_WINEVENT < WM_APP_OPEN_SETTINGS
            < WM_APP_THEME_CHANGED < WM_APP_TAGS_CHANGED < WM_APP_EDIT_TAG < WM_APP_TRAY
            < WM_APP_EXIT < 0xC000,
{
}

/// A character in UTF-16: one unit, or two for the characters beyond the first
/// 65536.
pub open spec fn utf16_char(c: char) -> Seq<u16> {
    let v = c as int;
    if v < 0x10000 {
        seq![v as u16]
    } else {
        seq![(0xD800 + (v - 0x10000) / 0x400) as u16, (0xDC00 + (v - 0x10000) % 0x400) as u16]
    }
}

/// A text in UTF-16.
pub open spec fn utf16(s: Seq<char>) -> Seq<u16>
    decreases s.len(),
{
    if s.len() == 0 {
        Seq::empty()
    } else {
        utf16(s.drop_last()) + utf16_char(s.last())
    }
}

/// Puts the units of a character behind those that are there.
fn push_utf16(units: &mut Vec<u16>, c: char)
    ensures
        final(units)@ == old(units)@ + utf16_char(c),
{
    let v: u32 = c as u32;
    if v < 0x10000 {
        units.push(v as u16);
    } else {
        let w: u32 = v - 0x10000;
        units.push((0xD800 + w / 0x400) as u16);
        units.push((0xDC00 + w % 0x400) as u16);
    }
    proof {
        assert(units@ =~= old(units)@ + utf16_char(c));
    }
}

/// The UTF-16 units of a text.
pub fn encode_utf16(s: &str) -> (units: Vec<u16>)
    ensures
        units@ == utf16(s@),
{
    let chars: Vec<char> = chars_of(s);
    let mut units: Vec<u16> = Vec::new();
    let mut i: usize = 0;
    while i < chars.len()
        invariant
            i <= chars.len(),
            chars@ == s@,
            units@ == utf16(s@.take(i as int)),
        decreases chars.len() - i,
    {
        proof {
            assert(s@.take(i + 1).drop_last() =~= s@.take(i as int));
        }
        push_utf16(&mut units, chars[i]);
        i = i + 1;
    }
    proof {
        assert(s@.take(chars.len() as int) =~= s@);
    }
    units
}

/// The UTF-16 units of a text, with the zero behind them that the system wants.
pub fn widestring(s: &str) -> (wide: Vec<u16>)
    ensures
        wide@ == utf16(s@).push(0),
{
    let mut wide: Vec<u16> = encode_utf16(s);
    wide.push(0);
    wide
}

/// A text of `n` characters takes between `n` and `2 * n` units.
pub proof fn utf16_length(s: Seq<char>)
    ensures
        s.len() <= utf16(s).len() <= 2 * s.len(),
    decreases s.len(),
{
    if s.len() > 0 {
        utf16_length(s.drop_last());
    }
}

/// Different texts have different units.
pub proof fn utf16_names_one_text(a: Seq<char>, b: Seq<char>)
    requires
        utf16(a) == utf16(b),
    ensures
        a == b,
    decreases a.len(),
{
    utf16_length(a);
    utf16_length(b);
    if a.len() == 0 || b.len() == 0 {
        assert(a =~= b);
    } else {
        let units = utf16(a);
        let front_a = utf16(a.drop_last());
        let front_b = utf16(b.drop_last());
        let last_a = utf16_char(a.last());
        let last_b = utf16_char(b.last());
        lemma_last_unit(a.last());
        lemma_last_unit(b.last());
        assert(units.last() == last_a.last());
        assert(units.last() == last_b.last());
        assert(last_a.len() == last_b.len());
        assert(front_a.len() == front_b.len());
        assert(last_a =~= units.skip(front_a.len() as int));
        assert(last_b =~= units.skip(front_b.len() as int));
        lemma_one_char(a.last(), b.last());
        assert(front_a =~= units.take(front_a.len() as int));
        assert(front_b =~= units.take(front_b.len() as int));
        utf16_names_one_text(a.drop_last(), b.drop_last());
        assert(a.drop_last().push(a.last()) =~= a);
        assert(b.drop_last().push(b.last()) =~= b);
    }
}

proof fn lemma_last_unit(c: char)
    ensures
        1 <= utf16_char(c).len() <= 2,
        utf16_char(c).len() == 2 <==> 0xDC00 <= utf16_char(c).last() <= 0xDFFF,
{
}

proof fn lemma_one_char(c: char, d: char)
    requires
        utf16_char(c) == utf16_char(d),
    ensures
        c == d,
{
    let v = c as int;
    let w = d as int;
    if v >= 0x10000 {
        assert(utf16_char(c).len() == 2);
        assert(utf16_char(d).len() == 2);
        assert(utf16_char(c)[0] == utf16_char(d)[0]);
        assert(utf16_char(c)[1] == utf16_char(d)[1]);
        assert((v - 0x10000) / 0x400 == (w - 0x10000) / 0x400);
        assert((v - 0x10000) % 0x400 == (w - 0x10000) % 0x400);
    } else {
        assert(utf16_char(d).len() == 1);
        assert(w < 0x10000);
        assert(utf16_char(c)[0] == v as u16);
        assert(utf16_char(d)[0] == w as u16);
    }
    assert(v == w);
}

/// Whether units are those of a text.
pub open spec fn is_utf16(units: Seq<u16>) -> bool {
    exists|s: Seq<char>| utf16(s) == units
}

/// `String::from_utf16` of std. The contract says that it succeeds if and only if
/// the units are those of a text, and gives that text.
#[verifier::external_body]
pub(crate) fn decode_utf16(units: &[u16]) -> (text: Option<String>)
    ensures
        text is Some <==> is_utf16(units@),
        text is Some ==> utf16(text->0@) == units@,
{
    String::from_utf16(units).ok()
}

/// Texts are written one behind the other: the units of two texts together are those
/// of the first and those of the second. A character of the first 65536 is one unit,
/// its own number.
pub proof fn utf16_goes_char_by_char(a: Seq<char>, b: Seq<char>, c: char)
    ensures
        utf16(a + b) == utf16(a) + utf16(b),
        (c as int) < 0x10000 ==> utf16(seq![c]) == seq![c as u16],
        (c as int) >= 0x10000 ==> {
            let units = utf16(seq![c]);
            &&& units.len() == 2
            &&& 0xD800 <= units[0] <= 0xDBFF
            &&& 0xDC00 <= units[1] <= 0xDFFF
            &&& (units[0] - 0xD800) * 0x400 + (units[1] - 0xDC00) + 0x10000 == c as int
        },
    decreases b.len(),
{
    reveal_with_fuel(utf16, 2);
    assert(seq![c].drop_last() =~= Seq::empty());
    assert(utf16(seq![c]) =~= utf16_char(c));
    if b.len() == 0 {
        assert(a + b =~= a);
        assert(utf16(a) + utf16(b) =~= utf16(a));
    } else {
        utf16_goes_char_by_char(a, b.drop_last(), c);
        assert((a + b).drop_last() =~= a + b.drop_last());
        assert(utf16(a + b) =~= utf16(a) + utf16(b));
    }
}

/// A text for the system ends with a zero, and the zero is not part of the text.
pub proof fn texts_for_the_system_end_with_zero(s: &str, wide: Vec<u16>, units: Vec<u16>)
    requires
        call_ensures(widestring, (s,), wide),
        call_ensures(encode_utf16, (s,), units),
    ensures
        wide@.len() == units@.len() + 1,
        wide@.last() == 0,
        wide@.drop_last() == units@,
        s@.len() <= units@.len() <= 2 * s@.len(),
{
    utf16_length(s@);
    assert(wide@.drop_last() =~= units@);
}

} // verus!
