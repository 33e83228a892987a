//! Badges: what they are made of.

use crate::text;
use vstd::prelude::*;
use vstd::string::StrSliceExecFns;
use vstd::string::StringExecFns;

verus! {

/// What a badge is drawn from.
#[derive(Debug, Clone, Copy)]
pub struct BadgeParams {
    /// Length of the two sides of the triangle.
    pub size: i32,
    /// Red, green, blue and alpha of the inside.
    pub fill: [u8; 4],
    /// Red, green, blue and alpha of the line along the long side.
    pub stroke: [u8; 4],
}

/// `s` cut to `max` characters, with an ellipsis where something was cut.
pub open spec fn cut_to_chars(s: Seq<char>, max: int) -> Seq<char> {
    if s.len() <= max {
        s
    } else {
        s.take(max) + "…"@
    }
}

/// Cuts a title to `max_chars` characters.
pub fn truncate_title(s: &str, max_chars: usize) -> (t: String)
    ensures
        t@ == cut_to_chars(s@, max_chars as int),
{
    if s.unicode_len() <= max_chars {
        return text::owned(s);
    }
    let mut t: String = text::owned(s.substring_char(0, max_chars));
    t.append("…");
    proof {
        assert(s@.subrange(0, max_chars as int) =~= s@.take(max_chars as int));
    }
    t
}

/// A cut title begins like the title, and is at most one character longer than
/// asked for.
pub proof fn cut_title_is_short(s: Seq<char>, max: int)
    requires
        max >= 0,
    ensures
        cut_to_chars(s, max).len() <= max + 1,
        s.len() <= max ==> cut_to_chars(s, max) == s,
        s.len() > max ==> cut_to_chars(s, max).take(max) == s.take(max),
{
    reveal_strlit("…");
    if s.len() > max {
        assert(cut_to_chars(s, max).take(max) =~= s.take(max));
    }
}

/// A point of a picture: its colour, each part of it times the share that is
/// covered, and that share.
#[derive(Debug, Clone, Copy, PartialEq, Eq, Structural)]
pub struct Pixel {
    pub red: u8,
    pub green: u8,
    pub blue: u8,
    pub alpha: u8,
}

/// Byte `c` of a point: blue, green, red, alpha. A point that is not covered is
/// all zero.
pub open spec fn pixel_byte(pixel: Option<Pixel>, c: int) -> u8 {
    match pixel {
        Some(p) => if c == 0 {
            p.blue
        } else if c == 1 {
            p.green
        } else if c == 2 {
            p.red
        } else {
            p.alpha
        },
        None => 0,
    }
}

/// The bytes of a picture, line by line from the top. `pixels` are its points in
/// that order.
pub fn pixel_buffer(pixels: &[Option<Pixel>]) -> (bytes: Vec<u8>)
    requires
        pixels.len() * 4 <= usize::MAX,
    ensures
        bytes.len() == pixels.len() * 4,
        forall|i: int, c: int|
            0 <= i < pixels.len() && 0 <= c < 4 ==> bytes[i * 4 + c] == #[trigger] pixel_byte(
                pixels[i],
                c,
            ),
{
    let mut bytes: Vec<u8> = Vec::new();
    let mut i: usize = 0;
    while i < pixels.len()
        invariant
            i <= pixels.len(),
            bytes.len() == i * 4,
            forall|k: int, c: int|
                0 <= k < i && 0 <= c < 4 ==> bytes[k * 4 + c] == #[trigger] pixel_byte(
                    pixels[k],
                    c,
                ),
        decreases pixels.len() - i,
    {
        let p: Pixel = match pixels[i] {
            Some(p) => p,
            None => Pixel { red: 0, green: 0, blue: 0, alpha: 0 },
        };
        bytes.push(p.blue);
        bytes.push(p.green);
        bytes.push(p.red);
        bytes.push(p.alpha);
        i = i + 1;
    }
    bytes
}

/// A title that is cut keeps its first characters and ends with an ellipsis.
pub proof fn cut_title_ends_with_an_ellipsis(s: &str, max: usize, t: String)
    requires
        call_ensures(truncate_title, (s, max), t),
    ensures
        s@.len() <= max ==> t@ == s@,
        s@.len() > max ==> t@.len() == max + 1 && t@.take(max as int) == s@.take(max as int)
            && t@.last() == '…',
{
    reveal_strlit("…");
    if s@.len() > max {
        assert(t@.take(max as int) =~= s@.take(max as int));
    }
}

/// The points of a picture keep their order and their parts: four bytes for each
/// one, blue, green, red and the share that is covered.
pub proof fn points_keep_their_order(pixels: &[Option<Pixel>], bytes: Vec<u8>, i: int)
    requires
        call_ensures(pixel_buffer, (pixels,), bytes),
        0 <= i < pixels@.len(),
    ensures
        bytes@.len() == pixels@.len() * 4,
        pixels@[i] matches Some(p) ==> bytes@[i * 4] == p.blue && bytes@[i * 4 + 1] == p.green
            && bytes@[i * 4 + 2] == p.red && bytes@[i * 4 + 3] == p.alpha,
        pixels@[i] is None ==> bytes@[i * 4] == 0 && bytes@[i * 4 + 1] == 0 && bytes@[i * 4 + 2]
            == 0 && bytes@[i * 4 + 3] == 0,
{
    assert(bytes[i * 4 + 0] == pixel_byte(pixels[i], 0));
    assert(bytes[i * 4 + 1] == pixel_byte(pixels[i], 1));
    assert(bytes[i * 4 + 2] == pixel_byte(pixels[i], 2));
    assert(bytes[i * 4 + 3] == pixel_byte(pixels[i], 3));
}

} // verus!
