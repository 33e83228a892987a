//! Tags and the in-memory store that maps window handles to them.

use std::collections::HashMap;
use vstd::prelude::*;

verus! {

/// Colour of a tag's badge.
#[derive(Debug, Clone, Copy, PartialEq, Eq, Structural)]
pub enum TagColor {
    Orange,
    Blue,
    Green,
    Red,
    Purple,
}

/// Red, green, blue and alpha of a tag colour.
pub open spec fn color_rgba(color: TagColor) -> [u8; 4] {
    match color {
        TagColor::Orange => [255, 183, 77, 255],
        TagColor::Blue => [66, 165, 245, 255],
        TagColor::Green => [102, 187, 106, 255],
        TagColor::Red => [239, 83, 80, 255],
        TagColor::Purple => [171, 71, 188, 255],
    }
}

impl TagColor {
    /// The colour as red, green, blue and alpha bytes.
    pub fn as_rgba(&self) -> (rgba: [u8; 4])
        ensures
            rgba == color_rgba(*self),
    {
        match self {
            TagColor::Orange => [255, 183, 77, 255],
            TagColor::Blue => [66, 165, 245, 255],
            TagColor::Green => [102, 187, 106, 255],
            TagColor::Red => [239, 83, 80, 255],
            TagColor::Purple => [171, 71, 188, 255],
        }
    }
}

/// What the user noted about one window.
#[derive(Debug)]
pub struct Tag {
    /// Title of the tag.
    pub title: String,
    /// Free text, possibly empty, possibly of several lines.
    pub note: String,
    /// Colour of the badge.
    pub color: TagColor,
    /// Window title at the time the tag was made.
    pub window_title: String,
    /// Name of the process that owns the window.
    pub process_name: String,
}

impl Clone for Tag {
    fn clone(&self) -> (tag: Self)
        ensures
            tag == *self,
    {
        Tag {
            title: self.title.clone(),
            note: self.note.clone(),
            color: self.color,
            window_title: self.window_title.clone(),
            process_name: self.process_name.clone(),
        }
    }
}

/// Tags by window handle.
pub type TagStore = HashMap<isize, Tag>;

/// Every colour is opaque, and no two colours look the same.
pub proof fn colors_are_opaque_and_distinct(a: TagColor, b: TagColor)
    ensures
        color_rgba(a)[3] == 255,
        color_rgba(a) == color_rgba(b) ==> a == b,
{
    assert(color_rgba(a)@[0] == color_rgba(b)@[0] ==> a == b);
}

/// Every colour looks like its name: the part that it is named for is the largest,
/// orange has more red than green and more green than blue, and purple has more of
/// red and blue than of green.
pub proof fn colors_look_like_their_names(color: TagColor, rgba: [u8; 4])
    requires
        call_ensures(TagColor::as_rgba, (&color,), rgba),
    ensures
        color == TagColor::Orange ==> rgba[0] > rgba[1] + 50 && rgba[1] > rgba[2] + 50,
        color == TagColor::Blue ==> rgba[2] > rgba[1] + 50 && rgba[1] > rgba[0],
        color == TagColor::Green ==> rgba[1] > rgba[0] + 50 && rgba[1] > rgba[2] + 50,
        color == TagColor::Red ==> rgba[0] > rgba[1] + 100 && rgba[0] > rgba[2] + 100,
        color == TagColor::Purple ==> rgba[0] > rgba[1] + 50 && rgba[2] > rgba[1] + 50,
        rgba[3] == 255,
        rgba == color_rgba(color),
{
}

} // verus!
