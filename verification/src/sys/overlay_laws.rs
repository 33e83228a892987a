//! What the user can rely on when looking at badges and pointing at them.

use crate::common::WM_APP_EDIT_TAG;
use crate::model::tag;
use crate::model::tag::{Tag, TagStore};
use crate::sys::badge;
use crate::sys::overlay;
use crate::sys::overlay::{
    badge_stroke_rgba, badge_title, click_request, colorref_to_rgb, hit_test, overlay_style,
    paint_tooltip, pill_colors, place_badge, stack_plan, sync_position, tag_color_rgba, text_strip,
    title_text, title_width, tooltip_note_rect, tooltip_request, tooltip_size, tooltip_style,
    tooltip_title_rect, BadgeLayout, HidePlan, InsertAfter, Overlay, OverlayConfig, PillColors, PostedMessage,
    StackPlan, SyncPlan, TargetMap, TargetWindow, TooltipPaint, TooltipText, BADGE_OFFSET,
    BADGE_SIZE, BADGE_WIN_SIZE, TITLE_H, TITLE_PAD_X, TITLE_Y, WS_EX_TOPMOST,
};
use crate::text;
use crate::ui::geo::{Place, Rect};
use crate::ui::theme;
use vstd::prelude::*;

verus! {

// ---------------------------------------------------------------------
// Following a window
// ---------------------------------------------------------------------
/// Whether a badge is among the windows that stay above the others, once a plan was
/// carried out.
pub open spec fn topmost_after(plan: StackPlan, before: bool) -> bool {
    match plan.band {
        Some(topmost) => topmost,
        None => before,
    }
}

/// A badge keeps to its window when badges do not stay on top: it comes right
/// behind the window that is in front of its own, and is among the windows that
/// stay above the others exactly when its window is. When badges stay on top, it is
/// among them and in front of everything.
pub proof fn badges_stack_as_preferred(
    target: TargetWindow,
    force: bool,
    always_top: bool,
    own_topmost: bool,
    plan: SyncPlan,
)
    requires
        call_ensures(sync_position, (&target, force, always_top, own_topmost), plan),
    ensures
        plan matches SyncPlan::Move { left, top, stack } ==> {
            &&& always_top ==> stack.insert_after == InsertAfter::Topmost && topmost_after(
                stack,
                own_topmost,
            )
            &&& !always_top ==> {
                &&& stack.insert_after != InsertAfter::Topmost
                &&& target.previous != 0 ==> stack.insert_after == InsertAfter::Window(
                    target.previous,
                )
                &&& target.previous == 0 ==> stack.insert_after == InsertAfter::Top
                &&& topmost_after(stack, own_topmost) == target.topmost
            }
            &&& topmost_after(stack, own_topmost) == own_topmost ==> stack.band is None
        },
{
}

/// A badge that can be seen stands at the upper left corner of its window: of the
/// part that the user sees, and at the end of a move of the whole window. It moves
/// for every window that can be seen and has an extent, and for no other one.
pub proof fn badges_stand_in_the_corner(
    target: TargetWindow,
    force: bool,
    always_top: bool,
    own_topmost: bool,
    plan: SyncPlan,
    rc: Rect,
)
    requires
        call_ensures(sync_position, (&target, force, always_top, own_topmost), plan),
        !target.minimized,
        target.visible,
    ensures
        plan != SyncPlan::Hide,
        plan == SyncPlan::Lost <==> target.frame is None && target.window is None,
        ({
            let place = if force {
                target.window == Some(rc) || (target.window is None && target.frame == Some(rc))
            } else {
                target.frame == Some(rc) || (target.frame is None && target.window == Some(rc))
            };
            place ==> {
                &&& rc.left < rc.right && rc.top < rc.bottom ==> plan is Move && plan->left
                    == rc.left && plan->top == rc.top
                &&& rc.left >= rc.right || rc.top >= rc.bottom ==> plan == SyncPlan::Keep
            }
        }),
{
}

/// The rectangle moved by a distance.
pub open spec fn moved(rc: Rect, dx: int, dy: int) -> Rect {
    Rect {
        left: (rc.left + dx) as i32,
        top: (rc.top + dy) as i32,
        right: (rc.right + dx) as i32,
        bottom: (rc.bottom + dy) as i32,
    }
}

/// Whether a rectangle can be moved by a distance.
pub open spec fn can_move(rc: Rect, dx: int, dy: int) -> bool {
    &&& i32::MIN <= rc.left + dx <= i32::MAX
    &&& i32::MIN <= rc.top + dy <= i32::MAX
    &&& i32::MIN <= rc.right + dx <= i32::MAX
    &&& i32::MIN <= rc.bottom + dy <= i32::MAX
}

/// A badge moves as its window moves, by the same distance, and what is in front of
/// what does not depend on where the window is.
pub proof fn badges_move_with_their_windows(
    target: TargetWindow,
    force: bool,
    always_top: bool,
    own_topmost: bool,
    dx: int,
    dy: int,
)
    requires
        target.frame matches Some(rc) ==> can_move(rc, dx, dy),
        target.window matches Some(rc) ==> can_move(rc, dx, dy),
    ensures
        ({
            let there = TargetWindow {
                frame: match target.frame {
                    Some(rc) => Some(moved(rc, dx, dy)),
                    None => None,
                },
                window: match target.window {
                    Some(rc) => Some(moved(rc, dx, dy)),
                    None => None,
                },
                ..target
            };
            let before = overlay::synced(target, force, always_top, own_topmost);
            let after = overlay::synced(there, force, always_top, own_topmost);
            match before {
                SyncPlan::Move { left, top, stack } => after == (SyncPlan::Move {
                    left: (left + dx) as i32,
                    top: (top + dy) as i32,
                    stack,
                }),
                _ => after == before,
            }
        }),
{
}

/// A new badge stands where it will follow its window from: in the upper left
/// corner. A window without extent gets no badge.
pub proof fn new_badges_stand_in_the_corner(
    target: Rect,
    place: Option<(i32, i32)>,
    seen: TargetWindow,
    always_top: bool,
    own_topmost: bool,
    plan: SyncPlan,
)
    requires
        call_ensures(place_badge, (target,), place),
        call_ensures(sync_position, (&seen, false, always_top, own_topmost), plan),
        !seen.minimized && seen.visible && seen.frame == Some(target),
    ensures
        place is Some <==> plan is Move,
        place matches Some(at) ==> at == (target.left, target.top) && plan->left == at.0
            && plan->top == at.1,
{
}

/// A badge is made for its place in the stack: it stays above the others from the
/// start exactly when badges do, it never takes the keyboard, and neither do
/// tooltips.
pub proof fn styles_follow_the_preference(always_top: bool, badge: u32, tooltip: u32)
    requires
        call_ensures(overlay_style, (always_top,), badge),
        call_ensures(tooltip_style, (always_top,), tooltip),
    ensures
        (badge & 0x0000_0008 != 0) == always_top,
        (tooltip & 0x0000_0008 != 0) == always_top,
        badge & 0x0800_0000 != 0,
        tooltip & 0x0800_0000 != 0,
        badge & 0x0000_0080 != 0,
        tooltip & 0x0000_0080 != 0,
        badge & 0x0008_0000 != 0,
        tooltip & 0x0008_0000 == 0,
{
    if always_top {
        assert(badge == 0x0808_0088u32);
        assert(tooltip == 0x0800_0088u32);
    } else {
        assert(badge == 0x0808_0080u32);
        assert(tooltip == 0x0800_0080u32);
    }
    assert(0x0808_0088u32 & 0x8 != 0 && 0x0808_0080u32 & 0x8 == 0 && 0x0800_0088u32 & 0x8 != 0
        && 0x0800_0080u32 & 0x8 == 0 && 0x0808_0088u32 & 0x0800_0000 != 0 && 0x0808_0080u32
        & 0x0800_0000 != 0 && 0x0800_0088u32 & 0x0800_0000 != 0 && 0x0800_0080u32 & 0x0800_0000
        != 0 && 0x0808_0088u32 & 0x80 != 0 && 0x0808_0080u32 & 0x80 != 0 && 0x0800_0088u32 & 0x80
        != 0 && 0x0800_0080u32 & 0x80 != 0 && 0x0808_0088u32 & 0x0008_0000 != 0 && 0x0808_0080u32
        & 0x0008_0000 != 0 && 0x0800_0088u32 & 0x0008_0000 == 0 && 0x0800_0080u32 & 0x0008_0000
        == 0) by (bit_vector);
}

// ---------------------------------------------------------------------
// Pointing at a badge
// ---------------------------------------------------------------------
/// A badge takes the pointer where it is drawn. In the square it is the triangle:
/// the points that are no farther from the corner than the two sides are long,
/// counted along the sides. To the right of the square it is the strip with the
/// title, from its upper to its lower edge and up to the end of the badge.
pub proof fn pointer_is_taken_where_the_badge_is(
    win: Rect,
    x: i32,
    y: i32,
    hit: bool,
)
    requires
        call_ensures(hit_test, (win, x, y), hit),
    ensures
        x - win.left < BADGE_WIN_SIZE ==> (hit <==> x - win.left >= BADGE_OFFSET && y - win.top
            >= BADGE_OFFSET && (x - win.left - BADGE_OFFSET) + (y - win.top - BADGE_OFFSET)
            <= BADGE_SIZE),
        x - win.left >= BADGE_WIN_SIZE ==> (hit <==> x < win.right && TITLE_Y <= y - win.top
            < TITLE_Y + TITLE_H),
{
}

/// A badge takes the pointer in the same way wherever it is, and its triangle is
/// the same on both sides of its middle line.
pub proof fn pointer_does_not_depend_on_the_place(win: Rect, x: int, y: int, dx: int, dy: int)
    requires
        can_move(win, dx, dy),
    ensures
        overlay::takes_pointer(moved(win, dx, dy), x + dx, y + dy) == overlay::takes_pointer(
            win,
            x,
            y,
        ),
        forall|a: int, b: int, size: int| #[trigger]
            overlay::in_triangle(a, b, size) == overlay::in_triangle(b, a, size),
{
}

/// A click on a badge asks for the editor of the tag of the badge's own window, and
/// asks the window that was connected.
pub proof fn click_asks_for_the_own_tag(
    config: OverlayConfig,
    map: TargetMap,
    badge: isize,
    message: Option<PostedMessage>,
)
    requires
        call_ensures(click_request, (&config, &map, badge), message),
    ensures
        message is Some <==> config.message_target is Some && map@.contains_key(badge)
            && map@[badge].target_hwnd != 0,
        message matches Some(m) ==> Some(m.to) == config.message_target && m.msg
            == WM_APP_EDIT_TAG && m.wparam == map@[badge].target_hwnd,
{
}

// ---------------------------------------------------------------------
// What a badge shows
// ---------------------------------------------------------------------
/// A badge has the colour of the tag of its own window, so that badges of tags with
/// different colours look different; without a tag it is orange. It is never
/// transparent.
pub proof fn badges_have_the_color_of_their_tag(
    map: TargetMap,
    badge: isize,
    store: TagStore,
    rgba: [u8; 4],
    unknown: [u8; 4],
)
    requires
        call_ensures(tag_color_rgba, (&map, badge, Some(&store)), rgba),
        call_ensures(tag_color_rgba, (&map, badge, None), unknown),
    ensures
        ({
            let target = map@[badge].target_hwnd;
            let tagged = map@.contains_key(badge) && target != 0 && store@.contains_key(target);
            &&& tagged ==> rgba == tag::color_rgba(store@[target].color)
            &&& !tagged ==> rgba == tag::color_rgba(tag::TagColor::Orange)
        }),
        unknown == tag::color_rgba(tag::TagColor::Orange),
        rgba[3] == 255,
{
    tag::colors_are_opaque_and_distinct(tag::TagColor::Orange, tag::TagColor::Orange);
    let target = map@[badge].target_hwnd;
    if store@.contains_key(target) {
        tag::colors_are_opaque_and_distinct(store@[target].color, tag::TagColor::Orange);
    }
}

/// Colours are handed on part by part: red first, then green, then blue.
pub proof fn colors_keep_their_parts(c: u32, rgb: [u8; 3], line: [u8; 4])
    requires
        call_ensures(colorref_to_rgb, (c,), rgb),
        call_ensures(badge_stroke_rgba, (Some(c),), line),
    ensures
        c < 0x0100_0000 ==> rgb[0] + rgb[1] * 256 + rgb[2] * 65536 == c,
        line[0] == rgb[0] && line[1] == rgb[1] && line[2] == rgb[2] && line[3] == 255,
{
}

/// The strip with the title has the colours of tooltips: the text stands in the
/// colour for text on the colour for the ground, and the line around it in that of
/// thin lines.
pub proof fn strips_look_like_tooltips(
    config: OverlayConfig,
    border: u32,
    colors: PillColors,
    client: Rect,
    shown: &str,
    paint: TooltipPaint,
)
    requires
        call_ensures(pill_colors, (&config, Some(border)), colors),
        call_ensures(paint_tooltip, (&config, Some(border), client, shown), paint),
        config.tooltip_theme is Some,
    ensures
        paint.bg == config.tooltip_theme->0.bg,
        paint.fg == config.tooltip_theme->0.fg,
        paint.border == border,
        forall|i: int|
            0 <= i < 3 ==> #[trigger] colors.fill[i] == theme::channel(
                config.tooltip_theme->0.bg,
                i,
            ),
        forall|i: int|
            0 <= i < 3 ==> #[trigger] colors.text[i] == theme::channel(
                config.tooltip_theme->0.fg,
                i,
            ),
        forall|i: int|
            0 <= i < 3 ==> #[trigger] colors.stroke[i] == theme::channel(border, i),
{
}

/// A badge shows the title of the tag of its own window, or the title of the window
/// when the tag has none, without white space at the ends: the whole of it when it
/// has at most five characters, and otherwise the first five and an ellipsis. It
/// shows nothing when titles are switched off, or when nothing is left.
pub proof fn badges_show_the_title_of_their_tag(
    config: OverlayConfig,
    map: TargetMap,
    store: TagStore,
    badge: isize,
    title: Option<String>,
)
    requires
        call_ensures(badge_title, (&config, &map, Some(&store), badge), title),
    ensures
        ({
            let target = map@[badge].target_hwnd;
            let t = store@[target];
            let known = config.show_title && map@.contains_key(badge) && target != 0
                && store@.contains_key(target);
            let raw = text::trimmed(
                if t.title@.len() > 0 {
                    t.title@
                } else {
                    t.window_title@
                },
            );
            &&& title is Some <==> known && raw.len() > 0
            &&& known && 0 < raw.len() <= 5 ==> title->0@ == raw
            &&& known && raw.len() > 5 ==> title->0@.len() == 6 && title->0@.take(5) == raw.take(5)
                && title->0@.last() == '…'
        }),
{
    reveal_strlit("…");
    let t = store@[map@[badge].target_hwnd];
    let raw = text::trimmed(
        if t.title@.len() > 0 {
            t.title@
        } else {
            t.window_title@
        },
    );
    if raw.len() > 5 && title is Some {
        assert(title->0@ == raw.take(5) + "…"@);
        assert(title->0@.take(5) =~= raw.take(5));
    }
}

/// The title of a badge and that of its window agree.
pub proof fn titles_agree(
    config: OverlayConfig,
    map: TargetMap,
    store: Option<&TagStore>,
    badge: isize,
    of_badge: Option<String>,
    of_window: Option<String>,
)
    requires
        map@.contains_key(badge),
        map@[badge].target_hwnd != 0,
        call_ensures(badge_title, (&config, &map, store, badge), of_badge),
        call_ensures(title_text, (&config, store, map@[badge].target_hwnd), of_window),
    ensures
        of_badge is Some <==> of_window is Some,
        of_badge is Some ==> of_badge->0@ == of_window->0@,
{
}

// ---------------------------------------------------------------------
// The picture of a badge
// ---------------------------------------------------------------------
proof fn lemma_byte(x: int, y: int, c: int, width: int)
    requires
        0 <= x < width,
        0 <= y,
        0 <= c < 4,
    ensures
        ({
            let i = (y * width + x) * 4 + c;
            &&& 0 <= i
            &&& i % 4 == c
            &&& (i / 4) % width == x
            &&& (i / 4) / width == y
        }),
{
    let i = (y * width + x) * 4 + c;
    assert(0 <= y * width) by (nonlinear_arith)
        requires
            0 <= y,
            0 < width,
    ;
    let n = y * width + x;
    assert(i == n * 4 + c);
    assert(i / 4 == n && i % 4 == c);
    vstd::arithmetic::div_mod::lemma_fundamental_div_mod_converse(n, width, y, x);
}

proof fn lemma_below(x: int, y: int, c: int, width: int, height: int)
    requires
        0 <= x < width,
        0 <= y < height,
        0 <= c < 4,
    ensures
        (y * width + x) * 4 + c < width * height * 4,
{
    assert(y * width + width <= height * width) by (nonlinear_arith)
        requires
            y + 1 <= height,
            0 < width,
    ;
    assert(height * width == width * height) by (nonlinear_arith);
}

/// A badge is put together from its parts: the picture of the triangle stands two
/// pixels from the upper left corner, the strip with the title to the right of the
/// square and three pixels from the upper edge, both upright and unmirrored, and
/// the rest is clear.
pub proof fn badge_is_put_together_from_its_parts(
    layout: BadgeLayout,
    triangle: Seq<u8>,
    pill: Seq<u8>,
    col: int,
    row: int,
    c: int,
)
    requires
        0 <= layout.pill_width,
        layout.width == BADGE_WIN_SIZE + layout.pill_width,
        0 <= c < 4,
    ensures
        ({
            let picture = overlay::badge_picture(layout, triangle, pill);
            let w = layout.width as int;
            &&& picture.len() == w * 22 * 4
            &&& 0 <= col < 18 && 0 <= row < 18 ==> picture[((row + 2) * w + (col + 2)) * 4 + c]
                == triangle[(row * 18 + col) * 4 + c]
            &&& 0 <= col < layout.pill_width && 0 <= row < 16 ==> picture[((row + 3) * w + (col
                + 22)) * 4 + c] == pill[(row * layout.pill_width + col) * 4 + c]
            &&& 0 <= col < w && 0 <= row < 22 && !(2 <= col < 20 && 2 <= row < 20) && !(22 <= col
                && 3 <= row < 19) ==> picture[(row * w + col) * 4 + c] == 0
        }),
{
    let w = layout.width as int;
    assert(layout.width * BADGE_WIN_SIZE * 4 == w * 22 * 4);
    assert(w * 22 * 4 >= 0);
    if 0 <= col < 18 && 0 <= row < 18 {
        lemma_byte(col + 2, row + 2, c, w);
        lemma_below(col + 2, row + 2, c, w, 22);
    }
    if 0 <= col < layout.pill_width && 0 <= row < 16 {
        lemma_byte(col + 22, row + 3, c, w);
        lemma_below(col + 22, row + 3, c, w, 22);
    }
    if 0 <= col < w && 0 <= row < 22 {
        lemma_byte(col, row, c, w);
        lemma_below(col, row, c, w, 22);
    }
}

/// The ink of a text for one byte of a pixel: blue, green and red from the first
/// byte on, and full opacity.
pub open spec fn is_ink(byte: u8, rgb: [u8; 3], c: int) -> bool {
    &&& c == 0 ==> byte == rgb[2]
    &&& c == 1 ==> byte == rgb[1]
    &&& c == 2 ==> byte == rgb[0]
    &&& c == 3 ==> byte == 255
}

/// A text is laid over a picture point by point: the point of the mask at column
/// `col` and row `row` of the strip decides about the point of the picture at
/// column `strip.x + col` and row `strip.y + row`. Where the mask is full there is
/// ink, and where it is empty the picture stays.
pub proof fn text_is_laid_point_by_point(
    picture: Seq<u8>,
    width: int,
    strip: Place,
    mask: Seq<u8>,
    rgb: [u8; 3],
    col: int,
    row: int,
    c: int,
)
    requires
        0 <= col < strip.width,
        0 <= row < strip.height,
        0 <= strip.x + col < width,
        0 <= strip.y + row,
        0 <= c < 4,
        ((strip.y + row) * width + (strip.x + col)) * 4 + c < picture.len(),
    ensures
        ({
            let i = ((strip.y + row) * width + (strip.x + col)) * 4 + c;
            let m = mask[(row * strip.width + col) * 4 + 2];
            let after = overlay::lettered(picture, width, strip, mask, rgb);
            &&& m == 255 ==> is_ink(after[i], rgb, c)
            &&& m == 0 ==> after[i] == picture[i]
        }),
{
    let i = ((strip.y + row) * width + (strip.x + col)) * 4 + c;
    lemma_byte(strip.x + col, strip.y + row, c, width);
    let ink = overlay::ink_byte(rgb, c);
    assert((strip.y + row) - strip.y == row && (strip.x + col) - strip.x == col);
    overlay::ink_covers_by_its_mask(ink, picture[i] as int);
}

/// A mask that covers one point of the strip, and nothing else, puts ink on the
/// point of the picture that has the same place, and changes no other point.
pub proof fn one_dot_is_one_dot(
    picture: Seq<u8>,
    width: int,
    strip: Place,
    mask: Seq<u8>,
    rgb: [u8; 3],
    col: int,
    row: int,
    x: int,
    y: int,
    c: int,
)
    requires
        0 <= col < strip.width,
        0 <= row < strip.height,
        forall|a: int, b: int|
            0 <= a < strip.width && 0 <= b < strip.height ==> #[trigger] mask[(b * strip.width + a)
                * 4 + 2] == (if a == col && b == row {
                255u8
            } else {
                0u8
            }),
        0 <= x < width,
        0 <= y,
        0 <= c < 4,
        (y * width + x) * 4 + c < picture.len(),
    ensures
        ({
            let i = (y * width + x) * 4 + c;
            let after = overlay::lettered(picture, width, strip, mask, rgb);
            if x == strip.x + col && y == strip.y + row {
                is_ink(after[i], rgb, c)
            } else {
                after[i] == picture[i]
            }
        }),
{
    let i = (y * width + x) * 4 + c;
    lemma_byte(x, y, c, width);
    if strip.x <= x < strip.x + strip.width && strip.y <= y < strip.y + strip.height {
        let a = x - strip.x;
        let b = y - strip.y;
        assert(mask[(b * strip.width + a) * 4 + 2] == (if a == col && b == row {
            255u8
        } else {
            0u8
        }));
        text_is_laid_point_by_point(picture, width, strip, mask, rgb, a, b, c);
    } else {
        overlay::text_stays_in_its_strip(picture, width, strip, mask, rgb, i);
    }
}

/// Half-covered points lie between ink and ground: the more of a point is covered,
/// the nearer it is to the ink, and what is computed is the nearest number to the
/// exact mixture.
pub proof fn ink_mixes_evenly(ink: int, mask: int, ground: int)
    requires
        0 <= ink <= 255,
        0 <= mask <= 255,
        0 <= ground <= 255,
    ensures
        ({
            let exact = ink * mask + ground * (255 - mask);
            let r = overlay::inked(ink, mask, ground);
            &&& exact * 2 - 255 <= r * 510 <= exact * 2 + 255
            &&& 0 <= r <= 255
        }),
{
    let exact = ink * mask + ground * (255 - mask);
    let r = overlay::inked(ink, mask, ground);
    assert(0 <= exact <= 255 * 255) by (nonlinear_arith)
        requires
            exact == ink * mask + ground * (255 - mask),
            0 <= ink <= 255,
            0 <= mask <= 255,
            0 <= ground <= 255,
    ;
    assert(r == (2 * exact + 255) / 510);
}

/// The text of a badge lies inside the strip, seven pixels from its left and right
/// edge, and is as high as the strip.
pub proof fn text_lies_inside_the_strip(layout: BadgeLayout, strip: Place)
    requires
        call_ensures(text_strip, (&layout,), strip),
        layout.pill_width >= 14,
        layout.width == BADGE_WIN_SIZE + layout.pill_width,
    ensures
        strip.x == 22 + 7,
        layout.width - (strip.x + strip.width) == 7,
        strip.y == 3,
        strip.height == 16,
{
}

/// A title takes the room that it needs: a wider title makes a wider badge, by just
/// as much, and a badge without title is the square alone.
pub proof fn badges_grow_with_their_titles(a: i32, b: i32)
    requires
        overlay::title_fits(Some(a)),
        overlay::title_fits(Some(b)),
    ensures
        ({
            let x = overlay::layout_of(Some(a));
            let y = overlay::layout_of(Some(b));
            &&& x.width - y.width == a - b
            &&& x.pill_width == a + 14
            &&& x.width == 22 + x.pill_width
        }),
        overlay::layout_of(None).width == 22,
        overlay::layout_of(None).pill_width == 0,
{
}

// ---------------------------------------------------------------------
// The tooltip
// ---------------------------------------------------------------------
/// A tooltip tells the title and the note of the tag of the badge's own window. It
/// is opened once, and for no badge without a tag.
pub proof fn tooltips_tell_the_tag(
    map: TargetMap,
    badge: isize,
    open: isize,
    store: TagStore,
    request: Option<TooltipText>,
)
    requires
        call_ensures(tooltip_request, (&map, badge, open, Some(&store)), request),
    ensures
        ({
            let target = map@[badge].target_hwnd;
            let t = store@[target];
            &&& request is Some <==> open == 0 && map@.contains_key(badge) && target != 0
                && store@.contains_key(target)
            &&& request matches Some(r) ==> {
                &&& r.title@ == t.title@
                &&& r.note@ == t.note@
                &&& text::begins_with(r.text@, t.title@)
                &&& t.note@.len() == 0 ==> r.text@ == t.title@
                &&& t.note@.len() > 0 ==> r.text@.len() == t.title@.len() + 1 + t.note@.len()
                    && r.text@[t.title@.len() as int] == '\n' && r.text@.skip(
                    t.title@.len() as int + 1,
                ) == t.note@
            }
        }),
{
    reveal_strlit("\n");
    if let Some(r) = request {
        let t = store@[map@[badge].target_hwnd];
        assert(r.text@.subrange(0, t.title@.len() as int) =~= t.title@);
        if t.note@.len() > 0 {
            assert(r.text@.skip(t.title@.len() as int + 1) =~= t.note@);
        }
    }
}

/// A tooltip has room for both texts, one below the other.
pub proof fn tooltips_have_room_for_their_texts(
    title_empty: bool,
    note_empty: bool,
    title: (i32, i32),
    note: (i32, i32),
    size: (i32, i32),
)
    requires
        call_ensures(tooltip_size, (title_empty, note_empty, title, note), size),
        0 <= title.0 && 0 <= title.1 && 0 <= note.0 && 0 <= note.1,
    ensures
        !title_empty ==> size.0 >= title.0 + 22,
        !note_empty ==> size.0 >= note.0 + 22,
        !title_empty && !note_empty ==> size.1 >= title.1 + 4 + note.1 + 22,
        !title_empty ==> size.1 >= title.1 + 22,
        !note_empty ==> size.1 >= note.1 + 22,
        size.0 >= 142 && size.1 >= 42,
        title_empty && note_empty ==> size == (142i32, 42i32),
        !title_empty && !note_empty && title.0 >= 120 && title.0 >= note.0 ==> size.0 == title.0
            + 22,
        !title_empty && !note_empty && title.1 + note.1 >= 16 ==> size.1 == title.1 + note.1 + 26,
        !title_empty && !note_empty && note.0 >= 120 && note.0 >= title.0 ==> size.0 == note.0
            + 22,
        !title_empty && note_empty && title.1 >= 20 ==> size.1 == title.1 + 22,
        title_empty && !note_empty && note.1 >= 20 ==> size.1 == note.1 + 22,
        !title_empty && note_empty && title.0 >= 120 ==> size.0 == title.0 + 22,
        title_empty && !note_empty && note.0 >= 120 ==> size.0 == note.0 + 22,
{
}

/// The note of a tooltip stands below its title, and both keep to the same margin.
pub proof fn notes_stand_below_titles(
    client: Rect,
    height: i32,
    title: Rect,
    note: Rect,
    alone: Rect,
)
    requires
        call_ensures(tooltip_title_rect, (client,), title),
        call_ensures(tooltip_note_rect, (client, Some(height)), note),
        call_ensures(tooltip_note_rect, (client, None), alone),
        0 <= height <= i32::MAX - 14,
        client.right >= i32::MIN + 10,
        client.bottom >= i32::MIN + 10,
    ensures
        note.top == title.top + height + 4,
        note.left == title.left && note.right == title.right && note.bottom == title.bottom,
        alone == title,
        title.left == 10 && title.top == 10 && title.right == client.right - 10 && title.bottom
            == client.bottom - 10,
{
}

/// A tooltip opens below the pointer where there is room, and above it where there
/// is none, and never covers the pointer. Without a screen it opens below.
pub proof fn tooltips_open_beside_the_pointer(x: int, y: int, size: (int, int), work: Rect)
    requires
        0 < size.0,
        0 < size.1,
    ensures
        overlay::tooltip_place(x, y, size, None) == (x - 10, y + 16),
        y + 16 + size.1 <= work.bottom && work.top <= y + 16 ==> overlay::tooltip_place(
            x,
            y,
            size,
            Some(work),
        ).1 == y + 16,
        y + 16 + size.1 > work.bottom && work.top <= y - size.1 - 8 ==> overlay::tooltip_place(
            x,
            y,
            size,
            Some(work),
        ).1 + size.1 == y - 8,
        work.left <= x - 10 && x - 10 + size.0 <= work.right ==> overlay::tooltip_place(
            x,
            y,
            size,
            Some(work),
        ).0 == x - 10,
        work.left + size.0 <= work.right && x - 10 + size.0 > work.right ==> overlay::tooltip_place(
            x,
            y,
            size,
            Some(work),
        ).0 + size.0 == work.right,
        work.left + size.0 <= work.right && x - 10 < work.left ==> overlay::tooltip_place(
            x,
            y,
            size,
            Some(work),
        ).0 == work.left,
{
}

/// The width of a title is what was measured; where that failed it is guessed from
/// the number of its units, and a title without units has none.
pub proof fn titles_are_as_wide_as_measured(measured: i32, units: i32, width: i32)
    requires
        call_ensures(title_width, (measured, units), width),
        0 <= units <= i32::MAX / 12,
    ensures
        units == 0 ==> width == 0,
        units > 0 && measured > 0 ==> width == measured,
        units > 0 && measured <= 0 ==> width == 12 * units,
{
}

// ---------------------------------------------------------------------
// Switches, connections and visits
// ---------------------------------------------------------------------
/// Every switch is switched alone: titles, staying on top, and the colours of
/// tooltips. The window that takes requests is connected once.
pub proof fn switches_are_switched_alone(on: bool, bg: u32, fg: u32, hwnd: isize, first: OverlayConfig)
    requires
        call_ensures(OverlayConfig::new, (), first),
    ensures
        first.show_title && first.always_top && first.message_target is None,
        forall|c: &mut OverlayConfig| #[trigger]
            call_ensures(overlay::set_show_title, (c, on), ()) ==> {
                &&& final(c).show_title == on
                &&& final(c).always_top == c.always_top
                &&& final(c).message_target == c.message_target
                &&& final(c).tooltip_theme == c.tooltip_theme
            },
        forall|c: &mut OverlayConfig| #[trigger]
            call_ensures(overlay::set_badge_always_top, (c, on), ()) ==> {
                &&& final(c).always_top == on
                &&& final(c).show_title == c.show_title
                &&& final(c).message_target == c.message_target
                &&& final(c).tooltip_theme == c.tooltip_theme
            },
        forall|c: &mut OverlayConfig| #[trigger]
            call_ensures(overlay::set_tooltip_theme, (c, bg, fg), ()) ==> {
                &&& final(c).tooltip_theme is Some
                &&& final(c).tooltip_theme->0.bg == bg
                &&& final(c).tooltip_theme->0.fg == fg
                &&& final(c).show_title == c.show_title
                &&& final(c).always_top == c.always_top
                &&& final(c).message_target == c.message_target
            },
        forall|c: &mut OverlayConfig| #[trigger]
            call_ensures(overlay::set_message_target, (c, hwnd), ()) ==> {
                &&& final(c).message_target is Some
                &&& c.message_target is None ==> final(c).message_target == Some(hwnd)
                &&& c.message_target is Some ==> *final(c) == *c
                &&& final(c).show_title == c.show_title
                &&& final(c).always_top == c.always_top
            },
{
}

/// A badge is known by its window from when it is made until it is gone, and other
/// badges are not concerned.
pub proof fn badges_are_known_while_they_are_there(badge: isize, target: isize, other: isize)
    requires
        other != badge,
    ensures
        forall|m: &mut TargetMap| #[trigger]
            call_ensures(overlay::register_overlay, (m, badge, target), ()) ==> {
                &&& overlay::target_of(final(m)@, badge) == target
                &&& overlay::target_of(final(m)@, other) == overlay::target_of(m@, other)
                &&& final(m)@.contains_key(badge) && !final(m)@[badge].tracking
            },
        forall|m: &mut TargetMap| #[trigger]
            call_ensures(overlay::unregister_overlay, (m, badge), ()) ==> {
                &&& overlay::target_of(final(m)@, badge) == 0
                &&& overlay::target_of(final(m)@, other) == overlay::target_of(m@, other)
            },
{
}

/// The system is asked once for every visit of the pointer: not again while it is
/// there, and again after it left or could not be asked. The tooltip is closed when
/// the pointer leaves. The windows of badges are not touched.
pub proof fn visits_are_tracked_once(badge: isize, armed: bool, tooltip: isize, closed: Option<isize>)
    ensures
        forall|m: &mut TargetMap| #[trigger]
            call_ensures(overlay::begin_hover, (m, badge), armed) ==> {
                &&& armed <==> m@.contains_key(badge) && !m@[badge].tracking
                &&& m@.contains_key(badge) ==> final(m)@.contains_key(badge)
                    && final(m)@[badge].tracking && final(m)@[badge].target_hwnd
                    == m@[badge].target_hwnd
                &&& final(m)@.dom() == m@.dom()
            },
        forall|m: &mut TargetMap| #[trigger]
            call_ensures(overlay::handle_mouse_leave, (m, badge, tooltip), closed) ==> {
                &&& tooltip != 0 ==> closed == Some(tooltip)
                &&& tooltip == 0 ==> closed is None
                &&& m@.contains_key(badge) ==> final(m)@.contains_key(badge)
                    && !final(m)@[badge].tracking && final(m)@[badge].target_hwnd
                    == m@[badge].target_hwnd
                &&& final(m)@.dom() == m@.dom()
            },
        forall|m: &mut TargetMap| #[trigger]
            call_ensures(overlay::hover_not_armed, (m, badge), ()) ==> {
                &&& m@.contains_key(badge) ==> final(m)@.contains_key(badge)
                    && !final(m)@[badge].tracking && final(m)@[badge].target_hwnd
                    == m@[badge].target_hwnd
                &&& final(m)@.dom() == m@.dom()
            },
{
    assert forall|m: &mut TargetMap| #[trigger]
        call_ensures(overlay::begin_hover, (m, badge), armed) implies final(m)@.dom()
        == m@.dom() by {
        assert(final(m)@.dom() =~= m@.dom());
    }
    assert forall|m: &mut TargetMap| #[trigger]
        call_ensures(overlay::handle_mouse_leave, (m, badge, tooltip), closed) implies final(m)@.dom()
        == m@.dom() by {
        assert(final(m)@.dom() =~= m@.dom());
    }
    assert forall|m: &mut TargetMap| #[trigger]
        call_ensures(overlay::hover_not_armed, (m, badge), ()) implies final(m)@.dom()
        == m@.dom() by {
        assert(final(m)@.dom() =~= m@.dom());
    }
}

/// Hiding and showing a badge ends with it hidden or shown, asks for its window only
/// when something changes, and changes nothing else of it. A badge that is hidden or
/// ended takes its tooltip along.
pub proof fn badges_are_hidden_and_shown(tooltip: isize, plan: HidePlan, shown: bool, closed: Option<isize>)
    ensures
        forall|b: &mut Overlay| #[trigger]
            call_ensures(Overlay::hide_badge, (b, tooltip), plan) ==> {
                &&& !final(b).visible
                &&& final(b).hwnd == b.hwnd && final(b).target_hwnd == b.target_hwnd
                    && final(b).running == b.running
                &&& plan.hide_window == b.visible
                &&& b.visible && tooltip != 0 ==> plan.close_tooltip == Some(tooltip)
                &&& !b.visible || tooltip == 0 ==> plan.close_tooltip is None
            },
        forall|b: &mut Overlay| #[trigger]
            call_ensures(Overlay::show, (b,), shown) ==> {
                &&& final(b).visible
                &&& final(b).hwnd == b.hwnd && final(b).target_hwnd == b.target_hwnd
                    && final(b).running == b.running
                &&& shown == !b.visible
            },
        forall|b: &mut Overlay| #[trigger]
            call_ensures(Overlay::end, (b, tooltip), closed) ==> {
                &&& !final(b).running
                &&& final(b).hwnd == b.hwnd && final(b).target_hwnd == b.target_hwnd
                &&& tooltip != 0 ==> closed == Some(tooltip)
                &&& tooltip == 0 ==> closed is None
            },
{
}

/// What is said here of pictures is said of the functions that draw.
pub proof fn badges_are_drawn_like_this(
    layout: BadgeLayout,
    triangle: &[u8],
    pill: &[u8],
    made: Vec<u8>,
    width: i32,
    strip: Place,
    mask: &[u8],
    rgb: [u8; 3],
    title: Option<i32>,
    measured: BadgeLayout,
)
    requires
        call_ensures(overlay::compose_badge, (&layout, triangle, pill), made),
        call_ensures(overlay::badge_layout, (title,), measured),
    ensures
        made@ == overlay::badge_picture(layout, triangle@, pill@),
        measured == overlay::layout_of(title),
        forall|picture: &mut Vec<u8>| #[trigger]
            call_ensures(
                overlay::overlay_text_into,
                (picture, width, &strip, mask, &rgb),
                (),
            ) ==> final(picture)@ == overlay::lettered(
                picture@,
                width as int,
                strip,
                mask@,
                rgb,
            ),
{
}

/// What is said here of the place of tooltips is said of the function that places
/// them, and the title and the note that are painted are the first line of the text
/// and what follows it.
pub proof fn tooltips_are_placed_like_this(
    x: i32,
    y: i32,
    size: (i32, i32),
    work: Option<Rect>,
    at: (i32, i32),
    config: OverlayConfig,
    client: Rect,
    tag: Tag,
    shown: &str,
    paint: TooltipPaint,
)
    requires
        call_ensures(overlay::place_tooltip, (x, y, size, work), at),
        call_ensures(paint_tooltip, (&config, None, client, shown), paint),
        shown@ == overlay::tooltip_lines(tag),
        forall|i: int| 0 <= i < tag.title@.len() ==> tag.title@[i] != '\n',
        tag.title@.len() > 0 ==> tag.title@.last() != '\r',
        client.right > i32::MIN,
        client.bottom > i32::MIN,
    ensures
        (at.0 as int, at.1 as int) == overlay::tooltip_place(
            x as int,
            y as int,
            (size.0 as int, size.1 as int),
            work,
        ),
        paint.title@ == tag.title@,
        paint.note@ == tag.note@,
        paint.frame.left == client.left && paint.frame.top == client.top && paint.frame.right
            == client.right - 1 && paint.frame.bottom == client.bottom - 1,
{
    overlay::tooltip_text_is_read_back(tag);
}

/// The point in a message is unpacked as it was packed: the horizontal number from
/// the low half and the vertical one from the high half, both with their signs.
pub proof fn points_are_unpacked(x: u16, y: u16, point: (i32, i32))
    requires
        call_ensures(overlay::lparam_point, (((y as isize) << 16) | (x as isize),), point),
    ensures
        point.0 == x as i16,
        point.1 == y as i16,
{
    assert((((y as isize) << 16) | (x as isize)) as u16 == x) by (bit_vector);
    assert(((((y as isize) << 16) | (x as isize)) >> 16) as u16 == y) by (bit_vector);
}

/// A request to edit goes to who listens and tells the window; while nobody listens
/// there is none. The first store that is put in its place stays there.
pub proof fn requests_reach_who_listens<T>(
    config: overlay::OverlayConfig,
    target: isize,
    message: Option<PostedMessage>,
    store: T,
)
    requires
        call_ensures(overlay::request_edit_tag, (&config, target), message),
    ensures
        message is Some <==> config.message_target is Some,
        message matches Some(m) ==> Some(m.to) == config.message_target && m.wparam == target
            && m.msg == WM_APP_EDIT_TAG,
        forall|slot: &mut Option<T>| #[trigger]
            call_ensures(overlay::set_tag_store::<T>, (slot, store), ()) ==> *final(slot) == (
            if *slot is Some {
                *slot
            } else {
                Some(store)
            }),
{
}

/// The triangle of a badge reaches along both edges as far as it is large: whatever
/// lies nearer to the corner than a point of it is in it too.
pub proof fn triangles_fill_their_corner(
    x: i32,
    y: i32,
    nearer_x: i32,
    nearer_y: i32,
    size: i32,
    inside: bool,
    nearer_inside: bool,
)
    requires
        call_ensures(overlay::point_in_badge_triangle, (x, y, size), inside),
        call_ensures(overlay::point_in_badge_triangle, (nearer_x, nearer_y, size), nearer_inside),
    ensures
        inside && 0 <= nearer_x <= x && 0 <= nearer_y <= y ==> nearer_inside,
        x == 0 && 0 <= y <= size ==> inside,
        y == 0 && 0 <= x <= size ==> inside,
        x < 0 || y < 0 ==> !inside,
        x + y > size ==> !inside,
        0 <= x && 0 <= y && nearer_x == y && nearer_y == x ==> inside == nearer_inside,
{
}

/// A badge tells what it is, and one without a tag is orange.
pub proof fn badges_tell_what_they_are(
    badge: overlay::Overlay,
    visible: bool,
    running: bool,
    rgba: [u8; 4],
    orange: [u8; 4],
)
    requires
        call_ensures(overlay::Overlay::is_visible, (&badge,), visible),
        call_ensures(overlay::Overlay::is_running, (&badge,), running),
        call_ensures(overlay::fallback_color, (), rgba),
        call_ensures(tag::TagColor::as_rgba, (&tag::TagColor::Orange,), orange),
    ensures
        visible == badge.visible,
        running == badge.running,
        rgba == orange,
{
}

/// A badge is made for its window, shown and there; with nothing set, badges show
/// their titles and stay on top, and nobody listens to them.
pub proof fn new_badges_are_shown(
    hwnd: isize,
    target: isize,
    badge: overlay::Overlay,
    config: OverlayConfig,
    known: TargetMap,
    window: isize,
)
    requires
        call_ensures(overlay::Overlay::new, (hwnd, target), badge),
        call_ensures(OverlayConfig::new, (), config),
        call_ensures(overlay::get_target_hwnd, (&known, hwnd), window),
    ensures
        badge.hwnd == hwnd && badge.target_hwnd == target,
        badge.running && badge.visible,
        config.show_title && config.always_top,
        config.message_target is None && config.tooltip_theme is None,
        known@.contains_key(hwnd) ==> window == known@[hwnd].target_hwnd,
        !known@.contains_key(hwnd) ==> window == 0,
{
}

/// A window that is called to the front comes before the others, with its place and
/// size, and is restored only when that was asked for. In the order of windows a badge
/// stands in front of its own one, and changes bands only when it has to.
pub proof fn windows_come_to_the_front(
    restore: bool,
    front: overlay::RaisePlan,
    always_top: bool,
    anchor_topmost: bool,
    own_topmost: bool,
    previous: isize,
    plan: StackPlan,
)
    requires
        call_ensures(overlay::raise_plan, (restore,), front),
        call_ensures(stack_plan, (always_top, anchor_topmost, own_topmost, previous), plan),
    ensures
        front.restore == restore,
        front.foreground && front.keep_place && front.keep_size,
        front.insert_after == InsertAfter::Top,
        topmost_after(plan, own_topmost) <==> always_top || anchor_topmost,
        plan.band is None <==> own_topmost == (always_top || anchor_topmost),
        plan.insert_after == InsertAfter::Topmost <==> always_top,
        !always_top && previous != 0 ==> plan.insert_after == InsertAfter::Window(previous),
        !always_top && previous == 0 ==> plan.insert_after == InsertAfter::Top,
{
}

} // verus!
