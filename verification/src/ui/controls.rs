//! What the windows that are built from controls have in common: colours, the
//! order of the keyboard, and keys that a control hands to its window.

use crate::ui::button::{VK_ESCAPE, VK_RETURN, VK_TAB};
use crate::ui::theme::ThemeColors;
use vstd::prelude::*;

verus! {

/// A kind of control, as far as its colours go.
#[derive(Debug, Clone, Copy, PartialEq, Eq, Structural)]
pub enum ControlKind {
    Edit,
    ListBox,
    Static,
    Button,
}

/// Text and ground colour.
#[derive(Debug, Clone, Copy, PartialEq, Eq, Structural)]
pub struct ColorPair {
    pub fg: u32,
    pub bg: u32,
}

/// The colours of a control in a theme.
pub open spec fn colors_of(colors: ThemeColors, kind: ControlKind) -> ColorPair {
    match kind {
        ControlKind::Edit => ColorPair { fg: colors.edit_fg, bg: colors.edit_bg },
        ControlKind::ListBox => ColorPair { fg: colors.listview_fg, bg: colors.listview_bg },
        _ => ColorPair { fg: colors.fg, bg: colors.bg },
    }
}

/// The colours of a control; `None` leaves them to the system, while no theme is
/// in force.
pub fn handle_ctlcolor(colors: Option<ThemeColors>, kind: ControlKind) -> (pair: Option<ColorPair>)
    ensures
        pair == (match colors {
            Some(c) => Some(colors_of(c, kind)),
            None => None,
        }),
{
    match colors {
        Some(c) => Some(
            match kind {
                ControlKind::Edit => ColorPair { fg: c.edit_fg, bg: c.edit_bg },
                ControlKind::ListBox => ColorPair { fg: c.listview_fg, bg: c.listview_bg },
                _ => ColorPair { fg: c.fg, bg: c.bg },
            },
        ),
        None => None,
    }
}

/// The ground colour of a window; `None` leaves it to the system, while no theme
/// is in force.
pub fn erase_background(colors: Option<ThemeColors>) -> (bg: Option<u32>)
    ensures
        bg == (match colors {
            Some(c) => Some(c.bg),
            None => None,
        }),
{
    match colors {
        Some(c) => Some(c.bg),
        None => None,
    }
}

// ---------------------------------------------------------------------
// The order of the keyboard
// ---------------------------------------------------------------------
/// Position of the first `id` in `order`, or the length of `order`.
pub open spec fn id_position(order: Seq<i32>, id: i32) -> int
    decreases order.len(),
{
    if order.len() == 0 || order[0] == id {
        0
    } else {
        1 + id_position(order.subrange(1, order.len() as int), id)
    }
}

/// The position that gets the keyboard after that of `current`: the next or the
/// previous one, in a circle. From a control that is not in the order it is the
/// first.
pub open spec fn cycled(current: i32, order: Seq<i32>, forward: bool) -> int {
    let i = id_position(order, current);
    let n = order.len() as int;
    if i >= n {
        0
    } else if forward {
        (i + 1) % n
    } else {
        (i + n - 1) % n
    }
}

pub proof fn lemma_id_position(order: Seq<i32>, id: i32)
    ensures
        0 <= id_position(order, id) <= order.len(),
        id_position(order, id) < order.len() ==> order[id_position(order, id)] == id,
        forall|i: int| 0 <= i < id_position(order, id) ==> order[i] != id,
    decreases order.len(),
{
    if order.len() > 0 && order[0] != id {
        let rest = order.subrange(1, order.len() as int);
        lemma_id_position(rest, id);
        assert forall|i: int| 0 <= i < id_position(order, id) implies order[i] != id by {
            if i > 0 {
                assert(rest[i - 1] == order[i]);
            }
        }
    }
}

/// The position that gets the keyboard after that of `current`.
pub fn tab_cycle_index(current: i32, order: &[i32], forward: bool) -> (next: usize)
    ensures
        next == cycled(current, order@, forward),
        order.len() > 0 ==> next < order.len(),
{
    let n: usize = order.len();
    let mut i: usize = 0;
    while i < n && order[i] != current
        invariant
            i <= n == order.len(),
            forall|k: int| 0 <= k < i ==> order[k] != current,
        decreases n - i,
    {
        i = i + 1;
    }
    proof {
        lemma_id_position(order@, current);
    }
    if i == n {
        0
    } else if forward {
        proof {
            lemma_wrap(i as int, n as int);
        }
        if i + 1 == n {
            0
        } else {
            i + 1
        }
    } else {
        proof {
            lemma_wrap(i as int, n as int);
        }
        if i == 0 {
            n - 1
        } else {
            i - 1
        }
    }
}

proof fn lemma_wrap(i: int, n: int)
    requires
        0 <= i < n,
    ensures
        (i + 1) % n == (if i + 1 == n {
            0
        } else {
            i + 1
        }),
        (i + n - 1) % n == (if i == 0 {
            n - 1
        } else {
            i - 1
        }),
{
    if i + 1 < n {
        vstd::arithmetic::div_mod::lemma_small_mod((i + 1) as nat, n as nat);
    } else {
        vstd::arithmetic::div_mod::lemma_mod_self_0(n);
    }
    if i == 0 {
        vstd::arithmetic::div_mod::lemma_small_mod((n - 1) as nat, n as nat);
    } else {
        vstd::arithmetic::div_mod::lemma_small_mod((i - 1) as nat, n as nat);
        vstd::arithmetic::div_mod::lemma_mod_add_multiples_vanish(i - 1, n);
    }
}

/// One step forward and one back end where they began, in an order without
/// repetition.
pub proof fn cycling_forward_and_back(order: Seq<i32>, i: int)
    requires
        0 <= i < order.len(),
        order.no_duplicates(),
    ensures
        cycled(order[cycled(order[i], order, true)], order, false) == i,
        cycled(order[cycled(order[i], order, false)], order, true) == i,
        0 <= cycled(order[i], order, true) < order.len(),
        0 <= cycled(order[i], order, false) < order.len(),
{
    let n = order.len() as int;
    lemma_id_position(order, order[i]);
    assert(id_position(order, order[i]) == i);
    lemma_wrap(i, n);
    let next = cycled(order[i], order, true);
    let back = cycled(order[i], order, false);
    lemma_id_position(order, order[next]);
    assert(id_position(order, order[next]) == next);
    lemma_id_position(order, order[back]);
    assert(id_position(order, order[back]) == back);
    lemma_wrap(next, n);
    lemma_wrap(back, n);
}

// ---------------------------------------------------------------------
// Keys that a control hands to its window
// ---------------------------------------------------------------------
/// Whether the search box hands a key to the panel.
pub fn search_forwards(key: u16) -> (forward: bool)
    ensures
        forward == (key == VK_ESCAPE || key == VK_TAB),
{
    key == VK_ESCAPE || key == VK_TAB
}

/// Whether the tree hands a key to the panel.
pub fn tree_forwards(key: u16) -> (forward: bool)
    ensures
        forward == (key == VK_RETURN || key == VK_TAB || key == VK_ESCAPE),
{
    key == VK_RETURN || key == VK_TAB || key == VK_ESCAPE
}

/// Going on goes to the next control, and from the last one to the first; going back
/// goes to the previous one, and from the first one to the last. From anywhere else
/// it begins at the first.
pub proof fn keyboard_goes_in_a_circle(order: Seq<i32>, i: int, other: i32)
    requires
        0 <= i < order.len(),
        order.no_duplicates(),
        !order.contains(other),
    ensures
        i + 1 < order.len() ==> cycled(order[i], order, true) == i + 1,
        i + 1 == order.len() ==> cycled(order[i], order, true) == 0,
        i > 0 ==> cycled(order[i], order, false) == i - 1,
        i == 0 ==> cycled(order[i], order, false) == order.len() - 1,
        cycled(other, order, true) == 0,
        cycled(other, order, false) == 0,
{
    lemma_id_position(order, order[i]);
    lemma_id_position(order, other);
    let at = id_position(order, order[i]);
    assert(at == i) by {
        if at < i {
            assert(order[at] == order[i]);
        }
    }
    lemma_wrap(i, order.len() as int);
    if id_position(order, other) < order.len() {
        assert(order.contains(order[id_position(order, other)]));
    }
}

/// Controls have the colours that the theme has for them, and without a theme those
/// of the system.
pub proof fn controls_have_the_colors_of_the_theme(
    c: ThemeColors,
    kind: ControlKind,
    pair: Option<ColorPair>,
    bare: Option<ColorPair>,
    ground: Option<u32>,
)
    requires
        call_ensures(handle_ctlcolor, (Some(c), kind), pair),
        call_ensures(handle_ctlcolor, (None, kind), bare),
        call_ensures(erase_background, (Some(c),), ground),
    ensures
        bare is None,
        ground == Some(c.bg),
        pair is Some,
        kind == ControlKind::Edit ==> pair->0.fg == c.edit_fg && pair->0.bg == c.edit_bg,
        kind == ControlKind::ListBox ==> pair->0.fg == c.listview_fg && pair->0.bg
            == c.listview_bg,
        kind == ControlKind::Static || kind == ControlKind::Button ==> pair->0.fg == c.fg
            && pair->0.bg == c.bg,
{
}

/// The search box and the tree hand Escape and Tab to the panel, the tree also Enter,
/// and every other key is their own.
pub proof fn keys_handed_to_the_panel(key: u16, by_search: bool, by_tree: bool)
    requires
        call_ensures(search_forwards, (key,), by_search),
        call_ensures(tree_forwards, (key,), by_tree),
    ensures
        by_search <==> key == 0x1B || key == 0x09,
        by_tree <==> by_search || key == 0x0D,
{
}

/// The function that finds the next control goes in that circle.
pub proof fn next_control_is_found(order: &[i32], i: int, on: usize, back: usize)
    requires
        0 <= i < order@.len(),
        order@.no_duplicates(),
        call_ensures(tab_cycle_index, (order@[i], order, true), on),
        call_ensures(tab_cycle_index, (order@[i], order, false), back),
    ensures
        i + 1 < order@.len() ==> on == i + 1,
        i + 1 == order@.len() ==> on == 0,
        i > 0 ==> back == i - 1,
        i == 0 ==> back == order@.len() - 1,
{
    lemma_id_position(order@, order@[i]);
    let at = id_position(order@, order@[i]);
    assert(at == i) by {
        if at < i {
            assert(order@[at] == order@[i]);
        }
    }
    lemma_wrap(i, order@.len() as int);
}

} // verus!
