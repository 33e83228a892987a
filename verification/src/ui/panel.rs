//! The overview panel that is built from controls: a search box above a tree of
//! the tagged windows.

use crate::common::{WM_APP_EDIT_TAG, WM_DESTROY_OVERLAY};
use crate::model::matcher::remove_tag;
use crate::model::tag::{Tag, TagStore};
use crate::sys::overlay;
use crate::sys::overlay::{raise_plan, PostedMessage, RaisePlan};
use crate::text;
use crate::text::{is_not_after, joined, lines, lower, owned, trim};
use crate::ui::button::{VK_ESCAPE, VK_RETURN, VK_TAB};
use crate::ui::controls;
use crate::ui::controls::tab_cycle_index;
use crate::ui::geo;
use crate::ui::geo::{scale_px, Place};
use crate::ui::iced_proto::TagRow;
use crate::ui::rows;
use crate::ui::rows::tag_matches_needle;
use crate::ui::theme;
use crate::ui::theme::{light_colors, ThemeColors};
use std::collections::HashSet;
use vstd::prelude::*;

verus! {

broadcast use vstd::std_specs::hash::group_hash_axioms;

pub const IDC_SEARCH_EDIT: i32 = 201;

pub const IDC_LIST_VIEW: i32 = 202;

pub const IDC_EXPAND_ALL: i32 = 203;

pub const IDC_COLLAPSE_ALL: i32 = 204;

/// Entries of the menu of a tag.
pub const IDM_ACTIVATE: i32 = 301;

pub const IDM_EDIT: i32 = 302;

pub const IDM_REMOVE: i32 = 303;

/// Design pixels around the controls.
pub const MARGIN: i32 = 12;

pub const SEARCH_H: i32 = 28;

pub const SEARCH_GAP: i32 = 8;

pub const BTN_W: i32 = 76;

pub const BTN_H: i32 = 28;

pub const BTN_GAP: i32 = 8;

pub const WIN_W: i32 = 400;

pub const WIN_H: i32 = 640;

/// The panel cannot be made narrower than this.
pub const MIN_W: i32 = 300;

/// The panel cannot be made lower than this.
pub const MIN_H: i32 = 360;

/// Code with which a text field reports that its text changed.
pub const EN_CHANGE: u32 = 0x0300;

/// Code with which a button reports that it was pressed.
pub const BN_CLICKED: u32 = 0;

// ---------------------------------------------------------------------
// Where everything is
// ---------------------------------------------------------------------
pub open spec fn at_least(v: int, low: int) -> int {
    if v < low {
        low
    } else {
        v
    }
}

/// Left edge of the first of two buttons that stand at the right edge.
pub open spec fn buttons_x(client_w: int, m: int, btn_w: int, btn_gap: int) -> int {
    at_least(client_w - m - (btn_w * 2 + btn_gap), m)
}

/// The row with the search box and the two buttons: the width of the search box,
/// the left edge of the first button, and the upper edge of the row. The buttons
/// stand at the right edge, but never to the left of the margin.
pub fn button_row_layout(client_w: i32, m: i32, btn_w: i32, btn_gap: i32) -> (row: (i32, i32, i32))
    requires
        geo::is_coordinate(btn_w * 2),
        geo::is_coordinate(btn_w * 2 + btn_gap),
        geo::is_coordinate(client_w - m),
        geo::is_coordinate(client_w - m - (btn_w * 2 + btn_gap)),
        geo::is_coordinate(buttons_x(client_w as int, m as int, btn_w as int, btn_gap as int) - m),
        geo::is_coordinate(
            buttons_x(client_w as int, m as int, btn_w as int, btn_gap as int) - m - btn_gap,
        ),
    ensures
        row.1 == buttons_x(client_w as int, m as int, btn_w as int, btn_gap as int),
        row.0 == at_least(row.1 - m - btn_gap, 0),
        row.2 == m,
{
    let area: i32 = btn_w * 2 + btn_gap;
    let right: i32 = client_w - m - area;
    let btn_x: i32 = if right < m {
        m
    } else {
        right
    };
    let rest: i32 = btn_x - m - btn_gap;
    let search_w: i32 = if rest < 0 {
        0
    } else {
        rest
    };
    (search_w, btn_x, m)
}

/// Places of the controls of the panel.
#[derive(Debug, Clone, Copy, PartialEq, Eq, Structural)]
pub struct PanelLayout {
    pub search: Place,
    pub expand: Place,
    pub collapse: Place,
    pub list: Place,
}

/// Upper edge of the tree.
pub open spec fn list_top(dpi: u32) -> int {
    geo::scaled(MARGIN as int, dpi) + at_least(
        geo::scaled(BTN_H as int, dpi),
        geo::scaled(SEARCH_H as int, dpi),
    ) + geo::scaled(SEARCH_GAP as int, dpi)
}

/// The places of the controls in a panel of this size.
pub open spec fn layout_in(width: int, height: int, dpi: u32) -> PanelLayout {
    let m = geo::scaled(MARGIN as int, dpi);
    let search_h = geo::scaled(SEARCH_H as int, dpi);
    let btn_w = geo::scaled(BTN_W as int, dpi);
    let btn_h = geo::scaled(BTN_H as int, dpi);
    let gap = geo::scaled(BTN_GAP as int, dpi);
    let list_y = list_top(dpi);
    let x = buttons_x(width, m, btn_w, gap);
    PanelLayout {
        search: geo::place(m, m, at_least(x - m - gap, 0), search_h),
        expand: geo::place(x, m, btn_w, btn_h),
        collapse: geo::place(x + btn_w + gap, m, btn_w, btn_h),
        list: geo::place(
            m,
            list_y,
            at_least(width - 2 * m, 1),
            at_least(height - list_y - m, 1),
        ),
    }
}

/// The places of the controls.
pub fn layout_children(width: i32, height: i32, dpi: u32) -> (l: PanelLayout)
    requires
        geo::is_usual_dpi(dpi),
        geo::is_coordinate(
            width - geo::scaled(MARGIN as int, dpi) - (geo::scaled(BTN_W as int, dpi) * 2
                + geo::scaled(BTN_GAP as int, dpi)),
        ),
        geo::is_coordinate(height - list_top(dpi) - geo::scaled(MARGIN as int, dpi)),
    ensures
        l == layout_in(width as int, height as int, dpi),
{
    let m: i32 = scale_px(MARGIN, dpi);
    let search_h: i32 = scale_px(SEARCH_H, dpi);
    let btn_w: i32 = scale_px(BTN_W, dpi);
    let btn_h: i32 = scale_px(BTN_H, dpi);
    let gap: i32 = scale_px(BTN_GAP, dpi);
    let row_h: i32 = if btn_h < search_h {
        search_h
    } else {
        btn_h
    };
    let list_y: i32 = m + row_h + scale_px(SEARCH_GAP, dpi);
    let (search_w, btn_x, btn_y): (i32, i32, i32) = button_row_layout(width, m, btn_w, gap);
    proof {
        geo::scaling_is_monotone(MARGIN as int, BTN_W as int, dpi);
    }
    let list_h: i32 = height - list_y - m;
    let content_w: i32 = width - 2 * m;
    PanelLayout {
        search: Place { x: m, y: m, width: search_w, height: search_h },
        expand: Place { x: btn_x, y: btn_y, width: btn_w, height: btn_h },
        collapse: Place { x: btn_x + btn_w + gap, y: btn_y, width: btn_w, height: btn_h },
        list: Place {
            x: m,
            y: list_y,
            width: if content_w < 1 {
                1
            } else {
                content_w
            },
            height: if list_h < 1 {
                1
            } else {
                list_h
            },
        },
    }
}

/// In a panel that is no smaller than the smallest one, every control lies inside
/// the panel, the search box ends before the buttons, and the tree begins below
/// them.
pub proof fn panel_controls_fit(width: i32, height: i32, dpi: u32)
    requires
        geo::is_usual_dpi(dpi),
        geo::effective_dpi(dpi) >= geo::BASE_DPI,
        geo::scaled(MIN_W as int, dpi) <= width,
        geo::scaled(MIN_H as int, dpi) <= height,
    ensures
        ({
            let l = layout_in(width as int, height as int, dpi);
            &&& geo::lies_in(l.search, width as int, height as int)
            &&& geo::lies_in(l.expand, width as int, height as int)
            &&& geo::lies_in(l.collapse, width as int, height as int)
            &&& geo::lies_in(l.list, width as int, height as int)
            &&& l.search.width > 0
            &&& l.search.x + l.search.width < l.expand.x
            &&& l.expand.x + l.expand.width < l.collapse.x
            &&& l.collapse.y + l.collapse.height < l.list.y
            &&& l.search.y + l.search.height < l.list.y
        }),
{
    let d = geo::effective_dpi(dpi);
    let m = geo::scaled(MARGIN as int, dpi);
    let search_h = geo::scaled(SEARCH_H as int, dpi);
    let btn_w = geo::scaled(BTN_W as int, dpi);
    let btn_h = geo::scaled(BTN_H as int, dpi);
    let gap = geo::scaled(BTN_GAP as int, dpi);
    let min_w = geo::scaled(MIN_W as int, dpi);
    let min_h = geo::scaled(MIN_H as int, dpi);
    assert(96 * m <= 12 * d + 48 && 96 * gap <= 8 * d + 48 && 96 * btn_w <= 76 * d + 48);
    assert(96 * btn_h <= 28 * d + 48 && btn_h == search_h);
    assert(96 * min_w > 300 * d - 48 && 96 * min_h > 360 * d - 48);
    assert(2 * m + 2 * btn_w + 2 * gap < min_w);
    assert(2 * m + btn_h + gap < min_h);
}

/// Width and height of the panel in the message that its size changed: two
/// numbers of sixteen bits, the width in the low half.
pub fn lparam_size(lparam: isize) -> (size: (i32, i32))
    ensures
        size.0 == lparam as u16,
        size.1 == (lparam >> 16) as u16,
{
    ((lparam as u16) as i32, ((lparam >> 16) as u16) as i32)
}

// ---------------------------------------------------------------------
// The tree
// ---------------------------------------------------------------------
/// How the tree looks: the name of its style, and its colours.
#[derive(Debug, Clone, Copy)]
pub struct TreeTheme {
    pub class: &'static str,
    pub bg: u32,
    pub fg: u32,
    pub line: u32,
}

/// How the tree looks in a theme; in the light one while none is in force.
pub fn tree_theme(colors: Option<ThemeColors>, dark: bool) -> (look: TreeTheme)
    ensures
        ({
            let c = match colors {
                Some(c) => c,
                None => theme::light(),
            };
            &&& look.class@ == (if dark {
                "DarkMode_Explorer"@
            } else {
                "Explorer"@
            })
            &&& look.bg == c.listview_bg
            &&& look.fg == c.listview_fg
            &&& look.line == c.border
        }),
{
    let c: ThemeColors = match colors {
        Some(c) => c,
        None => light_colors(),
    };
    TreeTheme {
        class: if dark {
            "DarkMode_Explorer"
        } else {
            "Explorer"
        },
        bg: c.listview_bg,
        fg: c.listview_fg,
        line: c.border,
    }
}

/// One tag in the tree.
#[derive(Debug)]
pub struct TreeItem {
    /// Window that carries the tag.
    pub target: isize,
    pub text: String,
    /// The lines below the tag.
    pub details: Vec<String>,
    /// Whether the lines are shown.
    pub expanded: bool,
}

/// Whether a tag shows its lines: unless the user closed it.
pub open spec fn shows_details(
    expanded: Set<isize>,
    collapsed: Set<isize>,
    target: isize,
) -> bool {
    !collapsed.contains(target) || expanded.contains(target)
}

/// Whether a tag shows its lines after the tree was built anew.
pub fn root_expand_default(
    expanded: &HashSet<isize>,
    collapsed: &HashSet<isize>,
    target: isize,
) -> (expand: bool)
    ensures
        expand == shows_details(expanded@, collapsed@, target),
{
    !collapsed.contains(&target) || expanded.contains(&target)
}

/// The lines below a tag: a caption, then its note line by line.
pub open spec fn details_of(tag: Tag) -> Seq<Seq<char>> {
    if tag.note@.len() == 0 {
        seq!["备注："@, "（无）"@]
    } else {
        seq!["备注："@] + text::text_lines(tag.note@)
    }
}

/// The text of a tag in the tree.
pub open spec fn caption_of(tag: Tag) -> Seq<char> {
    tag.title@ + " | "@ + tag.window_title@
}

fn detail_lines(tag: &Tag) -> (details: Vec<String>)
    ensures
        text::contents(details@) == details_of(*tag),
{
    let mut details: Vec<String> = Vec::new();
    details.push(owned("备注："));
    if tag.note.as_str().is_empty() {
        details.push(owned("（无）"));
        proof {
            assert(text::contents(details@) =~= details_of(*tag));
        }
        return details;
    }
    let found: Vec<String> = lines(tag.note.as_str());
    let ghost wanted = text::text_lines(tag.note@);
    let mut i: usize = 0;
    proof {
        assert(text::contents(details@) =~= seq!["备注："@] + wanted.take(0));
    }
    while i < found.len()
        invariant
            i <= found.len(),
            wanted == text::contents(found@),
            text::contents(details@) == seq!["备注："@] + wanted.take(i as int),
        decreases found.len() - i,
    {
        let ghost before = details@;
        details.push(found[i].clone());
        proof {
            assert(text::contents(details@) =~= text::contents(before).push(found[i as int]@));
            assert(seq!["备注："@] + wanted.take(i + 1) =~= (seq!["备注："@] + wanted.take(
                i as int,
            )).push(wanted[i as int]));
        }
        i = i + 1;
    }
    proof {
        assert(wanted.take(found.len() as int) =~= wanted);
    }
    details
}

/// Whether rows stand in the order of their titles.
pub open spec fn in_title_order(list: Seq<TagRow>) -> bool {
    forall|i: int, j: int|
        0 <= i < j < list.len() ==> text::not_after(
            (#[trigger] list[i]).tag.title@,
            (#[trigger] list[j]).tag.title@,
        )
}

/// Puts a row where its title belongs, behind rows of the same title.
fn insert_by_title(list: &mut Vec<TagRow>, row: TagRow) -> (at: usize)
    requires
        in_title_order(old(list)@),
    ensures
        in_title_order(final(list)@),
        at <= old(list).len(),
        final(list)@ == old(list)@.insert(at as int, row),
{
    let ghost before = list@;
    let mut at: usize = list.len();
    while at > 0 && !is_not_after(list[at - 1].tag.title.as_str(), row.tag.title.as_str())
        invariant
            at <= list.len(),
            list@ == before,
            forall|k: int|
                at <= k < list.len() ==> text::not_after(
                    row.tag.title@,
                    (#[trigger] before[k]).tag.title@,
                ),
        decreases at,
    {
        proof {
            text::order_is_total(before[at - 1].tag.title@, row.tag.title@);
        }
        at = at - 1;
    }
    list.insert(at, row);
    proof {
        let after = before.insert(at as int, row);
        assert forall|i: int, j: int| 0 <= i < j < after.len() implies text::not_after(
            (#[trigger] after[i]).tag.title@,
            (#[trigger] after[j]).tag.title@,
        ) by {
            if j == at {
                assert(after[i] == before[i]);
                if i < at - 1 {
                    assert(text::not_after(before[i].tag.title@, before[at - 1].tag.title@));
                    text::order_is_transitive(
                        before[i].tag.title@,
                        before[at - 1].tag.title@,
                        row.tag.title@,
                    );
                }
            } else if i == at {
                assert(after[j] == before[j - 1]);
            } else {
                let p = if i < at {
                    i
                } else {
                    i - 1
                };
                let q = if j < at {
                    j
                } else {
                    j - 1
                };
                assert(after[i] == before[p] && after[j] == before[q]);
            }
        }
    }
    at
}

/// Whether rows are exactly the tags of the store that a search for `query`
/// finds, each once, in the order of their titles. Tags of the same title may
/// stand in any order among themselves.
pub open spec fn is_search_result(
    list: Seq<TagRow>,
    store: Map<isize, Tag>,
    query: Seq<char>,
) -> bool {
    &&& in_title_order(list)
    &&& forall|i: int|
        0 <= i < list.len() ==> store.contains_key((#[trigger] list[i]).target)
            && store[list[i].target] == list[i].tag && rows::tag_matches(
            list[i].tag,
            rows::search_needle(query),
        )
    &&& forall|target: isize| #[trigger]
        store.contains_key(target) && rows::tag_matches(
            store[target],
            rows::search_needle(query),
        ) ==> rows::has_row(list, target)
    &&& forall|i: int, j: int|
        0 <= i < j < list.len() ==> (#[trigger] list[i]).target != (#[trigger] list[j]).target
}

/// The tags that a search finds, in the order of their titles.
pub fn search_by_title(store: &TagStore, query: &str) -> (list: Vec<TagRow>)
    ensures
        is_search_result(list@, store@, query@),
{
    let needle: String = lower(trim(query));
    let mut list: Vec<TagRow> = Vec::new();
    for target in iter: store.keys()
        invariant
            needle@ == rows::search_needle(query@),
            in_title_order(list@),
            forall|i: int|
                0 <= i < list.len() ==> store@.contains_key((#[trigger] list[i]).target)
                    && store@[list[i].target] == list[i].tag && rows::tag_matches(
                    list[i].tag,
                    needle@,
                ),
            forall|k: int|
                iter.index() <= k < iter.seq().len() ==> !rows::has_row(
                    list@,
                    *(#[trigger] iter.seq()[k]),
                ),
            forall|k: int|
                0 <= k < iter.index() && rows::tag_matches(
                    store@[*(#[trigger] iter.seq()[k])],
                    needle@,
                ) ==> rows::has_row(list@, *iter.seq()[k]),
            forall|i: int, j: int|
                0 <= i < j < list.len() ==> (#[trigger] list[i]).target != (
                #[trigger] list[j]).target,
            iter.seq().no_duplicates(),
            iter.seq().unref().to_set() == store@.dom(),
    {
        proof {
            assert(iter.seq().unref()[iter.index() as int] == *target);
            assert(iter.seq().unref().contains(*target));
            assert(iter.seq().unref().to_set().contains(*target));
            assert(store@.dom().contains(*target));
        }
        if let Some(tag) = store.get(target) {
            if tag_matches_needle(tag, needle.as_str()) {
                let ghost before = list@;
                let row: TagRow = TagRow { target: *target, tag: tag.clone() };
                let at: usize = insert_by_title(&mut list, row);
                proof {
                    lemma_inserted(before, at as int, row);
                    assert(!rows::has_row(before, *iter.seq()[iter.index() as int]));
                    assert forall|k: int|
                        iter.index() + 1 <= k < iter.seq().len() implies !rows::has_row(
                        list@,
                        *(#[trigger] iter.seq()[k]),
                    ) by {
                        assert(iter.seq()[k] != iter.seq()[iter.index() as int]);
                        assert(!rows::has_row(before, *iter.seq()[k]));
                        lemma_only_inserted(before, at as int, row, *iter.seq()[k]);
                    }
                }
            }
        }
    }
    proof {
        assert forall|target: isize| #[trigger]
            store@.contains_key(target) && rows::tag_matches(
                store@[target],
                rows::search_needle(query@),
            ) implies rows::has_row(list@, target) by {
        }
    }
    list
}

proof fn lemma_inserted(before: Seq<TagRow>, at: int, row: TagRow)
    requires
        0 <= at <= before.len(),
    ensures
        forall|target: isize|
            rows::has_row(before, target) ==> #[trigger] rows::has_row(
                before.insert(at, row),
                target,
            ),
        rows::has_row(before.insert(at, row), row.target),
{
    let after = before.insert(at, row);
    assert(after[at] == row);
    assert forall|target: isize| rows::has_row(before, target) implies #[trigger] rows::has_row(
        after,
        target,
    ) by {
        let i = choose|i: int| 0 <= i < before.len() && (#[trigger] before[i]).target == target;
        let p = if i < at {
            i
        } else {
            i + 1
        };
        assert(after[p] == before[i]);
    }
}

proof fn lemma_only_inserted(before: Seq<TagRow>, at: int, row: TagRow, target: isize)
    requires
        0 <= at <= before.len(),
        !rows::has_row(before, target),
        row.target != target,
    ensures
        !rows::has_row(before.insert(at, row), target),
{
    let after = before.insert(at, row);
    assert forall|i: int| 0 <= i < after.len() implies (#[trigger] after[i]).target != target by {
        if i < at {
            assert(after[i] == before[i]);
        } else if i > at {
            assert(after[i] == before[i - 1]);
        }
    }
}

/// Whether an item shows a row.
pub open spec fn item_shows(
    item: TreeItem,
    row: TagRow,
    expanded: Set<isize>,
    collapsed: Set<isize>,
) -> bool {
    &&& item.target == row.target
    &&& item.text@ == caption_of(row.tag)
    &&& text::contents(item.details@) == details_of(row.tag)
    &&& item.expanded == shows_details(expanded, collapsed, row.target)
}

/// Whether items show rows, one for one.
pub open spec fn tree_shows(
    items: Seq<TreeItem>,
    list: Seq<TagRow>,
    expanded: Set<isize>,
    collapsed: Set<isize>,
) -> bool {
    &&& items.len() == list.len()
    &&& forall|i: int|
        0 <= i < items.len() ==> item_shows(#[trigger] items[i], list[i], expanded, collapsed)
}

/// The items of the tree for some rows.
pub fn tree_items(
    list: &[TagRow],
    expanded: &HashSet<isize>,
    collapsed: &HashSet<isize>,
) -> (items: Vec<TreeItem>)
    ensures
        tree_shows(items@, list@, expanded@, collapsed@),
{
    let mut items: Vec<TreeItem> = Vec::new();
    let mut i: usize = 0;
    while i < list.len()
        invariant
            i <= list.len(),
            items.len() == i,
            forall|k: int|
                0 <= k < i ==> item_shows(#[trigger] items[k], list[k], expanded@, collapsed@),
        decreases list.len() - i,
    {
        let row: &TagRow = &list[i];
        let front: String = joined(row.tag.title.as_str(), " | ");
        items.push(
            TreeItem {
                target: row.target,
                text: joined(front.as_str(), row.tag.window_title.as_str()),
                details: detail_lines(&row.tag),
                expanded: root_expand_default(expanded, collapsed, row.target),
            },
        );
        i = i + 1;
    }
    items
}

/// Whether the items are the tree of what is found.
pub open spec fn is_tree_for(
    items: Seq<TreeItem>,
    store: Map<isize, Tag>,
    query: Seq<char>,
    expanded: Set<isize>,
    collapsed: Set<isize>,
) -> bool {
    exists|list: Seq<TagRow>|
        is_search_result(list, store, query) && #[trigger] tree_shows(
            items,
            list,
            expanded,
            collapsed,
        )
}

/// The tree for what stands in the search box. `expanded` and `collapsed` are the
/// windows whose tags showed their lines before, and those that did not.
pub fn refresh_tree(
    store: &TagStore,
    query: &str,
    expanded: &HashSet<isize>,
    collapsed: &HashSet<isize>,
) -> (items: Vec<TreeItem>)
    ensures
        is_tree_for(items@, store@, query@, expanded@, collapsed@),
{
    let list: Vec<TagRow> = search_by_title(store, query);
    tree_items(list.as_slice(), expanded, collapsed)
}

/// The windows whose tags show their lines, and those that do not.
pub fn collect_tree_snapshot(roots: &[(isize, bool)]) -> (split: (HashSet<isize>, HashSet<isize>))
    ensures
        forall|t: isize| split.0@.contains(t) <==> roots@.contains((t, true)),
        forall|t: isize| split.1@.contains(t) <==> roots@.contains((t, false)),
{
    let mut expanded: HashSet<isize> = HashSet::new();
    let mut collapsed: HashSet<isize> = HashSet::new();
    let mut i: usize = 0;
    while i < roots.len()
        invariant
            i <= roots.len(),
            forall|t: isize| expanded@.contains(t) <==> roots@.take(i as int).contains((t, true)),
            forall|t: isize| collapsed@.contains(t) <==> roots@.take(i as int).contains((t, false)),
        decreases roots.len() - i,
    {
        let (target, open): (isize, bool) = roots[i];
        if open {
            expanded.insert(target);
        } else {
            collapsed.insert(target);
        }
        proof {
            assert(roots@.take(i + 1) =~= roots@.take(i as int).push(roots[i as int]));
            assert forall|r: (isize, bool)|
                roots@.take(i + 1).contains(r) <==> roots@.take(i as int).contains(r) || r
                    == roots[i as int] by {
                assert(roots@.take(i + 1).last() == roots[i as int]);
                if roots@.take(i as int).contains(r) {
                    let k = roots@.take(i as int).index_of(r);
                    assert(roots@.take(i + 1)[k] == r);
                }
            }
        }
        i = i + 1;
    }
    proof {
        assert(roots@.take(roots.len() as int) =~= roots@);
    }
    (expanded, collapsed)
}

/// Building the tree anew keeps what the user opened and closed: a tag shows its
/// lines if and only if it did before, and one that was not there shows them.
pub proof fn refreshing_keeps_what_is_open(
    roots: Seq<(isize, bool)>,
    expanded: Set<isize>,
    collapsed: Set<isize>,
    target: isize,
)
    requires
        forall|i: int, j: int|
            0 <= i < j < roots.len() ==> (#[trigger] roots[i]).0 != (#[trigger] roots[j]).0,
        forall|t: isize| expanded.contains(t) <==> roots.contains((t, true)),
        forall|t: isize| collapsed.contains(t) <==> roots.contains((t, false)),
    ensures
        roots.contains((target, true)) ==> shows_details(expanded, collapsed, target),
        roots.contains((target, false)) ==> !shows_details(expanded, collapsed, target),
        !roots.contains((target, true)) && !roots.contains((target, false)) ==> shows_details(
            expanded,
            collapsed,
            target,
        ),
{
    if roots.contains((target, false)) && roots.contains((target, true)) {
        let i = roots.index_of((target, false));
        let j = roots.index_of((target, true));
        if i < j {
            assert(roots[i].0 != roots[j].0);
        } else if j < i {
            assert(roots[j].0 != roots[i].0);
        }
    }
}

/// Whatever order the store is walked in, the tree shows the same titles in the
/// same places.
pub proof fn titles_do_not_depend_on_the_walk(
    a: Seq<TagRow>,
    b: Seq<TagRow>,
    store: Map<isize, Tag>,
    query: Seq<char>,
)
    requires
        is_search_result(a, store, query),
        is_search_result(b, store, query),
    ensures
        titles(a) == titles(b),
        a.to_multiset() == b.to_multiset(),
{
    lemma_same_rows(a, b, store, query);
    lemma_same_rows(b, a, store, query);
    assert(a.no_duplicates()) by {
        assert forall|i: int, j: int| 0 <= i < a.len() && 0 <= j < a.len() && i != j implies a[i]
            != a[j] by {
            if i < j {
                assert(a[i].target != a[j].target);
            } else {
                assert(a[j].target != a[i].target);
            }
        }
    }
    assert(b.no_duplicates()) by {
        assert forall|i: int, j: int| 0 <= i < b.len() && 0 <= j < b.len() && i != j implies b[i]
            != b[j] by {
            if i < j {
                assert(b[i].target != b[j].target);
            } else {
                assert(b[j].target != b[i].target);
            }
        }
    }
    a.lemma_multiset_has_no_duplicates();
    b.lemma_multiset_has_no_duplicates();
    assert forall|r: TagRow| a.to_multiset().count(r) == b.to_multiset().count(r) by {
        vstd::seq_lib::to_multiset_contains(a, r);
        vstd::seq_lib::to_multiset_contains(b, r);
    }
    assert(a.to_multiset() =~= b.to_multiset());
    lemma_same_titles(a, b);
    let leq = |x: Seq<char>, y: Seq<char>| text::not_after(x, y);
    assert(vstd::relations::total_ordering(leq)) by {
        assert forall|x: Seq<char>| #[trigger] leq(x, x) by {
            text::order_is_total(x, x);
        }
        assert forall|x: Seq<char>, y: Seq<char>| #[trigger] leq(x, y) && #[trigger] leq(
            y,
            x,
        ) implies x == y by {
            text::order_is_total(x, y);
        }
        assert forall|x: Seq<char>, y: Seq<char>, z: Seq<char>| #[trigger] leq(x, y)
            && #[trigger] leq(y, z) implies leq(x, z) by {
            text::order_is_transitive(x, y, z);
        }
        assert forall|x: Seq<char>, y: Seq<char>| #[trigger] leq(x, y) || #[trigger] leq(y, x) by {
            text::order_is_total(x, y);
        }
    }
    assert(vstd::relations::sorted_by(titles(a), leq));
    assert(vstd::relations::sorted_by(titles(b), leq));
    vstd::seq_lib::lemma_sorted_unique(titles(a), titles(b), leq);
}

/// The titles of rows.
pub open spec fn titles(list: Seq<TagRow>) -> Seq<Seq<char>> {
    Seq::new(list.len(), |i: int| list[i].tag.title@)
}

proof fn lemma_same_titles(a: Seq<TagRow>, b: Seq<TagRow>)
    requires
        a.to_multiset() == b.to_multiset(),
    ensures
        titles(a).to_multiset() == titles(b).to_multiset(),
    decreases a.len(),
{
    a.to_multiset_ensures();
    b.to_multiset_ensures();
    assert(a.len() == b.len());
    if a.len() == 0 {
        assert(titles(a) =~= titles(b));
    } else {
        let last = a.last();
        assert(a.contains(last));
        assert(b.to_multiset().count(last) > 0);
        let j = b.index_of(last);
        assert(b[j] == last);
        assert(a.drop_last() =~= a.remove(a.len() - 1));
        lemma_same_titles(a.drop_last(), b.remove(j));
        assert(titles(a) =~= titles(a.drop_last()).push(last.tag.title@));
        assert(titles(b) =~= titles(b.remove(j)).insert(j, last.tag.title@));
        vstd::seq_lib::to_multiset_build(titles(a.drop_last()), last.tag.title@);
        vstd::seq_lib::to_multiset_insert(titles(b.remove(j)), j, last.tag.title@);
    }
}

proof fn lemma_same_rows(
    a: Seq<TagRow>,
    b: Seq<TagRow>,
    store: Map<isize, Tag>,
    query: Seq<char>,
)
    requires
        is_search_result(a, store, query),
        is_search_result(b, store, query),
    ensures
        forall|r: TagRow| a.contains(r) ==> b.contains(r),
{
    assert forall|r: TagRow| a.contains(r) implies b.contains(r) by {
        let i = a.index_of(r);
        assert(a[i] == r);
        assert(store.contains_key(r.target));
        assert(rows::has_row(b, r.target));
        let j = choose|j: int| 0 <= j < b.len() && (#[trigger] b[j]).target == r.target;
        assert(b[j] == r);
    }
}

// ---------------------------------------------------------------------
// What happens in the panel
// ---------------------------------------------------------------------
/// What the panel knows.
#[derive(Debug, Clone, Copy, PartialEq, Eq, Structural)]
pub struct PanelData {
    pub visible: bool,
    /// Window that takes requests to edit a tag or to remove a badge.
    pub hidden_hwnd: isize,
}

/// Something that happened in the panel.
#[derive(Debug, Clone, Copy, PartialEq, Eq, Structural)]
pub enum PanelEvent {
    /// A control reported something.
    Command { id: i32, code: u32 },
    /// A control reported a click, or a double click.
    Click { control: usize, double: bool },
    /// The tags changed.
    TagsChanged,
    /// A menu was asked for with the mouse, or with the keyboard.
    ContextMenu { with_mouse: bool },
    /// A key was pressed, with or without Shift, while this control had the
    /// keyboard.
    KeyDown { key: u16, shift: bool, focused: i32 },
    /// The user closed the panel.
    Close,
}

/// What the panel does about it.
#[derive(Debug, Clone, Copy, PartialEq, Eq, Structural)]
pub enum PanelAction {
    Nothing,
    /// What the system usually does.
    PassOn,
    /// Build the tree anew.
    Refresh,
    /// Open or close all tags of the tree.
    SetAllExpanded(bool),
    /// Look at what was clicked. A double click does not also open or close the
    /// tag.
    TreeClick { keep_open_state: bool },
    /// Offer the menu of the tag under the pointer.
    OfferMenu,
    /// Give a control the keyboard.
    Focus(i32),
    /// Bring the window of the chosen tag to the front.
    ActivateCaret,
    /// Disappear.
    Disappear,
}

/// The controls in the order of the keyboard.
pub open spec fn keyboard_order() -> Seq<i32> {
    seq![IDC_SEARCH_EDIT, IDC_LIST_VIEW, IDC_EXPAND_ALL, IDC_COLLAPSE_ALL]
}

/// The controls in the order of the keyboard.
pub fn focus_order() -> (order: [i32; 4])
    ensures
        order@ == keyboard_order(),
{
    let order: [i32; 4] = [IDC_SEARCH_EDIT, IDC_LIST_VIEW, IDC_EXPAND_ALL, IDC_COLLAPSE_ALL];
    proof {
        assert(order@ =~= keyboard_order());
    }
    order
}

/// The control that gets the keyboard from `focused` when Tab is pressed.
pub open spec fn next_focus(focused: i32, shift: bool) -> i32 {
    keyboard_order()[controls::cycled(focused, keyboard_order(), !shift)]
}

/// The control that gets the keyboard next.
pub fn focus_next_control(focused: i32, forward: bool) -> (next: i32)
    ensures
        next == next_focus(focused, !forward),
{
    let order: [i32; 4] = focus_order();
    let i: usize = tab_cycle_index(focused, &order, forward);
    order[i]
}

/// What the panel does about an event.
pub open spec fn panel_reaction(known: bool, event: PanelEvent) -> PanelAction {
    match event {
        PanelEvent::Command { id, code } => if id == IDC_SEARCH_EDIT && code == EN_CHANGE {
            PanelAction::Refresh
        } else if code == BN_CLICKED && id == IDC_EXPAND_ALL {
            PanelAction::SetAllExpanded(true)
        } else if code == BN_CLICKED && id == IDC_COLLAPSE_ALL {
            PanelAction::SetAllExpanded(false)
        } else {
            PanelAction::Nothing
        },
        PanelEvent::Click { control, double } => if control == IDC_LIST_VIEW {
            PanelAction::TreeClick { keep_open_state: double }
        } else {
            PanelAction::Nothing
        },
        PanelEvent::TagsChanged => PanelAction::Refresh,
        PanelEvent::ContextMenu { with_mouse } => if !known {
            PanelAction::PassOn
        } else if with_mouse {
            PanelAction::OfferMenu
        } else {
            PanelAction::Nothing
        },
        PanelEvent::KeyDown { key, shift, focused } => if key == VK_ESCAPE {
            PanelAction::Disappear
        } else if key == VK_TAB {
            PanelAction::Focus(next_focus(focused, shift))
        } else if key == VK_RETURN {
            PanelAction::ActivateCaret
        } else {
            PanelAction::PassOn
        },
        PanelEvent::Close => PanelAction::Disappear,
    }
}

/// What the panel does about an event. It counts as hidden as soon as it is told
/// to disappear.
pub fn panel_wndproc(data: &mut Option<PanelData>, event: PanelEvent) -> (action: PanelAction)
    ensures
        action == panel_reaction(*old(data) is Some, event),
        *final(data) == (match *old(data) {
            Some(d) => Some(
                PanelData { visible: d.visible && action != PanelAction::Disappear, ..d },
            ),
            None => None,
        }),
{
    let known: bool = data.is_some();
    let action: PanelAction = match event {
        PanelEvent::Command { id, code } => {
            if id == IDC_SEARCH_EDIT && code == EN_CHANGE {
                PanelAction::Refresh
            } else if code == BN_CLICKED && id == IDC_EXPAND_ALL {
                PanelAction::SetAllExpanded(true)
            } else if code == BN_CLICKED && id == IDC_COLLAPSE_ALL {
                PanelAction::SetAllExpanded(false)
            } else {
                PanelAction::Nothing
            }
        },
        PanelEvent::Click { control, double } => {
            if control == IDC_LIST_VIEW as usize {
                PanelAction::TreeClick { keep_open_state: double }
            } else {
                PanelAction::Nothing
            }
        },
        PanelEvent::TagsChanged => PanelAction::Refresh,
        PanelEvent::ContextMenu { with_mouse } => {
            if !known {
                PanelAction::PassOn
            } else if with_mouse {
                PanelAction::OfferMenu
            } else {
                PanelAction::Nothing
            }
        },
        PanelEvent::KeyDown { key, shift, focused } => {
            if key == VK_ESCAPE {
                PanelAction::Disappear
            } else if key == VK_TAB {
                PanelAction::Focus(focus_next_control(focused, !shift))
            } else if key == VK_RETURN {
                PanelAction::ActivateCaret
            } else {
                PanelAction::PassOn
            }
        },
        PanelEvent::Close => PanelAction::Disappear,
    };
    if action == PanelAction::Disappear {
        if let Some(d) = data {
            d.visible = false;
        }
    }
    action
}

/// Shows the panel when it is hidden, and hides it when it is shown. Returns
/// whether it is shown now.
pub fn toggle_panel(data: &mut PanelData) -> (shown: bool)
    ensures
        shown == !old(data).visible,
        *final(data) == (PanelData { visible: shown, ..*old(data) }),
{
    data.visible = !data.visible;
    data.visible
}

// ---------------------------------------------------------------------
// What was clicked
// ---------------------------------------------------------------------
/// The pointer is on the sign that opens a tag.
pub const TVHT_ONITEMBUTTON: u32 = 0x0010;

/// The pointer is on the picture, the text or the state picture of a tag.
pub const TVHT_ONITEM: u32 = 0x0046;

/// What is under the pointer: an item of the tree, the part of it, and the item
/// above it. Zero stands for no item.
#[derive(Debug, Clone, Copy, PartialEq, Eq, Structural)]
pub struct TreeHit {
    pub item: isize,
    pub flags: u32,
    pub parent: isize,
}

/// Whether a click means the tag as a whole: it hit the tag itself, neither the
/// sign that opens it nor a line below it.
pub open spec fn means_tag(hit: TreeHit) -> bool {
    &&& hit.item != 0
    &&& hit.flags & TVHT_ONITEMBUTTON == 0
    &&& hit.flags & TVHT_ONITEM != 0
    &&& hit.parent == 0
}

/// The item whose window a click brings to the front, if it brings one.
pub fn handle_tree_click(hit: TreeHit) -> (item: Option<isize>)
    ensures
        item == (if means_tag(hit) {
            Some(hit.item)
        } else {
            None
        }),
{
    if hit.item == 0 || (hit.flags & TVHT_ONITEMBUTTON) != 0 || (hit.flags & TVHT_ONITEM) == 0
        || hit.parent != 0 {
        None
    } else {
        Some(hit.item)
    }
}

/// The tag of an item: itself, or what it stands below. Zero stands for no item.
pub open spec fn tag_item(item: isize, parent: isize) -> Option<isize> {
    if item == 0 {
        None
    } else if parent != 0 {
        Some(parent)
    } else {
        Some(item)
    }
}

/// The item whose window Enter brings to the front, if it brings one.
pub fn activate_caret_item(selected: isize, parent: isize) -> (item: Option<isize>)
    ensures
        item == tag_item(selected, parent),
{
    if selected == 0 {
        None
    } else if parent != 0 {
        Some(parent)
    } else {
        Some(selected)
    }
}

/// What to do with the window of a tag that was chosen.
#[derive(Debug, Clone, Copy, PartialEq, Eq, Structural)]
pub enum ActivatePlan {
    /// Bring it to the front.
    Raise(RaisePlan),
    /// It is gone: build the tree anew.
    Refresh,
}

/// Brings the window of a tag to the front: before the windows of its own kind, at
/// its place and in its size. The tag of a window that is gone is removed.
pub fn activate_target(store: &mut TagStore, target: isize, alive: bool, iconic: bool) -> (plan:
    ActivatePlan)
    ensures
        plan == (if alive {
            ActivatePlan::Raise(overlay::raised(iconic))
        } else {
            ActivatePlan::Refresh
        }),
        final(store)@ == (if alive {
            old(store)@
        } else {
            old(store)@.remove(target)
        }),
{
    if alive {
        ActivatePlan::Raise(raise_plan(iconic))
    } else {
        let _ = remove_tag(store, target);
        ActivatePlan::Refresh
    }
}

/// What to do when an entry of the menu of a tag was chosen.
#[derive(Debug, Clone, Copy, PartialEq, Eq, Structural)]
pub enum MenuAction {
    Nothing,
    /// Bring the window to the front.
    Activate(ActivatePlan),
    /// Send this.
    Post(PostedMessage),
    /// Send this, and build the tree anew.
    PostAndRefresh(PostedMessage),
}

/// What choosing an entry does.
pub open spec fn menu_reaction(
    hidden_hwnd: isize,
    target: isize,
    choice: i32,
    alive: bool,
    iconic: bool,
) -> MenuAction {
    if target == 0 {
        MenuAction::Nothing
    } else if choice == IDM_ACTIVATE {
        MenuAction::Activate(
            if alive {
                ActivatePlan::Raise(overlay::raised(iconic))
            } else {
                ActivatePlan::Refresh
            },
        )
    } else if choice == IDM_EDIT {
        MenuAction::Post(PostedMessage { to: hidden_hwnd, msg: WM_APP_EDIT_TAG, wparam: target })
    } else if choice == IDM_REMOVE {
        MenuAction::PostAndRefresh(
            PostedMessage { to: hidden_hwnd, msg: WM_DESTROY_OVERLAY, wparam: target },
        )
    } else {
        MenuAction::Nothing
    }
}

/// What choosing an entry of the menu of a tag does. Removing the tag takes it
/// out of the store, and so does choosing a window that is gone.
pub fn handle_tree_context_menu(
    data: &PanelData,
    store: &mut TagStore,
    target: isize,
    choice: i32,
    alive: bool,
    iconic: bool,
) -> (action: MenuAction)
    ensures
        action == menu_reaction(data.hidden_hwnd, target, choice, alive, iconic),
        final(store)@ == (if target != 0 && (choice == IDM_REMOVE || (choice == IDM_ACTIVATE
            && !alive)) {
            old(store)@.remove(target)
        } else {
            old(store)@
        }),
{
    if target == 0 {
        MenuAction::Nothing
    } else if choice == IDM_ACTIVATE {
        MenuAction::Activate(activate_target(store, target, alive, iconic))
    } else if choice == IDM_EDIT {
        MenuAction::Post(
            PostedMessage { to: data.hidden_hwnd, msg: WM_APP_EDIT_TAG, wparam: target },
        )
    } else if choice == IDM_REMOVE {
        let _ = remove_tag(store, target);
        MenuAction::PostAndRefresh(
            PostedMessage { to: data.hidden_hwnd, msg: WM_DESTROY_OVERLAY, wparam: target },
        )
    } else {
        MenuAction::Nothing
    }
}

/// A line below a tag leads to the tag wherever the tag is asked for, but a click
/// on it brings nothing to the front.
pub proof fn lines_lead_to_their_tag(hit: TreeHit)
    requires
        hit.item != 0,
        hit.parent != 0,
    ensures
        tag_item(hit.item, hit.parent) == Some(hit.parent),
        !means_tag(hit),
{
}

/// The tree shows a tag if and only if its window has one and one of its four texts
/// holds what is searched for, without white space at its ends and whatever the
/// case.
pub proof fn tree_shows_what_is_searched(
    list: Seq<TagRow>,
    store: Map<isize, Tag>,
    query: Seq<char>,
    target: isize,
)
    requires
        is_search_result(list, store, query),
    ensures
        rows::has_row(list, target) <==> store.contains_key(target) && ({
            let sought = text::lowered(text::trimmed(query));
            let t = store[target];
            ||| text::is_inside(sought, text::lowered(t.title@))
            ||| text::is_inside(sought, text::lowered(t.note@))
            ||| text::is_inside(sought, text::lowered(t.window_title@))
            ||| text::is_inside(sought, text::lowered(t.process_name@))
        }),
        forall|i: int|
            0 <= i < list.len() ==> (#[trigger] list[i]).tag == store[list[i].target],
        forall|i: int, j: int|
            0 <= i < j < list.len() ==> text::not_after(
                (#[trigger] list[i]).tag.title@,
                (#[trigger] list[j]).tag.title@,
            ),
{
    if rows::has_row(list, target) {
        let i = choose|i: int| 0 <= i < list.len() && (#[trigger] list[i]).target == target;
        assert(list[i].target == target);
    }
}

/// A tag in the tree reads as its title and its window title, and below it stand a
/// caption and its note, line by line; every line leads to the same window.
pub proof fn tree_reads_as_the_tag(
    item: TreeItem,
    row: TagRow,
    expanded: Set<isize>,
    collapsed: Set<isize>,
    i: int,
)
    requires
        item_shows(item, row, expanded, collapsed),
    ensures
        item.target == row.target,
        text::begins_with(item.text@, row.tag.title@),
        text::is_inside(row.tag.window_title@, item.text@),
        item.text@.len() == row.tag.title@.len() + 3 + row.tag.window_title@.len(),
        item.details@.len() > 1,
        row.tag.note@.len() > 0 ==> item.details@.len() == 1 + text::text_lines(
            row.tag.note@,
        ).len(),
        row.tag.note@.len() > 0 && 0 <= i < text::text_lines(row.tag.note@).len() ==> item.details@[i
            + 1]@ == text::text_lines(row.tag.note@)[i],
        item.expanded <==> expanded.contains(row.target) || !collapsed.contains(row.target),
{
    reveal_strlit(" | ");
    let front = row.tag.title@ + " | "@;
    assert(item.text@ =~= front + row.tag.window_title@ + Seq::<char>::empty());
    text::inside_means_between(row.tag.window_title@, front, Seq::empty());
    assert(item.text@.subrange(0, row.tag.title@.len() as int) =~= row.tag.title@);
    text::lines_hold_no_line_feed(row.tag.note@);
    assert(text::contents(item.details@).len() == item.details@.len());
    if row.tag.note@.len() > 0 && 0 <= i < text::text_lines(row.tag.note@).len() {
        assert(text::contents(item.details@)[i + 1] == item.details@[i + 1]@);
    }
}

/// The controls of the panel do what they are for: typing in the search box and a
/// change of the tags build the tree anew, one button opens all tags and the other
/// one closes them, Enter goes to the window of the chosen tag, and Escape and the
/// close button make the panel disappear. Nothing else does.
pub proof fn panel_does_what_it_is_for(known: bool, event: PanelEvent)
    ensures
        ({
            let action = panel_reaction(known, event);
            &&& action == PanelAction::Refresh <==> event is TagsChanged || (event is Command
                && event->id == 201 && event->code == 0x0300)
            &&& action == PanelAction::SetAllExpanded(true) <==> event is Command && event->id
                == 203 && event->code == 0
            &&& action == PanelAction::SetAllExpanded(false) <==> event is Command && event->id
                == 204 && event->code == 0
            &&& action == PanelAction::ActivateCaret <==> event is KeyDown && event->key == 0x0D
            &&& action == PanelAction::Disappear <==> event is Close || (event is KeyDown
                && event->key == 0x1B)
            &&& action is TreeClick <==> event is Click && event->control == 202
            &&& action matches PanelAction::TreeClick { keep_open_state } ==> keep_open_state
                == event->double
            &&& action == PanelAction::OfferMenu <==> event is ContextMenu && known
                && event->with_mouse
        }),
{
}

/// Tab goes round the controls: from the search box to the tree, to the two buttons,
/// and back to the search box. Shift and Tab goes the other way round, and a control
/// that is not among them hands over to the search box.
pub proof fn tab_goes_round_the_panel(other: i32, shift: bool)
    ensures
        next_focus(201, false) == 202,
        next_focus(202, false) == 203,
        next_focus(203, false) == 204,
        next_focus(204, false) == 201,
        next_focus(202, true) == 201,
        next_focus(203, true) == 202,
        next_focus(204, true) == 203,
        next_focus(201, true) == 204,
        other < 201 || other > 204 ==> next_focus(other, shift) == 201,
{
    let order = keyboard_order();
    reveal_with_fuel(controls::id_position, 5);
    let o1 = order.subrange(1, 4);
    let o2 = o1.subrange(1, 3);
    let o3 = o2.subrange(1, 2);
    assert(order[0] == 201 && order[1] == 202 && order[2] == 203 && order[3] == 204);
    assert(o1[0] == 202 && o2[0] == 203 && o3[0] == 204);
    assert(o3.subrange(1, 1).len() == 0);
}

/// A click in the tree goes to the window of a tag when it hits the picture or the
/// text of the tag itself; the sign that opens the tag, and what stands below it,
/// are no such place. Enter also works on what stands below.
pub proof fn tree_leads_to_the_clicked_tag(
    hit: TreeHit,
    clicked: Option<isize>,
    selected: isize,
    parent: isize,
    entered: Option<isize>,
)
    requires
        call_ensures(handle_tree_click, (hit,), clicked),
        call_ensures(activate_caret_item, (selected, parent), entered),
    ensures
        clicked matches Some(item) ==> item == hit.item && item != 0 && hit.parent == 0
            && hit.flags & 0x10 == 0 && hit.flags & 0x46 != 0,
        hit.item != 0 && hit.parent == 0 && hit.flags & 0x10 == 0 && hit.flags & 0x46 != 0
            ==> clicked == Some(hit.item),
        selected == 0 ==> entered is None,
        selected != 0 && parent == 0 ==> entered == Some(selected),
        selected != 0 && parent != 0 ==> entered == Some(parent),
{
}

/// The menu of a tag is about the window of this tag: it is brought to the front,
/// its tag is edited, or its badge is taken away. Without a window nothing is done.
pub proof fn menu_is_about_the_tag(
    hidden_hwnd: isize,
    target: isize,
    alive: bool,
    iconic: bool,
    choice: i32,
)
    requires
        target != 0,
    ensures
        menu_reaction(hidden_hwnd, 0, choice, alive, iconic) == MenuAction::Nothing,
        ({
            let raise = menu_reaction(hidden_hwnd, target, 301, alive, iconic);
            let edit = menu_reaction(hidden_hwnd, target, 302, alive, iconic);
            let remove = menu_reaction(hidden_hwnd, target, 303, alive, iconic);
            &&& !alive ==> raise == MenuAction::Activate(ActivatePlan::Refresh)
            &&& alive ==> (raise matches MenuAction::Activate(ActivatePlan::Raise(plan))
                && plan.restore == iconic && plan.foreground && plan.keep_place && plan.keep_size
                && plan.insert_after == overlay::InsertAfter::Top)
            &&& edit == MenuAction::Post(
                PostedMessage { to: hidden_hwnd, msg: WM_APP_EDIT_TAG, wparam: target },
            )
            &&& remove == MenuAction::PostAndRefresh(
                PostedMessage { to: hidden_hwnd, msg: WM_DESTROY_OVERLAY, wparam: target },
            )
        }),
        choice < 301 || choice > 303 ==> menu_reaction(hidden_hwnd, target, choice, alive, iconic)
            == MenuAction::Nothing,
{
}

/// The tree has the colours for lists of the theme in force.
pub proof fn tree_has_the_colors_of_the_theme(
    colors: ThemeColors,
    dark: bool,
    look: TreeTheme,
    bare: TreeTheme,
)
    requires
        call_ensures(tree_theme, (Some(colors), dark), look),
        call_ensures(tree_theme, (None, dark), bare),
    ensures
        look.bg == colors.listview_bg && look.fg == colors.listview_fg && look.line
            == colors.border,
        bare.bg == theme::light().listview_bg && bare.fg == theme::light().listview_fg,
        look.class@ == "DarkMode_Explorer"@ <==> dark,
{
    reveal_strlit("DarkMode_Explorer");
    reveal_strlit("Explorer");
    assert("DarkMode_Explorer"@.len() != "Explorer"@.len());
}

/// The panel is shown and hidden in turn, and counts as hidden once it was told to
/// disappear; nothing else about it changes.
pub proof fn panel_is_shown_and_hidden(event: PanelEvent, action: PanelAction, shown: bool)
    ensures
        forall|d: &mut Option<PanelData>| #[trigger]
            call_ensures(panel_wndproc, (d, event), action) ==> {
                &&& action == panel_reaction(*d is Some, event)
                &&& *d is Some ==> *final(d) is Some && (*final(d))->0.hidden_hwnd
                    == (*d)->0.hidden_hwnd
                &&& *d is Some && (event is Close || (event is KeyDown && event->key == 0x1B))
                    ==> !(*final(d))->0.visible
                &&& *d is Some && !(event is Close) && !(event is KeyDown && event->key == 0x1B)
                    ==> (*final(d))->0.visible == (*d)->0.visible
                &&& *d is None ==> *final(d) is None
            },
        forall|d: &mut PanelData| #[trigger]
            call_ensures(toggle_panel, (d,), shown) ==> {
                &&& shown == !d.visible
                &&& final(d).visible == shown
                &&& final(d).hidden_hwnd == d.hidden_hwnd
            },
{
}

/// Going to the window of a tag keeps the tags, unless the window is gone: then its
/// own tag goes, and no other one. The entry of the menu that removes a tag removes
/// this tag.
pub proof fn only_the_own_tag_is_removed(
    target: isize,
    other: isize,
    alive: bool,
    iconic: bool,
    plan: ActivatePlan,
    data: PanelData,
    choice: i32,
    action: MenuAction,
)
    requires
        other != target,
    ensures
        forall|s: &mut TagStore| #[trigger]
            call_ensures(activate_target, (s, target, alive, iconic), plan) ==> {
                &&& alive ==> final(s)@ == s@ && plan is Raise
                &&& !alive ==> !final(s)@.contains_key(target) && plan is Refresh
                &&& plan matches ActivatePlan::Raise(p) ==> p.restore == iconic && p.foreground
                    && p.keep_place && p.keep_size && p.insert_after == overlay::InsertAfter::Top
                &&& final(s)@.contains_key(other) == s@.contains_key(other)
                &&& s@.contains_key(other) ==> final(s)@[other] == s@[other]
            },
        forall|s: &mut TagStore| #[trigger]
            call_ensures(
                handle_tree_context_menu,
                (&data, s, target, choice, alive, iconic),
                action,
            ) ==> {
                &&& action == menu_reaction(data.hidden_hwnd, target, choice, alive, iconic)
                &&& choice == 303 && target != 0 ==> !final(s)@.contains_key(target)
                &&& choice == 302 ==> final(s)@ == s@
                &&& choice == 301 && alive ==> final(s)@ == s@
                &&& final(s)@.contains_key(other) == s@.contains_key(other)
                &&& s@.contains_key(other) ==> final(s)@[other] == s@[other]
            },
{
}

/// What was open and closed in the tree is remembered, each for its own window.
pub proof fn open_tags_are_remembered(
    roots: &[(isize, bool)],
    split: (HashSet<isize>, HashSet<isize>),
    target: isize,
)
    requires
        call_ensures(collect_tree_snapshot, (roots,), split),
    ensures
        split.0@.contains(target) <==> roots@.contains((target, true)),
        split.1@.contains(target) <==> roots@.contains((target, false)),
{
}

/// What is said here of the tree is said of the functions that build it.
pub proof fn tree_is_built_like_this(
    store: TagStore,
    query: &str,
    list: Vec<TagRow>,
    shown: &[TagRow],
    expanded: HashSet<isize>,
    collapsed: HashSet<isize>,
    items: Vec<TreeItem>,
    i: int,
    target: isize,
    open: bool,
    width: i32,
    height: i32,
    dpi: u32,
    l: PanelLayout,
)
    requires
        call_ensures(search_by_title, (&store, query), list),
        call_ensures(tree_items, (shown, &expanded, &collapsed), items),
        call_ensures(root_expand_default, (&expanded, &collapsed, target), open),
        call_ensures(layout_children, (width, height, dpi), l),
        0 <= i < shown@.len(),
    ensures
        is_search_result(list@, store@, query@),
        items@.len() == shown@.len(),
        item_shows(items@[i], shown@[i], expanded@, collapsed@),
        open == shows_details(expanded@, collapsed@, target),
        l == layout_in(width as int, height as int, dpi),
{
}

/// The size in a message is the width in the low half and the height in the high
/// one.
pub proof fn sizes_are_unpacked(width: u16, height: u16, size: (i32, i32))
    requires
        call_ensures(lparam_size, (((height as isize) << 16) | (width as isize),), size),
    ensures
        size.0 == width,
        size.1 == height,
{
    assert((((height as isize) << 16) | (width as isize)) as u16 == width) by (bit_vector);
    assert(((((height as isize) << 16) | (width as isize)) >> 16) as u16 == height)
        by (bit_vector);
}

/// A tag stands in the tree if and only if one of its four texts holds what is
/// searched for, and it reads as that tag; the titles stand in order.
pub proof fn tree_is_built_from_the_tags(
    store: TagStore,
    query: &str,
    expanded: HashSet<isize>,
    collapsed: HashSet<isize>,
    items: Vec<TreeItem>,
    target: isize,
)
    requires
        call_ensures(refresh_tree, (&store, query, &expanded, &collapsed), items),
    ensures
        (exists|i: int| 0 <= i < items@.len() && (#[trigger] items@[i]).target == target)
            <==> store@.contains_key(target) && ({
            let sought = text::lowered(text::trimmed(query@));
            let t = store@[target];
            ||| text::is_inside(sought, text::lowered(t.title@))
            ||| text::is_inside(sought, text::lowered(t.note@))
            ||| text::is_inside(sought, text::lowered(t.window_title@))
            ||| text::is_inside(sought, text::lowered(t.process_name@))
        }),
        forall|i: int|
            0 <= i < items@.len() ==> text::begins_with(
                (#[trigger] items@[i]).text@,
                store@[items@[i].target].title@,
            ) && text::is_inside(store@[items@[i].target].window_title@, items@[i].text@),
        forall|i: int|
            0 <= i < items@.len() ==> ((#[trigger] items@[i]).expanded <==> expanded@.contains(
                items@[i].target,
            ) || !collapsed@.contains(items@[i].target)),
        forall|i: int, j: int|
            0 <= i < j < items@.len() ==> text::not_after(
                store@[(#[trigger] items@[i]).target].title@,
                store@[(#[trigger] items@[j]).target].title@,
            ) && items@[i].target != items@[j].target,
{
    let list = choose|list: Seq<TagRow>|
        is_search_result(list, store@, query@) && #[trigger] tree_shows(
            items@,
            list,
            expanded@,
            collapsed@,
        );
    tree_shows_what_is_searched(list, store@, query@, target);
    assert forall|i: int| 0 <= i < items@.len() implies (#[trigger] items@[i]).target
        == list[i].target && list[i].tag == store@[list[i].target] && text::begins_with(
        items@[i].text@,
        list[i].tag.title@,
    ) && text::is_inside(list[i].tag.window_title@, items@[i].text@) && (items@[i].expanded
        <==> expanded@.contains(list[i].target) || !collapsed@.contains(list[i].target)) by {
        assert(item_shows(items@[i], list[i], expanded@, collapsed@));
        tree_reads_as_the_tag(items@[i], list[i], expanded@, collapsed@, 0);
    }
    if rows::has_row(list, target) {
        let i = choose|i: int| 0 <= i < list.len() && (#[trigger] list[i]).target == target;
        assert(items@[i].target == target);
    }
    if exists|i: int| 0 <= i < items@.len() && (#[trigger] items@[i]).target == target {
        let i = choose|i: int| 0 <= i < items@.len() && (#[trigger] items@[i]).target == target;
        assert(list[i].target == target);
    }
}

} // verus!
