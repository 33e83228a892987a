//! Searching, editing and reordering the rows of the overview panel.

use crate::model::tag::{Tag, TagColor};
use crate::text;
use crate::text::{contains, lower, trim};
use crate::ui::iced_proto::TagRow;
use vstd::prelude::*;

verus! {

/// Field of a tag that can be edited in place.
#[derive(Debug, Clone, Copy, PartialEq, Eq, Structural)]
pub enum EditField {
    Title,
    Note,
}

/// An edit in place.
#[derive(Debug)]
pub struct PanelEdit {
    /// Window whose tag is edited.
    pub target: isize,
    pub field: EditField,
    /// Text typed so far.
    pub draft: String,
}

/// A row being dragged to another place.
#[derive(Debug, Clone, Copy, PartialEq, Eq, Structural)]
pub struct PanelDrag {
    /// The row that is dragged.
    pub from_target: isize,
    /// The row under the pointer, once there is one.
    pub over_target: Option<isize>,
}

// ---------------------------------------------------------------------
// Searching
// ---------------------------------------------------------------------
/// Whether one of the four texts of `tag` holds `needle`, whatever the case.
pub open spec fn tag_matches(tag: Tag, needle: Seq<char>) -> bool {
    ||| text::is_inside(needle, text::lowered(tag.title@))
    ||| text::is_inside(needle, text::lowered(tag.note@))
    ||| text::is_inside(needle, text::lowered(tag.window_title@))
    ||| text::is_inside(needle, text::lowered(tag.process_name@))
}

/// What a search for `query` looks for.
pub open spec fn search_needle(query: Seq<char>) -> Seq<char> {
    text::lowered(text::trimmed(query))
}

/// The rows that a search for `query` finds, in their order.
pub open spec fn rows_found(rows: Seq<TagRow>, query: Seq<char>) -> Seq<TagRow> {
    rows.filter(|r: TagRow| tag_matches(r.tag, search_needle(query)))
}

/// Whether one of the four texts of `tag` holds `needle`, whatever the case.
pub fn tag_matches_needle(tag: &Tag, needle: &str) -> (found: bool)
    ensures
        found == tag_matches(*tag, needle@),
{
    let title: String = lower(tag.title.as_str());
    let note: String = lower(tag.note.as_str());
    let window: String = lower(tag.window_title.as_str());
    let process: String = lower(tag.process_name.as_str());
    contains(title.as_str(), needle) || contains(note.as_str(), needle) || contains(
        window.as_str(),
        needle,
    ) || contains(process.as_str(), needle)
}

/// The rows that hold `query` in one of their texts.
pub fn filter_rows(rows: &[TagRow], query: &str) -> (found: Vec<TagRow>)
    ensures
        found@ == rows_found(rows@, query@),
{
    let needle: String = lower(trim(query));
    let ghost hit = |r: TagRow| tag_matches(r.tag, search_needle(query@));
    let mut found: Vec<TagRow> = Vec::new();
    let mut i: usize = 0;
    while i < rows.len()
        invariant
            i <= rows.len(),
            needle@ == search_needle(query@),
            hit == (|r: TagRow| tag_matches(r.tag, search_needle(query@))),
            found@ == rows@.take(i as int).filter(hit),
        decreases rows.len() - i,
    {
        proof {
            assert(rows@.take(i + 1) =~= rows@.take(i as int).push(rows[i as int]));
            reveal(Seq::filter);
            assert(rows@.take(i + 1).drop_last() =~= rows@.take(i as int));
        }
        if tag_matches_needle(&rows[i].tag, needle.as_str()) {
            found.push(rows[i].clone());
        }
        i = i + 1;
    }
    proof {
        assert(rows@.take(rows.len() as int) =~= rows@);
    }
    found
}

/// A search for nothing finds every row.
pub proof fn empty_search_finds_all(rows: Seq<TagRow>, query: Seq<char>)
    requires
        search_needle(query).len() == 0,
    ensures
        rows_found(rows, query) == rows,
    decreases rows.len(),
{
    reveal(Seq::filter);
    if rows.len() > 0 {
        empty_search_finds_all(rows.drop_last(), query);
        text::empty_and_self_are_inside(text::lowered(rows.last().tag.title@));
        assert(search_needle(query) =~= Seq::empty());
        assert(rows.drop_last().push(rows.last()) =~= rows);
    }
}

/// A search shows a row if and only if the row is there and matches.
pub proof fn search_shows_exactly_the_matches(rows: Seq<TagRow>, query: Seq<char>, row: TagRow)
    ensures
        rows_found(rows, query).contains(row) <==> rows.contains(row) && tag_matches(
            row.tag,
            search_needle(query),
        ),
        rows_found(rows, query).len() <= rows.len(),
{
    let hit = |r: TagRow| tag_matches(r.tag, search_needle(query));
    lemma_filter_contains(rows, hit, row);
    rows.lemma_filter_len(hit);
}

/// A search looks in the title, the note, the window title and the process name of
/// a row alike, and in nothing else. It looks for the query without the white space
/// at its ends, and case plays no part on either side: what counts are the
/// lower-case forms.
pub proof fn search_looks_in_four_texts(list: Seq<TagRow>, query: Seq<char>, row: TagRow)
    ensures
        rows_found(list, query).contains(row) <==> list.contains(row) && ({
            let sought = text::lowered(text::trimmed(query));
            ||| text::is_inside(sought, text::lowered(row.tag.title@))
            ||| text::is_inside(sought, text::lowered(row.tag.note@))
            ||| text::is_inside(sought, text::lowered(row.tag.window_title@))
            ||| text::is_inside(sought, text::lowered(row.tag.process_name@))
        }),
{
    lemma_filter_contains(list, |r: TagRow| tag_matches(r.tag, search_needle(query)), row);
}

/// Whether two tags differ in nothing but case, as far as a search goes.
pub open spec fn same_but_for_case(a: Tag, b: Tag) -> bool {
    &&& text::lowered(a.title@) == text::lowered(b.title@)
    &&& text::lowered(a.note@) == text::lowered(b.note@)
    &&& text::lowered(a.window_title@) == text::lowered(b.window_title@)
    &&& text::lowered(a.process_name@) == text::lowered(b.process_name@)
}

/// Tags that differ in nothing but case are found by the same queries, and queries
/// that differ in nothing but case and in the white space at their ends find the
/// same rows.
pub proof fn search_ignores_case(
    a: TagRow,
    b: TagRow,
    list: Seq<TagRow>,
    query: Seq<char>,
    other: Seq<char>,
)
    ensures
        same_but_for_case(a.tag, b.tag) ==> (rows_found(seq![a], query) == seq![a] <==> rows_found(
            seq![b],
            query,
        ) == seq![b]),
        text::lowered(text::trimmed(query)) == text::lowered(text::trimmed(other)) ==> rows_found(
            list,
            query,
        ) == rows_found(list, other),
        rows_found(list, query) == rows_found(list, text::trimmed(query)),
{
    lemma_one_row(a, query);
    lemma_one_row(b, query);
    assert(seq![a].len() == 1 && seq![b].len() == 1);
    text::trimmed_has_clean_ends(query);
    if search_needle(query) == search_needle(other) {
        assert((|r: TagRow| tag_matches(r.tag, search_needle(query))) =~= (|r: TagRow|
            tag_matches(r.tag, search_needle(other))));
    }
    assert((|r: TagRow| tag_matches(r.tag, search_needle(query))) =~= (|r: TagRow|
        tag_matches(r.tag, search_needle(text::trimmed(query)))));
}

/// A tag is found by its own title, its own note, its own window title and its own
/// process name, in whatever case the query is typed.
pub proof fn own_texts_find_the_tag(row: TagRow, query: Seq<char>)
    requires
        ({
            let sought = text::lowered(text::trimmed(query));
            ||| sought == text::lowered(row.tag.title@)
            ||| sought == text::lowered(row.tag.note@)
            ||| sought == text::lowered(row.tag.window_title@)
            ||| sought == text::lowered(row.tag.process_name@)
        }),
    ensures
        rows_found(seq![row], query) == seq![row],
{
    lemma_one_row(row, query);
    text::empty_and_self_are_inside(search_needle(query));
}

/// A search goes through the rows one by one: it finds in two lists, one behind the
/// other, what it finds in each of them, in this order, and of a single row the row
/// or nothing.
pub proof fn search_goes_row_by_row(
    a: Seq<TagRow>,
    b: Seq<TagRow>,
    row: TagRow,
    query: Seq<char>,
)
    ensures
        rows_found(a + b, query) == rows_found(a, query) + rows_found(b, query),
        rows_found(seq![row], query) == seq![row] || rows_found(seq![row], query).len() == 0,
    decreases b.len(),
{
    reveal(Seq::filter);
    lemma_one_row(row, query);
    if b.len() == 0 {
        assert(a + b =~= a);
        assert(rows_found(a, query) + rows_found(b, query) =~= rows_found(a, query));
    } else {
        search_goes_row_by_row(a, b.drop_last(), row, query);
        assert((a + b).drop_last() =~= a + b.drop_last());
        assert(rows_found(a + b, query) =~= rows_found(a, query) + rows_found(b, query));
    }
}

proof fn lemma_one_row(row: TagRow, query: Seq<char>)
    ensures
        rows_found(seq![row], query) == (if tag_matches(row.tag, search_needle(query)) {
            seq![row]
        } else {
            Seq::empty()
        }),
{
    reveal_with_fuel(Seq::filter, 2);
    assert(seq![row].drop_last() =~= Seq::empty());
    assert(Seq::<TagRow>::empty().push(row) =~= seq![row]);
    assert(rows_found(seq![row], query) =~= (if tag_matches(row.tag, search_needle(query)) {
        seq![row]
    } else {
        Seq::empty()
    }));
}

// ---------------------------------------------------------------------
// Editing in place
// ---------------------------------------------------------------------
/// `tag` with the edited field replaced by the draft.
pub open spec fn tag_edited(tag: Tag, edit: PanelEdit) -> Tag {
    match edit.field {
        EditField::Title => Tag { title: edit.draft, ..tag },
        EditField::Note => Tag { note: edit.draft, ..tag },
    }
}

/// Position of the first row of window `target`, or the number of rows.
pub open spec fn row_position(rows: Seq<TagRow>, target: isize) -> int
    decreases rows.len(),
{
    if rows.len() == 0 {
        0
    } else if rows[0].target == target {
        0
    } else {
        1 + row_position(rows.subrange(1, rows.len() as int), target)
    }
}

/// Whether some row belongs to window `target`.
pub open spec fn has_row(rows: Seq<TagRow>, target: isize) -> bool {
    exists|i: int| 0 <= i < rows.len() && (#[trigger] rows[i]).target == target
}

/// The rows after the edit.
pub open spec fn rows_edited(rows: Seq<TagRow>, edit: PanelEdit) -> Seq<TagRow> {
    let at = row_position(rows, edit.target);
    if at < rows.len() {
        rows.update(at, TagRow { target: rows[at].target, tag: tag_edited(rows[at].tag, edit) })
    } else {
        rows
    }
}

pub proof fn lemma_row_position(rows: Seq<TagRow>, target: isize)
    ensures
        0 <= row_position(rows, target) <= rows.len(),
        row_position(rows, target) < rows.len() <==> has_row(rows, target),
        row_position(rows, target) < rows.len() ==> rows[row_position(rows, target)].target
            == target,
        forall|i: int|
            0 <= i < row_position(rows, target) ==> (#[trigger] rows[i]).target != target,
    decreases rows.len(),
{
    if rows.len() > 0 && rows[0].target != target {
        let rest = rows.subrange(1, rows.len() as int);
        lemma_row_position(rest, target);
        assert forall|i: int| 0 <= i < row_position(rows, target) implies (
        #[trigger] rows[i]).target != target by {
            if i > 0 {
                assert(rest[i - 1] == rows[i]);
            }
        }
        if has_row(rows, target) {
            let i = choose|i: int| 0 <= i < rows.len() && (#[trigger] rows[i]).target == target;
            assert(rest[i - 1].target == target);
        }
    }
}

/// Position of the first row of window `target`, or the number of rows.
pub fn find_row(rows: &[TagRow], target: isize) -> (at: usize)
    ensures
        at == row_position(rows@, target),
        at <= rows.len(),
        at < rows.len() <==> has_row(rows@, target),
        at < rows.len() ==> rows[at as int].target == target,
{
    let mut i: usize = 0;
    while i < rows.len() && rows[i].target != target
        invariant
            i <= rows.len(),
            forall|k: int| 0 <= k < i ==> (#[trigger] rows[k]).target != target,
        decreases rows.len() - i,
    {
        i = i + 1;
    }
    proof {
        lemma_row_position(rows@, target);
        if i < rows.len() {
            assert(rows@[i as int].target == target);
        }
    }
    i
}

/// Puts the draft into the edited row. Returns the new rows and the tag that
/// was changed; when no row belongs to the edited window, the rows stay as they
/// are and the first row's tag is returned, or an empty tag when there is none.
pub fn apply_edit_to_rows(rows: &[TagRow], edit: &PanelEdit) -> (result: (Vec<TagRow>, Tag))
    ensures
        result.0@ == rows_edited(rows@, *edit),
        has_row(rows@, edit.target) ==> result.1 == tag_edited(
            rows[row_position(rows@, edit.target)].tag,
            *edit,
        ),
        !has_row(rows@, edit.target) && rows.len() > 0 ==> result.1 == rows[0].tag,
        rows.len() == 0 ==> result.1.title@.len() == 0 && result.1.note@.len() == 0
            && result.1.color == TagColor::Orange && result.1.window_title@.len() == 0
            && result.1.process_name@.len() == 0,
{
    let mut new_rows: Vec<TagRow> = clone_rows(rows);
    let at: usize = find_row(rows, edit.target);
    if at < rows.len() {
        let mut tag: Tag = rows[at].tag.clone();
        match edit.field {
            EditField::Title => tag.title = edit.draft.clone(),
            EditField::Note => tag.note = edit.draft.clone(),
        }
        new_rows.set(at, TagRow { target: rows[at].target, tag: tag.clone() });
        (new_rows, tag)
    } else if rows.len() > 0 {
        (new_rows, rows[0].tag.clone())
    } else {
        (
            new_rows,
            Tag {
                title: String::new(),
                note: String::new(),
                color: TagColor::Orange,
                window_title: String::new(),
                process_name: String::new(),
            },
        )
    }
}

/// A copy of the rows.
pub fn clone_rows(rows: &[TagRow]) -> (copy: Vec<TagRow>)
    ensures
        copy@ == rows@,
{
    let mut copy: Vec<TagRow> = Vec::new();
    let mut i: usize = 0;
    while i < rows.len()
        invariant
            i <= rows.len(),
            copy@ == rows@.take(i as int),
        decreases rows.len() - i,
    {
        proof {
            assert(rows@.take(i + 1) =~= rows@.take(i as int).push(rows[i as int]));
        }
        copy.push(rows[i].clone());
        i = i + 1;
    }
    proof {
        assert(rows@.take(rows.len() as int) =~= rows@);
    }
    copy
}

/// An edit in place leaves every other row as it is, keeps every row's window,
/// and changes only the edited field of the edited row.
pub proof fn edit_changes_one_field_of_one_row(rows: Seq<TagRow>, edit: PanelEdit)
    ensures
        rows_edited(rows, edit).len() == rows.len(),
        forall|i: int|
            0 <= i < rows.len() ==> (#[trigger] rows_edited(rows, edit)[i]).target
                == rows[i].target,
        forall|i: int|
            0 <= i < rows.len() && i != row_position(rows, edit.target) ==> #[trigger] rows_edited(
                rows,
                edit,
            )[i] == rows[i],
        has_row(rows, edit.target) ==> {
            let before = rows[row_position(rows, edit.target)].tag;
            let after = rows_edited(rows, edit)[row_position(rows, edit.target)].tag;
            &&& after.color == before.color
            &&& after.window_title == before.window_title
            &&& after.process_name == before.process_name
            &&& edit.field == EditField::Title ==> after.title == edit.draft && after.note
                == before.note
            &&& edit.field == EditField::Note ==> after.note == edit.draft && after.title
                == before.title
        },
{
    lemma_row_position(rows, edit.target);
}

// ---------------------------------------------------------------------
// Reordering
// ---------------------------------------------------------------------
/// The windows of the rows, in order.
pub open spec fn row_targets(rows: Seq<TagRow>) -> Seq<isize> {
    rows.map_values(|r: TagRow| r.target)
}

/// What tells the other windows from `target`.
pub open spec fn other_than(target: isize) -> spec_fn(isize) -> bool {
    |t: isize| t != target
}

/// `order` without `target`.
pub open spec fn without(order: Seq<isize>, target: isize) -> Seq<isize> {
    order.filter(other_than(target))
}

/// Position of the first `target` in `order`, or the length of `order`.
pub open spec fn place_of(order: Seq<isize>, target: isize) -> int
    decreases order.len(),
{
    if order.len() == 0 || order[0] == target {
        0
    } else {
        1 + place_of(order.subrange(1, order.len() as int), target)
    }
}

proof fn lemma_place_of(order: Seq<isize>, target: isize)
    ensures
        0 <= place_of(order, target) <= order.len(),
        place_of(order, target) < order.len() <==> order.contains(target),
        place_of(order, target) < order.len() ==> order[place_of(order, target)] == target,
        forall|i: int| 0 <= i < place_of(order, target) ==> order[i] != target,
    decreases order.len(),
{
    if order.len() > 0 && order[0] != target {
        let rest = order.subrange(1, order.len() as int);
        lemma_place_of(rest, target);
        assert forall|i: int| 0 <= i < place_of(order, target) implies order[i] != target by {
            if i > 0 {
                assert(rest[i - 1] == order[i]);
            }
        }
        if order.contains(target) {
            let i = order.index_of(target);
            assert(rest[i - 1] == target);
        }
        if rest.contains(target) {
            let i = rest.index_of(target);
            assert(order[i + 1] == target);
        }
    }
}

proof fn lemma_filter_contains<A>(s: Seq<A>, keep: spec_fn(A) -> bool, x: A)
    ensures
        s.filter(keep).contains(x) <==> s.contains(x) && keep(x),
    decreases s.len(),
{
    reveal(Seq::filter);
    if s.len() > 0 {
        lemma_filter_contains(s.drop_last(), keep, x);
        assert(s.drop_last().push(s.last()) =~= s);
        if s.contains(x) && x != s.last() {
            let i = s.index_of(x);
            assert(s.drop_last()[i] == x);
        }
    }
}

proof fn lemma_filter_no_duplicates<A>(s: Seq<A>, keep: spec_fn(A) -> bool)
    requires
        s.no_duplicates(),
    ensures
        s.filter(keep).no_duplicates(),
    decreases s.len(),
{
    reveal(Seq::filter);
    if s.len() > 0 {
        lemma_filter_no_duplicates(s.drop_last(), keep);
        lemma_filter_contains(s.drop_last(), keep, s.last());
    }
}

/// The order of the rows when the drag ends here: the dragged row stands right
/// behind the row under the pointer, the others keep their order. Nothing moves
/// when the pointer is over no row, over the dragged row itself, or when one of
/// the two rows is gone.
pub open spec fn order_after_drag(order: Seq<isize>, drag: PanelDrag) -> Seq<isize> {
    match drag.over_target {
        Some(over) => if over != drag.from_target && order.contains(drag.from_target)
            && order.contains(over) {
            let rest = without(order, drag.from_target);
            rest.insert(place_of(rest, over) + 1, drag.from_target)
        } else {
            order
        },
        None => order,
    }
}

/// Position of `target` in `order`, or its length.
fn position_of(order: &Vec<isize>, target: isize) -> (at: usize)
    ensures
        at <= order.len(),
        at < order.len() <==> order@.contains(target),
        at < order.len() ==> order[at as int] == target,
        forall|k: int| 0 <= k < at ==> order[k] != target,
{
    let mut i: usize = 0;
    while i < order.len() && order[i] != target
        invariant
            i <= order.len(),
            forall|k: int| 0 <= k < i ==> order[k] != target,
        decreases order.len() - i,
    {
        i = i + 1;
    }
    i
}

/// The windows of the rows, in order.
pub fn targets_of(rows: &[TagRow]) -> (targets: Vec<isize>)
    ensures
        targets@ == row_targets(rows@),
{
    let mut targets: Vec<isize> = Vec::new();
    let mut i: usize = 0;
    while i < rows.len()
        invariant
            i <= rows.len(),
            targets.len() == i,
            forall|k: int| 0 <= k < i ==> targets[k] == (#[trigger] rows[k]).target,
        decreases rows.len() - i,
    {
        targets.push(rows[i].target);
        i = i + 1;
    }
    proof {
        assert(targets@ =~= row_targets(rows@)) by {
            assert forall|k: int| 0 <= k < targets.len() implies targets@[k] == row_targets(
                rows@,
            )[k] by {
                assert(rows[k].target == rows@[k].target);
            }
        }
    }
    targets
}

/// The order of the windows when the drag ends here.
pub fn preview_reorder(rows: &[TagRow], drag: &PanelDrag) -> (order: Vec<isize>)
    ensures
        order@ == order_after_drag(row_targets(rows@), *drag),
{
    let order: Vec<isize> = targets_of(rows);
    let over: isize = match drag.over_target {
        Some(over) => over,
        None => {
            return order;
        },
    };
    let from: isize = drag.from_target;
    let from_pos: usize = position_of(&order, from);
    if from_pos == order.len() {
        return order;
    }
    let over_pos: usize = position_of(&order, over);
    if over_pos == order.len() || from_pos == over_pos {
        return order;
    }
    let ghost keep = other_than(from);
    let mut rest: Vec<isize> = Vec::new();
    let mut i: usize = 0;
    while i < order.len()
        invariant
            i <= order.len(),
            keep == other_than(from),
            rest@ == order@.take(i as int).filter(keep),
        decreases order.len() - i,
    {
        proof {
            assert(order@.take(i + 1) =~= order@.take(i as int).push(order[i as int]));
            reveal(Seq::filter);
            assert(order@.take(i + 1).drop_last() =~= order@.take(i as int));
        }
        if order[i] != from {
            rest.push(order[i]);
        }
        i = i + 1;
    }
    proof {
        assert(order@.take(order.len() as int) =~= order@);
        assert(rest@ == without(order@, from));
        lemma_filter_contains(order@, keep, over);
    }
    let at: usize = position_of(&rest, over);
    proof {
        lemma_place_of(rest@, over);
    }
    rest.insert(at + 1, from);
    rest
}

/// Whether the drag moves a row: both rows are there and differ.
pub open spec fn drag_moves(order: Seq<isize>, drag: PanelDrag) -> bool {
    &&& drag.over_target is Some
    &&& drag.over_target->0 != drag.from_target
    &&& order.contains(drag.from_target)
    &&& order.contains(drag.over_target->0)
}

/// When every window has one row, a drag neither loses nor adds a row.
pub proof fn drag_permutes_rows(order: Seq<isize>, drag: PanelDrag)
    requires
        order.no_duplicates(),
    ensures
        order_after_drag(order, drag).to_multiset() == order.to_multiset(),
{
    if drag_moves(order, drag) {
        let from = drag.from_target;
        let rest = without(order, from);
        let at = place_of(rest, drag.over_target->0) + 1;
        lemma_filter_contains(order, other_than(from), drag.over_target->0);
        lemma_place_of(rest, drag.over_target->0);
        lemma_without_one(order, from);
        vstd::seq_lib::to_multiset_insert(rest, at, from);
        vstd::seq_lib::to_multiset_remove(order, order.index_of(from));
        vstd::seq_lib::to_multiset_contains(order, from);
        assert(order.to_multiset() =~= rest.to_multiset().insert(from));
    }
}

/// The row that was moved stands right behind the row it was dropped on.
pub proof fn dragged_row_follows_its_drop_target(order: Seq<isize>, drag: PanelDrag)
    requires
        drag_moves(order, drag),
    ensures
        exists|i: int|
            0 <= i < order_after_drag(order, drag).len() - 1 && #[trigger] order_after_drag(
                order,
                drag,
            )[i] == drag.over_target->0 && order_after_drag(order, drag)[i + 1]
                == drag.from_target,
{
    let over = drag.over_target->0;
    let rest = without(order, drag.from_target);
    let at = place_of(rest, over);
    lemma_filter_contains(order, other_than(drag.from_target), over);
    lemma_place_of(rest, over);
    let after = order_after_drag(order, drag);
    assert(after[at] == over && after[at + 1] == drag.from_target);
}

/// A drag keeps the order of the rows that are not dragged.
pub proof fn drag_keeps_the_other_rows_in_order(order: Seq<isize>, drag: PanelDrag)
    ensures
        without(order_after_drag(order, drag), drag.from_target) == without(
            order,
            drag.from_target,
        ),
{
    if drag_moves(order, drag) {
        let from = drag.from_target;
        let over = drag.over_target->0;
        let rest = without(order, from);
        let at = place_of(rest, over) + 1;
        lemma_filter_contains(order, other_than(from), over);
        lemma_filter_contains(order, other_than(from), from);
        lemma_place_of(rest, over);
        lemma_without_inserted(rest, at, from);
    }
}

proof fn lemma_without_push(s: Seq<isize>, last: isize, target: isize)
    ensures
        without(s.push(last), target) == (if last == target {
            without(s, target)
        } else {
            without(s, target).push(last)
        }),
{
    reveal(Seq::filter);
    assert(s.push(last).drop_last() =~= s);
}

proof fn lemma_without_inserted(rest: Seq<isize>, at: int, target: isize)
    requires
        !rest.contains(target),
        0 <= at <= rest.len(),
    ensures
        without(rest.insert(at, target), target) == rest,
    decreases rest.len(),
{
    if at == rest.len() {
        assert(rest.insert(at, target) =~= rest.push(target));
        lemma_without_push(rest, target, target);
        lemma_without_absent(rest, target);
    } else {
        let front = rest.drop_last();
        assert(rest.contains(rest.last()));
        assert forall|k: int| 0 <= k < front.len() implies front[k] != target by {
            assert(rest.contains(rest[k]));
        }
        lemma_without_inserted(front, at, target);
        assert(rest.insert(at, target) =~= front.insert(at, target).push(rest.last()));
        lemma_without_push(front.insert(at, target), rest.last(), target);
        assert(front.push(rest.last()) =~= rest);
    }
}

proof fn lemma_without_absent(s: Seq<isize>, target: isize)
    requires
        !s.contains(target),
    ensures
        without(s, target) == s,
    decreases s.len(),
{
    reveal(Seq::filter);
    if s.len() > 0 {
        assert forall|i: int| 0 <= i < s.drop_last().len() implies s.drop_last()[i] != target by {
            assert(s.contains(s[i]));
        }
        lemma_without_absent(s.drop_last(), target);
        assert(s.contains(s.last()));
        assert(s.drop_last().push(s.last()) =~= s);
    }
}

proof fn lemma_without_one(s: Seq<isize>, target: isize)
    requires
        s.no_duplicates(),
        s.contains(target),
    ensures
        without(s, target) == s.remove(s.index_of(target)),
{
    let i = s.index_of(target);
    let rest = s.remove(i);
    assert forall|k: int| 0 <= k < rest.len() implies rest[k] != target by {
        if k < i {
            assert(rest[k] == s[k]);
        } else {
            assert(rest[k] == s[k + 1]);
        }
    }
    lemma_without_inserted(rest, i, target);
    assert(rest.insert(i, target) =~= s);
}

/// Position of the last row of window `target`, or -1.
pub open spec fn last_row(rows: Seq<TagRow>, target: isize) -> int
    decreases rows.len(),
{
    if rows.len() == 0 {
        -1
    } else if rows.last().target == target {
        rows.len() - 1
    } else {
        last_row(rows.drop_last(), target)
    }
}

/// The rows of the windows in `order`, in that order: a window named twice, or
/// without a row, is passed over.
pub open spec fn rows_picked(rows: Seq<TagRow>, order: Seq<isize>) -> Seq<TagRow>
    decreases order.len(),
{
    if order.len() == 0 {
        Seq::empty()
    } else {
        let earlier = rows_picked(rows, order.drop_last());
        let target = order.last();
        if order.drop_last().contains(target) || !has_row(rows, target) {
            earlier
        } else {
            earlier.push(rows[last_row(rows, target)])
        }
    }
}

/// The rows in the given order, and behind them those that `order` leaves out.
pub open spec fn rows_reordered(rows: Seq<TagRow>, order: Seq<isize>) -> Seq<TagRow> {
    rows_picked(rows, order) + rows.filter(|r: TagRow| !order.contains(r.target))
}

proof fn lemma_last_row(rows: Seq<TagRow>, target: isize)
    ensures
        -1 <= last_row(rows, target) < rows.len(),
        last_row(rows, target) >= 0 <==> has_row(rows, target),
        last_row(rows, target) >= 0 ==> rows[last_row(rows, target)].target == target,
        forall|i: int|
            last_row(rows, target) < i < rows.len() ==> (#[trigger] rows[i]).target != target,
    decreases rows.len(),
{
    if rows.len() > 0 && rows.last().target != target {
        let rest = rows.drop_last();
        lemma_last_row(rest, target);
        assert forall|i: int| last_row(rows, target) < i < rows.len() implies (
        #[trigger] rows[i]).target != target by {
            if i < rest.len() {
                assert(rest[i] == rows[i]);
            }
        }
        if has_row(rows, target) {
            let i = choose|i: int| 0 <= i < rows.len() && (#[trigger] rows[i]).target == target;
            assert(rest[i].target == target);
        }
    } else if rows.len() > 0 {
        assert(rows[rows.len() - 1].target == target);
    }
}

/// Puts the rows in the order of their windows in `order`; rows that `order`
/// does not name follow in the order they had.
pub fn reorder_rows(rows: &[TagRow], order: &[isize]) -> (result: Vec<TagRow>)
    ensures
        result@ == rows_reordered(rows@, order@),
{
    let mut result: Vec<TagRow> = Vec::new();
    let mut i: usize = 0;
    while i < order.len()
        invariant
            i <= order.len(),
            result@ == rows_picked(rows@, order@.take(i as int)),
        decreases order.len() - i,
    {
        let target: isize = order[i];
        let named: bool = names(order, i, target);
        let mut at: usize = rows.len();
        proof {
            assert(order@.take(i + 1).drop_last() =~= order@.take(i as int));
            lemma_last_row(rows@, target);
        }
        while at > 0 && rows[at - 1].target != target
            invariant
                at <= rows.len(),
                forall|k: int| at <= k < rows.len() ==> (#[trigger] rows[k]).target != target,
            decreases at,
        {
            at = at - 1;
        }
        if !named && at > 0 {
            proof {
                assert(rows@[at - 1].target == target);
            }
            result.push(rows[at - 1].clone());
        }
        i = i + 1;
    }
    proof {
        assert(order@.take(order.len() as int) =~= order@);
    }
    let ghost keep = |r: TagRow| !order@.contains(r.target);
    let ghost front = result@;
    let mut j: usize = 0;
    while j < rows.len()
        invariant
            j <= rows.len(),
            keep == (|r: TagRow| !order@.contains(r.target)),
            result@ == front + rows@.take(j as int).filter(keep),
        decreases rows.len() - j,
    {
        proof {
            assert(rows@.take(j + 1) =~= rows@.take(j as int).push(rows[j as int]));
            reveal(Seq::filter);
            assert(rows@.take(j + 1).drop_last() =~= rows@.take(j as int));
            assert(order@.take(order.len() as int) =~= order@);
        }
        if !names(order, order.len(), rows[j].target) {
            result.push(rows[j].clone());
        }
        j = j + 1;
    }
    proof {
        assert(rows@.take(rows.len() as int) =~= rows@);
    }
    result
}

/// Whether `target` is among the first `n` of `order`.
fn names(order: &[isize], n: usize, target: isize) -> (found: bool)
    requires
        n <= order.len(),
    ensures
        found == order@.take(n as int).contains(target),
{
    let mut i: usize = 0;
    while i < n && order[i] != target
        invariant
            i <= n <= order.len(),
            forall|k: int| 0 <= k < i ==> order[k] != target,
        decreases n - i,
    {
        i = i + 1;
    }
    proof {
        if i < n {
            assert(order@.take(n as int)[i as int] == target);
        }
    }
    i < n
}

/// When every window has one row, reordering neither loses, nor adds, nor
/// changes a row, whatever the order says.
pub proof fn reordering_permutes_rows(rows: Seq<TagRow>, order: Seq<isize>)
    requires
        row_targets(rows).no_duplicates(),
    ensures
        rows_reordered(rows, order).to_multiset() == rows.to_multiset(),
{
    let keep = |r: TagRow| !order.contains(r.target);
    let picked = rows_picked(rows, order);
    let rest = rows.filter(keep);
    let result = rows_reordered(rows, order);
    assert(rows.no_duplicates()) by {
        assert forall|i: int, j: int|
            0 <= i < rows.len() && 0 <= j < rows.len() && i != j implies rows[i] != rows[j] by {
            assert(row_targets(rows)[i] != row_targets(rows)[j]);
        }
    }
    lemma_picked(rows, order);
    lemma_filter_no_duplicates(rows, keep);
    assert forall|r: TagRow| result.contains(r) <==> rows.contains(r) by {
        lemma_filter_contains(rows, keep, r);
        if result.contains(r) {
            let i = result.index_of(r);
            if i < picked.len() {
                assert(picked[i] == r);
                assert(picked.contains(r));
            } else {
                assert(rest[i - picked.len()] == r);
                assert(rest.contains(r));
            }
        }
        if picked.contains(r) {
            let i = picked.index_of(r);
            assert(result[i] == r);
        }
        if rest.contains(r) {
            let i = rest.index_of(r);
            assert(result[picked.len() + i] == r);
        }
    }
    assert(result.no_duplicates()) by {
        assert forall|i: int, j: int|
            0 <= i < result.len() && 0 <= j < result.len() && i < j implies result[i]
            != result[j] by {
            if j < picked.len() {
                assert(picked[i] != picked[j]);
            } else if i >= picked.len() {
                assert(rest[i - picked.len()] != rest[j - picked.len()]);
            } else {
                let r = result[i];
                assert(picked[i] == r);
                assert(picked.contains(r));
                lemma_filter_contains(rows, keep, r);
                if r == result[j] {
                    assert(rest[j - picked.len()] == r);
                    assert(rest.contains(r));
                }
            }
        }
    }
    result.to_multiset_ensures();
    rows.to_multiset_ensures();
    result.lemma_multiset_has_no_duplicates();
    rows.lemma_multiset_has_no_duplicates();
    assert forall|r: TagRow| #[trigger]
        result.to_multiset().count(r) == rows.to_multiset().count(r) by {
        assert(result.contains(r) <==> result.to_multiset().count(r) > 0);
        assert(rows.contains(r) <==> rows.to_multiset().count(r) > 0);
    }
    assert(result.to_multiset() =~= rows.to_multiset());
}

/// Rows that are put in an order stand in it: the windows that the order names come
/// first and as it names them, and the others follow in the order they had.
pub proof fn reordered_rows_stand_in_the_order(rows: Seq<TagRow>, order: Seq<isize>)
    requires
        order.no_duplicates(),
        forall|t: isize| #[trigger] order.contains(t) ==> has_row(rows, t),
    ensures
        row_targets(rows_reordered(rows, order)).take(order.len() as int) == order,
        rows_reordered(rows, order).skip(order.len() as int) == rows.filter(
            |r: TagRow| !order.contains(r.target),
        ),
{
    lemma_picked_targets(rows, order);
    let picked = rows_picked(rows, order);
    let result = rows_reordered(rows, order);
    assert(picked.len() == row_targets(picked).len());
    assert forall|i: int| 0 <= i < order.len() implies row_targets(result)[i] == order[i] by {
        assert(result[i] == picked[i]);
        assert(row_targets(picked)[i] == order[i]);
    }
    assert(row_targets(result).take(order.len() as int) =~= order);
    assert(result.skip(order.len() as int) =~= rows.filter(
        |r: TagRow| !order.contains(r.target),
    ));
}

proof fn lemma_picked_targets(rows: Seq<TagRow>, order: Seq<isize>)
    requires
        order.no_duplicates(),
        forall|t: isize| #[trigger] order.contains(t) ==> has_row(rows, t),
    ensures
        row_targets(rows_picked(rows, order)) == order,
    decreases order.len(),
{
    if order.len() > 0 {
        let front = order.drop_last();
        let target = order.last();
        assert(order.contains(target));
        assert forall|t: isize| #[trigger] front.contains(t) implies has_row(rows, t) by {
            let i = front.index_of(t);
            assert(order[i] == t);
            assert(order.contains(t));
        }
        assert(!front.contains(target)) by {
            if front.contains(target) {
                let i = front.index_of(target);
                assert(order[i] == order[order.len() - 1]);
            }
        }
        lemma_picked_targets(rows, front);
        lemma_last_row(rows, target);
        assert(row_targets(rows_picked(rows, order)) =~= row_targets(
            rows_picked(rows, front),
        ).push(target));
        assert(front.push(target) =~= order);
    } else {
        assert(row_targets(rows_picked(rows, order)) =~= order);
    }
}

proof fn lemma_picked(rows: Seq<TagRow>, order: Seq<isize>)
    requires
        row_targets(rows).no_duplicates(),
    ensures
        rows_picked(rows, order).no_duplicates(),
        forall|r: TagRow| #[trigger]
            rows_picked(rows, order).contains(r) <==> rows.contains(r) && order.contains(r.target),
    decreases order.len(),
{
    if order.len() > 0 {
        let front = order.drop_last();
        let target = order.last();
        let at = last_row(rows, target);
        lemma_picked(rows, front);
        lemma_last_row(rows, target);
        assert(front.push(target) =~= order);
        let before = rows_picked(rows, front);
        let after = rows_picked(rows, order);
        assert forall|r: TagRow| #[trigger]
            after.contains(r) <==> rows.contains(r) && order.contains(r.target) by {
            assert(before.contains(r) <==> rows.contains(r) && front.contains(r.target));
            lemma_push_contains(front, target, r.target);
            if after != before {
                lemma_push_contains(before, rows[at], r);
            }
            if rows.contains(r) && r.target == target {
                let i = rows.index_of(r);
                assert(rows[i].target == target);
                assert(row_targets(rows)[i] == row_targets(rows)[at]);
                assert(i == at);
            }
            if has_row(rows, target) {
                assert(rows.contains(rows[at]));
            }
        }
        if after != before {
            assert(!before.contains(rows[at]));
            assert forall|i: int, j: int| 0 <= i < j < after.len() implies after[i] != after[j] by {
                assert(after[i] == before[i]);
                assert(before.contains(before[i]));
                if j < before.len() {
                    assert(after[j] == before[j]);
                }
            }
        }
    }
}

proof fn lemma_push_contains<A>(s: Seq<A>, a: A, x: A)
    ensures
        s.push(a).contains(x) <==> s.contains(x) || x == a,
{
    assert(s.push(a).last() == a);
    if s.contains(x) {
        let i = s.index_of(x);
        assert(s.push(a)[i] == x);
    }
}

/// What is said here of searches, edits and orders is said of the functions that the
/// panel calls.
pub proof fn panel_searches_and_sorts_like_this(
    list: &[TagRow],
    query: &str,
    found: Vec<TagRow>,
    tag: Tag,
    needle: &str,
    hit: bool,
    order: &[isize],
    sorted: Vec<TagRow>,
    drag: PanelDrag,
    next: Vec<isize>,
)
    requires
        call_ensures(filter_rows, (list, query), found),
        call_ensures(tag_matches_needle, (&tag, needle), hit),
        call_ensures(reorder_rows, (list, order), sorted),
        call_ensures(preview_reorder, (list, &drag), next),
    ensures
        found@ == rows_found(list@, query@),
        hit <==> text::is_inside(needle@, text::lowered(tag.title@)) || text::is_inside(
            needle@,
            text::lowered(tag.note@),
        ) || text::is_inside(needle@, text::lowered(tag.window_title@)) || text::is_inside(
            needle@,
            text::lowered(tag.process_name@),
        ),
        sorted@ == rows_reordered(list@, order@),
        next@ == order_after_drag(row_targets(list@), drag),
{
}

/// An edit in place gives back the row that it changed.
pub proof fn edits_give_back_what_they_changed(
    list: &[TagRow],
    edit: PanelEdit,
    result: (Vec<TagRow>, Tag),
    i: int,
)
    requires
        call_ensures(apply_edit_to_rows, (list, &edit), result),
        0 <= i < list@.len(),
        list@[i].target == edit.target,
        forall|k: int| 0 <= k < i ==> (#[trigger] list@[k]).target != edit.target,
    ensures
        result.0@.len() == list@.len(),
        result.0@[i].tag == result.1,
        result.0@[i].target == edit.target,
        forall|k: int| 0 <= k < list@.len() && k != i ==> #[trigger] result.0@[k] == list@[k],
        edit.field == EditField::Title ==> result.1.title == edit.draft && result.1.note
            == list@[i].tag.note,
        edit.field == EditField::Note ==> result.1.note == edit.draft && result.1.title
            == list@[i].tag.title,
        result.1.color == list@[i].tag.color,
        result.1.window_title == list@[i].tag.window_title,
        result.1.process_name == list@[i].tag.process_name,
{
    lemma_row_position(list@, edit.target);
    assert(has_row(list@, edit.target));
    let at = row_position(list@, edit.target);
    assert(at == i) by {
        if at < i {
            assert(list@[at].target == edit.target);
        }
        if at > i {
            assert(list@[i].target != edit.target);
        }
    }
}

/// An edit of a tag that is not there changes no row.
pub proof fn edits_of_no_tag_change_nothing(
    list: &[TagRow],
    edit: PanelEdit,
    result: (Vec<TagRow>, Tag),
)
    requires
        call_ensures(apply_edit_to_rows, (list, &edit), result),
        forall|k: int| 0 <= k < list@.len() ==> (#[trigger] list@[k]).target != edit.target,
    ensures
        result.0@ == list@,
        list@.len() > 0 ==> result.1 == list@[0].tag,
        list@.len() == 0 ==> result.1.title@.len() == 0 && result.1.note@.len() == 0
            && result.1.window_title@.len() == 0 && result.1.process_name@.len() == 0
            && result.1.color == TagColor::Orange,
{
    assert(!has_row(list@, edit.target));
    lemma_row_position(list@, edit.target);
}

} // verus!
