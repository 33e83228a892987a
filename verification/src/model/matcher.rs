//! Lookup and upkeep of the tag store.

use crate::model::tag::{Tag, TagStore};
use std::collections::hash_map::Entry;
use vstd::prelude::*;

verus! {

broadcast use vstd::std_specs::hash::group_hash_axioms;

/// The tag of window `hwnd`, if it has one.
pub fn find_tag(store: &TagStore, hwnd: isize) -> (found: Option<&Tag>)
    ensures
        match found {
            Some(tag) => store@.contains_key(hwnd) && *tag == store@[hwnd],
            None => !store@.contains_key(hwnd),
        },
{
    store.get(&hwnd)
}

/// The tag of window `hwnd`, to be changed in place.
pub fn find_tag_mut(store: &mut TagStore, hwnd: isize) -> (found: Option<&mut Tag>)
    ensures
        match found {
            Some(tag) => old(store)@.contains_key(hwnd) && *tag == old(store)@[hwnd]
                && final(store)@ == old(store)@.insert(hwnd, *final(tag)),
            None => !old(store)@.contains_key(hwnd) && final(store)@ == old(store)@,
        },
{
    match store.entry(hwnd) {
        Entry::Occupied(occupied) => Some(occupied.into_mut()),
        Entry::Vacant(_) => None,
    }
}

/// Gives window `hwnd` the tag `tag`, in place of any earlier one.
pub fn upsert_tag(store: &mut TagStore, hwnd: isize, tag: Tag)
    ensures
        final(store)@ == old(store)@.insert(hwnd, tag),
{
    store.insert(hwnd, tag);
}

/// Takes the tag of window `hwnd` out of the store.
pub fn remove_tag(store: &mut TagStore, hwnd: isize) -> (removed: Option<Tag>)
    ensures
        final(store)@ == old(store)@.remove(hwnd),
        match removed {
            Some(tag) => old(store)@.contains_key(hwnd) && tag == old(store)@[hwnd],
            None => !old(store)@.contains_key(hwnd),
        },
{
    store.remove(&hwnd)
}

/// Drops every tag whose window is not among `valid_hwnds`.
pub fn cleanup_invalid(store: &mut TagStore, valid_hwnds: &[isize])
    ensures
        final(store)@ == old(store)@.restrict(valid_hwnds@.to_set()),
{
    let mut stale: Vec<isize> = Vec::new();
    let ghost before = store@;
    for hwnd in iter: store.keys()
        invariant
            forall|i: int|
                0 <= i < iter.index() && !valid_hwnds@.contains(*iter.seq()[i]) ==> stale@.contains(
                    *iter.seq()[i],
                ),
            forall|i: int| 0 <= i < stale.len() ==> !valid_hwnds@.contains(#[trigger] stale[i]),
    {
        let mut j: usize = 0;
        while j < valid_hwnds.len() && valid_hwnds[j] != *hwnd
            invariant
                j <= valid_hwnds.len(),
                forall|k: int| 0 <= k < j ==> valid_hwnds[k] != *hwnd,
            decreases valid_hwnds.len() - j,
        {
            j = j + 1;
        }
        if j == valid_hwnds.len() {
            let ghost held = stale@;
            stale.push(*hwnd);
            proof {
                assert(stale@.last() == *hwnd);
                assert forall|x: isize| held.contains(x) implies stale@.contains(x) by {
                    let k = held.index_of(x);
                    assert(stale@[k] == x);
                }
            }
        } else {
            assert(valid_hwnds@[j as int] == *hwnd);
        }
    }
    proof {
        assert forall|hwnd: isize| #[trigger]
            before.contains_key(hwnd) && !valid_hwnds@.contains(hwnd) implies stale@.contains(
            hwnd,
        ) by {
        }
    }
    let mut i: usize = 0;
    while i < stale.len()
        invariant
            i <= stale.len(),
            store@ == before.remove_keys(stale@.take(i as int).to_set()),
        decreases stale.len() - i,
    {
        store.remove(&stale[i]);
        proof {
            assert(stale@.take(i + 1) =~= stale@.take(i as int).push(stale[i as int]));
            assert forall|x: isize|
                stale@.take(i + 1).contains(x) <==> stale@.take(i as int).contains(x) || x
                    == stale[i as int] by {
                assert(stale@.take(i + 1).last() == stale[i as int]);
                if stale@.take(i as int).contains(x) {
                    let k = stale@.take(i as int).index_of(x);
                    assert(stale@.take(i + 1)[k] == x);
                }
            }
            assert(store@ =~= before.remove_keys(stale@.take(i + 1).to_set()));
        }
        i = i + 1;
    }
    proof {
        assert(stale@.take(stale.len() as int) =~= stale@);
        assert(store@ =~= before.restrict(valid_hwnds@.to_set()));
    }
}

/// The store keeps what it is given: a window has the tag that it was given last,
/// until that is taken out, and no other window is concerned.
pub proof fn store_keeps_what_it_is_given(
    hwnd: isize,
    other: isize,
    tag: Tag,
    removed: Option<Tag>,
    valid: &[isize],
)
    requires
        other != hwnd,
    ensures
        forall|s: &mut TagStore| #[trigger]
            call_ensures(upsert_tag, (s, hwnd, tag), ()) ==> {
                &&& final(s)@.contains_key(hwnd)
                &&& final(s)@[hwnd] == tag
                &&& final(s)@.contains_key(other) == s@.contains_key(other)
                &&& s@.contains_key(other) ==> final(s)@[other] == s@[other]
            },
        forall|s: &mut TagStore| #[trigger]
            call_ensures(remove_tag, (s, hwnd), removed) ==> {
                &&& !final(s)@.contains_key(hwnd)
                &&& removed is Some <==> s@.contains_key(hwnd)
                &&& removed matches Some(t) ==> t == s@[hwnd]
                &&& final(s)@.contains_key(other) == s@.contains_key(other)
                &&& s@.contains_key(other) ==> final(s)@[other] == s@[other]
            },
        forall|s: &mut TagStore| #[trigger]
            call_ensures(cleanup_invalid, (s, valid), ()) ==> {
                &&& final(s)@.contains_key(hwnd) <==> s@.contains_key(hwnd) && valid@.contains(hwnd)
                &&& final(s)@.contains_key(hwnd) ==> final(s)@[hwnd] == s@[hwnd]
            },
{
    assert(valid@.to_set().contains(hwnd) <==> valid@.contains(hwnd));
}

/// A tag is found exactly where it is.
pub proof fn tags_are_found(store: TagStore, hwnd: isize, found: Option<&Tag>)
    requires
        call_ensures(find_tag, (&store, hwnd), found),
    ensures
        found is Some <==> store@.contains_key(hwnd),
        found matches Some(t) ==> *t == store@[hwnd],
{
}

/// What is changed in a found tag is changed in the store, for its window alone.
pub proof fn found_tags_can_be_changed(hwnd: isize, other: isize)
    ensures
        forall|store: &mut TagStore, tag: &mut Tag| #[trigger]
            call_ensures(find_tag_mut, (store, hwnd), Some(tag)) ==> {
                &&& store@.contains_key(hwnd)
                &&& *tag == store@[hwnd]
                &&& final(store)@[hwnd] == *final(tag)
                &&& other != hwnd ==> store@.contains_key(other) == final(store)@.contains_key(other)
                &&& other != hwnd && store@.contains_key(other) ==> final(store)@[other]
                    == store@[other]
            },
        forall|store: &mut TagStore| #[trigger]
            call_ensures(find_tag_mut, (store, hwnd), None::<&mut Tag>) ==> final(store)@
                == store@ && !store@.contains_key(hwnd),
{
}

} // verus!
