//! The roster kept in the client state: one item per contact, updated by
//! roster results and pushes and by local add and remove commands.
use vstd::prelude::*;

use crate::events::{RosterItem, RosterItemView, Subscription};
use crate::jid::{jid_eq, Jid, JidView};

verus! {

pub open spec fn roster_view(r: Seq<RosterItem>) -> Seq<RosterItemView> {
    r.map_values(|i: RosterItem| i@)
}

/// The index of the first item for contact `j` at or after `from`, or -1.
pub open spec fn roster_index_from(r: Seq<RosterItemView>, j: JidView, from: int) -> int
    decreases r.len() - from,
{
    if from < 0 || from >= r.len() {
        -1
    } else if r[from].jid == j {
        from
    } else {
        roster_index_from(r, j, from + 1)
    }
}

pub open spec fn roster_index(r: Seq<RosterItemView>, j: JidView) -> int {
    roster_index_from(r, j, 0)
}

/// The roster after one item arrives: an item with subscription `remove`
/// takes its contact off the roster; any other item replaces the contact's
/// item, or is appended where the contact is new.
pub open spec fn roster_apply(r: Seq<RosterItemView>, item: RosterItemView) -> Seq<RosterItemView> {
    let i = roster_index(r, item.jid);
    if item.subscription == Subscription::Remove {
        if i >= 0 { r.remove(i) } else { r }
    } else if i >= 0 {
        r.update(i, item)
    } else {
        r.push(item)
    }
}

/// The roster after the items arrive in order.
pub open spec fn roster_apply_all(r: Seq<RosterItemView>, items: Seq<RosterItemView>) -> Seq<RosterItemView>
    decreases items.len(),
{
    if items.len() == 0 {
        r
    } else {
        roster_apply(roster_apply_all(r, items.drop_last()), items.last())
    }
}

/// The index of the first item for contact `j`.
pub fn find_contact(roster: &Vec<RosterItem>, j: &Jid) -> (r: Option<usize>)
    ensures
        match r {
            Some(i) => i as int == roster_index(roster_view(roster@), j@) && i < roster@.len(),
            None => roster_index(roster_view(roster@), j@) == -1,
        },
{
    let ghost v = roster_view(roster@);
    let mut i: usize = 0;
    while i < roster.len()
        invariant
            i <= roster@.len(),
            v == roster_view(roster@),
            v.len() == roster@.len(),
            roster_index(v, j@) == roster_index_from(v, j@, i as int),
        decreases roster.len() - i,
    {
        assert(v[i as int] == roster@[i as int]@);
        if jid_eq(&roster[i].jid, j) {
            return Some(i);
        }
        i = i + 1;
    }
    None
}

/// Applies one arriving item to the roster.
pub fn apply_roster_item(roster: &mut Vec<RosterItem>, item: RosterItem)
    ensures
        roster_view(final(roster)@) == roster_apply(roster_view(old(roster)@), item@),
{
    let ghost v = roster_view(roster@);
    let ghost iv = item@;
    let found = find_contact(roster, &item.jid);
    match found {
        Some(i) => {
            if item.subscription == Subscription::Remove {
                roster.remove(i);
                assert(roster_view(roster@) =~= v.remove(i as int));
            } else {
                roster.set(i, item);
                assert(roster_view(roster@) =~= v.update(i as int, iv));
            }
        },
        None => {
            if item.subscription != Subscription::Remove {
                roster.push(item);
                assert(roster_view(roster@) =~= v.push(iv));
            }
        },
    }
}

/// Applies arriving items to the roster in order.
pub fn apply_roster_items(roster: &mut Vec<RosterItem>, items: &Vec<RosterItem>)
    ensures
        roster_view(final(roster)@) == roster_apply_all(roster_view(old(roster)@), roster_view(items@)),
{
    let ghost v0 = roster_view(roster@);
    let mut k: usize = 0;
    while k < items.len()
        invariant
            k <= items@.len(),
            roster_view(roster@) == roster_apply_all(v0, roster_view(items@.subrange(0, k as int))),
        decreases items.len() - k,
    {
        let item = items[k].clone();
        proof {
            let s = roster_view(items@.subrange(0, k + 1));
            assert(s.drop_last() =~= roster_view(items@.subrange(0, k as int)));
            assert(s.last() == items@[k as int]@);
        }
        apply_roster_item(roster, item);
        k = k + 1;
    }
    assert(items@.subrange(0, items@.len() as int) =~= items@);
}

} // verus!
