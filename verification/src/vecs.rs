//! Small verified operations on vectors of ids.

use vstd::prelude::*;
use crate::ids::{ObjectId, PlayerId};

verus! {

/// A copy of a list of ids.
pub fn copy_ids(v: &Vec<ObjectId>) -> (r: Vec<ObjectId>)
    ensures
        r@ == v@,
{
    let mut r: Vec<ObjectId> = Vec::new();
    let mut i: usize = 0;
    while i < v.len()
        invariant
            i <= v@.len(),
            r@ == v@.take(i as int),
        decreases v@.len() - i,
    {
        r.push(v[i]);
        assert(v@.take(i + 1) == v@.take(i as int).push(v@[i as int]));
        i = i + 1;
    }
    assert(v@.take(i as int) == v@);
    r
}

/// Where `id` first stands in `v`, if it is there.
pub fn position_of(v: &Vec<ObjectId>, id: ObjectId) -> (r: Option<usize>)
    ensures
        r.is_some() <==> v@.contains(id),
        r.is_some() ==> r.unwrap() < v@.len() && v@[r.unwrap() as int] == id,
        r.is_some() ==> forall|j: int| 0 <= j < r.unwrap() ==> v@[j] != id,
{
    let mut i: usize = 0;
    while i < v.len()
        invariant
            i <= v@.len(),
            forall|j: int| 0 <= j < i ==> v@[j] != id,
        decreases v@.len() - i,
    {
        if v[i].0 == id.0 {
            return Some(i);
        }
        i = i + 1;
    }
    None
}

/// Whether `id` is in `v`.
pub fn has_id(v: &Vec<ObjectId>, id: ObjectId) -> (r: bool)
    ensures
        r == v@.contains(id),
{
    position_of(v, id).is_some()
}

/// Whether `p` is in `v`.
pub fn has_player(v: &Vec<PlayerId>, p: PlayerId) -> (r: bool)
    ensures
        r == v@.contains(p),
{
    let mut i: usize = 0;
    while i < v.len()
        invariant
            i <= v@.len(),
            forall|j: int| 0 <= j < i ==> v@[j] != p,
        decreases v@.len() - i,
    {
        if v[i].0 == p.0 {
            return true;
        }
        i = i + 1;
    }
    false
}

/// Removes the first `id` from `v`, if it is there, and answers whether it was.
pub fn remove_id(v: &mut Vec<ObjectId>, id: ObjectId) -> (removed: bool)
    ensures
        removed == old(v)@.contains(id),
        !removed ==> final(v)@ == old(v)@,
        removed ==> final(v)@.len() == old(v)@.len() - 1,
{
    match position_of(v, id) {
        Some(i) => {
            v.remove(i);
            true
        },
        None => false,
    }
}

/// Whether every id in `chosen` is in `options` and no id is named twice.
pub fn is_subset_without_repeats(chosen: &Vec<ObjectId>, options: &Vec<ObjectId>) -> (r: bool)
    ensures
        r ==> forall|i: int| 0 <= i < chosen@.len() ==> options@.contains(#[trigger] chosen@[i]),
        r ==> forall|i: int, j: int| 0 <= i < j < chosen@.len() ==> chosen@[i] != chosen@[j],
        (forall|i: int| 0 <= i < chosen@.len() ==> options@.contains(#[trigger] chosen@[i])) && (forall|
            i: int,
            j: int,
        | 0 <= i < j < chosen@.len() ==> chosen@[i] != chosen@[j]) ==> r,
{
    let mut i: usize = 0;
    while i < chosen.len()
        invariant
            i <= chosen@.len(),
            forall|k: int| 0 <= k < i ==> options@.contains(#[trigger] chosen@[k]),
            forall|k: int, j: int| 0 <= k < j < i ==> chosen@[k] != chosen@[j],
        decreases chosen@.len() - i,
    {
        if !has_id(options, chosen[i]) {
            return false;
        }
        let mut j: usize = 0;
        while j < i
            invariant
                i < chosen@.len(),
                j <= i,
                forall|k: int| 0 <= k < j ==> chosen@[k] != chosen@[i as int],
            decreases i - j,
        {
            if chosen[j].0 == chosen[i].0 {
                assert(chosen@[j as int] == chosen@[i as int]);
                return false;
            }
            j = j + 1;
        }
        i = i + 1;
    }
    true
}

} // verus!
