//! The element directory as the native layer presents it, and what an
//! enumeration over it hands out.
//!
//! The native layer is not here. These functions say how it answers an
//! enumerator when the session's directory holds the elements `dir`, and the
//! laws below hold of every enumeration that is answered so.

use crate::elem::{advance, fetch_at, yielded, Cursor, ElemIterView, Fetch};
use vstd::prelude::*;

verus! {

/// The addresses of a directory's elements, in the order of the native layer:
/// none is null and none occurs twice.
pub open spec fn is_directory(dir: Seq<usize>) -> bool {
    &&& forall|i: int| 0 <= i < dir.len() ==> dir[i] != 0
    &&& forall|i: int, j: int| 0 <= i < j < dir.len() ==> dir[i] != dir[j]
}

/// A place at which `elem` stands in `dir`.
pub open spec fn place_of(dir: Seq<usize>, elem: usize) -> int {
    choose|i: int| 0 <= i < dir.len() && dir[i] == elem
}

/// What the native layer answers to `fetch` on a session whose directory is
/// `dir`: the first element, the element after the one named, or null where
/// there is none.
pub open spec fn answer(dir: Seq<usize>, fetch: Fetch) -> usize {
    match fetch {
        Fetch::First(_) => if dir.len() > 0 {
            dir[0]
        } else {
            0
        },
        Fetch::Next(elem) => if dir.contains(elem) && place_of(dir, elem) + 1 < dir.len() {
            dir[place_of(dir, elem) + 1]
        } else {
            0
        },
        Fetch::Nothing => 0,
    }
}

/// Where an enumerator stands after `steps` steps over `dir`.
pub open spec fn position(it: ElemIterView, dir: Seq<usize>, steps: nat) -> Cursor
    decreases steps,
{
    if steps == 0 {
        it.cursor
    } else {
        let before = position(it, dir, (steps - 1) as nat);
        advance(before, answer(dir, fetch_at(it.session.handle, before)))
    }
}

/// What the step after `steps` steps over `dir` hands out.
pub open spec fn handed_out(it: ElemIterView, dir: Seq<usize>, steps: nat) -> Option<usize> {
    let before = position(it, dir, steps);
    yielded(before, answer(dir, fetch_at(it.session.handle, before)))
}

proof fn lemma_place_of(dir: Seq<usize>, k: int)
    requires
        is_directory(dir),
        0 <= k < dir.len(),
    ensures
        dir.contains(dir[k]),
        place_of(dir, dir[k]) == k,
{
    let p = place_of(dir, dir[k]);
    assert(0 <= p < dir.len() && dir[p] == dir[k]);
    if p < k {
        assert(dir[p] != dir[k]);
    } else if k < p {
        assert(dir[k] != dir[p]);
    }
}

proof fn lemma_position(it: ElemIterView, dir: Seq<usize>, steps: nat)
    requires
        is_directory(dir),
        it.cursor is Start,
    ensures
        position(it, dir, steps) == (if steps == 0 {
            Cursor::Start
        } else if steps <= dir.len() {
            Cursor::At(dir[steps - 1])
        } else {
            Cursor::End
        }),
    decreases steps,
{
    if steps > 0 {
        lemma_position(it, dir, (steps - 1) as nat);
        if 1 < steps <= dir.len() + 1 {
            lemma_place_of(dir, steps - 2);
        }
    }
}

/// An enumeration over a directory of N elements hands out exactly these N
/// elements, each once and in the directory's order, and nothing after them,
/// however often it is asked.
pub proof fn lemma_enumeration_yields_directory(it: ElemIterView, dir: Seq<usize>, step: nat)
    requires
        is_directory(dir),
        it.cursor is Start,
    ensures
        step < dir.len() ==> handed_out(it, dir, step) == Some(dir[step as int]),
        step >= dir.len() ==> handed_out(it, dir, step) == None::<usize>,
{
    lemma_position(it, dir, step);
    if 0 < step <= dir.len() {
        lemma_place_of(dir, step - 1);
    }
}

/// Two fresh enumerations over the same directory hand out the same element at
/// every step: the order is the directory's, not the enumerator's.
pub proof fn lemma_enumerations_agree(
    first: ElemIterView,
    second: ElemIterView,
    dir: Seq<usize>,
    step: nat,
)
    requires
        is_directory(dir),
        first.cursor is Start,
        second.cursor is Start,
    ensures
        handed_out(first, dir, step) == handed_out(second, dir, step),
{
    lemma_enumeration_yields_directory(first, dir, step);
    lemma_enumeration_yields_directory(second, dir, step);
}

/// An enumeration that is over stays over: whatever address it is handed, it
/// hands out nothing and does not move.
pub proof fn lemma_end_is_final(fetched: usize)
    ensures
        advance(Cursor::End, fetched) == Cursor::End,
        yielded(Cursor::End, fetched) == None::<usize>,
        fetch_at(fetched, Cursor::End) == Fetch::Nothing,
{
}

} // verus!
