//! Walking an indexed collection that LLDB owns.
//!
//! LLDB hands out the items of its collections (the threads of a process,
//! the frames of a thread, the entries of a list, ...) one index at a time,
//! and reports their number separately. Every iterator of this crate keeps a
//! position into such a collection; the functions here decide, from that
//! position and the number LLDB reports, which index to fetch next and how
//! many items remain.

use vstd::prelude::*;

verus! {

/// The index that one step from `pos` hands out when the collection holds
/// `count` items: the position itself while it lies before the end, and
/// nothing once the walk has reached the end.
pub open spec fn cursor_yield(pos: int, count: int) -> Option<int> {
    if pos < count {
        Some(pos)
    } else {
        None
    }
}

/// Where a position stands after one step over a collection of `count`
/// items: one further while it lies before the end, unchanged after.
pub open spec fn cursor_after(pos: int, count: int) -> int {
    if pos < count {
        pos + 1
    } else {
        pos
    }
}

/// `r` is the index `expected` names, as a `usize`.
pub open spec fn yields_usize(r: Option<usize>, expected: Option<int>) -> bool {
    match r {
        Some(i) => expected == Some(i as int),
        None => expected is None,
    }
}

/// `r` is the index `expected` names, as a `u32`.
pub open spec fn yields_u32(r: Option<u32>, expected: Option<int>) -> bool {
    match r {
        Some(i) => expected == Some(i as int),
        None => expected is None,
    }
}

/// The indices handed out by `steps` successive steps from `pos` over a
/// collection whose size stays `count`.
pub open spec fn cursor_trace(pos: int, count: int, steps: nat) -> Seq<Option<int>>
    decreases steps,
{
    if steps == 0 {
        Seq::empty()
    } else {
        seq![cursor_yield(pos, count)] + cursor_trace(
            cursor_after(pos, count),
            count,
            (steps - 1) as nat,
        )
    }
}

/// One step over a collection: the index to fetch, if any, and the new
/// position in `pos`.
pub(crate) fn step_usize(pos: &mut usize, count: usize) -> (r: Option<usize>)
    ensures
        yields_usize(r, cursor_yield(*old(pos) as int, count as int)),
        *final(pos) as int == cursor_after(*old(pos) as int, count as int),
        *old(pos) < count ==> r == Some(*old(pos)) && *final(pos) == *old(pos) + 1,
        *old(pos) >= count ==> r is None && *final(pos) == *old(pos),
{
    if *pos < count {
        let i = *pos;
        *pos = i + 1;
        Some(i)
    } else {
        None
    }
}

/// One step over a collection indexed by `u32`.
pub(crate) fn step_u32(pos: &mut u32, count: u32) -> (r: Option<u32>)
    ensures
        yields_u32(r, cursor_yield(*old(pos) as int, count as int)),
        *final(pos) as int == cursor_after(*old(pos) as int, count as int),
        *old(pos) < count ==> r == Some(*old(pos)) && *final(pos) == *old(pos) + 1,
        *old(pos) >= count ==> r is None && *final(pos) == *old(pos),
{
    if *pos < count {
        let i = *pos;
        *pos = i + 1;
        Some(i)
    } else {
        None
    }
}

/// The bounds on the number of items still to come: exactly `count - pos`,
/// as both the lower and the upper bound.
pub(crate) fn remaining_usize(pos: usize, count: usize) -> (r: (usize, Option<usize>))
    requires
        pos <= count,
    ensures
        r.0 == count - pos,
        r.1 == Some(r.0),
{
    (count - pos, Some(count - pos))
}

/// The exact bounds on the number of items still to come for a `u32`
/// position over a `u32` count.
pub(crate) fn remaining_u32(pos: u32, count: u32) -> (r: (usize, Option<usize>))
    requires
        pos <= count,
    ensures
        r.0 == count - pos,
        r.1 == Some(r.0),
{
    let left = (count - pos) as usize;
    (left, Some(left))
}

/// A step that hands out an index moves the position by exactly one, to
/// just past that index, and a step at or past the end leaves it where it
/// is. So after a walk from the start has handed out all `count` items,
/// the position is `count`: nothing remains, and an item added at the end
/// is handed out next.
pub proof fn lemma_cursor_steps_by_one(pos: int, count: int)
    ensures
        pos < count ==> cursor_yield(pos, count) == Some(pos) && cursor_after(pos, count) == pos
            + 1,
        pos >= count ==> cursor_yield(pos, count) is None && cursor_after(pos, count) == pos,
        0 <= pos < count ==> cursor_yield(cursor_after(pos, count), count + 1) == Some(pos + 1),
{
}

/// The position after `steps` steps from `pos` over a collection whose
/// size stays `count`.
pub open spec fn cursor_position(pos: int, count: int, steps: nat) -> int
    decreases steps,
{
    if steps == 0 {
        pos
    } else {
        cursor_position(cursor_after(pos, count), count, (steps - 1) as nat)
    }
}

/// A walk of `count` items from the start stands at `count` once it has
/// handed them all out, and after any number of further steps.
pub proof fn lemma_full_walk_ends_at_count(count: nat, extra: nat)
    ensures
        cursor_position(0, count as int, count + extra) == count,
{
    lemma_walk_position(0, count as int, (count + extra) as nat);
}

/// `steps` steps from a position `pos` at or before the end of a
/// collection of `count` items move it to `pos + steps`, but no further
/// than `count`.
pub proof fn lemma_walk_position(pos: int, count: int, steps: nat)
    requires
        pos <= count,
    ensures
        cursor_position(pos, count, steps) == if pos + steps <= count {
            pos + steps
        } else {
            count
        },
    decreases steps,
{
    if steps > 0 {
        lemma_walk_position(cursor_after(pos, count), count, (steps - 1) as nat);
    }
}

/// Walking a collection whose size stays `count` from a position `pos` at
/// or before its end hands out each index from `pos` up to the end exactly
/// once, in increasing order, and nothing at all afterwards, however many
/// further steps are taken. In particular `count - pos` (the lower bound
/// that every `size_hint` reports) is exactly the number of items still to
/// come, and a walk from the start visits the whole collection.
pub proof fn lemma_cursor_visits_each_index_once(pos: int, count: int, extra: nat)
    requires
        0 <= pos <= count,
    ensures
        cursor_trace(pos, count, ((count - pos) + extra) as nat) =~= Seq::new(
            (count - pos) as nat,
            |i: int| Some(pos + i),
        ) + Seq::new(extra, |i: int| None::<int>),
    decreases count - pos + extra,
{
    let n = ((count - pos) + extra) as nat;
    if n == 0 {
    } else if pos < count {
        lemma_cursor_visits_each_index_once(pos + 1, count, extra);
        let rest = Seq::new((count - pos - 1) as nat, |i: int| Some(pos + 1 + i)) + Seq::new(
            extra,
            |i: int| None::<int>,
        );
        assert(cursor_trace(pos, count, n) == seq![Some(pos)] + rest);
    } else {
        lemma_exhausted_cursor_stays_exhausted(pos, count, extra);
    }
}

/// Once a walk has reached the end of a collection whose size stays the
/// same, every further step hands out nothing and the position no longer
/// moves.
pub proof fn lemma_exhausted_cursor_stays_exhausted(pos: int, count: int, steps: nat)
    requires
        pos >= count,
    ensures
        cursor_trace(pos, count, steps) =~= Seq::new(steps, |i: int| None::<int>),
        cursor_after(pos, count) == pos,
    decreases steps,
{
    if steps > 0 {
        lemma_exhausted_cursor_stays_exhausted(pos, count, (steps - 1) as nat);
    }
}

} // verus!
