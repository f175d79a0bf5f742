//! Collatz trajectories and their lengths.
//!
//! The trajectory of a number goes from each value to half of it, if it is
//! even, and to one more than three times it, if it is odd. It is followed up
//! to the first value that is at most 1. Nobody knows whether every
//! trajectory gets there, so the length of one is either counted under the
//! caller's word that it does, or looked for and possibly not found.

use vstd::prelude::*;
use vstd::set_lib::{lemma_int_range, lemma_len_subset, set_int_range};

verus! {

/// The successor of `n` in its Collatz trajectory: half of an even number,
/// one more than three times an odd one.
pub open spec fn collatz_next(n: int) -> int {
    if n % 2 == 0 {
        n / 2
    } else {
        3 * n + 1
    }
}

/// Whether the trajectory of `n` first meets a value of at most 1 after
/// exactly `steps` steps.
pub open spec fn collatz_stops_after(n: int, steps: nat) -> bool
    decreases steps,
{
    if n <= 1 {
        steps == 0
    } else {
        steps > 0 && collatz_stops_after(collatz_next(n), (steps - 1) as nat)
    }
}

/// Whether the first `steps` successors of `n` all fit in an `i32`.
pub open spec fn collatz_fits(n: int, steps: nat) -> bool
    decreases steps,
{
    steps > 0 ==> collatz_next(n) <= i32::MAX && collatz_fits(
        collatz_next(n),
        (steps - 1) as nat,
    )
}

/// Whether the trajectory of `n` can be walked in `i32` arithmetic and first
/// meets a value of at most 1 after exactly `steps` steps.
pub open spec fn collatz_walk(n: int, steps: nat) -> bool {
    collatz_stops_after(n, steps) && collatz_fits(n, steps)
}

/// Whether the length of the trajectory of `n` can be counted: the trajectory
/// can be walked in `i32` arithmetic to a value of at most 1.
pub open spec fn collatz_countable(n: int) -> bool {
    exists|steps: nat| #[trigger] collatz_walk(n, steps)
}

/// The value that the trajectory of `n` holds after `steps` steps.
pub open spec fn collatz_at(n: int, steps: nat) -> int
    decreases steps,
{
    if steps == 0 {
        n
    } else {
        collatz_at(collatz_next(n), (steps - 1) as nat)
    }
}

/// The values that the trajectory of `n` holds before its step `count`.
pub open spec fn collatz_values(n: int, count: nat) -> Set<int>
    decreases count,
{
    if count == 0 {
        Set::empty()
    } else {
        collatz_values(n, (count - 1) as nat).insert(collatz_at(n, (count - 1) as nat))
    }
}

/// The longest walk that there can be: it passes every `i32` above 1 once.
pub const LONGEST_WALK: u32 = 0x7fff_fffe;

/// A trajectory meets a value of at most 1 for the first time only once.
pub proof fn lemma_collatz_stop_unique(n: int, a: nat, b: nat)
    requires
        collatz_stops_after(n, a),
        collatz_stops_after(n, b),
    ensures
        a == b,
    decreases a,
{
    if n > 1 {
        lemma_collatz_stop_unique(collatz_next(n), (a - 1) as nat, (b - 1) as nat);
    }
}

/// What is left of a walk after some of its steps is a walk. The values
/// before the last one are above 1, and those after the first one are in the
/// `i32` range.
pub proof fn lemma_collatz_walk_suffix(n: int, steps: nat, done: nat)
    requires
        collatz_walk(n, steps),
        done <= steps,
    ensures
        collatz_walk(collatz_at(n, done), (steps - done) as nat),
        done < steps ==> collatz_at(n, done) > 1,
        done >= 1 ==> collatz_at(n, done) <= i32::MAX,
    decreases done,
{
    if done > 0 {
        lemma_collatz_walk_suffix(collatz_next(n), (steps - 1) as nat, (done - 1) as nat);
        if done == 1 {
            assert(collatz_at(collatz_next(n), 0) == collatz_next(n));
        }
    }
}

/// A walk passes no value twice.
pub proof fn lemma_collatz_walk_distinct(n: int, steps: nat, i: nat, j: nat)
    requires
        collatz_walk(n, steps),
        i < j <= steps,
    ensures
        collatz_at(n, i) != collatz_at(n, j),
{
    lemma_collatz_walk_suffix(n, steps, i);
    lemma_collatz_walk_suffix(n, steps, j);
    if collatz_at(n, i) == collatz_at(n, j) {
        lemma_collatz_stop_unique(collatz_at(n, i), (steps - i) as nat, (steps - j) as nat);
    }
}

/// The values that a walk from an `i32` passes before its step `count` are
/// `count` different numbers between 2 and the largest `i32`.
proof fn lemma_collatz_values(n: int, steps: nat, count: nat)
    requires
        n <= i32::MAX,
        collatz_walk(n, steps),
        count <= steps,
    ensures
        collatz_values(n, count).finite(),
        collatz_values(n, count).len() == count,
        collatz_values(n, count).subset_of(set_int_range(2, 0x8000_0000)),
        forall|v: int| #[trigger]
            collatz_values(n, count).contains(v) ==> exists|i: nat|
                i < count && collatz_at(n, i) == v,
    decreases count,
{
    if count > 0 {
        let before = (count - 1) as nat;
        let last = collatz_at(n, before);
        lemma_collatz_values(n, steps, before);
        lemma_collatz_walk_suffix(n, steps, before);
        if collatz_values(n, before).contains(last) {
            let i = choose|i: nat| i < before && collatz_at(n, i) == last;
            lemma_collatz_walk_distinct(n, steps, i, before);
        }
        assert forall|v: int| #[trigger] collatz_values(n, count).contains(v) implies exists|
            i: nat,
        |
            i < count && collatz_at(n, i) == v by {
            if v == last {
                assert(before < count && collatz_at(n, before) == v);
            } else {
                let i = choose|i: nat| i < before && collatz_at(n, i) == v;
                assert(i < count && collatz_at(n, i) == v);
            }
        }
    }
}

/// No walk from an `i32` is longer than the longest walk.
pub proof fn lemma_collatz_walk_bounded(n: int, steps: nat)
    requires
        n <= i32::MAX,
        collatz_walk(n, steps),
    ensures
        steps <= LONGEST_WALK,
{
    lemma_collatz_values(n, steps, steps);
    lemma_int_range(2, 0x8000_0000);
    lemma_len_subset(collatz_values(n, steps), set_int_range(2, 0x8000_0000));
}

/// A walk from a value above 1 is one step followed by a walk from its
/// successor.
pub proof fn lemma_collatz_walk_step(n: int, steps: nat)
    requires
        n > 1,
    ensures
        collatz_walk(n, steps) <==> steps > 0 && collatz_next(n) <= i32::MAX && collatz_walk(
            collatz_next(n),
            (steps - 1) as nat,
        ),
{
}

/// A walk from `n` that passes `current` after `elapsed` steps, all of them
/// above 1, is a walk from `current` with that many steps fewer.
proof fn lemma_collatz_walk_advance(n: int, current: int, elapsed: nat)
    requires
        current > 1,
        collatz_next(current) <= i32::MAX,
        forall|steps: nat| #[trigger]
            collatz_walk(n, steps) <==> steps >= elapsed && collatz_walk(
                current,
                (steps - elapsed) as nat,
            ),
    ensures
        forall|steps: nat| #[trigger]
            collatz_walk(n, steps) <==> steps >= elapsed + 1 && collatz_walk(
                collatz_next(current),
                (steps - elapsed - 1) as nat,
            ),
{
    assert forall|steps: nat| #[trigger]
        collatz_walk(n, steps) <==> steps >= elapsed + 1 && collatz_walk(
            collatz_next(current),
            (steps - elapsed - 1) as nat,
        ) by {
        if steps >= elapsed {
            lemma_collatz_walk_step(current, (steps - elapsed) as nat);
        }
    }
}

/// The number of values in the Collatz trajectory of `n`, from `n` itself to
/// the first value that is at most 1, if it can be counted.
pub fn collatz_length_checked(n: i32) -> (counted: Option<u32>)
    ensures
        counted is Some <==> collatz_countable(n as int),
        counted matches Some(length) ==> length >= 1 && collatz_walk(
            n as int,
            (length - 1) as nat,
        ),
{
    let mut current: i32 = n;
    let mut length: u32 = 1;
    while current > 1
        invariant
            length >= 1,
            forall|steps: nat| #[trigger]
                collatz_walk(n as int, steps) <==> steps >= length - 1 && collatz_walk(
                    current as int,
                    (steps - (length - 1)) as nat,
                ),
        decreases u32::MAX - length,
    {
        let next = if current % 2 == 0 {
            Some(current / 2)
        } else {
            match current.checked_mul(3) {
                Some(triple) => triple.checked_add(1),
                None => None,
            }
        };
        // no walk is as long as a `u32` can count, so the first test only
        // serves to end the loop
        if length == u32::MAX || next.is_none() {
            proof {
                assert forall|steps: nat| !#[trigger] collatz_walk(n as int, steps) by {
                    if collatz_walk(n as int, steps) {
                        lemma_collatz_walk_bounded(n as int, steps);
                        lemma_collatz_walk_step(current as int, (steps - (length - 1)) as nat);
                    }
                }
            }
            return None;
        }
        proof {
            lemma_collatz_walk_advance(n as int, current as int, (length - 1) as nat);
        }
        current = next.unwrap();
        length = length + 1;
    }
    proof {
        assert(collatz_walk(current as int, 0));
        assert(collatz_walk(n as int, (length - 1) as nat));
    }
    Some(length)
}

/// The number of values in the Collatz trajectory of `n`, from `n` itself to
/// the first value that is at most 1.
///
/// The caller vouches that the length can be counted; `collatz_length_checked`
/// finds out whether it can.
pub fn collatz_length(n: i32) -> (length: u32)
    requires
        collatz_countable(n as int),
    ensures
        length >= 1,
        collatz_walk(n as int, (length - 1) as nat),
{
    collatz_length_checked(n).unwrap()
}

} // verus!
