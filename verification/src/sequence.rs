//! Arithmetic in the 32-bit circular sequence space.

use vstd::prelude::*;

verus! {

/// Number of distinct sequence numbers.
pub open spec fn modulus() -> int {
    0x1_0000_0000
}

/// The sequence number reached from `from` after `count` steps forward
/// (backward for a negative `count`).
pub open spec fn advance(from: u32, count: int) -> u32 {
    ((from + count) % modulus()) as u32
}

/// How many steps forward lead from `from` to `to`.
pub open spec fn distance(from: u32, to: u32) -> int {
    (to - from) % modulus()
}

/// The wraparound comparator, case by case on how `start` and `x` compare
/// as plain integers:
///
/// * equal: never between;
/// * `start < x`: between unless `end` lies in `[start, x]`;
/// * `start > x` (`x` has wrapped past zero): between only if `end` lies
///   strictly inside the gap `(x, start)`.
pub open spec fn between_wrapped(start: u32, x: u32, end: u32) -> bool {
    if start == x {
        false
    } else if start < x {
        !(start <= end && end <= x)
    } else {
        x < end && end < start
    }
}

/// Decides whether `x` lies strictly inside the circular interval that opens
/// at `start` and closes at `end`.
pub fn is_between_wrapped(start: u32, x: u32, end: u32) -> (inside: bool)
    ensures
        inside == between_wrapped(start, x, end),
        start == x ==> !inside,
{
    if start == x {
        false
    } else if start < x {
        !(end >= start && end <= x)
    } else {
        end > x && end < start
    }
}

/// Nothing lies between a point and itself: with `start == x` the comparator
/// answers `false` for every `end`.
pub proof fn lemma_between_wrapped_irreflexive(x: u32, end: u32)
    ensures
        !between_wrapped(x, x, end),
{
}

/// The comparator is the strict circular order: `x` is between `start` and
/// `end` exactly when walking forward from `start` one meets `x` first and
/// `end` later.
pub proof fn lemma_between_wrapped_is_circular(start: u32, x: u32, end: u32)
    ensures
        between_wrapped(start, x, end) <==> 0 < distance(start, x) < distance(start, end),
{
    let m = modulus();
    assert(distance(start, x) == if x >= start { x - start } else { x - start + m }) by {
        lemma_distance_value(start, x);
    }
    assert(distance(start, end) == if end >= start { end - start } else { end - start + m }) by {
        lemma_distance_value(start, end);
    }
}

/// `distance` without the remainder.
pub proof fn lemma_distance_value(from: u32, to: u32)
    ensures
        distance(from, to) == if to >= from {
            to - from
        } else {
            to - from + modulus()
        },
        0 <= distance(from, to) < modulus(),
{
    let m = modulus();
    if to >= from {
        vstd::arithmetic::div_mod::lemma_small_mod((to - from) as nat, m as nat);
    } else {
        vstd::arithmetic::div_mod::lemma_mod_add_multiples_vanish(to - from, m);
        vstd::arithmetic::div_mod::lemma_small_mod((to - from + m) as nat, m as nat);
    }
}

/// Wrapping machine arithmetic is a walk in the sequence space.
pub proof fn lemma_advance_is_wrapping(from: u32, count: u32)
    ensures
        from.wrapping_add(count) == advance(from, count as int),
        from.wrapping_sub(count) == advance(from, -(count as int)),
{
}

} // verus!
