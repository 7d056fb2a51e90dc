//! The game-tree verifier (perft): counts the leaf positions reachable by
//! legal play from a root position to a fixed depth in plies.
//!
//! At depth 0 a position is its own single leaf; at depth d >= 1 the count is
//! the sum, over the legal moves, of the counts of the reached positions at
//! depth d - 1. The enumeration fans out across threads while the remaining
//! depth is above a threshold and runs sequentially below it; every branch
//! works on its own duplicated position, so the threshold is a scheduling
//! policy only and the count does not depend on it.

use vstd::prelude::*;
use crate::engine::{apply_nth, board_after, board_moves, legal_moves};

verus! {

/// The number of leaf positions at depth `d` below position `b`.
pub open spec fn perft_tree(b: chess::Board, d: nat) -> nat
    decreases d, board_moves(b).len() + 1,
{
    if d == 0 {
        1
    } else {
        perft_range(b, d, 0, board_moves(b).len() as int)
    }
}

/// The sum, over the legal moves of `b` with indices in `[lo, hi)`, of the
/// leaf counts of the positions they reach at depth `d - 1`.
pub open spec fn perft_range(b: chess::Board, d: nat, lo: int, hi: int) -> nat
    decreases d, hi - lo,
{
    if d == 0 || hi <= lo {
        0
    } else {
        perft_tree(board_after(b, lo), (d - 1) as nat) + perft_range(b, d, lo + 1, hi)
    }
}

/// A position is its own single leaf at depth 0.
pub proof fn lemma_perft_depth_zero(b: chess::Board)
    ensures
        perft_tree(b, 0) == 1,
{
}

/// Perft additivity: at any depth `d >= 1`, the leaf count of a position is
/// the sum, over its legal moves, of the leaf counts of the positions those
/// moves reach at depth `d - 1`.
pub proof fn lemma_perft_additivity(b: chess::Board, d: nat)
    requires
        d >= 1,
    ensures
        perft_tree(b, d) == perft_range(b, d, 0, board_moves(b).len() as int),
        forall|i: int| 0 <= i < board_moves(b).len()
            ==> #[trigger] perft_range(b, d, i, i + 1)
                == perft_tree(board_after(b, i), (d - 1) as nat),
{
    assert forall|i: int| 0 <= i < board_moves(b).len()
        implies #[trigger] perft_range(b, d, i, i + 1)
            == perft_tree(board_after(b, i), (d - 1) as nat) by {
        assert(perft_range(b, d, i + 1, i + 1) == 0);
    }
}

/// Summing adjacent index ranges sums their counts.
pub proof fn lemma_perft_range_split(b: chess::Board, d: nat, lo: int, mid: int, hi: int)
    requires
        lo <= mid <= hi,
    ensures
        perft_range(b, d, lo, hi) == perft_range(b, d, lo, mid) + perft_range(b, d, mid, hi),
    decreases mid - lo,
{
    if lo < mid {
        lemma_perft_range_split(b, d, lo + 1, mid, hi);
    }
}

/// What a range count returns: the exact sum for the move-index range
/// `[lo, hi)` at depth `d`, or `None` exactly when it does not fit in a
/// `u64`.
pub open spec fn range_count_post(r: Option<u64>, b: chess::Board, d: nat, lo: int, hi: int) -> bool {
    match r {
        Some(n) => n == perft_range(b, d, lo, hi),
        None => perft_range(b, d, lo, hi) > u64::MAX,
    }
}

/// Below how many remaining plies the enumeration stays on one thread.
pub const SEQUENTIAL_DEPTH: u64 = 2;

/// The scheduling policy: fan out across threads while the remaining depth
/// is above the sequential threshold.
pub fn should_parallelize(depth: u64) -> (r: bool)
    ensures
        r == (depth > SEQUENTIAL_DEPTH),
{
    depth > SEQUENTIAL_DEPTH
}

/// Relies on `rayon::join` (rayon-core): runs the two computations, possibly
/// on different threads, and returns both results once both are done.
pub assume_specification<A, B, RA, RB>[ rayon::join::<A, B, RA, RB> ](
    oper_a: A,
    oper_b: B,
) -> (r: (RA, RB)) where
    A: FnOnce() -> RA + Send,
    B: FnOnce() -> RB + Send,
    RA: Send,
    RB: Send,

    requires
        call_requires(oper_a, ()),
        call_requires(oper_b, ()),
    ensures
        call_ensures(oper_a, (), r.0),
        call_ensures(oper_b, (), r.1),
;

/// Counts the leaf positions at `depth` plies below `b`: `Some` of the exact
/// count, or `None` exactly when that count does not fit in a `u64`.
pub fn count_leaves(b: &chess::Board, depth: u64) -> (r: Option<u64>)
    ensures
        r matches Some(n) ==> n == perft_tree(*b, depth as nat),
        r is None ==> perft_tree(*b, depth as nat) > u64::MAX,
    decreases depth, 1int, 0int,
{
    if depth == 0 {
        return Some(1);
    }
    let moves = legal_moves(b);
    count_range(b, 0, moves.len(), depth)
}

/// Counts, summed over the legal moves of `b` with indices in `[lo, hi)`,
/// the leaves at `depth - 1` below the positions they reach: `Some` of the
/// exact sum, or `None` exactly when it does not fit in a `u64`. Splits the
/// range in two, in parallel while the scheduling policy says so.
fn count_range(b: &chess::Board, lo: usize, hi: usize, depth: u64) -> (r: Option<u64>)
    requires
        depth >= 1,
        lo <= hi,
        hi <= board_moves(*b).len(),
    ensures
        range_count_post(r, *b, depth as nat, lo as int, hi as int),
    decreases depth, 0int, hi - lo,
{
    if hi == lo {
        return Some(0);
    }
    if hi == lo + 1 {
        let child = apply_nth(b, lo);
        let r = count_leaves(&child, depth - 1);
        assert(perft_range(*b, depth as nat, lo as int + 1, hi as int) == 0);
        assert(perft_range(*b, depth as nat, lo as int, hi as int) == perft_tree(
            board_after(*b, lo as int),
            (depth - 1) as nat,
        ));
        return r;
    }
    let mid = lo + (hi - lo) / 2;
    let ra: Option<u64>;
    let rb: Option<u64>;
    if should_parallelize(depth) {
        let pair = rayon::join(
            (|| -> (ca: Option<u64>)
                ensures
                    range_count_post(ca, *b, depth as nat, lo as int, mid as int),
                {
                    count_range(b, lo, mid, depth)
                }),
            (|| -> (cb: Option<u64>)
                ensures
                    range_count_post(cb, *b, depth as nat, mid as int, hi as int),
                {
                    count_range(b, mid, hi, depth)
                }),
        );
        ra = pair.0;
        rb = pair.1;
    } else {
        ra = count_range(b, lo, mid, depth);
        rb = count_range(b, mid, hi, depth);
    }
    proof {
        lemma_perft_range_split(*b, depth as nat, lo as int, mid as int, hi as int);
    }
    match (ra, rb) {
        (Some(x), Some(y)) => {
            if x <= u64::MAX - y {
                Some(x + y)
            } else {
                None
            }
        },
        _ => None,
    }
}

} // verus!
