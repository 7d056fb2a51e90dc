//! Deriving highlight overlays from a legal-move list.
//!
//! For a chosen origin square, the legal moves out of that square are
//! partitioned into two disjoint sets of target squares: quiet targets and
//! capture targets. A target counts as a capture target when some legal move
//! into it from the origin captures; it counts as a quiet target when some
//! legal move reaches it from the origin and none of them captures.

use vstd::prelude::*;
use crate::board::{MoveInfo, Occupant};

verus! {

/// The two highlight overlays shown for a selected square. The vectors are
/// read as sets of square indices.
pub struct HighlightSets {
    pub quiet: Vec<u8>,
    pub capture: Vec<u8>,
}

/// Whether move `i` of `moves` goes from `o` to `t`.
pub open spec fn goes(moves: Seq<MoveInfo>, i: int, o: u8, t: u8) -> bool {
    0 <= i < moves.len() && moves[i].origin == o && moves[i].target == t
}

/// The target squares of all legal moves out of `o`.
pub open spec fn all_targets(moves: Seq<MoveInfo>, o: u8) -> Set<u8> {
    Set::new(|t: u8| exists|i: int| goes(moves, i, o, t))
}

/// The target squares of the capturing legal moves out of `o`.
pub open spec fn capture_targets(moves: Seq<MoveInfo>, o: u8) -> Set<u8> {
    Set::new(|t: u8| exists|i: int| goes(moves, i, o, t) && moves[i].captured != Occupant::Empty)
}

/// The target squares reachable from `o` into which no legal move captures.
pub open spec fn quiet_targets(moves: Seq<MoveInfo>, o: u8) -> Set<u8> {
    all_targets(moves, o).difference(capture_targets(moves, o))
}

impl HighlightSets {
    /// Both overlays, read as sets.
    pub open spec fn quiet_set(&self) -> Set<u8> {
        self.quiet@.to_set()
    }

    pub open spec fn capture_set(&self) -> Set<u8> {
        self.capture@.to_set()
    }

    /// Whether the overlays are exactly those derived from `moves` for a
    /// selection at `o`.
    pub open spec fn derived_from(&self, moves: Seq<MoveInfo>, o: u8) -> bool {
        &&& self.quiet_set() == quiet_targets(moves, o)
        &&& self.capture_set() == capture_targets(moves, o)
    }

    pub open spec fn is_empty(&self) -> bool {
        self.quiet@.len() == 0 && self.capture@.len() == 0
    }

    /// No highlights at all.
    pub fn cleared() -> (h: HighlightSets)
        ensures
            h.is_empty(),
    {
        HighlightSets { quiet: Vec::new(), capture: Vec::new() }
    }
}

/// Whether `v` holds `x`.
fn vec_contains(v: &Vec<u8>, x: u8) -> (r: bool)
    ensures
        r == v@.contains(x),
{
    let mut i: usize = 0;
    while i < v.len()
        invariant
            0 <= i <= v@.len(),
            forall|j: int| 0 <= j < i ==> v@[j] != x,
        decreases v@.len() - i,
    {
        if v[i] == x {
            return true;
        }
        i = i + 1;
    }
    false
}

/// Partitions the legal moves out of `origin` into quiet and capture
/// highlight targets.
pub fn project(moves: &Vec<MoveInfo>, origin: u8) -> (h: HighlightSets)
    ensures
        h.derived_from(moves@, origin),
{
    let ghost ms = moves@;
    let mut capture: Vec<u8> = Vec::new();
    let mut i: usize = 0;
    while i < moves.len()
        invariant
            0 <= i <= ms.len(),
            moves@ == ms,
            forall|idx: int| 0 <= idx < capture@.len()
                ==> capture_targets(ms, origin).contains(#[trigger] capture@[idx]),
            forall|j: int| 0 <= j < i && ms[j].origin == origin
                && (#[trigger] ms[j]).captured != Occupant::Empty
                ==> capture@.contains(ms[j].target),
        decreases ms.len() - i,
    {
        let ghost pre = capture@;
        let m = moves[i];
        if m.origin == origin && m.captured != Occupant::Empty {
            capture.push(m.target);
            assert(goes(ms, i as int, origin, m.target));
        }
        proof {
            assert forall|j: int|
                0 <= j < i + 1 && ms[j].origin == origin
                    && (#[trigger] ms[j]).captured != Occupant::Empty
                implies capture@.contains(ms[j].target) by {
                if j < i {
                    let idx = choose|idx: int| 0 <= idx < pre.len() && pre[idx] == ms[j].target;
                    assert(capture@[idx] == ms[j].target);
                } else {
                    assert(capture@.last() == ms[j].target);
                }
            }
        }
        i = i + 1;
    }
    proof {
        assert forall|t: u8| capture_targets(ms, origin).contains(t)
            implies capture@.contains(t) by {
            let j = choose|j: int| goes(ms, j, origin, t) && ms[j].captured != Occupant::Empty;
            assert(capture@.contains(ms[j].target));
        }
        assert(capture@.to_set() =~= capture_targets(ms, origin));
    }

    let mut quiet: Vec<u8> = Vec::new();
    let mut k: usize = 0;
    while k < moves.len()
        invariant
            0 <= k <= ms.len(),
            moves@ == ms,
            capture@.to_set() == capture_targets(ms, origin),
            forall|idx: int| 0 <= idx < quiet@.len()
                ==> quiet_targets(ms, origin).contains(#[trigger] quiet@[idx]),
            forall|j: int| 0 <= j < k && (#[trigger] ms[j]).origin == origin
                && !capture_targets(ms, origin).contains(ms[j].target)
                ==> quiet@.contains(ms[j].target),
        decreases ms.len() - k,
    {
        let ghost pre = quiet@;
        let m = moves[k];
        if m.origin == origin && !vec_contains(&capture, m.target) {
            proof {
                assert(!capture@.to_set().contains(m.target));
                assert(goes(ms, k as int, origin, m.target));
                assert(all_targets(ms, origin).contains(m.target));
            }
            quiet.push(m.target);
        }
        proof {
            assert forall|j: int|
                0 <= j < k + 1 && (#[trigger] ms[j]).origin == origin
                    && !capture_targets(ms, origin).contains(ms[j].target)
                implies quiet@.contains(ms[j].target) by {
                if j < k {
                    let idx = choose|idx: int| 0 <= idx < pre.len() && pre[idx] == ms[j].target;
                    assert(quiet@[idx] == ms[j].target);
                } else {
                    assert(!capture@.to_set().contains(ms[j].target));
                    assert(quiet@.last() == ms[j].target);
                }
            }
        }
        k = k + 1;
    }
    proof {
        assert forall|t: u8| quiet_targets(ms, origin).contains(t)
            implies quiet@.contains(t) by {
            let j = choose|j: int| goes(ms, j, origin, t);
            assert(quiet@.contains(ms[j].target));
        }
        assert(quiet@.to_set() =~= quiet_targets(ms, origin));
    }

    HighlightSets { quiet, capture }
}

/// For any origin square, the quiet and capture target sets are disjoint,
/// and together they are exactly the targets of all legal moves out of that
/// origin.
pub proof fn lemma_highlight_partition(moves: Seq<MoveInfo>, o: u8)
    ensures
        quiet_targets(moves, o).disjoint(capture_targets(moves, o)),
        quiet_targets(moves, o).union(capture_targets(moves, o)) == all_targets(moves, o),
{
    assert(quiet_targets(moves, o).union(capture_targets(moves, o)) =~= all_targets(moves, o));
}

} // verus!
