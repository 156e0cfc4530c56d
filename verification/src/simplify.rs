//! The simplification service: reduces a vessel's raw GPS track to a
//! smaller ordered set of points whose consecutive members are spaced
//! farther apart than a requested radius.
//!
//! Great-circle distance itself is floating-point trigonometry, which the
//! verified core does not compute; the serving layer evaluates the radius
//! comparison for every pair of track points once and hands the outcome in
//! as a [`Spacing`] table.  Everything the service decides from those
//! comparisons is specified and proved here.

use vstd::prelude::*;

use crate::model::Coordinate;
use crate::model::SimplifyIn;
use crate::model::SimplifyOut;

verus! {

/// Pairwise spacing classification for a track: entry `[i][j]` records
/// whether track points `i` and `j` lie strictly more than the chosen
/// radius apart by great-circle distance.
pub struct Spacing {
    pub far: Vec<Vec<bool>>,
}

impl Spacing {
    /// The table as a mathematical value.
    pub open spec fn table(&self) -> Seq<Seq<bool>> {
        self.far@.map_values(|row: Vec<bool>| row@)
    }

    /// A well-formed table is square: one row and one column per track
    /// point.
    pub open spec fn wf(&self, n: int) -> bool {
        &&& self.far@.len() == n
        &&& forall|i: int| 0 <= i < n ==> self.far@[i]@.len() == n
    }
}

/// The indices the greedy pass keeps after considering the first `j` points
/// of a track: the first point seeds the output, and each later point is
/// kept exactly when it lies farther than the radius from the point kept
/// most recently before it.
pub open spec fn kept_upto(t: Seq<Seq<bool>>, j: int) -> Seq<int>
    decreases j,
{
    if j <= 0 {
        Seq::empty()
    } else if j == 1 {
        seq![0int]
    } else {
        let prev = kept_upto(t, j - 1);
        if t[prev.last()][j - 1] {
            prev.push(j - 1)
        } else {
            prev
        }
    }
}

/// What simplification returns for a track and its spacing table: no
/// result for a track of fewer than two points, no result when the pass
/// keeps fewer than two points, and otherwise the kept points in order.
pub open spec fn simplify_spec(coords: Seq<Coordinate>, t: Seq<Seq<bool>>) -> Option<
    Seq<Coordinate>,
> {
    if coords.len() <= 1 {
        None
    } else {
        let kept = kept_upto(t, coords.len() as int);
        if kept.len() < 2 {
            None
        } else {
            Some(kept.map_values(|k: int| coords[k]))
        }
    }
}

/// Law: at every stage of the greedy pass over the first `j` points, the
/// kept indices start at the track's first point, are strictly increasing
/// and in range, there are no more of them than points considered, and
/// every consecutive kept pair is classified as spaced farther than the
/// radius.
pub proof fn lemma_kept_upto(t: Seq<Seq<bool>>, j: int)
    requires
        1 <= j,
    ensures
        ({
            let kept = kept_upto(t, j);
            &&& 1 <= kept.len() <= j
            &&& kept[0] == 0
            &&& kept.last() < j
            &&& forall|a: int, b: int| 0 <= a < b < kept.len() ==> kept[a] < kept[b]
            &&& forall|k: int| 0 <= k < kept.len() - 1 ==> t[kept[k]][kept[k + 1]]
        }),
    decreases j,
{
    if j > 1 {
        lemma_kept_upto(t, j - 1);
        let prev = kept_upto(t, j - 1);
        let kept = kept_upto(t, j);
        if t[prev.last()][j - 1] {
            assert(kept == prev.push(j - 1));
            assert(forall|a: int| 0 <= a < prev.len() ==> kept[a] == prev[a]);
            assert(kept.last() == j - 1);
            assert(forall|k: int| 0 <= k < prev.len() - 1 ==> t[kept[k]][kept[k + 1]]);
            assert(t[kept[prev.len() - 1]][kept[prev.len() as int]]);
        }
    }
}

/// At every stage, a pass that has not yet kept a second point compares
/// each candidate against the first point; so while no later point is
/// spaced farther than the radius from the first, only the first is kept.
proof fn lemma_only_start(t: Seq<Seq<bool>>, j: int)
    requires
        1 <= j,
        forall|k: int| 1 <= k < j ==> !t[0][k],
    ensures
        kept_upto(t, j) =~= seq![0int],
    decreases j,
{
    if j > 1 {
        lemma_only_start(t, j - 1);
    }
}

/// Law: when every later track point lies within the radius of the first
/// point, the whole track collapses onto its start, and simplification
/// yields no result.
pub proof fn lemma_collapse_to_start(coords: Seq<Coordinate>, t: Seq<Seq<bool>>)
    requires
        coords.len() >= 1,
        forall|k: int| 1 <= k < coords.len() ==> !t[0][k],
    ensures
        kept_upto(t, coords.len() as int) =~= seq![0int],
        simplify_spec(coords, t) is None,
{
    lemma_only_start(t, coords.len() as int);
}

/// Law: a two-point track whose single pair is not spaced farther than the
/// radius collapses to its start and yields no result.  Two coincident
/// points are a special case: they are zero meters apart, hence never
/// farther than any nonnegative radius, so their table entry is false.
pub proof fn lemma_two_point_collapse(coords: Seq<Coordinate>, t: Seq<Seq<bool>>)
    requires
        coords.len() == 2,
        !t[0][1],
    ensures
        simplify_spec(coords, t) is None,
{
    assert(kept_upto(t, 1) =~= seq![0int]);
    assert(kept_upto(t, 2) =~= seq![0int]);
}

/// Reduce a vessel's track to points spaced farther apart than the
/// requested radius: seed the output with the first point, then keep each
/// later point exactly when the table classifies it as farther than the
/// radius from the most recently kept point.  Returns no result when the
/// track has fewer than two points or when the whole track collapses onto
/// its first point.
pub fn simplify(data: &SimplifyIn, spacing: &Spacing) -> (res: Option<SimplifyOut>)
    requires
        spacing.wf(data.vessel.coordinates@.len() as int),
    ensures
        res is Some <==> simplify_spec(data.vessel.coordinates@, spacing.table()) is Some,
        res matches Some(out) ==> Some(out.path@) == simplify_spec(
            data.vessel.coordinates@,
            spacing.table(),
        ),
        data.vessel.coordinates@.len() <= 1 ==> res is None,
        res matches Some(out) ==> {
            &&& 2 <= out.path@.len() <= data.vessel.coordinates@.len()
            &&& out.path@[0] == data.vessel.coordinates@[0]
        },
        res is Some ==> ({
            let kept = kept_upto(spacing.table(), data.vessel.coordinates@.len() as int);
            forall|k: int| 0 <= k < kept.len() - 1 ==> spacing.table()[kept[k]][kept[k + 1]]
        }),
{
    let coords = &data.vessel.coordinates;
    let n = coords.len();
    if n <= 1 {
        return None;
    }
    let mut optimized_path: Vec<Coordinate> = Vec::new();
    optimized_path.push(coords[0]);
    let mut last_kept: usize = 0;
    let mut i: usize = 1;
    proof {
        assert(kept_upto(spacing.table(), 1) =~= seq![0int]);
        assert(optimized_path@ =~= kept_upto(spacing.table(), 1).map_values(
            |k: int| coords@[k],
        ));
    }
    while i < n
        invariant
            1 <= i <= n,
            n == coords@.len(),
            spacing.wf(n as int),
            ({
                let kept = kept_upto(spacing.table(), i as int);
                &&& kept.len() >= 1
                &&& kept.last() == last_kept as int
                &&& optimized_path@ == kept.map_values(|k: int| coords@[k])
            }),
            last_kept < i,
        decreases n - i,
    {
        let ghost t = spacing.table();
        let ghost kept = kept_upto(t, i as int);
        proof {
            assert(t[last_kept as int] == spacing.far@[last_kept as int]@);
        }
        if spacing.far[last_kept][i] {
            optimized_path.push(coords[i]);
            last_kept = i;
            proof {
                assert(kept_upto(t, i as int + 1) == kept.push(i as int));
                assert(optimized_path@ =~= kept_upto(t, i as int + 1).map_values(
                    |k: int| coords@[k],
                ));
            }
        } else {
            proof {
                assert(kept_upto(t, i as int + 1) == kept);
            }
        }
        i += 1;
    }
    proof {
        lemma_kept_upto(spacing.table(), n as int);
    }
    if optimized_path.len() < 2 {
        None
    } else {
        Some(SimplifyOut { path: optimized_path })
    }
}

/// The fallback message of the simplification service for requests it has
/// no route for.
pub fn error() -> (res: &'static str)
    ensures
        res@ == "Whoops doopsie."@,
{
    "Whoops doopsie."
}

} // verus!
