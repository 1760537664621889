//! Node positions by identifier, and the centre of a way.

use std::collections::HashMap;
use vstd::arithmetic::div_mod::{lemma_fundamental_div_mod, lemma_hoist_over_denominator, lemma_mod_bound};
use vstd::prelude::*;
use vstd::std_specs::hash::*;

verus! {

broadcast use group_hash_axioms;

/// Latitude and longitude of each node seen, by the node's identifier.
pub struct CoordinateIndex {
    nodes: HashMap<i64, (i32, i32)>,
}

impl View for CoordinateIndex {
    type V = Map<i64, (i32, i32)>;

    closed spec fn view(&self) -> Map<i64, (i32, i32)> {
        self.nodes@
    }
}

impl CoordinateIndex {
    /// An index that knows no node.
    pub fn new() -> (index: CoordinateIndex)
        ensures
            index@ == Map::<i64, (i32, i32)>::empty(),
    {
        CoordinateIndex { nodes: HashMap::new() }
    }

    /// Records the position of a node; a position recorded earlier for the
    /// same identifier is replaced.
    pub fn insert(&mut self, id: i64, lat: i32, lon: i32)
        ensures
            final(self)@ == old(self)@.insert(id, (lat, lon)),
    {
        self.nodes.insert(id, (lat, lon));
    }

    /// Latitude and longitude of the node `id`, if it was recorded.
    pub fn get(&self, id: i64) -> (position: Option<(i32, i32)>)
        ensures
            position == if self@.contains_key(id) {
                Some(self@[id])
            } else {
                None
            },
    {
        match self.nodes.get(&id) {
            Some(p) => Some(*p),
            None => None,
        }
    }

    /// The number of nodes recorded.
    pub fn len(&self) -> (n: usize)
        ensures
            n == self@.len(),
    {
        self.nodes.len()
    }
}

/// The positions of the referenced nodes that are known, in the order of
/// reference; unknown identifiers are passed over.
pub open spec fn resolved(refs: Seq<i64>, coords: Map<i64, (i32, i32)>) -> Seq<(i32, i32)>
    decreases refs.len(),
{
    if refs.len() == 0 {
        Seq::empty()
    } else if coords.contains_key(refs.last()) {
        resolved(refs.drop_last(), coords).push(coords[refs.last()])
    } else {
        resolved(refs.drop_last(), coords)
    }
}

/// The sum of the latitudes.
pub open spec fn sum_lat(points: Seq<(i32, i32)>) -> int
    decreases points.len(),
{
    if points.len() == 0 {
        0
    } else {
        sum_lat(points.drop_last()) + points.last().0
    }
}

/// The sum of the longitudes.
pub open spec fn sum_lon(points: Seq<(i32, i32)>) -> int
    decreases points.len(),
{
    if points.len() == 0 {
        0
    } else {
        sum_lon(points.drop_last()) + points.last().1
    }
}

/// The centre of a way: the mean latitude and the mean longitude of its
/// known nodes, each rounded down to a whole unit. A way none of whose
/// nodes is known has no centre.
pub open spec fn spec_centroid(refs: Seq<i64>, coords: Map<i64, (i32, i32)>) -> Option<(i32, i32)> {
    let points = resolved(refs, coords);
    if points.len() == 0 {
        None
    } else {
        Some(
            (
                (sum_lat(points) / points.len() as int) as i32,
                (sum_lon(points) / points.len() as int) as i32,
            ),
        )
    }
}

/// The sums of `n` coordinates lie between `n` times the least and `n`
/// times the greatest `i32`.
pub proof fn lemma_sum_bounds(points: Seq<(i32, i32)>)
    ensures
        points.len() * i32::MIN <= sum_lat(points) <= points.len() * i32::MAX,
        points.len() * i32::MIN <= sum_lon(points) <= points.len() * i32::MAX,
    decreases points.len(),
{
    if points.len() > 0 {
        lemma_sum_bounds(points.drop_last());
    }
}

/// The centre is the arithmetic mean of the known nodes, rounded down: for
/// `n` known nodes, `n` times each coordinate of the centre is at most the
/// sum of that coordinate over the nodes, and less than `n` short of it.
pub proof fn lemma_centroid_is_mean(refs: Seq<i64>, coords: Map<i64, (i32, i32)>)
    requires
        resolved(refs, coords).len() > 0,
    ensures
        spec_centroid(refs, coords) matches Some(centre) && {
            let points = resolved(refs, coords);
            let n = points.len() as int;
            &&& n * centre.0 <= sum_lat(points) < n * centre.0 + n
            &&& n * centre.1 <= sum_lon(points) < n * centre.1 + n
        },
{
    let points = resolved(refs, coords);
    let n = points.len() as int;
    lemma_sum_bounds(points);
    lemma_mean_in_range(sum_lat(points), n);
    lemma_mean_in_range(sum_lon(points), n);
    lemma_fundamental_div_mod(sum_lat(points), n);
    lemma_fundamental_div_mod(sum_lon(points), n);
    lemma_mod_bound(sum_lat(points), n);
    lemma_mod_bound(sum_lon(points), n);
}

/// Only the known nodes count: a way has a centre exactly when one of the
/// nodes it refers to is known.
pub proof fn lemma_centroid_needs_known_node(refs: Seq<i64>, coords: Map<i64, (i32, i32)>)
    ensures
        spec_centroid(refs, coords) is Some <==> exists|i: int|
            0 <= i < refs.len() && coords.contains_key(#[trigger] refs[i]),
{
    lemma_resolved_empty(refs, coords);
}

/// No position is resolved exactly when no referenced node is known.
pub proof fn lemma_resolved_empty(refs: Seq<i64>, coords: Map<i64, (i32, i32)>)
    ensures
        resolved(refs, coords).len() > 0 <==> exists|i: int|
            0 <= i < refs.len() && coords.contains_key(#[trigger] refs[i]),
    decreases refs.len(),
{
    if refs.len() > 0 {
        let rest = refs.drop_last();
        lemma_resolved_empty(rest, coords);
        if coords.contains_key(refs.last()) {
            assert(coords.contains_key(refs[refs.len() - 1]));
        } else if resolved(refs, coords).len() > 0 {
            let i = choose|i: int| 0 <= i < rest.len() && coords.contains_key(#[trigger] rest[i]);
            assert(rest[i] == refs[i]);
        } else {
            assert forall|i: int| 0 <= i < refs.len() implies !coords.contains_key(
                #[trigger] refs[i],
            ) by {
                if i < rest.len() {
                    assert(rest[i] == refs[i]);
                }
            }
        }
    }
}

/// The mean of `n` coordinates, rounded down, is a coordinate.
proof fn lemma_mean_in_range(sum: int, n: int)
    requires
        n > 0,
        n * i32::MIN <= sum <= n * i32::MAX,
    ensures
        i32::MIN <= sum / n <= i32::MAX,
{
    assert(i32::MIN <= sum / n <= i32::MAX) by (nonlinear_arith)
        requires
            n > 0,
            n * i32::MIN <= sum <= n * i32::MAX,
    ;
}

/// By how much a coordinate is raised to make it non-negative.
const OFFSET: u64 = 0x8000_0000;

/// The quotient of a sum of raised coordinates is the raised mean, and
/// within the raised range of `i32`.
proof fn lemma_raised_mean(sum: int, n: int, raised: int)
    requires
        n > 0,
        n * i32::MIN <= sum <= n * i32::MAX,
        raised == sum + n * OFFSET,
    ensures
        raised / n == sum / n + OFFSET,
        i32::MIN <= sum / n <= i32::MAX,
{
    lemma_hoist_over_denominator(sum, OFFSET as int, n as nat);
    lemma_mean_in_range(sum, n);
}

/// The centre of the way with the given node references.
pub fn centroid(refs: &Vec<i64>, coords: &CoordinateIndex) -> (centre: Option<(i32, i32)>)
    ensures
        centre == spec_centroid(refs@, coords@),
{
    let mut lat_sum: u128 = 0;
    let mut lon_sum: u128 = 0;
    let mut count: usize = 0;
    let mut i: usize = 0;
    while i < refs.len()
        invariant
            i <= refs.len(),
            count == resolved(refs@.take(i as int), coords@).len(),
            count <= i,
            lat_sum == sum_lat(resolved(refs@.take(i as int), coords@)) + count * OFFSET,
            lon_sum == sum_lon(resolved(refs@.take(i as int), coords@)) + count * OFFSET,
        decreases refs.len() - i,
    {
        let ghost before = resolved(refs@.take(i as int), coords@);
        proof {
            assert(refs@.take(i + 1).drop_last() =~= refs@.take(i as int));
            lemma_sum_bounds(before);
            assert(count * OFFSET + count * i32::MAX <= usize::MAX * 0xffff_ffff)
                by (nonlinear_arith)
                requires
                    0 <= count <= usize::MAX,
            ;
        }
        if let Some((lat, lon)) = coords.get(refs[i]) {
            proof {
                assert(resolved(refs@.take(i + 1), coords@).drop_last() =~= before);
            }
            lat_sum = lat_sum + (lat as i64 + OFFSET as i64) as u128;
            lon_sum = lon_sum + (lon as i64 + OFFSET as i64) as u128;
            count = count + 1;
        }
        i = i + 1;
    }
    assert(refs@.take(i as int) =~= refs@);
    if count > 0 {
        let ghost points = resolved(refs@, coords@);
        proof {
            lemma_sum_bounds(points);
            lemma_raised_mean(sum_lat(points), count as int, lat_sum as int);
            lemma_raised_mean(sum_lon(points), count as int, lon_sum as int);
        }
        let lat = (lat_sum / count as u128) as i64 - OFFSET as i64;
        let lon = (lon_sum / count as u128) as i64 - OFFSET as i64;
        Some((lat as i32, lon as i32))
    } else {
        None
    }
}

} // verus!
