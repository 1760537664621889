//! Nearest-neighbour search over address points.
//!
//! Distances are squared Euclidean distances on the raw coordinates, not
//! distances on the globe.

use rstar::primitives::GeomWithData;
use rstar::RTree;
use vstd::prelude::*;

use crate::model::{points_view, AddressPoint, AddressPointView};

verus! {

/// An `RTree` of rstar over positions, longitude before latitude, each with
/// the slot of the record it stands for. Nothing inside it is seen by the
/// verifier. The coordinates are held as `i128`, so that the squares and
/// areas that the tree computes from `i32` positions stay far inside the
/// number type.
#[verifier::external_body]
pub struct LocationTree {
    tree: RTree<GeomWithData<[i128; 2], usize>>,
}

/// The items that were put into the tree, oldest first: longitude,
/// latitude and slot of each.
pub uninterp spec fn tree_items(tree: LocationTree) -> Seq<(int, int, int)>;

/// What `RTree::nearest_neighbor` answers: for a tree into which `items`
/// were put in this order, the place in `items` of the item that a query
/// at the given position returns. Insertion and search go by the items and
/// the query alone, so the same items in the same order get the same
/// answer.
pub uninterp spec fn nearest_pick(items: Seq<(int, int, int)>, lon: int, lat: int) -> int;

/// The squared distance between two positions.
pub open spec fn distance_2(lon_a: int, lat_a: int, lon_b: int, lat_b: int) -> int {
    (lon_a - lon_b) * (lon_a - lon_b) + (lat_a - lat_b) * (lat_a - lat_b)
}

/// `RTree::new`: a tree into which nothing was put.
#[verifier::external_body]
fn tree_new() -> (tree: LocationTree)
    ensures
        tree_items(tree) == Seq::<(int, int, int)>::empty(),
{
    LocationTree { tree: RTree::new() }
}

/// `RTree::insert`, with an item made by `GeomWithData::new`: the tree
/// holds one item more, the given one. The tree counts its items in a
/// `usize`, so there must be room for one more.
#[verifier::external_body]
fn tree_insert(tree: &mut LocationTree, lon: i32, lat: i32, slot: usize)
    requires
        tree_items(*old(tree)).len() < usize::MAX,
    ensures
        tree_items(*final(tree)) == tree_items(*old(tree)).push(
            (lon as int, lat as int, slot as int),
        ),
{
    tree.tree.insert(GeomWithData::new([lon as i128, lat as i128], slot));
}

/// Whether the item at place `k` carries `slot` and none of `items` lies
/// nearer to the given position than it does.
pub open spec fn picks_nearest(items: Seq<(int, int, int)>, k: int, slot: int, lon: int, lat: int)
    -> bool {
    &&& 0 <= k < items.len()
    &&& items[k].2 == slot
    &&& forall|j: int|
        0 <= j < items.len() ==> distance_2(items[k].0, items[k].1, lon, lat) <= distance_2(
            #[trigger] items[j].0,
            items[j].1,
            lon,
            lat,
        )
}

/// `RTree::nearest_neighbor`: nothing for an empty tree; otherwise the slot
/// of an item of the tree than which none lies nearer to the given
/// position, by the squared distance that rstar computes for points. Among
/// equally near items the answer is a matter of how the tree grew, which
/// the order of insertion fixes: `nearest_pick` names it.
#[verifier::external_body]
fn tree_nearest(tree: &LocationTree, lon: i32, lat: i32) -> (slot: Option<usize>)
    ensures
        slot is None <==> tree_items(*tree).len() == 0,
        slot matches Some(s) ==> picks_nearest(
            tree_items(*tree),
            nearest_pick(tree_items(*tree), lon as int, lat as int),
            s as int,
            lon as int,
            lat as int,
        ),
{
    tree.tree.nearest_neighbor(&[lon as i128, lat as i128]).map(|item| item.data)
}

/// The position and slot of each point of a list.
pub open spec fn located(points: Seq<AddressPointView>) -> Seq<(int, int, int)> {
    Seq::new(points.len(), |i: int| (points[i].longitude as int, points[i].latitude as int, i))
}

/// The point that a nearest-neighbour query at the given position answers
/// with, for an index that holds `points` in this order.
pub open spec fn spec_nearest(points: Seq<AddressPointView>, lon: int, lat: int) -> Option<
    AddressPointView,
> {
    if points.len() == 0 {
        None
    } else {
        Some(points[nearest_pick(located(points), lon, lat)])
    }
}

/// Whether `point` is one of `points` and none of them lies nearer to the
/// given position.
pub open spec fn is_nearest(
    points: Seq<AddressPointView>,
    point: AddressPointView,
    lon: int,
    lat: int,
) -> bool {
    &&& points.contains(point)
    &&& forall|j: int|
        0 <= j < points.len() ==> distance_2(
            point.longitude as int,
            point.latitude as int,
            lon,
            lat,
        ) <= distance_2(
            #[trigger] points[j].longitude as int,
            points[j].latitude as int,
            lon,
            lat,
        )
}

/// Whether the answer to a query at the given position is a point than
/// which none of `points` lies nearer.
pub open spec fn answers_nearest(points: Seq<AddressPointView>, lon: int, lat: int) -> bool {
    match spec_nearest(points, lon, lat) {
        Some(p) => is_nearest(points, p, lon, lat),
        None => true,
    }
}

/// House number, street and city of the nearest point, if there is one.
pub open spec fn spec_nearest_address(points: Seq<AddressPointView>, lat: int, lon: int) -> Option<
    (Seq<char>, Seq<char>, Seq<char>),
> {
    match spec_nearest(points, lon, lat) {
        Some(p) => Some((p.housenumber, p.street, p.city)),
        None => None,
    }
}

/// The view of an optional reference to an address point.
pub open spec fn point_ref_view(point: Option<&AddressPoint>) -> Option<AddressPointView> {
    match point {
        Some(p) => Some(p@),
        None => None,
    }
}

/// The characters of an optional triple of strings.
pub open spec fn triple_view(triple: Option<(String, String, String)>) -> Option<
    (Seq<char>, Seq<char>, Seq<char>),
> {
    match triple {
        Some(t) => Some((t.0@, t.1@, t.2@)),
        None => None,
    }
}

/// The address points that can be searched by position.
pub struct SpatialIndex {
    points: Vec<AddressPoint>,
    tree: LocationTree,
}

impl View for SpatialIndex {
    type V = Seq<AddressPointView>;

    closed spec fn view(&self) -> Seq<AddressPointView> {
        points_view(self.points@)
    }
}

impl SpatialIndex {
    /// The tree holds the position of each point under the point's place
    /// in `points`.
    #[verifier::type_invariant]
    spec fn consistent(self) -> bool {
        tree_items(self.tree) == located(points_view(self.points@))
    }

    /// An index that holds nothing.
    pub fn new() -> (index: SpatialIndex)
        ensures
            index@ == Seq::<AddressPointView>::empty(),
    {
        let points: Vec<AddressPoint> = Vec::new();
        let tree = tree_new();
        assert(located(points_view(points@)) =~= Seq::empty());
        SpatialIndex { points, tree }
    }

    /// The number of points held.
    pub fn len(&self) -> (n: usize)
        ensures
            n == self@.len(),
    {
        self.points.len()
    }

    /// Adds `point`.
    pub fn insert(&mut self, point: AddressPoint)
        ensures
            final(self)@ == old(self)@.push(point@),
    {
        // The index is taken apart and put together again, so that it is
        // never seen with the point in one half only.
        let mut whole = SpatialIndex::new();
        std::mem::swap(self, &mut whole);
        proof {
            use_type_invariant(&whole);
        }
        let SpatialIndex { mut points, mut tree } = whole;
        let lon = point.longitude;
        let lat = point.latitude;
        let slot = points.len();
        points.push(point);
        // The vector has taken the point, so the tree has room for it.
        assert(slot < points.len() <= usize::MAX);
        tree_insert(&mut tree, lon, lat, slot);
        proof {
            assert(located(points_view(points@)) =~= located(old(self)@).push(
                (lon as int, lat as int, slot as int),
            ));
        }
        *self = SpatialIndex { points, tree };
    }

    /// The point nearest to the given position; nothing where the index is
    /// empty.
    pub fn nearest(&self, lon: i32, lat: i32) -> (found: Option<&AddressPoint>)
        ensures
            point_ref_view(found) == spec_nearest(self@, lon as int, lat as int),
            answers_nearest(self@, lon as int, lat as int),
    {
        proof {
            use_type_invariant(self);
        }
        match tree_nearest(&self.tree, lon, lat) {
            Some(slot) => {
                let ghost points = points_view(self.points@);
                let ghost items = located(points);
                let ghost k = nearest_pick(items, lon as int, lat as int);
                assert(items[k].2 == k);
                assert(points[k] == self.points[slot as int]@);
                assert(points.contains(points[k]));
                assert forall|j: int| 0 <= j < points.len() implies distance_2(
                    points[k].longitude as int,
                    points[k].latitude as int,
                    lon as int,
                    lat as int,
                ) <= distance_2(
                    #[trigger] points[j].longitude as int,
                    points[j].latitude as int,
                    lon as int,
                    lat as int,
                ) by {
                    assert(items[j].0 == points[j].longitude);
                }
                Some(&self.points[slot])
            },
            None => None,
        }
    }
}

/// House number, street and city of the address point nearest to the given
/// position; nothing where the index is empty.
pub fn find_nearest_address(index: &SpatialIndex, lat: i32, lon: i32) -> (found: Option<
    (String, String, String),
>)
    ensures
        triple_view(found) == spec_nearest_address(index@, lat as int, lon as int),
        found is None <==> index@.len() == 0,
        answers_nearest(index@, lon as int, lat as int),
{
    match index.nearest(lon, lat) {
        Some(p) => Some((p.housenumber.clone(), p.street.clone(), p.city.clone())),
        None => None,
    }
}

} // verus!
