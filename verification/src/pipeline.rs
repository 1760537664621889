//! The two passes over the elements, and the run that joins them with
//! enrichment.

use vstd::prelude::*;

use crate::address::{
    address_from_tags, address_point_of, has_address, spec_address_point, spec_node_address,
};
use crate::category::{category_rules, get_category_mapping, rules_view, CategoryRule, RuleView};
use crate::coords::CoordinateIndex;
use crate::enrich::{
    enrich_pois_with_addresses, enriched_count, enrichment_takes_nearest, lacks_address,
    spec_enrich,
};
use crate::model::{
    addresses_view, pois_view, Address, AddressPointView, AddressView, PointOfInterest, PoiView,
};
use crate::poi::{node_poi, poi_option_view, spec_node_poi, spec_way_poi, way_poi, way_query};
use crate::spatial::{answers_nearest, spec_nearest, SpatialIndex};
use crate::tags::Tags;

verus! {

/// A node: a position with tags.
#[derive(Clone, Debug)]
pub struct Node {
    pub id: i64,
    pub lat: i32,
    pub lon: i32,
    pub tags: Tags,
}

/// A way: a list of references to nodes, with tags.
#[derive(Clone, Debug)]
pub struct Way {
    pub id: i64,
    pub refs: Vec<i64>,
    pub tags: Tags,
}

/// An element of the input. A node may come alone or out of a dense batch;
/// the two are treated alike.
#[derive(Clone, Debug)]
pub enum Element {
    Node(Node),
    DenseNode(Node),
    Way(Way),
    Relation,
}

/// An element as plain values.
pub enum ElementView {
    Node { id: i64, lat: i32, lon: i32, tags: Map<Seq<char>, Seq<char>> },
    Way { id: i64, refs: Seq<i64>, tags: Map<Seq<char>, Seq<char>> },
    Relation,
}

impl View for Element {
    type V = ElementView;

    open spec fn view(&self) -> ElementView {
        match *self {
            Element::Node(n) => ElementView::Node { id: n.id, lat: n.lat, lon: n.lon, tags: n.tags@ },
            Element::DenseNode(n) => ElementView::Node {
                id: n.id,
                lat: n.lat,
                lon: n.lon,
                tags: n.tags@,
            },
            Element::Way(w) => ElementView::Way { id: w.id, refs: w.refs@, tags: w.tags@ },
            Element::Relation => ElementView::Relation,
        }
    }
}

/// The elements of a list, in order.
pub open spec fn elements_view(elements: Seq<Element>) -> Seq<ElementView> {
    elements.map_values(|e: Element| e@)
}

/// `list` with `item` at its end, where there is one.
pub open spec fn push_some<T>(list: Seq<T>, item: Option<T>) -> Seq<T> {
    match item {
        Some(x) => list.push(x),
        None => list,
    }
}

/// The node positions known after one more element: a node records its
/// position under its identifier, anything else changes nothing.
pub open spec fn spec_record(coords: Map<i64, (i32, i32)>, element: ElementView) -> Map<
    i64,
    (i32, i32),
> {
    match element {
        ElementView::Node { id, lat, lon, .. } => coords.insert(id, (lat, lon)),
        _ => coords,
    }
}

/// The node positions known after the first pass over `elements`.
pub open spec fn spec_coordinates(elements: Seq<ElementView>) -> Map<i64, (i32, i32)>
    decreases elements.len(),
{
    if elements.len() == 0 {
        Map::empty()
    } else {
        spec_record(spec_coordinates(elements.drop_last()), elements.last())
    }
}

/// What extraction has gathered: points of interest and addresses in the
/// order of the elements they came from, and the address points to search.
pub struct Extraction {
    pub pois: Vec<PointOfInterest>,
    pub addresses: Vec<Address>,
    pub address_index: SpatialIndex,
}

/// What extraction has gathered, as plain values.
pub struct ExtractionView {
    pub pois: Seq<PoiView>,
    pub addresses: Seq<AddressView>,
    pub points: Seq<AddressPointView>,
}

impl View for Extraction {
    type V = ExtractionView;

    open spec fn view(&self) -> ExtractionView {
        ExtractionView {
            pois: pois_view(self.pois@),
            addresses: addresses_view(self.addresses@),
            points: self.address_index@,
        }
    }
}

/// The address point of an optional address.
pub open spec fn point_of(address: Option<AddressView>) -> Option<AddressPointView> {
    match address {
        Some(a) => spec_address_point(a),
        None => None,
    }
}

/// What is gathered after a node: its point of interest where its tags
/// classify, its address where it has one, and the address's point where
/// the address has house number and street.
pub open spec fn spec_process_node(
    state: ExtractionView,
    id: i64,
    lat: i32,
    lon: i32,
    tags: Map<Seq<char>, Seq<char>>,
    rules: Seq<RuleView>,
) -> ExtractionView {
    let address = spec_node_address(id, lat, lon, tags);
    ExtractionView {
        pois: push_some(state.pois, spec_node_poi(id, lat, lon, tags, rules)),
        addresses: push_some(state.addresses, address),
        points: push_some(state.points, point_of(address)),
    }
}

/// What is gathered after one more element. A way adds its point of
/// interest, if it makes one; a relation adds nothing.
pub open spec fn spec_process(
    state: ExtractionView,
    element: ElementView,
    coords: Map<i64, (i32, i32)>,
    rules: Seq<RuleView>,
) -> ExtractionView {
    match element {
        ElementView::Node { id, lat, lon, tags } => spec_process_node(
            state,
            id,
            lat,
            lon,
            tags,
            rules,
        ),
        ElementView::Way { id, refs, tags } => ExtractionView {
            pois: push_some(state.pois, spec_way_poi(id, refs, tags, coords, rules, state.points)),
            ..state
        },
        ElementView::Relation => state,
    }
}

/// Nothing gathered yet.
pub open spec fn empty_extraction() -> ExtractionView {
    ExtractionView { pois: Seq::empty(), addresses: Seq::empty(), points: Seq::empty() }
}

/// What the second pass gathers from `elements`, taken in order.
pub open spec fn spec_extract(
    elements: Seq<ElementView>,
    coords: Map<i64, (i32, i32)>,
    rules: Seq<RuleView>,
) -> ExtractionView
    decreases elements.len(),
{
    if elements.len() == 0 {
        empty_extraction()
    } else {
        spec_process(spec_extract(elements.drop_last(), coords, rules), elements.last(), coords, rules)
    }
}

/// Whether the query that an element makes of an index holding `points`,
/// if it makes one, is answered with a point than which none lies nearer.
/// Only a way makes one, from its centre.
pub open spec fn lookup_takes_nearest(
    points: Seq<AddressPointView>,
    element: ElementView,
    coords: Map<i64, (i32, i32)>,
    rules: Seq<RuleView>,
) -> bool {
    match element {
        ElementView::Way { refs, tags, .. } => match way_query(refs, tags, coords, rules) {
            Some(centre) => answers_nearest(points, centre.1 as int, centre.0 as int),
            None => true,
        },
        _ => true,
    }
}

/// Whether the element at place `k` is answered so, by the index as it
/// stands when the second pass reaches that element.
pub open spec fn lookup_at_takes_nearest(
    elements: Seq<ElementView>,
    k: int,
    coords: Map<i64, (i32, i32)>,
    rules: Seq<RuleView>,
) -> bool {
    lookup_takes_nearest(
        spec_extract(elements.take(k), coords, rules).points,
        elements[k],
        coords,
        rules,
    )
}

/// Whether every query of the second pass is answered with a nearest
/// point.
pub open spec fn lookups_take_nearest(
    elements: Seq<ElementView>,
    coords: Map<i64, (i32, i32)>,
    rules: Seq<RuleView>,
) -> bool {
    forall|k: int|
        0 <= k < elements.len() ==> #[trigger] lookup_at_takes_nearest(elements, k, coords, rules)
}

/// Whether every query of a whole run, in the second pass and in
/// enrichment, is answered with a nearest point.
pub open spec fn run_takes_nearest(elements: Seq<ElementView>) -> bool {
    let gathered = spec_extract(elements, spec_coordinates(elements), category_rules());
    &&& lookups_take_nearest(elements, spec_coordinates(elements), category_rules())
    &&& enrichment_takes_nearest(gathered.pois, gathered.points)
}

/// The outcome of a whole run: both passes with the built-in rules, then
/// enrichment of the points of interest.
pub open spec fn spec_run(elements: Seq<ElementView>) -> ExtractionView {
    let gathered = spec_extract(elements, spec_coordinates(elements), category_rules());
    ExtractionView { pois: spec_enrich(gathered.pois, gathered.points), ..gathered }
}

/// The number of points of interest that a whole run gives an address in
/// its enrichment.
pub open spec fn spec_run_enriched(elements: Seq<ElementView>) -> nat {
    let gathered = spec_extract(elements, spec_coordinates(elements), category_rules());
    enriched_count(gathered.pois, gathered.points)
}

/// A node that carries neither house number nor street adds no address
/// and no address point, whatever else it carries; whether it adds a point
/// of interest is a matter of its classification alone.
pub proof fn lemma_node_without_address(
    state: ExtractionView,
    id: i64,
    lat: i32,
    lon: i32,
    tags: Map<Seq<char>, Seq<char>>,
    rules: Seq<RuleView>,
)
    requires
        !tags.contains_key("addr:housenumber"@),
        !tags.contains_key("addr:street"@),
    ensures
        spec_process_node(state, id, lat, lon, tags, rules).addresses == state.addresses,
        spec_process_node(state, id, lat, lon, tags, rules).points == state.points,
        spec_process_node(state, id, lat, lon, tags, rules).pois == push_some(
            state.pois,
            spec_node_poi(id, lat, lon, tags, rules),
        ),
{
}

/// A node that carries a house number or a street adds exactly one
/// address, at the end.
pub proof fn lemma_node_with_address(
    state: ExtractionView,
    id: i64,
    lat: i32,
    lon: i32,
    tags: Map<Seq<char>, Seq<char>>,
    rules: Seq<RuleView>,
)
    requires
        has_address(tags),
    ensures
        spec_node_address(id, lat, lon, tags) matches Some(address) && spec_process_node(
            state,
            id,
            lat,
            lon,
            tags,
            rules,
        ).addresses == state.addresses.push(address),
{
}

/// Whether every point has a house number and a street.
pub open spec fn all_complete(points: Seq<AddressPointView>) -> bool {
    forall|i: int|
        0 <= i < points.len() ==> (#[trigger] points[i]).housenumber.len() > 0
            && points[i].street.len() > 0
}

/// Every address point that the second pass gathers has a house number and
/// a street.
pub proof fn lemma_gathered_points_complete(
    elements: Seq<ElementView>,
    coords: Map<i64, (i32, i32)>,
    rules: Seq<RuleView>,
)
    ensures
        all_complete(spec_extract(elements, coords, rules).points),
    decreases elements.len(),
{
    if elements.len() > 0 {
        lemma_gathered_points_complete(elements.drop_last(), coords, rules);
    }
}

/// Two runs over the same elements gather the same: the same points of
/// interest and the same addresses, in the same order, and the same count.
pub proof fn lemma_run_repeatable(
    first: Seq<ElementView>,
    second: Seq<ElementView>,
    first_outcome: (ExtractionView, nat),
    second_outcome: (ExtractionView, nat),
)
    requires
        first == second,
        first_outcome.0 == spec_run(first),
        first_outcome.1 == spec_run_enriched(first),
        second_outcome.0 == spec_run(second),
        second_outcome.1 == spec_run_enriched(second),
    ensures
        first_outcome.0.pois == second_outcome.0.pois,
        first_outcome.0.addresses == second_outcome.0.addresses,
        first_outcome == second_outcome,
{
}

/// Enrichment changes neither the number nor the order of the points of
/// interest, and leaves addresses and address points alone.
pub proof fn lemma_run_keeps_gathered(elements: Seq<ElementView>)
    ensures
        ({
            let gathered = spec_extract(elements, spec_coordinates(elements), category_rules());
            &&& spec_run(elements).pois.len() == gathered.pois.len()
            &&& spec_run(elements).addresses == gathered.addresses
            &&& spec_run(elements).points == gathered.points
            &&& forall|i: int|
                0 <= i < gathered.pois.len() ==> {
                    &&& (#[trigger] spec_run(elements).pois[i]).id == gathered.pois[i].id
                    &&& spec_run(elements).pois[i].osm_type == gathered.pois[i].osm_type
                    &&& spec_run(elements).pois[i].category == gathered.pois[i].category
                }
        }),
{
}

/// After a run whose queries were answered with nearest points, a point of
/// interest lacks street or house number only if no address point is
/// known.
pub proof fn lemma_run_leaves_no_gap(elements: Seq<ElementView>, i: int)
    requires
        run_takes_nearest(elements),
        0 <= i < spec_run(elements).pois.len(),
        spec_run(elements).points.len() > 0,
    ensures
        !lacks_address(spec_run(elements).pois[i]),
{
    let coords = spec_coordinates(elements);
    let gathered = spec_extract(elements, coords, category_rules());
    lemma_gathered_points_complete(elements, coords, category_rules());
    let poi = gathered.pois[i];
    if lacks_address(poi) {
        let p = spec_nearest(gathered.points, poi.longitude as int, poi.latitude as int)->0;
        assert(gathered.points.contains(p));
    }
}

/// Appends `poi` where there is one.
fn push_poi(pois: &mut Vec<PointOfInterest>, poi: Option<PointOfInterest>)
    ensures
        pois_view(final(pois)@) == push_some(
            pois_view(old(pois)@),
            poi_option_view(poi),
        ),
{
    match poi {
        Some(p) => {
            pois.push(p);
        },
        None => {},
    }
}

/// Handles a node: appends its point of interest where its tags classify
/// and its address where it carries a house number or a street, and puts
/// an address with both into the index.
pub fn process_node_tags(
    node_id: i64,
    lat: i32,
    lon: i32,
    tags: &Tags,
    category_map: &Vec<CategoryRule>,
    pois: &mut Vec<PointOfInterest>,
    addresses: &mut Vec<Address>,
    address_index: &mut SpatialIndex,
)
    ensures
        pois_view(final(pois)@) == push_some(
            pois_view(old(pois)@),
            spec_node_poi(node_id, lat, lon, tags@, rules_view(category_map@)),
        ),
        addresses_view(final(addresses)@) == push_some(
            addresses_view(old(addresses)@),
            spec_node_address(node_id, lat, lon, tags@),
        ),
        final(address_index)@ == push_some(
            old(address_index)@,
            point_of(spec_node_address(node_id, lat, lon, tags@)),
        ),
{
    push_poi(pois, node_poi(node_id, lat, lon, tags, category_map));
    match address_from_tags(node_id, lat, lon, tags) {
        Some(address) => {
            let point = address_point_of(&address);
            addresses.push(address);
            match point {
                Some(point) => {
                    address_index.insert(point);
                },
                None => {},
            }
        },
        None => {},
    }
}

impl CoordinateIndex {
    /// Takes note of one element in the first pass.
    pub fn record(&mut self, element: &Element)
        ensures
            final(self)@ == spec_record(old(self)@, element@),
    {
        match element {
            Element::Node(node) => {
                self.insert(node.id, node.lat, node.lon);
            },
            Element::DenseNode(node) => {
                self.insert(node.id, node.lat, node.lon);
            },
            _ => {},
        }
    }
}

/// The first pass: the position of every node among `elements`. Of two
/// nodes with one identifier the later counts.
pub fn index_coordinates(elements: &Vec<Element>) -> (coords: CoordinateIndex)
    ensures
        coords@ == spec_coordinates(elements_view(elements@)),
{
    let ghost all = elements_view(elements@);
    let mut coords = CoordinateIndex::new();
    let mut i: usize = 0;
    while i < elements.len()
        invariant
            i <= elements.len(),
            all == elements_view(elements@),
            coords@ == spec_coordinates(all.take(i as int)),
        decreases elements.len() - i,
    {
        assert(all.take(i + 1).drop_last() =~= all.take(i as int));
        coords.record(&elements[i]);
        i = i + 1;
    }
    assert(all.take(i as int) =~= all);
    coords
}

impl Extraction {
    /// Nothing gathered yet.
    pub fn new() -> (state: Extraction)
        ensures
            state@ == empty_extraction(),
    {
        let state = Extraction {
            pois: Vec::new(),
            addresses: Vec::new(),
            address_index: SpatialIndex::new(),
        };
        assert(pois_view(state.pois@) =~= Seq::empty());
        assert(addresses_view(state.addresses@) =~= Seq::empty());
        state
    }

    /// Handles one element in the second pass.
    pub fn process_element(
        &mut self,
        element: &Element,
        coords: &CoordinateIndex,
        rules: &Vec<CategoryRule>,
    )
        ensures
            final(self)@ == spec_process(old(self)@, element@, coords@, rules_view(rules@)),
            lookup_takes_nearest(old(self)@.points, element@, coords@, rules_view(rules@)),
    {
        match element {
            Element::Node(node) => {
                process_node_tags(
                    node.id,
                    node.lat,
                    node.lon,
                    &node.tags,
                    rules,
                    &mut self.pois,
                    &mut self.addresses,
                    &mut self.address_index,
                );
            },
            Element::DenseNode(node) => {
                process_node_tags(
                    node.id,
                    node.lat,
                    node.lon,
                    &node.tags,
                    rules,
                    &mut self.pois,
                    &mut self.addresses,
                    &mut self.address_index,
                );
            },
            Element::Way(way) => {
                let poi = way_poi(way.id, &way.refs, &way.tags, coords, rules, &self.address_index);
                push_poi(&mut self.pois, poi);
            },
            Element::Relation => {},
        }
    }
}

/// The second pass: points of interest, addresses and address points of
/// `elements`, taken in order.
pub fn extract(elements: &Vec<Element>, coords: &CoordinateIndex, rules: &Vec<CategoryRule>) -> (state:
    Extraction)
    ensures
        state@ == spec_extract(elements_view(elements@), coords@, rules_view(rules@)),
        lookups_take_nearest(elements_view(elements@), coords@, rules_view(rules@)),
{
    let ghost all = elements_view(elements@);
    let mut state = Extraction::new();
    let mut i: usize = 0;
    while i < elements.len()
        invariant
            i <= elements.len(),
            all == elements_view(elements@),
            state@ == spec_extract(all.take(i as int), coords@, rules_view(rules@)),
            forall|k: int|
                0 <= k < i ==> #[trigger] lookup_at_takes_nearest(
                    all,
                    k,
                    coords@,
                    rules_view(rules@),
                ),
        decreases elements.len() - i,
    {
        assert(all.take(i + 1).drop_last() =~= all.take(i as int));
        state.process_element(&elements[i], coords, rules);
        i = i + 1;
    }
    assert(all.take(i as int) =~= all);
    state
}

/// A whole run over `elements`: the first pass, the second pass with the
/// built-in rules, and enrichment. Returns what was gathered and the number
/// of points of interest that enrichment gave an address.
pub fn run(elements: &Vec<Element>) -> (outcome: (Extraction, usize))
    ensures
        outcome.0@ == spec_run(elements_view(elements@)),
        outcome.1 == spec_run_enriched(elements_view(elements@)),
        run_takes_nearest(elements_view(elements@)),
{
    let rules = get_category_mapping();
    let coords = index_coordinates(elements);
    let mut state = extract(elements, &coords, &rules);
    let count = enrich_pois_with_addresses(&mut state.pois, &state.address_index);
    (state, count)
}

} // verus!
