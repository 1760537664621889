//! Points of interest read from nodes and ways.

use vstd::prelude::*;
use vstd::string::*;

use crate::category::{classify, rules_view, spec_classify, CategoryRule, RuleView};
use crate::coords::{centroid, lemma_centroid_needs_known_node, spec_centroid, CoordinateIndex};
use crate::model::{AddressPointView, OriginKind, PointOfInterest, PoiView};
use crate::spatial::{
    answers_nearest, find_nearest_address, spec_nearest_address, triple_view, SpatialIndex,
};
use crate::tags::{value_or_empty, Tags};

verus! {

/// The name under which an element is shown: its `name` tag, or `Unnamed`.
pub open spec fn display_name(tags: Map<Seq<char>, Seq<char>>) -> Seq<char> {
    if tags.contains_key("name"@) {
        tags["name"@]
    } else {
        "Unnamed"@
    }
}

/// The point of interest that an element of the given kind, position and
/// tags makes under a classification, with the address that its own tags
/// give.
pub open spec fn tagged_poi(
    id: i64,
    lat: i32,
    lon: i32,
    tags: Map<Seq<char>, Seq<char>>,
    classification: (Seq<char>, Seq<char>),
    kind: OriginKind,
) -> PoiView {
    PoiView {
        id,
        name: display_name(tags),
        category: classification.0,
        subcategory: classification.1,
        latitude: lat,
        longitude: lon,
        housenumber: value_or_empty(tags, "addr:housenumber"@),
        city: value_or_empty(tags, "addr:city"@),
        street: value_or_empty(tags, "addr:street"@),
        osm_type: kind,
    }
}

/// `poi` with the house number and street of a found address in place of
/// its own, and with the address's city where it has none itself. Without
/// a found address it stays as it is.
pub open spec fn with_address_of(poi: PoiView, found: Option<(Seq<char>, Seq<char>, Seq<char>)>)
    -> PoiView {
    match found {
        Some(address) => PoiView {
            housenumber: address.0,
            street: address.1,
            city: if poi.city.len() == 0 {
                address.2
            } else {
                poi.city
            },
            ..poi
        },
        None => poi,
    }
}

/// The point of interest of a node: present where the node's tags classify.
pub open spec fn spec_node_poi(
    id: i64,
    lat: i32,
    lon: i32,
    tags: Map<Seq<char>, Seq<char>>,
    rules: Seq<RuleView>,
) -> Option<PoiView> {
    match spec_classify(tags, rules) {
        Some(classification) => Some(
            tagged_poi(id, lat, lon, tags, classification, OriginKind::Node),
        ),
        None => None,
    }
}

/// The point of interest of a way: present where the way's tags classify
/// and at least one of its nodes is known. It lies at the way's centre. A
/// way with neither street nor house number takes both, and a missing
/// city, from the address point nearest to its centre.
pub open spec fn spec_way_poi(
    id: i64,
    refs: Seq<i64>,
    tags: Map<Seq<char>, Seq<char>>,
    coords: Map<i64, (i32, i32)>,
    rules: Seq<RuleView>,
    points: Seq<AddressPointView>,
) -> Option<PoiView> {
    match (spec_classify(tags, rules), spec_centroid(refs, coords)) {
        (Some(classification), Some(centre)) => {
            let plain = tagged_poi(id, centre.0, centre.1, tags, classification, OriginKind::Way);
            if plain.street.len() == 0 && plain.housenumber.len() == 0 {
                Some(
                    with_address_of(
                        plain,
                        spec_nearest_address(points, centre.0 as int, centre.1 as int),
                    ),
                )
            } else {
                Some(plain)
            }
        },
        _ => None,
    }
}

/// The centre from which a way asks for the nearest address: that of a
/// way that makes a point of interest and carries neither street nor house
/// number.
pub open spec fn way_query(
    refs: Seq<i64>,
    tags: Map<Seq<char>, Seq<char>>,
    coords: Map<i64, (i32, i32)>,
    rules: Seq<RuleView>,
) -> Option<(i32, i32)> {
    match (spec_classify(tags, rules), spec_centroid(refs, coords)) {
        (Some(_), Some(centre)) => if value_or_empty(tags, "addr:street"@).len() == 0
            && value_or_empty(tags, "addr:housenumber"@).len() == 0 {
            Some(centre)
        } else {
            None
        },
        _ => None,
    }
}

/// A way none of whose nodes is known makes no point of interest, whatever
/// its tags.
pub proof fn lemma_way_without_known_node_dropped(
    id: i64,
    refs: Seq<i64>,
    tags: Map<Seq<char>, Seq<char>>,
    coords: Map<i64, (i32, i32)>,
    rules: Seq<RuleView>,
    points: Seq<AddressPointView>,
)
    requires
        forall|i: int| 0 <= i < refs.len() ==> !coords.contains_key(#[trigger] refs[i]),
    ensures
        spec_way_poi(id, refs, tags, coords, rules, points) is None,
{
    lemma_centroid_needs_known_node(refs, coords);
}

/// A way makes a point of interest exactly when its tags classify and one
/// of its nodes is known; the point then lies at the way's centre and
/// bears the way's identifier and classification.
pub proof fn lemma_way_poi_present(
    id: i64,
    refs: Seq<i64>,
    tags: Map<Seq<char>, Seq<char>>,
    coords: Map<i64, (i32, i32)>,
    rules: Seq<RuleView>,
    points: Seq<AddressPointView>,
)
    ensures
        spec_way_poi(id, refs, tags, coords, rules, points) is Some <==> spec_classify(tags, rules)
            is Some && spec_centroid(refs, coords) is Some,
        spec_way_poi(id, refs, tags, coords, rules, points) matches Some(poi) ==> {
            &&& poi.id == id
            &&& poi.osm_type == OriginKind::Way
            &&& Some((poi.latitude, poi.longitude)) == spec_centroid(refs, coords)
            &&& Some((poi.category, poi.subcategory)) == spec_classify(tags, rules)
            &&& poi.name == display_name(tags)
        },
{
}

/// Taking a found address replaces house number and street together and
/// fills the city only where there was none; nothing else changes.
pub proof fn lemma_with_address_of(poi: PoiView, address: (Seq<char>, Seq<char>, Seq<char>))
    ensures
        ({
            let filled = with_address_of(poi, Some(address));
            &&& filled.housenumber == address.0
            &&& filled.street == address.1
            &&& filled.city == if poi.city.len() == 0 {
                address.2
            } else {
                poi.city
            }
            &&& filled.id == poi.id
            &&& filled.name == poi.name
            &&& filled.category == poi.category
            &&& filled.subcategory == poi.subcategory
            &&& filled.latitude == poi.latitude
            &&& filled.longitude == poi.longitude
            &&& filled.osm_type == poi.osm_type
        }),
        with_address_of(poi, None) == poi,
{
}

/// The view of an optional point of interest.
pub open spec fn poi_option_view(poi: Option<PointOfInterest>) -> Option<PoiView> {
    match poi {
        Some(p) => Some(p@),
        None => None,
    }
}

/// The point of interest of an element whose tags were classified.
fn make_poi(
    id: i64,
    lat: i32,
    lon: i32,
    tags: &Tags,
    classification: (String, String),
    kind: OriginKind,
) -> (poi: PointOfInterest)
    ensures
        poi@ == tagged_poi(id, lat, lon, tags@, (classification.0@, classification.1@), kind),
{
    let name = match tags.get("name") {
        Some(name) => name.clone(),
        None => String::from_str("Unnamed"),
    };
    PointOfInterest {
        id,
        name,
        category: classification.0,
        subcategory: classification.1,
        latitude: lat,
        longitude: lon,
        housenumber: tags.get_or_empty("addr:housenumber"),
        city: tags.get_or_empty("addr:city"),
        street: tags.get_or_empty("addr:street"),
        osm_type: kind,
    }
}

/// Gives `poi` the house number and street of a found address, and its
/// city where `poi` has none. Says whether there was an address to take.
pub fn fill_address(poi: &mut PointOfInterest, found: Option<(String, String, String)>) -> (filled:
    bool)
    ensures
        final(poi)@ == with_address_of(old(poi)@, triple_view(found)),
        filled == found is Some,
{
    match found {
        Some((housenumber, street, city)) => {
            poi.housenumber = housenumber;
            poi.street = street;
            if poi.city.as_str().is_empty() {
                poi.city = city;
            }
            true
        },
        None => false,
    }
}

/// The point of interest of a node, where its tags classify.
pub fn node_poi(node_id: i64, lat: i32, lon: i32, tags: &Tags, rules: &Vec<CategoryRule>) -> (poi:
    Option<PointOfInterest>)
    ensures
        poi_option_view(poi) == spec_node_poi(node_id, lat, lon, tags@, rules_view(rules@)),
{
    match classify(tags, rules) {
        Some(classification) => Some(
            make_poi(node_id, lat, lon, tags, classification, OriginKind::Node),
        ),
        None => None,
    }
}

/// The point of interest of a way, where its tags classify and one of its
/// nodes is known.
pub fn way_poi(
    way_id: i64,
    refs: &Vec<i64>,
    tags: &Tags,
    coords: &CoordinateIndex,
    rules: &Vec<CategoryRule>,
    address_index: &SpatialIndex,
) -> (poi: Option<PointOfInterest>)
    ensures
        poi_option_view(poi) == spec_way_poi(
            way_id,
            refs@,
            tags@,
            coords@,
            rules_view(rules@),
            address_index@,
        ),
        way_query(refs@, tags@, coords@, rules_view(rules@)) matches Some(centre)
            ==> answers_nearest(address_index@, centre.1 as int, centre.0 as int),
{
    let classification = classify(tags, rules);
    // A way that has a name is looked at as well, but only one that
    // classifies becomes a point of interest.
    if classification.is_none() && !tags.contains_key("name") {
        return None;
    }
    match centroid(refs, coords) {
        Some((lat, lon)) => match classification {
            Some(classification) => {
                let mut poi = make_poi(way_id, lat, lon, tags, classification, OriginKind::Way);
                if poi.street.as_str().is_empty() && poi.housenumber.as_str().is_empty() {
                    let found = find_nearest_address(address_index, lat, lon);
                    fill_address(&mut poi, found);
                }
                Some(poi)
            },
            None => None,
        },
        None => None,
    }
}

} // verus!
