//! The pass that gives points of interest without an address the nearest
//! known one.

use vstd::prelude::*;
use vstd::string::*;

use crate::model::{pois_view, AddressPointView, PointOfInterest, PoiView};
use crate::poi::{fill_address, with_address_of};
use crate::spatial::{
    answers_nearest, find_nearest_address, spec_nearest, spec_nearest_address, SpatialIndex,
};

verus! {

/// Whether a point of interest lacks a street or a house number.
pub open spec fn lacks_address(poi: PoiView) -> bool {
    poi.street.len() == 0 || poi.housenumber.len() == 0
}

/// A point of interest after enrichment: one that lacks a street or a
/// house number takes both, and a missing city, from the address point
/// nearest to it; every other stays as it is.
pub open spec fn enriched(poi: PoiView, points: Seq<AddressPointView>) -> PoiView {
    if lacks_address(poi) {
        with_address_of(
            poi,
            spec_nearest_address(points, poi.latitude as int, poi.longitude as int),
        )
    } else {
        poi
    }
}

/// A list of points of interest after enrichment.
pub open spec fn spec_enrich(pois: Seq<PoiView>, points: Seq<AddressPointView>) -> Seq<PoiView> {
    Seq::new(pois.len(), |i: int| enriched(pois[i], points))
}

/// Whether every point of interest that lacks a street or a house number
/// is answered with a point than which none lies nearer to it.
pub open spec fn enrichment_takes_nearest(pois: Seq<PoiView>, points: Seq<AddressPointView>)
    -> bool {
    forall|i: int|
        0 <= i < pois.len() && lacks_address(#[trigger] pois[i]) ==> answers_nearest(
            points,
            pois[i].longitude as int,
            pois[i].latitude as int,
        )
}

/// The number of points of interest that enrichment gives an address:
/// those that lack one, provided that any address point is known.
pub open spec fn enriched_count(pois: Seq<PoiView>, points: Seq<AddressPointView>) -> nat
    decreases pois.len(),
{
    if pois.len() == 0 {
        0
    } else if lacks_address(pois.last()) && points.len() > 0 {
        enriched_count(pois.drop_last(), points) + 1
    } else {
        enriched_count(pois.drop_last(), points)
    }
}

/// No more points of interest are given an address than there are.
pub proof fn lemma_enriched_count_bound(pois: Seq<PoiView>, points: Seq<AddressPointView>)
    ensures
        enriched_count(pois, points) <= pois.len(),
    decreases pois.len(),
{
    if pois.len() > 0 {
        lemma_enriched_count_bound(pois.drop_last(), points);
    }
}

/// What enrichment does to one point of interest. One that has street and
/// house number, and any one while no address point is known, stays as it
/// is. Any other takes house number and street of the point that the index
/// answers with, both together, and that point's city only where it has no
/// city of its own. Identifier, name, classification, position and kind
/// never change.
pub proof fn lemma_enriched(poi: PoiView, points: Seq<AddressPointView>)
    ensures
        !lacks_address(poi) || points.len() == 0 ==> enriched(poi, points) == poi,
        lacks_address(poi) && points.len() > 0 ==> (spec_nearest(
            points,
            poi.longitude as int,
            poi.latitude as int,
        ) matches Some(p) && {
            &&& enriched(poi, points).housenumber == p.housenumber
            &&& enriched(poi, points).street == p.street
            &&& enriched(poi, points).city == if poi.city.len() == 0 {
                p.city
            } else {
                poi.city
            }
        }),
        poi.city.len() > 0 ==> enriched(poi, points).city == poi.city,
        enriched(poi, points).id == poi.id,
        enriched(poi, points).name == poi.name,
        enriched(poi, points).category == poi.category,
        enriched(poi, points).subcategory == poi.subcategory,
        enriched(poi, points).latitude == poi.latitude,
        enriched(poi, points).longitude == poi.longitude,
        enriched(poi, points).osm_type == poi.osm_type,
{
}

/// Enriches one point of interest; says whether it was given an address.
pub fn enrich_poi(poi: &mut PointOfInterest, address_index: &SpatialIndex) -> (touched: bool)
    ensures
        final(poi)@ == enriched(old(poi)@, address_index@),
        touched == (lacks_address(old(poi)@) && address_index@.len() > 0),
        lacks_address(old(poi)@) ==> answers_nearest(
            address_index@,
            old(poi).longitude as int,
            old(poi).latitude as int,
        ),
{
    if poi.street.as_str().is_empty() || poi.housenumber.as_str().is_empty() {
        let found = find_nearest_address(address_index, poi.latitude, poi.longitude);
        fill_address(poi, found)
    } else {
        false
    }
}

/// Enriches every point of interest of the list, and returns how many were
/// given an address.
pub fn enrich_pois_with_addresses(pois: &mut Vec<PointOfInterest>, address_index: &SpatialIndex)
    -> (count: usize)
    ensures
        pois_view(final(pois)@) == spec_enrich(pois_view(old(pois)@), address_index@),
        count == enriched_count(pois_view(old(pois)@), address_index@),
        enrichment_takes_nearest(pois_view(old(pois)@), address_index@),
{
    let ghost before = pois_view(pois@);
    let mut count: usize = 0;
    let mut i: usize = 0;
    while i < pois.len()
        invariant
            i <= pois.len(),
            pois.len() == before.len(),
            count == enriched_count(before.take(i as int), address_index@),
            forall|j: int| 0 <= j < i ==> (#[trigger] pois[j])@ == enriched(before[j], address_index@),
            forall|j: int| i <= j < pois.len() ==> (#[trigger] pois[j])@ == before[j],
            enrichment_takes_nearest(before.take(i as int), address_index@),
        decreases pois.len() - i,
    {
        proof {
            assert(before.take(i + 1).drop_last() =~= before.take(i as int));
            lemma_enriched_count_bound(before.take(i as int), address_index@);
        }
        let touched = enrich_poi(&mut pois[i], address_index);
        if touched {
            count = count + 1;
        }
        i = i + 1;
    }
    proof {
        assert(before.take(i as int) =~= before);
    }
    count
}

} // verus!
