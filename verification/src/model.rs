//! The records that extraction produces.

use vstd::prelude::*;

verus! {

/// The kind of element that a point of interest was read from. Identifiers
/// are unique within a kind only.
#[derive(Clone, Copy, Debug, PartialEq, Eq, Structural)]
pub enum OriginKind {
    Node,
    Way,
}

impl OriginKind {
    /// The kind's name in exports: `node` or `way`.
    pub fn as_str(&self) -> (name: &'static str)
        ensures
            name@ == match *self {
                OriginKind::Node => "node"@,
                OriginKind::Way => "way"@,
            },
    {
        match self {
            OriginKind::Node => "node",
            OriginKind::Way => "way",
        }
    }
}

/// A classified place, read from a node or from a way.
#[derive(Clone, Debug, PartialEq, Eq)]
pub struct PointOfInterest {
    pub id: i64,
    pub name: String,
    pub category: String,
    pub subcategory: String,
    pub latitude: i32,
    pub longitude: i32,
    pub housenumber: String,
    pub city: String,
    pub street: String,
    pub osm_type: OriginKind,
}

/// A point of interest as plain values.
pub struct PoiView {
    pub id: i64,
    pub name: Seq<char>,
    pub category: Seq<char>,
    pub subcategory: Seq<char>,
    pub latitude: i32,
    pub longitude: i32,
    pub housenumber: Seq<char>,
    pub city: Seq<char>,
    pub street: Seq<char>,
    pub osm_type: OriginKind,
}

impl View for PointOfInterest {
    type V = PoiView;

    open spec fn view(&self) -> PoiView {
        PoiView {
            id: self.id,
            name: self.name@,
            category: self.category@,
            subcategory: self.subcategory@,
            latitude: self.latitude,
            longitude: self.longitude,
            housenumber: self.housenumber@,
            city: self.city@,
            street: self.street@,
            osm_type: self.osm_type,
        }
    }
}

/// The points of interest of a list, in order.
pub open spec fn pois_view(pois: Seq<PointOfInterest>) -> Seq<PoiView> {
    pois.map_values(|p: PointOfInterest| p@)
}

/// A street address, read from a node.
#[derive(Clone, Debug, PartialEq, Eq)]
pub struct Address {
    pub id: i64,
    pub housenumber: String,
    pub street: String,
    pub city: String,
    pub postcode: String,
    pub suburb: String,
    pub place: String,
    pub latitude: i32,
    pub longitude: i32,
    pub full_address: String,
}

/// An address as plain values.
pub struct AddressView {
    pub id: i64,
    pub housenumber: Seq<char>,
    pub street: Seq<char>,
    pub city: Seq<char>,
    pub postcode: Seq<char>,
    pub suburb: Seq<char>,
    pub place: Seq<char>,
    pub latitude: i32,
    pub longitude: i32,
    pub full_address: Seq<char>,
}

impl View for Address {
    type V = AddressView;

    open spec fn view(&self) -> AddressView {
        AddressView {
            id: self.id,
            housenumber: self.housenumber@,
            street: self.street@,
            city: self.city@,
            postcode: self.postcode@,
            suburb: self.suburb@,
            place: self.place@,
            latitude: self.latitude,
            longitude: self.longitude,
            full_address: self.full_address@,
        }
    }
}

/// The addresses of a list, in order.
pub open spec fn addresses_view(addresses: Seq<Address>) -> Seq<AddressView> {
    addresses.map_values(|a: Address| a@)
}

/// An address with house number and street, placed for nearest-neighbour
/// search.
#[derive(Clone, Debug, PartialEq, Eq)]
pub struct AddressPoint {
    pub housenumber: String,
    pub street: String,
    pub city: String,
    pub longitude: i32,
    pub latitude: i32,
}

/// An address point as plain values.
pub struct AddressPointView {
    pub housenumber: Seq<char>,
    pub street: Seq<char>,
    pub city: Seq<char>,
    pub longitude: i32,
    pub latitude: i32,
}

impl View for AddressPoint {
    type V = AddressPointView;

    open spec fn view(&self) -> AddressPointView {
        AddressPointView {
            housenumber: self.housenumber@,
            street: self.street@,
            city: self.city@,
            longitude: self.longitude,
            latitude: self.latitude,
        }
    }
}

/// The address points of a list, in order.
pub open spec fn points_view(points: Seq<AddressPoint>) -> Seq<AddressPointView> {
    points.map_values(|p: AddressPoint| p@)
}

} // verus!
