//! Extraction of points of interest and street addresses from tagged map
//! elements, with nearest-address enrichment.
//!
//! Coordinates are whole numbers of 1e-7 degrees throughout.

pub mod address;
pub mod category;
pub mod coords;
pub mod enrich;
pub mod model;
pub mod pipeline;
pub mod poi;
pub mod spatial;
pub mod tags;
