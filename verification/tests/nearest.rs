use osm_extract::model::AddressPoint;
use osm_extract::spatial::{find_nearest_address, SpatialIndex};

fn point(number: &str, street: &str, city: &str, lon: i32, lat: i32) -> AddressPoint {
    AddressPoint {
        housenumber: number.to_string(),
        street: street.to_string(),
        city: city.to_string(),
        longitude: lon,
        latitude: lat,
    }
}

fn triple(number: &str, street: &str, city: &str) -> Option<(String, String, String)> {
    Some((number.to_string(), street.to_string(), city.to_string()))
}

fn distance_2(lon_a: i32, lat_a: i32, lon_b: i32, lat_b: i32) -> i128 {
    let dx = lon_a as i128 - lon_b as i128;
    let dy = lat_a as i128 - lat_b as i128;
    dx * dx + dy * dy
}

#[test]
fn empty_index_finds_nothing() {
    let index = SpatialIndex::new();
    assert_eq!(index.len(), 0);
    assert!(index.nearest(0, 0).is_none());
    assert_eq!(find_nearest_address(&index, 0, 0), None);
    assert_eq!(find_nearest_address(&index, i32::MAX, i32::MIN), None);
}

#[test]
fn single_point_is_nearest_to_everything() {
    let mut index = SpatialIndex::new();
    index.insert(point("5", "Oak Ave", "Springfield", 100_000_000, 200_000_000));
    assert_eq!(index.len(), 1);
    assert_eq!(
        find_nearest_address(&index, 200_000_000, 100_000_000),
        triple("5", "Oak Ave", "Springfield")
    );
    assert_eq!(find_nearest_address(&index, -900_000_000, 1_800_000_000), triple("5", "Oak Ave", "Springfield"));
    assert_eq!(find_nearest_address(&index, i32::MIN, i32::MIN), triple("5", "Oak Ave", "Springfield"));
}

#[test]
fn nearest_takes_latitude_before_longitude() {
    let mut index = SpatialIndex::new();
    index.insert(point("1", "East", "", 1000, 0));
    index.insert(point("2", "North", "", 0, 1000));
    // find_nearest_address is asked with (lat, lon), the index with (lon, lat).
    assert_eq!(find_nearest_address(&index, 0, 900), triple("1", "East", ""));
    assert_eq!(find_nearest_address(&index, 900, 0), triple("2", "North", ""));
    assert_eq!(index.nearest(900, 0).unwrap().street, "East");
    assert_eq!(index.nearest(0, 900).unwrap().street, "North");
}

#[test]
fn nearest_goes_by_squared_distance_on_raw_coordinates() {
    let mut index = SpatialIndex::new();
    index.insert(point("a", "A", "", 30, 40)); // squared distance 2500 from the origin
    index.insert(point("b", "B", "", 0, 51)); // 2601
    index.insert(point("c", "C", "", -49, 0)); // 2401
    assert_eq!(index.nearest(0, 0).unwrap().housenumber, "c");
    assert_eq!(index.nearest(0, 50).unwrap().housenumber, "b");
    assert_eq!(index.nearest(25, 35).unwrap().housenumber, "a");
}

#[test]
fn nearest_returns_the_record_that_was_inserted() {
    let mut index = SpatialIndex::new();
    for k in 0..50 {
        index.insert(point(&format!("{}", k), &format!("Street {}", k), &format!("City {}", k), k * 10, -k * 10));
    }
    assert_eq!(index.len(), 50);
    for k in 0..50 {
        let found = index.nearest(k * 10 + 1, -k * 10 - 1).unwrap();
        assert_eq!(found.housenumber, format!("{}", k));
        assert_eq!(found.street, format!("Street {}", k));
        assert_eq!(found.city, format!("City {}", k));
        assert_eq!(found.longitude, k * 10);
        assert_eq!(found.latitude, -k * 10);
    }
}

#[test]
fn equal_points_are_both_kept() {
    let mut index = SpatialIndex::new();
    index.insert(point("1", "Twin", "", 7, 7));
    index.insert(point("2", "Twin", "", 7, 7));
    assert_eq!(index.len(), 2);
    let found = index.nearest(0, 0).unwrap();
    assert_eq!(found.street, "Twin");
    assert!(found.housenumber == "1" || found.housenumber == "2");
}

#[test]
fn nearest_is_never_beaten_by_another_point() {
    let mut seed: u64 = 0x9e37_79b9_7f4a_7c15;
    let mut next = move || {
        seed ^= seed << 13;
        seed ^= seed >> 7;
        seed ^= seed << 17;
        seed
    };
    let mut index = SpatialIndex::new();
    let mut points: Vec<(i32, i32)> = Vec::new();
    for k in 0..600 {
        let (lon, lat): (i64, i64) = match k % 4 {
            0 => ((next() as i32) as i64, (next() as i32) as i64),
            1 => ((next() % 2000) as i64 - 1000, (next() % 2000) as i64 - 1000),
            2 => (
                (next() % 3_600_000_000) as i64 - 1_800_000_000,
                (next() % 1_800_000_000) as i64 - 900_000_000,
            ),
            _ => ((next() % 7) as i64 - 3, (next() % 7) as i64 - 3),
        };
        let (lon, lat) = (lon as i32, lat as i32);
        index.insert(point(&format!("{}", k), "S", "", lon, lat));
        points.push((lon, lat));
        if k % 10 == 9 {
            for _ in 0..20 {
                let (qlon, qlat) = if next() % 2 == 0 {
                    (next() as i32, next() as i32)
                } else {
                    ((next() % 40) as i32 - 20, (next() % 40) as i32 - 20)
                };
                let found = index.nearest(qlon, qlat).unwrap();
                let slot: usize = found.housenumber.parse().unwrap();
                assert_eq!(points[slot], (found.longitude, found.latitude));
                let best = points
                    .iter()
                    .map(|p| distance_2(p.0, p.1, qlon, qlat))
                    .min()
                    .unwrap();
                assert_eq!(distance_2(found.longitude, found.latitude, qlon, qlat), best);
            }
        }
    }
}

#[test]
fn nearest_at_the_corners_of_the_range() {
    let mut index = SpatialIndex::new();
    let corners = [
        (i32::MIN, i32::MIN),
        (i32::MIN, i32::MAX),
        (i32::MAX, i32::MIN),
        (i32::MAX, i32::MAX),
    ];
    for round in 0..5 {
        for (k, (lon, lat)) in corners.iter().enumerate() {
            index.insert(point(&format!("{}", k), "Corner", "", *lon, *lat));
            index.insert(point("origin", "Middle", "", round, -round));
        }
    }
    for (k, (lon, lat)) in corners.iter().enumerate() {
        assert_eq!(index.nearest(*lon, *lat).unwrap().housenumber, format!("{}", k));
        assert_eq!(index.nearest(lon / 2 + lon / 4, lat / 2 + lat / 4).unwrap().housenumber, format!("{}", k));
    }
    assert_eq!(index.nearest(0, 0).unwrap().street, "Middle");
}
