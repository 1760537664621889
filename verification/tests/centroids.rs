use osm_extract::coords::{centroid, CoordinateIndex};

fn index_of(nodes: &[(i64, i32, i32)]) -> CoordinateIndex {
    let mut index = CoordinateIndex::new();
    for (id, lat, lon) in nodes {
        index.insert(*id, *lat, *lon);
    }
    index
}

#[test]
fn coordinate_index_remembers_positions() {
    let index = index_of(&[(1, 10, 20), (2, -30, 40)]);
    assert_eq!(index.len(), 2);
    assert_eq!(index.get(1), Some((10, 20)));
    assert_eq!(index.get(2), Some((-30, 40)));
    assert_eq!(index.get(3), None);
    assert_eq!(CoordinateIndex::new().len(), 0);
}

#[test]
fn later_position_replaces_earlier_position() {
    let index = index_of(&[(1, 10, 20), (1, 11, 21)]);
    assert_eq!(index.len(), 1);
    assert_eq!(index.get(1), Some((11, 21)));
}

#[test]
fn centroid_of_three_nodes() {
    // (lon, lat) pairs (0,0), (2,0), (1,3): the centre is (1,1).
    let index = index_of(&[(1, 0, 0), (2, 0, 2), (3, 3, 1)]);
    assert_eq!(centroid(&vec![1, 2, 3], &index), Some((1, 1)));
}

#[test]
fn centroid_of_three_nodes_in_degrees() {
    let index = index_of(&[(1, 0, 0), (2, 0, 20_000_000), (3, 30_000_000, 10_000_000)]);
    assert_eq!(centroid(&vec![1, 2, 3], &index), Some((10_000_000, 10_000_000)));
}

#[test]
fn centroid_without_known_nodes_is_missing() {
    let index = index_of(&[(1, 5, 5)]);
    assert_eq!(centroid(&vec![], &index), None);
    assert_eq!(centroid(&vec![2, 3, 4], &index), None);
    assert_eq!(centroid(&vec![1], &CoordinateIndex::new()), None);
}

#[test]
fn centroid_passes_over_unknown_nodes() {
    let index = index_of(&[(1, 10, 100), (2, 30, 300)]);
    assert_eq!(centroid(&vec![9, 1, 8, 2, 7], &index), Some((20, 200)));
    assert_eq!(centroid(&vec![9, 2], &index), Some((30, 300)));
}

#[test]
fn centroid_counts_a_node_as_often_as_it_is_referenced() {
    let index = index_of(&[(1, 0, 0), (2, 30, 90)]);
    assert_eq!(centroid(&vec![1, 2, 1], &index), Some((10, 30)));
}

#[test]
fn centroid_rounds_down() {
    let index = index_of(&[(1, 0, 0), (2, 1, 3), (3, -1, -3), (4, 0, -4)]);
    assert_eq!(centroid(&vec![1, 2], &index), Some((0, 1)));
    assert_eq!(centroid(&vec![1, 3], &index), Some((-1, -2)));
    assert_eq!(centroid(&vec![3, 4], &index), Some((-1, -4)));
    assert_eq!(centroid(&vec![1, 2, 2], &index), Some((0, 2)));
    assert_eq!(centroid(&vec![1, 3, 3], &index), Some((-1, -2)));
}

#[test]
fn centroid_at_the_ends_of_the_range() {
    let index = index_of(&[
        (1, i32::MAX, i32::MIN),
        (2, i32::MAX, i32::MIN),
        (3, i32::MIN, i32::MAX),
        (4, i32::MAX - 1, i32::MIN + 1),
    ]);
    assert_eq!(centroid(&vec![1, 2], &index), Some((i32::MAX, i32::MIN)));
    assert_eq!(centroid(&vec![1, 3], &index), Some((-1, -1)));
    assert_eq!(centroid(&vec![1, 4], &index), Some((i32::MAX - 1, i32::MIN)));
    assert_eq!(centroid(&vec![1; 1000], &index), Some((i32::MAX, i32::MIN)));
    assert_eq!(centroid(&vec![3; 1000], &index), Some((i32::MIN, i32::MAX)));
}

#[test]
fn centroid_is_the_floor_of_the_mean() {
    let mut seed: u64 = 0x2545_f491_4f6c_dd1d;
    let mut next = move || {
        seed ^= seed << 13;
        seed ^= seed >> 7;
        seed ^= seed << 17;
        seed
    };
    for round in 0..200 {
        let n = 1 + (next() % 9) as usize;
        let mut index = CoordinateIndex::new();
        let mut refs = Vec::new();
        let mut lat_sum: i128 = 0;
        let mut lon_sum: i128 = 0;
        for k in 0..n {
            let lat = next() as i32;
            let lon = next() as i32;
            let id = (round * 100 + k) as i64;
            index.insert(id, lat, lon);
            refs.push(id);
            refs.push(-1 - id);
            lat_sum += lat as i128;
            lon_sum += lon as i128;
        }
        let expected = (
            lat_sum.div_euclid(n as i128) as i32,
            lon_sum.div_euclid(n as i128) as i32,
        );
        assert_eq!(centroid(&refs, &index), Some(expected));
    }
}
