use osm_extract::address::{
    address_from_tags, address_point_of, format_full_address, trim_trailing,
};
use osm_extract::tags::Tags;

fn tags_of(pairs: &[(&str, &str)]) -> Tags {
    Tags::from_pairs(pairs.iter().map(|(k, v)| (k.to_string(), v.to_string())).collect())
}

#[test]
fn full_address_of_number_street_city() {
    assert_eq!(
        format_full_address("12", "Main St", "Springfield", "", "", ""),
        "12 Main St, Springfield"
    );
}

#[test]
fn full_address_with_every_component() {
    assert_eq!(
        format_full_address("12", "Main St", "Springfield", "A1B 2C3", "Northside", "The Mews"),
        "12 Main St, The Mews, Northside, Springfield A1B 2C3"
    );
}

#[test]
fn full_address_of_nothing_is_empty() {
    assert_eq!(format_full_address("", "", "", "", "", ""), "");
}

#[test]
fn full_address_drops_the_separator_at_the_end() {
    assert_eq!(format_full_address("12", "Main St", "", "", "", ""), "12 Main St");
    assert_eq!(format_full_address("", "Main St", "", "", "", ""), "Main St");
    assert_eq!(format_full_address("12", "", "", "", "", ""), "12");
    assert_eq!(format_full_address("", "", "", "", "Northside", ""), "Northside");
    assert_eq!(format_full_address("", "", "", "", "", "The Mews"), "The Mews");
    assert_eq!(format_full_address("", "", "Springfield", "", "", ""), "Springfield");
}

#[test]
fn full_address_of_single_components() {
    assert_eq!(format_full_address("", "", "", "A1B 2C3", "", ""), "A1B 2C3");
    assert_eq!(format_full_address("", "Main St", "Springfield", "", "", ""), "Main St, Springfield");
    assert_eq!(format_full_address("7", "", "", "90210", "", ""), "7 90210");
    assert_eq!(format_full_address("", "", "Springfield", "90210", "", ""), "Springfield 90210");
}

#[test]
fn full_address_drops_commas_and_space_of_the_last_component() {
    assert_eq!(format_full_address("", "", "", "90210 ,, ", "", ""), "90210");
    assert_eq!(format_full_address("", "Main St\t", "", "", "", ""), "Main St");
    assert_eq!(format_full_address(" ", "", "", "", "", ""), "");
}

#[test]
fn full_address_keeps_what_stands_before_the_end() {
    assert_eq!(format_full_address(" 12", "Main St", "", "", "", ""), " 12 Main St");
    assert_eq!(format_full_address("12,", "Main  St", "", "", "", "X"), "12, Main  St, X");
}

#[test]
fn trim_trailing_drops_commas_and_white_space() {
    assert_eq!(trim_trailing(""), "");
    assert_eq!(trim_trailing("abc"), "abc");
    assert_eq!(trim_trailing("abc, "), "abc");
    assert_eq!(trim_trailing("abc , ,\n\t\r "), "abc");
    assert_eq!(trim_trailing(", , "), "");
    assert_eq!(trim_trailing("  abc"), "  abc");
    assert_eq!(trim_trailing("a, b"), "a, b");
}

#[test]
fn trim_trailing_knows_unicode_white_space() {
    for c in [
        '\u{9}', '\u{a}', '\u{b}', '\u{c}', '\u{d}', '\u{20}', '\u{85}', '\u{a0}', '\u{1680}',
        '\u{2000}', '\u{2005}', '\u{200a}', '\u{2028}', '\u{2029}', '\u{202f}', '\u{205f}',
        '\u{3000}',
    ] {
        assert!(c.is_whitespace());
        assert_eq!(trim_trailing(&format!("caf\u{e9}{}", c)), "caf\u{e9}");
    }
    for c in ['\u{8}', '\u{e}', '\u{1f}', '\u{200b}', '\u{2060}', '\u{feff}', '.', ';', '\u{3001}'] {
        assert!(!c.is_whitespace());
        let s = format!("caf\u{e9}{}", c);
        assert_eq!(trim_trailing(&s), s);
    }
}

#[test]
fn trim_trailing_agrees_with_std_on_every_char() {
    for n in 0..=0x10ffffu32 {
        if let Some(c) = char::from_u32(n) {
            let s = format!("x{}", c);
            let kept = trim_trailing(&s) == s;
            assert_eq!(kept, !(c.is_whitespace() || c == ','), "char {:x}", n);
        }
    }
}

#[test]
fn address_needs_house_number_or_street() {
    assert!(address_from_tags(1, 0, 0, &tags_of(&[("addr:postcode", "12345")])).is_none());
    assert!(address_from_tags(1, 0, 0, &tags_of(&[("addr:city", "Springfield")])).is_none());
    assert!(address_from_tags(
        1,
        0,
        0,
        &tags_of(&[("addr:suburb", "a"), ("addr:place", "b"), ("amenity", "cafe")])
    )
    .is_none());
    assert!(address_from_tags(1, 0, 0, &tags_of(&[])).is_none());
    assert!(address_from_tags(1, 0, 0, &tags_of(&[("addr:housenumber", "5")])).is_some());
    assert!(address_from_tags(1, 0, 0, &tags_of(&[("addr:street", "Oak Ave")])).is_some());
}

#[test]
fn address_copies_the_tags() {
    let tags = tags_of(&[
        ("addr:housenumber", "12"),
        ("addr:street", "Main St"),
        ("addr:city", "Springfield"),
        ("addr:postcode", "A1B 2C3"),
        ("addr:suburb", "Northside"),
        ("addr:place", "The Mews"),
        ("name", "ignored"),
    ]);
    let a = address_from_tags(77, 430_000_000, -790_000_000, &tags).unwrap();
    assert_eq!(a.id, 77);
    assert_eq!(a.housenumber, "12");
    assert_eq!(a.street, "Main St");
    assert_eq!(a.city, "Springfield");
    assert_eq!(a.postcode, "A1B 2C3");
    assert_eq!(a.suburb, "Northside");
    assert_eq!(a.place, "The Mews");
    assert_eq!(a.latitude, 430_000_000);
    assert_eq!(a.longitude, -790_000_000);
    assert_eq!(a.full_address, "12 Main St, The Mews, Northside, Springfield A1B 2C3");
}

#[test]
fn address_fields_default_to_empty() {
    let a = address_from_tags(1, 2, 3, &tags_of(&[("addr:street", "Oak Ave")])).unwrap();
    assert_eq!(a.housenumber, "");
    assert_eq!(a.street, "Oak Ave");
    assert_eq!(a.city, "");
    assert_eq!(a.postcode, "");
    assert_eq!(a.suburb, "");
    assert_eq!(a.place, "");
    assert_eq!(a.full_address, "Oak Ave");
}

#[test]
fn address_with_empty_street_tag_is_still_an_address() {
    let a = address_from_tags(1, 2, 3, &tags_of(&[("addr:street", "")])).unwrap();
    assert_eq!(a.full_address, "");
    assert!(address_point_of(&a).is_none());
}

#[test]
fn address_point_needs_number_and_street() {
    let both = address_from_tags(
        1,
        20,
        10,
        &tags_of(&[("addr:housenumber", "5"), ("addr:street", "Oak Ave"), ("addr:city", "X")]),
    )
    .unwrap();
    let p = address_point_of(&both).unwrap();
    assert_eq!(p.housenumber, "5");
    assert_eq!(p.street, "Oak Ave");
    assert_eq!(p.city, "X");
    assert_eq!(p.latitude, 20);
    assert_eq!(p.longitude, 10);

    let number_only = address_from_tags(1, 0, 0, &tags_of(&[("addr:housenumber", "5")])).unwrap();
    assert!(address_point_of(&number_only).is_none());
    let street_only = address_from_tags(1, 0, 0, &tags_of(&[("addr:street", "Oak Ave")])).unwrap();
    assert!(address_point_of(&street_only).is_none());
    let empty_number = address_from_tags(
        1,
        0,
        0,
        &tags_of(&[("addr:housenumber", ""), ("addr:street", "Oak Ave")]),
    )
    .unwrap();
    assert!(address_point_of(&empty_number).is_none());
}
