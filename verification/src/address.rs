//! Address records and the one-line form of an address.

use vstd::prelude::*;
use vstd::string::*;

use crate::model::{Address, AddressPoint, AddressPointView, AddressView};
use crate::tags::{value_or_empty, Tags};

verus! {

/// Whether `c` is white space in the sense of Unicode's `White_Space`
/// property.
pub open spec fn is_whitespace(c: char) -> bool {
    let n = c as u32;
    ||| 0x09 <= n <= 0x0D
    ||| n == 0x20
    ||| n == 0x85
    ||| n == 0xA0
    ||| n == 0x1680
    ||| 0x2000 <= n <= 0x200A
    ||| n == 0x2028
    ||| n == 0x2029
    ||| n == 0x202F
    ||| n == 0x205F
    ||| n == 0x3000
}

/// Whether `c` is dropped from the end of a one-line address: a comma or
/// white space.
pub open spec fn is_filler(c: char) -> bool {
    c == ',' || is_whitespace(c)
}

/// `s` without the commas and white space at its end.
pub open spec fn trim_end(s: Seq<char>) -> Seq<char>
    decreases s.len(),
{
    if s.len() > 0 && is_filler(s.last()) {
        trim_end(s.drop_last())
    } else {
        s
    }
}

/// A component followed by its separator, or nothing for an empty
/// component.
pub open spec fn with_separator(part: Seq<char>, separator: Seq<char>) -> Seq<char> {
    if part.len() == 0 {
        Seq::empty()
    } else {
        part + separator
    }
}

/// The components of an address in the order in which they are written:
/// house number, street, place, suburb, city, postcode.
pub open spec fn joined_address(
    housenumber: Seq<char>,
    street: Seq<char>,
    city: Seq<char>,
    postcode: Seq<char>,
    suburb: Seq<char>,
    place: Seq<char>,
) -> Seq<char> {
    with_separator(housenumber, seq![' ']) + with_separator(street, seq![',', ' '])
        + with_separator(place, seq![',', ' ']) + with_separator(suburb, seq![',', ' '])
        + with_separator(city, seq![' ']) + postcode
}

/// The one-line form of an address: its non-empty components, each
/// followed by its separator, without commas and white space at the end.
pub open spec fn spec_full_address(
    housenumber: Seq<char>,
    street: Seq<char>,
    city: Seq<char>,
    postcode: Seq<char>,
    suburb: Seq<char>,
    place: Seq<char>,
) -> Seq<char> {
    trim_end(joined_address(housenumber, street, city, postcode, suburb, place))
}

/// `trim_end` gives a prefix of its argument that ends in no filler, and
/// drops fillers only.
pub proof fn lemma_trim_end(s: Seq<char>)
    ensures
        trim_end(s).len() <= s.len(),
        trim_end(s) == s.take(trim_end(s).len() as int),
        trim_end(s).len() > 0 ==> !is_filler(trim_end(s).last()),
        forall|i: int| trim_end(s).len() <= i < s.len() ==> is_filler(s[i]),
    decreases s.len(),
{
    if s.len() > 0 && is_filler(s.last()) {
        let shorter = s.drop_last();
        lemma_trim_end(shorter);
        assert(shorter.take(trim_end(shorter).len() as int) =~= s.take(
            trim_end(shorter).len() as int,
        ));
        assert forall|i: int| trim_end(s).len() <= i < s.len() implies is_filler(s[i]) by {
            if i < shorter.len() {
                assert(shorter[i] == s[i]);
            }
        }
    }
}

fn char_is_whitespace(c: char) -> (yes: bool)
    ensures
        yes == is_whitespace(c),
{
    let n: u32 = c as u32;
    (0x09 <= n && n <= 0x0D) || n == 0x20 || n == 0x85 || n == 0xA0 || n == 0x1680 || (0x2000 <= n
        && n <= 0x200A) || n == 0x2028 || n == 0x2029 || n == 0x202F || n == 0x205F || n == 0x3000
}

fn char_is_filler(c: char) -> (yes: bool)
    ensures
        yes == is_filler(c),
{
    c == ',' || char_is_whitespace(c)
}

/// `s` without the commas and white space at its end.
pub fn trim_trailing(s: &str) -> (out: String)
    ensures
        out@ == trim_end(s@),
{
    let mut end: usize = s.unicode_len();
    assert(s@.take(end as int) =~= s@);
    while end > 0 && char_is_filler(s.get_char(end - 1))
        invariant
            end <= s@.len(),
            trim_end(s@) == trim_end(s@.take(end as int)),
        decreases end,
    {
        assert(s@.take(end as int).drop_last() =~= s@.take(end - 1));
        end = end - 1;
    }
    String::from_str(s.substring_char(0, end))
}

/// Appends `part` and `separator` to `line` unless `part` is empty.
fn push_part(line: &mut String, part: &str, separator: &str)
    ensures
        final(line)@ == old(line)@ + with_separator(part@, separator@),
{
    if !part.is_empty() {
        line.append(part);
        line.append(separator);
    }
}

/// The one-line form of an address.
pub fn format_full_address(
    housenumber: &str,
    street: &str,
    city: &str,
    postcode: &str,
    suburb: &str,
    place: &str,
) -> (line: String)
    ensures
        line@ == spec_full_address(housenumber@, street@, city@, postcode@, suburb@, place@),
{
    proof {
        reveal_strlit(" ");
        reveal_strlit(", ");
    }
    let mut line = String::new();
    push_part(&mut line, housenumber, " ");
    push_part(&mut line, street, ", ");
    push_part(&mut line, place, ", ");
    push_part(&mut line, suburb, ", ");
    push_part(&mut line, city, " ");
    line.append(postcode);
    assert(line@ =~= joined_address(housenumber@, street@, city@, postcode@, suburb@, place@));
    trim_trailing(line.as_str())
}

/// Whether a node with these tags has an address: it carries a house
/// number or a street.
pub open spec fn has_address(tags: Map<Seq<char>, Seq<char>>) -> bool {
    tags.contains_key("addr:housenumber"@) || tags.contains_key("addr:street"@)
}

/// The address of a node with the given identifier, position and tags.
pub open spec fn spec_node_address(id: i64, lat: i32, lon: i32, tags: Map<Seq<char>, Seq<char>>)
    -> Option<AddressView> {
    if has_address(tags) {
        let housenumber = value_or_empty(tags, "addr:housenumber"@);
        let street = value_or_empty(tags, "addr:street"@);
        let city = value_or_empty(tags, "addr:city"@);
        let postcode = value_or_empty(tags, "addr:postcode"@);
        let suburb = value_or_empty(tags, "addr:suburb"@);
        let place = value_or_empty(tags, "addr:place"@);
        Some(
            AddressView {
                id,
                housenumber,
                street,
                city,
                postcode,
                suburb,
                place,
                latitude: lat,
                longitude: lon,
                full_address: spec_full_address(housenumber, street, city, postcode, suburb, place),
            },
        )
    } else {
        None
    }
}

/// The point under which an address is found again by position: present
/// where the address has both a house number and a street.
pub open spec fn spec_address_point(address: AddressView) -> Option<AddressPointView> {
    if address.street.len() > 0 && address.housenumber.len() > 0 {
        Some(
            AddressPointView {
                housenumber: address.housenumber,
                street: address.street,
                city: address.city,
                longitude: address.longitude,
                latitude: address.latitude,
            },
        )
    } else {
        None
    }
}

/// A node has an address exactly when it carries a house number or a
/// street; a postcode, a city, a suburb or a place alone make none.
pub proof fn lemma_address_needs_number_or_street(
    id: i64,
    lat: i32,
    lon: i32,
    tags: Map<Seq<char>, Seq<char>>,
)
    ensures
        spec_node_address(id, lat, lon, tags) is Some <==> tags.contains_key("addr:housenumber"@)
            || tags.contains_key("addr:street"@),
{
}

/// The one-line form of an address ends in neither a comma nor white
/// space, and is the start of the joined components.
pub proof fn lemma_full_address_trimmed(
    housenumber: Seq<char>,
    street: Seq<char>,
    city: Seq<char>,
    postcode: Seq<char>,
    suburb: Seq<char>,
    place: Seq<char>,
)
    ensures
        ({
            let line = spec_full_address(housenumber, street, city, postcode, suburb, place);
            let joined = joined_address(housenumber, street, city, postcode, suburb, place);
            &&& line.len() <= joined.len()
            &&& line == joined.take(line.len() as int)
            &&& line.len() > 0 ==> !is_filler(line.last())
            &&& forall|i: int| line.len() <= i < joined.len() ==> is_filler(joined[i])
        }),
{
    lemma_trim_end(joined_address(housenumber, street, city, postcode, suburb, place));
}

/// The view of an optional address.
pub open spec fn address_option_view(address: Option<Address>) -> Option<AddressView> {
    match address {
        Some(a) => Some(a@),
        None => None,
    }
}

/// The view of an optional address point.
pub open spec fn point_option_view(point: Option<AddressPoint>) -> Option<AddressPointView> {
    match point {
        Some(p) => Some(p@),
        None => None,
    }
}

/// The address of a node, where its tags carry a house number or a street.
pub fn address_from_tags(node_id: i64, lat: i32, lon: i32, tags: &Tags) -> (address: Option<
    Address,
>)
    ensures
        address_option_view(address) == spec_node_address(node_id, lat, lon, tags@),
{
    if tags.contains_key("addr:housenumber") || tags.contains_key("addr:street") {
        let housenumber = tags.get_or_empty("addr:housenumber");
        let street = tags.get_or_empty("addr:street");
        let city = tags.get_or_empty("addr:city");
        let postcode = tags.get_or_empty("addr:postcode");
        let suburb = tags.get_or_empty("addr:suburb");
        let place = tags.get_or_empty("addr:place");
        let full_address = format_full_address(
            housenumber.as_str(),
            street.as_str(),
            city.as_str(),
            postcode.as_str(),
            suburb.as_str(),
            place.as_str(),
        );
        Some(
            Address {
                id: node_id,
                housenumber,
                street,
                city,
                postcode,
                suburb,
                place,
                latitude: lat,
                longitude: lon,
                full_address,
            },
        )
    } else {
        None
    }
}

/// The point to index for an address, where it has both a house number and
/// a street.
pub fn address_point_of(address: &Address) -> (point: Option<AddressPoint>)
    ensures
        point_option_view(point) == spec_address_point(address@),
{
    if !address.street.as_str().is_empty() && !address.housenumber.as_str().is_empty() {
        Some(
            AddressPoint {
                housenumber: address.housenumber.clone(),
                street: address.street.clone(),
                city: address.city.clone(),
                longitude: address.longitude,
                latitude: address.latitude,
            },
        )
    } else {
        None
    }
}

} // verus!
