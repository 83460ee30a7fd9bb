//! A parsed address with one field for each label.
use vstd::prelude::*;
use vstd::string::*;
use vstd::utf8::{decode_utf8, encode_utf8, encode_utf8_decode_utf8};

use crate::address::{folded, token_of, AddressParserResponse};

verus! {

/// A parsed address: for each label that the parser knows, the token that
/// was parsed for it, if any.
#[derive(Clone, Debug, Hash, Eq, PartialEq, Ord, PartialOrd)]
pub struct ParsedAddress {
    pub house: Option<String>,
    pub house_number: Option<String>,
    pub po_box: Option<String>,
    pub building: Option<String>,
    pub entrance: Option<String>,
    pub staircase: Option<String>,
    pub level: Option<String>,
    pub unit: Option<String>,
    pub road: Option<String>,
    pub metro_station: Option<String>,
    pub suburb: Option<String>,
    pub city_district: Option<String>,
    pub city: Option<String>,
    pub state_district: Option<String>,
    pub island: Option<String>,
    pub state: Option<String>,
    pub postal_code: Option<String>,
    pub country_region: Option<String>,
    pub country: Option<String>,
    pub world_region: Option<String>,
    pub website: Option<String>,
    pub telephone: Option<String>,
}

/// Whether two texts are the same, byte for byte.
fn same_text(left: &str, right: &str) -> (same: bool)
    ensures
        same == (left@ == right@),
{
    let a = left.as_bytes();
    let b = right.as_bytes();
    proof {
        encode_utf8_decode_utf8(left@);
        encode_utf8_decode_utf8(right@);
    }
    if a.len() != b.len() {
        return false;
    }
    let mut i: usize = 0;
    while i < a.len()
        invariant
            i <= a@.len(),
            a@.len() == b@.len(),
            a@ == encode_utf8(left@),
            b@ == encode_utf8(right@),
            forall|j: int| 0 <= j < i ==> a@[j] == b@[j],
        decreases a@.len() - i,
    {
        if a[i] != b[i] {
            return false;
        }
        i += 1;
    }
    assert(a@ =~= b@);
    assert(decode_utf8(a@) == left@);
    assert(decode_utf8(b@) == right@);
    true
}

/// Sets `slot` to a copy of `token` where `label` is `key`, and leaves it
/// as it is where it is not.
fn pick(label: &String, key: &str, token: &String, slot: &mut Option<String>)
    ensures
        final(slot).deep_view() == if label@ == key@ {
            Some(token@)
        } else {
            old(slot).deep_view()
        },
{
    if same_text(label.as_str(), key) {
        *slot = Some(token.clone());
    }
}

impl ParsedAddress {
    /// Whether each field holds the token that `fields` has for its label.
    /// The field `postal_code` goes by the label `postcode`, and the field
    /// `telephone` by the label `phone`.
    pub open spec fn reads(&self, fields: Map<Seq<char>, Seq<char>>) -> bool {
        &&& self.house.deep_view() == token_of(fields, "house"@)
        &&& self.house_number.deep_view() == token_of(fields, "house_number"@)
        &&& self.po_box.deep_view() == token_of(fields, "po_box"@)
        &&& self.building.deep_view() == token_of(fields, "building"@)
        &&& self.entrance.deep_view() == token_of(fields, "entrance"@)
        &&& self.staircase.deep_view() == token_of(fields, "staircase"@)
        &&& self.level.deep_view() == token_of(fields, "level"@)
        &&& self.unit.deep_view() == token_of(fields, "unit"@)
        &&& self.road.deep_view() == token_of(fields, "road"@)
        &&& self.metro_station.deep_view() == token_of(fields, "metro_station"@)
        &&& self.suburb.deep_view() == token_of(fields, "suburb"@)
        &&& self.city_district.deep_view() == token_of(fields, "city_district"@)
        &&& self.city.deep_view() == token_of(fields, "city"@)
        &&& self.state_district.deep_view() == token_of(fields, "state_district"@)
        &&& self.island.deep_view() == token_of(fields, "island"@)
        &&& self.state.deep_view() == token_of(fields, "state"@)
        &&& self.postal_code.deep_view() == token_of(fields, "postcode"@)
        &&& self.country_region.deep_view() == token_of(fields, "country_region"@)
        &&& self.country.deep_view() == token_of(fields, "country"@)
        &&& self.world_region.deep_view() == token_of(fields, "world_region"@)
        &&& self.website.deep_view() == token_of(fields, "website"@)
        &&& self.telephone.deep_view() == token_of(fields, "phone"@)
    }
}

impl Default for ParsedAddress {
    fn default() -> (parsed: ParsedAddress)
        ensures
            parsed.reads(Map::empty()),
    {
        ParsedAddress {
            house: None,
            house_number: None,
            po_box: None,
            building: None,
            entrance: None,
            staircase: None,
            level: None,
            unit: None,
            road: None,
            metro_station: None,
            suburb: None,
            city_district: None,
            city: None,
            state_district: None,
            island: None,
            state: None,
            postal_code: None,
            country_region: None,
            country: None,
            world_region: None,
            website: None,
            telephone: None,
        }
    }
}

impl From<AddressParserResponse> for ParsedAddress {
    /// Reads the pairs of `response` in their order: each field ends with
    /// the token of the last pair that carries its label, and stays empty
    /// where no pair does. Pairs with any other label are passed over.
    fn from(response: AddressParserResponse) -> (parsed: ParsedAddress)
        ensures
            parsed.reads(folded(response@)),
    {
        let mut parsed = ParsedAddress::default();
        let count = response.len();
        let mut i: usize = 0;
        while i < count
            invariant
                i <= count,
                count == response@.len(),
                parsed.reads(folded(response@.take(i as int))),
            decreases count - i,
        {
            if let Some((label, token)) = response.get(i) {
                proof {
                    let pairs = response@.take(i + 1);
                    assert(pairs.drop_last() =~= response@.take(i as int));
                    assert(pairs.last() == response@[i as int]);
                }
                pick(label, "house", token, &mut parsed.house);
                pick(label, "house_number", token, &mut parsed.house_number);
                pick(label, "po_box", token, &mut parsed.po_box);
                pick(label, "building", token, &mut parsed.building);
                pick(label, "entrance", token, &mut parsed.entrance);
                pick(label, "staircase", token, &mut parsed.staircase);
                pick(label, "level", token, &mut parsed.level);
                pick(label, "unit", token, &mut parsed.unit);
                pick(label, "road", token, &mut parsed.road);
                pick(label, "metro_station", token, &mut parsed.metro_station);
                pick(label, "suburb", token, &mut parsed.suburb);
                pick(label, "city_district", token, &mut parsed.city_district);
                pick(label, "city", token, &mut parsed.city);
                pick(label, "state_district", token, &mut parsed.state_district);
                pick(label, "island", token, &mut parsed.island);
                pick(label, "state", token, &mut parsed.state);
                pick(label, "postcode", token, &mut parsed.postal_code);
                pick(label, "country_region", token, &mut parsed.country_region);
                pick(label, "country", token, &mut parsed.country);
                pick(label, "world_region", token, &mut parsed.world_region);
                pick(label, "website", token, &mut parsed.website);
                pick(label, "phone", token, &mut parsed.telephone);
            }
            i += 1;
        }
        assert(response@.take(i as int) =~= response@);
        parsed
    }
}

impl vstd::std_specs::convert::FromSpecImpl<AddressParserResponse> for ParsedAddress {
    open spec fn obeys_from_spec() -> bool {
        false
    }

    open spec fn from_spec(response: AddressParserResponse) -> ParsedAddress {
        arbitrary()
    }
}

} // verus!
