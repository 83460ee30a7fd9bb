use rustpostal::address::AddressParserResponse;
use rustpostal::ffi::libpostal_address_parser_response;
use rustpostal::parsed_address::ParsedAddress;

fn response(pairs: &[(&str, &str)]) -> AddressParserResponse {
    AddressParserResponse::from_native(&Some(libpostal_address_parser_response {
        num_components: pairs.len(),
        components: pairs.iter().map(|(_, token)| token.to_string()).collect(),
        labels: pairs.iter().map(|(label, _)| label.to_string()).collect(),
    }))
}

#[test]
fn parsed_address_test_parsed_address_default() {
    let parsed_address = ParsedAddress::default();
    assert_eq!(parsed_address.house, None);
    assert_eq!(parsed_address.house_number, None);
    assert_eq!(parsed_address.po_box, None);
    assert_eq!(parsed_address.building, None);
    assert_eq!(parsed_address.entrance, None);
    assert_eq!(parsed_address.staircase, None);
    assert_eq!(parsed_address.level, None);
    assert_eq!(parsed_address.unit, None);
    assert_eq!(parsed_address.road, None);
    assert_eq!(parsed_address.metro_station, None);
    assert_eq!(parsed_address.suburb, None);
    assert_eq!(parsed_address.city_district, None);
    assert_eq!(parsed_address.city, None);
    assert_eq!(parsed_address.state_district , None);
    assert_eq!(parsed_address.island, None);
    assert_eq!(parsed_address.state , None);
    assert_eq!(parsed_address.postal_code , None);
    assert_eq!(parsed_address.country_region , None);
    assert_eq!(parsed_address.country , None);
    assert_eq!(parsed_address.world_region, None);
    assert_eq!(parsed_address.website, None);
    assert_eq!(parsed_address.telephone, None);
}

#[test]
fn us_address_reads_into_fields() {
    let parsed = ParsedAddress::from(response(&[
        ("house", "black alliance for just immigration"),
        ("house_number", "660"),
        ("road", "nostrand ave"),
        ("city_district", "brooklyn"),
        ("state", "n.y."),
        ("postcode", "11216"),
    ]));
    let expected = ParsedAddress {
        house: Some("black alliance for just immigration".to_string()),
        house_number: Some("660".to_string()),
        road: Some("nostrand ave".to_string()),
        city_district: Some("brooklyn".to_string()),
        state: Some("n.y.".to_string()),
        postal_code: Some("11216".to_string()),
        ..ParsedAddress::default()
    };
    assert_eq!(parsed, expected);
}

#[test]
fn every_label_has_its_field() {
    let labels = [
        "house",
        "house_number",
        "po_box",
        "building",
        "entrance",
        "staircase",
        "level",
        "unit",
        "road",
        "metro_station",
        "suburb",
        "city_district",
        "city",
        "state_district",
        "island",
        "state",
        "postcode",
        "country_region",
        "country",
        "world_region",
        "website",
        "phone",
    ];
    let pairs: Vec<(&str, &str)> = labels.iter().map(|label| (*label, *label)).collect();
    let parsed = ParsedAddress::from(response(&pairs));
    let expected = ParsedAddress {
        house: Some("house".to_string()),
        house_number: Some("house_number".to_string()),
        po_box: Some("po_box".to_string()),
        building: Some("building".to_string()),
        entrance: Some("entrance".to_string()),
        staircase: Some("staircase".to_string()),
        level: Some("level".to_string()),
        unit: Some("unit".to_string()),
        road: Some("road".to_string()),
        metro_station: Some("metro_station".to_string()),
        suburb: Some("suburb".to_string()),
        city_district: Some("city_district".to_string()),
        city: Some("city".to_string()),
        state_district: Some("state_district".to_string()),
        island: Some("island".to_string()),
        state: Some("state".to_string()),
        postal_code: Some("postcode".to_string()),
        country_region: Some("country_region".to_string()),
        country: Some("country".to_string()),
        world_region: Some("world_region".to_string()),
        website: Some("website".to_string()),
        telephone: Some("phone".to_string()),
    };
    assert_eq!(parsed, expected);
}

#[test]
fn last_pair_of_a_label_decides() {
    let parsed = ParsedAddress::from(response(&[
        ("road", "first"),
        ("city", "x"),
        ("road", "second"),
        ("road", "third"),
    ]));
    assert_eq!(parsed.road, Some("third".to_string()));
    assert_eq!(parsed.city, Some("x".to_string()));
}

#[test]
fn other_labels_are_passed_over() {
    let parsed = ParsedAddress::from(response(&[
        ("postal_code", "1"),
        ("telephone", "2"),
        ("House", "3"),
        ("", "4"),
        ("houses", "5"),
        ("hous", "6"),
    ]));
    assert_eq!(parsed, ParsedAddress::default());
    assert_eq!(ParsedAddress::from(AddressParserResponse::new()), ParsedAddress::default());
}
