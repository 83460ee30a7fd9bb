use rustpostal::address::{
    parse_address, AddressParserOptions, AddressParserResponse, ParsedAddress, ParserEvent,
    ParserSession,
};
use rustpostal::error::{NulError, RuntimeError};
use rustpostal::ffi::{
    libpostal_address_parser_options, libpostal_address_parser_response, NativeCall,
};
use rustpostal::{LibModules, Lifecycle, Step};

const US: &str = "Black Alliance for Just Immigration 660 Nostrand Ave, Brooklyn, N.Y., 11216";
const GB: &str = "St Johns Centre, Rope Walk, Bedford, Bedfordshire, MK42 0XE, United Kingdom";
const ES: &str = "Museo del Prado C. de Ruiz de Alarcón,
                   23 28014 Madrid, España";

/// A stand-in for the native library: it answers the addresses it knows with
/// what the native parser gives for them, and keeps a record of every call.
struct Native {
    calls: Vec<NativeCall>,
    seen_language: Option<String>,
    seen_country: Option<String>,
}

impl Native {
    fn new() -> Native {
        Native {
            calls: Vec::new(),
            seen_language: None,
            seen_country: None,
        }
    }

    fn count(&self, call: NativeCall) -> usize {
        self.calls.iter().filter(|made| **made == call).count()
    }

    fn known(address: &str) -> Option<Vec<(&'static str, &'static str)>> {
        if address == US {
            Some(vec![
                ("house", "black alliance for just immigration"),
                ("house_number", "660"),
                ("road", "nostrand ave"),
                ("city_district", "brooklyn"),
                ("state", "n.y."),
                ("postcode", "11216"),
            ])
        } else if address == GB {
            Some(vec![
                ("house", "st johns centre"),
                ("road", "rope walk"),
                ("city", "bedford"),
                ("state_district", "bedfordshire"),
                ("postcode", "mk42 0xe"),
                ("country", "united kingdom"),
            ])
        } else if address == ES {
            Some(vec![
                ("house", "museo del prado"),
                ("road", "c. de ruiz de alarcón"),
                ("house_number", "23"),
                ("postcode", "28014"),
                ("city", "madrid"),
                ("country", "españa"),
            ])
        } else {
            None
        }
    }

    fn parse(
        &mut self,
        address: &str,
        options: &libpostal_address_parser_options,
    ) -> Option<libpostal_address_parser_response> {
        self.seen_language = options.language.clone();
        self.seen_country = options.country.clone();
        let pairs = Native::known(address)?;
        Some(libpostal_address_parser_response {
            num_components: pairs.len(),
            components: pairs.iter().map(|(_, token)| token.to_string()).collect(),
            labels: pairs.iter().map(|(label, _)| label.to_string()).collect(),
        })
    }

    fn perform(&mut self, session: &ParserSession, call: NativeCall) -> ParserEvent {
        self.calls.push(call);
        match call {
            NativeCall::GetAddressParserDefaultOptions => {
                ParserEvent::Defaults(libpostal_address_parser_options {
                    language: None,
                    country: None,
                })
            }
            NativeCall::ParseAddress => {
                let address = session.address().to_string();
                let options = session.options().clone();
                ParserEvent::Response(self.parse(&address, &options))
            }
            NativeCall::AddressParserResponseDestroy => ParserEvent::Destroyed,
            other => panic!("a parsing session asked for {:?}", other),
        }
    }

    fn run(&mut self, mut session: ParserSession) -> AddressParserResponse {
        while let Some(call) = session.next() {
            let event = self.perform(&session, call);
            session.advance(event);
        }
        session.finish().unwrap()
    }
}

fn ready(module: LibModules) -> Lifecycle {
    let mut lifecycle = Lifecycle::new();
    while let Step::Call(call) = module.setup(&lifecycle) {
        lifecycle.record(call, true);
    }
    assert_eq!(module.setup(&lifecycle), Step::Done(Ok(())));
    lifecycle
}

fn parse_with(
    native: &mut Native,
    address: &str,
    language: Option<&str>,
    country: Option<&str>,
) -> Result<AddressParserResponse, RuntimeError> {
    let lifecycle = ready(LibModules::Address);
    let session = parse_address(address, language, country, &lifecycle)?;
    Ok(native.run(session))
}

fn assert_actual_eq_expected(address: &str, expected: Vec<(&str, &str)>) {
    let mut native = Native::new();
    let response = parse_with(&mut native, address, None, None).unwrap();
    let pairs = response.pairs();
    let actual: Vec<(&str, &str)> = pairs
        .iter()
        .map(|(l, t)| (l.as_str(), t.as_str()))
        .collect();
    assert_eq!(actual, expected);
}

fn us_parse() {
    let expected = vec![
        ("house", "black alliance for just immigration"),
        ("house_number", "660"),
        ("road", "nostrand ave"),
        ("city_district", "brooklyn"),
        ("state", "n.y."),
        ("postcode", "11216"),
    ];
    assert_actual_eq_expected(US, expected);
}

fn us_parse_to_struct() {
    let mut native = Native::new();
    let response = parse_with(&mut native, US, None, None).unwrap();
    let actual = ParsedAddress::from(response);
    assert_eq!(
        actual.house(),
        Some("black alliance for just immigration".to_string())
    );
    assert_eq!(actual.house_number(), Some("660".to_string()));
    assert_eq!(actual.road(), Some("nostrand ave".to_string()));
    assert_eq!(actual.city_district(), Some("brooklyn".to_string()));
    assert_eq!(actual.state(), Some("n.y.".to_string()));
    assert_eq!(actual.postcode(), Some("11216".to_string()));
}

fn gb_parse() {
    let expected = vec![
        ("house", "st johns centre"),
        ("road", "rope walk"),
        ("city", "bedford"),
        ("state_district", "bedfordshire"),
        ("postcode", "mk42 0xe"),
        ("country", "united kingdom"),
    ];
    assert_actual_eq_expected(GB, expected);
}

fn gb_parse_to_struct() {
    let mut native = Native::new();
    let response = parse_with(&mut native, GB, None, None).unwrap();
    let actual = ParsedAddress::from(response);
    assert_eq!(actual.house(), Some("st johns centre".to_string()));
    assert_eq!(actual.road(), Some("rope walk".to_string()));
    assert_eq!(actual.city(), Some("bedford".to_string()));
    assert_eq!(actual.state_district(), Some("bedfordshire".to_string()));
    assert_eq!(actual.postcode(), Some("mk42 0xe".to_string()));
    assert_eq!(actual.country(), Some("united kingdom".to_string()));
}

fn es_parse() {
    let expected = vec![
        ("house", "museo del prado"),
        ("road", "c. de ruiz de alarcón"),
        ("house_number", "23"),
        ("postcode", "28014"),
        ("city", "madrid"),
        ("country", "españa"),
    ];
    assert_actual_eq_expected(ES, expected);
}

fn es_parse_to_struct() {
    let mut native = Native::new();
    let response = parse_with(&mut native, ES, None, None).unwrap();
    let actual = ParsedAddress::from(response);
    assert_eq!(actual.house(), Some("museo del prado".to_string()));
    assert_eq!(actual.road(), Some("c. de ruiz de alarcón".to_string()));
    assert_eq!(actual.house_number(), Some("23".to_string()));
    assert_eq!(actual.postcode(), Some("28014".to_string()));
    assert_eq!(actual.city(), Some("madrid".to_string()));
    assert_eq!(actual.country(), Some("españa".to_string()));
}

#[test]
fn parse() -> Result<(), RuntimeError> {
    us_parse();
    gb_parse();
    es_parse();
    Ok(())
}

#[test]
fn parse_address_to_parsed_address_struct() -> Result<(), RuntimeError> {
    us_parse_to_struct();
    gb_parse_to_struct();
    es_parse_to_struct();
    Ok(())
}

#[test]
fn default_address_parser_options() -> Result<(), NulError> {
    let options = AddressParserOptions::new(None, None)?;
    assert_eq!(options.language(), None);
    assert_eq!(options.country(), None);
    let options = AddressParserOptions::new(None, Some("EN"))?;
    assert_eq!(options.language(), None);
    assert_eq!(options.country(), Some("EN"));
    Ok(())
}

#[test]
fn address_parser_options_parse() -> Result<(), RuntimeError> {
    let lifecycle = ready(LibModules::Address);
    let mut native = Native::new();

    let options = AddressParserOptions::new(None, None)?;
    let address = "St Johns Centre, Rope Walk, Bedford, Bedfordshire, MK42 0XE, United Kingdom";

    let labeled_tokens = native.run(options.parse(address, &lifecycle)?);

    for (label, token) in &labeled_tokens.pairs() {
        println!("{}: {}", label, token);
    }
    Ok(())
}

#[test]
fn address_test_parsed_address_default() {
    let parsed_address = ParsedAddress::default();
    assert_eq!(parsed_address.house(), None);
    assert_eq!(parsed_address.house_number(), None);
    assert_eq!(parsed_address.po_box(), None);
    assert_eq!(parsed_address.building(), None);
    assert_eq!(parsed_address.entrance(), None);
    assert_eq!(parsed_address.staircase(), None);
    assert_eq!(parsed_address.level(), None);
    assert_eq!(parsed_address.unit(), None);
    assert_eq!(parsed_address.road(), None);
    assert_eq!(parsed_address.metro_station(), None);
    assert_eq!(parsed_address.suburb(), None);
    assert_eq!(parsed_address.city_district(), None);
    assert_eq!(parsed_address.city(), None);
    assert_eq!(parsed_address.state_district(), None);
    assert_eq!(parsed_address.island(), None);
    assert_eq!(parsed_address.state(), None);
    assert_eq!(parsed_address.postcode(), None);
    assert_eq!(parsed_address.country_region(), None);
    assert_eq!(parsed_address.country(), None);
    assert_eq!(parsed_address.world_region(), None);
    assert_eq!(parsed_address.website(), None);
    assert_eq!(parsed_address.telephone(), None);
}

#[test]
fn us_address_folds_into_named_fields() {
    let mut native = Native::new();
    let response = parse_with(&mut native, US, None, None).unwrap();
    let parsed = ParsedAddress::from(response);
    assert_eq!(parsed.house_number(), Some("660".to_string()));
    assert_eq!(parsed.postcode(), Some("11216".to_string()));
    assert_eq!(
        parsed.house(),
        Some("black alliance for just immigration".to_string())
    );
    assert_eq!(parsed.road(), Some("nostrand ave".to_string()));
    assert_eq!(parsed.city_district(), Some("brooklyn".to_string()));
    assert_eq!(parsed.state(), Some("n.y.".to_string()));
    assert_eq!(parsed.po_box(), None);
    assert_eq!(parsed.building(), None);
    assert_eq!(parsed.entrance(), None);
    assert_eq!(parsed.staircase(), None);
    assert_eq!(parsed.level(), None);
    assert_eq!(parsed.unit(), None);
    assert_eq!(parsed.metro_station(), None);
    assert_eq!(parsed.suburb(), None);
    assert_eq!(parsed.city(), None);
    assert_eq!(parsed.state_district(), None);
    assert_eq!(parsed.island(), None);
    assert_eq!(parsed.country_region(), None);
    assert_eq!(parsed.country(), None);
    assert_eq!(parsed.world_region(), None);
    assert_eq!(parsed.website(), None);
    assert_eq!(parsed.telephone(), None);
}

#[test]
fn new_response_is_empty() {
    let response = AddressParserResponse::new();
    assert_eq!(response.len(), 0);
    assert_eq!(response.get(0), None);
    assert!(response.pairs().is_empty());
    assert_eq!(response, AddressParserResponse::default());
}

#[test]
fn address_without_zero_byte_is_parsed_or_fails_setup_only() {
    let mut native = Native::new();
    let parsed = parse_with(&mut native, "1 Unknown Rd", Some("en"), Some("us"));
    assert_eq!(parsed.unwrap().len(), 0);

    let idle = Lifecycle::new();
    let refused = parse_address("1 Unknown Rd", Some("en"), Some("us"), &idle);
    assert!(matches!(refused, Err(RuntimeError::FailedSetup(_))));

    let expand_only = ready(LibModules::Expand);
    let refused = parse_address("1 Unknown Rd", None, None, &expand_only);
    assert!(matches!(refused, Err(RuntimeError::FailedSetup(_))));
}

#[test]
fn zero_byte_is_rejected_before_any_native_call() {
    let lifecycle = ready(LibModules::Address);
    match parse_address("12 Main\0 St", None, None, &lifecycle) {
        Err(RuntimeError::InvalidAddress(e)) => {
            assert_eq!(e.nul_position(), 7);
            assert_eq!(e.into_vec(), b"12 Main\0 St".to_vec());
        }
        other => panic!("not rejected: {:?}", other),
    }
    match parse_address("12 Main St", Some("e\0n"), None, &lifecycle) {
        Err(RuntimeError::InvalidAddress(e)) => assert_eq!(e.nul_position(), 1),
        other => panic!("not rejected: {:?}", other),
    }
    match parse_address("12 Main St", None, Some("\0"), &lifecycle) {
        Err(RuntimeError::InvalidAddress(e)) => assert_eq!(e.nul_position(), 0),
        other => panic!("not rejected: {:?}", other),
    }
}

#[test]
fn zero_byte_comes_before_setup_failure() {
    let idle = Lifecycle::new();
    let refused = parse_address("a\0", None, None, &idle);
    assert!(matches!(refused, Err(RuntimeError::InvalidAddress(_))));
}

#[test]
fn rejection_goes_by_language_then_country_then_address() {
    let lifecycle = ready(LibModules::All);
    match parse_address("ab\0", Some("\0"), Some("c\0"), &lifecycle) {
        Err(RuntimeError::InvalidAddress(e)) => assert_eq!(e.into_vec(), vec![0u8]),
        other => panic!("not rejected: {:?}", other),
    }
    match parse_address("ab\0", Some("en"), Some("c\0"), &lifecycle) {
        Err(RuntimeError::InvalidAddress(e)) => assert_eq!(e.into_vec(), b"c\0".to_vec()),
        other => panic!("not rejected: {:?}", other),
    }
    match parse_address("ab\0", Some("en"), Some("gb"), &lifecycle) {
        Err(RuntimeError::InvalidAddress(e)) => assert_eq!(e.into_vec(), b"ab\0".to_vec()),
        other => panic!("not rejected: {:?}", other),
    }
}

#[test]
fn options_reject_a_zero_byte_in_a_hint() {
    let rejected = AddressParserOptions::new(Some("en"), Some("g\0b"));
    assert_eq!(rejected.unwrap_err().nul_position(), 1);
    let rejected = AddressParserOptions::new(Some("\0en"), Some("g\0b"));
    assert_eq!(rejected.unwrap_err().nul_position(), 0);
}

#[test]
fn pairs_keep_the_order_of_the_native_arrays() {
    let raw = Some(libpostal_address_parser_response {
        num_components: 4,
        components: vec![
            "1".to_string(),
            "main st".to_string(),
            "2".to_string(),
            "springfield".to_string(),
        ],
        labels: vec![
            "house_number".to_string(),
            "road".to_string(),
            "house_number".to_string(),
            "city".to_string(),
        ],
    });
    let response = AddressParserResponse::from_native(&raw);
    let expected = vec![
        ("house_number".to_string(), "1".to_string()),
        ("road".to_string(), "main st".to_string()),
        ("house_number".to_string(), "2".to_string()),
        ("city".to_string(), "springfield".to_string()),
    ];
    assert_eq!(response.pairs(), expected);
    assert_eq!(response.len(), 4);
    assert_eq!(
        response.get(2),
        Some((&"house_number".to_string(), &"2".to_string()))
    );
    assert_eq!(response.get(4), None);
    assert_eq!(response.clone(), response);
}

#[test]
fn null_response_gives_an_empty_result() {
    let response = AddressParserResponse::from_native(&None);
    assert_eq!(response.len(), 0);
}

#[test]
fn response_is_read_as_far_as_count_and_arrays_reach() {
    let strings = |items: &[&str]| items.iter().map(|s| s.to_string()).collect::<Vec<_>>();
    let short_count = Some(libpostal_address_parser_response {
        num_components: 1,
        components: strings(&["a", "b"]),
        labels: strings(&["house", "road"]),
    });
    assert_eq!(
        AddressParserResponse::from_native(&short_count).pairs(),
        vec![("house".to_string(), "a".to_string())]
    );
    let short_labels = Some(libpostal_address_parser_response {
        num_components: 5,
        components: strings(&["a", "b", "c"]),
        labels: strings(&["house", "road"]),
    });
    assert_eq!(AddressParserResponse::from_native(&short_labels).len(), 2);
    let short_components = Some(libpostal_address_parser_response {
        num_components: 5,
        components: strings(&["a"]),
        labels: strings(&["house", "road"]),
    });
    assert_eq!(AddressParserResponse::from_native(&short_components).len(), 1);
}

#[test]
fn hints_replace_the_native_defaults() {
    let mut native = Native::new();
    parse_with(&mut native, GB, Some("en"), None).unwrap();
    assert_eq!(native.seen_language, Some("en".to_string()));
    assert_eq!(native.seen_country, None);

    let options = AddressParserOptions::new(None, Some("gb")).unwrap();
    let mut built = libpostal_address_parser_options {
        language: Some("fr".to_string()),
        country: Some("fr".to_string()),
    };
    options.update_ffi_language(&mut built);
    options.update_ffi_country(&mut built);
    assert_eq!(built.language, Some("fr".to_string()));
    assert_eq!(built.country, Some("gb".to_string()));
}

#[test]
fn parser_options_are_built_the_same_twice() {
    let options = AddressParserOptions::new(Some("en"), None).unwrap();
    let defaults = libpostal_address_parser_options {
        language: None,
        country: Some("us".to_string()),
    };
    let mut first = defaults.clone();
    options.update_ffi_language(&mut first);
    options.update_ffi_country(&mut first);
    let mut second = defaults.clone();
    options.update_ffi_language(&mut second);
    options.update_ffi_country(&mut second);
    assert_eq!(first, second);
    assert_eq!(first.language, Some("en".to_string()));
    assert_eq!(first.country, Some("us".to_string()));
}

#[test]
fn every_parse_destroys_its_response_once() {
    for address in [US, GB, ES, "nowhere"] {
        let mut native = Native::new();
        parse_with(&mut native, address, None, None).unwrap();
        assert_eq!(
            native.calls,
            vec![
                NativeCall::GetAddressParserDefaultOptions,
                NativeCall::ParseAddress,
                NativeCall::AddressParserResponseDestroy,
            ]
        );
        assert_eq!(native.count(NativeCall::ParseAddress), 1);
        assert_eq!(native.count(NativeCall::AddressParserResponseDestroy), 1);
    }
}

#[test]
fn rejected_parse_makes_no_native_call() {
    let lifecycle = ready(LibModules::Address);
    let native = Native::new();
    assert!(parse_address("a\0b", None, None, &lifecycle).is_err());
    assert!(parse_address("ab", None, None, &Lifecycle::new()).is_err());
    assert!(native.calls.is_empty());
}

#[test]
fn session_ignores_what_it_does_not_wait_for() {
    let lifecycle = ready(LibModules::Address);
    let mut session = parse_address(GB, None, None, &lifecycle).unwrap();
    assert_eq!(session.next(), Some(NativeCall::GetAddressParserDefaultOptions));
    session.advance(ParserEvent::Destroyed);
    session.advance(ParserEvent::Response(None));
    assert_eq!(session.next(), Some(NativeCall::GetAddressParserDefaultOptions));
    session.advance(ParserEvent::Defaults(libpostal_address_parser_options {
        language: Some("xx".to_string()),
        country: None,
    }));
    assert_eq!(session.next(), Some(NativeCall::ParseAddress));
    assert_eq!(session.address(), GB);
    assert_eq!(session.options().language, Some("xx".to_string()));
    session.advance(ParserEvent::Destroyed);
    assert_eq!(session.next(), Some(NativeCall::ParseAddress));
    let mut native = Native::new();
    let raw = native.parse(GB, &session.options().clone());
    session.advance(ParserEvent::Response(raw));
    assert_eq!(session.next(), Some(NativeCall::AddressParserResponseDestroy));
    session.advance(ParserEvent::Response(None));
    assert_eq!(session.next(), Some(NativeCall::AddressParserResponseDestroy));
    session.advance(ParserEvent::Destroyed);
    assert_eq!(session.next(), None);
    session.advance(ParserEvent::Destroyed);
    assert_eq!(session.next(), None);
    assert_eq!(session.finish().unwrap().len(), 6);
}

#[test]
fn unfinished_session_gives_no_result() {
    let lifecycle = ready(LibModules::Address);
    let session = parse_address(GB, None, None, &lifecycle).unwrap();
    assert!(session.finish().is_none());
    let mut session = parse_address(GB, None, None, &lifecycle).unwrap();
    session.advance(ParserEvent::Defaults(libpostal_address_parser_options {
        language: None,
        country: None,
    }));
    session.advance(ParserEvent::Response(None));
    assert!(session.finish().is_none());
}

#[test]
fn last_token_of_a_label_wins() {
    let raw = Some(libpostal_address_parser_response {
        num_components: 3,
        components: vec!["old".to_string(), "x".to_string(), "new".to_string()],
        labels: vec!["city".to_string(), "telephone".to_string(), "city".to_string()],
    });
    let parsed = ParsedAddress::from(AddressParserResponse::from_native(&raw));
    assert_eq!(parsed.city(), Some("new".to_string()));
    assert_eq!(parsed.telephone(), Some("x".to_string()));
    assert_eq!(parsed.country(), None);
}
