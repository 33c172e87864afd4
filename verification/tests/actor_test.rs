use valhalla::actor::{
    encode_options, parse_json_request, parse_wire, prepare_request, response_policy, Action,
    BackendResponse, Format, Options, RequestLocation, Response, ResponseKind, Units, WireValue,
};
use valhalla::Error;
use valhalla::costing::CostingType;
use valhalla::records::LatLon;

const ACTIONS: [Action; 11] = [
    Action::Route,
    Action::Locate,
    Action::Matrix,
    Action::OptimizedRoute,
    Action::Isochrone,
    Action::TraceRoute,
    Action::TraceAttributes,
    Action::TransitAvailable,
    Action::Expansion,
    Action::Centroid,
    Action::Status,
];

const FORMATS: [Format; 5] = [Format::Json, Format::Gpx, Format::Osrm, Format::Pbf, Format::Geotiff];

#[test]
fn request_response_format() {
    // the endpoints that always answer in text, whatever was asked
    for format in FORMATS {
        assert_eq!(response_policy(Action::Locate, format), ResponseKind::Text);
        assert_eq!(response_policy(Action::TransitAvailable, format), ResponseKind::Text);
    }

    // the pairs the backend cannot serve are rejected up front
    assert_eq!(response_policy(Action::Isochrone, Format::Osrm), ResponseKind::Rejected);
    assert_eq!(response_policy(Action::Matrix, Format::Gpx), ResponseKind::Rejected);
    assert_eq!(response_policy(Action::Centroid, Format::Osrm), ResponseKind::Rejected);
    assert!(valhalla::actor::check_request_format(Action::Centroid, Format::Osrm).is_err());
    assert!(valhalla::actor::check_request_format(Action::Route, Format::Osrm).is_ok());

    // every other endpoint serves the structured format
    for action in ACTIONS {
        if action == Action::Locate || action == Action::TransitAvailable {
            continue;
        }
        assert_eq!(response_policy(action, Format::Pbf), ResponseKind::Structured);
    }

    // the binary format comes only from the route-shaped endpoints
    assert_eq!(response_policy(Action::Route, Format::Gpx), ResponseKind::Binary);
    assert_eq!(response_policy(Action::OptimizedRoute, Format::Gpx), ResponseKind::Binary);
    assert_eq!(response_policy(Action::TraceRoute, Format::Gpx), ResponseKind::Binary);
    assert_eq!(response_policy(Action::TraceAttributes, Format::Gpx), ResponseKind::Text);
    assert_eq!(response_policy(Action::Expansion, Format::Gpx), ResponseKind::Text);
    assert_eq!(response_policy(Action::Status, Format::Geotiff), ResponseKind::Text);

    // plain text for the textual formats
    for action in ACTIONS {
        assert_eq!(response_policy(action, Format::Json), ResponseKind::Text);
    }
}

#[test]
fn response_classification() {
    let json = BackendResponse { data: b"{\"ok\":true}".to_vec(), format: Format::Json };
    match Response::from(json) {
        Response::Json(s) => assert_eq!(s, "{\"ok\":true}"),
        other => panic!("Expected JSON response, got: {other:?}"),
    }

    let osrm = BackendResponse { data: b"[{}]".to_vec(), format: Format::Osrm };
    assert!(matches!(Response::from(osrm), Response::Json(_)));

    let gpx = BackendResponse { data: vec![1, 2, 3], format: Format::Gpx };
    match Response::from(gpx) {
        Response::Other(b) => assert_eq!(b, vec![1, 2, 3]),
        other => panic!("Expected binary response, got: {other:?}"),
    }

    // a well-formed wire message decodes into structured fields
    let wire = vec![0x08, 0x2a, 0x12, 0x02, 0x68, 0x69]; // field 1 varint 42, field 2 bytes "hi"
    match Response::from(BackendResponse { data: wire, format: Format::Pbf }) {
        Response::Pbf(api) => {
            assert_eq!(api.fields.len(), 2);
            assert_eq!(api.fields[0].number, 1);
            assert_eq!(api.fields[0].value, WireValue::Varint(42));
            assert_eq!(api.fields[1].number, 2);
            assert_eq!(api.fields[1].value, WireValue::Bytes(b"hi".to_vec()));
        },
        other => panic!("Expected PBF response, got: {other:?}"),
    }

    // bytes that do not decode stay bytes
    let bad = vec![0xff];
    match Response::from(BackendResponse { data: bad.clone(), format: Format::Pbf }) {
        Response::Other(b) => assert_eq!(b, bad),
        other => panic!("Expected binary response, got: {other:?}"),
    }
}

#[test]
fn encode_round_trip() {
    let mut o = Options::default();
    o.action = Action::Matrix;
    o.verbose = true;
    o.alternates = Some(2);
    o.locations.push(RequestLocation { ll: LatLon(42_501_073, 1_510_341) });
    o.locations.push(RequestLocation { ll: LatLon(-33_865_143, 151_209_900) });

    let bytes = encode_options(&o);
    let fields = parse_wire(&bytes).expect("Canonical request must decode");

    // action, units, format, costing, two locations, verbose, alternates
    assert_eq!(fields.len(), 8);
    assert_eq!(fields[0].number, 1);
    assert_eq!(fields[0].value, WireValue::Varint(3)); // matrix
    assert_eq!(fields[1].value, WireValue::Varint(0)); // kilometers
    assert_eq!(fields[2].value, WireValue::Varint(0)); // json
    assert_eq!(fields[3].number, 4);
    assert!(matches!(fields[3].value, WireValue::Bytes(_)));
    assert_eq!(fields[4].number, 5);
    if let WireValue::Bytes(loc) = &fields[4].value {
        let loc_fields = parse_wire(loc).unwrap();
        // zigzag of the latitude and longitude in millionths
        assert_eq!(loc_fields[0].value, WireValue::Varint(2 * 42_501_073));
        assert_eq!(loc_fields[1].value, WireValue::Varint(2 * 1_510_341));
    } else {
        panic!("Expected an embedded location message");
    }
    if let WireValue::Bytes(loc) = &fields[5].value {
        let loc_fields = parse_wire(loc).unwrap();
        assert_eq!(loc_fields[0].value, WireValue::Varint(2 * 33_865_143 - 1));
    } else {
        panic!("Expected an embedded location message");
    }
    assert_eq!(fields[6].number, 8);
    assert_eq!(fields[6].value, WireValue::Varint(1)); // verbose
    assert_eq!(fields[7].number, 12);
    assert_eq!(fields[7].value, WireValue::Varint(2)); // alternates
}

#[test]
fn prepare_request_policy() {
    let mut o = Options::default();
    o.format = Format::Osrm;
    // a pair the backend cannot serve is refused before any call
    assert_eq!(prepare_request(Action::Centroid, &o), Err(Error::BackendError));
    assert_eq!(prepare_request(Action::Isochrone, &o), Err(Error::BackendError));

    // a served pair yields the canonical wire form
    let bytes = prepare_request(Action::Route, &o).unwrap();
    assert_eq!(bytes, encode_options(&o));
    assert!(parse_wire(&bytes).is_some());
}

#[test]
fn parse_api() {
    assert!(parse_json_request("", Action::Route).is_err());
    assert!(parse_json_request("{", Action::Route).is_err());
    assert!(parse_json_request("}", Action::Route).is_err());

    let json = r#"{"units":"kilometers","date_time":{"type":"current"},"costing":"auto","costing_options":{"auto":{"use_ferry":0.5,"use_rail_ferry":0.5,"use_highways":0.5,"use_tolls":0.5,"country_crossing_cost":0}},"alternates":2,"locations":[{"lat":42.50107335756198,"lon":1.510341967860551},{"lat":42.50627089323736,"lon":1.521734167223563}]}"#;
    let request = parse_json_request(json, Action::Route).expect("Failed to parse API");
    assert_eq!(request.action, Action::Route);
    assert_eq!(request.units, Units::Kilometers);
    assert_eq!(request.costing.costing_type, CostingType::Auto);
    assert_eq!(request.locations.len(), 2);
    // coordinates come through in millionths of a degree, truncated
    assert_eq!(request.locations[0].ll, LatLon(42_501_073, 1_510_341));
    assert_eq!(request.locations[1].ll, LatLon(42_506_270, 1_521_734));
    assert_eq!(request.alternates, Some(2));

    let bad = r#"{"costing":"hovercraft"}"#;
    assert!(parse_json_request(bad, Action::Route).is_err());

    let pedestrian = r#"{"costing":"pedestrian","format":"osrm","verbose":true}"#;
    let request = parse_json_request(pedestrian, Action::Locate).unwrap();
    assert_eq!(request.costing.costing_type, CostingType::Pedestrian);
    assert_eq!(request.format, Format::Osrm);
    assert!(request.verbose);
}
