use valhalla::access::{
    SpeedSources, ALL_FLOWS, CONSTRAINED_FLOW, CURRENT_FLOW, FREE_FLOW, NO_FLOW, PREDICTED_FLOW,
};
use valhalla::graphid::GraphId;
use valhalla::records::DirectedEdge;
use valhalla::speed::resolve_speed;
use valhalla::traffic::LiveTraffic;

fn edge(speed: u8, truck: u8, free: u8, constrained: u8) -> DirectedEdge {
    DirectedEdge {
        endnode: GraphId::new(0),
        opp_index: 0,
        edgeinfo_offset: 0,
        forward_access: 1,
        reverse_access: 1,
        length: 1000,
        speed,
        truck_speed: truck,
        free_flow_speed: free,
        constrained_flow_speed: constrained,
        road_class: 2,
        use_type: 0,
        toll: false,
        tunnel: false,
        bridge: false,
        roundabout: false,
        destonly: false,
        crosses_country_border: false,
        is_shortcut: false,
        leaves_tile: false,
        has_predicted: false,
        predicted_offset: 0,
    }
}

const NOON: u64 = 12 * 3600; // within the 7am to 7pm band
const NIGHT: u64 = 22 * 3600; // outside it

#[test]
fn typical_speeds_by_time_of_day() {
    let e = edge(60, 45, 70, 40);
    let none: Vec<u8> = Vec::new();

    // daytime picks the constrained speed, night the free-flow speed
    assert_eq!(
        resolve_speed(&e, &none, None, SpeedSources(ALL_FLOWS), false, NOON, 0),
        (40, SpeedSources(CONSTRAINED_FLOW))
    );
    assert_eq!(
        resolve_speed(&e, &none, None, SpeedSources(ALL_FLOWS), false, NIGHT, 0),
        (70, SpeedSources(FREE_FLOW))
    );

    // an unrequested source never contributes
    assert_eq!(
        resolve_speed(&e, &none, None, SpeedSources(NO_FLOW), false, NOON, 0),
        (60, SpeedSources(NO_FLOW))
    );

    // trucks fall back through the truck speed
    assert_eq!(
        resolve_speed(&e, &none, None, SpeedSources(NO_FLOW), true, NOON, 0),
        (45, SpeedSources(NO_FLOW))
    );

    // a missing typical speed falls back to the default
    let bare = edge(60, 0, 0, 0);
    assert_eq!(
        resolve_speed(&bare, &none, None, SpeedSources(ALL_FLOWS), true, NOON, 0),
        (60, SpeedSources(NO_FLOW))
    );
}

#[test]
fn predicted_speed_bucket() {
    let mut e = edge(60, 0, 70, 40);
    e.has_predicted = true;
    e.predicted_offset = 0;
    let mut curve = vec![0u8; 2016];
    curve[2] = 33; // the bucket of seconds 600 to 899, rounding down

    assert_eq!(
        resolve_speed(&e, &curve, None, SpeedSources(ALL_FLOWS), false, 600, 0),
        (33, SpeedSources(PREDICTED_FLOW))
    );
    assert_eq!(
        resolve_speed(&e, &curve, None, SpeedSources(ALL_FLOWS), false, 899, 0),
        (33, SpeedSources(PREDICTED_FLOW))
    );
    // an empty bucket falls through to the typical speeds
    assert_eq!(
        resolve_speed(&e, &curve, None, SpeedSources(ALL_FLOWS), false, 900, 0),
        (70, SpeedSources(FREE_FLOW))
    );
    // a second of week outside the stored week is not covered
    assert_eq!(
        resolve_speed(&e, &curve, None, SpeedSources(ALL_FLOWS), false, 604800 + 600, 0),
        (70, SpeedSources(FREE_FLOW))
    );
    // predicted speeds only count when requested
    assert_eq!(
        resolve_speed(&e, &curve, None, SpeedSources(FREE_FLOW), false, 600, 0),
        (70, SpeedSources(FREE_FLOW))
    );
}

#[test]
fn live_speed_blending() {
    let e = edge(60, 0, 0, 0);
    let none: Vec<u8> = Vec::new();
    let live = Some(LiveTraffic::from_uniform_speed(72).to_bits());

    // a fresh reading stands alone
    assert_eq!(
        resolve_speed(&e, &none, live, SpeedSources(ALL_FLOWS), false, 0, 0),
        (72, SpeedSources(CURRENT_FLOW))
    );

    // a reading half an hour old counts half: (72 * 1800 + 60 * 1800) / 3600
    assert_eq!(
        resolve_speed(&e, &none, live, SpeedSources(CURRENT_FLOW), false, 0, 1800),
        (66, SpeedSources(CURRENT_FLOW))
    );

    // an hour-old reading has fully decayed to the base
    assert_eq!(
        resolve_speed(&e, &none, live, SpeedSources(CURRENT_FLOW), false, 0, 7200),
        (60, SpeedSources(CURRENT_FLOW))
    );

    // a closure never enters the blend, and the result is never zero
    let closed = Some(LiveTraffic::closed().to_bits());
    assert_eq!(
        resolve_speed(&e, &none, closed, SpeedSources(ALL_FLOWS), false, 0, 0),
        (60, SpeedSources(NO_FLOW))
    );
    let unknown = Some(LiveTraffic::unknown().to_bits());
    let (speed, _) = resolve_speed(&e, &none, unknown, SpeedSources(ALL_FLOWS), false, 0, 0);
    assert!(speed >= 1);
}
