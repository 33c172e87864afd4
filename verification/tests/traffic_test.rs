use valhalla::graphid::GraphId;
use valhalla::traffic::{LiveTraffic, TrafficTile};
use valhalla::Error;

#[test]
fn live_traffic_codec() {
    assert_eq!(LiveTraffic::unknown().to_bits(), 0);
    assert!(LiveTraffic::unknown().is_unknown());
    assert_eq!(LiveTraffic::unknown().live_speed(), None);

    let closed = LiveTraffic::closed();
    assert_eq!(closed.to_bits(), 255u64 << 28);
    assert!(closed.is_closed());
    assert!(!closed.is_unknown());
    assert_eq!(closed.live_speed(), Some(0));

    // even speeds round-trip exactly; odd speeds lose their low bit
    assert_eq!(LiveTraffic::from_uniform_speed(72).live_speed(), Some(72));
    assert_eq!(LiveTraffic::from_uniform_speed(73).live_speed(), Some(72));
    assert_eq!(LiveTraffic::from_uniform_speed(0).live_speed(), Some(0));
    assert_eq!(LiveTraffic::from_uniform_speed(254).live_speed(), Some(254));

    // the exact bit layout of a segmented record
    let t = LiveTraffic::from_segmented_speeds(72, [1, 2, 3], [127, 128]);
    let expected: u64 = 36 | (0 << 7) | (1 << 14) | (1 << 21) | (127 << 28) | (128u64 << 36);
    assert_eq!(t.to_bits(), expected);
    assert_eq!(t.overall_speed(), 72);
    assert_eq!(LiveTraffic::from_bits(expected), t);

    // a uniform record puts everything in the first sub-segment
    let u = LiveTraffic::from_uniform_speed(72);
    assert_eq!(u.to_bits(), 36 | (36 << 7) | (255u64 << 28));
}

#[test]
fn traffic_tile_writes() {
    let id = GraphId::from_parts(2, 763926, 0).unwrap();
    let mut tile = TrafficTile::new(id, 3);
    assert_eq!(tile.id(), id);
    assert_eq!(tile.edge_count(), 3);
    assert_eq!(tile.last_update(), 0);
    assert_eq!(tile.spare(), 0);

    // after a write, reading the edge yields exactly the written record
    let rec = LiveTraffic::from_uniform_speed(100);
    tile.write_edge_traffic(1, rec).unwrap();
    assert_eq!(tile.edge_traffic(1), Some(rec));
    assert_eq!(tile.edge_traffic(0), Some(LiveTraffic::unknown()));
    assert_eq!(tile.edge_traffic(3), None);
    assert_eq!(tile.write_edge_traffic(3, rec), Err(Error::OutOfRange));

    // clearing zeroes the records and the update time, not the spare word
    tile.write_last_update(42);
    tile.write_spare(7);
    tile.clear_traffic();
    assert_eq!(tile.last_update(), 0);
    assert_eq!(tile.spare(), 7);
    assert_eq!(tile.edge_traffic(1), Some(LiveTraffic::unknown()));
}

#[test]
fn traffic_tile_decode() {
    let id = GraphId::from_parts(1, 47701, 0).unwrap();
    let mut bytes = Vec::new();
    bytes.extend_from_slice(&id.value.to_le_bytes());
    bytes.extend_from_slice(&5u64.to_le_bytes()); // last update
    bytes.extend_from_slice(&9u64.to_le_bytes()); // spare
    bytes.extend_from_slice(&2u32.to_le_bytes()); // edge count
    bytes.extend_from_slice(&0u32.to_le_bytes()); // reserved
    bytes.extend_from_slice(&LiveTraffic::from_uniform_speed(50).to_bits().to_le_bytes());
    bytes.extend_from_slice(&0u64.to_le_bytes());

    let tile = TrafficTile::from_bytes(&bytes).unwrap();
    assert_eq!(tile.id(), id);
    assert_eq!(tile.last_update(), 5);
    assert_eq!(tile.spare(), 9);
    assert_eq!(tile.edge_count(), 2);
    assert_eq!(tile.edge_traffic(0).unwrap().live_speed(), Some(50));

    // a header that does not account for the buffer is rejected
    bytes.push(0);
    assert!(TrafficTile::from_bytes(&bytes).is_err());
}
