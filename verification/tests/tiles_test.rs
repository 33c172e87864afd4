use valhalla::access::{SpeedSources, ALL_FLOWS, AUTO, NO_FLOW, PEDESTRIAN, TRUCK};
use valhalla::costing::{CostingModel, CostingOptions, CostingType};
use valhalla::graphid::GraphId;
use valhalla::reader::{GraphLevel, GraphReader};
use valhalla::records::LatLon;
use valhalla::traffic::{LiveTraffic, TrafficTile};
use valhalla::Error;

const DATASET_ID: u64 = 12953172102;

fn put_u16(out: &mut Vec<u8>, x: u16) {
    out.extend_from_slice(&x.to_le_bytes());
}

fn put_u32(out: &mut Vec<u8>, x: u32) {
    out.extend_from_slice(&x.to_le_bytes());
}

fn put_u64(out: &mut Vec<u8>, x: u64) {
    out.extend_from_slice(&x.to_le_bytes());
}

fn gid(level: u32, tileid: u32, id: u32) -> GraphId {
    GraphId::from_parts(level, tileid, id).unwrap()
}

#[allow(clippy::too_many_arguments)]
fn node_rec(
    edge_index: u32,
    edge_count: u32,
    trans_index: u32,
    trans_count: u32,
    admin_index: u16,
    timezone: u16,
    density: u8,
    access: u16,
    lat_micro: i64,
    lon_micro: i64,
) -> Vec<u8> {
    let mut b = Vec::new();
    put_u32(&mut b, edge_index);
    put_u32(&mut b, edge_count);
    put_u32(&mut b, trans_index);
    put_u32(&mut b, trans_count);
    put_u16(&mut b, admin_index);
    put_u16(&mut b, timezone);
    b.push(density);
    b.push(0);
    put_u16(&mut b, access);
    put_u32(&mut b, (lat_micro + 90_000_000) as u32);
    put_u32(&mut b, (lon_micro + 180_000_000) as u32);
    assert_eq!(b.len(), 32);
    b
}

#[allow(clippy::too_many_arguments)]
fn edge_rec(
    endnode: GraphId,
    opp_index: u32,
    edgeinfo_offset: u32,
    forward_access: u16,
    reverse_access: u16,
    length: u32,
    speeds: [u8; 4],
    road_class: u8,
    use_type: u8,
    flags: [bool; 8],
) -> Vec<u8> {
    let mut b = Vec::new();
    put_u64(&mut b, endnode.value);
    put_u32(&mut b, opp_index);
    put_u32(&mut b, edgeinfo_offset);
    put_u16(&mut b, forward_access);
    put_u16(&mut b, reverse_access);
    put_u32(&mut b, length);
    b.push(speeds[0]);
    b.push(speeds[1]);
    b.push(speeds[2]);
    b.push(speeds[3]);
    b.push(road_class);
    b.push(use_type);
    for f in flags {
        b.push(if f { 1 } else { 0 });
    }
    b.push(0); // no predicted curve
    b.push(0);
    put_u32(&mut b, 0);
    put_u32(&mut b, 0);
    assert_eq!(b.len(), 48);
    b
}

fn trans_rec(endnode: GraphId, upward: bool) -> Vec<u8> {
    let word = endnode.value | if upward { 1u64 << 46 } else { 0 };
    word.to_le_bytes().to_vec()
}

fn admin_rec(country: &str, state: &str, ciso: &str, siso: &str) -> Vec<u8> {
    let mut b = Vec::new();
    b.push(country.len() as u8);
    b.push(state.len() as u8);
    b.push(ciso.len() as u8);
    b.push(siso.len() as u8);
    let mut field = |text: &str, width: usize| {
        let mut f = text.as_bytes().to_vec();
        f.resize(width, 0);
        b.extend_from_slice(&f);
    };
    field(country, 24);
    field(state, 24);
    field(ciso, 6);
    field(siso, 6);
    assert_eq!(b.len(), 64);
    b
}

fn edgeinfo_rec(way_id: u64, speed_limit: u8, shape: &str) -> Vec<u8> {
    let mut b = Vec::new();
    put_u64(&mut b, way_id);
    b.push(speed_limit);
    put_u16(&mut b, shape.len() as u16);
    b.extend_from_slice(shape.as_bytes());
    b
}

fn tile_blob(
    id: GraphId,
    nodes: &[Vec<u8>],
    edges: &[Vec<u8>],
    transitions: &[Vec<u8>],
    admins: &[Vec<u8>],
    edgeinfo: &[u8],
) -> Vec<u8> {
    let mut b = Vec::new();
    put_u64(&mut b, DATASET_ID);
    put_u64(&mut b, id.value);
    put_u32(&mut b, nodes.len() as u32);
    put_u32(&mut b, edges.len() as u32);
    put_u32(&mut b, transitions.len() as u32);
    put_u32(&mut b, admins.len() as u32);
    put_u32(&mut b, edgeinfo.len() as u32);
    put_u32(&mut b, 0); // no predicted blob
    put_u64(&mut b, 0);
    for n in nodes {
        b.extend_from_slice(n);
    }
    for e in edges {
        b.extend_from_slice(e);
    }
    for t in transitions {
        b.extend_from_slice(t);
    }
    for a in admins {
        b.extend_from_slice(a);
    }
    b.extend_from_slice(edgeinfo);
    b
}

fn tar_member(name: &str, data: &[u8]) -> Vec<u8> {
    let mut header = vec![0u8; 512];
    header[..name.len()].copy_from_slice(name.as_bytes());
    let size = format!("{:011o}", data.len());
    header[124..135].copy_from_slice(size.as_bytes());
    header[156] = b'0';
    header[257..262].copy_from_slice(b"ustar");
    let mut out = header;
    out.extend_from_slice(data);
    let pad = (512 - data.len() % 512) % 512;
    out.extend_from_slice(&vec![0u8; pad]);
    out
}

fn tar_archive(members: &[(String, Vec<u8>)]) -> Vec<u8> {
    let mut out = Vec::new();
    for (name, data) in members {
        out.extend_from_slice(&tar_member(name, data));
    }
    out.extend_from_slice(&vec![0u8; 1024]);
    out
}

// Tile 763926 on the local level covers (42.5, 1.5); tile 47701 on the
// arterial level covers the same place.
const LOCAL_TILE: u32 = 763926;
const ARTERIAL_TILE: u32 = 47701;
const TOLL_WAY: u64 = 6176755;

fn local_tile_blob() -> Vec<u8> {
    let id = gid(2, LOCAL_TILE, 0);
    let nodes = [
        node_rec(0, 1, 0, 1, 1, 293, 3, AUTO | PEDESTRIAN, 42_500_000, 1_500_000),
        node_rec(1, 1, 1, 0, 1, 293, 3, AUTO | PEDESTRIAN, 42_510_000, 1_510_000),
    ];
    let tunnel_flags = [true, true, false, false, false, false, false, false];
    let edges = [
        edge_rec(
            gid(2, LOCAL_TILE, 1),
            0,
            0,
            AUTO | TRUCK,
            AUTO | TRUCK,
            3000,
            [60, 55, 0, 0],
            2,
            0,
            tunnel_flags,
        ),
        edge_rec(
            gid(2, LOCAL_TILE, 0),
            0,
            0,
            AUTO | TRUCK,
            AUTO | TRUCK,
            3000,
            [60, 0, 0, 0],
            2,
            0,
            tunnel_flags,
        ),
    ];
    let transitions = [trans_rec(gid(1, ARTERIAL_TILE, 5), true)];
    let admins = [admin_rec("None", "None", "", ""), admin_rec("Andorra", "", "AD", "")];
    let edgeinfo = edgeinfo_rec(TOLL_WAY, 0, "qwnapA__c|A");
    tile_blob(id, &nodes, &edges, &transitions, &admins, &edgeinfo)
}

fn arterial_tile_blob() -> Vec<u8> {
    let id = gid(1, ARTERIAL_TILE, 0);
    let nodes = [node_rec(0, 1, 0, 0, 0, 293, 1, AUTO, 42_500_000, 1_500_000)];
    // one synthetic shortcut edge; shortcuts carry way identifier zero
    let shortcut_flags = [false, false, false, false, false, false, true, false];
    let edges = [edge_rec(
        gid(1, ARTERIAL_TILE, 0),
        0,
        0,
        AUTO,
        AUTO,
        9000,
        [80, 0, 0, 0],
        1,
        0,
        shortcut_flags,
    )];
    let admins = [admin_rec("None", "None", "", "")];
    let edgeinfo = edgeinfo_rec(0, 0, "");
    tile_blob(id, &nodes, &edges, &[], &admins, &edgeinfo)
}

fn traffic_blob(id: GraphId, edge_count: u32) -> Vec<u8> {
    let mut b = Vec::new();
    put_u64(&mut b, id.value);
    put_u64(&mut b, 0);
    put_u64(&mut b, 0);
    put_u32(&mut b, edge_count);
    put_u32(&mut b, 0);
    for _ in 0..edge_count {
        put_u64(&mut b, 0);
    }
    b
}

fn tile_archive() -> Vec<u8> {
    tar_archive(&[
        ("2/000/763/926.gph".to_string(), local_tile_blob()),
        ("1/000/047/701.gph".to_string(), arterial_tile_blob()),
    ])
}

fn traffic_archive() -> Vec<u8> {
    tar_archive(&[
        ("2/000/763/926.gph".to_string(), traffic_blob(gid(2, LOCAL_TILE, 0), 2)),
        ("1/000/047/701.gph".to_string(), traffic_blob(gid(1, ARTERIAL_TILE, 0), 1)),
    ])
}

fn open_reader() -> GraphReader {
    let tiles = tile_archive();
    let traffic = traffic_archive();
    GraphReader::new(&tiles, Some(&traffic)).expect("Failed to create GraphReader")
}

#[test]
fn dataset_id() {
    let reader = open_reader();
    assert_eq!(reader.dataset_id(), 12953172102);
}

#[test]
fn tiles_in_bbox() {
    let reader = open_reader();

    assert!(reader.graph_tile(GraphId::default()).is_none(), "Default tile should not exist");
    assert!(
        reader.traffic_tile(GraphId::default()).is_none(),
        "Default traffic tile should not exist"
    );

    let mut all_tiles: Vec<u64> = reader.tiles().iter().map(|id| id.value).collect();
    all_tiles.sort_unstable();
    assert!(!all_tiles.is_empty(), "Should have tiles in the dataset");

    let world = (LatLon(-90_000_000, -180_000_000), LatLon(90_000_000, 180_000_000));
    let mut world_tiles: Vec<u64> = [GraphLevel::Highway, GraphLevel::Arterial, GraphLevel::Local]
        .iter()
        .flat_map(|&level| reader.tiles_in_bbox(world.0, world.1, level))
        .map(|id| id.value)
        .collect();
    world_tiles.sort_unstable();
    assert_eq!(all_tiles, world_tiles, "All tiles should equal world bbox tiles");

    let andorra = (LatLon(42_373_627, 1_301_427), LatLon(42_721_990, 1_892_865));
    let mut andorra_tiles: Vec<u64> = [GraphLevel::Highway, GraphLevel::Arterial, GraphLevel::Local]
        .iter()
        .flat_map(|&level| reader.tiles_in_bbox(andorra.0, andorra.1, level))
        .map(|id| id.value)
        .collect();
    andorra_tiles.sort_unstable();
    assert_eq!(all_tiles, andorra_tiles, "All tiles should equal Andorra bbox tiles");

    for level in [GraphLevel::Arterial, GraphLevel::Local] {
        let tiles = reader.tiles_in_bbox(andorra.0, andorra.1, level);
        assert!(!tiles.is_empty(), "No tiles found for level {level:?}");
        for tile_id in tiles {
            assert!(tile_id != GraphId::default(), "Tile ID should not be invalid");
            assert_eq!(tile_id.id(), 0);
            assert_eq!(tile_id.tile(), tile_id);

            let tile = reader.graph_tile(tile_id);
            assert!(tile.is_some(), "Tile should exist for ID: {tile_id:?}");
            let tile = tile.unwrap();
            assert_eq!(tile.id(), tile_id, "Tile ID mismatch for {tile_id:?}");

            let traffic_tile = reader.traffic_tile(tile_id);
            assert!(traffic_tile.is_some(), "Traffic tile should exist for ID: {tile_id:?}");
            let traffic_tile = traffic_tile.unwrap();
            assert_eq!(traffic_tile.id(), tile_id, "Traffic tile ID mismatch for {tile_id:?}");
            assert_eq!(
                traffic_tile.edge_count() as usize,
                tile.directededges().len(),
                "Mismatch in edge count for {tile_id:?}"
            );
        }
    }

    // no highway tiles in this synthetic build
    assert!(reader.tiles_in_bbox(world.0, world.1, GraphLevel::Highway).is_empty());

    let first = reader.tiles()[0];
    let tile = reader.graph_tile(first).unwrap();
    let admininfo = tile.admin_info(0).unwrap();
    assert_eq!(admininfo.country_iso, "");
    assert_eq!(admininfo.state_iso, "");
    assert_eq!(admininfo.country_text, "None");
    assert_eq!(admininfo.state_text, "None");

    let admininfo = tile.admin_info(1).unwrap();
    assert_eq!(admininfo.country_iso, "AD");
    assert_eq!(admininfo.state_iso, "");
    assert_eq!(admininfo.country_text, "Andorra");
    assert_eq!(admininfo.state_text, "");

    assert!(tile.admin_info(2).is_none());
}

#[test]
fn edges_in_tile() {
    let reader = open_reader();
    for tile_id in reader.tiles() {
        let tile = reader.graph_tile(tile_id).unwrap();
        let traffic = reader.traffic_tile(tile_id);

        let slice = tile.directededges();
        assert!(!slice.is_empty(), "Tile should always have directed edges");
        for (i, de) in slice.iter().enumerate() {
            let via_index = tile.directededge(i as u32).unwrap();
            assert!(
                std::ptr::eq(de, via_index),
                "de and via_index should have the same address"
            );

            // this tileset has no historical traffic data
            assert_eq!(de.free_flow_speed, 0);
            assert_eq!(de.constrained_flow_speed, 0);
            assert_ne!(de.speed, 0, "Default edge's speed should never be zero");
            assert_eq!(tile.live_speed(i as u32, traffic), None);
            assert!(!tile.edge_closed(i as u32, traffic));
            assert_eq!(
                tile.edge_speed(i as u32, traffic, SpeedSources(ALL_FLOWS), false, 0, 0),
                (de.speed as u32, SpeedSources(NO_FLOW))
            );
            let truck_speed = if de.truck_speed > 0 { de.truck_speed } else { de.speed };
            assert_eq!(
                tile.edge_speed(i as u32, traffic, SpeedSources(ALL_FLOWS), true, 0, 0),
                (truck_speed as u32, SpeedSources(NO_FLOW))
            );

            let ei = tile.edgeinfo(de).unwrap();
            assert_eq!(de.is_shortcut, ei.way_id == 0, "Shortcuts have way_id 0");

            let endnode = de.endnode;
            assert_eq!(de.leaves_tile, endnode.tile() != tile_id.tile());
            if de.leaves_tile {
                assert!(reader.graph_tile(endnode.tile()).is_some());
            }
        }
        assert!(tile.directededge(slice.len() as u32).is_none());
    }
}

#[test]
fn nodes_in_tile() {
    let reader = open_reader();
    let tile_id = gid(2, LOCAL_TILE, 0);
    let tile = reader.graph_tile(tile_id).unwrap();

    let slice = tile.nodes();
    assert!(!slice.is_empty(), "Tile should always have nodes");
    for (i, node) in slice.iter().enumerate() {
        let via_index = tile.node(i as u32).unwrap();
        assert!(
            std::ptr::eq(node, via_index),
            "node and via_index should have the same address"
        );

        let edges = tile.node_edges(node);
        assert_eq!(edges.len(), node.edge_count as usize);
        let _ = tile.node_transitions(node);

        assert_eq!(node.admin_index, 1);
        assert_eq!(node.timezone, 293);
    }

    let ll = tile.node_latlon(&slice[0]);
    assert_eq!(ll, LatLon(42_500_000, 1_500_000));
}

#[test]
fn reverse_edge() {
    let reader = open_reader();
    let tile_id = gid(2, LOCAL_TILE, 0);
    let tile = reader.graph_tile(tile_id).unwrap();

    for (de_index, de) in tile.directededges().iter().enumerate() {
        if de.leaves_tile || de.is_shortcut {
            continue;
        }

        let end_node = tile.node(de.endnode.id()).unwrap();
        let opp_de = &tile.node_edges(end_node)[de.opp_index as usize];
        assert_eq!(
            tile.edgeinfo(de).unwrap().way_id,
            tile.edgeinfo(opp_de).unwrap().way_id
        );

        let begin_node = tile.node(opp_de.endnode.id()).unwrap();
        assert_eq!(de_index, (begin_node.edge_index + opp_de.opp_index) as usize);
    }
}

#[test]
fn transitions_in_tile() {
    let reader = open_reader();
    let mut transition_count = 0;
    for tile_id in reader.tiles() {
        let tile = reader.graph_tile(tile_id).unwrap();
        for (i, transition) in tile.transitions().iter().enumerate() {
            transition_count += 1;

            let via_index = tile.transition(i as u32).unwrap();
            assert!(
                std::ptr::eq(transition, via_index),
                "transition and via_index should have the same address"
            );

            assert_ne!(
                transition.endnode.tile(),
                tile_id.tile(),
                "Transition endnode should be in a different tile"
            );
            assert_eq!(transition.upward, transition.endnode.level() < tile_id.level());
        }
    }
    assert_eq!(transition_count, 1);
}

#[test]
fn live_traffic() {
    let reader = open_reader();
    let tile_id = gid(2, LOCAL_TILE, 0);
    let tile = reader.graph_tile(tile_id).unwrap();
    let stored = reader.traffic_tile(tile_id).unwrap();

    assert_eq!(stored.last_update(), 0); // initial state
    assert_eq!(stored.spare(), 0);
    assert_ne!(stored.edge_count(), 0);

    // a private overlay for the same tile, to write into
    let mut traffic_tile = TrafficTile::new(tile_id, stored.edge_count());
    traffic_tile.write_last_update(101);
    assert_eq!(traffic_tile.last_update(), 101);
    traffic_tile.write_spare(999);
    assert_eq!(traffic_tile.spare(), 999);
    traffic_tile.clear_traffic();
    assert_eq!(traffic_tile.last_update(), 0);
    assert_eq!(traffic_tile.spare(), 999); // spare is not cleared
    traffic_tile.write_spare(0);

    let edge_id = 0;

    // no traffic data written yet
    assert_eq!(traffic_tile.edge_traffic(edge_id), Some(LiveTraffic::unknown()));
    assert_eq!(tile.live_speed(edge_id, Some(&traffic_tile)), None);

    traffic_tile.write_edge_traffic(edge_id, LiveTraffic::closed()).unwrap();
    assert_eq!(tile.live_speed(edge_id, Some(&traffic_tile)), Some(0));
    assert!(tile.edge_closed(edge_id, Some(&traffic_tile)));

    traffic_tile.write_edge_traffic(edge_id, LiveTraffic::from_uniform_speed(72)).unwrap();
    assert_eq!(tile.live_speed(edge_id, Some(&traffic_tile)), Some(72));

    // speed is stored with 2km/h precision
    traffic_tile.write_edge_traffic(edge_id, LiveTraffic::from_uniform_speed(73)).unwrap();
    assert_eq!(tile.live_speed(edge_id, Some(&traffic_tile)), Some(72));

    // only the overall speed feeds the live-speed helper
    traffic_tile
        .write_edge_traffic(edge_id, LiveTraffic::from_segmented_speeds(72, [1, 2, 3], [127, 128]))
        .unwrap();
    assert_eq!(tile.live_speed(edge_id, Some(&traffic_tile)), Some(72));

    // writes past the end fail and change nothing
    let n = traffic_tile.edge_count();
    assert_eq!(
        traffic_tile.write_edge_traffic(n, LiveTraffic::unknown()),
        Err(Error::OutOfRange)
    );

    // a fresh live reading wins over the default speed
    let (speed, sources) = tile.edge_speed(
        edge_id,
        Some(&traffic_tile),
        SpeedSources(ALL_FLOWS),
        false,
        0,
        0,
    );
    assert_eq!(speed, 72);
    assert_eq!(sources, SpeedSources(valhalla::access::CURRENT_FLOW));
}

#[test]
fn costing_model() {
    let reader = open_reader();
    let tile = reader.graph_tile(gid(2, LOCAL_TILE, 0)).unwrap();

    // the only toll way of the build: a tunnel both of whose directed
    // edges allow motor traffic only
    let toll_edges: Vec<u32> = tile
        .directededges()
        .iter()
        .enumerate()
        .filter_map(|(i, de)| {
            (de.toll && tile.edgeinfo(de).unwrap().way_id == TOLL_WAY).then_some(i as u32)
        })
        .collect();
    assert_eq!(toll_edges.len(), 2);

    let auto = CostingModel::new(CostingType::Auto).unwrap();
    let pedestrian = CostingModel::new(CostingType::Pedestrian).unwrap();
    let bike = CostingModel::new(CostingType::Bicycle).unwrap();

    for &i in &toll_edges {
        let de = tile.directededge(i).unwrap();
        assert!(auto.edge_accessible(de));
        assert!(!pedestrian.edge_accessible(de));
        assert!(!bike.edge_accessible(de));

        let end = tile.node(de.endnode.id()).unwrap();
        assert!(auto.node_accessible(end));
        assert!(pedestrian.node_accessible(end));
    }

    // a model that shuns tolls rejects the tunnel even for cars
    let no_tolls = CostingModel::with_options(&CostingOptions {
        costing_type: CostingType::Auto,
        exclude_tolls: true,
        exclude_ferries: false,
    })
    .unwrap();
    assert!(!no_tolls.edge_accessible(tile.directededge(toll_edges[0]).unwrap()));
}

#[test]
fn wrong_tile_edgeinfo() {
    let reader = open_reader();
    let t1 = reader.graph_tile(gid(2, LOCAL_TILE, 0)).unwrap();

    // an edge record whose stored offset points outside this tile's
    // edge-information blob is detected
    let mut foreign = *t1.directededge(0).unwrap();
    foreign.edgeinfo_offset = 4096;
    assert_eq!(t1.edgeinfo(&foreign), Err(Error::WrongTile));
}

#[test]
fn foreign_node_ranges() {
    let reader = open_reader();
    let tile = reader.graph_tile(gid(2, LOCAL_TILE, 0)).unwrap();

    // a node whose forward-star range does not lie in this tile yields
    // empty slices instead of foreign data
    let mut foreign = *tile.node(0).unwrap();
    foreign.edge_index = 1000;
    foreign.transition_index = 1000;
    assert!(tile.node_edges(&foreign).is_empty());
    assert!(tile.node_transitions(&foreign).is_empty());
}

#[test]
fn duplicate_tile_rejected() {
    // an archive naming one tile twice does not open
    let blob = local_tile_blob();
    let twice = tar_archive(&[
        ("2/000/763/926.gph".to_string(), blob.clone()),
        ("2/000/763/926.gph".to_string(), blob),
    ]);
    assert!(GraphReader::new(&twice, None).is_err());
}

#[test]
fn mismatched_overlay_dropped() {
    // an overlay whose record count does not match its graph tile's edge
    // count leaves every overlay out
    let tiles = tile_archive();
    let bad_traffic = tar_archive(&[
        ("2/000/763/926.gph".to_string(), traffic_blob(gid(2, LOCAL_TILE, 0), 7)),
        ("1/000/047/701.gph".to_string(), traffic_blob(gid(1, ARTERIAL_TILE, 0), 1)),
    ]);
    let reader = GraphReader::new(&tiles, Some(&bad_traffic)).unwrap();
    assert!(reader.traffic_tile(gid(2, LOCAL_TILE, 0)).is_none());
    assert!(reader.traffic_tile(gid(1, ARTERIAL_TILE, 0)).is_none());

    // an overlay for a tile the build does not hold is dropped too
    let foreign_traffic = tar_archive(&[
        ("2/000/763/927.gph".to_string(), traffic_blob(gid(2, LOCAL_TILE + 1, 0), 2)),
    ]);
    let reader = GraphReader::new(&tiles, Some(&foreign_traffic)).unwrap();
    assert!(reader.traffic_tile(gid(2, LOCAL_TILE, 0)).is_none());
}

#[test]
fn malformed_archives() {
    // a truncated tile archive is fatal
    let mut broken = tile_archive();
    broken.truncate(700);
    assert!(GraphReader::new(&broken, None).is_err());

    // mismatched build identifiers are fatal
    let tiles = tile_archive();
    assert_eq!(
        GraphReader::new(&tiles[..0].to_vec(), None).unwrap().tiles().len(),
        0
    );

    // a malformed traffic archive is not fatal: overlays are just absent
    let garbage = vec![1u8; 600];
    let reader = GraphReader::new(&tiles, Some(&garbage)).unwrap();
    assert!(reader.traffic_tile(gid(2, LOCAL_TILE, 0)).is_none());
}
