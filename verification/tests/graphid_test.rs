use valhalla::graphid::GraphId;

#[test]
fn graph_id() {
    let id = GraphId::new(5411833275938);
    assert_eq!(id.level(), 2);
    assert_eq!(id.tileid(), 838852);
    assert_eq!(id.id(), 161285);
    assert_eq!(GraphId::from_parts(id.level(), id.tileid(), id.id()), Some(id));
    assert_eq!(id.text(), "2/838852/161285");

    let base = id.tile();
    assert_eq!(base.level(), 2);
    assert_eq!(base.tileid(), 838852);
    assert_eq!(base.id(), 0);
    assert_eq!(GraphId::from_parts(id.level(), id.tileid(), 0), Some(base));

    let default_id = GraphId::default();
    assert_eq!(default_id.level(), 7);
    assert_eq!(default_id.tileid(), 4194303);
    assert_eq!(default_id.id(), 2097151);

    assert_eq!(GraphId::from_parts(8, id.tileid(), 0), None);
}

#[test]
fn pack_round_trip() {
    for (l, t, i) in [(0, 0, 0), (2, 838852, 161285), (7, 4194303, 2097151), (1, 47701, 5)] {
        let id = GraphId::from_parts(l, t, i).unwrap();
        assert_eq!(id.level(), l);
        assert_eq!(id.tileid(), t);
        assert_eq!(id.id(), i);
    }
    assert_eq!(GraphId::from_parts(0, 4194304, 0), None);
    assert_eq!(GraphId::from_parts(0, 0, 2097152), None);
}

#[test]
fn upper_bits_ignored() {
    // bits above the payload carry no identity
    let spare = GraphId::new(5411833275938 | (0xff << 50));
    assert_eq!(spare, GraphId::new(5411833275938));
    assert_eq!(spare.value, 5411833275938);
    assert!(GraphId::default().is_invalid());
}
