use valhalla::config::Config;

#[test]
fn from_json() {
    let json = r#"{"mjolnir":{"tile_extract":"bad_path_to_tile_extract","traffic_extract":"bad_path_to_traffic_extract"}}"#;
    let config = Config::from_json(json).unwrap();
    assert_eq!(config.tile_extract, "bad_path_to_tile_extract");
    assert_eq!(config.traffic_extract.as_deref(), Some("bad_path_to_traffic_extract"));

    let tiles_only = r#"{"mjolnir":{"tile_extract":"bad_path_to_tile_extract"}}"#;
    let config = Config::from_json(tiles_only).unwrap();
    assert_eq!(config.tile_extract, "bad_path_to_tile_extract");
    assert_eq!(config.traffic_extract, None);

    assert!(Config::from_json("").is_err());
    assert!(Config::from_json("{{{").is_err());
    assert!(Config::from_json("{}").is_err());
    assert!(Config::from_json(r#"{"mjolnir":{}}"#).is_err());
    assert!(Config::from_json(r#"{"mjolnir":{"tile_extract":7}}"#).is_err());
}

#[test]
fn from_tile_extract() {
    let config = Config::from_tile_extract("bad_path_to_tile_extract").unwrap();
    assert_eq!(config.tile_extract, "bad_path_to_tile_extract");
    assert_eq!(config.traffic_extract, None);
}
