use valhalla::ref_within_slice;

#[test]
fn test_ref_within_slice() {
    let data = [10, 20, 30, 40, 50];
    assert!(ref_within_slice(&data, &data[0]));
    assert!(ref_within_slice(&data, &data[2]));
    assert!(ref_within_slice(&data, &data[4]));

    let outside = 30;
    assert!(!ref_within_slice(&data, &outside));

    let subslice = &data[1..4];
    assert!(!ref_within_slice(subslice, &data[0]));
    assert!(ref_within_slice(subslice, &data[1]));
    assert!(ref_within_slice(subslice, &data[2]));
    assert!(ref_within_slice(subslice, &data[3]));
    assert!(!ref_within_slice(subslice, &data[4]));
}
