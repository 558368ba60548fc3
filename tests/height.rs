use sdk_client::height::to_node_height;

#[test]
fn height_zero_is_kept() {
    assert_eq!(to_node_height(0).map(|n| n.value()), Some(0));
}

#[test]
fn height_in_range_is_kept() {
    assert_eq!(to_node_height(7).map(|n| n.value()), Some(7));
    assert_eq!(to_node_height(26657).map(|n| n.value()), Some(26657));
}

#[test]
fn largest_representable_height_is_kept() {
    let h = i64::MAX as u64;
    assert_eq!(to_node_height(h).map(|n| n.value()), Some(h));
}

#[test]
fn height_past_signed_range_is_rejected() {
    assert!(to_node_height(i64::MAX as u64 + 1).is_none());
    assert!(to_node_height(u64::MAX).is_none());
}
