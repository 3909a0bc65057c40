use vulkan_playground::UVec2;

#[test]
fn extent_round_trip_small() {
    let v = UVec2::new(3, 5);
    let e = v.into_extent();
    assert_eq!(e, [3, 5, 1]);
    let back = UVec2::from_extent(&e);
    assert_eq!(back, v);
}

#[test]
fn extent_round_trip_large() {
    let v = UVec2::new(u32::MAX, 1);
    let back = UVec2::from_extent(&v.into_extent());
    assert_eq!(back, UVec2(u32::MAX, 1));
}

#[test]
fn extent_depth_is_one() {
    assert_eq!(UVec2::new(2048, 2048).into_extent(), [2048, 2048, 1]);
}

#[test]
fn from_pair() {
    let v = UVec2::from((7, 9));
    assert_eq!(v, UVec2(7, 9));
}
