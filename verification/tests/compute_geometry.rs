use vulkan_playground::dispatch_group_counts;
use vulkan_playground::output_byte_len;
use vulkan_playground::rgba_output_well_formed;
use vulkan_playground::zero_bytes;
use vulkan_playground::UVec2;

#[test]
fn group_counts_for_default_image() {
    assert_eq!(dispatch_group_counts(UVec2::new(2048, 2048)), [256, 256, 1]);
}

#[test]
fn group_counts_round_down() {
    assert_eq!(dispatch_group_counts(UVec2::new(15, 9)), [1, 1, 1]);
}

#[test]
fn byte_len_for_default_image() {
    assert_eq!(output_byte_len(UVec2::new(2048, 2048)), Some(2048 * 2048 * 4));
}

#[test]
fn byte_len_of_single_pixel() {
    assert_eq!(output_byte_len(UVec2::new(1, 1)), Some(4));
}

#[test]
fn byte_len_overflows_to_none() {
    assert_eq!(output_byte_len(UVec2::new(u32::MAX, u32::MAX)), None);
}

#[test]
fn zero_buffer_data_is_zero_filled() {
    let v = zero_bytes(16);
    assert_eq!(v.len(), 16);
    assert!(v.iter().all(|&b| b == 0));
}

#[test]
fn zero_buffer_data_empty() {
    assert_eq!(zero_bytes(0), Vec::<u8>::new());
}

#[test]
fn opaque_output_is_well_formed() {
    let bytes = vec![10, 20, 30, 255, 40, 50, 60, 255];
    assert!(rgba_output_well_formed(&bytes, UVec2::new(2, 1)));
}

#[test]
fn transparent_texel_is_rejected() {
    let bytes = vec![10, 20, 30, 255, 40, 50, 60, 254];
    assert!(!rgba_output_well_formed(&bytes, UVec2::new(2, 1)));
}

#[test]
fn wrong_length_is_rejected() {
    let bytes = vec![10, 20, 30, 255];
    assert!(!rgba_output_well_formed(&bytes, UVec2::new(2, 1)));
}

#[test]
fn oversized_dimensions_are_rejected() {
    let bytes = vec![0u8; 4];
    assert!(!rgba_output_well_formed(&bytes, UVec2::new(u32::MAX, u32::MAX)));
}
