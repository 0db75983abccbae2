use draco_decoder::backend::{accept_direct_write, accept_worker_output, direct_output_buffer};
use draco_decoder::{AttributeDataType, MeshDecodeConfig};

#[test]
fn direct_buffer_is_zeroed_and_sized_by_the_layout() {
    let mut config = MeshDecodeConfig::new(16744, 54663);
    config.add_attribute(3, AttributeDataType::Float32);
    config.add_attribute(2, AttributeDataType::Float32);
    let buf = direct_output_buffer(&config);
    assert_eq!(buf.len(), 444206);
    assert!(buf.iter().all(|b| *b == 0));
}

#[test]
fn direct_write_of_zero_bytes_fails() {
    assert_eq!(accept_direct_write(vec![1u8, 2, 3], 0), None);
}

#[test]
fn direct_write_beyond_capacity_fails() {
    assert_eq!(accept_direct_write(vec![1u8, 2, 3], 4), None);
    assert_eq!(accept_direct_write(vec![1u8, 2, 3], usize::MAX), None);
}

#[test]
fn direct_write_within_capacity_is_truncated() {
    assert_eq!(accept_direct_write(vec![1u8, 2, 3, 4], 2), Some(vec![1u8, 2]));
}

#[test]
fn direct_write_of_full_capacity_keeps_buffer() {
    assert_eq!(accept_direct_write(vec![9u8, 8, 7], 3), Some(vec![9u8, 8, 7]));
}

#[test]
fn direct_write_into_empty_buffer_fails() {
    assert_eq!(accept_direct_write(Vec::new(), 0), None);
    assert_eq!(accept_direct_write(Vec::new(), 1), None);
}

#[test]
fn worker_output_of_expected_size_is_kept() {
    assert_eq!(accept_worker_output(Some(vec![5u8, 6, 7]), 3), Some(vec![5u8, 6, 7]));
}

#[test]
fn worker_output_of_other_size_fails() {
    assert_eq!(accept_worker_output(Some(vec![5u8, 6]), 3), None);
    assert_eq!(accept_worker_output(Some(vec![5u8, 6, 7, 8]), 3), None);
}

#[test]
fn worker_rejection_fails() {
    assert_eq!(accept_worker_output(None, 3), None);
}
