use blckext::geometry::{block_count, device_size};

#[test]
fn block_count_of_a_megabyte_in_4k_blocks() {
    assert_eq!(block_count(1_048_576, 4096), 256);
}

#[test]
fn block_count_truncates() {
    assert_eq!(block_count(1000, 512), 1);
    assert_eq!(block_count(511, 512), 0);
    assert_eq!(block_count(0, 512), 0);
    assert_eq!(block_count(u64::MAX, 1), u64::MAX);
    assert_eq!(block_count(u64::MAX, u64::MAX), 1);
}

#[test]
fn device_size_is_the_product() {
    assert_eq!(device_size(4096, 256), 1_048_576);
    assert_eq!(device_size(512, 0), 0);
    assert_eq!(device_size(0, 77), 0);
    assert_eq!(device_size(1, u64::MAX), u64::MAX);
}

#[test]
fn derived_values_agree() {
    let block_size: u64 = 512;
    let count: u64 = 123_456;
    let size = device_size(block_size, count);
    assert_eq!(block_count(size, block_size), count);
    assert_eq!(device_size(block_size, block_count(size, block_size)), size);
}
