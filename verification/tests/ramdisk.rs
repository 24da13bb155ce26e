use blckext::ramdisk::{EINVAL, ENOSPC};
use blckext::{BlckExt, DiscardMode, Error, RamDisk};

fn disk(block_size: u64, blocks: u64, fill: u8, mode: DiscardMode) -> RamDisk {
    RamDisk::new(block_size, blocks, fill, mode).expect("a device of this size exists")
}

#[test]
fn geometry_of_a_megabyte_device() {
    let d = disk(4096, 256, 0, DiscardMode::Unsupported);
    assert!(d.is_block_device());
    assert_eq!(d.get_size_of_block(), Ok(4096));
    assert_eq!(d.get_block_device_size(), Ok(1_048_576));
    assert_eq!(d.get_block_count(), Ok(256));
}

#[test]
fn geometry_is_consistent() {
    let d = disk(512, 7, 0, DiscardMode::Keeps);
    let size = d.get_block_device_size().unwrap();
    let block = d.get_size_of_block().unwrap();
    let count = d.get_block_count().unwrap();
    assert_eq!(size, block * count);
    assert_eq!(size, 3584);
}

#[test]
fn no_device_without_block_size_or_beyond_memory() {
    assert!(RamDisk::new(0, 8, 0, DiscardMode::Keeps).is_none());
    assert!(RamDisk::new(u64::MAX, 2, 0, DiscardMode::Keeps).is_none());
    assert!(RamDisk::new(512, 0, 0, DiscardMode::Keeps).is_some());
}

#[test]
fn new_device_is_filled_and_at_its_start() {
    let mut d = disk(16, 2, 0xAB, DiscardMode::Keeps);
    assert_eq!(d.as_bytes(), &[0xABu8; 32][..]);
    assert_eq!(d.stream_position(), Ok(0));
}

#[test]
fn zero_out_zeroes_the_range_and_nothing_else() {
    let mut d = disk(512, 8, 0xFF, DiscardMode::Unsupported);
    assert_eq!(d.block_zero_out(512, 2048), Ok(()));
    let bytes = d.as_bytes();
    assert_eq!(bytes.len(), 4096);
    assert!(bytes[..512].iter().all(|b| *b == 0xFF));
    assert!(bytes[512..2560].iter().all(|b| *b == 0));
    assert!(bytes[2560..].iter().all(|b| *b == 0xFF));
    assert_eq!(d.seek(512), Ok(512));
    assert_eq!(d.read(2048), Ok(vec![0u8; 2048]));
}

#[test]
fn zero_out_puts_the_position_back() {
    let mut d = disk(512, 8, 0xFF, DiscardMode::Unsupported);
    assert_eq!(d.seek(100), Ok(100));
    assert_eq!(d.block_zero_out(512, 2048), Ok(()));
    assert_eq!(d.stream_position(), Ok(100));
    assert_eq!(d.seek(4000), Ok(4000));
    assert_eq!(d.block_zero_out(0, 1), Ok(()));
    assert_eq!(d.stream_position(), Ok(4000));
}

#[test]
fn zero_out_twice_is_zero_out_once() {
    let mut once = disk(512, 8, 0x5A, DiscardMode::Unsupported);
    let mut twice = disk(512, 8, 0x5A, DiscardMode::Unsupported);
    assert_eq!(once.block_zero_out(700, 1500), Ok(()));
    assert_eq!(twice.block_zero_out(700, 1500), Ok(()));
    assert_eq!(twice.block_zero_out(700, 1500), Ok(()));
    assert_eq!(once.as_bytes(), twice.as_bytes());
    assert_eq!(once.stream_position(), twice.stream_position());
}

#[test]
fn zero_out_at_chunk_boundaries() {
    for len in [0u64, 1, 1023, 1024, 1025, 2047, 2048, 2049, 3000] {
        let mut d = disk(512, 8, 0xFF, DiscardMode::Unsupported);
        assert_eq!(d.block_zero_out(3, len), Ok(()));
        let bytes = d.as_bytes();
        let end = 3 + len as usize;
        assert!(bytes[..3].iter().all(|b| *b == 0xFF), "before, len {}", len);
        assert!(bytes[3..end].iter().all(|b| *b == 0), "inside, len {}", len);
        assert!(bytes[end..].iter().all(|b| *b == 0xFF), "behind, len {}", len);
    }
}

#[test]
fn zero_out_of_the_whole_device() {
    let mut d = disk(512, 8, 0xFF, DiscardMode::Unsupported);
    assert_eq!(d.block_zero_out(0, 4096), Ok(()));
    assert_eq!(d.as_bytes(), &[0u8; 4096][..]);
}

#[test]
fn zero_out_beyond_the_device_fails() {
    let mut d = disk(512, 8, 0xFF, DiscardMode::Unsupported);
    assert_eq!(d.block_zero_out(4000, 200), Err(Error::DeviceError(ENOSPC)));
    assert_eq!(d.block_zero_out(5000, 1), Err(Error::DeviceError(ENOSPC)));
    assert_eq!(d.block_zero_out(5000, 0), Ok(()));
}

#[test]
fn no_discard_support() {
    let mut d = disk(4096, 2, 0xFF, DiscardMode::Unsupported);
    assert_eq!(d.block_discard_zeros(), Ok(false));
    assert_eq!(d.block_discard(0, 4096), Err(Error::UnsupportedOperation));
    assert_eq!(d.as_bytes(), &[0xFFu8; 8192][..]);
    assert_eq!(d.block_reread_paritions(), Err(Error::UnsupportedOperation));
}

#[test]
fn fast_zero_out_without_discard_returns_unsupported() {
    let mut d = disk(4096, 2, 0x11, DiscardMode::Unsupported);
    assert_eq!(d.block_fast_zero_out(0, 8192), Err(Error::UnsupportedOperation));
    // The poison was written and nothing was read back: the position is
    // where the seek before the discard left it.
    assert_eq!(d.stream_position(), Ok(0));
    assert!(d.as_bytes()[..1024].iter().all(|b| *b == 0xFF));
    assert!(d.as_bytes()[1024..].iter().all(|b| *b == 0x11));
}

#[test]
fn fast_zero_out_with_a_zeroing_discard() {
    let mut d = disk(4096, 4, 0x77, DiscardMode::Zeroes);
    assert_eq!(d.block_discard_zeros(), Ok(true));
    assert_eq!(d.seek(9000), Ok(9000));
    assert_eq!(d.block_fast_zero_out(0, 8192), Ok(()));
    assert_eq!(d.stream_position(), Ok(0));
    assert_eq!(d.read(8192), Ok(vec![0u8; 8192]));
    assert!(d.as_bytes()[8192..].iter().all(|b| *b == 0x77));
}

#[test]
fn fast_zero_out_of_a_short_range() {
    let mut d = disk(512, 8, 0x77, DiscardMode::Zeroes);
    assert_eq!(d.block_fast_zero_out(100, 10), Ok(()));
    assert_eq!(d.stream_position(), Ok(100));
    let bytes = d.as_bytes();
    assert!(bytes[..100].iter().all(|b| *b == 0x77));
    assert!(bytes[100..110].iter().all(|b| *b == 0));
    assert!(bytes[110..].iter().all(|b| *b == 0x77));
}

#[test]
fn fast_zero_out_of_nothing() {
    let mut d = disk(512, 8, 0x77, DiscardMode::Keeps);
    assert_eq!(d.block_fast_zero_out(100, 0), Ok(()));
    assert_eq!(d.stream_position(), Ok(100));
    assert_eq!(d.as_bytes(), &[0x77u8; 4096][..]);
}

#[test]
fn fast_zero_out_with_a_discard_that_keeps_fails_verification() {
    let mut d = disk(4096, 2, 0x00, DiscardMode::Keeps);
    assert_eq!(d.block_discard_zeros(), Ok(false));
    assert_eq!(d.block_fast_zero_out(0, 8192), Err(Error::VerificationFailed));
    assert_eq!(d.stream_position(), Ok(0));
}

#[test]
fn discard_beyond_the_device_fails() {
    let mut d = disk(512, 2, 0xFF, DiscardMode::Zeroes);
    assert_eq!(d.block_discard(1000, 100), Err(Error::DeviceError(EINVAL)));
    assert_eq!(d.block_discard(2000, 0), Err(Error::DeviceError(EINVAL)));
    assert_eq!(d.as_bytes(), &[0xFFu8; 1024][..]);
    assert_eq!(d.block_discard(1024, 0), Ok(()));
    assert_eq!(d.block_discard(1000, 24), Ok(()));
    assert!(d.as_bytes()[..1000].iter().all(|b| *b == 0xFF));
    assert!(d.as_bytes()[1000..].iter().all(|b| *b == 0));
}

#[test]
fn discard_that_keeps_changes_nothing() {
    let mut d = disk(512, 2, 0xFF, DiscardMode::Keeps);
    assert_eq!(d.block_discard(0, 1024), Ok(()));
    assert_eq!(d.as_bytes(), &[0xFFu8; 1024][..]);
}

#[test]
fn write_and_read_move_the_position() {
    let mut d = disk(16, 1, 0, DiscardMode::Keeps);
    assert_eq!(d.write_all(&[1, 2, 3]), Ok(()));
    assert_eq!(d.stream_position(), Ok(3));
    assert_eq!(d.seek(1), Ok(1));
    assert_eq!(d.read(4), Ok(vec![2, 3, 0, 0]));
    assert_eq!(d.stream_position(), Ok(5));
    assert_eq!(d.seek(14), Ok(14));
    assert_eq!(d.read(4), Ok(vec![0, 0]));
    assert_eq!(d.stream_position(), Ok(16));
    assert_eq!(d.read(4), Ok(vec![]));
    assert_eq!(d.seek(100), Ok(100));
    assert_eq!(d.read(4), Ok(vec![]));
    assert_eq!(d.stream_position(), Ok(100));
}

#[test]
fn write_that_does_not_fit_fails_and_changes_nothing() {
    let mut d = disk(16, 1, 9, DiscardMode::Keeps);
    assert_eq!(d.seek(14), Ok(14));
    assert_eq!(d.write_all(&[1, 2, 3]), Err(Error::DeviceError(ENOSPC)));
    assert_eq!(d.stream_position(), Ok(14));
    assert_eq!(d.as_bytes(), &[9u8; 16][..]);
    assert_eq!(d.write_all(&[1, 2]), Ok(()));
    assert_eq!(d.write_all(&[]), Ok(()));
    assert_eq!(d.seek(99), Ok(99));
    assert_eq!(d.write_all(&[]), Ok(()));
    assert_eq!(d.sync_data(), Ok(()));
}
