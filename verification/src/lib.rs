//! Block device extensions: one capability contract over raw block devices,
//! the generic zeroing algorithms built on it, and the rules by which each
//! platform family's native answers become that contract's values.

pub mod device;
pub mod error;
pub mod freebsd;
pub mod geometry;
pub mod linux;
pub mod macos;
pub mod model;
pub mod ramdisk;

pub use crate::device::BlckExt;
pub use crate::error::{io_error, to_io, Error, NativeError};
pub use crate::macos::{dk_extent, dk_unmap};
pub use crate::ramdisk::{DiscardMode, RamDisk};
