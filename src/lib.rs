//! Block-storage access layer: a bounded byte queue for write staging, a
//! sync-policy engine, a bounds-checked block device core and a
//! seekable byte-stream view over that device.

pub mod buffer;
pub mod config;
pub mod device;
pub mod entries;
pub mod error;
pub mod stream;
pub mod sync;

pub use buffer::IOBuffer;
pub use config::{Config, SMNtfsFilesystem};
pub use device::{BlockDevice, DEFAULT_SECTOR_SIZE};
pub use entries::{FileInfo, StreamInfo};
pub use error::SMNtfsError;
pub use stream::{BlockDeviceAdapter, SeekFrom};
pub use sync::{SyncManager, SyncPolicy};
