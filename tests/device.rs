use sm_ntfs_core::device::{device_not_found, metadata_unavailable, ReadRequest, WriteRequest};
use sm_ntfs_core::{BlockDevice, SMNtfsError, DEFAULT_SECTOR_SIZE};

/// A backing store held in memory, standing where the host's file would.
struct Disk {
    bytes: Vec<u8>,
}

impl Disk {
    fn pread(&self, req: &ReadRequest) -> Result<Vec<u8>, String> {
        let start = req.offset() as usize;
        let end = start + req.size();
        if end > self.bytes.len() {
            return Err("failed to fill whole buffer".to_string());
        }
        Ok(self.bytes[start..end].to_vec())
    }

    fn pwrite(&mut self, req: &WriteRequest, data: &[u8]) -> Result<(), String> {
        let start = req.offset() as usize;
        if self.bytes.len() < start + data.len() {
            self.bytes.resize(start + data.len(), 0);
        }
        self.bytes[start..start + data.len()].copy_from_slice(data);
        Ok(())
    }

    fn read_block(&self, device: &BlockDevice, block: u64) -> Result<Vec<u8>, SMNtfsError> {
        let req = device.read_block(block)?;
        req.complete(self.pread(&req))
    }

    fn write_block(
        &mut self,
        device: &BlockDevice,
        block: u64,
        data: &[u8],
    ) -> Result<(), SMNtfsError> {
        let req = device.write_block(block, data)?;
        let outcome = self.pwrite(&req, data);
        req.complete(outcome)
    }

    fn flush(&self, device: &BlockDevice) -> Result<(), SMNtfsError> {
        if device.flush_required() {
            BlockDevice::complete_flush(Ok(()))
        } else {
            Ok(())
        }
    }
}

#[test]
fn test_open_device() {
    let disk = Disk { bytes: vec![0u8; 4096] };
    let device = BlockDevice::new(disk.bytes.len() as u64, true);
    assert_eq!(device.block_size(), DEFAULT_SECTOR_SIZE);
    assert_eq!(device.device_size(), 4096);
    assert!(device.is_read_only());
}

#[test]
fn test_read_block() {
    let disk = Disk { bytes: vec![0xAB; 512] };
    let device = BlockDevice::new(disk.bytes.len() as u64, true);
    let block_data = disk.read_block(&device, 0).unwrap();

    assert_eq!(block_data.len(), 512);
    assert_eq!(block_data[0], 0xAB);
}

#[test]
fn test_read_write() {
    let mut disk = Disk { bytes: vec![0u8; 4096] };
    let device = BlockDevice::new(disk.bytes.len() as u64, false);

    let write_data = vec![0xCD; 512];
    disk.write_block(&device, 0, &write_data).unwrap();
    disk.flush(&device).unwrap();

    let read_data = disk.read_block(&device, 0).unwrap();
    assert_eq!(read_data, write_data);
}

#[test]
fn test_read_only_write_fails() {
    let mut disk = Disk { bytes: vec![0u8; 512] };
    let device = BlockDevice::new(disk.bytes.len() as u64, true);
    let result = disk.write_block(&device, 0, &vec![0xFF; 512]);

    assert!(result.is_err());
    assert!(matches!(result.unwrap_err(), SMNtfsError::PermissionDenied(_)));
    assert_eq!(disk.bytes, vec![0u8; 512]);
}

#[test]
fn reads_and_writes_at_or_past_the_end_are_bounds_errors() {
    let device = BlockDevice::new(4096, false);
    match device.read_at(4096, 1) {
        Err(SMNtfsError::ReadError(m)) => assert_eq!(m, "Offset 4096 exceeds device size 4096"),
        _ => panic!("expected a read error"),
    }
    assert!(matches!(device.read_at(u64::MAX, 0), Err(SMNtfsError::ReadError(_))));
    match device.write_at(5000, &[1]) {
        Err(SMNtfsError::WriteError(m)) => assert_eq!(m, "Offset 5000 exceeds device size 4096"),
        _ => panic!("expected a write error"),
    }
    assert!(matches!(device.read_block(8), Err(SMNtfsError::ReadError(_))));
    assert!(matches!(device.read_block(u64::MAX), Err(SMNtfsError::ReadError(_))));
    assert!(matches!(
        device.write_block(8, &[0u8; 512]),
        Err(SMNtfsError::WriteError(_))
    ));
    let last = device.read_at(4095, 1).unwrap();
    assert_eq!((last.offset(), last.size()), (4095, 1));
}

#[test]
fn read_only_refusal_comes_before_bounds() {
    let device = BlockDevice::new(512, true);
    match device.write_at(10_000, &[1, 2]) {
        Err(SMNtfsError::PermissionDenied(m)) => assert_eq!(m, "Device opened in read-only mode"),
        _ => panic!("expected permission denied"),
    }
    assert!(!device.flush_required());
}

#[test]
fn block_write_needs_exactly_one_block() {
    let device = BlockDevice::new(4096, false);
    match device.write_block(0, &[0u8; 100]) {
        Err(SMNtfsError::WriteError(m)) => {
            assert_eq!(m, "Data size 100 does not match block size 512")
        }
        _ => panic!("expected a write error"),
    }
    let req = device.write_block(3, &[0u8; 512]).unwrap();
    assert_eq!(req.offset(), 1536);
}

#[test]
fn block_ranges_and_count() {
    let device = BlockDevice::new(4096 + 100, true);
    assert_eq!(device.block_count(), 8);
    let req = device.read_blocks(2, 3).unwrap();
    assert_eq!((req.offset(), req.size()), (1024, 1536));
    let one = device.read_block(7).unwrap();
    assert_eq!((one.offset(), one.size()), (3584, 512));
}

#[test]
fn short_or_failed_positioned_io_is_reported_with_offset() {
    let device = BlockDevice::new(1024, false);
    let req = device.read_at(1000, 24).unwrap();
    match req.complete(Ok(vec![0u8; 10])) {
        Err(SMNtfsError::ReadError(m)) => {
            assert_eq!(m, "Failed to read at offset 1000: expected 24 bytes, got 10")
        }
        _ => panic!("expected a read error"),
    }
    match req.complete(Err("Input/output error".to_string())) {
        Err(SMNtfsError::ReadError(m)) => {
            assert_eq!(m, "Failed to read at offset 1000: Input/output error")
        }
        _ => panic!("expected a read error"),
    }
    assert_eq!(req.complete(Ok(vec![7u8; 24])).unwrap(), vec![7u8; 24]);

    let w = device.write_at(12, &[1]).unwrap();
    match w.complete(Err("No space left on device".to_string())) {
        Err(SMNtfsError::WriteError(m)) => {
            assert_eq!(m, "Failed to write at offset 12: No space left on device")
        }
        _ => panic!("expected a write error"),
    }
    assert!(w.complete(Ok(())).is_ok());
}

#[test]
fn flush_outcomes() {
    let device = BlockDevice::new(512, false);
    assert!(device.flush_required());
    assert!(BlockDevice::complete_flush(Ok(())).is_ok());
    match BlockDevice::complete_flush(Err("EIO".to_string())) {
        Err(SMNtfsError::FlushFailed(m)) => assert_eq!(m, "Failed to sync device: EIO"),
        _ => panic!("expected a flush failure"),
    }
}

#[test]
fn open_errors() {
    match device_not_found("/dev/disk9", "No such file or directory") {
        SMNtfsError::DeviceNotFound(m) => assert_eq!(m, "/dev/disk9: No such file or directory"),
        _ => panic!("expected device not found"),
    }
    match metadata_unavailable("denied") {
        SMNtfsError::SystemError(m) => assert_eq!(m, "Failed to get device metadata: denied"),
        _ => panic!("expected a system error"),
    }
}
