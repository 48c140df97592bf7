use sm_ntfs_core::{BlockDevice, BlockDeviceAdapter, SMNtfsError, SeekFrom};

/// One sequential read through the adapter, served from `store`.
fn read_into(adapter: &mut BlockDeviceAdapter, store: &[u8], buf: &mut [u8]) -> Result<usize, SMNtfsError> {
    let req = adapter.read_request(buf.len())?;
    let start = req.offset() as usize;
    let end = start + req.size();
    let outcome = if end <= store.len() {
        Ok(store[start..end].to_vec())
    } else {
        Err("failed to fill whole buffer".to_string())
    };
    let data = adapter.complete_read(&req, outcome)?;
    buf[..data.len()].copy_from_slice(&data);
    Ok(data.len())
}

#[test]
fn test_block_device_adapter_read() {
    let test_data = b"Hello, NTFS!";
    let device = BlockDevice::new(test_data.len() as u64, true);
    let mut adapter = BlockDeviceAdapter::new(device);

    let mut buf = vec![0u8; 12];
    let bytes_read = read_into(&mut adapter, test_data, &mut buf).unwrap();

    assert_eq!(bytes_read, 12);
    assert_eq!(&buf, test_data);
    assert_eq!(adapter.position(), 12);
}

#[test]
fn test_block_device_adapter_seek() {
    let device = BlockDevice::new(b"0123456789".len() as u64, true);
    let mut adapter = BlockDeviceAdapter::new(device);

    // Seek to position 5
    adapter.seek(SeekFrom::Start(5)).unwrap();
    assert_eq!(adapter.position(), 5);

    // Seek forward by 2
    adapter.seek(SeekFrom::Current(2)).unwrap();
    assert_eq!(adapter.position(), 7);

    // Seek backward by 3
    adapter.seek(SeekFrom::Current(-3)).unwrap();
    assert_eq!(adapter.position(), 4);
}

#[test]
fn seek_backward_saturates_at_zero() {
    let mut adapter = BlockDeviceAdapter::new(BlockDevice::new(10, true));
    adapter.seek(SeekFrom::Start(4)).unwrap();
    assert_eq!(adapter.seek(SeekFrom::Current(-100)).unwrap(), 0);
    assert_eq!(adapter.position(), 0);
    assert_eq!(adapter.seek(SeekFrom::Current(i64::MIN)).unwrap(), 0);
    assert_eq!(adapter.seek(SeekFrom::End(-3)).unwrap(), 7);
    assert_eq!(adapter.seek(SeekFrom::End(-11)).unwrap(), 0);
    assert_eq!(adapter.seek(SeekFrom::End(5)).unwrap(), 15);
}

#[test]
fn seek_past_largest_offset_is_refused() {
    let mut adapter = BlockDeviceAdapter::new(BlockDevice::new(10, true));
    adapter.seek(SeekFrom::Start(u64::MAX)).unwrap();
    assert!(matches!(adapter.seek(SeekFrom::Current(1)), Err(SMNtfsError::SystemError(_))));
    assert_eq!(adapter.position(), u64::MAX);
}

#[test]
fn sequential_reads_advance_by_bytes_returned() {
    let store = b"0123456789";
    let mut adapter = BlockDeviceAdapter::new(BlockDevice::new(10, true));
    let mut buf = [0u8; 4];
    assert_eq!(read_into(&mut adapter, store, &mut buf).unwrap(), 4);
    assert_eq!(&buf, b"0123");
    assert_eq!(adapter.position(), 4);
    assert_eq!(read_into(&mut adapter, store, &mut buf).unwrap(), 4);
    assert_eq!(&buf, b"4567");
    assert_eq!(adapter.position(), 8);
    // Two bytes remain: the positioned read cannot fill four.
    assert!(matches!(read_into(&mut adapter, store, &mut buf), Err(SMNtfsError::ReadError(_))));
    assert_eq!(adapter.position(), 8);
    adapter.seek(SeekFrom::End(0)).unwrap();
    assert!(matches!(read_into(&mut adapter, store, &mut buf), Err(SMNtfsError::ReadError(_))));
    assert_eq!(adapter.device().device_size(), 10);
}
