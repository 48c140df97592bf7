//! The block device core: geometry, access mode, bounds checks and the
//! meaning of each positioned I/O outcome.
//!
//! The host performs the positioned read, write or sync that a validated
//! request names, and hands the outcome back to be judged here.

use crate::error::{decimal, decimal_text, join, SMNtfsError};
use vstd::prelude::*;

verus! {

/// Default block size: one 512-byte sector.
pub const DEFAULT_SECTOR_SIZE: usize = 512;

/// Text of a request that starts at or past the end of the device.
pub open spec fn out_of_bounds_text(offset: u64, device_size: u64) -> Seq<char> {
    "Offset "@ + decimal(offset as nat) + " exceeds device size "@ + decimal(device_size as nat)
}

/// Text of a positioned read that failed.
pub open spec fn read_failed_text(offset: u64, reason: Seq<char>) -> Seq<char> {
    "Failed to read at offset "@ + decimal(offset as nat) + ": "@ + reason
}

/// Text of a positioned read that returned the wrong number of bytes.
pub open spec fn short_read_text(offset: u64, expected: nat, actual: nat) -> Seq<char> {
    read_failed_text(
        offset,
        "expected "@ + decimal(expected) + " bytes, got "@ + decimal(actual),
    )
}

/// Text of a positioned write that failed.
pub open spec fn write_failed_text(offset: u64, reason: Seq<char>) -> Seq<char> {
    "Failed to write at offset "@ + decimal(offset as nat) + ": "@ + reason
}

/// Text of a block write whose data is not one block long.
pub open spec fn block_size_mismatch_text(len: nat, block_size: nat) -> Seq<char> {
    "Data size "@ + decimal(len) + " does not match block size "@ + decimal(block_size)
}

/// The text of a write refused on a read-only handle.
pub open spec fn read_only_text() -> Seq<char> {
    "Device opened in read-only mode"@
}

/// `a` followed by the decimal digits of `n` and then `b`.
fn text_with_number(a: &str, n: u64, b: &str) -> (r: String)
    ensures
        r@ == a@ + decimal(n as nat) + b@,
{
    let digits = decimal_text(n);
    let mut r = join(a, digits.as_str());
    r.append(b);
    r
}

fn out_of_bounds_message(offset: u64, device_size: u64) -> (r: String)
    ensures
        r@ == out_of_bounds_text(offset, device_size),
{
    let mut r = text_with_number("Offset ", offset, " exceeds device size ");
    let digits = decimal_text(device_size);
    r.append(digits.as_str());
    r
}

/// The error for a path that could not be opened: the path, then the reason.
pub fn device_not_found(path: &str, reason: &str) -> (r: SMNtfsError)
    ensures
        r matches SMNtfsError::DeviceNotFound(m) && m@ == path@ + ": "@ + reason@,
{
    let mut m = join(path, ": ");
    m.append(reason);
    SMNtfsError::DeviceNotFound(m)
}

/// The error for a device whose size could not be determined.
pub fn metadata_unavailable(reason: &str) -> (r: SMNtfsError)
    ensures
        r matches SMNtfsError::SystemError(m) && m@ == "Failed to get device metadata: "@
            + reason@,
{
    SMNtfsError::SystemError(join("Failed to get device metadata: ", reason))
}

/// A positioned read that a device accepted: `size` bytes at `offset`.
/// The range never runs past the largest 64-bit offset.
pub struct ReadRequest {
    offset: u64,
    size: usize,
}

impl ReadRequest {
    #[verifier::type_invariant]
    spec fn inv(self) -> bool {
        self.offset + self.size <= u64::MAX
    }

    /// Where the read starts.
    pub closed spec fn spec_offset(&self) -> u64 {
        self.offset
    }

    /// How many bytes it must return.
    pub closed spec fn spec_size(&self) -> usize {
        self.size
    }

    /// Where the read starts.
    pub fn offset(&self) -> (r: u64)
        ensures
            r == self.spec_offset(),
    {
        self.offset
    }

    /// How many bytes it must return.
    pub fn size(&self) -> (r: usize)
        ensures
            r == self.spec_size(),
    {
        self.size
    }

    /// Judge what the host's positioned read gave back: exactly `size`
    /// bytes succeed as they are; fewer or more, or a failure, are a
    /// `ReadError` that names the offset.
    pub fn complete(&self, outcome: Result<Vec<u8>, String>) -> (r: Result<Vec<u8>, SMNtfsError>)
        ensures
            self.spec_offset() + self.spec_size() <= u64::MAX,
            match outcome {
                Ok(d) => if d@.len() == self.spec_size() {
                    r matches Ok(v) && v@ == d@
                } else {
                    r matches Err(SMNtfsError::ReadError(m)) && m@ == short_read_text(
                        self.spec_offset(),
                        self.spec_size() as nat,
                        d@.len(),
                    )
                },
                Err(e) => r matches Err(SMNtfsError::ReadError(m)) && m@ == read_failed_text(
                    self.spec_offset(),
                    e@,
                ),
            },
    {
        proof {
            use_type_invariant(self);
        }
        match outcome {
            Ok(d) => {
                if d.len() == self.size {
                    Ok(d)
                } else {
                    let mut detail = text_with_number("expected ", self.size as u64, " bytes, got ");
                    let got = decimal_text(d.len() as u64);
                    detail.append(got.as_str());
                    let mut m = text_with_number("Failed to read at offset ", self.offset, ": ");
                    m.append(detail.as_str());
                    Err(SMNtfsError::ReadError(m))
                }
            },
            Err(e) => {
                let mut m = text_with_number("Failed to read at offset ", self.offset, ": ");
                m.append(e.as_str());
                Err(SMNtfsError::ReadError(m))
            },
        }
    }
}

/// A positioned write that a device accepted, at `offset`.
pub struct WriteRequest {
    offset: u64,
}

impl WriteRequest {
    /// Where the write starts.
    pub closed spec fn spec_offset(&self) -> u64 {
        self.offset
    }

    /// Where the write starts.
    pub fn offset(&self) -> (r: u64)
        ensures
            r == self.spec_offset(),
    {
        self.offset
    }

    /// Judge what the host's positioned write reported: success stays
    /// success; a failure is a `WriteError` that names the offset.
    pub fn complete(&self, outcome: Result<(), String>) -> (r: Result<(), SMNtfsError>)
        ensures
            match outcome {
                Ok(_) => r is Ok,
                Err(e) => r matches Err(SMNtfsError::WriteError(m)) && m@ == write_failed_text(
                    self.spec_offset(),
                    e@,
                ),
            },
    {
        match outcome {
            Ok(_) => Ok(()),
            Err(e) => {
                let mut m = text_with_number("Failed to write at offset ", self.offset, ": ");
                m.append(e.as_str());
                Err(SMNtfsError::WriteError(m))
            },
        }
    }
}

/// One open storage device: fixed block size, total size in bytes, and
/// access mode.
#[derive(Debug, Clone, Copy, PartialEq, Eq, Structural)]
pub struct BlockDevice {
    block_size: usize,
    device_size: u64,
    read_only: bool,
}

impl BlockDevice {
    /// Bytes per addressable block.
    pub closed spec fn spec_block_size(&self) -> usize {
        self.block_size
    }

    /// Total size in bytes.
    pub closed spec fn spec_device_size(&self) -> u64 {
        self.device_size
    }

    /// Whether writes are refused.
    pub closed spec fn spec_read_only(&self) -> bool {
        self.read_only
    }

    /// The block size is positive.
    pub open spec fn wf(&self) -> bool {
        self.spec_block_size() > 0
    }

    /// A device of `device_size` bytes, as found when it was opened, with
    /// the default block size.
    pub fn new(device_size: u64, read_only: bool) -> (r: Self)
        ensures
            r.wf(),
            r.spec_block_size() == DEFAULT_SECTOR_SIZE,
            r.spec_device_size() == device_size,
            r.spec_read_only() == read_only,
    {
        BlockDevice { block_size: DEFAULT_SECTOR_SIZE, device_size, read_only }
    }

    /// Accept a read of `size` bytes at `offset` when `offset` lies on the
    /// device; otherwise a `ReadError`. A range that would run past the
    /// largest 64-bit offset cannot be filled and is refused the same way.
    pub fn read_at(&self, offset: u64, size: usize) -> (r: Result<ReadRequest, SMNtfsError>)
        ensures
            offset >= self.spec_device_size() ==> (r matches Err(SMNtfsError::ReadError(m))
                && m@ == out_of_bounds_text(offset, self.spec_device_size())),
            offset < self.spec_device_size() && offset + size > u64::MAX ==> (r matches Err(
                SMNtfsError::ReadError(_),
            )),
            offset < self.spec_device_size() && offset + size <= u64::MAX ==> (r matches Ok(q)
                && q.spec_offset() == offset && q.spec_size() == size),
    {
        if offset >= self.device_size {
            return Err(SMNtfsError::ReadError(out_of_bounds_message(offset, self.device_size)));
        }
        if size as u64 > u64::MAX - offset {
            let m = text_with_number("Read of ", size as u64, " bytes runs past the largest offset");
            return Err(SMNtfsError::ReadError(m));
        }
        Ok(ReadRequest { offset, size })
    }

    /// Accept a read of block `block`: `block_size` bytes at
    /// `block * block_size`, under the rules of `read_at`. A block whose
    /// offset exceeds 64 bits lies past the end of the device.
    pub fn read_block(&self, block: u64) -> (r: Result<ReadRequest, SMNtfsError>)
        requires
            self.wf(),
        ensures
            block * self.spec_block_size() >= self.spec_device_size() ==> (r matches Err(
                SMNtfsError::ReadError(_),
            )),
            block * self.spec_block_size() < self.spec_device_size() && block
                * self.spec_block_size() + self.spec_block_size() <= u64::MAX ==> (r matches Ok(q)
                && q.spec_offset() == block * self.spec_block_size() && q.spec_size()
                == self.spec_block_size()),
            r is Err ==> r->Err_0 is ReadError,
    {
        self.read_blocks(block, 1)
    }

    /// Accept a read of `count` blocks from block `start`: `count *
    /// block_size` bytes at `start * block_size`, under the rules of
    /// `read_at`.
    pub fn read_blocks(&self, start: u64, count: usize) -> (r: Result<ReadRequest, SMNtfsError>)
        requires
            self.wf(),
            count * self.spec_block_size() <= usize::MAX,
        ensures
            start * self.spec_block_size() >= self.spec_device_size() ==> (r matches Err(
                SMNtfsError::ReadError(_),
            )),
            start * self.spec_block_size() < self.spec_device_size() && start
                * self.spec_block_size() + count * self.spec_block_size() <= u64::MAX ==> (r matches Ok(q)
                && q.spec_offset() == start * self.spec_block_size() && q.spec_size() == count
                * self.spec_block_size()),
            r is Err ==> r->Err_0 is ReadError,
    {
        let size = count * self.block_size;
        match start.checked_mul(self.block_size as u64) {
            Some(offset) => self.read_at(offset, size),
            None => {
                let m = text_with_number("Block ", start, " lies past the end of the device");
                Err(SMNtfsError::ReadError(m))
            },
        }
    }

    /// Accept a write of `data` at `offset`: refused with
    /// `PermissionDenied` on a read-only device, else with a `WriteError`
    /// when `offset` does not lie on the device.
    pub fn write_at(&self, offset: u64, data: &[u8]) -> (r: Result<WriteRequest, SMNtfsError>)
        ensures
            self.spec_read_only() ==> (r matches Err(SMNtfsError::PermissionDenied(m)) && m@
                == read_only_text()),
            !self.spec_read_only() && offset >= self.spec_device_size() ==> (r matches Err(
                SMNtfsError::WriteError(m),
            ) && m@ == out_of_bounds_text(offset, self.spec_device_size())),
            !self.spec_read_only() && offset < self.spec_device_size() ==> (r matches Ok(q)
                && q.spec_offset() == offset),
    {
        if self.read_only {
            return Err(SMNtfsError::PermissionDenied(String::from_str("Device opened in read-only mode")));
        }
        if offset >= self.device_size {
            return Err(SMNtfsError::WriteError(out_of_bounds_message(offset, self.device_size)));
        }
        Ok(WriteRequest { offset })
    }

    /// Accept a write of one block: refused with `PermissionDenied` on a
    /// read-only device, with a `WriteError` when `data` is not exactly one
    /// block long, and otherwise under the rules of `write_at` at offset
    /// `block * block_size`.
    pub fn write_block(&self, block: u64, data: &[u8]) -> (r: Result<WriteRequest, SMNtfsError>)
        ensures
            self.spec_read_only() ==> (r matches Err(SMNtfsError::PermissionDenied(m)) && m@
                == read_only_text()),
            !self.spec_read_only() && data@.len() != self.spec_block_size() ==> (r matches Err(
                SMNtfsError::WriteError(m),
            ) && m@ == block_size_mismatch_text(data@.len(), self.spec_block_size() as nat)),
            !self.spec_read_only() && data@.len() == self.spec_block_size() && block
                * self.spec_block_size() >= self.spec_device_size() ==> (r matches Err(
                SMNtfsError::WriteError(_),
            )),
            !self.spec_read_only() && data@.len() == self.spec_block_size() && block
                * self.spec_block_size() < self.spec_device_size() ==> (r matches Ok(q)
                && q.spec_offset() == block * self.spec_block_size()),
    {
        if self.read_only {
            return Err(SMNtfsError::PermissionDenied(String::from_str("Device opened in read-only mode")));
        }
        if data.len() != self.block_size {
            let mut m = text_with_number("Data size ", data.len() as u64, " does not match block size ");
            let digits = decimal_text(self.block_size as u64);
            m.append(digits.as_str());
            return Err(SMNtfsError::WriteError(m));
        }
        match block.checked_mul(self.block_size as u64) {
            Some(offset) => self.write_at(offset, data),
            None => {
                let m = text_with_number("Block ", block, " lies past the end of the device");
                Err(SMNtfsError::WriteError(m))
            },
        }
    }

    /// Whether a flush must ask the host for durability: only a read-write
    /// device has anything to commit, and only such a device is flushed
    /// when it is closed.
    pub fn flush_required(&self) -> (r: bool)
        ensures
            r == !self.spec_read_only(),
    {
        !self.read_only
    }

    /// Judge what the host's durability request reported: success stays
    /// success; a failure is `FlushFailed`.
    pub fn complete_flush(outcome: Result<(), String>) -> (r: Result<(), SMNtfsError>)
        ensures
            match outcome {
                Ok(_) => r is Ok,
                Err(e) => r matches Err(SMNtfsError::FlushFailed(m)) && m@
                    == "Failed to sync device: "@ + e@,
            },
    {
        match outcome {
            Ok(_) => Ok(()),
            Err(e) => Err(SMNtfsError::FlushFailed(join("Failed to sync device: ", e.as_str()))),
        }
    }

    /// Bytes per addressable block.
    pub fn block_size(&self) -> (r: usize)
        ensures
            r == self.spec_block_size(),
    {
        self.block_size
    }

    /// Total size in bytes.
    pub fn device_size(&self) -> (r: u64)
        ensures
            r == self.spec_device_size(),
    {
        self.device_size
    }

    /// Whole blocks on the device; a trailing partial block is not counted.
    pub fn block_count(&self) -> (r: u64)
        requires
            self.wf(),
        ensures
            r as int == (self.spec_device_size() as int) / (self.spec_block_size() as int),
    {
        self.device_size / (self.block_size as u64)
    }

    /// Whether writes are refused.
    pub fn is_read_only(&self) -> (r: bool)
        ensures
            r == self.spec_read_only(),
    {
        self.read_only
    }
}

} // verus!
