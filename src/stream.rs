//! A sequential-cursor byte-stream view over a block device, for the
//! volume parser that reads through it.

use crate::device::{BlockDevice, ReadRequest};
use crate::error::SMNtfsError;
use vstd::prelude::*;

verus! {

/// Where a seek is measured from.
#[derive(Debug, Clone, Copy, PartialEq, Eq, Structural)]
pub enum SeekFrom {
    /// That many bytes from the start.
    Start(u64),
    /// The device size plus the given signed offset.
    End(i64),
    /// The cursor plus the given signed offset.
    Current(i64),
}

/// `base + delta`, saturated at zero.
pub open spec fn clamped_add(base: int, delta: int) -> int {
    if base + delta < 0 {
        0
    } else {
        base + delta
    }
}

/// The cursor that a seek aims at, from cursor `position` on a device of
/// `device_size` bytes; backward motion stops at zero.
pub open spec fn seek_target(pos: SeekFrom, position: u64, device_size: u64) -> int {
    match pos {
        SeekFrom::Start(offset) => offset as int,
        SeekFrom::Current(delta) => clamped_add(position as int, delta as int),
        SeekFrom::End(delta) => clamped_add(device_size as int, delta as int),
    }
}

/// `base` moved by `delta`, saturating at zero; `None` past the largest
/// 64-bit offset.
fn offset_by(base: u64, delta: i64) -> (r: Option<u64>)
    ensures
        clamped_add(base as int, delta as int) <= u64::MAX ==> r == Some(
            clamped_add(base as int, delta as int) as u64,
        ),
        clamped_add(base as int, delta as int) > u64::MAX ==> r is None,
{
    if delta >= 0 {
        base.checked_add(delta as u64)
    } else {
        let back: u64 = (0i128 - delta as i128) as u64;
        Some(base.saturating_sub(back))
    }
}

/// A sequential cursor over an owned block device.
pub struct BlockDeviceAdapter {
    device: BlockDevice,
    position: u64,
}

impl BlockDeviceAdapter {
    /// The device read through.
    pub closed spec fn spec_device(&self) -> BlockDevice {
        self.device
    }

    /// The cursor, in bytes from the start.
    pub closed spec fn spec_position(&self) -> u64 {
        self.position
    }

    /// Wrap `device`, with the cursor at the start.
    pub fn new(device: BlockDevice) -> (r: Self)
        ensures
            r.spec_device() == device,
            r.spec_position() == 0,
    {
        BlockDeviceAdapter { device, position: 0 }
    }

    /// The device read through.
    pub fn device(&self) -> (r: &BlockDevice)
        ensures
            *r == self.spec_device(),
    {
        &self.device
    }

    /// The device read through, for change.
    pub fn device_mut(&mut self) -> (r: &mut BlockDevice)
        ensures
            *r == old(self).spec_device(),
            final(self).spec_device() == *final(r),
            final(self).spec_position() == old(self).spec_position(),
    {
        &mut self.device
    }

    /// The cursor, in bytes from the start.
    pub fn position(&self) -> (r: u64)
        ensures
            r == self.spec_position(),
    {
        self.position
    }

    /// The positioned read that serves a sequential read of `len` bytes:
    /// `len` bytes at the cursor, under the device's rules.
    pub fn read_request(&self, len: usize) -> (r: Result<ReadRequest, SMNtfsError>)
        ensures
            self.spec_position() >= self.spec_device().spec_device_size() ==> (r matches Err(
                SMNtfsError::ReadError(_),
            )),
            self.spec_position() < self.spec_device().spec_device_size() && self.spec_position()
                + len <= u64::MAX ==> (r matches Ok(q) && q.spec_offset() == self.spec_position()
                && q.spec_size() == len),
            r is Err ==> r->Err_0 is ReadError,
    {
        self.device.read_at(self.position, len)
    }

    /// Finish a sequential read with what the host's positioned read for
    /// `req` gave back. On success the bytes are returned and the cursor
    /// moves to just past them; on failure the cursor stays.
    pub fn complete_read(&mut self, req: &ReadRequest, outcome: Result<Vec<u8>, String>) -> (r:
        Result<Vec<u8>, SMNtfsError>)
        ensures
            final(self).spec_device() == old(self).spec_device(),
            match r {
                Ok(d) => {
                    &&& outcome matches Ok(o) && o@ == d@
                    &&& d@.len() == req.spec_size()
                    &&& final(self).spec_position() == req.spec_offset() + d@.len()
                },
                Err(e) => {
                    &&& e is ReadError
                    &&& final(self).spec_position() == old(self).spec_position()
                },
            },
            outcome matches Ok(o) && o@.len() == req.spec_size() ==> r is Ok,
    {
        let data = req.complete(outcome)?;
        self.position = req.offset() + data.len() as u64;
        Ok(data)
    }

    /// Move the cursor: to an absolute offset, or by a signed offset from
    /// the cursor or from the end of the device. Backward motion stops at
    /// zero. A target past the largest 64-bit offset is refused with a
    /// `SystemError` and the cursor stays.
    pub fn seek(&mut self, pos: SeekFrom) -> (r: Result<u64, SMNtfsError>)
        ensures
            final(self).spec_device() == old(self).spec_device(),
            seek_target(pos, old(self).spec_position(), old(self).spec_device().spec_device_size())
                <= u64::MAX ==> {
                &&& r == Ok::<u64, SMNtfsError>(final(self).spec_position())
                &&& final(self).spec_position() == seek_target(
                    pos,
                    old(self).spec_position(),
                    old(self).spec_device().spec_device_size(),
                )
            },
            seek_target(pos, old(self).spec_position(), old(self).spec_device().spec_device_size())
                > u64::MAX ==> {
                &&& r matches Err(SMNtfsError::SystemError(_))
                &&& final(self).spec_position() == old(self).spec_position()
            },
    {
        let target = match pos {
            SeekFrom::Start(offset) => Some(offset),
            SeekFrom::Current(delta) => offset_by(self.position, delta),
            SeekFrom::End(delta) => offset_by(self.device.device_size(), delta),
        };
        match target {
            Some(p) => {
                self.position = p;
                Ok(p)
            },
            None => Err(SMNtfsError::SystemError(String::from_str("Seek target past the largest offset"))),
        }
    }
}

} // verus!
