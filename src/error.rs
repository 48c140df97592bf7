//! The error type shared by every fallible operation of the library.

use vstd::prelude::*;

verus! {

/// What went wrong, with contextual detail where there is any.
#[derive(Debug)]
pub enum SMNtfsError {
    /// A read from the device failed or was out of bounds.
    ReadError(String),
    /// A write to the device failed or was out of bounds.
    WriteError(String),
    /// The device could not be opened.
    DeviceNotFound(String),
    /// The volume does not hold a valid filesystem.
    InvalidNtfs(String),
    /// A file record could not be decoded.
    CorruptedMft { offset: u64 },
    /// The journal could not be replayed.
    JournalError(String),
    /// Mounting failed.
    MountFailed(String),
    /// The volume is mounted already.
    AlreadyMounted(String),
    /// A write was attempted on a read-only handle, or access was refused.
    PermissionDenied(String),
    /// A cache has no room left.
    CacheFull,
    /// A request for durability failed.
    FlushFailed(String),
    /// Any other failure of the host or of a capacity limit.
    SystemError(String),
    /// A failure of the host's I/O layer, carried as its text.
    IoError(String),
}

/// The character of a decimal digit.
pub open spec fn digit_char(d: nat) -> char {
    if d == 0 { '0' }
    else if d == 1 { '1' }
    else if d == 2 { '2' }
    else if d == 3 { '3' }
    else if d == 4 { '4' }
    else if d == 5 { '5' }
    else if d == 6 { '6' }
    else if d == 7 { '7' }
    else if d == 8 { '8' }
    else { '9' }
}

/// The decimal digits of `n`, most significant first, without sign or padding.
pub open spec fn decimal(n: nat) -> Seq<char>
    decreases n,
{
    if n < 10 {
        seq![digit_char(n)]
    } else {
        decimal(n / 10) + seq![digit_char(n % 10)]
    }
}

/// Relies on the `Display` impl of `u64` (through `ToString::to_string`):
/// it writes the number in decimal, with no sign, padding or separators.
#[verifier::external_body]
pub(crate) fn decimal_text(n: u64) -> (r: String)
    ensures
        r@ == decimal(n as nat),
{
    n.to_string()
}

/// `prefix` followed by `s`.
pub(crate) fn join(prefix: &str, s: &str) -> (r: String)
    ensures
        r@ == prefix@ + s@,
{
    let mut r = String::from_str(prefix);
    r.append(s);
    r
}

impl SMNtfsError {
    /// The text that describes the error.
    pub open spec fn text(&self) -> Seq<char> {
        match self {
            SMNtfsError::ReadError(s) => "Failed to read from device: "@ + s@,
            SMNtfsError::WriteError(s) => "Failed to write to device: "@ + s@,
            SMNtfsError::DeviceNotFound(s) => "Device not found: "@ + s@,
            SMNtfsError::InvalidNtfs(s) => "Invalid NTFS volume: "@ + s@,
            SMNtfsError::CorruptedMft { offset } => "Corrupted MFT entry at offset "@ + decimal(
                *offset as nat,
            ),
            SMNtfsError::JournalError(s) => "Journal replay failed: "@ + s@,
            SMNtfsError::MountFailed(s) => "Mount failed: "@ + s@,
            SMNtfsError::AlreadyMounted(s) => "Already mounted at "@ + s@,
            SMNtfsError::PermissionDenied(s) => "Permission denied: "@ + s@,
            SMNtfsError::CacheFull => "Cache full"@,
            SMNtfsError::FlushFailed(s) => "Failed to flush write buffer: "@ + s@,
            SMNtfsError::SystemError(s) => "System error: "@ + s@,
            SMNtfsError::IoError(s) => s@,
        }
    }

    /// The guidance shown to a user for this error.
    pub open spec fn user_text(&self) -> Seq<char> {
        match self {
            SMNtfsError::PermissionDenied(_) =>
                "Permission denied. Please grant Full Disk Access in System Settings."@,
            SMNtfsError::DeviceNotFound(d) => "Device '"@ + d@ + "' not found. Is it connected?"@,
            SMNtfsError::InvalidNtfs(_) => "This is not a valid NTFS volume."@,
            SMNtfsError::AlreadyMounted(p) => "Already mounted at '"@ + p@ + "'"@,
            _ => "An error occurred: "@ + self.text(),
        }
    }

    /// The text that describes the error.
    pub fn message(&self) -> (r: String)
        ensures
            r@ == self.text(),
    {
        match self {
            SMNtfsError::ReadError(s) => join("Failed to read from device: ", s.as_str()),
            SMNtfsError::WriteError(s) => join("Failed to write to device: ", s.as_str()),
            SMNtfsError::DeviceNotFound(s) => join("Device not found: ", s.as_str()),
            SMNtfsError::InvalidNtfs(s) => join("Invalid NTFS volume: ", s.as_str()),
            SMNtfsError::CorruptedMft { offset } => {
                let digits = decimal_text(*offset);
                join("Corrupted MFT entry at offset ", digits.as_str())
            },
            SMNtfsError::JournalError(s) => join("Journal replay failed: ", s.as_str()),
            SMNtfsError::MountFailed(s) => join("Mount failed: ", s.as_str()),
            SMNtfsError::AlreadyMounted(s) => join("Already mounted at ", s.as_str()),
            SMNtfsError::PermissionDenied(s) => join("Permission denied: ", s.as_str()),
            SMNtfsError::CacheFull => String::from_str("Cache full"),
            SMNtfsError::FlushFailed(s) => join("Failed to flush write buffer: ", s.as_str()),
            SMNtfsError::SystemError(s) => join("System error: ", s.as_str()),
            SMNtfsError::IoError(s) => s.clone(),
        }
    }

    /// User-facing guidance for this error.
    pub fn user_message(&self) -> (r: String)
        ensures
            r@ == self.user_text(),
    {
        match self {
            SMNtfsError::PermissionDenied(_) => String::from_str(
                "Permission denied. Please grant Full Disk Access in System Settings.",
            ),
            SMNtfsError::DeviceNotFound(device) => {
                let mut r = join("Device '", device.as_str());
                r.append("' not found. Is it connected?");
                r
            },
            SMNtfsError::InvalidNtfs(_) => String::from_str("This is not a valid NTFS volume."),
            SMNtfsError::AlreadyMounted(path) => {
                let mut r = join("Already mounted at '", path.as_str());
                r.append("'");
                r
            },
            _ => {
                let text = self.message();
                join("An error occurred: ", text.as_str())
            },
        }
    }
}

} // verus!
