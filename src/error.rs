use crate::table::SwapDevice;
use vstd::prelude::*;

verus! {

/// Why a swap operation failed.
#[derive(Debug, Clone, PartialEq, Eq)]
pub enum SwapError {
    /// The command code is outside the closed set that the control call knows.
    InvalidCommand(i32),
    /// The start offset of an add request is not a multiple of 512.
    StartNotAligned(u64),
    /// The length of an add request is not a multiple of 512.
    LengthNotAligned(u64),
    /// The start offset of an add request does not fit a signed 64-bit offset.
    StartTooLarge(u64),
    /// The length of an add request does not fit a signed 64-bit offset.
    LengthTooLarge(u64),
    /// The device path of an add request is empty.
    EmptyPath,
    /// The device path of an add request holds a null byte at this byte index.
    NulInPath(usize),
    /// The control call failed with this platform error code.
    Os(i32),
    /// The control call succeeded with a value that the operation does not define.
    UnexpectedReturn(u32),
    /// The listing call returned one count of filled slots and wrote another
    /// into the table's count field.
    CountMismatch { returned: i32, recorded: i32 },
    /// A slot that the kernel reported as filled holds no usable path.
    MalformedEntry(usize),
    /// More swap devices are configured than the table had slots for; the
    /// devices that did fit are kept.
    TooManyDevices { total: u32, capacity: usize, listed: Vec<SwapDevice> },
}

} // verus!
