//! Control codes: the two device-scoped, buffered, any-access codes the
//! service recognizes, and the map from an incoming code to its operation.

use vstd::prelude::*;

verus! {

/// Device type field of a device-scoped control code.
pub const FILE_DEVICE_UNKNOWN: u32 = 34;

/// Transfer method field: buffered input and output.
pub const METHOD_BUFFERED: u32 = 0;

/// Access field: no particular access right required.
pub const FILE_ANY_ACCESS: u32 = 0;

/// Control code ordering a copy out of the target process: `size` bytes from
/// the target address into the caller's buffer.
pub const EREBUS_IOCTL_READ: u32 = (FILE_DEVICE_UNKNOWN << 16) | (FILE_ANY_ACCESS << 14) | (
0x1 << 2) | METHOD_BUFFERED;

/// Control code ordering a copy into the target process: `size` bytes from
/// the caller's buffer to the target address.
pub const EREBUS_IOCTL_WRITE: u32 = (FILE_DEVICE_UNKNOWN << 16) | (FILE_ANY_ACCESS << 14) | (
0x2 << 2) | METHOD_BUFFERED;

/// The two directions of the copy primitive.
#[derive(Clone, Copy, PartialEq, Eq, Structural, Debug)]
pub enum Operation {
    /// Copy from the target process into the caller's buffer.
    Read,
    /// Copy from the caller's buffer into the target process.
    Write,
}

/// The operation a control code selects, if it is one of the two recognized
/// families.
pub open spec fn spec_operation_of_code(code: u32) -> Option<Operation> {
    if code == EREBUS_IOCTL_READ {
        Some(Operation::Read)
    } else if code == EREBUS_IOCTL_WRITE {
        Some(Operation::Write)
    } else {
        None
    }
}

/// Maps an incoming control code to its handler's operation; any other code
/// is unsupported and must not enter the pipeline.
pub fn operation_of_code(code: u32) -> (operation: Option<Operation>)
    ensures
        operation == spec_operation_of_code(code),
{
    if code == EREBUS_IOCTL_READ {
        Some(Operation::Read)
    } else if code == EREBUS_IOCTL_WRITE {
        Some(Operation::Write)
    } else {
        None
    }
}

} // verus!
