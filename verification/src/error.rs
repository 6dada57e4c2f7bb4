//! The errors of an I/O operation, and the platform's codes that the
//! lifecycle of an operation turns on.

use crate::buffer::PinnedBuffer;
use vstd::prelude::*;

verus! {

/// The Win32 error by which an overlapped call reports that it was accepted
/// and will complete later.
pub const ERROR_IO_PENDING: u32 = 997;

/// What a Winsock call returns when it did not complete at once.
pub const SOCKET_ERROR: i32 = -1;

/// The Winsock error by which an overlapped call reports that it was accepted
/// and will complete later.
pub const WSA_IO_PENDING: i32 = 997;

/// The status of a completion that succeeded.
pub const STATUS_SUCCESS: i32 = 0;

/// The bit that marks a result code as made from a status.
pub const FACILITY_NT_BIT: i32 = 0x1000_0000;

/// The result code that stands for a Win32 error: zero and codes that are
/// results already stay as they are, and any other error keeps its low
/// sixteen bits under the failure bit and the Win32 facility.
pub open spec fn spec_hresult_from_win32(error: u32) -> int {
    if error == 0 {
        0
    } else if error >= 0x8000_0000 {
        error - 0x1_0000_0000
    } else {
        0x8007_0000 + error % 0x1_0000 - 0x1_0000_0000
    }
}

pub fn hresult_from_win32(error: u32) -> (code: i32)
    ensures
        code == spec_hresult_from_win32(error),
{
    if error == 0 {
        0
    } else if error >= 0x8000_0000 {
        (error as i64 - 0x1_0000_0000) as i32
    } else {
        (0x8007_0000 + (error % 0x1_0000) as i64 - 0x1_0000_0000) as i32
    }
}

/// The result code that stands for a status: a status that reports no
/// failure stays as it is, and a failure gets the status facility bit.
pub open spec fn spec_hresult_from_nt(status: i32) -> i32 {
    if status >= 0 {
        status
    } else {
        status | FACILITY_NT_BIT
    }
}

pub fn hresult_from_nt(status: i32) -> (code: i32)
    ensures
        code == spec_hresult_from_nt(status),
{
    if status >= 0 {
        status
    } else {
        status | FACILITY_NT_BIT
    }
}

/// Why a call into the operating system failed.
#[derive(Debug, Clone, Copy, PartialEq, Eq, Structural)]
pub enum Error {
    /// A failure with its result code.
    Windows(i32),
    /// A Winsock failure: what the call returned, and the error behind it.
    Winsock { code: i32, detail: i32 },
}

impl Error {
    /// The error is no failure: it says that the operating system accepted
    /// the operation and will report its completion later.
    pub open spec fn spec_is_pending(&self) -> bool {
        match *self {
            Error::Windows(code) => code == spec_hresult_from_win32(ERROR_IO_PENDING),
            Error::Winsock { code, detail } => code == SOCKET_ERROR && detail == WSA_IO_PENDING,
        }
    }

    #[verifier::when_used_as_spec(spec_is_pending)]
    pub fn is_pending(&self) -> (pending: bool)
        ensures
            pending == self.spec_is_pending(),
    {
        match self {
            Error::Windows(code) => *code == hresult_from_win32(ERROR_IO_PENDING),
            Error::Winsock { code, detail } => *code == SOCKET_ERROR && *detail == WSA_IO_PENDING,
        }
    }
}

/// A failed operation: the error, and the buffer of the operation, which the
/// caller may use again.
#[derive(Debug)]
pub struct OperationError {
    pub error: Error,
    pub buffer: PinnedBuffer,
}

impl OperationError {
    pub fn new(error: Error, buffer: PinnedBuffer) -> (failure: Self)
        ensures
            failure == (OperationError { error, buffer }),
    {
        OperationError { error, buffer }
    }

    /// Takes the buffer back out of the failure.
    pub fn into_inner_buffer(self) -> (buffer: PinnedBuffer)
        ensures
            buffer == self.buffer,
    {
        self.buffer
    }
}

/// What an operation ends in: its buffer, or a failure that holds the buffer.
pub type OperationResult = Result<PinnedBuffer, OperationError>;

} // verus!
