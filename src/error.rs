//! Status codes of the native driver and the errors they stand for.
use vstd::prelude::*;

verus! {

/// The largest status code the native driver reports.
pub const MAX_STATUS: u32 = 32;

/// An error reported by the D3XX driver, or by this layer itself.
///
/// Each variant but `LibraryLoadFailed` stands for one native status code.
#[derive(Debug, Clone, Copy, PartialEq, Eq, Structural)]
pub enum D3xxError {
    InvalidHandle,
    DeviceNotFound,
    DeviceNotOpened,
    IoError,
    InsufficientResources,
    InvalidParameter,
    InvalidBaudRate,
    DeviceNotOpenedForErase,
    DeviceNotOpenedForWrite,
    FailedToWriteDevice,
    EEPROMReadFailed,
    EEPROMWriteFailed,
    EEPROMEraseFailed,
    EEPROMNotPresent,
    EEPROMNotProgrammed,
    InvalidArgs,
    NotSupported,
    NoMoreItems,
    Timeout,
    OperationAborted,
    ReservedPipe,
    InvalidControlRequestDirection,
    InvalidControLRequestType,
    IoPending,
    IoIncomplete,
    HandleEof,
    Busy,
    NoSystemResources,
    DeviceListNotReady,
    DeviceNotConnected,
    IncorrectDevicePath,
    OtherError,
    /// The native library could not be loaded; no status code stands for it.
    LibraryLoadFailed,
}

impl D3xxError {
    /// The numeric code of the error: its native status code, and one past
    /// the last status code for `LibraryLoadFailed`.
    pub open spec fn spec_code(self) -> u32 {
        match self {
            D3xxError::InvalidHandle => 1,
            D3xxError::DeviceNotFound => 2,
            D3xxError::DeviceNotOpened => 3,
            D3xxError::IoError => 4,
            D3xxError::InsufficientResources => 5,
            D3xxError::InvalidParameter => 6,
            D3xxError::InvalidBaudRate => 7,
            D3xxError::DeviceNotOpenedForErase => 8,
            D3xxError::DeviceNotOpenedForWrite => 9,
            D3xxError::FailedToWriteDevice => 10,
            D3xxError::EEPROMReadFailed => 11,
            D3xxError::EEPROMWriteFailed => 12,
            D3xxError::EEPROMEraseFailed => 13,
            D3xxError::EEPROMNotPresent => 14,
            D3xxError::EEPROMNotProgrammed => 15,
            D3xxError::InvalidArgs => 16,
            D3xxError::NotSupported => 17,
            D3xxError::NoMoreItems => 18,
            D3xxError::Timeout => 19,
            D3xxError::OperationAborted => 20,
            D3xxError::ReservedPipe => 21,
            D3xxError::InvalidControlRequestDirection => 22,
            D3xxError::InvalidControLRequestType => 23,
            D3xxError::IoPending => 24,
            D3xxError::IoIncomplete => 25,
            D3xxError::HandleEof => 26,
            D3xxError::Busy => 27,
            D3xxError::NoSystemResources => 28,
            D3xxError::DeviceListNotReady => 29,
            D3xxError::DeviceNotConnected => 30,
            D3xxError::IncorrectDevicePath => 31,
            D3xxError::OtherError => 32,
            D3xxError::LibraryLoadFailed => 33,
        }
    }

    /// Whether the error stands for a native status code.
    pub open spec fn is_native(self) -> bool {
        self != D3xxError::LibraryLoadFailed
    }

    /// The numeric code of the error (see `spec_code`).
    pub fn code(&self) -> (r: u32)
        ensures
            r == self.spec_code(),
    {
        match self {
            D3xxError::InvalidHandle => 1,
            D3xxError::DeviceNotFound => 2,
            D3xxError::DeviceNotOpened => 3,
            D3xxError::IoError => 4,
            D3xxError::InsufficientResources => 5,
            D3xxError::InvalidParameter => 6,
            D3xxError::InvalidBaudRate => 7,
            D3xxError::DeviceNotOpenedForErase => 8,
            D3xxError::DeviceNotOpenedForWrite => 9,
            D3xxError::FailedToWriteDevice => 10,
            D3xxError::EEPROMReadFailed => 11,
            D3xxError::EEPROMWriteFailed => 12,
            D3xxError::EEPROMEraseFailed => 13,
            D3xxError::EEPROMNotPresent => 14,
            D3xxError::EEPROMNotProgrammed => 15,
            D3xxError::InvalidArgs => 16,
            D3xxError::NotSupported => 17,
            D3xxError::NoMoreItems => 18,
            D3xxError::Timeout => 19,
            D3xxError::OperationAborted => 20,
            D3xxError::ReservedPipe => 21,
            D3xxError::InvalidControlRequestDirection => 22,
            D3xxError::InvalidControLRequestType => 23,
            D3xxError::IoPending => 24,
            D3xxError::IoIncomplete => 25,
            D3xxError::HandleEof => 26,
            D3xxError::Busy => 27,
            D3xxError::NoSystemResources => 28,
            D3xxError::DeviceListNotReady => 29,
            D3xxError::DeviceNotConnected => 30,
            D3xxError::IncorrectDevicePath => 31,
            D3xxError::OtherError => 32,
            D3xxError::LibraryLoadFailed => 33,
        }
    }

    /// The error that a nonzero native status code stands for.
    pub fn from_status(status: u32) -> (r: D3xxError)
        requires
            1 <= status <= MAX_STATUS,
        ensures
            r.spec_code() == status,
            r.is_native(),
    {
        match status {
            1 => D3xxError::InvalidHandle,
            2 => D3xxError::DeviceNotFound,
            3 => D3xxError::DeviceNotOpened,
            4 => D3xxError::IoError,
            5 => D3xxError::InsufficientResources,
            6 => D3xxError::InvalidParameter,
            7 => D3xxError::InvalidBaudRate,
            8 => D3xxError::DeviceNotOpenedForErase,
            9 => D3xxError::DeviceNotOpenedForWrite,
            10 => D3xxError::FailedToWriteDevice,
            11 => D3xxError::EEPROMReadFailed,
            12 => D3xxError::EEPROMWriteFailed,
            13 => D3xxError::EEPROMEraseFailed,
            14 => D3xxError::EEPROMNotPresent,
            15 => D3xxError::EEPROMNotProgrammed,
            16 => D3xxError::InvalidArgs,
            17 => D3xxError::NotSupported,
            18 => D3xxError::NoMoreItems,
            19 => D3xxError::Timeout,
            20 => D3xxError::OperationAborted,
            21 => D3xxError::ReservedPipe,
            22 => D3xxError::InvalidControlRequestDirection,
            23 => D3xxError::InvalidControLRequestType,
            24 => D3xxError::IoPending,
            25 => D3xxError::IoIncomplete,
            26 => D3xxError::HandleEof,
            27 => D3xxError::Busy,
            28 => D3xxError::NoSystemResources,
            29 => D3xxError::DeviceListNotReady,
            30 => D3xxError::DeviceNotConnected,
            31 => D3xxError::IncorrectDevicePath,
            _ => D3xxError::OtherError,
        }
    }
}

/// Whether `status` is a code that the native driver is known to report.
///
/// Any other value means that the driver and this layer disagree on the
/// protocol; callers treat it as fatal before calling `translate`.
pub fn is_known_status(status: u32) -> (r: bool)
    ensures
        r == (status <= MAX_STATUS),
{
    status <= MAX_STATUS
}

/// Translates the status code that a native call returned: success for zero,
/// otherwise the error whose code it is.
pub fn translate(status: u32) -> (r: Result<(), D3xxError>)
    requires
        status <= MAX_STATUS,
    ensures
        r is Ok <==> status == 0,
        r matches Err(e) ==> e.spec_code() == status && e.is_native(),
{
    if status == 0 {
        Ok(())
    } else {
        Err(D3xxError::from_status(status))
    }
}

/// Distinct errors have distinct codes, and every code from one to
/// `MAX_STATUS` belongs to exactly one native error.
pub proof fn lemma_status_codes_injective(a: D3xxError, b: D3xxError)
    ensures
        a.spec_code() == b.spec_code() ==> a == b,
        a.is_native() <==> 1 <= a.spec_code() <= MAX_STATUS,
{
}

} // verus!
