//! Error codes shared by every component, and their classification.

use vstd::prelude::*;

verus! {

/// Why an operation was abandoned.
#[derive(Clone, Copy, Debug, PartialEq, Eq, Structural)]
pub enum Error {
    /// A fixed-capacity container has no room left.
    Full,
    /// An index lies outside the range the hardware defines.
    IndexOutOfRange,
    /// The device offers no MSI capability.
    NoPCIMSI,
    /// An operation that this driver does not provide was asked for.
    NotImplemented,
    /// An event arrived that the port or controller state does not allow.
    InvalidPhase,
    /// An event names a device slot that holds no device.
    InvalidSlotID,
    /// A device slot was handed out that already holds a device.
    AlreadyAllocated,
    /// A transfer ended with a completion code that tells of a failure.
    TransferFailed,
    /// The device is no boot-protocol mouse.
    UnknownDevice,
    /// The host controller reports no port, or lies where its registers
    /// cannot be addressed.
    UnsupportedController,
}

/// The three families of failure and how the boot sequence treats them.
#[derive(Clone, Copy, Debug, PartialEq, Eq, Structural)]
pub enum ErrorKind {
    /// A malformed or unexpected answer from the host controller: the event
    /// or port is skipped and the system goes on.
    HardwareProtocol,
    /// A fixed table or queue is full.
    ResourceExhausted,
    /// The machine lacks what the kernel needs; fatal during boot.
    Configuration,
}

impl Error {
    /// The family each error belongs to.
    pub open spec fn spec_kind(self) -> ErrorKind {
        match self {
            Error::Full => ErrorKind::ResourceExhausted,
            Error::IndexOutOfRange | Error::NoPCIMSI | Error::UnsupportedController => {
                ErrorKind::Configuration
            },
            Error::NotImplemented
            | Error::InvalidPhase
            | Error::InvalidSlotID
            | Error::AlreadyAllocated
            | Error::TransferFailed
            | Error::UnknownDevice => ErrorKind::HardwareProtocol,
        }
    }

    /// The family the error belongs to.
    pub fn kind(self) -> (k: ErrorKind)
        ensures
            k == self.spec_kind(),
    {
        match self {
            Error::Full => ErrorKind::ResourceExhausted,
            Error::IndexOutOfRange | Error::NoPCIMSI | Error::UnsupportedController => {
                ErrorKind::Configuration
            },
            Error::NotImplemented
            | Error::InvalidPhase
            | Error::InvalidSlotID
            | Error::AlreadyAllocated
            | Error::TransferFailed
            | Error::UnknownDevice => ErrorKind::HardwareProtocol,
        }
    }
}

} // verus!
