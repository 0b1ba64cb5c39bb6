use vstd::prelude::*;

verus! {

/// Everything that can go wrong between opening the device and keeping the
/// ring of transfers in flight.
#[derive(Clone, Copy, Debug, PartialEq, Eq, Structural)]
pub enum StreamError {
    /// No attached device carries the configured vendor and product id.
    DeviceNotFound,
    /// The matching device could not be opened.
    OpenFailed,
    /// The interface could not be detached from the kernel, claimed or configured.
    ClaimFailed,
    /// The native allocator returned no transfer descriptor.
    AllocationFailed,
    /// The synchronous submit call was rejected with this code.
    SubmitFailed(i32),
    /// A transfer completed with this nonzero status.
    TransferStatusError(i32),
    /// A completion context was used twice, a result arrived for another
    /// slot, or a result slot lost its other half before it resolved.
    ProtocolViolation,
}

impl StreamError {
    /// Errors that the ring answers with a bus recovery and a retry.
    pub open spec fn recoverable(self) -> bool {
        self is SubmitFailed || self is TransferStatusError
    }

    /// Whether the ring may answer this error with a bus recovery and a retry.
    pub fn is_recoverable(&self) -> (r: bool)
        ensures
            r == self.recoverable(),
    {
        match self {
            StreamError::SubmitFailed(_) => true,
            StreamError::TransferStatusError(_) => true,
            _ => false,
        }
    }
}

} // verus!
