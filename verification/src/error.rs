use vstd::prelude::*;

verus! {

/// What can go wrong between an application and a video device.
#[derive(Debug, Clone, Copy, PartialEq, Eq, Structural)]
pub enum Error {
    /// the driver or the operating system rejected an open, a format or a
    /// streaming command
    DeviceError,
    /// buffers could not be allocated or mapped
    ResourceError,
    /// the caller used an operation out of turn
    ProtocolViolation,
    /// the driver reported a failure for one buffer; the call may be tried
    /// again
    IoError,
}

} // verus!
