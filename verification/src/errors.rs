//! The error taxonomy of the launcher, and the string-message error type the
//! surrounding shell reports to the user.

use vstd::prelude::*;

verus! {

/// Everything that can go wrong before the launcher commits to a handover.
/// Each failure is detected and returned before any irreversible action.
#[derive(Debug, Clone, Copy, PartialEq, Eq, Structural)]
pub enum BootError {
    /// The image does not carry the magic bytes of a kernel boot header.
    InvalidImage,
    /// The image's boot protocol is older than 2.12.
    UnsupportedProtocolVersion,
    /// The kernel cannot run from a loader-chosen address.
    NotRelocatable,
    /// The firmware could not hand out a requested page.
    AllocationFailure,
    /// The active graphics mode could not be queried.
    GraphicsQueryFailure,
    /// The firmware reports a pixel layout this launcher cannot describe.
    UnsupportedPixelFormat,
}

impl BootError {
    /// A fixed message for each failure, in the words the shell prints.
    pub fn message(&self) -> (r: &'static str)
        ensures
            *self is InvalidImage ==> r@ == "Kernel image does not have a valid boot header"@,
            *self is UnsupportedProtocolVersion ==> r@
                == "Kernel does not support boot protocol version 2.12"@,
            *self is NotRelocatable ==> r@
                == "Kernel is not relocatable! This code only works for relocatable kernels :("@,
            *self is AllocationFailure ==> r@ == "Failed to allocate pages"@,
            *self is GraphicsQueryFailure ==> r@ == "Could not query the graphics mode"@,
            *self is UnsupportedPixelFormat ==> r@
                == "The firmware's pixel format is not supported"@,
    {
        match self {
            BootError::InvalidImage => "Kernel image does not have a valid boot header",
            BootError::UnsupportedProtocolVersion => "Kernel does not support boot protocol version 2.12",
            BootError::NotRelocatable => "Kernel is not relocatable! This code only works for relocatable kernels :(",
            BootError::AllocationFailure => "Failed to allocate pages",
            BootError::GraphicsQueryFailure => "Could not query the graphics mode",
            BootError::UnsupportedPixelFormat => "The firmware's pixel format is not supported",
        }
    }
}

/// An error carrying a message for the user.
#[derive(Debug)]
pub struct SimpleError {
    pub msg: String,
}

impl SimpleError {
    /// Wraps a fixed message.
    pub fn new(msg: &str) -> (r: SimpleError)
        ensures
            r.msg@ == msg@,
    {
        SimpleError { msg: msg.to_owned() }
    }
}

/// The result type the shell-facing functions use.
pub type SimpleResult<T> = Result<T, SimpleError>;

} // verus!
