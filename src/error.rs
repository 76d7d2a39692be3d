use vstd::prelude::*;

verus! {

/// Why an operation on a window failed.
#[derive(Debug, Clone, Copy, PartialEq, Eq, Hash, Structural)]
pub enum WindowError {
    /// The native window or its control thread could not be created.
    CreationFailed,
    /// A native call other than creation failed.
    PlatformCallFailed,
    /// The window's control thread has already exited.
    InvalidHandle,
}

} // verus!
