use vstd::prelude::*;

verus! {

/// The ways an operation of the store or of its buffers can fail.
#[derive(Clone, Copy, Debug, PartialEq, Eq, Structural)]
pub enum StoreError {
    /// A malformed argument: a relative export target, a target without a
    /// parent directory, an offset past the address space.
    InvalidInput,
    /// No complete blob has the requested hash.
    NotFound,
    /// A requested size cannot be held in memory.
    DataTooLarge,
    /// A write or resize was attempted on immutable data.
    ReadOnlyViolation,
    /// The operation is not offered by the memory-resident store.
    Unimplemented,
    /// A failure of the file system or of a worker.
    Io,
}

/// The error for a size that does not fit in the address space.
pub fn data_too_large() -> (r: StoreError)
    ensures
        r == StoreError::DataTooLarge,
{
    StoreError::DataTooLarge
}

} // verus!
