//! Why a call failed.

use vstd::prelude::*;

verus! {

/// Failure of the codec.
#[derive(Clone, Copy, Debug, PartialEq, Eq, Structural)]
pub enum DecodeError {
    /// The bytes are not the layout of a record: cut short, not UTF-8, a flag
    /// that is neither `0` nor `1`, or bytes left over.
    Malformed,
    /// The layout of the record is longer than the room it was given.
    BufferTooSmall,
}

/// Failure of a write through a handle.
#[derive(Clone, Copy, Debug, PartialEq, Eq, Structural)]
pub enum IoError {
    /// The handle was leased for reading only.
    ReadOnly,
    /// The bytes are longer than the storage behind the handle.
    BufferTooSmall,
}

/// Failure of a transition. The storage is as it was before the call.
#[derive(Clone, Copy, Debug, PartialEq, Eq, Structural)]
pub enum TransitionError {
    /// `Initialize` on a handle that cannot be written.
    NotWritable,
    /// `Initialize` on a record that is already active.
    AlreadyInitialized,
    /// `SetMetadata` or `Transfer` on storage that holds no active record.
    Uninitialized,
    /// The caller is neither the owner of the record nor the designated
    /// authority.
    Unauthorized,
    /// `SetMetadata` while the storage is not funded to persist.
    NotExempt,
    /// The stored bytes are malformed, or the new record could not be
    /// written back.
    IO,
}

/// Failure of one processed instruction.
#[derive(Clone, Copy, Debug, PartialEq, Eq, Structural)]
pub enum ProcessError {
    /// The instruction data is not the layout of an instruction.
    InvalidInstruction,
    /// The instruction was read, and its transition failed.
    Transition(TransitionError),
}

} // verus!
