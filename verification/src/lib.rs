//! A single-owner record store with validated state transitions.
//!
//! A record (owner, metadata, initialized flag) lives in a byte buffer that a
//! host leases to this library for the length of one call. The [`codec`]
//! fixes the byte layout of a record; the [`machine`] validates and applies
//! the transitions `Initialize`, `SetMetadata` and `Transfer`.

pub mod codec;
pub mod error;
pub mod handle;
pub mod identity;
pub mod instruction;
pub mod laws;
pub mod layout;
pub mod machine;
pub mod record;
pub mod wire;

pub use codec::{decode, encode, encode_within, inspect, peek_initialized, Stored};
pub use error::{DecodeError, IoError, ProcessError, TransitionError};
pub use handle::Handle;
pub use identity::Identity;
pub use instruction::{decode_instruction, Instruction};
pub use machine::{process_instruction, ResourceFacts, StateMachine};
pub use record::{Metadata, Record};
