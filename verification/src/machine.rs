//! The record state machine.
//!
//! Storage is in one of three states. It is *uninitialized* while it was
//! never written or holds a record whose flag is not set, *active* while it
//! holds a record whose flag is set, and *corrupt* while its bytes are not
//! the layout of any record.
//!
//! | transition    | preconditions, in the order they are checked             |
//! |---------------|----------------------------------------------------------|
//! | `Initialize`  | the handle is writable; the storage is uninitialized     |
//! | `SetMetadata` | the storage is active; the caller is authorized; the     |
//! |               | storage is exempt                                        |
//! | `Transfer`    | the storage is active; the caller is authorized          |
//!
//! A transition whose preconditions hold lays out the new record and writes
//! it back in one piece. Whatever fails, the storage is left as it was.
//!
//! The machine takes no lock: the host lets one call at a time work on a
//! record.

use crate::codec::{encode_within, inspect, stored, Stored, StoredView};
use crate::error::{ProcessError, TransitionError};
use crate::handle::{Handle, HandleView};
use crate::identity::Identity;
use crate::instruction::{decode_instruction, decoded_instruction, Instruction, InstructionView};
use crate::layout::record_encoding;
use crate::record::{Record, RecordView};
use vstd::prelude::*;

verus! {

/// A snapshot, taken by the host, of how the storage of a record is funded.
#[derive(Clone, Copy, Debug, PartialEq, Eq)]
pub struct ResourceFacts {
    /// The balance that backs the storage.
    pub balance: u64,
    /// The size of the storage, in bytes.
    pub size: usize,
    /// Whether that balance keeps storage of that size alive indefinitely.
    pub exempt: bool,
}

/// The state of the storage of one record.
pub enum State {
    /// No active record: storage never written, or a record whose flag is
    /// not set.
    Uninitialized,
    /// An active record.
    Active(RecordView),
    /// Bytes that are not the layout of a record.
    Corrupt,
}

/// The state of storage that holds `bytes`.
pub open spec fn state(bytes: Seq<u8>) -> State {
    match stored(bytes) {
        StoredView::Absent => State::Uninitialized,
        StoredView::Malformed => State::Corrupt,
        StoredView::Present(record) => if record.initialized {
            State::Active(record)
        } else {
            State::Uninitialized
        },
    }
}

/// How a transition ends: what the call returns, and what the storage holds
/// after it.
pub struct Outcome {
    pub result: Result<(), TransitionError>,
    pub bytes: Seq<u8>,
}

/// A failed transition: the storage is untouched.
pub open spec fn reject(handle: HandleView, error: TransitionError) -> Outcome {
    Outcome { result: Err(error), bytes: handle.bytes }
}

/// Writing `record` back: its layout replaces what the storage holds, where
/// the handle is writable and the layout exists and is within the capacity.
pub open spec fn commit(handle: HandleView, record: RecordView) -> Outcome {
    if handle.writable && record.well_formed() && record_encoding(record).len()
        <= handle.capacity {
        Outcome { result: Ok(()), bytes: record_encoding(record) }
    } else {
        reject(handle, TransitionError::IO)
    }
}

/// The configuration of the state machine: who, besides the owner of a
/// record, may change it.
#[derive(Clone, Copy, Debug, PartialEq, Eq)]
pub struct StateMachine {
    /// A designated authority that may act on every record, if any.
    pub authority: Option<Identity>,
}

impl StateMachine {
    /// Whether `caller` may change `record`: the owner may, and so may the
    /// designated authority.
    pub open spec fn authorizes(self, caller: Seq<u8>, record: RecordView) -> bool {
        caller == record.owner || (self.authority matches Some(authority) && authority@
            == caller)
    }

    /// How `instruction`, asked for by `caller`, ends on the storage behind
    /// `handle`.
    pub open spec fn transition(
        self,
        instruction: InstructionView,
        handle: HandleView,
        caller: Seq<u8>,
        facts: ResourceFacts,
    ) -> Outcome {
        match instruction {
            InstructionView::Initialize => {
                if !handle.writable {
                    reject(handle, TransitionError::NotWritable)
                } else {
                    match state(handle.bytes) {
                        State::Corrupt => reject(handle, TransitionError::IO),
                        State::Active(_) => reject(handle, TransitionError::AlreadyInitialized),
                        State::Uninitialized => commit(handle, RecordView::fresh(caller)),
                    }
                }
            },
            InstructionView::SetMetadata(metadata) => {
                match state(handle.bytes) {
                    State::Corrupt => reject(handle, TransitionError::IO),
                    State::Uninitialized => reject(handle, TransitionError::Uninitialized),
                    State::Active(record) => {
                        if !self.authorizes(caller, record) {
                            reject(handle, TransitionError::Unauthorized)
                        } else if !facts.exempt {
                            reject(handle, TransitionError::NotExempt)
                        } else {
                            commit(handle, record.with_metadata(metadata))
                        }
                    },
                }
            },
            InstructionView::Transfer(new_owner) => {
                match state(handle.bytes) {
                    State::Corrupt => reject(handle, TransitionError::IO),
                    State::Uninitialized => reject(handle, TransitionError::Uninitialized),
                    State::Active(record) => {
                        if !self.authorizes(caller, record) {
                            reject(handle, TransitionError::Unauthorized)
                        } else {
                            commit(handle, record.with_owner(new_owner))
                        }
                    },
                }
            },
        }
    }

    /// The machine under which only the owner of a record may change it.
    pub fn new() -> (machine: StateMachine)
        ensures
            machine.authority is None,
    {
        StateMachine { authority: None }
    }

    /// The machine under which the owner of a record and `authority` may
    /// change it.
    pub fn with_authority(authority: Identity) -> (machine: StateMachine)
        ensures
            machine.authority == Some(authority),
    {
        StateMachine { authority: Some(authority) }
    }

    /// Decides whether `caller` may change `record`.
    pub fn authorize(&self, caller: &Identity, record: &Record) -> (allowed: bool)
        ensures
            allowed == self.authorizes(caller@, record@),
    {
        if *caller == record.owner {
            return true;
        }
        match &self.authority {
            Some(authority) => *authority == *caller,
            None => false,
        }
    }

    /// Validates `instruction` against the storage behind `handle` and, where
    /// every precondition holds, writes the new record back.
    ///
    /// On failure the storage is left as it was.
    pub fn apply(
        &self,
        instruction: Instruction,
        handle: &mut Handle,
        caller: &Identity,
        facts: &ResourceFacts,
    ) -> (out: Result<(), TransitionError>)
        ensures
            out == self.transition(instruction@, old(handle)@, caller@, *facts).result,
            final(handle)@.bytes == self.transition(
                instruction@,
                old(handle)@,
                caller@,
                *facts,
            ).bytes,
            final(handle)@.capacity == old(handle)@.capacity,
            final(handle)@.writable == old(handle)@.writable,
            out is Err ==> final(handle)@ == old(handle)@,
    {
        match instruction {
            Instruction::Initialize => {
                if !handle.is_writable() {
                    return Err(TransitionError::NotWritable);
                }
                match inspect(handle.read()) {
                    Stored::Malformed => Err(TransitionError::IO),
                    Stored::Absent => commit_record(handle, &Record::fresh(*caller)),
                    Stored::Present(record) => {
                        if record.initialized {
                            Err(TransitionError::AlreadyInitialized)
                        } else {
                            commit_record(handle, &Record::fresh(*caller))
                        }
                    },
                }
            },
            Instruction::SetMetadata(metadata) => {
                match inspect(handle.read()) {
                    Stored::Malformed => Err(TransitionError::IO),
                    Stored::Absent => Err(TransitionError::Uninitialized),
                    Stored::Present(record) => {
                        if !record.initialized {
                            Err(TransitionError::Uninitialized)
                        } else if !self.authorize(caller, &record) {
                            Err(TransitionError::Unauthorized)
                        } else if !facts.exempt {
                            Err(TransitionError::NotExempt)
                        } else {
                            let updated = Record {
                                owner: record.owner,
                                metadata,
                                initialized: record.initialized,
                            };
                            commit_record(handle, &updated)
                        }
                    },
                }
            },
            Instruction::Transfer(new_owner) => {
                match inspect(handle.read()) {
                    Stored::Malformed => Err(TransitionError::IO),
                    Stored::Absent => Err(TransitionError::Uninitialized),
                    Stored::Present(record) => {
                        if !record.initialized {
                            Err(TransitionError::Uninitialized)
                        } else if !self.authorize(caller, &record) {
                            Err(TransitionError::Unauthorized)
                        } else {
                            let updated = Record {
                                owner: new_owner,
                                metadata: record.metadata,
                                initialized: record.initialized,
                            };
                            commit_record(handle, &updated)
                        }
                    },
                }
            },
        }
    }
}

/// Lays out `record` and writes it through `handle`, in one piece or not at
/// all.
fn commit_record(handle: &mut Handle, record: &Record) -> (out: Result<(), TransitionError>)
    ensures
        out == commit(old(handle)@, record@).result,
        final(handle)@.bytes == commit(old(handle)@, record@).bytes,
        final(handle)@.capacity == old(handle)@.capacity,
        final(handle)@.writable == old(handle)@.writable,
{
    let bytes = match encode_within(record, handle.capacity()) {
        Ok(bytes) => bytes,
        Err(_) => {
            return Err(TransitionError::IO);
        },
    };
    match handle.write(bytes) {
        Ok(_) => Ok(()),
        Err(_) => Err(TransitionError::IO),
    }
}

/// What [`process_instruction`] returns for the result of a transition.
pub open spec fn processed(result: Result<(), TransitionError>) -> Result<(), ProcessError> {
    match result {
        Ok(_) => Ok(()),
        Err(error) => Err(ProcessError::Transition(error)),
    }
}

/// Reads one instruction from `instruction_data` and applies it, for
/// `caller`, to the storage behind `handle`, under the machine that lets only
/// the owner of a record change it.
///
/// Instruction data that does not read as an instruction is rejected before
/// the storage is looked at.
pub fn process_instruction(
    caller: &Identity,
    handle: &mut Handle,
    instruction_data: &[u8],
    facts: &ResourceFacts,
) -> (out: Result<(), ProcessError>)
    ensures
        final(handle)@.capacity == old(handle)@.capacity,
        final(handle)@.writable == old(handle)@.writable,
        out is Err ==> final(handle)@ == old(handle)@,
        match decoded_instruction(instruction_data@) {
            None => out == Err::<(), ProcessError>(ProcessError::InvalidInstruction),
            Some(instruction) => {
                let outcome = (StateMachine { authority: None }).transition(
                    instruction,
                    old(handle)@,
                    caller@,
                    *facts,
                );
                out == processed(outcome.result) && final(handle)@.bytes == outcome.bytes
            },
        },
{
    let instruction = match decode_instruction(instruction_data) {
        Ok(instruction) => instruction,
        Err(_) => {
            return Err(ProcessError::InvalidInstruction);
        },
    };
    let machine = StateMachine::new();
    match machine.apply(instruction, handle, caller, facts) {
        Ok(_) => Ok(()),
        Err(error) => Err(ProcessError::Transition(error)),
    }
}

} // verus!
