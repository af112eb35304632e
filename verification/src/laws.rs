//! What holds of the codec and of the state machine, for every input.

use crate::codec::all_zero;
use crate::error::TransitionError;
use crate::handle::HandleView;
use crate::instruction::InstructionView;
use crate::layout::{
    decoded, lemma_decoded_is_parse, lemma_encoding_of_parse, lemma_parse_of_encoding,
    lemma_record_parts, record_encoding,
};
use crate::machine::{reject, state, ResourceFacts, State, StateMachine};
use crate::record::{MetadataView, RecordView};
use vstd::prelude::*;

verus! {

/// Round trip: decoding the layout of a well-formed record gives the record
/// back.
pub proof fn decode_inverts_encode(record: RecordView)
    requires
        record.well_formed(),
    ensures
        decoded(record_encoding(record)) == Some(record),
{
    lemma_decoded_is_parse(record_encoding(record));
    lemma_parse_of_encoding(record);
}

/// The layout is canonical: bytes that decode to a record are the layout of
/// that record, and the record is well-formed.
pub proof fn encode_inverts_decode(bytes: Seq<u8>, record: RecordView)
    requires
        decoded(bytes) == Some(record),
    ensures
        record.well_formed(),
        record_encoding(record) == bytes,
{
    lemma_decoded_is_parse(bytes);
    lemma_encoding_of_parse(bytes);
}

/// No two well-formed records share a layout.
pub proof fn encoding_is_injective(a: RecordView, b: RecordView)
    requires
        a.well_formed(),
        b.well_formed(),
        record_encoding(a) == record_encoding(b),
    ensures
        a == b,
{
    decode_inverts_encode(a);
    decode_inverts_encode(b);
}

/// The flag of a laid-out record is its last byte.
pub proof fn flag_is_last_byte(record: RecordView)
    requires
        record.well_formed(),
    ensures
        record_encoding(record).len() > 0,
        record_encoding(record).last() == if record.initialized {
            1u8
        } else {
            0u8
        },
{
    lemma_record_parts(record);
}

/// Storage that holds the layout of a record whose flag is set is active,
/// with that record.
pub proof fn written_record_is_active(record: RecordView)
    requires
        record.well_formed(),
        record.initialized,
    ensures
        state(record_encoding(record)) == State::Active(record),
{
    let bytes = record_encoding(record);
    flag_is_last_byte(record);
    assert(bytes[bytes.len() - 1] != 0);
    assert(!all_zero(bytes));
    decode_inverts_encode(record);
}

/// A transition that fails leaves the storage byte for byte as it was.
pub proof fn failure_leaves_storage_untouched(
    machine: StateMachine,
    instruction: InstructionView,
    handle: HandleView,
    caller: Seq<u8>,
    facts: ResourceFacts,
)
    requires
        machine.transition(instruction, handle, caller, facts).result is Err,
    ensures
        machine.transition(instruction, handle, caller, facts).bytes == handle.bytes,
{
}

/// A transition that succeeds leaves active storage behind: a record owned
/// by the caller after `Initialize`, and else the record that was there with
/// its metadata or its owner replaced.
pub proof fn success_leaves_active_record(
    machine: StateMachine,
    instruction: InstructionView,
    handle: HandleView,
    caller: Seq<u8>,
    facts: ResourceFacts,
)
    requires
        machine.transition(instruction, handle, caller, facts).result is Ok,
    ensures
        state(machine.transition(instruction, handle, caller, facts).bytes) == State::Active(
            match instruction {
                InstructionView::Initialize => RecordView::fresh(caller),
                InstructionView::SetMetadata(metadata) => state(
                    handle.bytes,
                )->Active_0.with_metadata(metadata),
                InstructionView::Transfer(owner) => state(handle.bytes)->Active_0.with_owner(
                    owner,
                ),
            },
        ),
{
    match instruction {
        InstructionView::Initialize => {
            written_record_is_active(RecordView::fresh(caller));
        },
        InstructionView::SetMetadata(metadata) => {
            let record = state(handle.bytes)->Active_0;
            written_record_is_active(record.with_metadata(metadata));
        },
        InstructionView::Transfer(owner) => {
            let record = state(handle.bytes)->Active_0;
            written_record_is_active(record.with_owner(owner));
        },
    }
}

/// `Initialize` rejects a second call: once it has succeeded, `Initialize`
/// on the storage it left behind fails with `AlreadyInitialized`, whoever
/// calls.
pub proof fn initialize_rejects_second_call(
    machine: StateMachine,
    handle: HandleView,
    first_caller: Seq<u8>,
    second_caller: Seq<u8>,
    facts: ResourceFacts,
    later_facts: ResourceFacts,
)
    requires
        machine.transition(InstructionView::Initialize, handle, first_caller, facts).result is Ok,
    ensures
        ({
            let first = machine.transition(
                InstructionView::Initialize,
                handle,
                first_caller,
                facts,
            );
            let after = HandleView {
                bytes: first.bytes,
                capacity: handle.capacity,
                writable: handle.writable,
            };
            machine.transition(InstructionView::Initialize, after, second_caller, later_facts)
                == reject(after, TransitionError::AlreadyInitialized)
        }),
{
    success_leaves_active_record(
        machine,
        InstructionView::Initialize,
        handle,
        first_caller,
        facts,
    );
}

/// On uninitialized storage `SetMetadata` and `Transfer` fail with
/// `Uninitialized` and leave the storage untouched, whoever calls and
/// whatever the resource facts.
pub proof fn uninitialized_storage_rejects_changes(
    machine: StateMachine,
    handle: HandleView,
    caller: Seq<u8>,
    facts: ResourceFacts,
    metadata: MetadataView,
    new_owner: Seq<u8>,
)
    requires
        state(handle.bytes) is Uninitialized,
    ensures
        machine.transition(InstructionView::SetMetadata(metadata), handle, caller, facts)
            == reject(handle, TransitionError::Uninitialized),
        machine.transition(InstructionView::Transfer(new_owner), handle, caller, facts) == reject(
            handle,
            TransitionError::Uninitialized,
        ),
{
}

/// A caller who is not authorized never succeeds: on an active record,
/// `SetMetadata` and `Transfer` by anyone but the owner and the designated
/// authority fail with `Unauthorized` and leave the storage untouched.
pub proof fn unauthorized_caller_is_rejected(
    machine: StateMachine,
    handle: HandleView,
    caller: Seq<u8>,
    facts: ResourceFacts,
    metadata: MetadataView,
    new_owner: Seq<u8>,
)
    requires
        state(handle.bytes) matches State::Active(record) && !machine.authorizes(caller, record),
    ensures
        machine.transition(InstructionView::SetMetadata(metadata), handle, caller, facts)
            == reject(handle, TransitionError::Unauthorized),
        machine.transition(InstructionView::Transfer(new_owner), handle, caller, facts) == reject(
            handle,
            TransitionError::Unauthorized,
        ),
{
}

/// The exemption gate: on an active record, `SetMetadata` by an authorized
/// caller fails with `NotExempt` while the storage is not exempt, and leaves
/// the storage untouched, whatever the metadata and whatever the handle
/// allows.
pub proof fn storage_that_is_not_exempt_rejects_metadata(
    machine: StateMachine,
    handle: HandleView,
    caller: Seq<u8>,
    facts: ResourceFacts,
    metadata: MetadataView,
)
    requires
        state(handle.bytes) matches State::Active(record) && machine.authorizes(caller, record),
        !facts.exempt,
    ensures
        machine.transition(InstructionView::SetMetadata(metadata), handle, caller, facts)
            == reject(handle, TransitionError::NotExempt),
{
}

/// After a successful `Transfer` the former owner has no say: under the
/// machine without a designated authority, `SetMetadata` by anyone but the
/// new owner fails with `Unauthorized`.
pub proof fn transfer_hands_over(
    handle: HandleView,
    caller: Seq<u8>,
    new_owner: Seq<u8>,
    later_caller: Seq<u8>,
    facts: ResourceFacts,
    later_facts: ResourceFacts,
    metadata: MetadataView,
)
    requires
        (StateMachine { authority: None }).transition(
            InstructionView::Transfer(new_owner),
            handle,
            caller,
            facts,
        ).result is Ok,
        later_caller != new_owner,
    ensures
        ({
            let machine = StateMachine { authority: None };
            let first = machine.transition(
                InstructionView::Transfer(new_owner),
                handle,
                caller,
                facts,
            );
            let after = HandleView {
                bytes: first.bytes,
                capacity: handle.capacity,
                writable: handle.writable,
            };
            machine.transition(InstructionView::SetMetadata(metadata), after, later_caller, later_facts)
                == reject(after, TransitionError::Unauthorized)
        }),
{
    success_leaves_active_record(
        StateMachine { authority: None },
        InstructionView::Transfer(new_owner),
        handle,
        caller,
        facts,
    );
}

} // verus!
