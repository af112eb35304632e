//! The transitions a host may ask for, and their layout as instruction data.
//!
//! An instruction is laid out as one tag byte and the operand:
//!
//! | instruction   | tag | operand                              |
//! |---------------|-----|--------------------------------------|
//! | `Initialize`  | `0` | none                                 |
//! | `SetMetadata` | `1` | the metadata: name, then description |
//! | `Transfer`    | `2` | the 32 bytes of the new owner        |

use crate::codec::{decode_identity, decode_metadata};
use crate::error::DecodeError;
use crate::identity::{Identity, IDENTITY_LEN};
use crate::layout::{
    lemma_metadata_encoding_of_parse, lemma_parse_of_metadata_encoding, metadata_encoding,
    parse_metadata,
};
use crate::record::{Metadata, MetadataView};
use vstd::prelude::*;
use vstd::slice::slice_subrange;

verus! {

/// One transition of a record.
#[derive(Clone, Debug, PartialEq, Eq)]
pub enum Instruction {
    /// Create the record, owned by the caller.
    Initialize,
    /// Replace the metadata of the record.
    SetMetadata(Metadata),
    /// Hand the record to a new owner.
    Transfer(Identity),
}

/// An [`Instruction`], as mathematics.
pub enum InstructionView {
    Initialize,
    SetMetadata(MetadataView),
    Transfer(Seq<u8>),
}

impl View for Instruction {
    type V = InstructionView;

    open spec fn view(&self) -> InstructionView {
        match self {
            Instruction::Initialize => InstructionView::Initialize,
            Instruction::SetMetadata(metadata) => InstructionView::SetMetadata(metadata@),
            Instruction::Transfer(owner) => InstructionView::Transfer(owner@),
        }
    }
}

impl InstructionView {
    /// Whether the operand can be laid out: metadata that fits, an owner of
    /// the fixed width.
    pub open spec fn well_formed(self) -> bool {
        match self {
            InstructionView::Initialize => true,
            InstructionView::SetMetadata(metadata) => metadata.well_formed(),
            InstructionView::Transfer(owner) => owner.len() == IDENTITY_LEN,
        }
    }
}

/// An instruction as instruction data.
pub open spec fn instruction_encoding(instruction: InstructionView) -> Seq<u8> {
    match instruction {
        InstructionView::Initialize => seq![0u8],
        InstructionView::SetMetadata(metadata) => seq![1u8] + metadata_encoding(metadata),
        InstructionView::Transfer(owner) => seq![2u8] + owner,
    }
}

/// Whether `bytes` is the layout of some well-formed instruction.
pub open spec fn is_instruction_encoding(bytes: Seq<u8>) -> bool {
    exists|instruction: InstructionView| #[trigger]
        instruction.well_formed() && instruction_encoding(instruction) == bytes
}

/// The instruction laid out in `bytes`, if there is one.
pub open spec fn decoded_instruction(bytes: Seq<u8>) -> Option<InstructionView> {
    if is_instruction_encoding(bytes) {
        Some(choose|instruction: InstructionView| #[trigger]
            instruction.well_formed() && instruction_encoding(instruction) == bytes)
    } else {
        None
    }
}

/// Reads `bytes` as a tag and its operand. Gives `None` on an unknown tag, an
/// operand that does not read, or bytes left over.
pub open spec fn parse_instruction(bytes: Seq<u8>) -> Option<InstructionView> {
    if bytes.len() == 0 {
        None
    } else if bytes[0] == 0 {
        if bytes.len() == 1 {
            Some(InstructionView::Initialize)
        } else {
            None
        }
    } else if bytes[0] == 1 {
        match parse_metadata(bytes.subrange(1, bytes.len() as int)) {
            Some(metadata) => Some(InstructionView::SetMetadata(metadata)),
            None => None,
        }
    } else if bytes[0] == 2 {
        if bytes.len() == 1 + IDENTITY_LEN {
            Some(InstructionView::Transfer(bytes.subrange(1, bytes.len() as int)))
        } else {
            None
        }
    } else {
        None
    }
}

/// Reading a laid-out instruction gives the instruction back.
pub proof fn lemma_parse_of_instruction_encoding(instruction: InstructionView)
    requires
        instruction.well_formed(),
    ensures
        parse_instruction(instruction_encoding(instruction)) == Some(instruction),
{
    let bytes = instruction_encoding(instruction);
    match instruction {
        InstructionView::Initialize => {},
        InstructionView::SetMetadata(metadata) => {
            assert(bytes.subrange(1, bytes.len() as int) =~= metadata_encoding(metadata));
            lemma_parse_of_metadata_encoding(metadata);
        },
        InstructionView::Transfer(owner) => {
            assert(bytes.subrange(1, bytes.len() as int) =~= owner);
        },
    }
}

/// What reads as an instruction is the layout of that instruction.
pub proof fn lemma_instruction_encoding_of_parse(bytes: Seq<u8>)
    requires
        parse_instruction(bytes) is Some,
    ensures
        parse_instruction(bytes)->0.well_formed(),
        instruction_encoding(parse_instruction(bytes)->0) == bytes,
{
    let instruction = parse_instruction(bytes)->0;
    if bytes[0] == 1 {
        lemma_metadata_encoding_of_parse(bytes.subrange(1, bytes.len() as int));
    }
    assert(instruction_encoding(instruction) =~= bytes);
}

/// Reading tag and operand finds exactly the instruction that `bytes` lays
/// out.
pub proof fn lemma_decoded_instruction_is_parse(bytes: Seq<u8>)
    ensures
        decoded_instruction(bytes) == parse_instruction(bytes),
{
    if is_instruction_encoding(bytes) {
        let instruction = decoded_instruction(bytes)->0;
        lemma_parse_of_instruction_encoding(instruction);
    } else if parse_instruction(bytes) is Some {
        lemma_instruction_encoding_of_parse(bytes);
        assert(parse_instruction(bytes)->0.well_formed());
    }
}

/// Reads the instruction that `data` lays out.
///
/// Succeeds exactly on the layouts of well-formed instructions. Anything
/// else is [`DecodeError::Malformed`]: no tag, an unknown tag, an operand
/// that does not read, bytes left over.
pub fn decode_instruction(data: &[u8]) -> (out: Result<Instruction, DecodeError>)
    ensures
        match out {
            Ok(instruction) => decoded_instruction(data@) == Some(instruction@),
            Err(error) => error == DecodeError::Malformed && decoded_instruction(data@) is None,
        },
{
    proof {
        lemma_decoded_instruction_is_parse(data@);
    }
    let len = data.len();
    if len == 0 {
        return Err(DecodeError::Malformed);
    }
    let tag = data[0];
    if tag == 0 {
        if len == 1 {
            Ok(Instruction::Initialize)
        } else {
            Err(DecodeError::Malformed)
        }
    } else if tag == 1 {
        match decode_metadata(slice_subrange(data, 1, len)) {
            Some(metadata) => Ok(Instruction::SetMetadata(metadata)),
            None => Err(DecodeError::Malformed),
        }
    } else if tag == 2 {
        if len == 1 + IDENTITY_LEN {
            Ok(Instruction::Transfer(decode_identity(slice_subrange(data, 1, len))))
        } else {
            Err(DecodeError::Malformed)
        }
    } else {
        Err(DecodeError::Malformed)
    }
}

} // verus!
