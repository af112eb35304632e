//! The record codec: records to bytes and back.
//!
//! [`encode`] and [`decode`] are inverse to each other on well-formed
//! records. [`inspect`] tells storage that was never written from storage
//! that holds garbage and from storage that holds a record.

use crate::error::DecodeError;
use crate::identity::{Identity, IDENTITY_LEN};
use crate::layout::{
    decoded, lemma_decoded_is_parse, parse_metadata, record_encoding, MIN_RECORD_LEN,
};
use crate::record::{Metadata, Record, RecordView};
use crate::wire::{text_from_slice, text_to_vec};
use vstd::bytes::u32_from_le_bytes;
use vstd::prelude::*;
use vstd::slice::slice_subrange;
use vstd::utf8::encode_utf8_decode_utf8;

verus! {

/// What a buffer holds.
#[derive(Clone, Debug, PartialEq, Eq)]
pub enum Stored {
    /// Storage that was never written: empty, or zero throughout.
    Absent,
    /// Bytes that are not the layout of a record.
    Malformed,
    /// A record, whatever its flag.
    Present(Record),
}

/// What a buffer holds, as mathematics.
pub enum StoredView {
    Absent,
    Malformed,
    Present(RecordView),
}

impl View for Stored {
    type V = StoredView;

    open spec fn view(&self) -> StoredView {
        match self {
            Stored::Absent => StoredView::Absent,
            Stored::Malformed => StoredView::Malformed,
            Stored::Present(record) => StoredView::Present(record@),
        }
    }
}

/// Whether every byte is zero. The empty sequence is.
pub open spec fn all_zero(bytes: Seq<u8>) -> bool {
    forall|i: int| 0 <= i < bytes.len() ==> bytes[i] == 0
}

/// What `bytes` holds: nothing where they are zero throughout, else the
/// record they lay out, else garbage.
pub open spec fn stored(bytes: Seq<u8>) -> StoredView {
    if all_zero(bytes) {
        StoredView::Absent
    } else {
        match decoded(bytes) {
            Some(record) => StoredView::Present(record),
            None => StoredView::Malformed,
        }
    }
}

/// The layout of `record`, or `None` where a text does not fit its prefix.
fn lay_out(record: &Record) -> (out: Option<Vec<u8>>)
    ensures
        out is Some <==> record@.well_formed(),
        out matches Some(bytes) ==> bytes@ == record_encoding(record@),
{
    let name = match text_to_vec(&record.metadata.name) {
        Ok(bytes) => bytes,
        Err(_) => {
            return None;
        },
    };
    let description = match text_to_vec(&record.metadata.description) {
        Ok(bytes) => bytes,
        Err(_) => {
            return None;
        },
    };
    let mut bytes: Vec<u8> = Vec::new();
    let mut i: usize = 0;
    while i < IDENTITY_LEN
        invariant
            i <= IDENTITY_LEN,
            bytes@ == record.owner@.subrange(0, i as int),
        decreases IDENTITY_LEN - i,
    {
        bytes.push(record.owner.bytes[i]);
        i += 1;
    }
    bytes.extend_from_slice(name.as_slice());
    bytes.extend_from_slice(description.as_slice());
    bytes.push(if record.initialized { 1u8 } else { 0u8 });
    assert(bytes@ =~= record_encoding(record@));
    Some(bytes)
}

/// Lays out a well-formed record. Never fails.
pub fn encode(record: &Record) -> (bytes: Vec<u8>)
    requires
        record@.well_formed(),
    ensures
        bytes@ == record_encoding(record@),
{
    match lay_out(record) {
        Some(bytes) => bytes,
        // Not reached: a well-formed record has a layout.
        None => Vec::new(),
    }
}

/// Lays out a record for a destination of `room` bytes.
///
/// Fails with [`DecodeError::BufferTooSmall`] where the layout is longer
/// than `room`, and where a text of the record is too long for its length
/// prefix, so that no destination could hold it.
pub fn encode_within(record: &Record, room: usize) -> (out: Result<Vec<u8>, DecodeError>)
    ensures
        out is Ok <==> record@.well_formed() && record_encoding(record@).len() <= room,
        out matches Ok(bytes) ==> bytes@ == record_encoding(record@),
        out matches Err(error) ==> error == DecodeError::BufferTooSmall,
{
    match lay_out(record) {
        Some(bytes) => {
            if bytes.len() <= room {
                Ok(bytes)
            } else {
                Err(DecodeError::BufferTooSmall)
            }
        },
        None => Err(DecodeError::BufferTooSmall),
    }
}

/// Reads `buffer` as metadata: two texts, one after the other, and nothing
/// else.
pub(crate) fn decode_metadata(buffer: &[u8]) -> (out: Option<Metadata>)
    ensures
        match out {
            Some(metadata) => parse_metadata(buffer@) == Some(metadata@),
            None => parse_metadata(buffer@) is None,
        },
{
    let len = buffer.len();
    if len < 8 {
        return None;
    }
    let name_len = u32_from_le_bytes(slice_subrange(buffer, 0, 4)) as usize;
    if name_len > len - 8 {
        return None;
    }
    let name_end = 4 + name_len;
    let name_bytes = slice_subrange(buffer, 0, name_end);
    assert(name_bytes@.subrange(0, 4) =~= buffer@.subrange(0, 4));
    assert(name_bytes@.subrange(4, name_bytes@.len() as int) =~= buffer@.subrange(
        4,
        name_end as int,
    ));

    let description_len = u32_from_le_bytes(slice_subrange(buffer, name_end, name_end + 4)) as usize;
    if description_len != len - 8 - name_len {
        return None;
    }
    let description_bytes = slice_subrange(buffer, name_end, len);
    assert(description_bytes@.subrange(0, 4) =~= buffer@.subrange(
        name_end as int,
        name_end + 4,
    ));
    assert(description_bytes@.subrange(4, description_bytes@.len() as int) =~= buffer@.subrange(
        name_end + 4,
        len as int,
    ));

    let name = match text_from_slice(name_bytes) {
        Ok(text) => text,
        Err(_) => {
            return None;
        },
    };
    let description = match text_from_slice(description_bytes) {
        Ok(text) => text,
        Err(_) => {
            return None;
        },
    };
    proof {
        encode_utf8_decode_utf8(name@);
        encode_utf8_decode_utf8(description@);
    }
    Some(Metadata { name, description })
}

/// Reads `buffer` as an identity: exactly [`IDENTITY_LEN`] bytes.
pub(crate) fn decode_identity(buffer: &[u8]) -> (id: Identity)
    requires
        buffer@.len() == IDENTITY_LEN,
    ensures
        id@ == buffer@,
{
    let mut bytes = [0u8; 32];
    let mut i: usize = 0;
    while i < IDENTITY_LEN
        invariant
            i <= IDENTITY_LEN,
            buffer@.len() == IDENTITY_LEN,
            forall|k: int| 0 <= k < i ==> bytes@[k] == buffer@[k],
        decreases IDENTITY_LEN - i,
    {
        bytes[i] = buffer[i];
        i += 1;
    }
    assert(bytes@ =~= buffer@);
    Identity { bytes }
}

/// Reads the record that `buffer` lays out.
///
/// Succeeds exactly on the layouts of well-formed records, and gives back
/// the record laid out. Anything else is [`DecodeError::Malformed`]: a
/// buffer cut short, a text that is not UTF-8, a flag that is neither `0`
/// nor `1`, bytes left over. A buffer of zeros of the least length is the
/// layout of a record whose flag is not set, and decodes as such.
pub fn decode(buffer: &[u8]) -> (out: Result<Record, DecodeError>)
    ensures
        match out {
            Ok(record) => decoded(buffer@) == Some(record@),
            Err(error) => error == DecodeError::Malformed && decoded(buffer@) is None,
        },
{
    proof {
        lemma_decoded_is_parse(buffer@);
    }
    let len = buffer.len();
    if len < MIN_RECORD_LEN {
        return Err(DecodeError::Malformed);
    }
    let flag = buffer[len - 1];
    if flag > 1 {
        return Err(DecodeError::Malformed);
    }
    let metadata = match decode_metadata(slice_subrange(buffer, IDENTITY_LEN, len - 1)) {
        Some(metadata) => metadata,
        None => {
            return Err(DecodeError::Malformed);
        },
    };
    let owner = decode_identity(slice_subrange(buffer, 0, IDENTITY_LEN));
    Ok(Record { owner, metadata, initialized: flag == 1 })
}

/// What the flag byte of `bytes` says, without reading anything else: the
/// last byte, where it is `0` or `1`.
pub open spec fn flag_at_end(bytes: Seq<u8>) -> Option<bool> {
    if bytes.len() == 0 || bytes.last() > 1 {
        None
    } else {
        Some(bytes.last() == 1)
    }
}

/// Reads the flag of the record in `buffer` in constant time, without
/// decoding the metadata.
///
/// Where `buffer` lays out a record, the answer is the flag of that record.
/// The answer says nothing of the rest of the buffer: only [`decode`] tells
/// whether it lays out a record at all.
pub fn peek_initialized(buffer: &[u8]) -> (out: Option<bool>)
    ensures
        out == flag_at_end(buffer@),
        decoded(buffer@) matches Some(record) ==> out == Some(record.initialized),
{
    proof {
        lemma_decoded_is_parse(buffer@);
    }
    let len = buffer.len();
    if len == 0 {
        return None;
    }
    let flag = buffer[len - 1];
    if flag > 1 {
        None
    } else {
        Some(flag == 1)
    }
}

/// Tells what `buffer` holds.
///
/// Storage that is empty or zero throughout was never written and is
/// [`Stored::Absent`]. Other bytes are [`Stored::Present`] with the record
/// they lay out, or [`Stored::Malformed`].
pub fn inspect(buffer: &[u8]) -> (out: Stored)
    ensures
        out@ == stored(buffer@),
{
    let mut i: usize = 0;
    while i < buffer.len()
        invariant
            i <= buffer@.len(),
            forall|k: int| 0 <= k < i ==> buffer@[k] == 0,
        decreases buffer@.len() - i,
    {
        if buffer[i] != 0 {
            assert(!all_zero(buffer@));
            return match decode(buffer) {
                Ok(record) => Stored::Present(record),
                Err(_) => Stored::Malformed,
            };
        }
        i += 1;
    }
    Stored::Absent
}

} // verus!
