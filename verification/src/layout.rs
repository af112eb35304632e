//! The byte layout of a record, as mathematics.
//!
//! A record is laid out as
//!
//! | field         | width                                   |
//! |---------------|-----------------------------------------|
//! | owner         | 32 bytes                                |
//! | name          | 4-byte little-endian length, then UTF-8 |
//! | description   | 4-byte little-endian length, then UTF-8 |
//! | initialized   | 1 byte, `0` or `1`                      |
//!
//! The flag is the last byte of the buffer, so it can be read without
//! walking the metadata.

use crate::identity::IDENTITY_LEN;
use crate::record::{MetadataView, RecordView};
use vstd::bytes::{
    lemma_auto_spec_u32_to_from_le_bytes, spec_u32_from_le_bytes, spec_u32_to_le_bytes,
};
use vstd::prelude::*;
use vstd::utf8::{
    decode_utf8, decode_utf8_encode_utf8, encode_utf8, encode_utf8_decode_utf8,
    encode_utf8_valid_utf8, valid_utf8,
};

verus! {

/// Length of the shortest record: owner, two empty texts and the flag.
pub const MIN_RECORD_LEN: usize = 41;

/// Whether the UTF-8 form of `text` is short enough for its length prefix.
pub open spec fn text_fits(text: Seq<char>) -> bool {
    encode_utf8(text).len() <= u32::MAX
}

/// A text on the wire: the length of its UTF-8 form as four little-endian
/// bytes, then the UTF-8 form itself.
pub open spec fn text_encoding(text: Seq<char>) -> Seq<u8> {
    spec_u32_to_le_bytes(encode_utf8(text).len() as u32) + encode_utf8(text)
}

/// Whether `bytes` is, from its first byte to its last, one text on the wire.
pub open spec fn is_text_encoding(bytes: Seq<u8>) -> bool {
    &&& bytes.len() >= 4
    &&& spec_u32_from_le_bytes(bytes.subrange(0, 4)) + 4 == bytes.len()
    &&& valid_utf8(bytes.subrange(4, bytes.len() as int))
}

/// The flag on the wire.
pub open spec fn flag_encoding(flag: bool) -> Seq<u8> {
    seq![if flag { 1u8 } else { 0u8 }]
}

impl MetadataView {
    /// Whether both texts fit their length prefixes.
    pub open spec fn well_formed(self) -> bool {
        text_fits(self.name) && text_fits(self.description)
    }
}

impl RecordView {
    /// Whether this record can be laid out: the owner has its fixed width and
    /// the metadata fits.
    pub open spec fn well_formed(self) -> bool {
        self.owner.len() == IDENTITY_LEN && self.metadata.well_formed()
    }
}

/// The metadata on the wire: name, then description.
pub open spec fn metadata_encoding(metadata: MetadataView) -> Seq<u8> {
    text_encoding(metadata.name) + text_encoding(metadata.description)
}

/// A record on the wire.
pub open spec fn record_encoding(record: RecordView) -> Seq<u8> {
    record.owner + metadata_encoding(record.metadata) + flag_encoding(record.initialized)
}

/// Whether `bytes` is the layout of some well-formed record.
pub open spec fn is_record_encoding(bytes: Seq<u8>) -> bool {
    exists|record: RecordView| #[trigger]
        record.well_formed() && record_encoding(record) == bytes
}

/// The record laid out in `bytes`, if there is one.
pub open spec fn decoded(bytes: Seq<u8>) -> Option<RecordView> {
    if is_record_encoding(bytes) {
        Some(choose|record: RecordView| #[trigger]
            record.well_formed() && record_encoding(record) == bytes)
    } else {
        None
    }
}

/// Where the text that starts at `start` ends, going by its length prefix.
pub open spec fn text_end(bytes: Seq<u8>, start: int) -> int {
    start + 4 + spec_u32_from_le_bytes(bytes.subrange(start, start + 4))
}

/// Reads `bytes` as two texts, one after the other. Gives `None` where a
/// text is cut short or is not UTF-8, or bytes are left over.
pub open spec fn parse_metadata(bytes: Seq<u8>) -> Option<MetadataView> {
    let name_end = text_end(bytes, 0);
    let description_end = text_end(bytes, name_end);
    if bytes.len() < 8 || name_end + 4 > bytes.len() || description_end != bytes.len() {
        None
    } else if !valid_utf8(bytes.subrange(4, name_end)) || !valid_utf8(
        bytes.subrange(name_end + 4, description_end),
    ) {
        None
    } else {
        Some(
            MetadataView {
                name: decode_utf8(bytes.subrange(4, name_end)),
                description: decode_utf8(bytes.subrange(name_end + 4, description_end)),
            },
        )
    }
}

/// Reads `bytes` field by field: the owner, the metadata, the flag. Gives
/// `None` where a field is cut short, a text is not UTF-8, the flag is
/// neither `0` nor `1`, or bytes are left over.
pub open spec fn parse_record(bytes: Seq<u8>) -> Option<RecordView> {
    if bytes.len() < 41 || bytes[bytes.len() - 1] > 1 {
        None
    } else {
        match parse_metadata(bytes.subrange(32, bytes.len() - 1)) {
            Some(metadata) => Some(
                RecordView {
                    owner: bytes.subrange(0, 32),
                    metadata,
                    initialized: bytes[bytes.len() - 1] == 1,
                },
            ),
            None => None,
        }
    }
}

/// A text on the wire is its prefix followed by its UTF-8 form, and reads
/// back as a text.
pub proof fn lemma_text_encoding(text: Seq<char>)
    requires
        text_fits(text),
    ensures
        text_encoding(text).len() == 4 + encode_utf8(text).len(),
        spec_u32_from_le_bytes(text_encoding(text).subrange(0, 4)) == encode_utf8(text).len(),
        text_encoding(text).subrange(4, text_encoding(text).len() as int) == encode_utf8(text),
        is_text_encoding(text_encoding(text)),
{
    lemma_auto_spec_u32_to_from_le_bytes();
    encode_utf8_valid_utf8(text);
    let prefix = spec_u32_to_le_bytes(encode_utf8(text).len() as u32);
    let whole = text_encoding(text);
    assert(whole.subrange(0, 4) =~= prefix);
    assert(whole.subrange(4, whole.len() as int) =~= encode_utf8(text));
}

/// Bytes that read as a text on the wire are the layout of exactly the text
/// that their payload decodes to.
pub proof fn lemma_text_decoding(bytes: Seq<u8>)
    requires
        is_text_encoding(bytes),
    ensures
        text_fits(decode_utf8(bytes.subrange(4, bytes.len() as int))),
        text_encoding(decode_utf8(bytes.subrange(4, bytes.len() as int))) == bytes,
{
    lemma_auto_spec_u32_to_from_le_bytes();
    let payload = bytes.subrange(4, bytes.len() as int);
    decode_utf8_encode_utf8(payload);
    assert(bytes =~= bytes.subrange(0, 4) + payload);
}

/// Where each text of laid-out metadata stands.
pub proof fn lemma_metadata_parts(metadata: MetadataView)
    requires
        metadata.well_formed(),
    ensures
        ({
            let bytes = metadata_encoding(metadata);
            let name_len = encode_utf8(metadata.name).len() as int;
            let description_len = encode_utf8(metadata.description).len() as int;
            &&& bytes.len() == 8 + name_len + description_len
            &&& text_end(bytes, 0) == 4 + name_len
            &&& bytes.subrange(4, 4 + name_len) == encode_utf8(metadata.name)
            &&& text_end(bytes, 4 + name_len) == 8 + name_len + description_len
            &&& bytes.subrange(8 + name_len, 8 + name_len + description_len) == encode_utf8(
                metadata.description,
            )
        }),
{
    let bytes = metadata_encoding(metadata);
    let name = text_encoding(metadata.name);
    let description = text_encoding(metadata.description);
    let name_len = encode_utf8(metadata.name).len() as int;
    let description_len = encode_utf8(metadata.description).len() as int;
    lemma_text_encoding(metadata.name);
    lemma_text_encoding(metadata.description);
    assert(bytes.subrange(0, 4) =~= name.subrange(0, 4));
    assert(bytes.subrange(4, 4 + name_len) =~= name.subrange(4, name.len() as int));
    assert(bytes.subrange(4 + name_len, 8 + name_len) =~= description.subrange(0, 4));
    assert(bytes.subrange(8 + name_len, 8 + name_len + description_len) =~= description.subrange(
        4,
        description.len() as int,
    ));
}

/// Reading laid-out metadata gives the metadata back.
pub proof fn lemma_parse_of_metadata_encoding(metadata: MetadataView)
    requires
        metadata.well_formed(),
    ensures
        parse_metadata(metadata_encoding(metadata)) == Some(metadata),
{
    lemma_metadata_parts(metadata);
    encode_utf8_valid_utf8(metadata.name);
    encode_utf8_valid_utf8(metadata.description);
    encode_utf8_decode_utf8(metadata.name);
    encode_utf8_decode_utf8(metadata.description);
}

/// What reads as metadata is the layout of that metadata.
pub proof fn lemma_metadata_encoding_of_parse(bytes: Seq<u8>)
    requires
        parse_metadata(bytes) is Some,
    ensures
        parse_metadata(bytes)->0.well_formed(),
        metadata_encoding(parse_metadata(bytes)->0) == bytes,
{
    let metadata = parse_metadata(bytes)->0;
    let name_end = text_end(bytes, 0);
    let description_end = text_end(bytes, name_end);
    let name_bytes = bytes.subrange(0, name_end);
    let description_bytes = bytes.subrange(name_end, description_end);
    assert(name_bytes.subrange(0, 4) =~= bytes.subrange(0, 4));
    assert(name_bytes.subrange(4, name_bytes.len() as int) =~= bytes.subrange(4, name_end));
    assert(description_bytes.subrange(0, 4) =~= bytes.subrange(name_end, name_end + 4));
    assert(description_bytes.subrange(4, description_bytes.len() as int) =~= bytes.subrange(
        name_end + 4,
        description_end,
    ));
    lemma_text_decoding(name_bytes);
    lemma_text_decoding(description_bytes);
    assert(metadata_encoding(metadata) =~= bytes);
}

/// Where each field of a laid-out record stands.
pub proof fn lemma_record_parts(record: RecordView)
    requires
        record.well_formed(),
    ensures
        ({
            let bytes = record_encoding(record);
            &&& bytes.len() == 33 + metadata_encoding(record.metadata).len()
            &&& bytes.len() >= 41
            &&& bytes.subrange(0, 32) == record.owner
            &&& bytes.subrange(32, bytes.len() - 1) == metadata_encoding(record.metadata)
            &&& bytes[bytes.len() - 1] == flag_encoding(record.initialized)[0]
        }),
{
    let bytes = record_encoding(record);
    lemma_metadata_parts(record.metadata);
    assert(bytes.subrange(0, 32) =~= record.owner);
    assert(bytes.subrange(32, bytes.len() - 1) =~= metadata_encoding(record.metadata));
}

/// Reading a laid-out record field by field gives the record back.
pub proof fn lemma_parse_of_encoding(record: RecordView)
    requires
        record.well_formed(),
    ensures
        parse_record(record_encoding(record)) == Some(record),
{
    lemma_record_parts(record);
    lemma_parse_of_metadata_encoding(record.metadata);
}

/// What reads field by field as a record is the layout of that record.
pub proof fn lemma_encoding_of_parse(bytes: Seq<u8>)
    requires
        parse_record(bytes) is Some,
    ensures
        parse_record(bytes)->0.well_formed(),
        record_encoding(parse_record(bytes)->0) == bytes,
{
    let record = parse_record(bytes)->0;
    lemma_metadata_encoding_of_parse(bytes.subrange(32, bytes.len() - 1));
    assert(record_encoding(record) =~= bytes);
}

/// Reading field by field finds exactly the record that `bytes` lays out.
pub proof fn lemma_decoded_is_parse(bytes: Seq<u8>)
    ensures
        decoded(bytes) == parse_record(bytes),
{
    if is_record_encoding(bytes) {
        let record = decoded(bytes)->0;
        lemma_parse_of_encoding(record);
    } else if parse_record(bytes) is Some {
        lemma_encoding_of_parse(bytes);
        assert(parse_record(bytes)->0.well_formed());
    }
}

} // verus!
