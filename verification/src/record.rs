//! The persisted entity: an owner, its metadata and the initialized flag.

use crate::identity::Identity;
use vstd::prelude::*;

verus! {

/// What a [`Metadata`] holds, as mathematical text.
pub struct MetadataView {
    pub name: Seq<char>,
    pub description: Seq<char>,
}

/// What a [`Record`] holds: the owner's bytes, the metadata and the flag.
pub struct RecordView {
    pub owner: Seq<u8>,
    pub metadata: MetadataView,
    pub initialized: bool,
}

impl MetadataView {
    /// The metadata of a freshly initialized record: both texts empty.
    pub open spec fn empty() -> MetadataView {
        MetadataView { name: Seq::empty(), description: Seq::empty() }
    }
}

impl RecordView {
    /// The record that `Initialize` creates for `owner`.
    pub open spec fn fresh(owner: Seq<u8>) -> RecordView {
        RecordView { owner, metadata: MetadataView::empty(), initialized: true }
    }

    /// This record with its metadata replaced wholesale.
    pub open spec fn with_metadata(self, metadata: MetadataView) -> RecordView {
        RecordView { owner: self.owner, metadata, initialized: self.initialized }
    }

    /// This record in the hands of `owner`.
    pub open spec fn with_owner(self, owner: Seq<u8>) -> RecordView {
        RecordView { owner, metadata: self.metadata, initialized: self.initialized }
    }
}

/// Descriptive text attached to a record.
#[derive(Clone, Debug, PartialEq, Eq)]
pub struct Metadata {
    pub name: String,
    pub description: String,
}

impl View for Metadata {
    type V = MetadataView;

    open spec fn view(&self) -> MetadataView {
        MetadataView { name: self.name@, description: self.description@ }
    }
}

impl Default for Metadata {
    fn default() -> (metadata: Metadata)
        ensures
            metadata@ == MetadataView::empty(),
    {
        Metadata { name: String::new(), description: String::new() }
    }
}

/// The persisted entity.
#[derive(Clone, Debug, PartialEq, Eq)]
pub struct Record {
    pub owner: Identity,
    pub metadata: Metadata,
    pub initialized: bool,
}

impl View for Record {
    type V = RecordView;

    open spec fn view(&self) -> RecordView {
        RecordView {
            owner: self.owner@,
            metadata: self.metadata@,
            initialized: self.initialized,
        }
    }
}

impl Record {
    /// The record that `Initialize` creates for `owner`.
    pub fn fresh(owner: Identity) -> (record: Record)
        ensures
            record@ == RecordView::fresh(owner@),
    {
        Record { owner, metadata: Metadata::default(), initialized: true }
    }

    /// Whether the flag of this record is set.
    pub fn is_initialized(&self) -> (flag: bool)
        ensures
            flag == self@.initialized,
    {
        self.initialized
    }
}

} // verus!
