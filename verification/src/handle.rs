//! The storage of one record, leased by the host for one call.

use crate::error::IoError;
use vstd::prelude::*;

verus! {

/// What a [`Handle`] stands for: the bytes in storage, how many bytes the
/// storage can take, and whether it may be written.
pub struct HandleView {
    pub bytes: Seq<u8>,
    pub capacity: nat,
    pub writable: bool,
}

/// A lease on the backing storage of one record.
///
/// The storage holds a byte string of varying length, never longer than its
/// capacity. A write replaces the whole string or changes nothing.
#[derive(Debug)]
pub struct Handle {
    data: Vec<u8>,
    capacity: usize,
    writable: bool,
}

impl View for Handle {
    type V = HandleView;

    closed spec fn view(&self) -> HandleView {
        HandleView {
            bytes: self.data@,
            capacity: self.capacity as nat,
            writable: self.writable,
        }
    }
}

impl Handle {
    #[verifier::type_invariant]
    spec fn fits(self) -> bool {
        self.data@.len() <= self.capacity
    }

    /// A lease on storage that holds `data` and can take `capacity` bytes.
    /// Storage can always take what it already holds: a `capacity` below the
    /// length of `data` is raised to it.
    pub fn new(data: Vec<u8>, capacity: usize, writable: bool) -> (handle: Handle)
        ensures
            handle@.bytes == data@,
            handle@.capacity == if capacity >= data@.len() {
                capacity as nat
            } else {
                data@.len()
            },
            handle@.writable == writable,
    {
        let capacity = if capacity >= data.len() {
            capacity
        } else {
            data.len()
        };
        Handle { data, capacity, writable }
    }

    /// The bytes in storage.
    pub fn read(&self) -> (bytes: &[u8])
        ensures
            bytes@ == self@.bytes,
            bytes@.len() <= self@.capacity,
    {
        proof {
            use_type_invariant(self);
        }
        self.data.as_slice()
    }

    /// How many bytes the storage can take.
    pub fn capacity(&self) -> (capacity: usize)
        ensures
            capacity == self@.capacity,
    {
        self.capacity
    }

    /// Whether the storage may be written.
    pub fn is_writable(&self) -> (writable: bool)
        ensures
            writable == self@.writable,
    {
        self.writable
    }

    /// Replaces what is in storage by `bytes`.
    ///
    /// Fails, and leaves the storage as it was, where the handle is not
    /// writable ([`IoError::ReadOnly`]) and else where `bytes` is longer than
    /// the capacity ([`IoError::BufferTooSmall`]).
    pub fn write(&mut self, bytes: Vec<u8>) -> (out: Result<(), IoError>)
        ensures
            final(self)@.capacity == old(self)@.capacity,
            final(self)@.writable == old(self)@.writable,
            match out {
                Ok(_) => {
                    &&& old(self)@.writable
                    &&& bytes@.len() <= old(self)@.capacity
                    &&& final(self)@.bytes == bytes@
                },
                Err(error) => {
                    &&& final(self)@.bytes == old(self)@.bytes
                    &&& error == if old(self)@.writable {
                        IoError::BufferTooSmall
                    } else {
                        IoError::ReadOnly
                    }
                    &&& !old(self)@.writable || bytes@.len() > old(self)@.capacity
                },
            },
    {
        if !self.writable {
            return Err(IoError::ReadOnly);
        }
        if bytes.len() > self.capacity {
            return Err(IoError::BufferTooSmall);
        }
        self.data = bytes;
        Ok(())
    }

    /// Ends the lease and hands out the bytes in storage.
    pub fn into_bytes(self) -> (bytes: Vec<u8>)
        ensures
            bytes@ == self@.bytes,
    {
        self.data
    }
}

} // verus!
