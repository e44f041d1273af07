//! The table in which failures wait until somebody asks why a value is a NaN.
//!
//! The table is plain data. A program that shares one among threads keeps it
//! behind a lock and holds the lock for one `insert` or one `remove` at a time.

use crate::error::FloatError;
use std::collections::BTreeMap;
use vstd::prelude::*;

verus! {

/// What a buffer holds: the last index handed out (0 while none was) and the
/// failures that wait, by index.
pub struct BufferState {
    pub issued: usize,
    pub records: Map<usize, FloatError>,
}

impl BufferState {
    /// Every failure that waits sits under an index that was handed out.
    pub open spec fn wf(self) -> bool {
        forall|k: usize| #[trigger] self.records.contains_key(k) ==> 1 <= k <= self.issued
    }

    /// Whether another index can be handed out.
    pub open spec fn has_room(self) -> bool {
        self.issued < usize::MAX
    }

    /// The index that the next failure gets.
    pub open spec fn next(self) -> usize {
        (self.issued + 1) as usize
    }

    /// The state after a failure was stored under the next index.
    pub open spec fn inserted(self, error: FloatError) -> BufferState {
        BufferState { issued: self.next(), records: self.records.insert(self.next(), error) }
    }

    /// The state after the failure under `index` was taken out.
    pub open spec fn removed(self, index: usize) -> BufferState {
        BufferState { issued: self.issued, records: self.records.remove(index) }
    }
}

/// Failures under the indices that they were given. Indices are handed out
/// from 1 upwards and never twice.
pub struct ErrorBuffer {
    // is incremented for every new error
    index: usize,
    errors: BTreeMap<usize, FloatError>,
}

impl View for ErrorBuffer {
    type V = BufferState;

    closed spec fn view(&self) -> BufferState {
        BufferState { issued: self.index, records: self.errors@ }
    }
}

impl ErrorBuffer {
    #[verifier::type_invariant]
    spec fn inv(&self) -> bool {
        forall|k: usize| #[trigger] self.errors@.contains_key(k) ==> 1 <= k <= self.index
    }

    pub fn new() -> (buffer: Self)
        ensures
            buffer@.issued == 0,
            buffer@.records == Map::<usize, FloatError>::empty(),
    {
        ErrorBuffer { index: 0, errors: BTreeMap::new() }
    }

    /// The last index handed out.
    pub fn last_index(&self) -> (index: usize)
        ensures
            index == self@.issued,
            self@.wf(),
    {
        proof {
            use_type_invariant(self);
        }
        self.index
    }

    /// Whether a failure waits under `index`.
    pub fn contains(&self, index: usize) -> (present: bool)
        ensures
            present == self@.records.contains_key(index),
    {
        broadcast use vstd::std_specs::btree::group_btree_axioms;
        broadcast use vstd::laws_cmp::group_laws_cmp;

        self.errors.contains_key(&index)
    }

    /// Stores a failure under the next index and returns that index.
    pub fn insert(&mut self, error: FloatError) -> (index: usize)
        requires
            old(self)@.has_room(),
        ensures
            index == old(self)@.next(),
            final(self)@ == old(self)@.inserted(error),
            old(self)@.wf(),
            final(self)@.wf(),
    {
        broadcast use vstd::std_specs::btree::group_btree_axioms;
        broadcast use vstd::laws_cmp::group_laws_cmp;

        proof {
            use_type_invariant(&*self);
        }
        self.index += 1;
        let index = self.index;
        let mut errors = BTreeMap::new();
        core::mem::swap(&mut self.errors, &mut errors);
        errors.insert(index, error);
        assert forall|k: usize| #[trigger] errors@.contains_key(k) implies 1 <= k <= index by {
            if k != index {
                assert(old(self).errors@.contains_key(k));
            }
        }
        core::mem::swap(&mut self.errors, &mut errors);
        self.index
    }

    /// Takes the failure under `index` out of the table. An index that is not
    /// in the table was used twice or never handed out: a defect of the
    /// caller, which `requires` rules out.
    pub fn remove(&mut self, index: usize) -> (error: FloatError)
        requires
            old(self)@.records.contains_key(index),
        ensures
            error == old(self)@.records[index],
            final(self)@ == old(self)@.removed(index),
            old(self)@.wf(),
            final(self)@.wf(),
    {
        broadcast use vstd::std_specs::btree::group_btree_axioms;
        broadcast use vstd::laws_cmp::group_laws_cmp;

        proof {
            use_type_invariant(&*self);
        }
        let mut errors = BTreeMap::new();
        core::mem::swap(&mut self.errors, &mut errors);
        let removed = errors.remove(&index);
        assert forall|k: usize| #[trigger] errors@.contains_key(k) implies 1 <= k
            <= self.index by {
            assert(old(self).errors@.contains_key(k));
        }
        core::mem::swap(&mut self.errors, &mut errors);
        match removed {
            Some(error) => error,
            None => unreached(),
        }
    }
}

impl Default for ErrorBuffer {
    fn default() -> (buffer: Self)
        ensures
            buffer@.issued == 0,
            buffer@.records == Map::<usize, FloatError>::empty(),
    {
        ErrorBuffer::new()
    }
}

} // verus!
