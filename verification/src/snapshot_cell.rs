//! The snapshot id that the write executions of one table handle share.
//!
//! The cell is a single atomic word. Every access is relaxed: nothing else is
//! published through the cell, so no other memory has to become visible with
//! it. Should a second piece of state ever travel with the snapshot id, that
//! choice has to be made anew.

use std::sync::atomic::AtomicI64;
use std::sync::atomic::Ordering;
use std::sync::Arc;
use vstd::prelude::*;

verus! {

/// What a cell holds while no snapshot id was published into it. Snapshot ids
/// are never negative, so no snapshot has this id.
pub const UNSET_ID: i64 = i64::MIN;

/// The value that a reader compares with: the one it saw last, or
/// [`UNSET_ID`] when it saw none.
pub open spec fn baseline_of(previous: Option<i64>) -> i64 {
    match previous {
        Some(seen) => seen,
        None => UNSET_ID,
    }
}

/// What a reader that saw `previous` last is told of a cell that holds
/// `current`: the value, if it is another one.
pub open spec fn changed_value(current: i64, previous: Option<i64>) -> Option<i64> {
    if current != baseline_of(previous) {
        Some(current)
    } else {
        None
    }
}

/// What publishing `new` does to a cell that holds `current`: the value held
/// afterwards, and whether it differs from the one before.
pub open spec fn published(current: i64, new: i64) -> (i64, bool) {
    (new, current != new)
}

/// Publishing the value that a cell already holds reports no change and
/// leaves the cell as it was.
pub proof fn lemma_publish_same_value(value: i64)
    ensures
        published(value, value) == (value, false),
{
}

/// Publishing another value reports a change, and a reader that saw the old
/// value last is then told the new one.
pub proof fn lemma_publish_other_value(value: i64, new: i64)
    requires
        new != value,
    ensures
        published(value, new).1,
        changed_value(published(value, new).0, Some(value)) == Some(new),
{
}

/// The value that a reader compares with, and that a cell is made with: the
/// one given, or [`UNSET_ID`] where none is given.
pub fn starting_value(given: Option<i64>) -> (value: i64)
    ensures
        value == baseline_of(given),
{
    match given {
        Some(id) => id,
        None => UNSET_ID,
    }
}

/// What a reader that saw `previous` last makes of the value `received` from
/// a cell.
pub fn changed_since(received: i64, previous: Option<i64>) -> (change: Option<i64>)
    ensures
        change == changed_value(received, previous),
{
    if starting_value(previous) != received {
        Some(received)
    } else {
        None
    }
}

/// What a writer that put `new_id_value` in the place of `replaced` reports:
/// whether the two differ.
pub fn changed_by(replaced: i64, new_id_value: i64) -> (changed: bool)
    ensures
        changed == published(replaced, new_id_value).1,
{
    replaced != new_id_value
}

/// The value that an atomic integer was made with.
pub uninterp spec fn made_with(cell: AtomicI64) -> i64;

/// `AtomicI64::new`, which makes an atomic integer that holds the value
/// given. What the integer holds later is for its holders to decide; what it
/// was made with stays what it was.
#[verifier::external_body]
fn new_cell(value: i64) -> (cell: AtomicI64)
    ensures
        made_with(cell) == value,
{
    AtomicI64::new(value)
}

/// `Arc::clone`: a second handle to the same allocation, here to the same
/// atomic word. A handle is identified with what it points to, so the two
/// are equal.
#[verifier::external_body]
fn share(cell: &Arc<AtomicI64>) -> (shared: Arc<AtomicI64>)
    ensures
        shared == *cell,
{
    Arc::clone(cell)
}

/// A handle to a shared snapshot id. Clones of a handle reach the same cell.
#[derive(Debug)]
pub struct SharedSnapshotId(Arc<AtomicI64>);

impl Clone for SharedSnapshotId {
    fn clone(&self) -> (copy: Self)
        ensures
            copy == *self,
    {
        SharedSnapshotId(share(&self.0))
    }
}

impl SharedSnapshotId {
    /// The value that the cell was made with.
    pub closed spec fn initial(&self) -> i64 {
        made_with(*self.0)
    }

    /// A new cell that holds `initial`, or [`UNSET_ID`] where there is none.
    pub fn new(initial: Option<i64>) -> (cell: Self)
        ensures
            cell.initial() == baseline_of(initial),
    {
        SharedSnapshotId(Arc::new(new_cell(starting_value(initial))))
    }

    /// The value that the cell holds at the moment of the call. Other holders
    /// of the cell may publish at any time, so nothing is known of it.
    pub(crate) fn current(&self) -> i64 {
        self.0.load(Ordering::Relaxed)
    }

    /// The cell's value, if it differs from `previous`; without a `previous`,
    /// the value if one was published.
    ///
    /// The answer is that of [`changed_value`] for the value that the cell
    /// held when it was read; which one that was, no contract can say.
    pub fn get_value(&self, previous_id_value: Option<i64>) -> (change: Option<i64>)
        ensures
            exists|current: i64| change == changed_value(current, previous_id_value),
            change matches Some(id) ==> id != baseline_of(previous_id_value),
    {
        let received = self.current();
        let change = changed_since(received, previous_id_value);
        assert(change == changed_value(received, previous_id_value));
        change
    }

    /// Replaces the cell's value in one atomic step and says whether the new
    /// value differs from the one replaced.
    ///
    /// The answer is that of [`changed_by`] for the value that the cell held
    /// when it was replaced. Which one that was, no contract can say, and
    /// either answer is possible: the clause below names the rule and
    /// excludes nothing.
    pub fn set_value(&self, new_id_value: i64) -> (changed: bool)
        ensures
            exists|current: i64| changed == published(current, new_id_value).1,
    {
        let replaced = self.0.swap(new_id_value, Ordering::Relaxed);
        changed_by(replaced, new_id_value)
    }
}

} // verus!
