//! A cursor over a shared snapshot id, one for each observer.
//!
//! A moderator reports the cell's value only when it differs from the value
//! that this observer acknowledged last. The baseline is the moderator's own:
//! no list of observers exists, and none of them can move another's baseline.

use crate::snapshot_cell::changed_value;
use crate::snapshot_cell::published;
use crate::snapshot_cell::SharedSnapshotId;
use vstd::prelude::*;

verus! {

/// One cell and the baselines of the moderators that watch it.
pub struct Moderation {
    pub value: i64,
    pub baselines: Seq<i64>,
}

impl Moderation {
    /// Whether `observer` is one of the moderators.
    pub open spec fn watches(self, observer: int) -> bool {
        0 <= observer < self.baselines.len()
    }

    /// What the moderator `observer` reports: the cell's value, if it is not
    /// the one acknowledged last.
    pub open spec fn get_new_value(self, observer: int) -> Option<i64> {
        changed_value(self.value, Some(self.baselines[observer]))
    }

    /// The state after any of the moderators published `value`, and whether
    /// the cell's value changed.
    pub open spec fn set_new_value(self, value: i64) -> (Moderation, bool) {
        (
            Moderation { value: published(self.value, value).0, baselines: self.baselines },
            published(self.value, value).1,
        )
    }

    /// The state after the moderator `observer` acknowledged `value`.
    pub open spec fn acknowledge(self, observer: int, value: i64) -> Moderation {
        Moderation { value: self.value, baselines: self.baselines.update(observer, value) }
    }
}

/// An acknowledgement in one moderator changes nothing for another over the
/// same cell: neither its baseline nor what it reports.
pub proof fn lemma_acknowledge_is_private(
    state: Moderation,
    observer: int,
    other: int,
    value: i64,
)
    requires
        state.watches(observer),
        state.watches(other),
        observer != other,
    ensures
        state.acknowledge(observer, value).baselines[other] == state.baselines[other],
        state.acknowledge(observer, value).get_new_value(other) == state.get_new_value(other),
{
}

/// A moderator that acknowledged a value reports nothing until the cell
/// holds another one, and then reports that one.
pub proof fn lemma_acknowledged_until_changed(
    state: Moderation,
    observer: int,
    value: i64,
    next: i64,
)
    requires
        state.watches(observer),
    ensures
        state.value == value ==> state.acknowledge(observer, value).get_new_value(observer)
            is None,
        next != value ==> state.acknowledge(observer, value).set_new_value(
            next,
        ).0.get_new_value(observer) == Some(next),
{
}

/// A shared snapshot id together with the value that one observer
/// acknowledged last.
#[derive(Debug)]
pub struct SnapshotIdModerator {
    shared: SharedSnapshotId,
    previous: i64,
}

impl Clone for SnapshotIdModerator {
    fn clone(&self) -> (copy: Self)
        ensures
            copy.cell() == self.cell(),
            copy.baseline() == self.baseline(),
    {
        SnapshotIdModerator { shared: self.shared.clone(), previous: self.previous }
    }
}

impl SnapshotIdModerator {
    /// The cell that this moderator watches.
    pub closed spec fn cell(&self) -> SharedSnapshotId {
        self.shared
    }

    /// The value that this observer acknowledged last.
    pub closed spec fn baseline(&self) -> i64 {
        self.previous
    }

    /// A moderator over `shared` whose baseline is the value that the cell
    /// holds at the moment of the call.
    pub fn new(shared: SharedSnapshotId) -> (moderator: Self)
        ensures
            moderator.cell() == shared,
    {
        let previous = shared.current();
        SnapshotIdModerator::with_baseline(shared, previous)
    }

    /// A moderator over `shared` with the given baseline.
    pub(crate) fn with_baseline(shared: SharedSnapshotId, baseline: i64) -> (moderator: Self)
        ensures
            moderator.cell() == shared,
            moderator.baseline() == baseline,
    {
        SnapshotIdModerator { shared, previous: baseline }
    }

    /// The cell's value, if it is not the one acknowledged last.
    ///
    /// The answer is that of [`changed_value`] for the value that the cell
    /// held when it was read, against this moderator's own baseline.
    pub fn get_new_value(&self) -> (change: Option<i64>)
        ensures
            exists|current: i64| change == changed_value(current, Some(self.baseline())),
            change matches Some(id) ==> id != self.baseline(),
    {
        self.shared.get_value(Some(self.previous))
    }

    /// Publishes a snapshot id into the cell and says whether the cell's
    /// value changed. The baseline stays as it is. As with
    /// [`SharedSnapshotId::set_value`], either answer is possible.
    pub fn set_new_value(&self, new_id_value: i64) -> (changed: bool)
        ensures
            exists|current: i64| changed == published(current, new_id_value).1,
    {
        self.shared.set_value(new_id_value)
    }

    /// Makes `value_to_acknowledge` the baseline, so that nothing is reported
    /// until the cell holds another value. The cell is not touched.
    pub fn acknowledge(&mut self, value_to_acknowledge: i64)
        ensures
            final(self).baseline() == value_to_acknowledge,
            final(self).cell() == old(self).cell(),
    {
        self.previous = value_to_acknowledge;
    }
}

} // verus!
