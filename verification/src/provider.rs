//! The table handle of the query engine: which table a read or a write is
//! planned on, and how a finished write makes its snapshot known.
//!
//! Snapshots never change once written. A cached table that holds the
//! snapshot a plan needs is therefore as good as a fresh one, and the catalog
//! is asked only when the cache cannot serve.

use crate::table_format::read_error;
use crate::table_format::text_of;
use crate::moderator::SnapshotIdModerator;
use crate::snapshot_cell::baseline_of;
use crate::snapshot_cell::starting_value;
use crate::snapshot_cell::SharedSnapshotId;
use crate::snapshot_cell::UNSET_ID;
use crate::table::TableIdentifier;
use crate::table::TableIdentifierView;
use crate::table::TableState;
use crate::table::TableStateView;
use vstd::prelude::*;

verus! {

/// The table to plan on.
#[derive(Debug, PartialEq, Eq)]
pub enum TableChoice {
    /// The table that the handle holds.
    Cached(TableState),
    /// The table of this identifier, loaded anew from the catalog.
    Reload(TableIdentifier),
}

/// A [`TableChoice`] as plain values.
pub enum TableChoiceView {
    Cached(TableStateView),
    Reload(TableIdentifierView),
}

impl View for TableChoice {
    type V = TableChoiceView;

    open spec fn view(&self) -> TableChoiceView {
        match self {
            TableChoice::Cached(table) => TableChoiceView::Cached(table@),
            TableChoice::Reload(identifier) => TableChoiceView::Reload(identifier@),
        }
    }
}

/// Why no table could be had. The catalog's own error does not leave the
/// place where the catalog is called: what is kept of it is its text.
#[derive(Debug, PartialEq, Eq)]
pub enum ResolveError {
    /// The catalog failed to load the table.
    Internal(String),
}

/// The choice for a handle bound to a catalog: the cached table if a
/// snapshot is needed and the table holds it, a reload in every other case.
pub open spec fn choice_with_catalog(table: TableStateView, needed: Option<i64>) -> TableChoiceView {
    match needed {
        Some(snapshot_id) if table.snapshots.contains(snapshot_id) => TableChoiceView::Cached(table),
        _ => TableChoiceView::Reload(table.identifier),
    }
}

/// What becomes of a reload: the table that the catalog returned, or the
/// text of the catalog's error as an error of the handle.
pub fn reloaded<T>(outcome: Result<T, iceberg::Error>) -> (table: Result<T, ResolveError>)
    ensures
        match outcome {
            Ok(loaded) => table == Ok::<T, ResolveError>(loaded),
            Err(error) => table matches Err(ResolveError::Internal(text)) && text@ == text_of(error),
        },
{
    match outcome {
        Ok(loaded) => Ok(loaded),
        Err(error) => Err(ResolveError::Internal(read_error(&error).1)),
    }
}

/// A table handle: the cached table, the snapshot that its reads are pinned
/// to, whether a catalog stands behind it, and the cell through which its
/// writes make their snapshots known.
#[derive(Debug)]
pub struct IcebergTableProvider {
    table: TableState,
    snapshot_id: Option<i64>,
    catalog_bound: bool,
    shared_snapshot_id: Option<SharedSnapshotId>,
}

impl IcebergTableProvider {
    /// The cached table.
    pub closed spec fn table(&self) -> TableState {
        self.table
    }

    /// The snapshot that reads are pinned to, if any.
    pub closed spec fn snapshot_id(&self) -> Option<i64> {
        self.snapshot_id
    }

    /// Whether a catalog stands behind the handle.
    pub closed spec fn has_catalog(&self) -> bool {
        self.catalog_bound
    }

    /// The cell that the handle's writes publish into, if it has one.
    pub closed spec fn cell(&self) -> Option<SharedSnapshotId> {
        self.shared_snapshot_id
    }

    /// What the handle's cell can tell of the latest snapshot: nothing
    /// without a cell, and never the value that stands for "unset".
    pub open spec fn may_learn(&self, latest: Option<i64>) -> bool {
        match self.cell() {
            Some(_) => latest != Some(UNSET_ID),
            None => latest is None,
        }
    }

    /// The snapshot that a plan needs: the pinned one, else the latest that
    /// is known.
    pub open spec fn needed_snapshot(&self, latest: Option<i64>) -> Option<i64> {
        match self.snapshot_id() {
            Some(pinned) => Some(pinned),
            None => latest,
        }
    }

    /// The table to plan on when `latest` is the latest snapshot known.
    pub open spec fn choice_for(&self, latest: Option<i64>) -> TableChoiceView {
        if self.has_catalog() {
            choice_with_catalog(self.table()@, self.needed_snapshot(latest))
        } else {
            TableChoiceView::Cached(self.table()@)
        }
    }

    /// A detached handle on `table`: no catalog stands behind it.
    pub fn new(table: TableState, snapshot_id: Option<i64>) -> (provider: Self)
        ensures
            provider.table() == table,
            provider.snapshot_id() == snapshot_id,
            !provider.has_catalog(),
            provider.cell() is None,
    {
        IcebergTableProvider { table, snapshot_id, catalog_bound: false, shared_snapshot_id: None }
    }

    /// A handle on `table` that is bound to the catalog in which the table
    /// was created.
    pub fn new_from_parts(table: TableState, snapshot_id: Option<i64>) -> (provider: Self)
        ensures
            provider.table() == table,
            provider.snapshot_id() == snapshot_id,
            provider.has_catalog(),
            provider.cell() is None,
    {
        IcebergTableProvider { table, snapshot_id, catalog_bound: true, shared_snapshot_id: None }
    }

    /// A handle to the cell that the handle's writes publish into, if it has
    /// one: the commit of a write is given it.
    pub fn shared_snapshot_id(&self) -> (shared: Option<SharedSnapshotId>)
        ensures
            shared == self.cell(),
    {
        match &self.shared_snapshot_id {
            Some(cell) => Some(cell.clone()),
            None => None,
        }
    }

    /// The table to plan on when `latest` is the latest snapshot known.
    pub fn choose_table(&self, latest: Option<i64>) -> (choice: TableChoice)
        ensures
            choice@ == self.choice_for(latest),
    {
        if !self.catalog_bound {
            return TableChoice::Cached(self.table.clone());
        }
        let needed = match self.snapshot_id {
            Some(pinned) => Some(pinned),
            None => latest,
        };
        let has_needed_snapshot = match needed {
            Some(snapshot_id) => self.table.has_snapshot(snapshot_id),
            None => false,
        };
        if has_needed_snapshot {
            TableChoice::Cached(self.table.clone())
        } else {
            TableChoice::Reload(self.table.identifier.clone())
        }
    }

    /// The table to plan a read or a write on.
    ///
    /// A detached handle always serves its cached table and asks nothing. A
    /// bound handle needs the pinned snapshot or, without one, the latest
    /// that its cell holds; it serves the cached table if that table holds
    /// the snapshot, and asks for a reload otherwise.
    pub fn table_to_use(&self) -> (choice: TableChoice)
        ensures
            exists|latest: Option<i64>| self.may_learn(latest) && choice@ == self.choice_for(latest),
            !self.has_catalog() ==> choice@ == TableChoiceView::Cached(self.table()@),
            self.has_catalog() && self.snapshot_id() is Some ==> choice@ == choice_with_catalog(
                self.table()@,
                self.snapshot_id(),
            ),
            self.has_catalog() && self.snapshot_id() is None && self.cell() is None
                ==> choice@ == TableChoiceView::Reload(self.table()@.identifier),
    {
        if !self.catalog_bound || self.snapshot_id.is_some() {
            assert(self.may_learn(None));
            return self.choose_table(None);
        }
        let latest = match &self.shared_snapshot_id {
            Some(shared) => shared.get_value(None),
            None => None,
        };
        assert(self.may_learn(latest));
        self.choose_table(latest)
    }

    /// Gives the handle a new cell, which starts from the pinned snapshot,
    /// and returns a moderator over it. A cell that the handle had before is
    /// let go. Every write through the handle that runs to its end publishes
    /// its snapshot into the cell.
    pub fn set_snapshot_id_moderator(&mut self) -> (moderator: SnapshotIdModerator)
        ensures
            final(self).cell() == Some(moderator.cell()),
            moderator.cell().initial() == baseline_of(old(self).snapshot_id()),
            moderator.baseline() == baseline_of(old(self).snapshot_id()),
            final(self).table() == old(self).table(),
            final(self).snapshot_id() == old(self).snapshot_id(),
            final(self).has_catalog() == old(self).has_catalog(),
    {
        let baseline = starting_value(self.snapshot_id);
        let shared = SharedSnapshotId::new(self.snapshot_id);
        let moderator = SnapshotIdModerator::with_baseline(shared.clone(), baseline);
        self.shared_snapshot_id = Some(shared);
        moderator
    }
}

/// The last step of a write: the commit of what was written.
#[derive(Debug)]
pub struct IcebergCommitExec {
    shared_snapshot_id: Option<SharedSnapshotId>,
}

impl IcebergCommitExec {
    /// The cell that the commit publishes into, if it has one.
    pub closed spec fn cell(&self) -> Option<SharedSnapshotId> {
        self.shared_snapshot_id
    }

    /// A handle to the cell that the commit publishes into, if it has one.
    pub fn shared_snapshot_id(&self) -> (shared: Option<SharedSnapshotId>)
        ensures
            shared == self.cell(),
    {
        match &self.shared_snapshot_id {
            Some(cell) => Some(cell.clone()),
            None => None,
        }
    }

    /// A commit step that publishes nowhere.
    pub fn new() -> (exec: Self)
        ensures
            exec.cell() is None,
    {
        IcebergCommitExec { shared_snapshot_id: None }
    }

    /// The same step, publishing into `shared`.
    pub fn with_shared_snapshot_id(self, shared: SharedSnapshotId) -> (exec: Self)
        ensures
            exec.cell() == Some(shared),
    {
        let mut exec = self;
        exec.shared_snapshot_id = Some(shared);
        exec
    }

    /// The snapshot id that a commit which produced `new_table` makes known:
    /// the table's current snapshot, if there is a cell to publish into.
    pub open spec fn snapshot_to_publish(
        shared: Option<SharedSnapshotId>,
        new_table: TableStateView,
    ) -> Option<i64> {
        match shared {
            Some(_) => new_table.current_snapshot_id,
            None => None,
        }
    }

    /// Publishes the current snapshot of the committed table into the cell,
    /// where there is a cell and the table has a snapshot, and returns the id
    /// that was published.
    pub fn update_shared_snapshot_id(shared: Option<SharedSnapshotId>, new_table: &TableState) -> (published:
        Option<i64>)
        ensures
            published == Self::snapshot_to_publish(shared, new_table@),
    {
        match (shared, new_table.current_snapshot_id) {
            (Some(cell), Some(value)) => {
                cell.set_value(value);
                Some(value)
            },
            _ => None,
        }
    }
}

} // verus!
