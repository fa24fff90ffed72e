//! What the protocol guarantees, stated over whole runs and over the two
//! stores that a commit writes to.

use crate::catalog::guard_holds;
use crate::catalog::lemma_rows_affected_counts_guarded;
use crate::catalog::rows_affected;
use crate::catalog::rows_after_update;
use crate::catalog::update_parameters;
use crate::catalog::update_statement_text;
use crate::catalog::CatalogRow;
use crate::catalog::UPDATE_PARAMETERS;
use crate::commit::next_step;
use crate::commit::CommitActionView;
use crate::commit::CommitErrorView;
use crate::commit::CommitEventView;
use crate::commit::CommitStateView;
use crate::table::TableIdentifierView;
use crate::table::TableStateView;
use vstd::prelude::*;

verus! {

/// The state of a commit that began and was then told `events`, one after
/// the other.
pub open spec fn state_after(catalog_name: Seq<char>, events: Seq<CommitEventView>) -> CommitStateView
    decreases events.len(),
{
    if events.len() == 0 {
        CommitStateView::Loading
    } else {
        next_step(catalog_name, state_after(catalog_name, events.drop_last()), events.last()).0
    }
}

/// The action that the last of `events` led to.
pub open spec fn action_after(catalog_name: Seq<char>, events: Seq<CommitEventView>) -> CommitActionView
    recommends
        events.len() > 0,
{
    next_step(catalog_name, state_after(catalog_name, events.drop_last()), events.last()).1
}

/// Whether one of the first `upto` events led to the action `action`.
pub open spec fn was_asked(
    catalog_name: Seq<char>,
    events: Seq<CommitEventView>,
    upto: int,
    action: CommitActionView,
) -> bool {
    exists|k: int|
        0 < k <= upto && k <= events.len() && #[trigger] action_after(catalog_name, events.take(k))
            == action
}

/// The parameters of the update that publishes `staged`.
pub open spec fn parameters_of(catalog_name: Seq<char>, staged: TableStateView) -> Seq<Seq<char>>
    recommends
        staged.metadata_location is Some,
{
    update_parameters(staged.metadata_location.unwrap(), catalog_name, staged.identifier)
}

/// The update that publishes `staged` in the catalog `catalog_name`.
pub open spec fn update_of(catalog_name: Seq<char>, staged: TableStateView) -> CommitActionView
    recommends
        staged.metadata_location is Some,
{
    CommitActionView::UpdateCatalog {
        statement: update_statement_text(),
        parameters: parameters_of(catalog_name, staged),
    }
}

/// What a run has behind it, by the state it is in: a commit that waits for
/// its write was given a location and asked for the write there; one that
/// waits for its update asked for that update, and for the write before it.
pub open spec fn history_holds(catalog_name: Seq<char>, events: Seq<CommitEventView>) -> bool {
    match state_after(catalog_name, events) {
        CommitStateView::Persisting(staged) => {
            &&& staged.metadata_location is Some
            &&& was_asked(
                catalog_name,
                events,
                events.len() as int,
                CommitActionView::WriteMetadata(staged.metadata_location.unwrap()),
            )
        },
        CommitStateView::Publishing(staged) => {
            &&& staged.metadata_location is Some
            &&& exists|k: int|
                0 < k <= events.len() && #[trigger] action_after(catalog_name, events.take(k))
                    == update_of(catalog_name, staged) && was_asked(
                    catalog_name,
                    events,
                    k - 1,
                    CommitActionView::WriteMetadata(staged.metadata_location.unwrap()),
                )
        },
        _ => true,
    }
}

/// An action that was asked on the way to all but the last event was asked
/// on the way to all of them.
proof fn lemma_asked_before(
    catalog_name: Seq<char>,
    events: Seq<CommitEventView>,
    upto: int,
    action: CommitActionView,
)
    requires
        events.len() > 0,
        upto < events.len(),
        was_asked(catalog_name, events.drop_last(), upto, action),
    ensures
        was_asked(catalog_name, events, upto, action),
{
    let k = choose|k: int|
        0 < k <= upto && k <= events.drop_last().len() && #[trigger] action_after(
            catalog_name,
            events.drop_last().take(k),
        ) == action;
    assert(events.drop_last().take(k) =~= events.take(k));
}

/// Every run has the history that its state stands for.
pub proof fn lemma_history_holds(catalog_name: Seq<char>, events: Seq<CommitEventView>)
    ensures
        history_holds(catalog_name, events),
    decreases events.len(),
{
    if events.len() > 0 {
        let before = events.drop_last();
        let n = events.len() as int;
        lemma_history_holds(catalog_name, before);
        assert(events.take(n) =~= events);
        match state_after(catalog_name, events) {
            CommitStateView::Persisting(staged) => {
                let write = CommitActionView::WriteMetadata(staged.metadata_location.unwrap());
                if state_after(catalog_name, before) is Persisting {
                    lemma_asked_before(catalog_name, events, n - 1, write);
                } else {
                    assert(action_after(catalog_name, events.take(n)) == write);
                }
            },
            CommitStateView::Publishing(staged) => {
                let write = CommitActionView::WriteMetadata(staged.metadata_location.unwrap());
                if state_after(catalog_name, before) is Publishing {
                    let k = choose|k: int|
                        0 < k <= before.len() && #[trigger] action_after(
                            catalog_name,
                            before.take(k),
                        ) == update_of(catalog_name, staged) && was_asked(
                            catalog_name,
                            before,
                            k - 1,
                            write,
                        );
                    assert(before.take(k) =~= events.take(k));
                    lemma_asked_before(catalog_name, events, k - 1, write);
                } else {
                    lemma_asked_before(catalog_name, events, n - 1, write);
                    assert(action_after(catalog_name, events.take(n)) == update_of(
                        catalog_name,
                        staged,
                    ));
                }
            },
            _ => {},
        }
    }
}

/// Metadata is written before it is published: whenever a run asks for the
/// catalog's row to be updated, the event before was the news that the write
/// is durable, and the location that the update sets is one for which the
/// run asked a write earlier.
pub proof fn lemma_write_before_publish(
    catalog_name: Seq<char>,
    events: Seq<CommitEventView>,
    statement: Seq<char>,
    parameters: Seq<Seq<char>>,
)
    requires
        events.len() > 0,
        action_after(catalog_name, events) == (CommitActionView::UpdateCatalog {
            statement,
            parameters,
        }),
    ensures
        events.last() == CommitEventView::Written,
        statement == update_statement_text(),
        parameters.len() == UPDATE_PARAMETERS,
        was_asked(
            catalog_name,
            events,
            events.len() - 1,
            CommitActionView::WriteMetadata(parameters[0]),
        ),
{
    lemma_history_holds(catalog_name, events.drop_last());
    lemma_asked_before(
        catalog_name,
        events,
        events.len() - 1,
        CommitActionView::WriteMetadata(parameters[0]),
    );
}

/// A commit succeeds only if it was published: whenever a run ends with the
/// staged table as the committed state, the last event was an update that
/// affected a row, the run had asked for that update, with the table's own
/// location and identifier, and for the write before it.
pub proof fn lemma_success_was_published(
    catalog_name: Seq<char>,
    events: Seq<CommitEventView>,
    committed: TableStateView,
)
    requires
        events.len() > 0,
        action_after(catalog_name, events) == CommitActionView::Succeed(committed),
    ensures
        events.last() matches CommitEventView::Updated(rows) && rows > 0,
        committed.metadata_location is Some,
        exists|k: int|
            0 < k < events.len() && #[trigger] action_after(catalog_name, events.take(k))
                == update_of(catalog_name, committed) && was_asked(
                catalog_name,
                events,
                k - 1,
                CommitActionView::WriteMetadata(committed.metadata_location.unwrap()),
            ),
{
    let before = events.drop_last();
    lemma_history_holds(catalog_name, before);
    let write = CommitActionView::WriteMetadata(committed.metadata_location.unwrap());
    let k = choose|k: int|
        0 < k <= before.len() && #[trigger] action_after(catalog_name, before.take(k))
            == update_of(catalog_name, committed) && was_asked(catalog_name, before, k - 1, write);
    assert(before.take(k) =~= events.take(k));
    lemma_asked_before(catalog_name, events, k - 1, write);
}

/// Whether one of the first `upto` events led to an update of the catalog.
pub open spec fn update_was_asked(
    catalog_name: Seq<char>,
    events: Seq<CommitEventView>,
    upto: int,
) -> bool {
    exists|k: int|
        0 < k <= upto && k <= events.len() && (#[trigger] action_after(
            catalog_name,
            events.take(k),
        )) is UpdateCatalog
}

/// A run that has not come to publishing has asked for no update.
proof fn lemma_no_update_before_publishing(catalog_name: Seq<char>, events: Seq<CommitEventView>)
    ensures
        state_after(catalog_name, events) is Loading || state_after(catalog_name, events) is Applying
            || state_after(catalog_name, events) is Persisting ==> !update_was_asked(
            catalog_name,
            events,
            events.len() as int,
        ),
    decreases events.len(),
{
    let state = state_after(catalog_name, events);
    if events.len() > 0 && (state is Loading || state is Applying || state is Persisting) {
        let before = events.drop_last();
        let n = events.len() as int;
        lemma_no_update_before_publishing(catalog_name, before);
        assert(events.take(n) =~= events);
        if update_was_asked(catalog_name, events, n) {
            let k = choose|k: int|
                0 < k <= n && (#[trigger] action_after(catalog_name, events.take(k)))
                    is UpdateCatalog;
            if k < n {
                assert(before.take(k) =~= events.take(k));
                assert(update_was_asked(catalog_name, before, n - 1));
            }
        }
    }
}

/// Metadata that failed to persist is never published, and neither is a
/// commit that did not apply or whose table was not found: a run that fails
/// for one of these reasons has asked for no update of the catalog. A run
/// that fails after it asked for the update fails on the answer to it: the
/// statement affected no row, or the catalog could not run it.
pub proof fn lemma_failure_publishes_nothing(
    catalog_name: Seq<char>,
    events: Seq<CommitEventView>,
    error: CommitErrorView,
)
    requires
        events.len() > 0,
        action_after(catalog_name, events) == CommitActionView::Fail(error),
    ensures
        error is NotFound || error is Validation || error is StorageIO ==> !update_was_asked(
            catalog_name,
            events,
            events.len() as int,
        ),
        update_was_asked(catalog_name, events, events.len() as int) ==> events.last()
            == CommitEventView::Updated(0) || events.last() is UpdateFailed,
{
    let before = events.drop_last();
    let n = events.len() as int;
    lemma_no_update_before_publishing(catalog_name, before);
    assert(events.take(n) =~= events);
    if update_was_asked(catalog_name, events, n) {
        let k = choose|k: int|
            0 < k <= n && (#[trigger] action_after(catalog_name, events.take(k))) is UpdateCatalog;
        assert(before.take(k) =~= events.take(k));
        assert(update_was_asked(catalog_name, before, n - 1));
    }
}

/// A commit ends once: after the run succeeded or failed, no event leads to
/// another action.
pub proof fn lemma_finished_stays_finished(
    catalog_name: Seq<char>,
    events: Seq<CommitEventView>,
    event: CommitEventView,
)
    requires
        events.len() > 0,
        action_after(catalog_name, events) is Succeed || action_after(catalog_name, events) is Fail,
    ensures
        state_after(catalog_name, events) == CommitStateView::Finished,
        next_step(catalog_name, state_after(catalog_name, events), event) == (
            CommitStateView::Finished,
            CommitActionView::Idle,
        ),
{
}

/// The conflict is told apart from every other end: a run fails with it if
/// and only if the update ran and affected no row.
pub proof fn lemma_conflict_means_no_row(
    catalog_name: Seq<char>,
    state: CommitStateView,
    event: CommitEventView,
)
    ensures
        next_step(catalog_name, state, event).1 == CommitActionView::Fail(
            CommitErrorView::Conflict,
        ) <==> state is Publishing && event == CommitEventView::Updated(0),
{
}

/// The two stores that a commit writes to: the catalog's rows, and the
/// metadata that lies at each location.
pub struct Stores {
    pub rows: Seq<CatalogRow>,
    pub metadata: Map<Seq<char>, TableStateView>,
}

impl Stores {
    /// The stores after the metadata of `table` was written to `location`.
    pub open spec fn written(self, location: Seq<char>, table: TableStateView) -> Stores {
        Stores { rows: self.rows, metadata: self.metadata.insert(location, table) }
    }

    /// The stores after the update statement ran with `parameters`.
    pub open spec fn updated(self, parameters: Seq<Seq<char>>) -> Stores {
        Stores { rows: rows_after_update(self.rows, parameters), metadata: self.metadata }
    }

    /// Whether a load of `identifier` from the catalog `catalog_name` can
    /// return `table`: a live row of the identifier points to a location at
    /// which the metadata of `table` lies.
    pub open spec fn may_load(
        self,
        catalog_name: Seq<char>,
        identifier: TableIdentifierView,
        table: TableStateView,
    ) -> bool {
        exists|i: int|
            0 <= i < self.rows.len() && (#[trigger] self.rows[i]).stands_for(
                catalog_name,
                identifier,
            ) && self.metadata.contains_key(self.rows[i].metadata_location)
                && self.metadata[self.rows[i].metadata_location] == table
    }
}

/// A commit that succeeded is what the next load returns.
///
/// Let `staged` be what applying a commit to `base` gave: a table at a new
/// location that holds the snapshots of `base` and those that the commit
/// adds. If its metadata was written and the update then affected a row,
/// the run ends with `staged` as the committed state, and a load of the
/// identifier finds a table then, and none but `staged`: its location is
/// the new one, its snapshots are those of `base` and the additions.
pub proof fn lemma_committed_table_is_loaded(
    catalog_name: Seq<char>,
    stores: Stores,
    base: TableStateView,
    additions: Set<i64>,
    staged: TableStateView,
    rows: u64,
)
    requires
        staged.metadata_location is Some,
        staged.snapshots == base.snapshots.union(additions),
        rows > 0,
        rows == rows_affected(
            stores.written(staged.metadata_location.unwrap(), staged).rows,
            parameters_of(catalog_name, staged),
        ),
    ensures
        next_step(catalog_name, CommitStateView::Persisting(staged), CommitEventView::Written) == (
            CommitStateView::Publishing(staged),
            update_of(catalog_name, staged),
        ),
        next_step(
            catalog_name,
            CommitStateView::Publishing(staged),
            CommitEventView::Updated(rows),
        ) == (CommitStateView::Finished, CommitActionView::Succeed(staged)),
        ({
            let committed = stores.written(staged.metadata_location.unwrap(), staged).updated(
                parameters_of(catalog_name, staged),
            );
            &&& committed.may_load(catalog_name, staged.identifier, staged)
            &&& forall|loaded: TableStateView|
                committed.may_load(catalog_name, staged.identifier, loaded) ==> {
                    &&& loaded == staged
                    &&& loaded.metadata_location == staged.metadata_location
                    &&& loaded.snapshots == base.snapshots.union(additions)
                }
        }),
{
    let location = staged.metadata_location.unwrap();
    let parameters = parameters_of(catalog_name, staged);
    let written = stores.written(location, staged);
    let committed = written.updated(parameters);
    lemma_rows_affected_counts_guarded(written.rows, parameters);
    let i = choose|i: int| 0 <= i < written.rows.len() && guard_holds(#[trigger] written.rows[i], parameters);
    assert(committed.rows[i].stands_for(catalog_name, staged.identifier));
    assert(committed.rows[i].metadata_location == location);
    assert forall|loaded: TableStateView|
        committed.may_load(catalog_name, staged.identifier, loaded) implies loaded == staged by {
        let j = choose|j: int|
            0 <= j < committed.rows.len() && (#[trigger] committed.rows[j]).stands_for(
                catalog_name,
                staged.identifier,
            ) && committed.metadata.contains_key(committed.rows[j].metadata_location)
                && committed.metadata[committed.rows[j].metadata_location] == loaded;
        assert(guard_holds(written.rows[j], parameters));
    }
}

/// A commit that lost its row is a conflict and overwrites nothing: if the
/// catalog holds no live row for the table of `staged`, the update affects
/// none and leaves every row as it was, and the run that is told so fails
/// with the conflict.
pub proof fn lemma_lost_row_is_a_conflict(
    catalog_name: Seq<char>,
    rows: Seq<CatalogRow>,
    staged: TableStateView,
)
    requires
        staged.metadata_location is Some,
        forall|i: int|
            0 <= i < rows.len() ==> !(#[trigger] rows[i]).stands_for(catalog_name, staged.identifier),
    ensures
        rows_affected(rows, parameters_of(catalog_name, staged)) == 0,
        rows_after_update(rows, parameters_of(catalog_name, staged)) == rows,
        next_step(
            catalog_name,
            CommitStateView::Publishing(staged),
            CommitEventView::Updated(0),
        ) == (CommitStateView::Finished, CommitActionView::Fail(CommitErrorView::Conflict)),
{
    let parameters = parameters_of(catalog_name, staged);
    lemma_rows_affected_counts_guarded(rows, parameters);
    assert(rows_after_update(rows, parameters) =~= rows);
}

/// Two commits on a table whose row is gone: whichever update runs first,
/// neither affects a row, both runs fail with the conflict, and the catalog
/// is left as it was.
pub proof fn lemma_commits_on_a_lost_row_conflict(
    catalog_name: Seq<char>,
    rows: Seq<CatalogRow>,
    first: TableStateView,
    second: TableStateView,
)
    requires
        first.metadata_location is Some,
        second.metadata_location is Some,
        first.identifier == second.identifier,
        forall|i: int|
            0 <= i < rows.len() ==> !(#[trigger] rows[i]).stands_for(catalog_name, first.identifier),
    ensures
        rows_affected(rows, parameters_of(catalog_name, first)) == 0,
        rows_affected(
            rows_after_update(rows, parameters_of(catalog_name, first)),
            parameters_of(catalog_name, second),
        ) == 0,
        rows_after_update(
            rows_after_update(rows, parameters_of(catalog_name, first)),
            parameters_of(catalog_name, second),
        ) == rows,
        next_step(
            catalog_name,
            CommitStateView::Publishing(first),
            CommitEventView::Updated(0),
        ).1 == CommitActionView::Fail(CommitErrorView::Conflict),
        next_step(
            catalog_name,
            CommitStateView::Publishing(second),
            CommitEventView::Updated(0),
        ).1 == CommitActionView::Fail(CommitErrorView::Conflict),
{
    lemma_lost_row_is_a_conflict(catalog_name, rows, first);
    lemma_lost_row_is_a_conflict(catalog_name, rows, second);
}

/// The guard does not read the metadata location, so an update changes
/// nothing in what a later one affects: while the row of a table stays
/// live, every commit on the table finds it, and the latest to be published
/// is the one that the row points to.
pub proof fn lemma_update_keeps_the_guard(
    rows: Seq<CatalogRow>,
    earlier: Seq<Seq<char>>,
    later: Seq<Seq<char>>,
)
    ensures
        rows_affected(rows_after_update(rows, earlier), later) == rows_affected(rows, later),
    decreases rows.len(),
{
    if rows.len() > 0 {
        lemma_update_keeps_the_guard(rows.drop_last(), earlier, later);
        assert(rows_after_update(rows, earlier).drop_last() =~= rows_after_update(
            rows.drop_last(),
            earlier,
        ));
    }
}

} // verus!
