//! The commit-and-publish protocol, one step at a time.
//!
//! A commit loads the table, is applied to it, has the staged metadata written
//! to its new location and only then points the catalog's row to that
//! location. The four pieces of outside work are done by the caller; what is
//! decided between them is decided here. The caller starts with
//! [`SqlCatalog::start_table_update`], performs the action it is given, hands
//! back what came of it to [`SqlCatalog::apply_table_update`], and goes on
//! like that until the action is [`CommitAction::Succeed`] or
//! [`CommitAction::Fail`]. Nothing is tried a second time: a caller that is
//! told of a conflict decides for itself whether to start again.

use crate::catalog::update_parameter_values;
use crate::catalog::update_parameters;
use crate::catalog::update_statement;
use crate::catalog::update_statement_text;
use crate::table_format::admits_commit;
use crate::table_format::identifier_of;
use crate::table_format::kind_of;
use crate::table_format::read_error;
use crate::table_format::stage;
use crate::table_format::table_view;
use crate::table_format::text_of;
use crate::table_format::FailureKind;
use crate::table_format::StagingError;
use crate::table::TableIdentifier;
use crate::table::TableIdentifierView;
use crate::table::TableState;
use crate::table::TableStateView;
use vstd::prelude::*;
use vstd::string::StringExecFns;

verus! {

/// Why a commit did not take effect. The text is the collaborator's own
/// account of its failure.
#[derive(Debug, PartialEq, Eq)]
pub enum CommitError {
    /// The catalog has no live row for the identifier.
    NotFound(String),
    /// The commit does not apply to the metadata that was loaded.
    Validation(String),
    /// The staged metadata could not be written.
    StorageIO(String),
    /// The catalog could not run a statement.
    CatalogIO(String),
    /// The update found no row to change: the row was there when the table
    /// was loaded and was deleted, renamed or given another type since.
    Conflict,
}

/// A [`CommitError`] with its text as a sequence of characters.
pub enum CommitErrorView {
    NotFound(Seq<char>),
    Validation(Seq<char>),
    StorageIO(Seq<char>),
    CatalogIO(Seq<char>),
    Conflict,
}

impl View for CommitError {
    type V = CommitErrorView;

    open spec fn view(&self) -> CommitErrorView {
        match self {
            CommitError::NotFound(reason) => CommitErrorView::NotFound(reason@),
            CommitError::Validation(reason) => CommitErrorView::Validation(reason@),
            CommitError::StorageIO(reason) => CommitErrorView::StorageIO(reason@),
            CommitError::CatalogIO(reason) => CommitErrorView::CatalogIO(reason@),
            CommitError::Conflict => CommitErrorView::Conflict,
        }
    }
}

/// What came of the action that was asked for last.
#[derive(Debug, PartialEq, Eq)]
pub enum CommitEvent {
    /// The catalog returned the table.
    Loaded,
    /// The catalog has no live row for the identifier.
    LoadMissing(String),
    /// The catalog could not be asked.
    LoadFailed(String),
    /// The commit applied; this is the staged table.
    Applied(TableState),
    /// The commit's requirements do not hold of the loaded table, or its
    /// changes do not apply to it.
    ApplyRejected(String),
    /// The staged metadata is durable at its location.
    Written,
    /// The write failed.
    WriteFailed(String),
    /// The update statement ran and affected this many rows.
    Updated(u64),
    /// The update statement could not be run.
    UpdateFailed(String),
}

/// A [`CommitEvent`] as plain values.
pub enum CommitEventView {
    Loaded,
    LoadMissing(Seq<char>),
    LoadFailed(Seq<char>),
    Applied(TableStateView),
    ApplyRejected(Seq<char>),
    Written,
    WriteFailed(Seq<char>),
    Updated(u64),
    UpdateFailed(Seq<char>),
}

impl View for CommitEvent {
    type V = CommitEventView;

    open spec fn view(&self) -> CommitEventView {
        match self {
            CommitEvent::Loaded => CommitEventView::Loaded,
            CommitEvent::LoadMissing(reason) => CommitEventView::LoadMissing(reason@),
            CommitEvent::LoadFailed(reason) => CommitEventView::LoadFailed(reason@),
            CommitEvent::Applied(staged) => CommitEventView::Applied(staged@),
            CommitEvent::ApplyRejected(reason) => CommitEventView::ApplyRejected(reason@),
            CommitEvent::Written => CommitEventView::Written,
            CommitEvent::WriteFailed(reason) => CommitEventView::WriteFailed(reason@),
            CommitEvent::Updated(rows) => CommitEventView::Updated(*rows),
            CommitEvent::UpdateFailed(reason) => CommitEventView::UpdateFailed(reason@),
        }
    }
}

/// The actions that can fail.
#[derive(Debug, Clone, Copy, PartialEq, Eq)]
pub enum FailedAction {
    LoadTable,
    ApplyCommit,
    WriteMetadata,
    UpdateCatalog,
}

/// The event that tells of a failed action: a load that failed because the
/// table is not in the catalog is told apart from one that failed for any
/// other reason; for the other actions the kind of the failure is of no
/// account.
pub open spec fn failure_event(action: FailedAction, kind: FailureKind, text: Seq<char>) -> CommitEventView {
    match action {
        FailedAction::LoadTable => if kind.means_absent() {
            CommitEventView::LoadMissing(text)
        } else {
            CommitEventView::LoadFailed(text)
        },
        FailedAction::ApplyCommit => CommitEventView::ApplyRejected(text),
        FailedAction::WriteMetadata => CommitEventView::WriteFailed(text),
        FailedAction::UpdateCatalog => CommitEventView::UpdateFailed(text),
    }
}

impl CommitEvent {
    /// The event that tells of a failed action, from the kind and the text
    /// of the failure.
    pub fn failure(action: FailedAction, kind: FailureKind, text: String) -> (event: CommitEvent)
        ensures
            event@ == failure_event(action, kind, text@),
    {
        match action {
            FailedAction::LoadTable => if kind.is_absence() {
                CommitEvent::LoadMissing(text)
            } else {
                CommitEvent::LoadFailed(text)
            },
            FailedAction::ApplyCommit => CommitEvent::ApplyRejected(text),
            FailedAction::WriteMetadata => CommitEvent::WriteFailed(text),
            FailedAction::UpdateCatalog => CommitEvent::UpdateFailed(text),
        }
    }

    /// The event that tells of a failed action, from the error that the
    /// collaborator returned.
    pub fn from_error(action: FailedAction, error: &iceberg::Error) -> (event: CommitEvent)
        ensures
            event@ == failure_event(action, kind_of(*error), text_of(*error)),
    {
        let (kind, text) = read_error(error);
        CommitEvent::failure(action, kind, text)
    }
}

/// What the protocol is told of a table that admits no commit.
pub open spec fn not_admitted_text() -> Seq<char> {
    "The table admits no further commit: a version, an id or a time in its metadata is out of range"@
}

/// What applying a commit to `loaded` can come to, where no staged table
/// comes of it: the news that the table admits no commit, or that the table
/// format's library refused with some error.
pub open spec fn rejection_of(loaded: iceberg::table::Table, event: CommitEventView) -> bool {
    if admits_commit(loaded) {
        exists|error: iceberg::Error|
            event == failure_event(
                FailedAction::ApplyCommit,
                #[trigger] kind_of(error),
                text_of(error),
            )
    } else {
        event == CommitEventView::ApplyRejected(not_admitted_text())
    }
}

/// Applies the commit to the table that was loaded for it, and tells the
/// protocol what came of it. With the news that the commit applied comes
/// the staged table, whose metadata is to be written next. A table that
/// admits no commit is rejected before anything is applied.
pub fn apply_commit(commit: iceberg::TableCommit, loaded: iceberg::table::Table) -> (applied: (
    CommitEvent,
    Option<iceberg::table::Table>,
))
    ensures
        !admits_commit(loaded) ==> applied.1 is None,
        applied.1 matches Some(table) ==> {
            &&& applied.0@ == CommitEventView::Applied(table_view(table))
            &&& table_view(table).metadata_location is Some
            &&& identifier_of(table) == identifier_of(loaded)
        },
        applied.1 is None ==> rejection_of(loaded, applied.0@),
{
    match stage(commit, loaded) {
        Ok((table, state)) => (CommitEvent::Applied(state), Some(table)),
        Err(StagingError::NotAdmitted) => {
            let text = String::from_str(
                "The table admits no further commit: a version, an id or a time in its metadata is out of range",
            );
            (CommitEvent::ApplyRejected(text), None)
        },
        Err(StagingError::Refused(error)) => {
            let event = CommitEvent::from_error(FailedAction::ApplyCommit, &error);
            assert(event@ == failure_event(
                FailedAction::ApplyCommit,
                kind_of(error),
                text_of(error),
            ));
            (event, None)
        },
    }
}

/// How far a commit has come: which answer it waits for.
#[derive(Debug, PartialEq, Eq)]
pub enum CommitState {
    /// The table was asked of the catalog.
    Loading,
    /// The commit is being applied to the loaded table.
    Applying,
    /// The staged table's metadata is being written. A run comes here only
    /// with a staged table that has a metadata location.
    Persisting(TableState),
    /// The metadata is durable and the catalog's row is being updated.
    Publishing(TableState),
    /// The commit took effect or failed.
    Finished,
}

/// A [`CommitState`] as plain values.
pub enum CommitStateView {
    Loading,
    Applying,
    Persisting(TableStateView),
    Publishing(TableStateView),
    Finished,
}

impl View for CommitState {
    type V = CommitStateView;

    open spec fn view(&self) -> CommitStateView {
        match self {
            CommitState::Loading => CommitStateView::Loading,
            CommitState::Applying => CommitStateView::Applying,
            CommitState::Persisting(staged) => CommitStateView::Persisting(staged@),
            CommitState::Publishing(staged) => CommitStateView::Publishing(staged@),
            CommitState::Finished => CommitStateView::Finished,
        }
    }
}

/// What the caller has to do next.
#[derive(Debug, PartialEq, Eq)]
pub enum CommitAction {
    /// Load the table of this identifier from the catalog.
    LoadTable(TableIdentifier),
    /// Apply the commit to the table that was loaded.
    ApplyCommit,
    /// Write the staged table's metadata to this location, durably.
    WriteMetadata(String),
    /// Run this statement on the catalog with these parameters bound.
    UpdateCatalog { statement: String, parameters: Vec<String> },
    /// Return the staged table: it is the committed state now.
    Succeed(TableState),
    /// Return this error: the commit did not take effect.
    Fail(CommitError),
    /// Nothing: the event answered no action that was asked for.
    Idle,
}

/// A [`CommitAction`] as plain values.
pub enum CommitActionView {
    LoadTable(TableIdentifierView),
    ApplyCommit,
    WriteMetadata(Seq<char>),
    UpdateCatalog { statement: Seq<char>, parameters: Seq<Seq<char>> },
    Succeed(TableStateView),
    Fail(CommitErrorView),
    Idle,
}

impl View for CommitAction {
    type V = CommitActionView;

    open spec fn view(&self) -> CommitActionView {
        match self {
            CommitAction::LoadTable(identifier) => CommitActionView::LoadTable(identifier@),
            CommitAction::ApplyCommit => CommitActionView::ApplyCommit,
            CommitAction::WriteMetadata(location) => CommitActionView::WriteMetadata(location@),
            CommitAction::UpdateCatalog { statement, parameters } => CommitActionView::UpdateCatalog {
                statement: statement@,
                parameters: parameters.deep_view(),
            },
            CommitAction::Succeed(committed) => CommitActionView::Succeed(committed@),
            CommitAction::Fail(error) => CommitActionView::Fail(error@),
            CommitAction::Idle => CommitActionView::Idle,
        }
    }
}

/// What is said of a staged table that was given no metadata location.
pub open spec fn missing_location_text(identifier: TableIdentifierView) -> Seq<char> {
    "Metadata location does not exist for table: "@ + identifier.joined_namespace() + "."@
        + identifier.name
}

/// The end of a commit that failed.
pub open spec fn ends_with(error: CommitErrorView) -> (CommitStateView, CommitActionView) {
    (CommitStateView::Finished, CommitActionView::Fail(error))
}

/// The protocol: the state that follows `state` on `event` in the catalog
/// `catalog_name`, and the action to perform then.
///
/// An event that answers what the state waits for moves the commit on or
/// ends it; any other event leaves the state as it is, and nothing is to be
/// done.
pub open spec fn next_step(
    catalog_name: Seq<char>,
    state: CommitStateView,
    event: CommitEventView,
) -> (CommitStateView, CommitActionView) {
    match (state, event) {
        (CommitStateView::Loading, CommitEventView::Loaded) => (
            CommitStateView::Applying,
            CommitActionView::ApplyCommit,
        ),
        (CommitStateView::Loading, CommitEventView::LoadMissing(reason)) => ends_with(
            CommitErrorView::NotFound(reason),
        ),
        (CommitStateView::Loading, CommitEventView::LoadFailed(reason)) => ends_with(
            CommitErrorView::CatalogIO(reason),
        ),
        (CommitStateView::Applying, CommitEventView::Applied(staged)) => match staged.metadata_location {
            Some(location) => (
                CommitStateView::Persisting(staged),
                CommitActionView::WriteMetadata(location),
            ),
            None => ends_with(CommitErrorView::Validation(missing_location_text(staged.identifier))),
        },
        (CommitStateView::Applying, CommitEventView::ApplyRejected(reason)) => ends_with(
            CommitErrorView::Validation(reason),
        ),
        (CommitStateView::Persisting(staged), CommitEventView::Written) => match staged.metadata_location {
            Some(location) => (
                CommitStateView::Publishing(staged),
                CommitActionView::UpdateCatalog {
                    statement: update_statement_text(),
                    parameters: update_parameters(location, catalog_name, staged.identifier),
                },
            ),
            None => ends_with(CommitErrorView::Validation(missing_location_text(staged.identifier))),
        },
        (CommitStateView::Persisting(_), CommitEventView::WriteFailed(reason)) => ends_with(
            CommitErrorView::StorageIO(reason),
        ),
        (CommitStateView::Publishing(staged), CommitEventView::Updated(rows)) => if rows == 0 {
            ends_with(CommitErrorView::Conflict)
        } else {
            (CommitStateView::Finished, CommitActionView::Succeed(staged))
        },
        (CommitStateView::Publishing(_), CommitEventView::UpdateFailed(reason)) => ends_with(
            CommitErrorView::CatalogIO(reason),
        ),
        _ => (state, CommitActionView::Idle),
    }
}

/// A catalog of tables in a relational store, as far as a commit needs it:
/// the name under which its rows are filed.
#[derive(Debug, PartialEq, Eq)]
pub struct SqlCatalog {
    pub name: String,
}

impl SqlCatalog {
    /// The catalog of the given name.
    pub fn new(name: String) -> (catalog: Self)
        ensures
            catalog.name == name,
    {
        SqlCatalog { name }
    }

    /// Begins a commit on the table `identifier`: the table is to be loaded.
    pub fn start_table_update(&self, identifier: &TableIdentifier) -> (step: (
        CommitState,
        CommitAction,
    ))
        ensures
            step.0@ == CommitStateView::Loading,
            step.1@ == CommitActionView::LoadTable(identifier@),
    {
        (CommitState::Loading, CommitAction::LoadTable(identifier.clone()))
    }

    /// Takes a commit one step on: from the state it is in and what came of
    /// the last action to the state that follows and the action to perform
    /// next, as [`next_step`] says.
    pub fn apply_table_update(&self, state: CommitState, event: CommitEvent) -> (step: (
        CommitState,
        CommitAction,
    ))
        ensures
            (step.0@, step.1@) == next_step(self.name@, state@, event@),
    {
        match state {
            CommitState::Loading => match event {
                CommitEvent::Loaded => (CommitState::Applying, CommitAction::ApplyCommit),
                CommitEvent::LoadMissing(reason) => fail(CommitError::NotFound(reason)),
                CommitEvent::LoadFailed(reason) => fail(CommitError::CatalogIO(reason)),
                _ => (CommitState::Loading, CommitAction::Idle),
            },
            CommitState::Applying => match event {
                CommitEvent::Applied(staged) => match &staged.metadata_location {
                    Some(location) => {
                        let action = CommitAction::WriteMetadata(location.clone());
                        (CommitState::Persisting(staged), action)
                    },
                    None => fail(CommitError::Validation(missing_location(&staged.identifier))),
                },
                CommitEvent::ApplyRejected(reason) => fail(CommitError::Validation(reason)),
                _ => (CommitState::Applying, CommitAction::Idle),
            },
            CommitState::Persisting(staged) => match event {
                CommitEvent::Written => match &staged.metadata_location {
                    Some(location) => {
                        let action = CommitAction::UpdateCatalog {
                            statement: update_statement(),
                            parameters: update_parameter_values(
                                location,
                                &self.name,
                                &staged.identifier,
                            ),
                        };
                        (CommitState::Publishing(staged), action)
                    },
                    None => fail(CommitError::Validation(missing_location(&staged.identifier))),
                },
                CommitEvent::WriteFailed(reason) => fail(CommitError::StorageIO(reason)),
                _ => (CommitState::Persisting(staged), CommitAction::Idle),
            },
            CommitState::Publishing(staged) => match event {
                CommitEvent::Updated(rows) => if rows == 0 {
                    fail(CommitError::Conflict)
                } else {
                    (CommitState::Finished, CommitAction::Succeed(staged))
                },
                CommitEvent::UpdateFailed(reason) => fail(CommitError::CatalogIO(reason)),
                _ => (CommitState::Publishing(staged), CommitAction::Idle),
            },
            CommitState::Finished => (CommitState::Finished, CommitAction::Idle),
        }
    }
}

/// The end of a commit that failed with `error`.
fn fail(error: CommitError) -> (step: (CommitState, CommitAction))
    ensures
        (step.0@, step.1@) == ends_with(error@),
{
    (CommitState::Finished, CommitAction::Fail(error))
}

/// What is said of a staged table that was given no metadata location.
fn missing_location(identifier: &TableIdentifier) -> (text: String)
    ensures
        text@ == missing_location_text(identifier@),
{
    let mut text = String::from_str("Metadata location does not exist for table: ");
    let namespace = identifier.joined_namespace();
    text.append(namespace.as_str());
    text.append(".");
    text.append(identifier.name.as_str());
    text
}

} // verus!
