//! Values of the table format's library, read into the plain values that the
//! decisions work on.
//!
//! A table, its metadata, its identifier, a commit and an error of that
//! library are opaque here: they are carried, and read through the
//! library's own accessors. What an accessor returns is made of fields that
//! are set when the value is built and do not change afterwards, so it is a
//! function of the value alone and has a name here. The names say nothing of
//! what a given value holds; they say that what is read of a value is what
//! that value holds, whenever and wherever it is read. What applying a
//! commit returns has no name: it holds a random id and the time.

use crate::location::carries_last_version;
use crate::location::has_last_version;
use crate::table::TableIdentifier;
use crate::table::TableIdentifierView;
use crate::table::TableState;
use crate::table::TableStateView;
use vstd::prelude::*;

verus! {

#[verifier::external_type_specification]
#[verifier::external_body]
pub struct ExTable(iceberg::table::Table);

#[verifier::external_type_specification]
#[verifier::external_body]
pub struct ExTableMetadata(iceberg::spec::TableMetadata);

#[verifier::external_type_specification]
#[verifier::external_body]
pub struct ExTableIdent(iceberg::TableIdent);

#[verifier::external_type_specification]
#[verifier::external_body]
pub struct ExTableCommit(iceberg::TableCommit);

#[verifier::external_type_specification]
#[verifier::external_body]
pub struct ExError(iceberg::Error);

/// The kinds of failure that the table format's library tells apart.
#[derive(Debug, Clone, Copy, PartialEq, Eq)]
pub enum FailureKind {
    PreconditionFailed,
    Unexpected,
    DataInvalid,
    NamespaceAlreadyExists,
    TableAlreadyExists,
    NamespaceNotFound,
    TableNotFound,
    FeatureUnsupported,
    CatalogCommitConflicts,
    /// A kind that the library has come to know since.
    Other,
}

impl FailureKind {
    /// Whether the failure says that what was asked for is not in the
    /// catalog.
    pub open spec fn means_absent(self) -> bool {
        self is TableNotFound || self is NamespaceNotFound
    }

    /// Whether the failure says that what was asked for is not in the
    /// catalog.
    pub fn is_absence(self) -> (absent: bool)
        ensures
            absent == self.means_absent(),
    {
        match self {
            FailureKind::TableNotFound => true,
            FailureKind::NamespaceNotFound => true,
            _ => false,
        }
    }
}

/// The kind that an error was made with.
pub uninterp spec fn kind_of(error: iceberg::Error) -> FailureKind;

/// The text that an error is displayed as.
pub uninterp spec fn text_of(error: iceberg::Error) -> Seq<char>;

/// The segments of the namespace of an identifier, in their order.
pub uninterp spec fn namespace_of(identifier: iceberg::TableIdent) -> Seq<Seq<char>>;

/// The table name of an identifier.
pub uninterp spec fn name_of(identifier: iceberg::TableIdent) -> Seq<char>;

/// The identifier that a table was built with.
pub uninterp spec fn identifier_of(table: iceberg::table::Table) -> iceberg::TableIdent;

/// The place of a table's metadata, if the table was given one.
pub uninterp spec fn metadata_location_of(table: iceberg::table::Table) -> Option<Seq<char>>;

/// The metadata that a table holds.
pub uninterp spec fn metadata_of(table: iceberg::table::Table) -> iceberg::spec::TableMetadata;

/// The ids of the snapshots that metadata holds.
pub uninterp spec fn snapshots_of(metadata: iceberg::spec::TableMetadata) -> Set<i64>;

/// The id of the current snapshot of metadata, if it has one.
pub uninterp spec fn current_snapshot_of(metadata: iceberg::spec::TableMetadata) -> Option<i64>;

/// The identifier of the table that a commit is bound to.
pub uninterp spec fn target_of(commit: iceberg::TableCommit) -> iceberg::TableIdent;

/// The time at which metadata was last updated, in milliseconds.
pub uninterp spec fn last_updated_of(metadata: iceberg::spec::TableMetadata) -> i64;

/// The times of the entries of the snapshot log of metadata, in the log's
/// order.
pub uninterp spec fn logged_times_of(metadata: iceberg::spec::TableMetadata) -> Seq<i64>;

/// The times of the entries of the metadata log of metadata, in the log's
/// order.
pub uninterp spec fn metadata_log_times_of(metadata: iceberg::spec::TableMetadata) -> Seq<i64>;

/// The id of the current schema of metadata.
pub uninterp spec fn current_schema_of(metadata: iceberg::spec::TableMetadata) -> i32;

/// The ids of the schemas that metadata holds.
pub uninterp spec fn schema_ids_of(metadata: iceberg::spec::TableMetadata) -> Set<i32>;

/// The ids of the partition specs that metadata holds.
pub uninterp spec fn spec_ids_of(metadata: iceberg::spec::TableMetadata) -> Set<i32>;

/// The ids of the sort orders that metadata holds.
pub uninterp spec fn sort_order_ids_of(metadata: iceberg::spec::TableMetadata) -> Set<i64>;

/// An identifier of the table format's library as plain values.
pub open spec fn identifier_view(identifier: iceberg::TableIdent) -> TableIdentifierView {
    TableIdentifierView { namespace: namespace_of(identifier), name: name_of(identifier) }
}

/// What the coordination reads of a table of the table format's library.
pub open spec fn table_view(table: iceberg::table::Table) -> TableStateView {
    TableStateView {
        identifier: identifier_view(identifier_of(table)),
        metadata_location: metadata_location_of(table),
        snapshots: snapshots_of(metadata_of(table)),
        current_snapshot_id: current_snapshot_of(metadata_of(table)),
    }
}

/// How far from zero a time in a table's metadata may lie: applying a
/// commit takes the difference between two such times, and between such a
/// time and the time at which the commit was made.
pub const TIME_BOUND: i64 = 2305843009213693952;

/// Whether a time lies within [`TIME_BOUND`] of zero.
pub open spec fn within_time_bound(time: i64) -> bool {
    -TIME_BOUND <= time <= TIME_BOUND
}

/// Whether a commit can be applied to a table: whether the numbers that
/// applying a commit counts on from have a next one. These are the version
/// in the metadata location and the ids of the schemas, partition specs and
/// sort orders; and the times in the metadata must lie near enough to zero
/// for a difference to be taken.
pub open spec fn admits_commit(table: iceberg::table::Table) -> bool {
    let metadata = metadata_of(table);
    &&& metadata_location_of(table) matches Some(location) ==> !carries_last_version(location)
    &&& within_time_bound(last_updated_of(metadata))
    &&& forall|i: int|
        0 <= i < logged_times_of(metadata).len() ==> within_time_bound(
            #[trigger] logged_times_of(metadata)[i],
        )
    &&& forall|i: int|
        0 <= i < metadata_log_times_of(metadata).len() ==> within_time_bound(
            #[trigger] metadata_log_times_of(metadata)[i],
        )
    &&& current_schema_of(metadata) < i32::MAX
    &&& forall|id: i32| #[trigger] schema_ids_of(metadata).contains(id) ==> id < i32::MAX
    &&& forall|id: i32| #[trigger] spec_ids_of(metadata).contains(id) ==> id < i32::MAX
    &&& forall|id: i64| #[trigger] sort_order_ids_of(metadata).contains(id) ==> id < i64::MAX
}

/// `iceberg::Error::kind`, which returns the kind that the error was made
/// with. The kinds are told apart one by one; the enum is open to new ones.
#[verifier::external_body]
fn error_kind(error: &iceberg::Error) -> (kind: FailureKind)
    ensures
        kind == kind_of(*error),
{
    match error.kind() {
        iceberg::ErrorKind::PreconditionFailed => FailureKind::PreconditionFailed,
        iceberg::ErrorKind::Unexpected => FailureKind::Unexpected,
        iceberg::ErrorKind::DataInvalid => FailureKind::DataInvalid,
        iceberg::ErrorKind::NamespaceAlreadyExists => FailureKind::NamespaceAlreadyExists,
        iceberg::ErrorKind::TableAlreadyExists => FailureKind::TableAlreadyExists,
        iceberg::ErrorKind::NamespaceNotFound => FailureKind::NamespaceNotFound,
        iceberg::ErrorKind::TableNotFound => FailureKind::TableNotFound,
        iceberg::ErrorKind::FeatureUnsupported => FailureKind::FeatureUnsupported,
        iceberg::ErrorKind::CatalogCommitConflicts => FailureKind::CatalogCommitConflicts,
        _ => FailureKind::Other,
    }
}

/// The `Display` form of an `iceberg::Error`: its kind, context, message and
/// source on one line.
#[verifier::external_body]
fn error_text(error: &iceberg::Error) -> (text: String)
    ensures
        text@ == text_of(*error),
{
    error.to_string()
}

/// `Table::identifier`, which returns the identifier that the table was
/// built with.
#[verifier::external_body]
fn table_identifier(table: &iceberg::table::Table) -> (identifier: &iceberg::TableIdent)
    ensures
        *identifier == identifier_of(*table),
{
    table.identifier()
}

/// `TableIdent::name`, copied into a string of its own.
#[verifier::external_body]
fn identifier_name(identifier: &iceberg::TableIdent) -> (name: String)
    ensures
        name@ == name_of(*identifier),
{
    identifier.name().to_string()
}

/// `TableIdent::namespace`: the segments of the namespace, in their order.
#[verifier::external_body]
fn identifier_namespace(identifier: &iceberg::TableIdent) -> (namespace: Vec<String>)
    ensures
        namespace.deep_view() == namespace_of(*identifier),
{
    identifier.namespace().to_vec()
}

/// `Table::metadata_location`, copied into a string of its own.
#[verifier::external_body]
fn table_metadata_location(table: &iceberg::table::Table) -> (location: Option<String>)
    ensures
        match location {
            Some(text) => metadata_location_of(*table) == Some(text@),
            None => metadata_location_of(*table) is None,
        },
{
    table.metadata_location().map(|location| location.to_string())
}

/// `Table::metadata`, which returns the metadata that the table holds.
#[verifier::external_body]
fn table_metadata(table: &iceberg::table::Table) -> (metadata: &iceberg::spec::TableMetadata)
    ensures
        *metadata == metadata_of(*table),
{
    table.metadata()
}

/// `TableMetadata::snapshots`, each snapshot by its id. The metadata keeps
/// them in a hash map, so they come in no order: the ids that come are
/// those that the metadata holds, and no more is said.
#[verifier::external_body]
fn metadata_snapshot_ids(metadata: &iceberg::spec::TableMetadata) -> (snapshot_ids: Vec<i64>)
    ensures
        snapshot_ids@.to_set() == snapshots_of(*metadata),
{
    metadata.snapshots().map(|snapshot| snapshot.snapshot_id()).collect()
}

/// `TableMetadata::current_snapshot_id`.
#[verifier::external_body]
fn metadata_current_snapshot_id(metadata: &iceberg::spec::TableMetadata) -> (snapshot_id: Option<
    i64,
>)
    ensures
        snapshot_id == current_snapshot_of(*metadata),
{
    metadata.current_snapshot_id()
}

/// `TableCommit::identifier`, which returns the identifier of the table
/// that the commit is bound to.
#[verifier::external_body]
fn commit_identifier(commit: &iceberg::TableCommit) -> (identifier: &iceberg::TableIdent)
    ensures
        *identifier == target_of(*commit),
{
    commit.identifier()
}

/// `TableMetadata::last_updated_ms`.
#[verifier::external_body]
fn metadata_last_updated(metadata: &iceberg::spec::TableMetadata) -> (time: i64)
    ensures
        time == last_updated_of(*metadata),
{
    metadata.last_updated_ms()
}

/// `TableMetadata::history`, each entry of the snapshot log by its time.
#[verifier::external_body]
fn metadata_logged_times(metadata: &iceberg::spec::TableMetadata) -> (times: Vec<i64>)
    ensures
        times@ == logged_times_of(*metadata),
{
    metadata.history().iter().map(|entry| entry.timestamp_ms).collect()
}

/// `TableMetadata::metadata_log`, each entry by its time.
#[verifier::external_body]
fn metadata_log_times(metadata: &iceberg::spec::TableMetadata) -> (times: Vec<i64>)
    ensures
        times@ == metadata_log_times_of(*metadata),
{
    metadata.metadata_log().iter().map(|entry| entry.timestamp_ms).collect()
}

/// `TableMetadata::current_schema_id`.
#[verifier::external_body]
fn metadata_current_schema(metadata: &iceberg::spec::TableMetadata) -> (schema_id: i32)
    ensures
        schema_id == current_schema_of(*metadata),
{
    metadata.current_schema_id()
}

/// `TableMetadata::schemas_iter`, each schema by its id, under which the
/// metadata keeps it. They come in no order.
#[verifier::external_body]
fn metadata_schema_ids(metadata: &iceberg::spec::TableMetadata) -> (schema_ids: Vec<i32>)
    ensures
        schema_ids@.to_set() == schema_ids_of(*metadata),
{
    metadata.schemas_iter().map(|schema| schema.schema_id()).collect()
}

/// `TableMetadata::partition_specs_iter`, each partition spec by its id,
/// under which the metadata keeps it. They come in no order.
#[verifier::external_body]
fn metadata_spec_ids(metadata: &iceberg::spec::TableMetadata) -> (spec_ids: Vec<i32>)
    ensures
        spec_ids@.to_set() == spec_ids_of(*metadata),
{
    metadata.partition_specs_iter().map(|spec| spec.spec_id()).collect()
}

/// `TableMetadata::sort_orders_iter`, each sort order by its id, under which
/// the metadata keeps it. They come in no order.
#[verifier::external_body]
fn metadata_sort_order_ids(metadata: &iceberg::spec::TableMetadata) -> (order_ids: Vec<i64>)
    ensures
        order_ids@.to_set() == sort_order_ids_of(*metadata),
{
    metadata.sort_orders_iter().map(|order| order.order_id).collect()
}

/// `TableCommit::apply`, which checks the commit's requirements against the
/// table's metadata, applies its updates and returns the table with the new
/// metadata at a new location, or the error of whatever failed on the way.
///
/// On its way it counts on from numbers of the table without a check: the
/// version in the metadata location, and the greatest id of a schema, a
/// partition spec and a sort order; and it takes the difference between the
/// time of a snapshot of the commit, which is the time at which the commit
/// was made, and the times in the metadata. A table on which one of these
/// would overflow is left out. The staged table keeps the identifier and
/// always has a location. That location holds a random id and the new
/// metadata the time of the call, so nothing more is claimed of the result.
#[verifier::external_body]
fn apply_to(commit: iceberg::TableCommit, table: iceberg::table::Table) -> (applied: Result<
    iceberg::table::Table,
    iceberg::Error,
>)
    requires
        admits_commit(table),
    ensures
        applied matches Ok(staged) ==> metadata_location_of(staged) is Some && identifier_of(staged)
            == identifier_of(table),
{
    commit.apply(table)
}

/// Whether every id is less than the greatest that there is.
fn have_next_i32(ids: &Vec<i32>) -> (all: bool)
    ensures
        all == forall|id: i32| #[trigger] ids@.to_set().contains(id) ==> id < i32::MAX,
{
    let mut i: usize = 0;
    while i < ids.len()
        invariant
            i <= ids.len(),
            forall|j: int| 0 <= j < i ==> ids[j] < i32::MAX,
        decreases ids.len() - i,
    {
        if ids[i] == i32::MAX {
            proof {
                assert(ids@.contains(ids[i as int]));
                assert(ids@.to_set().contains(ids[i as int]));
            }
            return false;
        }
        i += 1;
    }
    true
}

/// Whether every id is less than the greatest that there is.
fn have_next_i64(ids: &Vec<i64>) -> (all: bool)
    ensures
        all == forall|id: i64| #[trigger] ids@.to_set().contains(id) ==> id < i64::MAX,
{
    let mut i: usize = 0;
    while i < ids.len()
        invariant
            i <= ids.len(),
            forall|j: int| 0 <= j < i ==> ids[j] < i64::MAX,
        decreases ids.len() - i,
    {
        if ids[i] == i64::MAX {
            proof {
                assert(ids@.contains(ids[i as int]));
                assert(ids@.to_set().contains(ids[i as int]));
            }
            return false;
        }
        i += 1;
    }
    true
}

/// Whether a time lies within [`TIME_BOUND`] of zero.
fn is_within_time_bound(time: i64) -> (within: bool)
    ensures
        within == within_time_bound(time),
{
    -TIME_BOUND <= time && time <= TIME_BOUND
}

/// Whether every time lies within [`TIME_BOUND`] of zero.
fn are_within_time_bound(times: &Vec<i64>) -> (all: bool)
    ensures
        all == forall|i: int| 0 <= i < times@.len() ==> within_time_bound(#[trigger] times@[i]),
{
    let mut i: usize = 0;
    while i < times.len()
        invariant
            i <= times.len(),
            forall|j: int| 0 <= j < i ==> within_time_bound(#[trigger] times@[j]),
        decreases times.len() - i,
    {
        if !is_within_time_bound(times[i]) {
            return false;
        }
        i += 1;
    }
    true
}

/// Whether a commit can be applied to the table.
pub fn admits(table: &iceberg::table::Table) -> (admitted: bool)
    ensures
        admitted == admits_commit(*table),
{
    let has_next_version = match table_metadata_location(table) {
        Some(location) => !has_last_version(location.as_str()),
        None => true,
    };
    let metadata = table_metadata(table);
    has_next_version && is_within_time_bound(metadata_last_updated(metadata))
        && are_within_time_bound(&metadata_logged_times(metadata)) && are_within_time_bound(
        &metadata_log_times(metadata),
    ) && metadata_current_schema(metadata) < i32::MAX && have_next_i32(&metadata_schema_ids(metadata)) && have_next_i32(
        &metadata_spec_ids(metadata),
    ) && have_next_i64(&metadata_sort_order_ids(metadata))
}

/// The kind and the text of an error.
pub fn read_error(error: &iceberg::Error) -> (read: (FailureKind, String))
    ensures
        read.0 == kind_of(*error),
        read.1@ == text_of(*error),
{
    (error_kind(error), error_text(error))
}

/// The identifier as plain values: its segments in their order, and its
/// table name.
pub fn read_identifier(identifier: &iceberg::TableIdent) -> (read: TableIdentifier)
    ensures
        read@ == identifier_view(*identifier),
{
    TableIdentifier::new(identifier_namespace(identifier), identifier_name(identifier))
}

/// The identifier of the table that the commit is bound to, as plain values.
pub fn read_commit_identifier(commit: &iceberg::TableCommit) -> (read: TableIdentifier)
    ensures
        read@ == identifier_view(target_of(*commit)),
{
    read_identifier(commit_identifier(commit))
}

/// Why a commit was not staged.
#[derive(Debug)]
pub enum StagingError {
    /// The table does not admit a commit. The table format's library was
    /// not called.
    NotAdmitted,
    /// The table format's library refused the commit: its requirements do
    /// not hold of the table, or its changes do not apply to it.
    Refused(iceberg::Error),
}

/// Applies the commit to the table that was loaded for it. Returns the
/// staged table, and for the protocol what it reads of it. A table that
/// admits no commit is told apart before anything is applied. Whether the
/// commit applies to a table that admits one, and what the staged table
/// holds beyond its identifier, the table format's library decides.
pub fn stage(commit: iceberg::TableCommit, loaded: iceberg::table::Table) -> (staged: Result<
    (iceberg::table::Table, TableState),
    StagingError,
>)
    ensures
        staged matches Err(StagingError::NotAdmitted) <==> !admits_commit(loaded),
        staged matches Ok((table, state)) ==> {
            &&& state@ == table_view(table)
            &&& state@.metadata_location is Some
            &&& identifier_of(table) == identifier_of(loaded)
        },
{
    if !admits(&loaded) {
        return Err(StagingError::NotAdmitted);
    }
    match apply_to(commit, loaded) {
        Ok(table) => {
            let state = read_table(&table);
            Ok((table, state))
        },
        Err(error) => Err(StagingError::Refused(error)),
    }
}

/// What the coordination reads of the table, as plain values: its
/// identifier, the place of its metadata, and the snapshots and the current
/// snapshot of the metadata.
pub fn read_table(table: &iceberg::table::Table) -> (read: TableState)
    ensures
        read@ == table_view(*table),
{
    TableState {
        identifier: read_identifier(table_identifier(table)),
        metadata_location: table_metadata_location(table),
        snapshot_ids: metadata_snapshot_ids(table_metadata(table)),
        current_snapshot_id: metadata_current_snapshot_id(table_metadata(table)),
    }
}

} // verus!
