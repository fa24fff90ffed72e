use std::collections::HashMap;
use std::future::Future;
use std::pin::Pin;
use std::sync::Mutex;
use std::task::Context;
use std::task::Poll;
use std::task::Waker;

use iceberg::io::FileIO;
use iceberg::spec::TableMetadata;
use iceberg::table::Table;
use iceberg::test_utils::test_runtime;
use iceberg::transaction::ApplyTransactionAction;
use iceberg::transaction::Transaction;
use iceberg::Catalog;
use iceberg::Error;
use iceberg::ErrorKind;
use iceberg::Namespace;
use iceberg::NamespaceIdent;
use iceberg::TableCommit;
use iceberg::TableCreation;
use iceberg::TableIdent;
use table_coordination::commit::apply_commit;
use table_coordination::commit::CommitAction;
use table_coordination::commit::CommitError;
use table_coordination::commit::CommitEvent;
use table_coordination::commit::CommitState;
use table_coordination::commit::SqlCatalog;
use table_coordination::table_format::admits;
use table_coordination::table_format::read_commit_identifier;
use table_coordination::table_format::read_table;
use table_coordination::table_format::stage;
use table_coordination::table_format::StagingError;
use table_coordination::table::TableIdentifier;
use table_coordination::table::TableState;

const BASE_LOCATION: &str =
    "memory://warehouse/db/events/metadata/00001-6f0c5a1e-8d2b-4c3a-9e7f-1a2b3c4d5e6f.metadata.json";

const BASE_METADATA: &str = r#"{
  "format-version": 2,
  "table-uuid": "b7a7c1e0-52a4-4c0e-9d0b-3f2a6f1c9e55",
  "location": "memory://warehouse/db/events",
  "last-sequence-number": 1,
  "last-updated-ms": 1700000001000,
  "last-column-id": 1,
  "current-schema-id": 0,
  "schemas": [
    {
      "type": "struct",
      "schema-id": 0,
      "fields": [{"id": 1, "name": "id", "required": true, "type": "long"}]
    }
  ],
  "default-spec-id": 0,
  "partition-specs": [{"spec-id": 0, "fields": []}],
  "last-partition-id": 999,
  "default-sort-order-id": 0,
  "sort-orders": [{"order-id": 0, "fields": []}],
  "properties": {"owner": "ingest"},
  "current-snapshot-id": 41,
  "snapshots": [
    {
      "snapshot-id": 41,
      "timestamp-ms": 1700000001000,
      "sequence-number": 1,
      "summary": {"operation": "append"},
      "manifest-list": "memory://warehouse/db/events/metadata/snap-41.avro",
      "schema-id": 0
    }
  ],
  "snapshot-log": [{"snapshot-id": 41, "timestamp-ms": 1700000001000}],
  "metadata-log": []
}"#;

type Answer<'a, T> = Pin<Box<dyn Future<Output = iceberg::Result<T>> + Send + 'a>>;

fn unsupported<'a, T: 'a>() -> Answer<'a, T> {
    Box::pin(async { Err(Error::new(ErrorKind::FeatureUnsupported, "not part of this catalog")) })
}

/// A catalog of one table that keeps every commit it is handed, for the
/// test to apply.
#[derive(Debug)]
struct Recorder {
    table: Table,
    commits: Mutex<Vec<TableCommit>>,
}

impl Catalog for Recorder {
    fn list_namespaces<'life0, 'life1, 'async_trait>(
        &'life0 self,
        _parent: Option<&'life1 NamespaceIdent>,
    ) -> Answer<'async_trait, Vec<NamespaceIdent>>
    where
        'life0: 'async_trait,
        'life1: 'async_trait,
        Self: 'async_trait,
    {
        unsupported()
    }

    fn create_namespace<'life0, 'life1, 'async_trait>(
        &'life0 self,
        _namespace: &'life1 NamespaceIdent,
        _properties: HashMap<String, String>,
    ) -> Answer<'async_trait, Namespace>
    where
        'life0: 'async_trait,
        'life1: 'async_trait,
        Self: 'async_trait,
    {
        unsupported()
    }

    fn get_namespace<'life0, 'life1, 'async_trait>(
        &'life0 self,
        _namespace: &'life1 NamespaceIdent,
    ) -> Answer<'async_trait, Namespace>
    where
        'life0: 'async_trait,
        'life1: 'async_trait,
        Self: 'async_trait,
    {
        unsupported()
    }

    fn namespace_exists<'life0, 'life1, 'async_trait>(
        &'life0 self,
        _namespace: &'life1 NamespaceIdent,
    ) -> Answer<'async_trait, bool>
    where
        'life0: 'async_trait,
        'life1: 'async_trait,
        Self: 'async_trait,
    {
        unsupported()
    }

    fn update_namespace<'life0, 'life1, 'async_trait>(
        &'life0 self,
        _namespace: &'life1 NamespaceIdent,
        _properties: HashMap<String, String>,
    ) -> Answer<'async_trait, ()>
    where
        'life0: 'async_trait,
        'life1: 'async_trait,
        Self: 'async_trait,
    {
        unsupported()
    }

    fn drop_namespace<'life0, 'life1, 'async_trait>(
        &'life0 self,
        _namespace: &'life1 NamespaceIdent,
    ) -> Answer<'async_trait, ()>
    where
        'life0: 'async_trait,
        'life1: 'async_trait,
        Self: 'async_trait,
    {
        unsupported()
    }

    fn list_tables<'life0, 'life1, 'async_trait>(
        &'life0 self,
        _namespace: &'life1 NamespaceIdent,
    ) -> Answer<'async_trait, Vec<TableIdent>>
    where
        'life0: 'async_trait,
        'life1: 'async_trait,
        Self: 'async_trait,
    {
        unsupported()
    }

    fn create_table<'life0, 'life1, 'async_trait>(
        &'life0 self,
        _namespace: &'life1 NamespaceIdent,
        _creation: TableCreation,
    ) -> Answer<'async_trait, Table>
    where
        'life0: 'async_trait,
        'life1: 'async_trait,
        Self: 'async_trait,
    {
        unsupported()
    }

    fn load_table<'life0, 'life1, 'async_trait>(
        &'life0 self,
        _table: &'life1 TableIdent,
    ) -> Answer<'async_trait, Table>
    where
        'life0: 'async_trait,
        'life1: 'async_trait,
        Self: 'async_trait,
    {
        let table = self.table.clone();
        Box::pin(async move { Ok(table) })
    }

    fn drop_table<'life0, 'life1, 'async_trait>(
        &'life0 self,
        _table: &'life1 TableIdent,
    ) -> Answer<'async_trait, ()>
    where
        'life0: 'async_trait,
        'life1: 'async_trait,
        Self: 'async_trait,
    {
        unsupported()
    }

    fn purge_table<'life0, 'life1, 'async_trait>(
        &'life0 self,
        _table: &'life1 TableIdent,
    ) -> Answer<'async_trait, ()>
    where
        'life0: 'async_trait,
        'life1: 'async_trait,
        Self: 'async_trait,
    {
        unsupported()
    }

    fn table_exists<'life0, 'life1, 'async_trait>(
        &'life0 self,
        _table: &'life1 TableIdent,
    ) -> Answer<'async_trait, bool>
    where
        'life0: 'async_trait,
        'life1: 'async_trait,
        Self: 'async_trait,
    {
        unsupported()
    }

    fn rename_table<'life0, 'life1, 'life2, 'async_trait>(
        &'life0 self,
        _src: &'life1 TableIdent,
        _dest: &'life2 TableIdent,
    ) -> Answer<'async_trait, ()>
    where
        'life0: 'async_trait,
        'life1: 'async_trait,
        'life2: 'async_trait,
        Self: 'async_trait,
    {
        unsupported()
    }

    fn register_table<'life0, 'life1, 'async_trait>(
        &'life0 self,
        _table: &'life1 TableIdent,
        _metadata_location: String,
    ) -> Answer<'async_trait, Table>
    where
        'life0: 'async_trait,
        'life1: 'async_trait,
        Self: 'async_trait,
    {
        unsupported()
    }

    fn update_table<'life0, 'async_trait>(&'life0 self, commit: TableCommit) -> Answer<'async_trait, Table>
    where
        'life0: 'async_trait,
        Self: 'async_trait,
    {
        self.commits.lock().unwrap().push(commit);
        let table = self.table.clone();
        Box::pin(async move { Ok(table) })
    }
}

/// Drives a future that never waits for anything outside itself.
fn finish<F: Future>(future: F) -> F::Output {
    let mut future = Box::pin(future);
    let mut context = Context::from_waker(Waker::noop());
    loop {
        if let Poll::Ready(output) = future.as_mut().poll(&mut context) {
            return output;
        }
    }
}

fn base_table(location: Option<&str>) -> Table {
    let metadata: TableMetadata = serde_json::from_str(BASE_METADATA).unwrap();
    let builder = Table::builder()
        .metadata(metadata)
        .identifier(TableIdent::from_strs(["db", "events"]).unwrap())
        .file_io(FileIO::new_with_memory())
        .runtime(test_runtime());
    let builder = match location {
        Some(location) => builder.metadata_location(location),
        None => builder,
    };
    builder.build().unwrap()
}

/// A commit on `db.events` that sets the property `retention` to `30d`.
fn retention_commit() -> TableCommit {
    let table = base_table(Some(BASE_LOCATION));
    let recorder = Recorder { table: table.clone(), commits: Mutex::new(vec![]) };
    let transaction = Transaction::new(&table);
    let transaction = transaction
        .update_table_properties()
        .set("retention".to_string(), "30d".to_string())
        .apply(transaction)
        .unwrap();
    finish(transaction.commit(&recorder)).unwrap();
    let commit = recorder.commits.lock().unwrap().pop();
    commit.unwrap()
}

fn events_table() -> TableIdentifier {
    TableIdentifier::new(vec!["db".to_string()], "events".to_string())
}

#[test]
fn commit_is_bound_to_its_table() {
    assert_eq!(read_commit_identifier(&retention_commit()), events_table());
}

#[test]
fn staging_applies_the_changes_of_the_commit() {
    let (table, state) = stage(retention_commit(), base_table(Some(BASE_LOCATION))).unwrap();
    assert_eq!(table.metadata().properties().get("retention"), Some(&"30d".to_string()));
    assert_eq!(table.metadata().properties().get("owner"), Some(&"ingest".to_string()));
    assert_eq!(state, read_table(&table));
}

#[test]
fn staging_gives_the_metadata_the_next_location() {
    let (table, state) = stage(retention_commit(), base_table(Some(BASE_LOCATION))).unwrap();
    let location = state.metadata_location.clone().unwrap();
    assert_ne!(location, BASE_LOCATION);
    assert!(location.starts_with("memory://warehouse/db/events/metadata/00002-"));
    assert!(location.ends_with(".metadata.json"));
    assert_eq!(table.metadata_location(), Some(location.as_str()));
}

#[test]
fn staging_keeps_identifier_and_snapshots() {
    let (_, state) = stage(retention_commit(), base_table(Some(BASE_LOCATION))).unwrap();
    assert_eq!(state.identifier, events_table());
    assert_eq!(state.snapshot_ids, vec![41]);
    assert_eq!(state.current_snapshot_id, Some(41));
}

#[test]
fn staging_leaves_the_loaded_table_as_it_was() {
    let loaded = base_table(Some(BASE_LOCATION));
    let before = read_table(&loaded);
    let kept = loaded.clone();
    stage(retention_commit(), loaded).unwrap();
    assert_eq!(read_table(&kept), before);
    assert_eq!(kept.metadata().properties().get("retention"), None);
}

#[test]
fn staging_on_a_table_without_location_is_refused() {
    match stage(retention_commit(), base_table(None)) {
        Err(StagingError::Refused(error)) => assert_eq!(error.kind(), ErrorKind::DataInvalid),
        other => panic!("expected a refusal, got {other:?}"),
    }
}

fn table_from(metadata: &str, location: &str) -> Table {
    let metadata: TableMetadata = serde_json::from_str(metadata).unwrap();
    Table::builder()
        .metadata(metadata)
        .identifier(TableIdent::from_strs(["db", "events"]).unwrap())
        .file_io(FileIO::new_with_memory())
        .runtime(test_runtime())
        .metadata_location(location)
        .build()
        .unwrap()
}

const LAST_LOCATION: &str =
    "memory://warehouse/db/events/metadata/2147483647-6f0c5a1e-8d2b-4c3a-9e7f-1a2b3c4d5e6f.metadata.json";

const NOT_ADMITTED: &str =
    "The table admits no further commit: a version, an id or a time in its metadata is out of range";

#[test]
fn ordinary_table_admits_a_commit() {
    assert!(admits(&base_table(Some(BASE_LOCATION))));
    assert!(admits(&base_table(None)));
}

#[test]
fn table_at_the_last_version_admits_no_commit() {
    assert!(!admits(&base_table(Some(LAST_LOCATION))));
    assert!(!admits(&table_from(
        BASE_METADATA,
        "memory://warehouse/db/events/metadata/+002147483647-a.metadata.json"
    )));
}

#[test]
fn table_one_before_the_last_version_admits_a_commit() {
    let location =
        "memory://warehouse/db/events/metadata/2147483646-6f0c5a1e-8d2b-4c3a-9e7f-1a2b3c4d5e6f.metadata.json";
    assert!(admits(&base_table(Some(location))));
    let (table, state) = stage(retention_commit(), base_table(Some(location))).unwrap();
    let staged = state.metadata_location.unwrap();
    assert!(staged.starts_with("memory://warehouse/db/events/metadata/2147483647-"));
    assert!(!admits(&table));
}

#[test]
fn table_with_a_time_out_of_range_admits_no_commit() {
    let late = BASE_METADATA.replace(
        "\"last-updated-ms\": 1700000001000",
        "\"last-updated-ms\": 4000000000000000000",
    );
    assert!(!admits(&table_from(&late, BASE_LOCATION)));
    let bound = BASE_METADATA.replace(
        "\"last-updated-ms\": 1700000001000",
        "\"last-updated-ms\": 2305843009213693952",
    );
    assert!(admits(&table_from(&bound, BASE_LOCATION)));
    let beyond = BASE_METADATA.replace(
        "\"last-updated-ms\": 1700000001000",
        "\"last-updated-ms\": 2305843009213693953",
    );
    assert!(!admits(&table_from(&beyond, BASE_LOCATION)));
}

#[test]
fn table_with_the_greatest_schema_id_admits_no_commit() {
    let full = BASE_METADATA
        .replace("\"current-schema-id\": 0", "\"current-schema-id\": 2147483647")
        .replace("\"schema-id\": 0", "\"schema-id\": 2147483647");
    assert!(!admits(&table_from(&full, BASE_LOCATION)));
    let nearly = BASE_METADATA
        .replace("\"current-schema-id\": 0", "\"current-schema-id\": 2147483646")
        .replace("\"schema-id\": 0", "\"schema-id\": 2147483646");
    assert!(admits(&table_from(&nearly, BASE_LOCATION)));
}

#[test]
fn table_with_the_greatest_sort_order_id_admits_no_commit() {
    let full = BASE_METADATA
        .replace("\"default-sort-order-id\": 0", "\"default-sort-order-id\": 9223372036854775807")
        .replace(
            "\"sort-orders\": [{\"order-id\": 0, \"fields\": []}]",
            "\"sort-orders\": [{\"order-id\": 9223372036854775807, \"fields\": [{\"transform\": \"identity\", \"source-id\": 1, \"direction\": \"asc\", \"null-order\": \"nulls-first\"}]}]",
        );
    assert!(!admits(&table_from(&full, BASE_LOCATION)));
}

#[test]
fn staging_on_a_table_that_admits_no_commit_is_not_tried() {
    match stage(retention_commit(), base_table(Some(LAST_LOCATION))) {
        Err(StagingError::NotAdmitted) => {}
        other => panic!("expected no admission, got {other:?}"),
    }
}

#[test]
fn commit_on_a_table_that_admits_none_is_rejected_without_a_table() {
    let (event, table) = apply_commit(retention_commit(), base_table(Some(LAST_LOCATION)));
    assert!(table.is_none());
    assert_eq!(event, CommitEvent::ApplyRejected(NOT_ADMITTED.to_string()));
    let step = SqlCatalog::new("main".to_string()).apply_table_update(CommitState::Applying, event);
    assert_eq!(
        step,
        (CommitState::Finished, CommitAction::Fail(CommitError::Validation(NOT_ADMITTED.to_string())))
    );
}

#[test]
fn staged_table_keeps_the_identifier_and_has_a_location() {
    let loaded = base_table(Some(BASE_LOCATION));
    let identifier = read_table(&loaded).identifier;
    let (table, state) = stage(retention_commit(), loaded).unwrap();
    assert_eq!(state.identifier, identifier);
    assert!(state.metadata_location.is_some());
    assert_eq!(table.identifier(), &TableIdent::from_strs(["db", "events"]).unwrap());
}

#[test]
fn applied_commit_comes_with_the_staged_table() {
    let (event, table) = apply_commit(retention_commit(), base_table(Some(BASE_LOCATION)));
    let table = table.unwrap();
    assert_eq!(event, CommitEvent::Applied(read_table(&table)));
    assert_eq!(table.metadata().properties().get("retention"), Some(&"30d".to_string()));
}

#[test]
fn commit_that_does_not_apply_is_rejected_without_a_table() {
    let (event, table) = apply_commit(retention_commit(), base_table(None));
    assert!(table.is_none());
    assert_eq!(
        event,
        CommitEvent::ApplyRejected(
            "DataInvalid => Metadata location does not exist for table: db.events".to_string()
        )
    );
}

#[test]
fn rejected_commit_ends_with_validation() {
    let catalog = SqlCatalog::new("main".to_string());
    let (event, _) = apply_commit(retention_commit(), base_table(None));
    let step = catalog.apply_table_update(CommitState::Applying, event);
    assert_eq!(step.0, CommitState::Finished);
    assert!(matches!(step.1, CommitAction::Fail(CommitError::Validation(_))));
}

#[test]
fn applied_commit_runs_through_to_the_committed_table() {
    let catalog = SqlCatalog::new("main".to_string());
    let commit = retention_commit();
    let (state, action) = catalog.start_table_update(&read_commit_identifier(&commit));
    assert_eq!(action, CommitAction::LoadTable(events_table()));
    let (state, action) = catalog.apply_table_update(state, CommitEvent::Loaded);
    assert_eq!(action, CommitAction::ApplyCommit);
    let (event, table) = apply_commit(commit, base_table(Some(BASE_LOCATION)));
    let staged: TableState = read_table(&table.unwrap());
    let location = staged.metadata_location.clone().unwrap();
    let (state, action) = catalog.apply_table_update(state, event);
    assert_eq!(action, CommitAction::WriteMetadata(location.clone()));
    let (state, action) = catalog.apply_table_update(state, CommitEvent::Written);
    match action {
        CommitAction::UpdateCatalog { parameters, .. } => assert_eq!(
            parameters,
            vec![location, "main".to_string(), "events".to_string(), "db".to_string()]
        ),
        other => panic!("expected the update, got {other:?}"),
    }
    let (state, action) = catalog.apply_table_update(state, CommitEvent::Updated(1));
    assert_eq!(state, CommitState::Finished);
    assert_eq!(action, CommitAction::Succeed(staged));
}
