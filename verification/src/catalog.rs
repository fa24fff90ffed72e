//! The catalog's rows and the guarded update that publishes a commit.
//!
//! The catalog is a table of rows in a relational store that several
//! processes share. A commit is published by one statement that names the
//! row by catalog, namespace and table name and sets its metadata location.
//! The rows are modelled here as far as that statement reads and writes them.

use crate::table::TableIdentifier;
use crate::table::TableIdentifierView;
use vstd::prelude::*;
use vstd::string::StringExecFns;

verus! {

/// The relational table that holds the catalog's rows.
pub const CATALOG_TABLE_NAME: &'static str = "iceberg_tables";

pub const CATALOG_FIELD_CATALOG_NAME: &'static str = "catalog_name";

pub const CATALOG_FIELD_TABLE_NAMESPACE: &'static str = "table_namespace";

pub const CATALOG_FIELD_TABLE_NAME: &'static str = "table_name";

pub const CATALOG_FIELD_METADATA_LOCATION_PROP: &'static str = "metadata_location";

pub const CATALOG_FIELD_RECORD_TYPE: &'static str = "record_type";

/// The record type of a row that stands for a table.
pub const CATALOG_FIELD_TABLE_RECORD_TYPE: &'static str = "TABLE";

/// How many parameters the update statement binds.
pub const UPDATE_PARAMETERS: usize = 4;

/// One row of the catalog. Rows written before the record type was
/// introduced have none; they stand for tables.
pub struct CatalogRow {
    pub catalog_name: Seq<char>,
    pub table_namespace: Seq<char>,
    pub table_name: Seq<char>,
    pub metadata_location: Seq<char>,
    pub record_type: Option<Seq<char>>,
}

impl CatalogRow {
    /// Whether the row stands for a table: its record type says so, or it
    /// has none.
    pub open spec fn is_table(self) -> bool {
        self.record_type is None || self.record_type == Some(
            CATALOG_FIELD_TABLE_RECORD_TYPE@,
        )
    }

    /// Whether the row is the live row of the table `identifier` in the
    /// catalog `catalog_name`.
    pub open spec fn stands_for(self, catalog_name: Seq<char>, identifier: TableIdentifierView) -> bool {
        &&& self.catalog_name == catalog_name
        &&& self.table_name == identifier.name
        &&& self.table_namespace == identifier.joined_namespace()
        &&& self.is_table()
    }
}

/// The text of the statement that points a table's row to new metadata.
pub open spec fn update_statement_text() -> Seq<char> {
    "UPDATE "@ + CATALOG_TABLE_NAME@ + " SET "@ + CATALOG_FIELD_METADATA_LOCATION_PROP@
        + " = ? WHERE "@ + CATALOG_FIELD_CATALOG_NAME@ + " = ? AND "@ + CATALOG_FIELD_TABLE_NAME@
        + " = ? AND "@ + CATALOG_FIELD_TABLE_NAMESPACE@ + " = ? AND ("@
        + CATALOG_FIELD_RECORD_TYPE@ + " = '"@ + CATALOG_FIELD_TABLE_RECORD_TYPE@ + "' OR "@
        + CATALOG_FIELD_RECORD_TYPE@ + " IS NULL)"@
}

/// The parameters that the statement binds, in the order of its
/// placeholders: the new metadata location, then the catalog, the table name
/// and the joined namespace of the row to update.
pub open spec fn update_parameters(
    metadata_location: Seq<char>,
    catalog_name: Seq<char>,
    identifier: TableIdentifierView,
) -> Seq<Seq<char>> {
    seq![metadata_location, catalog_name, identifier.name, identifier.joined_namespace()]
}

/// Whether the statement's guard holds of a row, for the given parameters.
pub open spec fn guard_holds(row: CatalogRow, parameters: Seq<Seq<char>>) -> bool
    recommends
        parameters.len() == UPDATE_PARAMETERS,
{
    &&& row.catalog_name == parameters[1]
    &&& row.table_name == parameters[2]
    &&& row.table_namespace == parameters[3]
    &&& row.is_table()
}

/// A row after the statement ran with the given parameters.
pub open spec fn row_after_update(row: CatalogRow, parameters: Seq<Seq<char>>) -> CatalogRow
    recommends
        parameters.len() == UPDATE_PARAMETERS,
{
    if guard_holds(row, parameters) {
        CatalogRow { metadata_location: parameters[0], ..row }
    } else {
        row
    }
}

/// The catalog after the statement ran with the given parameters.
pub open spec fn rows_after_update(rows: Seq<CatalogRow>, parameters: Seq<Seq<char>>) -> Seq<
    CatalogRow,
>
    recommends
        parameters.len() == UPDATE_PARAMETERS,
{
    Seq::new(rows.len(), |i: int| row_after_update(rows[i], parameters))
}

/// How many rows the statement affects.
pub open spec fn rows_affected(rows: Seq<CatalogRow>, parameters: Seq<Seq<char>>) -> nat
    recommends
        parameters.len() == UPDATE_PARAMETERS,
    decreases rows.len(),
{
    if rows.len() == 0 {
        0
    } else {
        rows_affected(rows.drop_last(), parameters) + if guard_holds(rows.last(), parameters) {
            1nat
        } else {
            0nat
        }
    }
}

/// The guard bound to a table's identifier holds of exactly the live rows
/// of that table.
pub proof fn lemma_guard_names_the_live_row(
    row: CatalogRow,
    metadata_location: Seq<char>,
    catalog_name: Seq<char>,
    identifier: TableIdentifierView,
)
    ensures
        guard_holds(row, update_parameters(metadata_location, catalog_name, identifier))
            == row.stands_for(catalog_name, identifier),
{
}

/// The statement affects no row if and only if its guard holds of none.
pub proof fn lemma_rows_affected_counts_guarded(rows: Seq<CatalogRow>, parameters: Seq<Seq<char>>)
    ensures
        rows_affected(rows, parameters) <= rows.len(),
        rows_affected(rows, parameters) == 0 <==> forall|i: int|
            0 <= i < rows.len() ==> !guard_holds(#[trigger] rows[i], parameters),
    decreases rows.len(),
{
    if rows.len() > 0 {
        let front = rows.drop_last();
        lemma_rows_affected_counts_guarded(front, parameters);
        if rows_affected(rows, parameters) == 0 {
            assert forall|i: int| 0 <= i < rows.len() implies !guard_holds(
                #[trigger] rows[i],
                parameters,
            ) by {
                if i < rows.len() - 1 {
                    assert(front[i] == rows[i]);
                }
            }
        } else if !guard_holds(rows.last(), parameters) {
            let i = choose|i: int| 0 <= i < front.len() && guard_holds(#[trigger] front[i], parameters);
            assert(front[i] == rows[i]);
        }
    }
}

/// The statement changes the rows of which the guard holds and no others,
/// and of those only the metadata location, which becomes the new one.
pub proof fn lemma_update_touches_guarded_rows_only(
    rows: Seq<CatalogRow>,
    parameters: Seq<Seq<char>>,
    i: int,
)
    requires
        0 <= i < rows.len(),
    ensures
        rows_after_update(rows, parameters).len() == rows.len(),
        !guard_holds(rows[i], parameters) ==> rows_after_update(rows, parameters)[i] == rows[i],
        guard_holds(rows[i], parameters) ==> rows_after_update(rows, parameters)[i] == (CatalogRow {
            metadata_location: parameters[0],
            ..rows[i]
        }),
{
}

/// A statement that affects no row leaves the catalog as it was: a commit
/// that lost its row overwrites nothing.
pub proof fn lemma_no_row_affected_changes_nothing(
    rows: Seq<CatalogRow>,
    parameters: Seq<Seq<char>>,
)
    requires
        rows_affected(rows, parameters) == 0,
    ensures
        rows_after_update(rows, parameters) == rows,
{
    lemma_rows_affected_counts_guarded(rows, parameters);
    assert(rows_after_update(rows, parameters) =~= rows);
}

/// The text of the update statement.
pub fn update_statement() -> (statement: String)
    ensures
        statement@ == update_statement_text(),
{
    let mut statement = String::from_str("UPDATE ");
    statement.append(CATALOG_TABLE_NAME);
    statement.append(" SET ");
    statement.append(CATALOG_FIELD_METADATA_LOCATION_PROP);
    statement.append(" = ? WHERE ");
    statement.append(CATALOG_FIELD_CATALOG_NAME);
    statement.append(" = ? AND ");
    statement.append(CATALOG_FIELD_TABLE_NAME);
    statement.append(" = ? AND ");
    statement.append(CATALOG_FIELD_TABLE_NAMESPACE);
    statement.append(" = ? AND (");
    statement.append(CATALOG_FIELD_RECORD_TYPE);
    statement.append(" = '");
    statement.append(CATALOG_FIELD_TABLE_RECORD_TYPE);
    statement.append("' OR ");
    statement.append(CATALOG_FIELD_RECORD_TYPE);
    statement.append(" IS NULL)");
    statement
}

/// The parameters to bind for the table `identifier` of the catalog
/// `catalog_name` and its new metadata location.
pub fn update_parameter_values(
    metadata_location: &String,
    catalog_name: &String,
    identifier: &TableIdentifier,
) -> (parameters: Vec<String>)
    ensures
        parameters.deep_view() == update_parameters(metadata_location@, catalog_name@, identifier@),
{
    let mut parameters: Vec<String> = Vec::new();
    parameters.push(metadata_location.clone());
    parameters.push(catalog_name.clone());
    parameters.push(identifier.name.clone());
    parameters.push(identifier.joined_namespace());
    proof {
        assert(parameters.deep_view() =~= update_parameters(
            metadata_location@,
            catalog_name@,
            identifier@,
        ));
    }
    parameters
}

} // verus!
