//! The schema catalog reader: what the store reports of its tables, turned
//! back into descriptions and schemas. The queries themselves are run by the
//! caller; this module says what to ask and reads the rows that come back.

use vstd::prelude::*;
use vstd::string::*;
use crate::compiler::{columns_view, compile_spec, ColumnSpec};
use crate::error::{CatalogError, SchemaError};
use crate::field_type::{
    from_storage_name, from_storage_name_spec, lemma_storage_name_maps_back, FieldType,
};
use crate::schema::{FieldDefinition, FieldSpec, ObservationSchema, SchemaSpec};
use crate::text::{check_identifier, is_identifier, starts_with};

verus! {

/// The type of a column as far as the catalog knows it.
#[derive(Clone, Copy, Debug, PartialEq, Eq, Structural)]
pub enum ColumnType {
    /// The declared type is the storage name of this type of the catalog.
    Typed(FieldType),
    /// The declared type names no type of the catalog.
    Opaque,
}

/// A column of an existing table.
#[derive(Clone, Debug, PartialEq, Eq)]
pub struct ColumnDescription {
    pub name: String,
    pub declared_type: String,
    pub column_type: ColumnType,
}

/// What a column description stands for.
pub struct ColumnDescriptionSpec {
    pub name: Seq<char>,
    pub declared_type: Seq<char>,
    pub column_type: ColumnType,
}

impl View for ColumnDescription {
    type V = ColumnDescriptionSpec;

    open spec fn view(&self) -> ColumnDescriptionSpec {
        ColumnDescriptionSpec {
            name: self.name@,
            declared_type: self.declared_type@,
            column_type: self.column_type,
        }
    }
}

/// An existing table: its name and its columns in order.
#[derive(Clone, Debug, PartialEq, Eq)]
pub struct TableDescription {
    pub name: String,
    pub columns: Vec<ColumnDescription>,
}

/// What a table description stands for.
pub struct TableDescriptionSpec {
    pub name: Seq<char>,
    pub columns: Seq<ColumnDescriptionSpec>,
}

/// What a list of column descriptions stands for, column by column.
pub open spec fn descriptions_view(columns: Seq<ColumnDescription>) -> Seq<ColumnDescriptionSpec> {
    Seq::new(columns.len(), |i: int| columns[i]@)
}

impl View for TableDescription {
    type V = TableDescriptionSpec;

    open spec fn view(&self) -> TableDescriptionSpec {
        TableDescriptionSpec { name: self.name@, columns: descriptions_view(self.columns@) }
    }
}

/// What a list of strings stands for, string by string.
pub open spec fn names_view(names: Seq<String>) -> Seq<Seq<char>> {
    Seq::new(names.len(), |i: int| names[i]@)
}

/// The beginning of the names that the storage engine keeps for its own tables.
pub open spec fn internal_prefix() -> Seq<char> {
    "sqlite_"@
}

/// A table of the storage engine's own.
pub open spec fn is_internal_table(name: Seq<char>) -> bool {
    internal_prefix().is_prefix_of(name)
}

/// A table that is not the storage engine's own.
pub open spec fn is_user_table(name: Seq<char>) -> bool {
    !is_internal_table(name)
}

/// The tables of a list that are not the storage engine's own, in the order
/// of the list.
pub open spec fn user_tables(names: Seq<Seq<char>>) -> Seq<Seq<char>> {
    names.filter(|name: Seq<char>| is_user_table(name))
}

/// The query that lists the tables of the store.
pub open spec fn list_tables_query_spec() -> Seq<char> {
    "SELECT name FROM sqlite_master WHERE type = 'table' ORDER BY name;"@
}

/// The query that lists the tables of the store. Its rows go to `list_tables`.
pub fn list_tables_query() -> (query: &'static str)
    ensures
        query@ == list_tables_query_spec(),
{
    "SELECT name FROM sqlite_master WHERE type = 'table' ORDER BY name;"
}

/// The query that lists the columns of a table.
pub open spec fn describe_table_query_spec(name: Seq<char>) -> Seq<char> {
    "PRAGMA table_info("@ + name + ");"@
}

/// The query that lists the columns of a table with their declared types.
/// The name goes into the text as it is, so it must be a bare identifier;
/// any other name is an `InvalidIdentifier` and gives no query.
pub fn describe_table_query(name: &str) -> (r: Result<String, SchemaError>)
    ensures
        match r {
            Ok(query) => is_identifier(name@) && query@ == describe_table_query_spec(name@),
            Err(e) => !is_identifier(name@) && e == SchemaError::InvalidIdentifier,
        },
{
    if !check_identifier(name) {
        return Err(SchemaError::InvalidIdentifier);
    }
    let mut query = String::from_str("PRAGMA table_info(");
    query.append(name);
    query.append(");");
    Ok(query)
}

/// The observation tables among the tables that the store reports: all but
/// the storage engine's own, in the order in which they were reported.
pub fn list_tables(reported: &Vec<String>) -> (tables: Vec<String>)
    ensures
        names_view(tables@) == user_tables(names_view(reported@)),
{
    let ghost all = names_view(reported@);
    let mut tables: Vec<String> = Vec::new();
    let mut i: usize = 0;
    proof {
        reveal(Seq::filter);
    }
    while i < reported.len()
        invariant
            i <= reported.len(),
            all == names_view(reported@),
            names_view(tables@) == user_tables(all.take(i as int)),
        decreases reported.len() - i,
    {
        let ghost before = all.take(i as int);
        let ghost after = all.take(i + 1);
        proof {
            assert(after.drop_last() =~= before);
            reveal(Seq::filter);
        }
        if !starts_with(reported[i].as_str(), "sqlite_") {
            tables.push(reported[i].clone());
        }
        i += 1;
    }
    proof {
        assert(all.take(i as int) =~= all);
    }
    tables
}

/// The type that a declared type name stands for.
pub open spec fn column_type_spec(declared: Seq<char>) -> ColumnType {
    match from_storage_name_spec(declared) {
        Some(t) => ColumnType::Typed(t),
        None => ColumnType::Opaque,
    }
}

/// What the catalog makes of one reported column.
pub open spec fn describe_column_spec(column: ColumnSpec) -> ColumnDescriptionSpec {
    ColumnDescriptionSpec {
        name: column.0,
        declared_type: column.1,
        column_type: column_type_spec(column.1),
    }
}

/// What the catalog makes of the columns that the store reports of a table.
/// The store reports no column of a table that does not exist, and every
/// table has a column.
pub open spec fn describe_table_spec(name: Seq<char>, reported: Seq<ColumnSpec>) -> Result<
    TableDescriptionSpec,
    CatalogError,
> {
    if reported.len() == 0 {
        Err(CatalogError::TableNotFound)
    } else {
        Ok(
            TableDescriptionSpec {
                name,
                columns: Seq::new(reported.len(), |i: int| describe_column_spec(reported[i])),
            },
        )
    }
}

/// Describes a table from the columns that the store reports of it: each
/// with its name and its declared type, in the order of the table. A declared
/// type that names no type of the catalog makes the column opaque; the
/// description does not fail on it. No column at all means that the table
/// does not exist.
pub fn describe_table(name: &str, reported: &Vec<(String, String)>) -> (r: Result<
    TableDescription,
    CatalogError,
>)
    ensures
        match r {
            Ok(table) => describe_table_spec(name@, columns_view(reported@)) == Ok::<
                TableDescriptionSpec,
                CatalogError,
            >(table@),
            Err(e) => describe_table_spec(name@, columns_view(reported@)) == Err::<
                TableDescriptionSpec,
                CatalogError,
            >(e),
        },
{
    if reported.len() == 0 {
        return Err(CatalogError::TableNotFound);
    }
    let ghost specs = columns_view(reported@);
    let mut columns: Vec<ColumnDescription> = Vec::new();
    let mut i: usize = 0;
    while i < reported.len()
        invariant
            i <= reported.len(),
            specs == columns_view(reported@),
            columns@.len() == i,
            forall|k: int| 0 <= k < i ==> (#[trigger] columns@[k])@ == describe_column_spec(specs[k]),
        decreases reported.len() - i,
    {
        let column_type = match from_storage_name(reported[i].1.as_str()) {
            Some(t) => ColumnType::Typed(t),
            None => ColumnType::Opaque,
        };
        columns.push(
            ColumnDescription {
                name: reported[i].0.clone(),
                declared_type: reported[i].1.clone(),
                column_type,
            },
        );
        i += 1;
    }
    let table = TableDescription { name: name.to_owned(), columns };
    proof {
        assert(table@.columns =~= Seq::new(
            specs.len(),
            |i: int| describe_column_spec(specs[i]),
        ));
    }
    Ok(table)
}

/// Every column of the table has a type of the catalog.
pub open spec fn is_fully_typed(table: TableDescriptionSpec) -> bool {
    forall|i: int| 0 <= i < table.columns.len() ==> (#[trigger] table.columns[i]).column_type is Typed
}

/// The schema that a fully typed table stands for.
pub open spec fn schema_of_spec(table: TableDescriptionSpec) -> Option<SchemaSpec> {
    if is_fully_typed(table) {
        Some(
            SchemaSpec {
                name: table.name,
                fields: Seq::new(
                    table.columns.len(),
                    |i: int|
                        FieldSpec {
                            name: table.columns[i].name,
                            field_type: table.columns[i].column_type->Typed_0,
                        },
                ),
            },
        )
    } else {
        None
    }
}

impl TableDescription {
    /// The schema of the observation that the table holds, if every column
    /// has a type of the catalog: the table's name and one field for each
    /// column, in order.
    pub fn schema(&self) -> (r: Option<ObservationSchema>)
        ensures
            match r {
                Some(schema) => schema_of_spec(self@) == Some(schema@),
                None => schema_of_spec(self@) is None,
            },
    {
        let ghost specs = self@.columns;
        let mut fields: Vec<FieldDefinition> = Vec::new();
        let mut i: usize = 0;
        while i < self.columns.len()
            invariant
                i <= self.columns.len(),
                specs == descriptions_view(self.columns@),
                fields@.len() == i,
                forall|k: int| 0 <= k < i ==> (#[trigger] specs[k]).column_type is Typed,
                forall|k: int|
                    0 <= k < i ==> (#[trigger] fields@[k])@ == (FieldSpec {
                        name: specs[k].name,
                        field_type: specs[k].column_type->Typed_0,
                    }),
            decreases self.columns.len() - i,
        {
            match self.columns[i].column_type {
                ColumnType::Typed(t) => {
                    fields.push(FieldDefinition { name: self.columns[i].name.clone(), field_type: t });
                },
                ColumnType::Opaque => {
                    proof {
                        assert(!(specs[i as int].column_type is Typed));
                    }
                    return None;
                },
            }
            i += 1;
        }
        Some(ObservationSchema { name: self.name.clone(), fields })
    }
}

/// Describing the table that a schema was compiled to gives the schema back:
/// as long as the store reports the columns as the request declared them, the
/// description has the names of the fields in their order, each declared type
/// is the storage name of the field's type and maps back to that type, and
/// the schema rebuilt from the description is the schema compiled.
pub proof fn lemma_description_recovers_schema(schema: SchemaSpec)
    requires
        compile_spec(schema) is Ok,
    ensures
        ({
            let request = compile_spec(schema)->Ok_0;
            let described = describe_table_spec(request.table, request.columns);
            &&& described is Ok
            &&& described->Ok_0.name == schema.name
            &&& described->Ok_0.columns.len() == schema.fields.len()
            &&& forall|i: int|
                0 <= i < schema.fields.len() ==> {
                    let column = #[trigger] described->Ok_0.columns[i];
                    &&& column.name == schema.fields[i].name
                    &&& column.declared_type == schema.fields[i].field_type.storage_name_spec()
                    &&& column.column_type == ColumnType::Typed(schema.fields[i].field_type)
                }
            &&& schema_of_spec(described->Ok_0) == Some(schema)
        }),
{
    let request = compile_spec(schema)->Ok_0;
    let table = describe_table_spec(request.table, request.columns)->Ok_0;
    assert forall|i: int| 0 <= i < schema.fields.len() implies {
        let column = #[trigger] table.columns[i];
        &&& column.name == schema.fields[i].name
        &&& column.declared_type == schema.fields[i].field_type.storage_name_spec()
        &&& column.column_type == ColumnType::Typed(schema.fields[i].field_type)
    } by {
        lemma_storage_name_maps_back(schema.fields[i].field_type);
    }
}

} // verus!
