//! The schema compiler: from a finished observation definition to the request
//! that creates its table. Every identifier that reaches a statement passes
//! through `compile`, and nothing else builds a request.

use vstd::prelude::*;
use vstd::string::*;
use crate::error::SchemaError;
use crate::field_type::{from_storage_name_spec, lemma_storage_name_maps_back, FieldType};
use crate::schema::{
    fields_view, has_duplicate_name, has_valid_identifiers, FieldDefinition, FieldSpec,
    ObservationSchema, SchemaSpec,
};
use crate::text::{check_identifier, is_identifier, is_identifier_part};

verus! {

/// A column of a table: its name and the name of its type in the storage engine.
pub type ColumnSpec = (Seq<char>, Seq<char>);

/// What a request to create a table stands for: the table's name and its
/// columns in order.
#[verifier::ext_equal]
pub struct RequestSpec {
    pub table: Seq<char>,
    pub columns: Seq<ColumnSpec>,
}

/// A request to create the table of an observation, unless the table exists.
/// Only `compile` makes one, so its identifiers are always valid.
#[derive(Debug, PartialEq, Eq)]
pub struct CreateTableRequest {
    table: String,
    columns: Vec<(String, String)>,
}

/// What a list of columns stands for, column by column.
pub open spec fn columns_view(columns: Seq<(String, String)>) -> Seq<ColumnSpec> {
    Seq::new(columns.len(), |i: int| (columns[i].0@, columns[i].1@))
}

impl View for CreateTableRequest {
    type V = RequestSpec;

    closed spec fn view(&self) -> RequestSpec {
        RequestSpec { table: self.table@, columns: columns_view(self.columns@) }
    }
}

/// The column that a field becomes.
pub open spec fn column_of(field: FieldSpec) -> ColumnSpec {
    (field.name, field.field_type.storage_name_spec())
}

/// The columns that the fields of a schema become, in the order of the fields.
pub open spec fn columns_of(fields: Seq<FieldSpec>) -> Seq<ColumnSpec> {
    Seq::new(fields.len(), |i: int| column_of(fields[i]))
}

/// Two columns of the list have the same name.
pub open spec fn has_duplicate_column(columns: Seq<ColumnSpec>) -> bool {
    exists|i: int, j: int|
        0 <= i < j < columns.len() && (#[trigger] columns[i]).0 == (#[trigger] columns[j]).0
}

/// What holds of every request: it has a column, its names are bare
/// identifiers, no two columns share a name, and every column's type is a
/// storage name of the catalog.
pub open spec fn is_valid_request(request: RequestSpec) -> bool {
    &&& request.columns.len() > 0
    &&& is_identifier(request.table)
    &&& forall|i: int|
        0 <= i < request.columns.len() ==> is_identifier((#[trigger] request.columns[i]).0)
    &&& forall|i: int|
        0 <= i < request.columns.len() ==> from_storage_name_spec(
            (#[trigger] request.columns[i]).1,
        ) is Some
    &&& !has_duplicate_column(request.columns)
}

/// What `compile` makes of a schema. A schema without fields is an
/// `EmptySchema`; one with two fields of the same name is a `DuplicateField`;
/// one whose names are not all bare identifiers is an `InvalidIdentifier`. Of
/// several faults the one named first here is reported.
pub open spec fn compile_spec(schema: SchemaSpec) -> Result<RequestSpec, SchemaError> {
    if schema.fields.len() == 0 {
        Err(SchemaError::EmptySchema)
    } else if has_duplicate_name(schema.fields) {
        Err(SchemaError::DuplicateField)
    } else if !has_valid_identifiers(schema) {
        Err(SchemaError::InvalidIdentifier)
    } else {
        Ok(RequestSpec { table: schema.name, columns: columns_of(schema.fields) })
    }
}

/// The text of one column in a statement: name, blank, type.
pub open spec fn column_text(column: ColumnSpec) -> Seq<char> {
    column.0 + " "@ + column.1
}

/// The text of the columns in a statement, separated by a comma and a blank.
pub open spec fn columns_text(columns: Seq<ColumnSpec>) -> Seq<char>
    decreases columns.len(),
{
    if columns.len() == 0 {
        Seq::empty()
    } else if columns.len() == 1 {
        column_text(columns[0])
    } else {
        columns_text(columns.drop_last()) + ", "@ + column_text(columns.last())
    }
}

/// The words that begin every statement: the table is created only if it
/// does not exist yet.
pub open spec fn statement_head() -> Seq<char> {
    "CREATE TABLE IF NOT EXISTS "@
}

/// The statement that carries out a request.
pub open spec fn statement_text(request: RequestSpec) -> Seq<char> {
    statement_head() + request.table + " ("@ + columns_text(request.columns) + ");"@
}

/// Whether two fields of the list have the same name.
fn find_duplicate(fields: &Vec<FieldDefinition>) -> (found: bool)
    ensures
        found == has_duplicate_name(fields_view(fields@)),
{
    let ghost specs = fields_view(fields@);
    let mut i: usize = 0;
    while i < fields.len()
        invariant
            i <= fields.len(),
            specs == fields_view(fields@),
            forall|a: int, b: int|
                0 <= a < i && a < b < specs.len() ==> (#[trigger] specs[a]).name != (
                #[trigger] specs[b]).name,
        decreases fields.len() - i,
    {
        let mut j: usize = i + 1;
        while j < fields.len()
            invariant
                i < j <= fields.len(),
                specs == fields_view(fields@),
                forall|b: int| i < b < j ==> specs[i as int].name != (#[trigger] specs[b]).name,
            decreases fields.len() - j,
        {
            if fields[i].name == fields[j].name {
                proof {
                    assert(specs[i as int].name == specs[j as int].name);
                }
                return true;
            }
            j += 1;
        }
        i += 1;
    }
    false
}

/// Whether the name of every field is a bare identifier.
fn check_field_names(fields: &Vec<FieldDefinition>) -> (ok: bool)
    ensures
        ok == (forall|i: int|
            0 <= i < fields.len() ==> is_identifier((#[trigger] fields_view(fields@)[i]).name)),
{
    let ghost specs = fields_view(fields@);
    let mut i: usize = 0;
    while i < fields.len()
        invariant
            i <= fields.len(),
            specs == fields_view(fields@),
            forall|k: int| 0 <= k < i ==> is_identifier((#[trigger] specs[k]).name),
        decreases fields.len() - i,
    {
        if !check_identifier(fields[i].name.as_str()) {
            proof {
                assert(!is_identifier(specs[i as int].name));
            }
            return false;
        }
        i += 1;
    }
    true
}

/// Turns a schema into the request that creates its table. The request names
/// the table after the schema and has one column for each field, in the order
/// of the fields. A schema that `compile_spec` rejects gives the error said
/// there and no request.
pub fn compile(schema: &ObservationSchema) -> (r: Result<CreateTableRequest, SchemaError>)
    ensures
        match r {
            Ok(request) => compile_spec(schema@) == Ok::<RequestSpec, SchemaError>(request@),
            Err(e) => compile_spec(schema@) == Err::<RequestSpec, SchemaError>(e),
        },
        has_duplicate_name(schema@.fields) ==> r == Err::<CreateTableRequest, SchemaError>(
            SchemaError::DuplicateField,
        ),
        schema@.fields.len() > 0 && !has_duplicate_name(schema@.fields) && has_valid_identifiers(
            schema@,
        ) ==> r is Ok,
{
    if schema.fields.len() == 0 {
        return Err(SchemaError::EmptySchema);
    }
    if find_duplicate(&schema.fields) {
        return Err(SchemaError::DuplicateField);
    }
    if !check_identifier(schema.name.as_str()) || !check_field_names(&schema.fields) {
        return Err(SchemaError::InvalidIdentifier);
    }
    let ghost specs = schema@.fields;
    let mut columns: Vec<(String, String)> = Vec::new();
    let mut i: usize = 0;
    while i < schema.fields.len()
        invariant
            i <= schema.fields.len(),
            specs == fields_view(schema.fields@),
            columns@.len() == i,
            forall|k: int|
                0 <= k < i ==> (#[trigger] columns@[k]).0@ == specs[k].name && columns@[k].1@
                    == specs[k].field_type.storage_name_spec(),
        decreases schema.fields.len() - i,
    {
        let field = &schema.fields[i];
        columns.push((field.name.clone(), field.field_type.storage_name().to_owned()));
        i += 1;
    }
    let request = CreateTableRequest { table: schema.name.clone(), columns };
    proof {
        assert(request@.columns =~= columns_of(specs));
        lemma_compiled_request_is_valid(schema@);
    }
    Ok(request)
}

impl CreateTableRequest {
    #[verifier::type_invariant]
    spec fn well_formed(self) -> bool {
        is_valid_request(self@)
    }

    /// The name of the table. Every request is valid, since only `compile`
    /// makes one.
    pub fn table(&self) -> (name: &String)
        ensures
            name@ == self@.table,
            is_valid_request(self@),
    {
        proof {
            use_type_invariant(self);
        }
        &self.table
    }

    /// The columns in order, each with its name and the name of its type.
    pub fn columns(&self) -> (columns: &Vec<(String, String)>)
        ensures
            columns_view(columns@) == self@.columns,
            is_valid_request(self@),
    {
        proof {
            use_type_invariant(self);
        }
        &self.columns
    }

    /// The statement that carries out the request.
    pub fn statement(&self) -> (text: String)
        ensures
            text@ == statement_text(self@),
            is_valid_request(self@),
    {
        proof {
            use_type_invariant(self);
        }
        let ghost specs = self@.columns;
        let mut list = String::new();
        let mut i: usize = 0;
        while i < self.columns.len()
            invariant
                i <= self.columns.len(),
                specs == columns_view(self.columns@),
                list@ == columns_text(specs.take(i as int)),
            decreases self.columns.len() - i,
        {
            let ghost before = specs.take(i as int);
            let ghost after = specs.take(i + 1);
            proof {
                assert(after.drop_last() =~= before);
            }
            if i > 0 {
                list.append(", ");
            }
            list.append(self.columns[i].0.as_str());
            list.append(" ");
            list.append(self.columns[i].1.as_str());
            i += 1;
        }
        proof {
            assert(specs.take(i as int) =~= specs);
        }
        let mut text = String::from_str("CREATE TABLE IF NOT EXISTS ");
        text.append(self.table.as_str());
        text.append(" (");
        text.append(list.as_str());
        text.append(");");
        text
    }
}

/// What `compile_spec` accepts is a valid request.
pub proof fn lemma_compiled_request_is_valid(schema: SchemaSpec)
    requires
        compile_spec(schema) is Ok,
    ensures
        is_valid_request(compile_spec(schema)->Ok_0),
{
    let request = compile_spec(schema)->Ok_0;
    assert forall|i: int| 0 <= i < request.columns.len() implies from_storage_name_spec(
        (#[trigger] request.columns[i]).1,
    ) is Some by {
        lemma_storage_name_maps_back(schema.fields[i].field_type);
    }
}

/// Every statement begins with the words that create the table only if it
/// does not exist yet, so carrying out the same request again changes nothing.
pub proof fn lemma_statement_creates_only_if_absent(request: RequestSpec)
    ensures
        statement_head() == "CREATE TABLE IF NOT EXISTS "@,
        statement_head().is_prefix_of(statement_text(request)),
{
}

/// A character that a statement holds before the `;` that ends it: one that
/// may occur in an identifier, a blank, a comma or a round bracket.
pub open spec fn is_statement_char(c: char) -> bool {
    is_identifier_part(c) || c == ' ' || c == ',' || c == '(' || c == ')'
}

/// Whether a text is made of statement characters only.
pub open spec fn all_statement_chars(text: Seq<char>) -> bool {
    forall|i: int| 0 <= i < text.len() ==> is_statement_char(#[trigger] text[i])
}

/// The storage names of the catalog are made of letters.
proof fn lemma_storage_name_chars(t: FieldType)
    ensures
        all_statement_chars(t.storage_name_spec()),
{
    reveal_strlit("INTEGER");
    reveal_strlit("FLOAT");
    reveal_strlit("BOOLEAN");
    reveal_strlit("TIMESTAMP");
}

/// The text of the columns of a valid request is made of statement characters.
proof fn lemma_columns_text_chars(columns: Seq<ColumnSpec>)
    requires
        forall|i: int| 0 <= i < columns.len() ==> is_identifier((#[trigger] columns[i]).0),
        forall|i: int|
            0 <= i < columns.len() ==> from_storage_name_spec((#[trigger] columns[i]).1) is Some,
    ensures
        all_statement_chars(columns_text(columns)),
    decreases columns.len(),
{
    reveal_strlit(" ");
    reveal_strlit(", ");
    if columns.len() > 0 {
        let last = columns.last();
        lemma_storage_name_chars(from_storage_name_spec(last.1)->Some_0);
        if columns.len() > 1 {
            lemma_columns_text_chars(columns.drop_last());
        }
    }
}

/// A statement holds one statement and no more: its last character is the
/// `;` that ends it, and every character before that is a letter, a digit,
/// an underscore, a blank, a comma or a round bracket. So no name that a
/// user typed can end the statement early, open a quotation or begin a comment.
pub proof fn lemma_statement_is_one_statement(request: RequestSpec)
    requires
        is_valid_request(request),
    ensures
        statement_text(request).len() > 0,
        statement_text(request).last() == ';',
        all_statement_chars(statement_text(request).drop_last()),
{
    reveal_strlit("CREATE TABLE IF NOT EXISTS ");
    reveal_strlit(" (");
    reveal_strlit(");");
    lemma_columns_text_chars(request.columns);
}

} // verus!
