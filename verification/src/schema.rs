//! The schema model: an observation definition as a name and an ordered list
//! of typed fields.

use vstd::prelude::*;
use vstd::string::*;
use crate::field_type::FieldType;
use crate::text::is_identifier;

verus! {

/// One field of an observation: a column name and its type.
#[derive(Clone, Debug, PartialEq, Eq)]
pub struct FieldDefinition {
    pub name: String,
    pub field_type: FieldType,
}

/// What a field definition stands for.
#[verifier::ext_equal]
pub struct FieldSpec {
    pub name: Seq<char>,
    pub field_type: FieldType,
}

impl View for FieldDefinition {
    type V = FieldSpec;

    open spec fn view(&self) -> FieldSpec {
        FieldSpec { name: self.name@, field_type: self.field_type }
    }
}

/// An observation definition. The order of the fields is the order of the
/// columns of its table.
#[derive(Clone, Debug, PartialEq, Eq)]
pub struct ObservationSchema {
    pub name: String,
    pub fields: Vec<FieldDefinition>,
}

/// What an observation definition stands for.
#[verifier::ext_equal]
pub struct SchemaSpec {
    pub name: Seq<char>,
    pub fields: Seq<FieldSpec>,
}

impl View for ObservationSchema {
    type V = SchemaSpec;

    open spec fn view(&self) -> SchemaSpec {
        SchemaSpec { name: self.name@, fields: fields_view(self.fields@) }
    }
}

/// What a list of field definitions stands for, field by field.
pub open spec fn fields_view(fields: Seq<FieldDefinition>) -> Seq<FieldSpec> {
    Seq::new(fields.len(), |i: int| fields[i]@)
}

/// The name of the field that holds the time of an observation.
pub open spec fn date_field_name() -> Seq<char> {
    "Date"@
}

/// The field that holds the time of an observation.
pub open spec fn date_field_spec() -> FieldSpec {
    FieldSpec { name: date_field_name(), field_type: FieldType::Timestamp }
}

/// Two fields of the list have the same name.
pub open spec fn has_duplicate_name(fields: Seq<FieldSpec>) -> bool {
    exists|i: int, j: int|
        0 <= i < j < fields.len() && (#[trigger] fields[i]).name == (#[trigger] fields[j]).name
}

/// The schema's name and the names of all its fields are bare identifiers.
pub open spec fn has_valid_identifiers(schema: SchemaSpec) -> bool {
    &&& is_identifier(schema.name)
    &&& forall|i: int| 0 <= i < schema.fields.len() ==> is_identifier((#[trigger] schema.fields[i]).name)
}

impl FieldDefinition {
    /// A field of the given name and type.
    pub fn new(name: &str, field_type: FieldType) -> (field: FieldDefinition)
        ensures
            field@ == (FieldSpec { name: name@, field_type }),
    {
        FieldDefinition { name: name.to_owned(), field_type }
    }

    /// The field that holds the time of an observation.
    pub fn date() -> (field: FieldDefinition)
        ensures
            field@ == date_field_spec(),
    {
        FieldDefinition { name: "Date".to_owned(), field_type: FieldType::Timestamp }
    }
}

impl ObservationSchema {
    /// A schema without a name and without fields.
    pub fn new() -> (schema: ObservationSchema)
        ensures
            schema@ == (SchemaSpec { name: Seq::empty(), fields: Seq::empty() }),
    {
        ObservationSchema { name: String::new(), fields: Vec::new() }
    }

    /// Adds a field behind the others.
    pub fn push_field(&mut self, field: FieldDefinition)
        ensures
            final(self)@ == (SchemaSpec {
                name: old(self)@.name,
                fields: old(self)@.fields.push(field@),
            }),
    {
        self.fields.push(field);
    }
}

} // verus!
