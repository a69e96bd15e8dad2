use obst::compiler::compile;
use obst::error::SchemaError;
use obst::field_type::FieldType;
use obst::schema::{FieldDefinition, ObservationSchema};

fn schema(name: &str, fields: &[(&str, FieldType)]) -> ObservationSchema {
    ObservationSchema {
        name: name.to_string(),
        fields: fields.iter().map(|(n, t)| FieldDefinition::new(n, *t)).collect(),
    }
}

fn pairs(columns: &[(&str, &str)]) -> Vec<(String, String)> {
    columns.iter().map(|(n, t)| (n.to_string(), t.to_string())).collect()
}

#[test]
fn temperature_with_date_compiles_to_two_columns() {
    let s = ObservationSchema {
        name: "Temperature".to_string(),
        fields: vec![FieldDefinition::date(), FieldDefinition::new("reading", FieldType::Float)],
    };
    let request = compile(&s).unwrap();
    assert_eq!(request.table(), "Temperature");
    assert_eq!(request.columns(), &pairs(&[("Date", "TIMESTAMP"), ("reading", "FLOAT")]));
    assert_eq!(
        request.statement(),
        "CREATE TABLE IF NOT EXISTS Temperature (Date TIMESTAMP, reading FLOAT);"
    );
}

#[test]
fn compile_keeps_the_order_of_the_fields() {
    let s = schema(
        "weather",
        &[
            ("wind", FieldType::Integer),
            ("rain", FieldType::Boolean),
            ("at", FieldType::Timestamp),
            ("degrees", FieldType::Float),
        ],
    );
    let request = compile(&s).unwrap();
    assert_eq!(
        request.columns(),
        &pairs(&[
            ("wind", "INTEGER"),
            ("rain", "BOOLEAN"),
            ("at", "TIMESTAMP"),
            ("degrees", "FLOAT"),
        ])
    );
    assert_eq!(
        request.statement(),
        "CREATE TABLE IF NOT EXISTS weather (wind INTEGER, rain BOOLEAN, at TIMESTAMP, degrees FLOAT);"
    );
}

#[test]
fn a_single_field_has_no_separator() {
    let s = schema("t", &[("x", FieldType::Integer)]);
    assert_eq!(compile(&s).unwrap().statement(), "CREATE TABLE IF NOT EXISTS t (x INTEGER);");
}

#[test]
fn compile_rejects_a_duplicate_field_name() {
    let s = schema("t", &[("x", FieldType::Integer), ("x", FieldType::Float)]);
    assert_eq!(compile(&s), Err(SchemaError::DuplicateField));
    let far = schema(
        "t",
        &[("x", FieldType::Integer), ("y", FieldType::Float), ("z", FieldType::Float), ("x", FieldType::Integer)],
    );
    assert_eq!(compile(&far), Err(SchemaError::DuplicateField));
}

#[test]
fn field_names_are_compared_with_case() {
    let s = schema("t", &[("x", FieldType::Integer), ("X", FieldType::Float)]);
    assert_eq!(
        compile(&s).unwrap().columns(),
        &pairs(&[("x", "INTEGER"), ("X", "FLOAT")])
    );
}

#[test]
fn compile_rejects_a_schema_without_fields() {
    assert_eq!(compile(&schema("t", &[])), Err(SchemaError::EmptySchema));
    assert_eq!(compile(&schema("", &[])), Err(SchemaError::EmptySchema));
    assert_eq!(compile(&ObservationSchema::new()), Err(SchemaError::EmptySchema));
}

#[test]
fn compile_rejects_names_that_are_no_identifiers() {
    let field = [("x", FieldType::Integer)];
    assert_eq!(compile(&schema("", &field)), Err(SchemaError::InvalidIdentifier));
    assert_eq!(compile(&schema("my table", &field)), Err(SchemaError::InvalidIdentifier));
    assert_eq!(
        compile(&schema("t (x INTEGER); DROP TABLE u; --", &field)),
        Err(SchemaError::InvalidIdentifier)
    );
    assert_eq!(
        compile(&schema("t", &[("x", FieldType::Integer), ("y;", FieldType::Float)])),
        Err(SchemaError::InvalidIdentifier)
    );
    assert_eq!(
        compile(&schema("t", &[("1x", FieldType::Integer)])),
        Err(SchemaError::InvalidIdentifier)
    );
    assert_eq!(
        compile(&schema("t", &[("", FieldType::Integer)])),
        Err(SchemaError::InvalidIdentifier)
    );
}

#[test]
fn of_several_faults_the_duplicate_is_reported_first() {
    let s = schema("not valid", &[("a b", FieldType::Integer), ("a b", FieldType::Float)]);
    assert_eq!(compile(&s), Err(SchemaError::DuplicateField));
}

#[test]
fn compiling_twice_gives_the_same_request() {
    let s = schema("t", &[("x", FieldType::Integer), ("y", FieldType::Timestamp)]);
    assert_eq!(compile(&s), compile(&s));
    assert_eq!(compile(&s).unwrap().statement(), compile(&s.clone()).unwrap().statement());
}

#[test]
fn every_statement_creates_only_if_absent_and_ends_once() {
    let s = schema("t", &[("x", FieldType::Integer), ("y", FieldType::Timestamp)]);
    let text = compile(&s).unwrap().statement();
    assert!(text.starts_with("CREATE TABLE IF NOT EXISTS "));
    assert!(text.ends_with(");"));
    assert_eq!(text.matches(';').count(), 1);
}

#[test]
fn schema_grows_field_by_field() {
    let mut s = ObservationSchema::new();
    assert_eq!(s.name, "");
    assert!(s.fields.is_empty());
    s.push_field(FieldDefinition::date());
    s.push_field(FieldDefinition::new("reading", FieldType::Float));
    assert_eq!(
        s.fields,
        vec![
            FieldDefinition { name: "Date".to_string(), field_type: FieldType::Timestamp },
            FieldDefinition { name: "reading".to_string(), field_type: FieldType::Float },
        ]
    );
}

#[test]
fn statements_hold_only_harmless_characters_before_their_end() {
    let s = schema(
        "Wind_2",
        &[("_a", FieldType::Integer), ("b9", FieldType::Boolean), ("C", FieldType::Timestamp)],
    );
    let text = compile(&s).unwrap().statement();
    let (body, end) = text.split_at(text.len() - 1);
    assert_eq!(end, ";");
    assert!(body
        .chars()
        .all(|c| c.is_ascii_alphanumeric() || c == '_' || " ,()".contains(c)));
}
