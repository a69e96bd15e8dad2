use obst::error::InputError;
use obst::field_type::{from_storage_name, menu_text, type_for, FieldType, FIELD_TYPE_COUNT};

const ALL: [FieldType; 4] = [
    FieldType::Integer,
    FieldType::Float,
    FieldType::Boolean,
    FieldType::Timestamp,
];

#[test]
fn selectors_count_from_one_in_menu_order() {
    assert_eq!(type_for(1), Ok(FieldType::Integer));
    assert_eq!(type_for(2), Ok(FieldType::Float));
    assert_eq!(type_for(3), Ok(FieldType::Boolean));
    assert_eq!(type_for(4), Ok(FieldType::Timestamp));
}

#[test]
fn selectors_outside_the_menu_are_unknown_types() {
    assert_eq!(type_for(0), Err(InputError::UnknownType));
    assert_eq!(type_for(5), Err(InputError::UnknownType));
    assert_eq!(type_for(usize::MAX), Err(InputError::UnknownType));
}

#[test]
fn every_type_stands_at_its_own_selector() {
    assert_eq!(FIELD_TYPE_COUNT, ALL.len());
    for t in ALL {
        assert!(1 <= t.selector() && t.selector() <= FIELD_TYPE_COUNT);
        assert_eq!(type_for(t.selector()), Ok(t));
    }
}

#[test]
fn storage_names_are_the_engine_type_names() {
    assert_eq!(FieldType::Integer.storage_name(), "INTEGER");
    assert_eq!(FieldType::Float.storage_name(), "FLOAT");
    assert_eq!(FieldType::Boolean.storage_name(), "BOOLEAN");
    assert_eq!(FieldType::Timestamp.storage_name(), "TIMESTAMP");
}

#[test]
fn storage_names_differ_and_map_back() {
    for a in ALL {
        assert_eq!(from_storage_name(a.storage_name()), Some(a));
        for b in ALL {
            assert_eq!(a.storage_name() == b.storage_name(), a == b);
        }
    }
}

#[test]
fn other_type_names_map_to_no_type() {
    assert_eq!(from_storage_name(""), None);
    assert_eq!(from_storage_name("integer"), None);
    assert_eq!(from_storage_name("INT"), None);
    assert_eq!(from_storage_name("DATE"), None);
    assert_eq!(from_storage_name("TEXT"), None);
    assert_eq!(from_storage_name("FLOAT "), None);
}

#[test]
fn menu_lists_every_type_with_its_selector() {
    assert_eq!(menu_text(), "1) Integer 2) Float 3) Boolean 4) Timestamp");
    for t in ALL {
        let entry = format!("{}) {}", t.selector(), t.label());
        assert!(menu_text().contains(&entry));
    }
}
