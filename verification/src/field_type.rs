//! The catalog of field types: the closed set of column types an observation
//! can use, their names in the storage engine, and the menu they are chosen from.

use vstd::prelude::*;
use vstd::string::*;
use crate::error::InputError;
use crate::text::{decimal_digits, decimal_text, same_text};

verus! {

/// A column type that an observation field can have.
#[derive(Clone, Copy, Debug, PartialEq, Eq, Structural)]
pub enum FieldType {
    Integer,
    Float,
    Boolean,
    Timestamp,
}

/// How many types the catalog holds; the selectors run from 1 to this number.
pub const FIELD_TYPE_COUNT: usize = 4;

impl FieldType {
    /// The name of this type in the storage engine, as a sequence of characters.
    pub open spec fn storage_name_spec(self) -> Seq<char> {
        match self {
            FieldType::Integer => "INTEGER"@,
            FieldType::Float => "FLOAT"@,
            FieldType::Boolean => "BOOLEAN"@,
            FieldType::Timestamp => "TIMESTAMP"@,
        }
    }

    /// The name of this type in the storage engine.
    pub fn storage_name(self) -> (name: &'static str)
        ensures
            name@ == self.storage_name_spec(),
    {
        match self {
            FieldType::Integer => "INTEGER",
            FieldType::Float => "FLOAT",
            FieldType::Boolean => "BOOLEAN",
            FieldType::Timestamp => "TIMESTAMP",
        }
    }

    /// The name under which the menu shows this type, as a sequence of characters.
    pub open spec fn label_spec(self) -> Seq<char> {
        match self {
            FieldType::Integer => "Integer"@,
            FieldType::Float => "Float"@,
            FieldType::Boolean => "Boolean"@,
            FieldType::Timestamp => "Timestamp"@,
        }
    }

    /// The name under which the menu shows this type.
    pub fn label(self) -> (name: &'static str)
        ensures
            name@ == self.label_spec(),
    {
        match self {
            FieldType::Integer => "Integer",
            FieldType::Float => "Float",
            FieldType::Boolean => "Boolean",
            FieldType::Timestamp => "Timestamp",
        }
    }

    /// The place of this type in the menu, counted from 1.
    pub open spec fn selector_spec(self) -> nat {
        match self {
            FieldType::Integer => 1,
            FieldType::Float => 2,
            FieldType::Boolean => 3,
            FieldType::Timestamp => 4,
        }
    }

    /// The place of this type in the menu, counted from 1.
    pub fn selector(self) -> (n: usize)
        ensures
            n == self.selector_spec(),
            1 <= n <= FIELD_TYPE_COUNT,
    {
        match self {
            FieldType::Integer => 1,
            FieldType::Float => 2,
            FieldType::Boolean => 3,
            FieldType::Timestamp => 4,
        }
    }
}

/// The type that stands at a place of the menu, if the place exists.
pub open spec fn type_for_spec(selector: nat) -> Option<FieldType> {
    if selector == 1 {
        Some(FieldType::Integer)
    } else if selector == 2 {
        Some(FieldType::Float)
    } else if selector == 3 {
        Some(FieldType::Boolean)
    } else if selector == 4 {
        Some(FieldType::Timestamp)
    } else {
        None
    }
}

/// The type that a selector of the menu stands for. Selectors count from 1;
/// one that names no place of the menu is an `UnknownType`.
pub fn type_for(selector: usize) -> (r: Result<FieldType, InputError>)
    ensures
        match r {
            Ok(t) => type_for_spec(selector as nat) == Some(t),
            Err(e) => e == InputError::UnknownType && type_for_spec(selector as nat) is None,
        },
{
    if selector == 1 {
        Ok(FieldType::Integer)
    } else if selector == 2 {
        Ok(FieldType::Float)
    } else if selector == 3 {
        Ok(FieldType::Boolean)
    } else if selector == 4 {
        Ok(FieldType::Timestamp)
    } else {
        Err(InputError::UnknownType)
    }
}

/// The type whose storage name a declared type name is, if it is one. The
/// match is exact: a name in another spelling stands for no type.
pub open spec fn from_storage_name_spec(name: Seq<char>) -> Option<FieldType> {
    if name == FieldType::Integer.storage_name_spec() {
        Some(FieldType::Integer)
    } else if name == FieldType::Float.storage_name_spec() {
        Some(FieldType::Float)
    } else if name == FieldType::Boolean.storage_name_spec() {
        Some(FieldType::Boolean)
    } else if name == FieldType::Timestamp.storage_name_spec() {
        Some(FieldType::Timestamp)
    } else {
        None
    }
}

/// Maps a declared type name of the storage engine back to the type of the
/// catalog that it names, if any.
pub fn from_storage_name(name: &str) -> (r: Option<FieldType>)
    ensures
        r == from_storage_name_spec(name@),
{
    if same_text(name, FieldType::Integer.storage_name()) {
        Some(FieldType::Integer)
    } else if same_text(name, FieldType::Float.storage_name()) {
        Some(FieldType::Float)
    } else if same_text(name, FieldType::Boolean.storage_name()) {
        Some(FieldType::Boolean)
    } else if same_text(name, FieldType::Timestamp.storage_name()) {
        Some(FieldType::Timestamp)
    } else {
        None
    }
}

/// The menu's line for one selector: the selector, a bracket, and the label
/// of the type that the selector stands for.
pub open spec fn menu_entry_spec(selector: nat) -> Seq<char> {
    match type_for_spec(selector) {
        Some(t) => decimal_digits(selector) + ") "@ + t.label_spec(),
        None => Seq::empty(),
    }
}

/// The menu's lines for the selectors from 1 to `upto`, separated by blanks.
pub open spec fn menu_upto_spec(upto: nat) -> Seq<char>
    decreases upto,
{
    if upto == 0 {
        Seq::empty()
    } else if upto == 1 {
        menu_entry_spec(1)
    } else {
        menu_upto_spec((upto - 1) as nat) + " "@ + menu_entry_spec(upto)
    }
}

/// The text of the whole menu.
pub open spec fn menu_text_spec() -> Seq<char> {
    menu_upto_spec(FIELD_TYPE_COUNT as nat)
}

/// The text of the menu from which a field's type is chosen. It is made from
/// the selector mapping itself, so what it shows is what `type_for` accepts.
pub fn menu_text() -> (s: String)
    ensures
        s@ == menu_text_spec(),
{
    let mut s = String::new();
    let mut k: usize = 0;
    while k < FIELD_TYPE_COUNT
        invariant
            k <= FIELD_TYPE_COUNT,
            s@ == menu_upto_spec(k as nat),
        decreases FIELD_TYPE_COUNT - k,
    {
        k += 1;
        if k > 1 {
            s.append(" ");
        }
        match type_for(k) {
            Ok(t) => {
                let digits = decimal_text(k);
                s.append(digits.as_str());
                s.append(") ");
                s.append(t.label());
            },
            Err(_) => {},
        }
    }
    s
}

/// Every type stands in the menu at its own selector.
pub proof fn lemma_selector_names_its_type(t: FieldType)
    ensures
        1 <= t.selector_spec() <= FIELD_TYPE_COUNT,
        type_for_spec(t.selector_spec()) == Some(t),
{
}

/// A selector of the menu is the selector of the type that it stands for,
/// and the menu has no selectors but those from 1 to the number of types.
pub proof fn lemma_type_for_is_the_menu(selector: nat)
    ensures
        type_for_spec(selector) is Some <==> 1 <= selector <= FIELD_TYPE_COUNT,
        type_for_spec(selector) matches Some(t) ==> t.selector_spec() == selector,
{
}

/// Two field types with the same storage name are the same type.
pub proof fn lemma_storage_name_injective(a: FieldType, b: FieldType)
    requires
        a.storage_name_spec() == b.storage_name_spec(),
    ensures
        a == b,
{
    reveal_strlit("INTEGER");
    reveal_strlit("FLOAT");
    reveal_strlit("BOOLEAN");
    reveal_strlit("TIMESTAMP");
    assert("FLOAT"@.len() == 5);
    assert("BOOLEAN"@.len() == 7 && "BOOLEAN"@[0] == 'B');
    assert("TIMESTAMP"@.len() == 9);
}

/// A storage name maps back to the type that it is the name of.
pub proof fn lemma_storage_name_maps_back(t: FieldType)
    ensures
        from_storage_name_spec(t.storage_name_spec()) == Some(t),
{
    if t != FieldType::Integer {
        if FieldType::Integer.storage_name_spec() == t.storage_name_spec() {
            lemma_storage_name_injective(FieldType::Integer, t);
        }
        if t != FieldType::Float {
            if FieldType::Float.storage_name_spec() == t.storage_name_spec() {
                lemma_storage_name_injective(FieldType::Float, t);
            }
            if t != FieldType::Boolean {
                if FieldType::Boolean.storage_name_spec() == t.storage_name_spec() {
                    lemma_storage_name_injective(FieldType::Boolean, t);
                }
            }
        }
    }
}

} // verus!
