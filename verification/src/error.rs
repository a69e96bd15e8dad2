//! The errors of the library, by the component that reports them.

use vstd::prelude::*;
use vstd::string::*;

verus! {

/// An input that a step of the wizard cannot accept. The wizard keeps its
/// step and asks again.
#[derive(Clone, Copy, Debug, PartialEq, Eq, Structural)]
pub enum InputError {
    /// A name was confirmed while the input buffer was empty.
    EmptyName,
    /// The field count is not a decimal number below the bound.
    InvalidCount,
    /// The selector stands for no type of the catalog.
    UnknownType,
}

/// A schema that cannot be turned into a table definition.
#[derive(Clone, Copy, Debug, PartialEq, Eq, Structural)]
pub enum SchemaError {
    /// The schema has no field at all.
    EmptySchema,
    /// The schema's name or the name of one of its fields is no bare identifier.
    InvalidIdentifier,
    /// Two fields of the schema have the same name.
    DuplicateField,
}

/// A failure of the store: the connection could not be made, or the
/// statement was not carried out. It holds the store's own message.
#[derive(Clone, Debug, PartialEq, Eq)]
pub struct StorageError {
    pub message: String,
}

impl View for StorageError {
    type V = Seq<char>;

    /// The message.
    open spec fn view(&self) -> Seq<char> {
        self.message@
    }
}

/// A failure of the schema catalog reader.
#[derive(Clone, Copy, Debug, PartialEq, Eq, Structural)]
pub enum CatalogError {
    /// The store has no table of the name asked for.
    TableNotFound,
}

} // verus!
