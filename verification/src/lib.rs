//! Observation tracking: defining observation record types step by step and
//! binding them to table definitions of the persisted store.
//!
//! An observation is a named record type with an ordered list of typed
//! fields. The wizard in [`app`] collects one from the user's inputs, one
//! step at a time; [`compiler`] turns the finished definition into the
//! request that creates its table; [`catalog`] reads the definitions of
//! existing tables back. The library neither draws nor stores: it describes
//! what to show ([`screen`]) and hands out what to send.

pub mod app;
pub mod catalog;
pub mod compiler;
pub mod error;
pub mod field_type;
pub mod input;
pub mod schema;
pub mod screen;
pub mod text;
pub mod wizard;

pub use crate::app::{Action, App, Notice};
pub use crate::compiler::{compile, CreateTableRequest};
pub use crate::field_type::FieldType;
pub use crate::schema::{FieldDefinition, ObservationSchema};
pub use crate::wizard::{AppState, InputEvent, Step};
