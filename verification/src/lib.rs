//! Composition of account contexts.
//!
//! An account context is a set of named fields that a program reads from an
//! ordered list of account handles. It is described by a [`Schema`]: the
//! fields in declaration order, each with what stands for its type. The
//! procedures that work on the context as a whole are composed from what
//! the type of each field can do on its own, and this crate composes them
//! in two ways.
//!
//! # At run time
//!
//! Where the schema holds implementations of the [`FieldCapability`]
//! interface, [`FromAccounts`] is the context as a whole:
//!
//! - `parse` materializes an [`Instance`] from the entries in front of a
//!   [`Cursor`];
//! - `count` tells how many entries such a parse takes;
//! - `serialize_to_metadata` emits the call metadata for a nested call and
//!   checks that it has as many entries as the context counts for;
//! - `persist` writes the values of an instance back to their storage;
//! - `dependencies` lists what the fields depend on.
//!
//! Every procedure visits the fields in declaration order and threads one
//! piece of state through them: the cursor, or the storage. The first field
//! that fails ends the procedure; its error is returned as it is, no later
//! field is visited, and nothing is rolled back.
//!
//! The module [`model`] defines what each procedure comes to over the
//! specification functions of the fields, and the module [`laws`] proves
//! what follows for every schema. Fields of different kinds share one
//! capability type, typically an enum; [`Scripted`] is a capability whose
//! behaviour is plain data.
//!
//! # As source text
//!
//! Where the schema holds references to types that implement `Peel` of the
//! `solitaire` runtime, [`derive_from_accounts`] writes the same procedures
//! out as the source of an implementation for the struct that a
//! [`Definition`] describes. The module [`codegen`] says what is written,
//! statement by statement.

pub mod capability;
pub mod codegen;
pub mod compose;
pub mod cursor;
pub mod error;
pub mod instance;
pub mod laws;
pub mod model;
pub mod schema;
pub mod scripted;

pub use crate::capability::{FieldCapability, Outcome, Written};
pub use crate::codegen::{
    derive_from_accounts, generate_deps_fields, generate_from, generate_persist,
    generate_size_in_accounts, generate_to_cpi_metas, Definition, TypeParam,
};
pub use crate::compose::{check_emitted, FromAccounts};
pub use crate::cursor::{Cursor, CursorView};
pub use crate::error::SerializeError;
pub use crate::instance::Instance;
pub use crate::schema::{Schema, SchemaError};
pub use crate::scripted::{Entry, Fault, Scripted};
