//! Maps record types to rows of an SQLite table.
//!
//! A record type is described by [`syntax::DeriveInput`]; the attribute resolver turns it
//! into a [`mapping::Derivee`], from which the column mapping, the insertion statements for
//! every conflict policy, the decode and bind plans, the metadata and the schema check are
//! derived.

pub mod attrs;
pub mod codec;
pub mod codegen;
pub mod conformance;
pub mod laws;
pub mod mapping;
pub mod sql_enum;
pub mod syntax;

pub use attrs::{
    get_bind_path, get_check_path, get_col_name, get_extr_path, get_table_name, resolve, ConfigError,
};
pub use codegen::{
    check_test, derive_model, from_row, inserts, metadata, schema_check, to_params, CheckTest, Derived, Getter,
    InsertPlan, ModelMeta, NamedParam, ParamPlan, Read,
};
pub use codec::{decode_outcome, encode_outcome, DecodeError, EncodeError};
pub use conformance::{check_columns, ConformanceError};
pub use mapping::{Derivee, FieldMapping, OnConflict};
pub use sql_enum::discriminant_index;
pub use syntax::{Attribute, Data, DeriveInput, Field, Fields};
