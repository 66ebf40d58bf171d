//! Schema-driven builder of parameterized SQL fragments.
//!
//! A declarative entity definition — an ordered list of named, typed fields,
//! each carrying a mutation-policy tag — is compiled into a [`schema::Schema`].
//! From a compiled schema the five derived artifacts (column enumerator,
//! single-field patch, insert row, update row and filter row) are constructed;
//! each one emits SQL text tokens together with positional placeholders and
//! binds its values in exactly the order the placeholders demand.

pub mod envelope;
pub mod field;
pub mod fragment;
pub mod laws;
pub mod patch;
pub mod rows;
pub mod schema;
