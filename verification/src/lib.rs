//! Compile-time code generation for a class-like object framework.
//!
//! A record declaration (a named-field composite type opted in by its
//! author) is validated for shape and for a deterministic-layout marker,
//! and then turned into one of two generated source fragments: the
//! registration glue that ties the record into the framework's global
//! type registry, or a field table that preserves the record's fields
//! for downstream offset computation. On any validation failure a single
//! diagnostic is produced instead, located at the record's identifier.

pub mod decl;
pub mod diag;
pub mod fragment;
pub mod laws;
pub mod object;
pub mod offsets;
pub mod validate;

pub use decl::FieldDecl;
pub use decl::FieldVisibility;
pub use decl::RecordData;
pub use decl::RecordDecl;
pub use diag::Diagnostic;
pub use diag::ErrorKind;
pub use fragment::DeriveOutput;
pub use fragment::Fragment;
pub use object::derive_object;
pub use offsets::derive_offsets;
