//! Derivation of the checksum and packed-layout marker implementations from
//! the static shape of a type declaration.
//!
//! The input is a [`decl::TypeDecl`], a plain description of a declaration
//! (its name, generic parameters, where-predicates, attributes and body).
//! The output is a [`derive::Artifact`]: either an implementation block,
//! described structurally, or a diagnostic message.
pub mod decl;
pub mod bounds;
pub mod layout;
pub mod derive;
pub mod laws;
