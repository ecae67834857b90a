//! Reads the `derivative` annotations of a type and of its fields into typed,
//! validated configuration records.
//!
//! An annotation arrives as an [`Attribute`]: the attribute's path and, where
//! its tokens have the conventional shape, their structured reading. The
//! namespace's blocks are brought to one canonical form ([`meta::read_meta`]),
//! dispatched on the capability they name ([`dispatch::parse_attributes`]) and
//! their options folded, one by one, into the capability's record
//! ([`options::parse_options`]). Bounds, function paths and default values are
//! written in Rust's own syntax and are parsed by `syn`.
//!
//! [`Input::from_ast`] gives the configuration of a type and
//! [`Field::from_ast`] that of a field. What holds of every declaration is
//! stated and proved in [`laws`].

pub mod syntax;
pub mod text;
pub mod failure;
pub mod meta;
pub mod options;
pub mod dispatch;
pub mod input;
pub mod field;
pub mod laws;
pub mod order;

pub use field::{Field, FieldClone, FieldDebug, FieldDefault, FieldHash, FieldPartialEq};
pub use input::{
    Input, InputClone, InputCopy, InputDebug, InputDefault, InputEq, InputHash, InputPartialEq,
};
pub use meta::{AttrPath, Attribute, CanonicalMeta, Lit, Meta, NestedMeta, PathSegment};
