//! Generation of type definitions from an API specification's type tree.
//!
//! `model` holds the input tree, `decl` the declaration tree that a type
//! generates, `render` its source text, and `generate` the executable
//! generator, whose output is proved to be that text. `laws` states the
//! properties of generation that callers may rely on.

pub mod decl;
pub mod generate;
pub mod laws;
pub mod model;
pub mod naming;
pub mod order;
pub mod render;
pub mod util;

pub use generate::{check_gen_primitive, find_literal, format_outcome, gen_one_type, generate_types, render_types};
pub use model::{FieldEntry, NamedType, PrimKind, SpecDoc, SpecType, TupleEntry};
pub use naming::push_decimal;
pub use order::index_order_exec;
pub use render::DocLiteral;
pub use util::{QDoc, QId, QNamedField, QNamedStruct, QType, QTypeDef, QVis};
