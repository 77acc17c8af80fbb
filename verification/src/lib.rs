//! Verified core of the pliron Python bindings: the reflect-envelope grammar,
//! the Rust-type classification that drives the generated Python surface, the
//! naming and planning rules of the code generators, and the runtime state
//! machines of the binding layer.

pub mod text;
pub mod tokens;
pub mod syntax;
pub mod envelope;
pub mod reflect;
pub mod rust_type;
pub mod method_plan;
pub mod class_plan;
pub mod derive_plan;
pub mod entity_name;
pub mod registration;
pub mod active_context;
pub mod builtin_types;
pub mod py_map;
pub mod callbacks;
