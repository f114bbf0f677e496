//! Generators for literal-construction macros.
//!
//! Given the declaration of a struct, each generator derives the source text
//! of a declarative macro that builds a value of that struct from a literal
//! list of elements: the macro's expansion constructs a fresh instance with a
//! zero-argument `new` and then hands every element, in the written order, to
//! the variant's mutation method (`push`, `push_front`, `insert`, or a
//! two-argument `insert`).
//!
//! The crate models the whole pipeline: deriving the macro's name from the
//! type's name (a case-fold/word-split transform), rejecting declarations
//! that are not plain structs, rendering the macro definition, and the
//! call-for-call meaning of an expansion of the generated macro.

pub mod decl;
pub mod derive;
pub mod expand;
pub mod name;
pub mod template;

pub use decl::Decl;
pub use decl::DeriveError;
pub use decl::Shape;
pub use derive::build_def;
pub use derive::derive_map_lit;
pub use derive::derive_set_lit;
pub use derive::derive_vec_front_lit;
pub use derive::derive_vec_lit;
pub use name::derive_macro_name;
pub use template::MacroDef;
pub use template::Variant;
