//! Generator for "typestate builder" source text.
//!
//! Given a declarative descriptor of a record type (its fields, which of
//! them are mandatory, their marker-type names, initializers and optional
//! interface bindings), the library emits the full source of a builder
//! whose compile-time type signature tracks which mandatory fields have
//! been supplied: each mandatory field's setter advances exactly one
//! marker from `No` to `Yes`, and a completion block is only well-formed
//! once every marker is `Yes`.

pub mod model;
pub mod calc;
pub mod emit;
pub mod laws;

pub use model::ConstructorField;
pub use model::Field;
pub use model::GenError;
pub use model::Struct;
pub use model::YesNo;
pub use calc::calculate_type;
pub use calc::calculate_constructor_parameters;
pub use calc::calculate_type_description;
pub use calc::calculate_type_description_all;
pub use calc::calculate_where;
pub use emit::generate;
