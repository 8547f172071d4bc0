//! The declarations that the extractor hands over: functions, structs,
//! enums and traits, each with an identifier, a name and a visibility.

pub mod format;
pub mod rust_enum;
pub mod rust_function;
pub mod rust_impl;
pub mod rust_struct;
pub mod rust_trait;
pub mod rust_type;
pub mod type_ref;
pub mod visibility;

pub use format::handle_pretty_print_result;
pub use rust_enum::RustEnum;
pub use rust_function::{FunctionBody, LineColumn, RustFunction};
pub use rust_impl::RustImpl;
pub use rust_struct::RustStruct;
pub use rust_trait::RustTrait;
pub use rust_type::RustType;
pub use type_ref::{TypeRef, TypeShape};
pub use visibility::Visibility;
