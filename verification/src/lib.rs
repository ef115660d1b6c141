//! Argument binding for native built-in functions of a scanning engine's
//! scripting language.
//!
//! Script call sites pass arguments dynamically, by position or by name,
//! while built-in functions are statically typed. This crate provides the
//! bridge: at build time a declared parameter list and its binding
//! annotations are analyzed into a [`bindspec::FunctionBindingSpec`], from
//! which a binding prologue (one resolver step per parameter) is generated;
//! at run time each step is resolved against the call's
//! [`register::Register`], producing a typed value or a classified error.

pub mod attrparse;
pub mod bind;
pub mod bindspec;
pub mod error;
pub mod generate;
pub mod laws;
pub mod register;
pub mod resolve;
pub mod ssh;
pub mod strutil;
pub mod value;

pub use bindspec::BindingKind;
pub use bindspec::FunctionBindingSpec;
pub use bindspec::ParameterSpec;
pub use error::BuildError;
pub use error::FnError;
pub use error::ResolutionError;
pub use generate::BindingStep;
pub use register::Register;
pub use value::NaslValue;
pub use value::ValueType;
