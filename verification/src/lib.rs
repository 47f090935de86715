//! Immutable, introspectable values that stand for the resources a Python
//! packaging run has found, as an embedded configuration language sees them.
//!
//! A [`PythonResource`] describes one resource. [`to_scripting_value`] turns
//! it into a [`WrappedValue`] of one of four kinds, which owns a copy of the
//! resource's fields. A wrapped value has a type name, a text that it
//! displays as, a truth value (always true), an order among wrapped values
//! and a fixed set of attributes that can be read by name. Everything else a
//! script may try on it ends in an [`UnsupportedOperation`].
//!
//! The module [`model`] says what all of this means, [`laws`] what follows.

pub mod attribute;
pub mod bytecode_module;
pub mod error;
pub mod extension_module;
pub mod kind;
pub mod laws;
pub mod model;
pub mod order;
pub mod resource;
pub mod resource_data;
pub mod scripting;
pub mod source_module;
pub mod value;

pub use crate::attribute::AttributeValue;
pub use crate::bytecode_module::PythonBytecodeModule;
pub use crate::error::{Operation, UnsupportedConversion, UnsupportedOperation};
pub use crate::extension_module::{PythonExtensionModule, PythonExtensionModuleFlavor};
pub use crate::kind::{Attribute, AttributeType, ResourceKind};
pub use crate::order::Comparison;
pub use crate::resource::{
    BytecodeModule, BytecodeOptimizationLevel, ExtensionModule, ExtensionModuleData,
    PythonResource, ResourceData, SourceModule,
};
pub use crate::resource_data::PythonResourceData;
pub use crate::source_module::PythonSourceModule;
pub use crate::value::{to_scripting_value, WrappedValue};
