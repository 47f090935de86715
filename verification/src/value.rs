//! A wrapped value of any kind, and the way from a resource to its wrapped
//! value.

use crate::attribute::{outcome_view, AttributeValue};
use crate::bytecode_module::PythonBytecodeModule;
use crate::error::{Operation, UnsupportedConversion, UnsupportedOperation};
use crate::extension_module::{PythonExtensionModule, PythonExtensionModuleFlavor};
use crate::kind::ResourceKind;
use crate::model::{wrap, WrappedValueView};
use crate::order::{compare_text, Comparison};
use crate::resource::{
    BytecodeModule, BytecodeOptimizationLevel, PythonResource, ResourceData, SourceModule,
};
use crate::resource_data::PythonResourceData;
use crate::source_module::PythonSourceModule;
use vstd::prelude::*;

verus! {

/// A wrapped value: what a script holds for one resource.
#[derive(Debug, PartialEq, Eq)]
pub enum WrappedValue {
    SourceModule(PythonSourceModule),
    BytecodeModule(PythonBytecodeModule),
    ResourceData(PythonResourceData),
    ExtensionModule(PythonExtensionModule),
}

impl View for WrappedValue {
    type V = WrappedValueView;

    open spec fn view(&self) -> WrappedValueView {
        match self {
            WrappedValue::SourceModule(value) => value@,
            WrappedValue::BytecodeModule(value) => value@,
            WrappedValue::ResourceData(value) => value@,
            WrappedValue::ExtensionModule(value) => value@,
        }
    }
}

impl Clone for WrappedValue {
    /// A copy that shares nothing with this value.
    fn clone(&self) -> (r: WrappedValue)
        ensures
            r@ == self@,
    {
        match self {
            WrappedValue::SourceModule(value) => WrappedValue::SourceModule(value.clone()),
            WrappedValue::BytecodeModule(value) => WrappedValue::BytecodeModule(value.clone()),
            WrappedValue::ResourceData(value) => WrappedValue::ResourceData(value.clone()),
            WrappedValue::ExtensionModule(value) => WrappedValue::ExtensionModule(value.clone()),
        }
    }
}

impl WrappedValue {
    /// The kind of this value.
    pub fn kind(&self) -> (r: ResourceKind)
        ensures
            r == self@.kind(),
    {
        match self {
            WrappedValue::SourceModule(_) => ResourceKind::SourceModule,
            WrappedValue::BytecodeModule(_) => ResourceKind::BytecodeModule,
            WrappedValue::ResourceData(_) => ResourceKind::ResourceData,
            WrappedValue::ExtensionModule(_) => ResourceKind::ExtensionModule,
        }
    }

    /// The text that this value displays as.
    pub fn to_str(&self) -> (r: String)
        ensures
            r@ == self@.display(),
    {
        match self {
            WrappedValue::SourceModule(value) => value.to_str(),
            WrappedValue::BytecodeModule(value) => value.to_str(),
            WrappedValue::ResourceData(value) => value.to_str(),
            WrappedValue::ExtensionModule(value) => value.to_str(),
        }
    }

    /// The text that represents this value: the same as it displays as.
    pub fn to_repr(&self) -> (r: String)
        ensures
            r@ == self@.display(),
    {
        self.to_str()
    }

    /// The name of the kind of this value.
    pub fn get_type(&self) -> (r: &'static str)
        ensures
            r@ == self@.kind().name_text(),
    {
        self.kind().name()
    }

    /// The truth value of this value: true, whatever it holds.
    pub fn to_bool(&self) -> (r: bool)
        ensures
            r,
    {
        true
    }

    /// Compares this value with another: values of one kind field by field,
    /// values of different kinds by the names of their kinds. The two compare
    /// as equal exactly when they are of one kind and hold the same.
    pub fn compare(&self, other: &WrappedValue) -> (r: Comparison)
        ensures
            r == self@.order(other@),
            r == Comparison::Equal <==> self@ == other@,
    {
        proof {
            self@.lemma_order_equal(other@);
        }
        match (self, other) {
            (WrappedValue::SourceModule(a), WrappedValue::SourceModule(b)) => a.compare(b),
            (WrappedValue::BytecodeModule(a), WrappedValue::BytecodeModule(b)) => a.compare(b),
            (WrappedValue::ResourceData(a), WrappedValue::ResourceData(b)) => a.compare(b),
            (WrappedValue::ExtensionModule(a), WrappedValue::ExtensionModule(b)) => a.compare(b),
            _ => compare_text(self.get_type(), other.get_type()),
        }
    }

    /// Reads the attribute of the given name. A name that is not that of an
    /// attribute of this kind gives the error with the operator `.name`.
    pub fn get_attr(&self, attribute: &str) -> (r: Result<AttributeValue, UnsupportedOperation>)
        ensures
            outcome_view(r) == self@.get(attribute@),
    {
        match self {
            WrappedValue::SourceModule(value) => value.get_attr(attribute),
            WrappedValue::BytecodeModule(value) => value.get_attr(attribute),
            WrappedValue::ResourceData(value) => value.get_attr(attribute),
            WrappedValue::ExtensionModule(value) => value.get_attr(attribute),
        }
    }

    /// Whether this value has an attribute of the given name.
    pub fn has_attr(&self, attribute: &str) -> (r: bool)
        ensures
            r == self@.has(attribute@),
    {
        match self {
            WrappedValue::SourceModule(value) => value.has_attr(attribute),
            WrappedValue::BytecodeModule(value) => value.has_attr(attribute),
            WrappedValue::ResourceData(value) => value.has_attr(attribute),
            WrappedValue::ExtensionModule(value) => value.has_attr(attribute),
        }
    }

    /// The error for an operation that this value does not support.
    pub fn reject(&self, operation: &Operation) -> (e: UnsupportedOperation)
        ensures
            e@ == self@.refusal(operation@),
    {
        match self {
            WrappedValue::SourceModule(value) => value.reject(operation),
            WrappedValue::BytecodeModule(value) => value.reject(operation),
            WrappedValue::ResourceData(value) => value.reject(operation),
            WrappedValue::ExtensionModule(value) => value.reject(operation),
        }
    }
}

/// What the outcome of wrapping a resource holds.
pub open spec fn conversion_view(outcome: Result<WrappedValue, UnsupportedConversion>) -> Result<
    WrappedValueView,
    UnsupportedConversion,
> {
    match outcome {
        Ok(value) => Ok(value@),
        Err(error) => Err(error),
    }
}

/// Wraps a resource for a script. The wrapped value holds copies of the
/// resource's fields and nothing of the resource itself. A module given as
/// bytecode has no wrapped value, nor has a request for bytecode at a level
/// other than 0, 1 and 2.
pub fn to_scripting_value(resource: &PythonResource) -> (r: Result<
    WrappedValue,
    UnsupportedConversion,
>)
    ensures
        conversion_view(r) == wrap(resource@),
{
    match resource {
        PythonResource::ModuleSource { name, source, is_package } => Ok(
            WrappedValue::SourceModule(
                PythonSourceModule {
                    module: SourceModule {
                        name: name.clone(),
                        source: source.clone(),
                        is_package: *is_package,
                    },
                },
            ),
        ),
        PythonResource::ModuleBytecodeRequest { name, source, optimize_level, is_package } => {
            match BytecodeOptimizationLevel::from_int(*optimize_level) {
                Some(level) => Ok(
                    WrappedValue::BytecodeModule(
                        PythonBytecodeModule {
                            module: BytecodeModule {
                                name: name.clone(),
                                source: source.clone(),
                                optimize_level: level,
                                is_package: *is_package,
                            },
                        },
                    ),
                ),
                None => Err(UnsupportedConversion::OptimizationLevel(*optimize_level)),
            }
        },
        PythonResource::ModuleBytecode { .. } => Err(UnsupportedConversion::CompiledBytecode),
        PythonResource::Resource { package, name, data } => Ok(
            WrappedValue::ResourceData(
                PythonResourceData {
                    data: ResourceData {
                        package: package.clone(),
                        name: name.clone(),
                        data: data.clone(),
                    },
                },
            ),
        ),
        PythonResource::ExtensionModuleDynamicLibrary(em) => Ok(
            WrappedValue::ExtensionModule(
                PythonExtensionModule { em: PythonExtensionModuleFlavor::DynamicLibrary(em.clone()) },
            ),
        ),
        PythonResource::ExtensionModuleStaticallyLinked(em) => Ok(
            WrappedValue::ExtensionModule(
                PythonExtensionModule {
                    em: PythonExtensionModuleFlavor::StaticallyLinked(em.clone()),
                },
            ),
        ),
    }
}

} // verus!
