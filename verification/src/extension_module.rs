//! The wrapped value of an extension module.

use crate::attribute::{outcome_view, AttributeValue};
use crate::error::{reject, Operation, UnsupportedOperation};
use crate::kind::{Attribute, ResourceKind};
use crate::model::{ExtensionFlavorView, WrappedValueView};
use crate::order::Comparison;
use crate::resource::{ExtensionModule, ExtensionModuleData};
use vstd::prelude::*;

verus! {

/// Represents an extension module flavor.
#[derive(Debug, PartialEq, Eq)]
pub enum PythonExtensionModuleFlavor {
    /// An extension module from a Python distribution.
    Distribution(ExtensionModule),
    /// An extension module that can be statically linked.
    StaticallyLinked(ExtensionModuleData),
    /// An extension module that exists as a dynamic library.
    DynamicLibrary(ExtensionModuleData),
}

impl View for PythonExtensionModuleFlavor {
    type V = ExtensionFlavorView;

    open spec fn view(&self) -> ExtensionFlavorView {
        match self {
            PythonExtensionModuleFlavor::Distribution(m) => ExtensionFlavorView::Distribution(m@),
            PythonExtensionModuleFlavor::StaticallyLinked(m) => {
                ExtensionFlavorView::StaticallyLinked(m@)
            },
            PythonExtensionModuleFlavor::DynamicLibrary(m) => {
                ExtensionFlavorView::DynamicLibrary(m@)
            },
        }
    }
}

impl Clone for PythonExtensionModuleFlavor {
    /// A copy that shares nothing with this value.
    fn clone(&self) -> (r: PythonExtensionModuleFlavor)
        ensures
            r@ == self@,
    {
        match self {
            PythonExtensionModuleFlavor::Distribution(m) => {
                PythonExtensionModuleFlavor::Distribution(m.clone())
            },
            PythonExtensionModuleFlavor::StaticallyLinked(m) => {
                PythonExtensionModuleFlavor::StaticallyLinked(m.clone())
            },
            PythonExtensionModuleFlavor::DynamicLibrary(m) => {
                PythonExtensionModuleFlavor::DynamicLibrary(m.clone())
            },
        }
    }
}

impl PythonExtensionModuleFlavor {
    /// The name of the extension module: the module that a distribution
    /// names, or the name that a built extension module has.
    pub fn name(&self) -> (r: String)
        ensures
            r@ == self@.name(),
    {
        match self {
            PythonExtensionModuleFlavor::Distribution(m) => m.module.clone(),
            PythonExtensionModuleFlavor::StaticallyLinked(m) => m.name.clone(),
            PythonExtensionModuleFlavor::DynamicLibrary(m) => m.name.clone(),
        }
    }

    /// Compares this extension module with another: by flavor, then field by
    /// field.
    pub fn compare(&self, other: &PythonExtensionModuleFlavor) -> (r: Comparison)
        ensures
            r == self@.order(other@),
    {
        match (self, other) {
            (
                PythonExtensionModuleFlavor::Distribution(a),
                PythonExtensionModuleFlavor::Distribution(b),
            ) => a.compare(b),
            (
                PythonExtensionModuleFlavor::StaticallyLinked(a),
                PythonExtensionModuleFlavor::StaticallyLinked(b),
            ) => a.compare(b),
            (
                PythonExtensionModuleFlavor::DynamicLibrary(a),
                PythonExtensionModuleFlavor::DynamicLibrary(b),
            ) => a.compare(b),
            (PythonExtensionModuleFlavor::Distribution(_), _) => Comparison::Less,
            (_, PythonExtensionModuleFlavor::Distribution(_)) => Comparison::Greater,
            (PythonExtensionModuleFlavor::StaticallyLinked(_), _) => Comparison::Less,
            (PythonExtensionModuleFlavor::DynamicLibrary(_), _) => Comparison::Greater,
        }
    }
}

/// An extension module as a script sees it. It has the attribute `name`.
#[derive(Debug, PartialEq, Eq)]
pub struct PythonExtensionModule {
    pub em: PythonExtensionModuleFlavor,
}

impl View for PythonExtensionModule {
    type V = WrappedValueView;

    open spec fn view(&self) -> WrappedValueView {
        WrappedValueView::ExtensionModule(self.em@)
    }
}

impl Clone for PythonExtensionModule {
    /// A copy that shares nothing with this value.
    fn clone(&self) -> (r: PythonExtensionModule)
        ensures
            r@ == self@,
    {
        PythonExtensionModule { em: self.em.clone() }
    }
}

impl PythonExtensionModule {
    /// The text that this value displays as.
    pub fn to_str(&self) -> (r: String)
        ensures
            r@ == self@.display(),
    {
        let name = self.em.name();
        let mut text = "PythonExtensionModule<name=".to_owned();
        text.append(name.as_str());
        text.append(">");
        text
    }

    /// The text that represents this value: the same as it displays as.
    pub fn to_repr(&self) -> (r: String)
        ensures
            r@ == self@.display(),
    {
        self.to_str()
    }

    /// The name of the kind of this value.
    pub fn get_type(&self) -> (r: &'static str)
        ensures
            r@ == self@.kind().name_text(),
    {
        ResourceKind::ExtensionModule.name()
    }

    /// The truth value of this value: true, whatever it holds.
    pub fn to_bool(&self) -> (r: bool)
        ensures
            r,
    {
        true
    }

    /// Compares this value with another of its kind, field by field. The
    /// two compare as equal exactly when they hold the same.
    pub fn compare(&self, other: &PythonExtensionModule) -> (r: Comparison)
        ensures
            r == self@.order(other@),
            r == Comparison::Equal <==> self@ == other@,
    {
        proof {
            self@.lemma_order_equal(other@);
        }
        self.em.compare(&other.em)
    }

    /// Reads the attribute of the given name. A name that is not that of an
    /// attribute of this kind gives the error with the operator `.name`.
    pub fn get_attr(&self, attribute: &str) -> (r: Result<AttributeValue, UnsupportedOperation>)
        ensures
            outcome_view(r) == self@.get(attribute@),
    {
        match ResourceKind::ExtensionModule.find(attribute) {
            Some(Attribute::Name) => Ok(AttributeValue::Text(self.em.name())),
            _ => Err(self.reject(&Operation::GetAttribute(attribute))),
        }
    }

    /// Whether this value has an attribute of the given name.
    pub fn has_attr(&self, attribute: &str) -> (r: bool)
        ensures
            r == self@.has(attribute@),
    {
        ResourceKind::ExtensionModule.find(attribute).is_some()
    }

    /// The error for an operation that this value does not support.
    pub fn reject(&self, operation: &Operation) -> (e: UnsupportedOperation)
        ensures
            e@ == self@.refusal(operation@),
    {
        reject(operation, ResourceKind::ExtensionModule)
    }
}

} // verus!
