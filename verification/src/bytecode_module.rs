//! The wrapped value of a Python module to be compiled to bytecode.

use crate::attribute::{outcome_view, AttributeValue};
use crate::error::{reject, Operation, UnsupportedOperation};
use crate::kind::{Attribute, ResourceKind};
use crate::model::WrappedValueView;
use crate::order::Comparison;
use crate::resource::BytecodeModule;
use vstd::prelude::*;

verus! {

/// A bytecode module as a script sees it. It has the attributes `name`,
/// `optimize_level` (0, 1 or 2) and `is_package`; the source code itself is
/// not to be read.
#[derive(Debug, PartialEq, Eq)]
pub struct PythonBytecodeModule {
    pub module: BytecodeModule,
}

impl View for PythonBytecodeModule {
    type V = WrappedValueView;

    open spec fn view(&self) -> WrappedValueView {
        WrappedValueView::BytecodeModule(self.module@)
    }
}

impl Clone for PythonBytecodeModule {
    /// A copy that shares nothing with this value.
    fn clone(&self) -> (r: PythonBytecodeModule)
        ensures
            r@ == self@,
    {
        PythonBytecodeModule { module: self.module.clone() }
    }
}

impl PythonBytecodeModule {
    /// The text that this value displays as.
    pub fn to_str(&self) -> (r: String)
        ensures
            r@ == self@.display(),
    {
        let mut text = "PythonBytecodeModule<name=".to_owned();
        text.append(self.module.name.as_str());
        text.append("; level=");
        text.append(self.module.optimize_level.label());
        text.append(">");
        text
    }

    /// The text that represents this value: the same as it displays as.
    pub fn to_repr(&self) -> (r: String)
        ensures
            r@ == self@.display(),
    {
        self.to_str()
    }

    /// The name of the kind of this value.
    pub fn get_type(&self) -> (r: &'static str)
        ensures
            r@ == self@.kind().name_text(),
    {
        ResourceKind::BytecodeModule.name()
    }

    /// The truth value of this value: true, whatever it holds.
    pub fn to_bool(&self) -> (r: bool)
        ensures
            r,
    {
        true
    }

    /// Compares this value with another of its kind, field by field. The
    /// two compare as equal exactly when they hold the same.
    pub fn compare(&self, other: &PythonBytecodeModule) -> (r: Comparison)
        ensures
            r == self@.order(other@),
            r == Comparison::Equal <==> self@ == other@,
    {
        proof {
            self@.lemma_order_equal(other@);
        }
        self.module.compare(&other.module)
    }

    /// Reads the attribute of the given name. A name that is not that of an
    /// attribute of this kind gives the error with the operator `.name`.
    pub fn get_attr(&self, attribute: &str) -> (r: Result<AttributeValue, UnsupportedOperation>)
        ensures
            outcome_view(r) == self@.get(attribute@),
    {
        match ResourceKind::BytecodeModule.find(attribute) {
            Some(Attribute::Name) => Ok(AttributeValue::Text(self.module.name.clone())),
            Some(Attribute::OptimizeLevel) => Ok(
                AttributeValue::Integer(self.module.optimize_level.to_int()),
            ),
            Some(Attribute::IsPackage) => Ok(AttributeValue::Boolean(self.module.is_package)),
            _ => Err(self.reject(&Operation::GetAttribute(attribute))),
        }
    }

    /// Whether this value has an attribute of the given name.
    pub fn has_attr(&self, attribute: &str) -> (r: bool)
        ensures
            r == self@.has(attribute@),
    {
        ResourceKind::BytecodeModule.find(attribute).is_some()
    }

    /// The error for an operation that this value does not support.
    pub fn reject(&self, operation: &Operation) -> (e: UnsupportedOperation)
        ensures
            e@ == self@.refusal(operation@),
    {
        reject(operation, ResourceKind::BytecodeModule)
    }
}

} // verus!
