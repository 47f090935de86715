//! The wrapped value of a data file that belongs to a Python package.

use crate::attribute::{outcome_view, AttributeValue};
use crate::error::{reject, Operation, UnsupportedOperation};
use crate::kind::{Attribute, ResourceKind};
use crate::model::WrappedValueView;
use crate::order::Comparison;
use crate::resource::ResourceData;
use vstd::prelude::*;

verus! {

/// A data file as a script sees it. It has the attributes `package` and
/// `name`; the content itself is not to be read.
#[derive(Debug, PartialEq, Eq)]
pub struct PythonResourceData {
    pub data: ResourceData,
}

impl View for PythonResourceData {
    type V = WrappedValueView;

    open spec fn view(&self) -> WrappedValueView {
        WrappedValueView::ResourceData(self.data@)
    }
}

impl Clone for PythonResourceData {
    /// A copy that shares nothing with this value.
    fn clone(&self) -> (r: PythonResourceData)
        ensures
            r@ == self@,
    {
        PythonResourceData { data: self.data.clone() }
    }
}

impl PythonResourceData {
    /// The text that this value displays as.
    pub fn to_str(&self) -> (r: String)
        ensures
            r@ == self@.display(),
    {
        let mut text = "PythonResourceData<package=".to_owned();
        text.append(self.data.package.as_str());
        text.append(", name=");
        text.append(self.data.name.as_str());
        text.append(">");
        text
    }

    /// The text that represents this value: the same as it displays as.
    pub fn to_repr(&self) -> (r: String)
        ensures
            r@ == self@.display(),
    {
        self.to_str()
    }

    /// The name of the kind of this value.
    pub fn get_type(&self) -> (r: &'static str)
        ensures
            r@ == self@.kind().name_text(),
    {
        ResourceKind::ResourceData.name()
    }

    /// The truth value of this value: true, whatever it holds.
    pub fn to_bool(&self) -> (r: bool)
        ensures
            r,
    {
        true
    }

    /// Compares this value with another of its kind, field by field. The
    /// two compare as equal exactly when they hold the same.
    pub fn compare(&self, other: &PythonResourceData) -> (r: Comparison)
        ensures
            r == self@.order(other@),
            r == Comparison::Equal <==> self@ == other@,
    {
        proof {
            self@.lemma_order_equal(other@);
        }
        self.data.compare(&other.data)
    }

    /// Reads the attribute of the given name. A name that is not that of an
    /// attribute of this kind gives the error with the operator `.name`.
    pub fn get_attr(&self, attribute: &str) -> (r: Result<AttributeValue, UnsupportedOperation>)
        ensures
            outcome_view(r) == self@.get(attribute@),
    {
        match ResourceKind::ResourceData.find(attribute) {
            Some(Attribute::Package) => Ok(AttributeValue::Text(self.data.package.clone())),
            Some(Attribute::Name) => Ok(AttributeValue::Text(self.data.name.clone())),
            _ => Err(self.reject(&Operation::GetAttribute(attribute))),
        }
    }

    /// Whether this value has an attribute of the given name.
    pub fn has_attr(&self, attribute: &str) -> (r: bool)
        ensures
            r == self@.has(attribute@),
    {
        ResourceKind::ResourceData.find(attribute).is_some()
    }

    /// The error for an operation that this value does not support.
    pub fn reject(&self, operation: &Operation) -> (e: UnsupportedOperation)
        ensures
            e@ == self@.refusal(operation@),
    {
        reject(operation, ResourceKind::ResourceData)
    }
}

} // verus!
