//! What reading an attribute of a wrapped value gives.

use crate::error::{UnsupportedOperation, UnsupportedOperationView};
use crate::kind::AttributeType;
use vstd::prelude::*;

verus! {

/// The value of an attribute.
#[derive(Debug, PartialEq, Eq)]
pub enum AttributeValue {
    Text(String),
    Boolean(bool),
    Integer(i64),
}

/// What the value of an attribute holds.
pub enum AttributeValueView {
    Text(Seq<char>),
    Boolean(bool),
    Integer(int),
}

impl View for AttributeValue {
    type V = AttributeValueView;

    open spec fn view(&self) -> AttributeValueView {
        match self {
            AttributeValue::Text(text) => AttributeValueView::Text(text@),
            AttributeValue::Boolean(truth) => AttributeValueView::Boolean(*truth),
            AttributeValue::Integer(number) => AttributeValueView::Integer(*number as int),
        }
    }
}

impl AttributeValueView {
    /// What kind of value this is.
    pub open spec fn value_type(self) -> AttributeType {
        match self {
            AttributeValueView::Text(_) => AttributeType::Text,
            AttributeValueView::Boolean(_) => AttributeType::Boolean,
            AttributeValueView::Integer(_) => AttributeType::Integer,
        }
    }
}

impl AttributeValue {
    /// What kind of value this is.
    pub fn value_type(&self) -> (r: AttributeType)
        ensures
            r == self@.value_type(),
    {
        match self {
            AttributeValue::Text(_) => AttributeType::Text,
            AttributeValue::Boolean(_) => AttributeType::Boolean,
            AttributeValue::Integer(_) => AttributeType::Integer,
        }
    }
}

/// What the outcome of reading an attribute holds.
pub open spec fn outcome_view(outcome: Result<AttributeValue, UnsupportedOperation>) -> Result<
    AttributeValueView,
    UnsupportedOperationView,
> {
    match outcome {
        Ok(value) => Ok(value@),
        Err(error) => Err(error@),
    }
}

} // verus!
