//! Attribute values and errors as values of the scripting language itself.
//!
//! The scripting language is Starlark, in the implementation of the
//! `starlark` crate. What this module says of that crate's values is taken
//! from its source and is not proved here. The values made here are strings,
//! booleans and integers, which that crate never changes once they are made;
//! what is said of one holds for as long as it lives.

use crate::attribute::{outcome_view, AttributeValue, AttributeValueView};
use crate::error::{UnsupportedOperation, UnsupportedOperationView};
use crate::order::optional_text;
use crate::resource::copy_optional_text;
use crate::value::WrappedValue;
use starlark::values::{Value, ValueError};
use vstd::prelude::*;

verus! {

/// `starlark::values::Value`, a value of the scripting language. Nothing is
/// known of one but what the functions below say.
#[verifier::external_type_specification]
#[verifier::external_body]
pub struct ExValue(Value);

/// `starlark::values::ValueError`, an error of the scripting language.
#[verifier::external_type_specification]
#[verifier::external_body]
pub struct ExValueError(ValueError);

/// The name of the scripting type of a value: what `Value::get_type` returns.
pub uninterp spec fn value_type_name(value: Value) -> Seq<char>;

/// The text that a value prints as: what `Value::to_str` returns.
pub uninterp spec fn value_text(value: Value) -> Seq<char>;

/// The integer that a value converts to, if it converts to one: what
/// `Value::to_int` returns, with `None` for its error.
pub uninterp spec fn value_int(value: Value) -> Option<int>;

/// The operator, the left type and the right type of an error, where the
/// error is `ValueError::OperationNotSupported`.
pub uninterp spec fn not_supported_parts(error: ValueError) -> Option<
    (Seq<char>, Seq<char>, Option<Seq<char>>),
>;

/// `Value::new` on a `String`. By the crate's `impl TypedValue for String`
/// the result is of the scripting type `string` and prints as the string
/// itself.
#[verifier::external_body]
fn new_text_value(text: String) -> (value: Value)
    ensures
        value_type_name(value) == "string"@,
        value_text(value) == text@,
{
    Value::new(text)
}

/// `Value::new` on a `bool`. By the crate's `impl TypedValue for bool` the
/// result is of the scripting type `bool` and converts to the integer 1
/// where it is true and to 0 where it is false.
#[verifier::external_body]
fn new_boolean_value(truth: bool) -> (value: Value)
    ensures
        value_type_name(value) == "bool"@,
        value_int(value) == Some(
            if truth {
                1int
            } else {
                0int
            },
        ),
{
    Value::new(truth)
}

/// `Value::new` on an `i64`. By the crate's `impl TypedValue for i64` the
/// result is of the scripting type `int` and converts to the integer itself.
#[verifier::external_body]
fn new_integer_value(number: i64) -> (value: Value)
    ensures
        value_type_name(value) == "int"@,
        value_int(value) == Some(number as int),
{
    Value::new(number)
}

/// The variant `ValueError::OperationNotSupported`, made of its three
/// fields, which it holds as they are given.
#[verifier::external_body]
fn new_not_supported_error(op: String, left: String, right: Option<String>) -> (error: ValueError)
    ensures
        not_supported_parts(error) == Some((op@, left@, optional_text(right))),
{
    ValueError::OperationNotSupported { op, left, right }
}

/// Whether a scripting value stands for an attribute value: a text is a
/// `string` that prints as the text, a truth value is a `bool` and a number
/// is an `int`, each of which converts to the matching integer.
pub open spec fn represents(value: Value, attribute: AttributeValueView) -> bool {
    match attribute {
        AttributeValueView::Text(text) => {
            &&& value_type_name(value) == "string"@
            &&& value_text(value) == text
        },
        AttributeValueView::Boolean(truth) => {
            &&& value_type_name(value) == "bool"@
            &&& value_int(value) == Some(
                if truth {
                    1int
                } else {
                    0int
                },
            )
        },
        AttributeValueView::Integer(number) => {
            &&& value_type_name(value) == "int"@
            &&& value_int(value) == Some(number)
        },
    }
}

/// A scripting value stands for at most one attribute value.
pub proof fn law_represents_one(value: Value, a: AttributeValueView, b: AttributeValueView)
    requires
        represents(value, a),
        represents(value, b),
    ensures
        a == b,
{
    reveal_strlit("string");
    reveal_strlit("bool");
    reveal_strlit("int");
    assert("string"@.len() == 6);
    assert("bool"@.len() == 4);
    assert("int"@.len() == 3);
}

impl AttributeValue {
    /// This value as a value of the scripting language.
    pub fn to_value(&self) -> (value: Value)
        ensures
            represents(value, self@),
    {
        match self {
            AttributeValue::Text(text) => new_text_value(text.clone()),
            AttributeValue::Boolean(truth) => new_boolean_value(*truth),
            AttributeValue::Integer(number) => new_integer_value(*number),
        }
    }
}

impl UnsupportedOperation {
    /// This error as an error of the scripting language.
    pub fn to_value_error(&self) -> (error: ValueError)
        ensures
            not_supported_parts(error) == Some((self@.op, self@.left, self@.right)),
    {
        new_not_supported_error(
            self.op.clone(),
            self.left.clone(),
            copy_optional_text(&self.right),
        )
    }
}

/// Whether the outcome of reading an attribute, in the scripting language's
/// own types, stands for the given outcome: a value for a value, and for an
/// error the error that holds the same operator and types.
pub open spec fn represents_outcome(
    scripted: Result<Value, ValueError>,
    outcome: Result<AttributeValueView, UnsupportedOperationView>,
) -> bool {
    match (scripted, outcome) {
        (Ok(value), Ok(attribute)) => represents(value, attribute),
        (Err(error), Err(unsupported)) => not_supported_parts(error) == Some(
            (unsupported.op, unsupported.left, unsupported.right),
        ),
        _ => false,
    }
}

/// The outcome of reading an attribute as the scripting language wants it:
/// a value for a value, an error for an error.
pub fn to_value_result(outcome: &Result<AttributeValue, UnsupportedOperation>) -> (scripted: Result<
    Value,
    ValueError,
>)
    ensures
        represents_outcome(scripted, outcome_view(*outcome)),
{
    match outcome {
        Ok(attribute) => Ok(attribute.to_value()),
        Err(unsupported) => Err(unsupported.to_value_error()),
    }
}

impl WrappedValue {
    /// Reads the attribute of the given name for a script: what
    /// [`WrappedValue::get_attr`] gives, in the scripting language's own
    /// types.
    pub fn get_attr_value(&self, attribute: &str) -> (scripted: Result<Value, ValueError>)
        ensures
            represents_outcome(scripted, self@.get(attribute@)),
    {
        to_value_result(&self.get_attr(attribute))
    }
}

} // verus!
