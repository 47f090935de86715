//! What holds of every wrapped value, whatever its kind and whatever it
//! holds.

use crate::attribute::AttributeValueView;
use crate::error::UnsupportedOperationView;
use crate::kind::{lemma_attribute_names, Attribute};
use crate::model::{wrap, WrappedValueView};
use crate::order::Comparison;
use crate::resource::PythonResourceView;
use vstd::prelude::*;

verus! {

/// A value has exactly the attributes that its kind allows: reading one of
/// them gives something, reading any other gives nothing.
pub proof fn law_read_follows_kind(value: WrappedValueView, attribute: Attribute)
    ensures
        value.read(attribute) is Some <==> value.kind().allows(attribute),
{
}

/// An attribute that the kind of a value allows is there under its name, and
/// reading it gives a value of the type that the attribute is declared with.
pub proof fn law_listed_attribute(value: WrappedValueView, attribute: Attribute)
    requires
        value.kind().allows(attribute),
    ensures
        value.has(attribute.text()),
        value.get(attribute.text()) == Ok::<AttributeValueView, UnsupportedOperationView>(
            value.read(attribute)->Some_0,
        ),
        value.read(attribute)->Some_0.value_type() == attribute.declared_type(),
{
    lemma_attribute_names(attribute);
}

/// A name that is that of no attribute which the kind of a value allows is
/// not there, and reading it fails with the error that holds the name behind
/// a dot, the name of the value's kind, and no second operand.
pub proof fn law_unlisted_attribute(value: WrappedValueView, name: Seq<char>)
    requires
        forall|attribute: Attribute|
            value.kind().allows(attribute) ==> #[trigger] attribute.text() != name,
    ensures
        !value.has(name),
        value.get(name) == Err::<AttributeValueView, UnsupportedOperationView>(
            UnsupportedOperationView {
                op: "."@ + name,
                left: value.kind().name_text(),
                right: None,
            },
        ),
{
    if let Some(attribute) = Attribute::named(name) {
        assert(attribute.text() == name);
    }
}

/// Whether an attribute is there and whether reading it succeeds are one
/// question.
pub proof fn law_has_agrees_with_get(value: WrappedValueView, name: Seq<char>)
    ensures
        value.has(name) <==> value.get(name) is Ok,
{
}

/// The only attribute that holds an integer is the optimization level, and
/// it holds 0, 1 or 2.
pub proof fn law_integer_attribute(value: WrappedValueView, name: Seq<char>)
    ensures
        value.get(name) matches Ok(AttributeValueView::Integer(level)) ==> {
            &&& name == Attribute::OptimizeLevel.text()
            &&& 0 <= level <= 2
        },
{
}

/// Two values compare as equal exactly when they are of one kind and hold
/// the same in every field; so to compare as equal is reflexive, symmetric
/// and transitive.
pub proof fn law_equal_means_same(a: WrappedValueView, b: WrappedValueView)
    ensures
        a.order(b) == Comparison::Equal <==> a == b,
{
    a.lemma_order_equal(b);
}

/// Comparing two values the other way round gives the reverse.
pub proof fn law_order_antisymmetric(a: WrappedValueView, b: WrappedValueView)
    ensures
        b.order(a) == a.order(b).reversed(),
{
    a.lemma_order_reversed(b);
}

/// What comes before a value comes before all that the value comes before.
pub proof fn law_order_transitive(a: WrappedValueView, b: WrappedValueView, c: WrappedValueView)
    requires
        a.order(b) == Comparison::Less,
        b.order(c) == Comparison::Less,
    ensures
        a.order(c) == Comparison::Less,
{
    a.lemma_order_transitive(b, c);
}

/// Every resource has a wrapped value but a module given as bytecode and a
/// request for bytecode at a level that is none of 0, 1 and 2.
pub proof fn law_wrap_fails_only(resource: PythonResourceView)
    ensures
        wrap(resource) is Err <==> {
            ||| resource is ModuleBytecode
            ||| resource matches PythonResourceView::ModuleBytecodeRequest { optimize_level, .. }
                && !(0 <= optimize_level <= 2)
        },
{
}

/// The wrapped value of a request for bytecode at level 0, 1 or 2 has that
/// number as its optimization level.
pub proof fn law_wrap_keeps_level(resource: PythonResourceView)
    requires
        resource matches PythonResourceView::ModuleBytecodeRequest { optimize_level, .. } && 0
            <= optimize_level <= 2,
    ensures
        wrap(resource) matches Ok(value) && value.get(Attribute::OptimizeLevel.text()) == Ok::<
            AttributeValueView,
            UnsupportedOperationView,
        >(AttributeValueView::Integer(resource->ModuleBytecodeRequest_optimize_level as int)),
{
    lemma_attribute_names(Attribute::OptimizeLevel);
}

/// The wrapped values of two resources compare as equal exactly when the
/// resources are the same in every field.
pub proof fn law_wrapped_equal_means_same(first: PythonResourceView, second: PythonResourceView)
    requires
        wrap(first) is Ok,
        wrap(second) is Ok,
    ensures
        wrap(first)->Ok_0.order(wrap(second)->Ok_0) == Comparison::Equal <==> first == second,
{
    wrap(first)->Ok_0.lemma_order_equal(wrap(second)->Ok_0);
}

} // verus!
