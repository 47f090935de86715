//! The errors of this library: an operation that a wrapped value does not
//! support, and a resource that has no wrapped value.

use crate::kind::ResourceKind;
use crate::order::optional_text;
use vstd::prelude::*;

verus! {

/// An operation that a wrapped value may refuse. Reading an attribute is
/// refused where the kind of the value has no attribute of that name; the
/// others are refused by every wrapped value.
#[derive(Clone, Copy, Debug, PartialEq, Eq)]
pub enum Operation<'a> {
    /// Reading the attribute of the given name.
    GetAttribute(&'a str),
    /// Assigning to the attribute of the given name.
    SetAttribute(&'a str),
    /// Taking the element at an index.
    Index,
    /// Going through the elements.
    Iterate,
    /// Hashing, as for the key of a mapping.
    Hash,
    /// Calling as a function.
    Call,
    /// Converting to an integer.
    ToInt,
}

/// An operation, with the name of the attribute where it is on one.
pub enum OperationView {
    GetAttribute(Seq<char>),
    SetAttribute(Seq<char>),
    Index,
    Iterate,
    Hash,
    Call,
    ToInt,
}

impl<'a> View for Operation<'a> {
    type V = OperationView;

    open spec fn view(&self) -> OperationView {
        match self {
            Operation::GetAttribute(name) => OperationView::GetAttribute(name@),
            Operation::SetAttribute(name) => OperationView::SetAttribute(name@),
            Operation::Index => OperationView::Index,
            Operation::Iterate => OperationView::Iterate,
            Operation::Hash => OperationView::Hash,
            Operation::Call => OperationView::Call,
            Operation::ToInt => OperationView::ToInt,
        }
    }
}

impl OperationView {
    /// The operator by which an error names this operation.
    pub open spec fn operator(self) -> Seq<char> {
        match self {
            OperationView::GetAttribute(name) => "."@ + name,
            OperationView::SetAttribute(name) => "."@ + name + " ="@,
            OperationView::Index => "[]"@,
            OperationView::Iterate => "iter()"@,
            OperationView::Hash => "hash()"@,
            OperationView::Call => "call()"@,
            OperationView::ToInt => "int()"@,
        }
    }
}

impl<'a> Operation<'a> {
    /// The operator by which an error names this operation.
    pub fn operator(&self) -> (r: String)
        ensures
            r@ == self@.operator(),
    {
        match self {
            Operation::GetAttribute(name) => {
                let mut op = ".".to_owned();
                op.append(name);
                op
            },
            Operation::SetAttribute(name) => {
                let mut op = ".".to_owned();
                op.append(name);
                op.append(" =");
                op
            },
            Operation::Index => "[]".to_owned(),
            Operation::Iterate => "iter()".to_owned(),
            Operation::Hash => "hash()".to_owned(),
            Operation::Call => "call()".to_owned(),
            Operation::ToInt => "int()".to_owned(),
        }
    }
}

/// The error of an operation that a value does not support: the operator
/// that was tried, the kind of the value it was tried on and, for an operator
/// between two values, the kind of the other.
#[derive(Debug, PartialEq, Eq)]
pub struct UnsupportedOperation {
    pub op: String,
    pub left: String,
    pub right: Option<String>,
}

/// What the error of an unsupported operation holds.
pub struct UnsupportedOperationView {
    pub op: Seq<char>,
    pub left: Seq<char>,
    pub right: Option<Seq<char>>,
}

impl View for UnsupportedOperation {
    type V = UnsupportedOperationView;

    open spec fn view(&self) -> UnsupportedOperationView {
        UnsupportedOperationView {
            op: self.op@,
            left: self.left@,
            right: optional_text(self.right),
        }
    }
}

/// The error that an operation on a value of the given kind ends in: it
/// names the operator and the kind, and no second operand.
pub open spec fn rejection(operation: OperationView, kind: ResourceKind) -> UnsupportedOperationView {
    UnsupportedOperationView { op: operation.operator(), left: kind.name_text(), right: None }
}

/// Refuses an operation on a value of the given kind.
pub fn reject(operation: &Operation, kind: ResourceKind) -> (e: UnsupportedOperation)
    ensures
        e@ == rejection(operation@, kind),
{
    UnsupportedOperation { op: operation.operator(), left: kind.name().to_owned(), right: None }
}

/// Why a resource has no wrapped value.
#[derive(Clone, Copy, Debug, PartialEq, Eq, Structural)]
pub enum UnsupportedConversion {
    /// The resource is a module given as bytecode.
    CompiledBytecode,
    /// The resource asks for bytecode at a level that is none of 0, 1 and 2.
    OptimizationLevel(i32),
}

} // verus!
