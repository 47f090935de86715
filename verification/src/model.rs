//! What a wrapped value is, as a mathematical value: its kind, the text it
//! displays as, what reading each attribute gives, and how it compares to
//! another. The contracts of the executable types are stated over this model.

use crate::attribute::AttributeValueView;
use crate::error::{rejection, OperationView, UnsupportedConversion, UnsupportedOperationView};
use crate::kind::{lemma_kind_names_differ, Attribute, ResourceKind};
use crate::order::{
    int_order, lemma_text_order_equal, lemma_text_order_reversed, lemma_text_order_transitive,
    text_order, Comparison,
};
use crate::resource::{
    BytecodeModuleView, BytecodeOptimizationLevel, ExtensionModuleDataView, ExtensionModuleView,
    PythonResourceView, ResourceDataView, SourceModuleView,
};
use vstd::prelude::*;

verus! {

/// An extension module together with where it comes from.
pub enum ExtensionFlavorView {
    Distribution(ExtensionModuleView),
    StaticallyLinked(ExtensionModuleDataView),
    DynamicLibrary(ExtensionModuleDataView),
}

impl ExtensionFlavorView {
    /// The name of the extension module.
    pub open spec fn name(self) -> Seq<char> {
        match self {
            ExtensionFlavorView::Distribution(m) => m.module,
            ExtensionFlavorView::StaticallyLinked(m) => m.name,
            ExtensionFlavorView::DynamicLibrary(m) => m.name,
        }
    }

    /// The place of this flavor among the three.
    pub open spec fn rank(self) -> int {
        match self {
            ExtensionFlavorView::Distribution(_) => 0,
            ExtensionFlavorView::StaticallyLinked(_) => 1,
            ExtensionFlavorView::DynamicLibrary(_) => 2,
        }
    }

    /// The order of two extension modules: by flavor, then by what they hold.
    pub open spec fn order(self, other: ExtensionFlavorView) -> Comparison {
        match (self, other) {
            (ExtensionFlavorView::Distribution(a), ExtensionFlavorView::Distribution(b)) => {
                a.order(b)
            },
            (
                ExtensionFlavorView::StaticallyLinked(a),
                ExtensionFlavorView::StaticallyLinked(b),
            ) => a.order(b),
            (ExtensionFlavorView::DynamicLibrary(a), ExtensionFlavorView::DynamicLibrary(b)) => {
                a.order(b)
            },
            _ => int_order(self.rank(), other.rank()),
        }
    }

    /// Two values compare as equal exactly when they are the same.
    pub proof fn lemma_order_equal(self, other: ExtensionFlavorView)
        ensures
            self.order(other) == Comparison::Equal <==> self == other,
    {
        match (self, other) {
            (ExtensionFlavorView::Distribution(a), ExtensionFlavorView::Distribution(b)) => {
                a.lemma_order_equal(b);
            },
            (
                ExtensionFlavorView::StaticallyLinked(a),
                ExtensionFlavorView::StaticallyLinked(b),
            ) => {
                a.lemma_order_equal(b);
            },
            (ExtensionFlavorView::DynamicLibrary(a), ExtensionFlavorView::DynamicLibrary(b)) => {
                a.lemma_order_equal(b);
            },
            _ => {},
        }
    }

    /// Comparing two values the other way round gives the reverse.
    pub proof fn lemma_order_reversed(self, other: ExtensionFlavorView)
        ensures
            other.order(self) == self.order(other).reversed(),
    {
        match (self, other) {
            (ExtensionFlavorView::Distribution(a), ExtensionFlavorView::Distribution(b)) => {
                a.lemma_order_reversed(b);
            },
            (
                ExtensionFlavorView::StaticallyLinked(a),
                ExtensionFlavorView::StaticallyLinked(b),
            ) => {
                a.lemma_order_reversed(b);
            },
            (ExtensionFlavorView::DynamicLibrary(a), ExtensionFlavorView::DynamicLibrary(b)) => {
                a.lemma_order_reversed(b);
            },
            _ => {},
        }
    }

    /// The order of values is transitive.
    pub proof fn lemma_order_transitive(
        self,
        middle: ExtensionFlavorView,
        other: ExtensionFlavorView,
    )
        requires
            self.order(middle) == Comparison::Less,
            middle.order(other) == Comparison::Less,
        ensures
            self.order(other) == Comparison::Less,
    {
        match (self, middle, other) {
            (
                ExtensionFlavorView::Distribution(a),
                ExtensionFlavorView::Distribution(b),
                ExtensionFlavorView::Distribution(c),
            ) => {
                a.lemma_order_transitive(b, c);
            },
            (
                ExtensionFlavorView::StaticallyLinked(a),
                ExtensionFlavorView::StaticallyLinked(b),
                ExtensionFlavorView::StaticallyLinked(c),
            ) => {
                a.lemma_order_transitive(b, c);
            },
            (
                ExtensionFlavorView::DynamicLibrary(a),
                ExtensionFlavorView::DynamicLibrary(b),
                ExtensionFlavorView::DynamicLibrary(c),
            ) => {
                a.lemma_order_transitive(b, c);
            },
            _ => {},
        }
    }
}

/// A wrapped value: a resource record of one of four kinds.
pub enum WrappedValueView {
    SourceModule(SourceModuleView),
    BytecodeModule(BytecodeModuleView),
    ResourceData(ResourceDataView),
    ExtensionModule(ExtensionFlavorView),
}

impl WrappedValueView {
    /// The kind of this value.
    pub open spec fn kind(self) -> ResourceKind {
        match self {
            WrappedValueView::SourceModule(_) => ResourceKind::SourceModule,
            WrappedValueView::BytecodeModule(_) => ResourceKind::BytecodeModule,
            WrappedValueView::ResourceData(_) => ResourceKind::ResourceData,
            WrappedValueView::ExtensionModule(_) => ResourceKind::ExtensionModule,
        }
    }

    /// The text that this value displays as.
    pub open spec fn display(self) -> Seq<char> {
        match self {
            WrappedValueView::SourceModule(m) => "PythonSourceModule<name="@ + m.name + ">"@,
            WrappedValueView::BytecodeModule(m) => "PythonBytecodeModule<name="@ + m.name
                + "; level="@ + m.optimize_level.label_text() + ">"@,
            WrappedValueView::ResourceData(d) => "PythonResourceData<package="@ + d.package
                + ", name="@ + d.name + ">"@,
            WrappedValueView::ExtensionModule(em) => "PythonExtensionModule<name="@ + em.name()
                + ">"@,
        }
    }

    /// What the given attribute of this value holds, if the value has it.
    pub open spec fn read(self, attribute: Attribute) -> Option<AttributeValueView> {
        match (self, attribute) {
            (WrappedValueView::SourceModule(m), Attribute::Name) => Some(
                AttributeValueView::Text(m.name),
            ),
            (WrappedValueView::SourceModule(m), Attribute::IsPackage) => Some(
                AttributeValueView::Boolean(m.is_package),
            ),
            (WrappedValueView::BytecodeModule(m), Attribute::Name) => Some(
                AttributeValueView::Text(m.name),
            ),
            (WrappedValueView::BytecodeModule(m), Attribute::OptimizeLevel) => Some(
                AttributeValueView::Integer(m.optimize_level.level()),
            ),
            (WrappedValueView::BytecodeModule(m), Attribute::IsPackage) => Some(
                AttributeValueView::Boolean(m.is_package),
            ),
            (WrappedValueView::ResourceData(d), Attribute::Package) => Some(
                AttributeValueView::Text(d.package),
            ),
            (WrappedValueView::ResourceData(d), Attribute::Name) => Some(
                AttributeValueView::Text(d.name),
            ),
            (WrappedValueView::ExtensionModule(em), Attribute::Name) => Some(
                AttributeValueView::Text(em.name()),
            ),
            _ => None,
        }
    }

    /// Whether this value has an attribute of the given name.
    pub open spec fn has(self, name: Seq<char>) -> bool {
        self.kind().has(name)
    }

    /// What reading the attribute of the given name gives: its value, or the
    /// error that names the operator `.name` and the kind of this value.
    pub open spec fn get(self, name: Seq<char>) -> Result<
        AttributeValueView,
        UnsupportedOperationView,
    > {
        match Attribute::named(name) {
            Some(attribute) => match self.read(attribute) {
                Some(value) => Ok(value),
                None => Err(self.refusal(OperationView::GetAttribute(name))),
            },
            None => Err(self.refusal(OperationView::GetAttribute(name))),
        }
    }

    /// The error that an operation which this value does not support ends in.
    pub open spec fn refusal(self, operation: OperationView) -> UnsupportedOperationView {
        rejection(operation, self.kind())
    }

    /// The order of two values: those of one kind by what they hold, field by
    /// field; those of different kinds by the names of their kinds.
    pub open spec fn order(self, other: WrappedValueView) -> Comparison {
        match (self, other) {
            (WrappedValueView::SourceModule(a), WrappedValueView::SourceModule(b)) => a.order(b),
            (WrappedValueView::BytecodeModule(a), WrappedValueView::BytecodeModule(b)) => {
                a.order(b)
            },
            (WrappedValueView::ResourceData(a), WrappedValueView::ResourceData(b)) => a.order(b),
            (WrappedValueView::ExtensionModule(a), WrappedValueView::ExtensionModule(b)) => {
                a.order(b)
            },
            _ => text_order(self.kind().name_text(), other.kind().name_text()),
        }
    }

    /// Two values compare as equal exactly when they are the same.
    pub proof fn lemma_order_equal(self, other: WrappedValueView)
        ensures
            self.order(other) == Comparison::Equal <==> self == other,
    {
        match (self, other) {
            (WrappedValueView::SourceModule(a), WrappedValueView::SourceModule(b)) => {
                a.lemma_order_equal(b);
            },
            (WrappedValueView::BytecodeModule(a), WrappedValueView::BytecodeModule(b)) => {
                a.lemma_order_equal(b);
            },
            (WrappedValueView::ResourceData(a), WrappedValueView::ResourceData(b)) => {
                a.lemma_order_equal(b);
            },
            (WrappedValueView::ExtensionModule(a), WrappedValueView::ExtensionModule(b)) => {
                a.lemma_order_equal(b);
            },
            _ => {
                lemma_kind_names_differ(self.kind(), other.kind());
                lemma_text_order_equal(self.kind().name_text(), other.kind().name_text());
            },
        }
    }

    /// Comparing two values the other way round gives the reverse.
    pub proof fn lemma_order_reversed(self, other: WrappedValueView)
        ensures
            other.order(self) == self.order(other).reversed(),
    {
        match (self, other) {
            (WrappedValueView::SourceModule(a), WrappedValueView::SourceModule(b)) => {
                a.lemma_order_reversed(b);
            },
            (WrappedValueView::BytecodeModule(a), WrappedValueView::BytecodeModule(b)) => {
                a.lemma_order_reversed(b);
            },
            (WrappedValueView::ResourceData(a), WrappedValueView::ResourceData(b)) => {
                a.lemma_order_reversed(b);
            },
            (WrappedValueView::ExtensionModule(a), WrappedValueView::ExtensionModule(b)) => {
                a.lemma_order_reversed(b);
            },
            _ => {
                lemma_text_order_reversed(self.kind().name_text(), other.kind().name_text());
            },
        }
    }

    /// The order of values is transitive.
    pub proof fn lemma_order_transitive(self, middle: WrappedValueView, other: WrappedValueView)
        requires
            self.order(middle) == Comparison::Less,
            middle.order(other) == Comparison::Less,
        ensures
            self.order(other) == Comparison::Less,
    {
        match (self, middle, other) {
            (
                WrappedValueView::SourceModule(a),
                WrappedValueView::SourceModule(b),
                WrappedValueView::SourceModule(c),
            ) => {
                a.lemma_order_transitive(b, c);
            },
            (
                WrappedValueView::BytecodeModule(a),
                WrappedValueView::BytecodeModule(b),
                WrappedValueView::BytecodeModule(c),
            ) => {
                a.lemma_order_transitive(b, c);
            },
            (
                WrappedValueView::ResourceData(a),
                WrappedValueView::ResourceData(b),
                WrappedValueView::ResourceData(c),
            ) => {
                a.lemma_order_transitive(b, c);
            },
            (
                WrappedValueView::ExtensionModule(a),
                WrappedValueView::ExtensionModule(b),
                WrappedValueView::ExtensionModule(c),
            ) => {
                a.lemma_order_transitive(b, c);
            },
            _ => {
                let first = self.kind().name_text();
                let second = middle.kind().name_text();
                let third = other.kind().name_text();
                if self.kind() != middle.kind() && middle.kind() != other.kind() {
                    lemma_text_order_transitive(first, second, third);
                    lemma_text_order_reversed(first, second);
                }
            },
        }
    }
}

/// The wrapped value that a resource gets, or why it gets none: the fields
/// are taken over as they are, a request for bytecode has its level
/// translated, and a module given as bytecode has no wrapped value.
pub open spec fn wrap(resource: PythonResourceView) -> Result<
    WrappedValueView,
    UnsupportedConversion,
> {
    match resource {
        PythonResourceView::ModuleSource { name, source, is_package } => Ok(
            WrappedValueView::SourceModule(SourceModuleView { name, source, is_package }),
        ),
        PythonResourceView::ModuleBytecodeRequest { name, source, optimize_level, is_package } => {
            match BytecodeOptimizationLevel::of_level(optimize_level as int) {
                Some(level) => Ok(
                    WrappedValueView::BytecodeModule(
                        BytecodeModuleView { name, source, optimize_level: level, is_package },
                    ),
                ),
                None => Err(UnsupportedConversion::OptimizationLevel(optimize_level)),
            }
        },
        PythonResourceView::ModuleBytecode { .. } => Err(UnsupportedConversion::CompiledBytecode),
        PythonResourceView::Resource { package, name, data } => Ok(
            WrappedValueView::ResourceData(ResourceDataView { package, name, data }),
        ),
        PythonResourceView::ExtensionModuleDynamicLibrary(em) => Ok(
            WrappedValueView::ExtensionModule(ExtensionFlavorView::DynamicLibrary(em)),
        ),
        PythonResourceView::ExtensionModuleStaticallyLinked(em) => Ok(
            WrappedValueView::ExtensionModule(ExtensionFlavorView::StaticallyLinked(em)),
        ),
    }
}

} // verus!
