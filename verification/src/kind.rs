//! The kinds of wrapped value, and the attributes that each of them has.

use crate::order::text_eq;
use vstd::prelude::*;

verus! {

/// What an attribute holds.
#[derive(Clone, Copy, Debug, PartialEq, Eq, Structural)]
pub enum AttributeType {
    Text,
    Boolean,
    Integer,
}

/// An attribute that some kind of wrapped value has.
#[derive(Clone, Copy, Debug, PartialEq, Eq, Structural)]
pub enum Attribute {
    Name,
    IsPackage,
    OptimizeLevel,
    Package,
}

impl Attribute {
    /// The name under which a script reads this attribute.
    pub open spec fn text(self) -> Seq<char> {
        match self {
            Attribute::Name => "name"@,
            Attribute::IsPackage => "is_package"@,
            Attribute::OptimizeLevel => "optimize_level"@,
            Attribute::Package => "package"@,
        }
    }

    /// The attribute that a name stands for, if it stands for one.
    pub open spec fn named(name: Seq<char>) -> Option<Attribute> {
        if name == Attribute::Name.text() {
            Some(Attribute::Name)
        } else if name == Attribute::IsPackage.text() {
            Some(Attribute::IsPackage)
        } else if name == Attribute::OptimizeLevel.text() {
            Some(Attribute::OptimizeLevel)
        } else if name == Attribute::Package.text() {
            Some(Attribute::Package)
        } else {
            None
        }
    }

    /// What this attribute holds, on every kind that has it.
    pub open spec fn declared_type(self) -> AttributeType {
        match self {
            Attribute::Name => AttributeType::Text,
            Attribute::IsPackage => AttributeType::Boolean,
            Attribute::OptimizeLevel => AttributeType::Integer,
            Attribute::Package => AttributeType::Text,
        }
    }

    /// The name under which a script reads this attribute.
    pub fn as_str(self) -> (r: &'static str)
        ensures
            r@ == self.text(),
    {
        match self {
            Attribute::Name => "name",
            Attribute::IsPackage => "is_package",
            Attribute::OptimizeLevel => "optimize_level",
            Attribute::Package => "package",
        }
    }

    /// The attribute that a name stands for, if it stands for one.
    pub fn parse(name: &str) -> (r: Option<Attribute>)
        ensures
            r == Attribute::named(name@),
    {
        if text_eq(name, Attribute::Name.as_str()) {
            Some(Attribute::Name)
        } else if text_eq(name, Attribute::IsPackage.as_str()) {
            Some(Attribute::IsPackage)
        } else if text_eq(name, Attribute::OptimizeLevel.as_str()) {
            Some(Attribute::OptimizeLevel)
        } else if text_eq(name, Attribute::Package.as_str()) {
            Some(Attribute::Package)
        } else {
            None
        }
    }

    /// What this attribute holds, on every kind that has it.
    pub fn value_type(self) -> (r: AttributeType)
        ensures
            r == self.declared_type(),
    {
        match self {
            Attribute::Name => AttributeType::Text,
            Attribute::IsPackage => AttributeType::Boolean,
            Attribute::OptimizeLevel => AttributeType::Integer,
            Attribute::Package => AttributeType::Text,
        }
    }
}

/// The names of distinct attributes are distinct, so a name stands for at
/// most one attribute and every attribute is found under its own name.
pub proof fn lemma_attribute_names(a: Attribute)
    ensures
        Attribute::named(a.text()) == Some(a),
{
    reveal_strlit("name");
    reveal_strlit("is_package");
    reveal_strlit("optimize_level");
    reveal_strlit("package");
    assert("name"@.len() == 4);
    assert("is_package"@.len() == 10);
    assert("optimize_level"@.len() == 14);
    assert("package"@.len() == 7);
}

/// A kind of wrapped value.
#[derive(Clone, Copy, Debug, PartialEq, Eq, Structural)]
pub enum ResourceKind {
    SourceModule,
    BytecodeModule,
    ResourceData,
    ExtensionModule,
}

impl ResourceKind {
    /// The name by which the scripting language knows values of this kind.
    pub open spec fn name_text(self) -> Seq<char> {
        match self {
            ResourceKind::SourceModule => "PythonSourceModule"@,
            ResourceKind::BytecodeModule => "PythonBytecodeModule"@,
            ResourceKind::ResourceData => "PythonResourceData"@,
            ResourceKind::ExtensionModule => "PythonExtensionModule"@,
        }
    }

    /// The attributes that values of this kind have; they have no others.
    pub open spec fn allows(self, attribute: Attribute) -> bool {
        match self {
            ResourceKind::SourceModule => {
                attribute == Attribute::Name || attribute == Attribute::IsPackage
            },
            ResourceKind::BytecodeModule => {
                attribute == Attribute::Name || attribute == Attribute::OptimizeLevel
                    || attribute == Attribute::IsPackage
            },
            ResourceKind::ResourceData => {
                attribute == Attribute::Package || attribute == Attribute::Name
            },
            ResourceKind::ExtensionModule => attribute == Attribute::Name,
        }
    }

    /// Whether values of this kind have an attribute of the given name.
    pub open spec fn has(self, name: Seq<char>) -> bool {
        match Attribute::named(name) {
            Some(attribute) => self.allows(attribute),
            None => false,
        }
    }

    /// The name by which the scripting language knows values of this kind.
    pub fn name(self) -> (r: &'static str)
        ensures
            r@ == self.name_text(),
    {
        match self {
            ResourceKind::SourceModule => "PythonSourceModule",
            ResourceKind::BytecodeModule => "PythonBytecodeModule",
            ResourceKind::ResourceData => "PythonResourceData",
            ResourceKind::ExtensionModule => "PythonExtensionModule",
        }
    }

    /// Whether values of this kind have the given attribute.
    pub fn permits(self, attribute: Attribute) -> (r: bool)
        ensures
            r == self.allows(attribute),
    {
        match self {
            ResourceKind::SourceModule => match attribute {
                Attribute::Name | Attribute::IsPackage => true,
                _ => false,
            },
            ResourceKind::BytecodeModule => match attribute {
                Attribute::Name | Attribute::OptimizeLevel | Attribute::IsPackage => true,
                _ => false,
            },
            ResourceKind::ResourceData => match attribute {
                Attribute::Package | Attribute::Name => true,
                _ => false,
            },
            ResourceKind::ExtensionModule => match attribute {
                Attribute::Name => true,
                _ => false,
            },
        }
    }

    /// The attribute of the given name, if values of this kind have it.
    pub fn find(self, name: &str) -> (r: Option<Attribute>)
        ensures
            r == (if self.has(name@) {
                Attribute::named(name@)
            } else {
                None
            }),
    {
        match Attribute::parse(name) {
            Some(attribute) => if self.permits(attribute) {
                Some(attribute)
            } else {
                None
            },
            None => None,
        }
    }
}

/// Values of different kinds go by different names.
pub proof fn lemma_kind_names_differ(a: ResourceKind, b: ResourceKind)
    ensures
        a.name_text() == b.name_text() <==> a == b,
{
    reveal_strlit("PythonSourceModule");
    reveal_strlit("PythonBytecodeModule");
    reveal_strlit("PythonResourceData");
    reveal_strlit("PythonExtensionModule");
    if a != b && a.name_text().len() == b.name_text().len() {
        assert(a.name_text()[6] != b.name_text()[6]);
    }
}

} // verus!
