use resource_values::{Attribute, AttributeType, AttributeValue, BytecodeOptimizationLevel, ResourceKind};

const ATTRIBUTES: [Attribute; 4] =
    [Attribute::Name, Attribute::IsPackage, Attribute::OptimizeLevel, Attribute::Package];

const KINDS: [ResourceKind; 4] = [
    ResourceKind::SourceModule,
    ResourceKind::BytecodeModule,
    ResourceKind::ResourceData,
    ResourceKind::ExtensionModule,
];

#[test]
fn attribute_names() {
    assert_eq!(Attribute::Name.as_str(), "name");
    assert_eq!(Attribute::IsPackage.as_str(), "is_package");
    assert_eq!(Attribute::OptimizeLevel.as_str(), "optimize_level");
    assert_eq!(Attribute::Package.as_str(), "package");
}

#[test]
fn attribute_is_found_under_its_name() {
    for attribute in ATTRIBUTES {
        assert_eq!(Attribute::parse(attribute.as_str()), Some(attribute));
    }
}

#[test]
fn other_names_are_no_attributes() {
    for name in ["", "source", "data", "Name", "is package", "optimize_level ", "packages"] {
        assert_eq!(Attribute::parse(name), None, "{:?}", name);
    }
}

#[test]
fn declared_types_of_attributes() {
    assert_eq!(Attribute::Name.value_type(), AttributeType::Text);
    assert_eq!(Attribute::IsPackage.value_type(), AttributeType::Boolean);
    assert_eq!(Attribute::OptimizeLevel.value_type(), AttributeType::Integer);
    assert_eq!(Attribute::Package.value_type(), AttributeType::Text);
}

#[test]
fn types_of_attribute_values() {
    assert_eq!(AttributeValue::Text(String::new()).value_type(), AttributeType::Text);
    assert_eq!(AttributeValue::Boolean(false).value_type(), AttributeType::Boolean);
    assert_eq!(AttributeValue::Integer(0).value_type(), AttributeType::Integer);
}

#[test]
fn names_of_kinds() {
    assert_eq!(ResourceKind::SourceModule.name(), "PythonSourceModule");
    assert_eq!(ResourceKind::BytecodeModule.name(), "PythonBytecodeModule");
    assert_eq!(ResourceKind::ResourceData.name(), "PythonResourceData");
    assert_eq!(ResourceKind::ExtensionModule.name(), "PythonExtensionModule");
}

#[test]
fn attributes_that_each_kind_has() {
    let expected = [
        [true, true, false, false],
        [true, true, true, false],
        [true, false, false, true],
        [true, false, false, false],
    ];
    for (kind, row) in KINDS.iter().zip(expected) {
        for (attribute, allowed) in ATTRIBUTES.iter().zip(row) {
            assert_eq!(kind.permits(*attribute), allowed, "{:?} on {:?}", attribute, kind);
            let found = kind.find(attribute.as_str());
            assert_eq!(found, if allowed { Some(*attribute) } else { None });
        }
        assert_eq!(kind.find("source"), None);
        assert_eq!(kind.find(""), None);
    }
}

#[test]
fn optimization_levels_and_their_numbers() {
    assert_eq!(BytecodeOptimizationLevel::from_int(0), Some(BytecodeOptimizationLevel::Zero));
    assert_eq!(BytecodeOptimizationLevel::from_int(1), Some(BytecodeOptimizationLevel::One));
    assert_eq!(BytecodeOptimizationLevel::from_int(2), Some(BytecodeOptimizationLevel::Two));
    assert_eq!(BytecodeOptimizationLevel::from_int(3), None);
    assert_eq!(BytecodeOptimizationLevel::from_int(-1), None);
    assert_eq!(BytecodeOptimizationLevel::from_int(i32::MAX), None);
    assert_eq!(BytecodeOptimizationLevel::Zero.to_int(), 0);
    assert_eq!(BytecodeOptimizationLevel::One.to_int(), 1);
    assert_eq!(BytecodeOptimizationLevel::Two.to_int(), 2);
}

#[test]
fn optimization_level_labels() {
    assert_eq!(BytecodeOptimizationLevel::Zero.label(), "Zero");
    assert_eq!(BytecodeOptimizationLevel::One.label(), "One");
    assert_eq!(BytecodeOptimizationLevel::Two.label(), "Two");
    for level in [
        BytecodeOptimizationLevel::Zero,
        BytecodeOptimizationLevel::One,
        BytecodeOptimizationLevel::Two,
    ] {
        assert_eq!(level.label(), format!("{:?}", level));
    }
}
