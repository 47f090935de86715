use resource_values::error::reject;
use resource_values::{
    BytecodeModule, BytecodeOptimizationLevel, ExtensionModuleData, Operation,
    PythonBytecodeModule, PythonExtensionModule, PythonExtensionModuleFlavor,
    PythonResourceData, PythonSourceModule, ResourceData, ResourceKind, SourceModule,
    UnsupportedOperation, WrappedValue,
};

fn source_module() -> PythonSourceModule {
    PythonSourceModule {
        module: SourceModule { name: "m".to_string(), source: Vec::new(), is_package: false },
    }
}

fn bytecode_module() -> PythonBytecodeModule {
    PythonBytecodeModule {
        module: BytecodeModule {
            name: "m".to_string(),
            source: Vec::new(),
            optimize_level: BytecodeOptimizationLevel::Zero,
            is_package: false,
        },
    }
}

fn resource_data() -> PythonResourceData {
    PythonResourceData {
        data: ResourceData { package: "p".to_string(), name: "n".to_string(), data: Vec::new() },
    }
}

fn extension_module() -> PythonExtensionModule {
    PythonExtensionModule {
        em: PythonExtensionModuleFlavor::StaticallyLinked(ExtensionModuleData {
            name: "e".to_string(),
            init_fn: None,
            extension_file_suffix: String::new(),
            extension_data: Vec::new(),
            is_package: false,
        }),
    }
}

fn unsupported(op: &str, left: &str) -> UnsupportedOperation {
    UnsupportedOperation { op: op.to_string(), left: left.to_string(), right: None }
}

#[test]
fn operators_of_unsupported_operations() {
    assert_eq!(Operation::GetAttribute("source").operator(), ".source");
    assert_eq!(Operation::GetAttribute("").operator(), ".");
    assert_eq!(Operation::SetAttribute("name").operator(), ".name =");
    assert_eq!(Operation::Index.operator(), "[]");
    assert_eq!(Operation::Iterate.operator(), "iter()");
    assert_eq!(Operation::Hash.operator(), "hash()");
    assert_eq!(Operation::Call.operator(), "call()");
    assert_eq!(Operation::ToInt.operator(), "int()");
}

#[test]
fn rejection_names_operator_and_kind() {
    assert_eq!(
        reject(&Operation::Index, ResourceKind::SourceModule),
        unsupported("[]", "PythonSourceModule")
    );
    assert_eq!(
        reject(&Operation::Call, ResourceKind::BytecodeModule),
        unsupported("call()", "PythonBytecodeModule")
    );
    assert_eq!(
        reject(&Operation::Hash, ResourceKind::ResourceData),
        unsupported("hash()", "PythonResourceData")
    );
    assert_eq!(
        reject(&Operation::SetAttribute("name"), ResourceKind::ExtensionModule),
        unsupported(".name =", "PythonExtensionModule")
    );
}

#[test]
fn no_kind_supports_the_other_operations() {
    let operations = [
        (Operation::Index, "[]"),
        (Operation::Iterate, "iter()"),
        (Operation::Hash, "hash()"),
        (Operation::Call, "call()"),
        (Operation::SetAttribute("name"), ".name ="),
        (Operation::ToInt, "int()"),
    ];
    for (operation, op) in operations {
        assert_eq!(source_module().reject(&operation), unsupported(op, "PythonSourceModule"));
        assert_eq!(bytecode_module().reject(&operation), unsupported(op, "PythonBytecodeModule"));
        assert_eq!(resource_data().reject(&operation), unsupported(op, "PythonResourceData"));
        assert_eq!(extension_module().reject(&operation), unsupported(op, "PythonExtensionModule"));
    }
}

#[test]
fn wrapped_value_rejects_like_the_value_inside() {
    let operation = Operation::SetAttribute("is_package");
    assert_eq!(
        WrappedValue::SourceModule(source_module()).reject(&operation),
        source_module().reject(&operation)
    );
    assert_eq!(
        WrappedValue::BytecodeModule(bytecode_module()).reject(&operation),
        bytecode_module().reject(&operation)
    );
    assert_eq!(
        WrappedValue::ResourceData(resource_data()).reject(&operation),
        resource_data().reject(&operation)
    );
    assert_eq!(
        WrappedValue::ExtensionModule(extension_module()).reject(&operation),
        extension_module().reject(&operation)
    );
}

#[test]
fn assigning_to_a_listed_attribute_is_rejected() {
    let value = source_module();
    assert!(value.has_attr("name"));
    let error = value.reject(&Operation::SetAttribute("name"));
    assert_eq!(error.op, ".name =");
    assert_eq!(error.left, "PythonSourceModule");
    assert_eq!(error.right, None);
    assert_eq!(value.module.name, "m");
}

#[test]
fn unknown_attribute_error_is_that_of_get_attribute() {
    let value = resource_data();
    assert_eq!(value.get_attr("data"), Err(value.reject(&Operation::GetAttribute("data"))));
}
