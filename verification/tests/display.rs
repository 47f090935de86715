use resource_values::{
    BytecodeModule, BytecodeOptimizationLevel, ExtensionModule, ExtensionModuleData,
    PythonBytecodeModule, PythonExtensionModule, PythonExtensionModuleFlavor,
    PythonResourceData, PythonSourceModule, ResourceData, ResourceKind, SourceModule,
    WrappedValue,
};

fn source_module(name: &str) -> PythonSourceModule {
    PythonSourceModule {
        module: SourceModule { name: name.to_string(), source: Vec::new(), is_package: false },
    }
}

fn bytecode_module(name: &str, level: BytecodeOptimizationLevel) -> PythonBytecodeModule {
    PythonBytecodeModule {
        module: BytecodeModule {
            name: name.to_string(),
            source: Vec::new(),
            optimize_level: level,
            is_package: false,
        },
    }
}

fn resource_data(package: &str, name: &str) -> PythonResourceData {
    PythonResourceData {
        data: ResourceData {
            package: package.to_string(),
            name: name.to_string(),
            data: Vec::new(),
        },
    }
}

fn distribution_extension(module: &str) -> PythonExtensionModule {
    PythonExtensionModule {
        em: PythonExtensionModuleFlavor::Distribution(ExtensionModule {
            module: module.to_string(),
            init_fn: None,
            builtin_default: true,
            disableable: false,
            required: true,
            variant: "default".to_string(),
        }),
    }
}

fn built_extension(name: &str) -> ExtensionModuleData {
    ExtensionModuleData {
        name: name.to_string(),
        init_fn: None,
        extension_file_suffix: ".so".to_string(),
        extension_data: Vec::new(),
        is_package: false,
    }
}

#[test]
fn source_module_display() {
    let value = source_module("pkg.mod");
    assert_eq!(value.to_str(), "PythonSourceModule<name=pkg.mod>");
    assert_eq!(value.to_repr(), "PythonSourceModule<name=pkg.mod>");
}

#[test]
fn bytecode_module_display() {
    assert_eq!(
        bytecode_module("pkg", BytecodeOptimizationLevel::Zero).to_str(),
        "PythonBytecodeModule<name=pkg; level=Zero>"
    );
    assert_eq!(
        bytecode_module("pkg", BytecodeOptimizationLevel::One).to_str(),
        "PythonBytecodeModule<name=pkg; level=One>"
    );
    assert_eq!(
        bytecode_module("pkg", BytecodeOptimizationLevel::Two).to_str(),
        "PythonBytecodeModule<name=pkg; level=Two>"
    );
    assert_eq!(
        bytecode_module("pkg", BytecodeOptimizationLevel::Two).to_repr(),
        "PythonBytecodeModule<name=pkg; level=Two>"
    );
}

#[test]
fn resource_data_display() {
    let value = resource_data("pkg.sub", "data.txt");
    assert_eq!(value.to_str(), "PythonResourceData<package=pkg.sub, name=data.txt>");
    assert_eq!(value.to_repr(), "PythonResourceData<package=pkg.sub, name=data.txt>");
}

#[test]
fn extension_module_display() {
    let value = distribution_extension("_ssl");
    assert_eq!(value.to_str(), "PythonExtensionModule<name=_ssl>");
    assert_eq!(value.to_repr(), "PythonExtensionModule<name=_ssl>");
    let value =
        PythonExtensionModule { em: PythonExtensionModuleFlavor::StaticallyLinked(built_extension("a.b")) };
    assert_eq!(value.to_str(), "PythonExtensionModule<name=a.b>");
    let value =
        PythonExtensionModule { em: PythonExtensionModuleFlavor::DynamicLibrary(built_extension("c")) };
    assert_eq!(value.to_str(), "PythonExtensionModule<name=c>");
}

#[test]
fn display_with_empty_and_unusual_names() {
    assert_eq!(source_module("").to_str(), "PythonSourceModule<name=>");
    assert_eq!(source_module("a>b").to_str(), "PythonSourceModule<name=a>b>");
    assert_eq!(
        source_module("m\u{f6}dule.\u{1f40d}").to_str(),
        "PythonSourceModule<name=m\u{f6}dule.\u{1f40d}>"
    );
    assert_eq!(resource_data("", "").to_str(), "PythonResourceData<package=, name=>");
}

#[test]
fn repr_is_the_display_text() {
    let values = vec![
        WrappedValue::SourceModule(source_module("a")),
        WrappedValue::BytecodeModule(bytecode_module("b", BytecodeOptimizationLevel::One)),
        WrappedValue::ResourceData(resource_data("c", "d")),
        WrappedValue::ExtensionModule(distribution_extension("e")),
    ];
    let expected = [
        "PythonSourceModule<name=a>",
        "PythonBytecodeModule<name=b; level=One>",
        "PythonResourceData<package=c, name=d>",
        "PythonExtensionModule<name=e>",
    ];
    for (value, text) in values.iter().zip(expected) {
        assert_eq!(value.to_str(), text);
        assert_eq!(value.to_repr(), text);
    }
}

#[test]
fn type_names() {
    assert_eq!(source_module("a").get_type(), "PythonSourceModule");
    assert_eq!(
        bytecode_module("a", BytecodeOptimizationLevel::Zero).get_type(),
        "PythonBytecodeModule"
    );
    assert_eq!(resource_data("a", "b").get_type(), "PythonResourceData");
    assert_eq!(distribution_extension("a").get_type(), "PythonExtensionModule");
    assert_eq!(WrappedValue::SourceModule(source_module("a")).get_type(), "PythonSourceModule");
    assert_eq!(
        WrappedValue::ExtensionModule(distribution_extension("a")).get_type(),
        "PythonExtensionModule"
    );
}

#[test]
fn kinds_of_wrapped_values() {
    assert_eq!(WrappedValue::SourceModule(source_module("a")).kind(), ResourceKind::SourceModule);
    assert_eq!(
        WrappedValue::BytecodeModule(bytecode_module("a", BytecodeOptimizationLevel::Zero)).kind(),
        ResourceKind::BytecodeModule
    );
    assert_eq!(WrappedValue::ResourceData(resource_data("a", "b")).kind(), ResourceKind::ResourceData);
    assert_eq!(
        WrappedValue::ExtensionModule(distribution_extension("a")).kind(),
        ResourceKind::ExtensionModule
    );
}

#[test]
fn every_value_is_true() {
    assert!(source_module("pkg.mod").to_bool());
    assert!(bytecode_module("pkg", BytecodeOptimizationLevel::Zero).to_bool());
    assert!(resource_data("pkg", "data").to_bool());
    assert!(distribution_extension("_ssl").to_bool());
}

#[test]
fn a_value_with_nothing_in_it_is_true() {
    assert!(source_module("").to_bool());
    assert!(bytecode_module("", BytecodeOptimizationLevel::Zero).to_bool());
    assert!(resource_data("", "").to_bool());
    assert!(distribution_extension("").to_bool());
    assert!(WrappedValue::SourceModule(source_module("")).to_bool());
    assert!(WrappedValue::ResourceData(resource_data("", "")).to_bool());
}
