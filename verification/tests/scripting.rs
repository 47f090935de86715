use resource_values::scripting::to_value_result;
use resource_values::{
    to_scripting_value, AttributeValue, BytecodeModule, BytecodeOptimizationLevel,
    PythonBytecodeModule, PythonResource, UnsupportedOperation, WrappedValue,
};
use starlark::values::ValueError;

fn bytecode_module() -> PythonBytecodeModule {
    PythonBytecodeModule {
        module: BytecodeModule {
            name: "pkg.mod".to_string(),
            source: Vec::new(),
            optimize_level: BytecodeOptimizationLevel::Two,
            is_package: true,
        },
    }
}

#[test]
fn text_becomes_a_string() {
    let value = AttributeValue::Text("pkg.mod".to_string()).to_value();
    assert_eq!(value.get_type(), "string");
    assert_eq!(value.to_str(), "pkg.mod");
    assert!(value.to_int().is_err());
    let value = AttributeValue::Text(String::new()).to_value();
    assert_eq!(value.get_type(), "string");
    assert_eq!(value.to_str(), "");
}

#[test]
fn truth_value_becomes_a_bool() {
    let value = AttributeValue::Boolean(true).to_value();
    assert_eq!(value.get_type(), "bool");
    assert_eq!(value.to_int().unwrap(), 1);
    assert_eq!(value.to_str(), "True");
    assert!(value.to_bool());
    let value = AttributeValue::Boolean(false).to_value();
    assert_eq!(value.get_type(), "bool");
    assert_eq!(value.to_int().unwrap(), 0);
    assert_eq!(value.to_str(), "False");
    assert!(!value.to_bool());
}

#[test]
fn number_becomes_an_int() {
    for number in [0, 1, 2, -7, i64::MAX, i64::MIN] {
        let value = AttributeValue::Integer(number).to_value();
        assert_eq!(value.get_type(), "int");
        assert_eq!(value.to_int().unwrap(), number);
        assert_eq!(value.to_str(), number.to_string());
    }
}

#[test]
fn unsupported_operation_becomes_a_value_error() {
    let error = UnsupportedOperation {
        op: ".source".to_string(),
        left: "PythonSourceModule".to_string(),
        right: None,
    };
    match error.to_value_error() {
        ValueError::OperationNotSupported { op, left, right } => {
            assert_eq!(op, ".source");
            assert_eq!(left, "PythonSourceModule");
            assert_eq!(right, None);
        }
        other => panic!("converted to {:?}", other),
    }
    let error = UnsupportedOperation {
        op: "+".to_string(),
        left: "PythonSourceModule".to_string(),
        right: Some("int".to_string()),
    };
    match error.to_value_error() {
        ValueError::OperationNotSupported { op, left, right } => {
            assert_eq!(op, "+");
            assert_eq!(left, "PythonSourceModule");
            assert_eq!(right, Some("int".to_string()));
        }
        other => panic!("converted to {:?}", other),
    }
}

#[test]
fn attributes_of_a_value_as_scripting_values() {
    let value = bytecode_module();
    let name = to_value_result(&value.get_attr("name")).unwrap();
    assert_eq!(name.get_type(), "string");
    assert_eq!(name.to_str(), "pkg.mod");
    let level = to_value_result(&value.get_attr("optimize_level")).unwrap();
    assert_eq!(level.get_type(), "int");
    assert_eq!(level.to_int().unwrap(), 2);
    let is_package = to_value_result(&value.get_attr("is_package")).unwrap();
    assert_eq!(is_package.get_type(), "bool");
    assert_eq!(is_package.to_int().unwrap(), 1);
}

#[test]
fn unknown_attribute_as_a_scripting_error() {
    let value = bytecode_module();
    match to_value_result(&value.get_attr("source")) {
        Err(ValueError::OperationNotSupported { op, left, right }) => {
            assert_eq!(op, ".source");
            assert_eq!(left, "PythonBytecodeModule");
            assert_eq!(right, None);
        }
        Err(other) => panic!("converted to {:?}", other),
        Ok(value) => panic!("read as {:?}", value),
    }
}

#[test]
fn wrapped_value_read_for_a_script() {
    let value = WrappedValue::BytecodeModule(bytecode_module());
    let level = value.get_attr_value("optimize_level").unwrap();
    assert_eq!(level.get_type(), "int");
    assert_eq!(level.to_int().unwrap(), 2);
    match value.get_attr_value("level") {
        Err(ValueError::OperationNotSupported { op, left, right }) => {
            assert_eq!(op, ".level");
            assert_eq!(left, "PythonBytecodeModule");
            assert_eq!(right, None);
        }
        Err(other) => panic!("converted to {:?}", other),
        Ok(value) => panic!("read as {:?}", value),
    }
}

#[test]
fn converted_source_module_read_for_a_script() {
    let resource = PythonResource::ModuleSource {
        name: "pkg.mod".to_string(),
        source: b"".to_vec(),
        is_package: true,
    };
    let value = to_scripting_value(&resource).unwrap();
    let name = value.get_attr_value("name").unwrap();
    assert_eq!(name.get_type(), "string");
    assert_eq!(name.to_str(), "pkg.mod");
    let is_package = value.get_attr_value("is_package").unwrap();
    assert_eq!(is_package.get_type(), "bool");
    assert!(is_package.to_bool());
    assert!(value.get_attr_value("source").is_err());
}
