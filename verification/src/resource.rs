//! The records that describe what a packaging run has found: Python source
//! modules, requests for bytecode, data files and extension modules.

use crate::order::{
    bool_order, bytes_order, compare_bool, compare_bytes, compare_int, compare_optional_text,
    compare_text, int_order, lemma_bytes_order_chain, lemma_bytes_order_equal,
    lemma_bytes_order_reversed, lemma_optional_text_order_chain,
    lemma_optional_text_order_equal, lemma_optional_text_order_reversed,
    lemma_text_order_chain, lemma_text_order_equal, lemma_text_order_reversed, optional_text,
    optional_text_order, text_order, Comparison,
};
use vstd::prelude::*;

verus! {

/// How far the bytecode of a module is optimized.
#[derive(Clone, Copy, Debug, PartialEq, Eq, Structural)]
pub enum BytecodeOptimizationLevel {
    Zero,
    One,
    Two,
}

impl BytecodeOptimizationLevel {
    /// The number of this level: 0, 1 or 2.
    pub open spec fn level(self) -> int {
        match self {
            BytecodeOptimizationLevel::Zero => 0,
            BytecodeOptimizationLevel::One => 1,
            BytecodeOptimizationLevel::Two => 2,
        }
    }

    /// The level that a number names, if it names one.
    pub open spec fn of_level(level: int) -> Option<BytecodeOptimizationLevel> {
        if level == 0 {
            Some(BytecodeOptimizationLevel::Zero)
        } else if level == 1 {
            Some(BytecodeOptimizationLevel::One)
        } else if level == 2 {
            Some(BytecodeOptimizationLevel::Two)
        } else {
            None
        }
    }

    /// The word for this level in displayed text.
    pub open spec fn label_text(self) -> Seq<char> {
        match self {
            BytecodeOptimizationLevel::Zero => "Zero"@,
            BytecodeOptimizationLevel::One => "One"@,
            BytecodeOptimizationLevel::Two => "Two"@,
        }
    }

    /// The level that a number names, if it names one.
    pub fn from_int(level: i32) -> (r: Option<BytecodeOptimizationLevel>)
        ensures
            r == BytecodeOptimizationLevel::of_level(level as int),
    {
        match level {
            0 => Some(BytecodeOptimizationLevel::Zero),
            1 => Some(BytecodeOptimizationLevel::One),
            2 => Some(BytecodeOptimizationLevel::Two),
            _ => None,
        }
    }

    /// The number of this level.
    pub fn to_int(self) -> (r: i64)
        ensures
            r == self.level(),
    {
        match self {
            BytecodeOptimizationLevel::Zero => 0,
            BytecodeOptimizationLevel::One => 1,
            BytecodeOptimizationLevel::Two => 2,
        }
    }

    /// The word for this level in displayed text.
    pub fn label(self) -> (r: &'static str)
        ensures
            r@ == self.label_text(),
    {
        match self {
            BytecodeOptimizationLevel::Zero => "Zero",
            BytecodeOptimizationLevel::One => "One",
            BytecodeOptimizationLevel::Two => "Two",
        }
    }
}

/// A copy of a text that may be absent.
pub fn copy_optional_text(text: &Option<String>) -> (r: Option<String>)
    ensures
        optional_text(r) == optional_text(*text),
{
    match text {
        Some(s) => Some(s.clone()),
        None => None,
    }
}

/// A Python module given as source code.
#[derive(Debug, PartialEq, Eq)]
pub struct SourceModule {
    pub name: String,
    pub source: Vec<u8>,
    pub is_package: bool,
}

/// What a source module holds.
pub struct SourceModuleView {
    pub name: Seq<char>,
    pub source: Seq<u8>,
    pub is_package: bool,
}

impl View for SourceModule {
    type V = SourceModuleView;

    open spec fn view(&self) -> SourceModuleView {
        SourceModuleView { name: self.name@, source: self.source@, is_package: self.is_package }
    }
}

impl SourceModuleView {
    /// The order of two source modules: by name, then by source, then by
    /// whether they are packages.
    pub open spec fn order(self, other: SourceModuleView) -> Comparison {
        text_order(self.name, other.name).then_with(
            bytes_order(self.source, other.source).then_with(
                bool_order(self.is_package, other.is_package),
            ),
        )
    }

    /// Two records compare as equal exactly when they are the same.
    pub proof fn lemma_order_equal(self, other: SourceModuleView)
        ensures
            self.order(other) == Comparison::Equal <==> self == other,
    {
        lemma_text_order_equal(self.name, other.name);
        lemma_bytes_order_equal(self.source, other.source);
    }

    /// Comparing two records the other way round gives the reverse.
    pub proof fn lemma_order_reversed(self, other: SourceModuleView)
        ensures
            other.order(self) == self.order(other).reversed(),
    {
        lemma_text_order_reversed(self.name, other.name);
        lemma_bytes_order_reversed(self.source, other.source);
    }

    /// The order of records is transitive.
    pub proof fn lemma_order_transitive(self, middle: SourceModuleView, other: SourceModuleView)
        requires
            self.order(middle) == Comparison::Less,
            middle.order(other) == Comparison::Less,
        ensures
            self.order(other) == Comparison::Less,
    {
        lemma_text_order_chain(self.name, middle.name, other.name);
        lemma_bytes_order_chain(self.source, middle.source, other.source);
    }
}

impl Clone for SourceModule {
    /// A copy that shares nothing with this record.
    fn clone(&self) -> (r: SourceModule)
        ensures
            r@ == self@,
    {
        SourceModule {
            name: self.name.clone(),
            source: self.source.clone(),
            is_package: self.is_package,
        }
    }
}

impl SourceModule {
    /// Compares this record with another, field by field.
    pub fn compare(&self, other: &SourceModule) -> (r: Comparison)
        ensures
            r == self@.order(other@),
    {
        match compare_text(self.name.as_str(), other.name.as_str()) {
            Comparison::Equal => match compare_bytes(
                self.source.as_slice(),
                other.source.as_slice(),
            ) {
                Comparison::Equal => compare_bool(self.is_package, other.is_package),
                decided => decided,
            },
            decided => decided,
        }
    }
}

/// A Python module to be compiled to bytecode from its source code.
#[derive(Debug, PartialEq, Eq)]
pub struct BytecodeModule {
    pub name: String,
    pub source: Vec<u8>,
    pub optimize_level: BytecodeOptimizationLevel,
    pub is_package: bool,
}

/// What a bytecode module holds.
pub struct BytecodeModuleView {
    pub name: Seq<char>,
    pub source: Seq<u8>,
    pub optimize_level: BytecodeOptimizationLevel,
    pub is_package: bool,
}

impl View for BytecodeModule {
    type V = BytecodeModuleView;

    open spec fn view(&self) -> BytecodeModuleView {
        BytecodeModuleView {
            name: self.name@,
            source: self.source@,
            optimize_level: self.optimize_level,
            is_package: self.is_package,
        }
    }
}

impl BytecodeModuleView {
    /// The order of two bytecode modules: by name, then by source, then by
    /// level, then by whether they are packages.
    pub open spec fn order(self, other: BytecodeModuleView) -> Comparison {
        text_order(self.name, other.name).then_with(
            bytes_order(self.source, other.source).then_with(
                int_order(self.optimize_level.level(), other.optimize_level.level()).then_with(
                    bool_order(self.is_package, other.is_package),
                ),
            ),
        )
    }

    /// Two records compare as equal exactly when they are the same.
    pub proof fn lemma_order_equal(self, other: BytecodeModuleView)
        ensures
            self.order(other) == Comparison::Equal <==> self == other,
    {
        lemma_text_order_equal(self.name, other.name);
        lemma_bytes_order_equal(self.source, other.source);
    }

    /// Comparing two records the other way round gives the reverse.
    pub proof fn lemma_order_reversed(self, other: BytecodeModuleView)
        ensures
            other.order(self) == self.order(other).reversed(),
    {
        lemma_text_order_reversed(self.name, other.name);
        lemma_bytes_order_reversed(self.source, other.source);
    }

    /// The order of records is transitive.
    pub proof fn lemma_order_transitive(
        self,
        middle: BytecodeModuleView,
        other: BytecodeModuleView,
    )
        requires
            self.order(middle) == Comparison::Less,
            middle.order(other) == Comparison::Less,
        ensures
            self.order(other) == Comparison::Less,
    {
        lemma_text_order_chain(self.name, middle.name, other.name);
        lemma_bytes_order_chain(self.source, middle.source, other.source);
    }
}

impl Clone for BytecodeModule {
    /// A copy that shares nothing with this record.
    fn clone(&self) -> (r: BytecodeModule)
        ensures
            r@ == self@,
    {
        BytecodeModule {
            name: self.name.clone(),
            source: self.source.clone(),
            optimize_level: self.optimize_level,
            is_package: self.is_package,
        }
    }
}

impl BytecodeModule {
    /// Compares this record with another, field by field.
    pub fn compare(&self, other: &BytecodeModule) -> (r: Comparison)
        ensures
            r == self@.order(other@),
    {
        match compare_text(self.name.as_str(), other.name.as_str()) {
            Comparison::Equal => match compare_bytes(
                self.source.as_slice(),
                other.source.as_slice(),
            ) {
                Comparison::Equal => match compare_int(
                    self.optimize_level.to_int(),
                    other.optimize_level.to_int(),
                ) {
                    Comparison::Equal => compare_bool(self.is_package, other.is_package),
                    decided => decided,
                },
                decided => decided,
            },
            decided => decided,
        }
    }
}

/// A data file that belongs to a Python package.
#[derive(Debug, PartialEq, Eq)]
pub struct ResourceData {
    pub package: String,
    pub name: String,
    pub data: Vec<u8>,
}

/// What a data file holds.
pub struct ResourceDataView {
    pub package: Seq<char>,
    pub name: Seq<char>,
    pub data: Seq<u8>,
}

impl View for ResourceData {
    type V = ResourceDataView;

    open spec fn view(&self) -> ResourceDataView {
        ResourceDataView { package: self.package@, name: self.name@, data: self.data@ }
    }
}

impl ResourceDataView {
    /// The order of two data files: by package, then by name, then by
    /// content.
    pub open spec fn order(self, other: ResourceDataView) -> Comparison {
        text_order(self.package, other.package).then_with(
            text_order(self.name, other.name).then_with(bytes_order(self.data, other.data)),
        )
    }

    /// Two records compare as equal exactly when they are the same.
    pub proof fn lemma_order_equal(self, other: ResourceDataView)
        ensures
            self.order(other) == Comparison::Equal <==> self == other,
    {
        lemma_text_order_equal(self.package, other.package);
        lemma_text_order_equal(self.name, other.name);
        lemma_bytes_order_equal(self.data, other.data);
    }

    /// Comparing two records the other way round gives the reverse.
    pub proof fn lemma_order_reversed(self, other: ResourceDataView)
        ensures
            other.order(self) == self.order(other).reversed(),
    {
        lemma_text_order_reversed(self.package, other.package);
        lemma_text_order_reversed(self.name, other.name);
        lemma_bytes_order_reversed(self.data, other.data);
    }

    /// The order of records is transitive.
    pub proof fn lemma_order_transitive(self, middle: ResourceDataView, other: ResourceDataView)
        requires
            self.order(middle) == Comparison::Less,
            middle.order(other) == Comparison::Less,
        ensures
            self.order(other) == Comparison::Less,
    {
        lemma_text_order_chain(self.package, middle.package, other.package);
        lemma_text_order_chain(self.name, middle.name, other.name);
        lemma_bytes_order_chain(self.data, middle.data, other.data);
    }
}

impl Clone for ResourceData {
    /// A copy that shares nothing with this record.
    fn clone(&self) -> (r: ResourceData)
        ensures
            r@ == self@,
    {
        ResourceData {
            package: self.package.clone(),
            name: self.name.clone(),
            data: self.data.clone(),
        }
    }
}

impl ResourceData {
    /// Compares this record with another, field by field.
    pub fn compare(&self, other: &ResourceData) -> (r: Comparison)
        ensures
            r == self@.order(other@),
    {
        match compare_text(self.package.as_str(), other.package.as_str()) {
            Comparison::Equal => match compare_text(self.name.as_str(), other.name.as_str()) {
                Comparison::Equal => compare_bytes(self.data.as_slice(), other.data.as_slice()),
                decided => decided,
            },
            decided => decided,
        }
    }
}

/// An extension module that was built for this packaging run, as object
/// code to link or as a shared library.
#[derive(Debug, PartialEq, Eq)]
pub struct ExtensionModuleData {
    pub name: String,
    pub init_fn: Option<String>,
    pub extension_file_suffix: String,
    pub extension_data: Vec<u8>,
    pub is_package: bool,
}

/// What a built extension module holds.
pub struct ExtensionModuleDataView {
    pub name: Seq<char>,
    pub init_fn: Option<Seq<char>>,
    pub extension_file_suffix: Seq<char>,
    pub extension_data: Seq<u8>,
    pub is_package: bool,
}

impl View for ExtensionModuleData {
    type V = ExtensionModuleDataView;

    open spec fn view(&self) -> ExtensionModuleDataView {
        ExtensionModuleDataView {
            name: self.name@,
            init_fn: optional_text(self.init_fn),
            extension_file_suffix: self.extension_file_suffix@,
            extension_data: self.extension_data@,
            is_package: self.is_package,
        }
    }
}

impl ExtensionModuleDataView {
    /// The order of two built extension modules, field by field as declared.
    pub open spec fn order(self, other: ExtensionModuleDataView) -> Comparison {
        text_order(self.name, other.name).then_with(
            optional_text_order(self.init_fn, other.init_fn).then_with(
                text_order(self.extension_file_suffix, other.extension_file_suffix).then_with(
                    bytes_order(self.extension_data, other.extension_data).then_with(
                        bool_order(self.is_package, other.is_package),
                    ),
                ),
            ),
        )
    }

    /// Two records compare as equal exactly when they are the same.
    pub proof fn lemma_order_equal(self, other: ExtensionModuleDataView)
        ensures
            self.order(other) == Comparison::Equal <==> self == other,
    {
        lemma_text_order_equal(self.name, other.name);
        lemma_optional_text_order_equal(self.init_fn, other.init_fn);
        lemma_text_order_equal(self.extension_file_suffix, other.extension_file_suffix);
        lemma_bytes_order_equal(self.extension_data, other.extension_data);
    }

    /// Comparing two records the other way round gives the reverse.
    pub proof fn lemma_order_reversed(self, other: ExtensionModuleDataView)
        ensures
            other.order(self) == self.order(other).reversed(),
    {
        lemma_text_order_reversed(self.name, other.name);
        lemma_optional_text_order_reversed(self.init_fn, other.init_fn);
        lemma_text_order_reversed(self.extension_file_suffix, other.extension_file_suffix);
        lemma_bytes_order_reversed(self.extension_data, other.extension_data);
    }

    /// The order of records is transitive.
    pub proof fn lemma_order_transitive(
        self,
        middle: ExtensionModuleDataView,
        other: ExtensionModuleDataView,
    )
        requires
            self.order(middle) == Comparison::Less,
            middle.order(other) == Comparison::Less,
        ensures
            self.order(other) == Comparison::Less,
    {
        lemma_text_order_chain(self.name, middle.name, other.name);
        lemma_optional_text_order_chain(self.init_fn, middle.init_fn, other.init_fn);
        lemma_text_order_chain(self.extension_file_suffix, middle.extension_file_suffix, other.extension_file_suffix);
        lemma_bytes_order_chain(self.extension_data, middle.extension_data, other.extension_data);
    }
}

impl Clone for ExtensionModuleData {
    /// A copy that shares nothing with this record.
    fn clone(&self) -> (r: ExtensionModuleData)
        ensures
            r@ == self@,
    {
        ExtensionModuleData {
            name: self.name.clone(),
            init_fn: copy_optional_text(&self.init_fn),
            extension_file_suffix: self.extension_file_suffix.clone(),
            extension_data: self.extension_data.clone(),
            is_package: self.is_package,
        }
    }
}

impl ExtensionModuleData {
    /// Compares this record with another, field by field.
    pub fn compare(&self, other: &ExtensionModuleData) -> (r: Comparison)
        ensures
            r == self@.order(other@),
    {
        match compare_text(self.name.as_str(), other.name.as_str()) {
            Comparison::Equal => match compare_optional_text(&self.init_fn, &other.init_fn) {
                Comparison::Equal => match compare_text(
                    self.extension_file_suffix.as_str(),
                    other.extension_file_suffix.as_str(),
                ) {
                    Comparison::Equal => match compare_bytes(
                        self.extension_data.as_slice(),
                        other.extension_data.as_slice(),
                    ) {
                        Comparison::Equal => compare_bool(self.is_package, other.is_package),
                        decided => decided,
                    },
                    decided => decided,
                },
                decided => decided,
            },
            decided => decided,
        }
    }
}

/// An extension module that a Python distribution provides.
#[derive(Debug, PartialEq, Eq)]
pub struct ExtensionModule {
    pub module: String,
    pub init_fn: Option<String>,
    pub builtin_default: bool,
    pub disableable: bool,
    pub required: bool,
    pub variant: String,
}

/// What a distribution extension module holds.
pub struct ExtensionModuleView {
    pub module: Seq<char>,
    pub init_fn: Option<Seq<char>>,
    pub builtin_default: bool,
    pub disableable: bool,
    pub required: bool,
    pub variant: Seq<char>,
}

impl View for ExtensionModule {
    type V = ExtensionModuleView;

    open spec fn view(&self) -> ExtensionModuleView {
        ExtensionModuleView {
            module: self.module@,
            init_fn: optional_text(self.init_fn),
            builtin_default: self.builtin_default,
            disableable: self.disableable,
            required: self.required,
            variant: self.variant@,
        }
    }
}

impl ExtensionModuleView {
    /// The order of two distribution extension modules, field by field as
    /// declared.
    pub open spec fn order(self, other: ExtensionModuleView) -> Comparison {
        text_order(self.module, other.module).then_with(
            optional_text_order(self.init_fn, other.init_fn).then_with(
                bool_order(self.builtin_default, other.builtin_default).then_with(
                    bool_order(self.disableable, other.disableable).then_with(
                        bool_order(self.required, other.required).then_with(
                            text_order(self.variant, other.variant),
                        ),
                    ),
                ),
            ),
        )
    }

    /// Two records compare as equal exactly when they are the same.
    pub proof fn lemma_order_equal(self, other: ExtensionModuleView)
        ensures
            self.order(other) == Comparison::Equal <==> self == other,
    {
        lemma_text_order_equal(self.module, other.module);
        lemma_optional_text_order_equal(self.init_fn, other.init_fn);
        lemma_text_order_equal(self.variant, other.variant);
    }

    /// Comparing two records the other way round gives the reverse.
    pub proof fn lemma_order_reversed(self, other: ExtensionModuleView)
        ensures
            other.order(self) == self.order(other).reversed(),
    {
        lemma_text_order_reversed(self.module, other.module);
        lemma_optional_text_order_reversed(self.init_fn, other.init_fn);
        lemma_text_order_reversed(self.variant, other.variant);
    }

    /// The order of records is transitive.
    pub proof fn lemma_order_transitive(
        self,
        middle: ExtensionModuleView,
        other: ExtensionModuleView,
    )
        requires
            self.order(middle) == Comparison::Less,
            middle.order(other) == Comparison::Less,
        ensures
            self.order(other) == Comparison::Less,
    {
        lemma_text_order_chain(self.module, middle.module, other.module);
        lemma_optional_text_order_chain(self.init_fn, middle.init_fn, other.init_fn);
        lemma_text_order_chain(self.variant, middle.variant, other.variant);
    }
}

impl Clone for ExtensionModule {
    /// A copy that shares nothing with this record.
    fn clone(&self) -> (r: ExtensionModule)
        ensures
            r@ == self@,
    {
        ExtensionModule {
            module: self.module.clone(),
            init_fn: copy_optional_text(&self.init_fn),
            builtin_default: self.builtin_default,
            disableable: self.disableable,
            required: self.required,
            variant: self.variant.clone(),
        }
    }
}

impl ExtensionModule {
    /// Compares this record with another, field by field.
    pub fn compare(&self, other: &ExtensionModule) -> (r: Comparison)
        ensures
            r == self@.order(other@),
    {
        match compare_text(self.module.as_str(), other.module.as_str()) {
            Comparison::Equal => match compare_optional_text(&self.init_fn, &other.init_fn) {
                Comparison::Equal => match compare_bool(
                    self.builtin_default,
                    other.builtin_default,
                ) {
                    Comparison::Equal => match compare_bool(self.disableable, other.disableable) {
                        Comparison::Equal => match compare_bool(self.required, other.required) {
                            Comparison::Equal => compare_text(
                                self.variant.as_str(),
                                other.variant.as_str(),
                            ),
                            decided => decided,
                        },
                        decided => decided,
                    },
                    decided => decided,
                },
                decided => decided,
            },
            decided => decided,
        }
    }
}

/// Something that a packaging run has found and may put into an application.
#[derive(Debug, PartialEq, Eq)]
#[allow(inconsistent_fields)]
pub enum PythonResource {
    /// A module given as source code.
    ModuleSource { name: String, source: Vec<u8>, is_package: bool },
    /// A module to be compiled to bytecode at the given level, which is 0, 1
    /// or 2.
    ModuleBytecodeRequest { name: String, source: Vec<u8>, optimize_level: i32, is_package: bool },
    /// A module given as bytecode.
    ModuleBytecode {
        name: String,
        bytecode: Vec<u8>,
        optimize_level: BytecodeOptimizationLevel,
        is_package: bool,
    },
    /// A data file of a package.
    Resource { package: String, name: String, data: Vec<u8> },
    /// An extension module in a shared library.
    ExtensionModuleDynamicLibrary(ExtensionModuleData),
    /// An extension module to link into the application.
    ExtensionModuleStaticallyLinked(ExtensionModuleData),
}

/// What a resource holds.
#[allow(inconsistent_fields)]
pub enum PythonResourceView {
    ModuleSource { name: Seq<char>, source: Seq<u8>, is_package: bool },
    ModuleBytecodeRequest {
        name: Seq<char>,
        source: Seq<u8>,
        optimize_level: i32,
        is_package: bool,
    },
    ModuleBytecode {
        name: Seq<char>,
        bytecode: Seq<u8>,
        optimize_level: BytecodeOptimizationLevel,
        is_package: bool,
    },
    Resource { package: Seq<char>, name: Seq<char>, data: Seq<u8> },
    ExtensionModuleDynamicLibrary(ExtensionModuleDataView),
    ExtensionModuleStaticallyLinked(ExtensionModuleDataView),
}

impl View for PythonResource {
    type V = PythonResourceView;

    open spec fn view(&self) -> PythonResourceView {
        match self {
            PythonResource::ModuleSource { name, source, is_package } => {
                PythonResourceView::ModuleSource {
                    name: name@,
                    source: source@,
                    is_package: *is_package,
                }
            },
            PythonResource::ModuleBytecodeRequest { name, source, optimize_level, is_package } => {
                PythonResourceView::ModuleBytecodeRequest {
                    name: name@,
                    source: source@,
                    optimize_level: *optimize_level,
                    is_package: *is_package,
                }
            },
            PythonResource::ModuleBytecode { name, bytecode, optimize_level, is_package } => {
                PythonResourceView::ModuleBytecode {
                    name: name@,
                    bytecode: bytecode@,
                    optimize_level: *optimize_level,
                    is_package: *is_package,
                }
            },
            PythonResource::Resource { package, name, data } => {
                PythonResourceView::Resource { package: package@, name: name@, data: data@ }
            },
            PythonResource::ExtensionModuleDynamicLibrary(em) => {
                PythonResourceView::ExtensionModuleDynamicLibrary(em@)
            },
            PythonResource::ExtensionModuleStaticallyLinked(em) => {
                PythonResourceView::ExtensionModuleStaticallyLinked(em@)
            },
        }
    }
}

} // verus!
