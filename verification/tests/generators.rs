use constcodegen::codegen::{Artifact, CodeGen, JsMultiFile, JsOneFile, RustMultiFile, RustOneFile};
use constcodegen::error::GenError;
use constcodegen::scalar::Scalar;
use constcodegen::table::Table;
use std::path::PathBuf;

fn colors() -> Table {
    let mut table = Table::new();
    table.insert("red".to_string(), Scalar::String("#f00".to_string()));
    table
}

fn abc() -> Table {
    let mut table = Table::new();
    table.insert("a".to_string(), Scalar::Integer(1));
    table.insert("b".to_string(), Scalar::String("x".to_string()));
    table.insert("c".to_string(), Scalar::Boolean(true));
    table
}

fn broken() -> Table {
    let mut table = Table::new();
    table.insert("ok".to_string(), Scalar::Integer(1));
    table.insert("list".to_string(), Scalar::Unsupported);
    table
}

#[test]
fn new_generators_hold_nothing() {
    assert!(RustOneFile::new().blocks.is_empty());
    assert!(JsOneFile::new().blocks.is_empty());
    assert!(RustMultiFile::new(PathBuf::from("out")).files.is_empty());
    assert!(JsMultiFile::new(PathBuf::from("out")).files.is_empty());
    assert_eq!(RustOneFile::new().output(), "");
    assert_eq!(JsOneFile::new().output(), "");
}

#[test]
fn multi_file_generators_keep_their_root() {
    assert_eq!(RustMultiFile::new(PathBuf::from("some/dir")).root_path, PathBuf::from("some/dir"));
    assert_eq!(JsMultiFile::new(PathBuf::from(".")).root_path, PathBuf::from("."));
    let mut generator = RustMultiFile::new(PathBuf::from("gen"));
    generator.generate("colors", &colors()).unwrap();
    assert_eq!(generator.root_path, PathBuf::from("gen"));
}

#[test]
fn typed_per_file_output_has_typed_declarations() {
    let mut generator = RustMultiFile::new(PathBuf::from("."));
    assert_eq!(generator.generate("ns", &abc()), Ok(()));
    assert_eq!(generator.files.len(), 1);
    assert_eq!(generator.files[0].name, "ns.rs");
    assert_eq!(
        generator.files[0].text,
        "#[allow(dead_code)]\npub const a: i64 = 1;\npub const b: &str = \"x\";\npub const c: bool = true;\n"
    );
}

#[test]
fn rust_combined_wraps_the_namespace_in_a_module() {
    let mut generator = RustOneFile::new();
    assert_eq!(generator.generate("colors", &colors()), Ok(()));
    assert_eq!(
        generator.blocks,
        vec![Artifact {
            name: "colors".to_string(),
            text: "mod colors {\n#[allow(dead_code)]\n    pub const red: &str = \"#f00\";\n}\n\n"
                .to_string(),
        }]
    );
}

#[test]
fn js_combined_prefixes_names_with_upper_case_namespace() {
    let mut generator = JsOneFile::new();
    assert_eq!(generator.generate("colors", &colors()), Ok(()));
    assert_eq!(generator.blocks.len(), 1);
    assert_eq!(generator.blocks[0].name, "colors");
    assert_eq!(
        generator.blocks[0].text,
        "// colors\nexport const COLORS_red = \"#f00\";\n\n\n"
    );
    assert!(generator.output().contains("export const COLORS_red = \"#f00\";"));
}

#[test]
fn js_combined_upper_cases_only_the_namespace() {
    let mut table = Table::new();
    table.insert("lowerName".to_string(), Scalar::Integer(1));
    let mut generator = JsOneFile::new();
    generator.generate("myNs_1", &table).unwrap();
    assert_eq!(generator.output(), "// myNs_1\nexport const MYNS_1_lowerName = 1;\n\n\n");
}

#[test]
fn js_combined_upper_cases_beyond_ascii() {
    let mut table = Table::new();
    table.insert("k".to_string(), Scalar::Boolean(false));
    let mut generator = JsOneFile::new();
    generator.generate("stra\u{df}e", &table).unwrap();
    assert_eq!(
        generator.output(),
        "// stra\u{df}e\nexport const STRASSE_k = false;\n\n\n"
    );
}

#[test]
fn js_per_file_exports_the_bare_name() {
    let mut generator = JsMultiFile::new(PathBuf::from("."));
    assert_eq!(generator.generate("colors", &colors()), Ok(()));
    assert_eq!(
        generator.files,
        vec![Artifact {
            name: "colors.js".to_string(),
            text: "export const red = \"#f00\";\n".to_string(),
        }]
    );
}

#[test]
fn rust_per_file_names_the_file_after_the_namespace() {
    let mut generator = RustMultiFile::new(PathBuf::from("."));
    assert_eq!(generator.generate("colors", &colors()), Ok(()));
    assert_eq!(
        generator.files,
        vec![Artifact {
            name: "colors.rs".to_string(),
            text: "#[allow(dead_code)]\npub const red: &str = \"#f00\";\n".to_string(),
        }]
    );
}

#[test]
fn combined_stream_is_the_blocks_in_order() {
    let mut rust = RustOneFile::new();
    rust.generate("colors", &colors()).unwrap();
    rust.generate("ns", &abc()).unwrap();
    assert_eq!(
        rust.output(),
        "mod colors {\n#[allow(dead_code)]\n    pub const red: &str = \"#f00\";\n}\n\n\
         mod ns {\n#[allow(dead_code)]\n    pub const a: i64 = 1;\n    pub const b: &str = \"x\";\n    pub const c: bool = true;\n}\n\n"
    );
    let mut js = JsOneFile::new();
    js.generate("colors", &colors()).unwrap();
    js.generate("ns", &abc()).unwrap();
    assert_eq!(
        js.output(),
        "// colors\nexport const COLORS_red = \"#f00\";\n\n\n\
         // ns\nexport const NS_a = 1;\nexport const NS_b = \"x\";\nexport const NS_c = true;\n\n\n"
    );
}

#[test]
fn empty_namespace_still_yields_an_artifact() {
    let mut rust = RustOneFile::new();
    rust.generate("empty", &Table::new()).unwrap();
    assert_eq!(rust.output(), "mod empty {\n#[allow(dead_code)]\n}\n\n");
    let mut js = JsOneFile::new();
    js.generate("empty", &Table::new()).unwrap();
    assert_eq!(js.output(), "// empty\n\n\n");
    let mut files = JsMultiFile::new(PathBuf::from("."));
    files.generate("empty", &Table::new()).unwrap();
    assert_eq!(files.files, vec![Artifact { name: "empty.js".to_string(), text: String::new() }]);
}

#[test]
fn unsupported_value_adds_nothing_to_any_generator() {
    let expected = Err(GenError::UnsupportedType {
        namespace: "shapes".to_string(),
        constant: "list".to_string(),
    });

    let mut rust = RustOneFile::new();
    rust.generate("colors", &colors()).unwrap();
    assert_eq!(rust.generate("shapes", &broken()), expected);
    assert_eq!(rust.blocks.len(), 1);

    let mut js = JsOneFile::new();
    assert_eq!(js.generate("shapes", &broken()), expected);
    assert!(js.blocks.is_empty());

    let mut rust_files = RustMultiFile::new(PathBuf::from("."));
    assert_eq!(rust_files.generate("shapes", &broken()), expected);
    assert!(rust_files.files.is_empty());

    let mut js_files = JsMultiFile::new(PathBuf::from("."));
    js_files.generate("colors", &colors()).unwrap();
    assert_eq!(js_files.generate("shapes", &broken()), expected);
    assert_eq!(js_files.files.len(), 1);
}
