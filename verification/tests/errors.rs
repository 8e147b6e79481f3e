use constcodegen::error::GenError;

#[test]
fn unknown_language_message() {
    assert_eq!(GenError::UnknownLanguage.message(), "unknown language");
}

#[test]
fn parse_message_is_the_cause() {
    let e = GenError::Parse { message: "expected an equals, found eof at line 1 column 2".to_string() };
    assert_eq!(e.message(), "expected an equals, found eof at line 1 column 2");
}

#[test]
fn document_not_table_message() {
    assert_eq!(GenError::DocumentNotTable.message(), "toml file is not a table");
}

#[test]
fn namespace_not_table_message_names_the_namespace() {
    let e = GenError::NamespaceNotTable { namespace: "colors".to_string() };
    assert_eq!(e.message(), "toml namespace is not a table: colors");
}

#[test]
fn unsupported_type_message_names_constant_and_namespace() {
    let e = GenError::UnsupportedType {
        namespace: "colors".to_string(),
        constant: "palette".to_string(),
    };
    assert_eq!(e.message(), "unsupported type of constant palette in namespace colors");
}
