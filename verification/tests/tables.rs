use constcodegen::scalar::Scalar;
use constcodegen::table::{Document, Section, Table};

#[test]
fn new_table_is_empty() {
    let table = Table::new();
    assert_eq!(table.len(), 0);
}

#[test]
fn insert_appends_new_names_in_order() {
    let mut table = Table::new();
    assert_eq!(table.insert("b".to_string(), Scalar::Integer(2)), None);
    assert_eq!(table.insert("a".to_string(), Scalar::Integer(1)), None);
    assert_eq!(table.len(), 2);
    assert_eq!(table.entry(0), (&"b".to_string(), &Scalar::Integer(2)));
    assert_eq!(table.entry(1), (&"a".to_string(), &Scalar::Integer(1)));
}

#[test]
fn insert_replaces_the_item_of_a_taken_name_in_place() {
    let mut table = Table::new();
    table.insert("a".to_string(), Scalar::Integer(1));
    table.insert("b".to_string(), Scalar::Integer(2));
    table.insert("c".to_string(), Scalar::Integer(3));
    let replaced = table.insert("b".to_string(), Scalar::Boolean(true));
    assert_eq!(replaced, Some(Scalar::Integer(2)));
    assert_eq!(table.len(), 3);
    assert_eq!(table.entry(0), (&"a".to_string(), &Scalar::Integer(1)));
    assert_eq!(table.entry(1), (&"b".to_string(), &Scalar::Boolean(true)));
    assert_eq!(table.entry(2), (&"c".to_string(), &Scalar::Integer(3)));
}

#[test]
fn entry_gives_name_and_item() {
    let mut table = Table::new();
    table.insert("only".to_string(), Scalar::String("x".to_string()));
    let (name, item) = table.entry(0);
    assert_eq!(name, "only");
    assert_eq!(item, &Scalar::String("x".to_string()));
}

#[test]
fn names_stay_distinct_after_many_inserts() {
    let mut table = Table::new();
    for round in 0..3 {
        for name in ["x", "y", "z", "x"] {
            table.insert(name.to_string(), Scalar::Integer(round));
        }
    }
    assert_eq!(table.len(), 3);
    for i in 0..table.len() {
        for j in 0..table.len() {
            if i != j {
                assert_ne!(table.entry(i).0, table.entry(j).0);
            }
        }
        assert_eq!(table.entry(i).1, &Scalar::Integer(2));
    }
}

#[test]
fn document_holds_sections_under_names() {
    let mut constants = Table::new();
    constants.insert("k".to_string(), Scalar::Integer(1));
    let mut document = Document::new();
    assert_eq!(document.insert("ns".to_string(), Section::Table(constants)), None);
    assert_eq!(document.insert("odd".to_string(), Section::NotATable), None);
    assert_eq!(document.len(), 2);
    assert_eq!(document.entry(1).0, "odd");
    assert_eq!(document.entry(1).1, &Section::NotATable);
    assert_eq!(document.insert("odd".to_string(), Section::NotATable), Some(Section::NotATable));
    assert_eq!(document.len(), 2);
}
