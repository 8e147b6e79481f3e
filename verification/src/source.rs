//! From TOML text to a document: the `toml` crate parses, and what it hands
//! back is read into the library's own types.

use vstd::prelude::*;
use vstd::string::StringExecFns;
use crate::error::{GenError, GenErrorView};
use crate::scalar::{supported, Scalar, ScalarView};
use crate::table::{names_of, Document, DocumentView, Section, SectionView, Table, TableView};

verus! {

/// `toml::Value`, known only through [`node`].
#[verifier::external_type_specification]
#[verifier::external_body]
pub struct ExTomlValue(toml::Value);

/// `toml::map::Map`, known only through [`map_entries`].
#[verifier::external_type_specification]
#[verifier::external_body]
#[verifier::reject_recursive_types(K)]
#[verifier::reject_recursive_types(V)]
pub struct ExTomlMap<K, V>(toml::map::Map<K, V>);

/// `toml::de::Error`, known only through [`error_text`].
#[verifier::external_type_specification]
#[verifier::external_body]
pub struct ExTomlError(toml::de::Error);

/// What a `toml::Value` is: one case for each of its seven variants. A float
/// is known by its text alone, see [`float_text`].
pub enum Node {
    String(Seq<char>),
    Integer(i64),
    Float,
    Boolean(bool),
    Datetime,
    Array,
    Table(toml::map::Map<String, toml::Value>),
}

/// The variant of a `toml::Value`, with what it holds.
pub uninterp spec fn node(v: toml::Value) -> Node;

/// The keys of a `toml::map::Map` with their values, in the order in which
/// the map is walked.
pub uninterp spec fn map_entries(t: toml::map::Map<String, toml::Value>) -> Seq<
    (Seq<char>, toml::Value),
>;

/// The text that `Display` of `toml::Value` writes for a float.
pub uninterp spec fn float_text(v: toml::Value) -> Seq<char>;

/// What `toml::from_str` makes of a text.
pub uninterp spec fn parsed(text: Seq<char>) -> Result<toml::Value, toml::de::Error>;

/// The text that `Display` of `toml::de::Error` writes.
pub uninterp spec fn error_text(e: toml::de::Error) -> Seq<char>;

/// Trusted: `as_str` hands back the string of a `Value::String`, and `None`
/// for the other variants.
pub assume_specification<'a>[ toml::Value::as_str ](v: &'a toml::Value) -> (r: Option<&'a str>)
    ensures
        match r {
            Some(s) => node(*v) == Node::String(s@),
            None => !(node(*v) is String),
        },
;

/// Trusted: `as_integer` hands back the integer of a `Value::Integer`, and
/// `None` for the other variants.
pub assume_specification[ toml::Value::as_integer ](v: &toml::Value) -> (r: Option<i64>)
    ensures
        match r {
            Some(i) => node(*v) == Node::Integer(i),
            None => !(node(*v) is Integer),
        },
;

/// Trusted: `as_bool` hands back the boolean of a `Value::Boolean`, and
/// `None` for the other variants.
pub assume_specification[ toml::Value::as_bool ](v: &toml::Value) -> (r: Option<bool>)
    ensures
        match r {
            Some(b) => node(*v) == Node::Boolean(b),
            None => !(node(*v) is Boolean),
        },
;

/// Trusted: `is_float` says whether the value is a `Value::Float`.
pub assume_specification[ toml::Value::is_float ](v: &toml::Value) -> (r: bool)
    ensures
        r == (node(*v) is Float),
;

/// Trusted: `as_table` hands back the map of a `Value::Table`, and `None`
/// for the other variants.
pub assume_specification<'a>[ toml::Value::as_table ](v: &'a toml::Value) -> (r: Option<
    &'a toml::map::Map<String, toml::Value>,
>)
    ensures
        match r {
            Some(t) => node(*v) == Node::Table(*t),
            None => !(node(*v) is Table),
        },
;

/// Calls `toml::from_str` for a `toml::Value`. Trusted: the result depends on
/// the text alone.
#[verifier::external_body]
fn parse_toml(text: &str) -> (r: Result<toml::Value, toml::de::Error>)
    ensures
        r == parsed(text@),
{
    toml::from_str(text)
}

/// Calls `Display` of `toml::de::Error`. Trusted: the text depends on the
/// error alone.
#[verifier::external_body]
fn parse_error_message(e: &toml::de::Error) -> (message: String)
    ensures
        message@ == error_text(*e),
{
    e.to_string()
}

/// Calls `Display` of `toml::Value` on a float. Trusted: the text depends on
/// the value alone.
#[verifier::external_body]
fn float_literal(v: &toml::Value) -> (text: String)
    requires
        node(*v) is Float,
    ensures
        text@ == float_text(*v),
{
    v.to_string()
}

/// Calls `toml::map::Map::iter` and collects what it yields. Trusted: the
/// map yields each of its entries once, and no key twice.
#[verifier::external_body]
fn entries_of<'a>(t: &'a toml::map::Map<String, toml::Value>) -> (entries: Vec<
    (&'a String, &'a toml::Value),
>)
    ensures
        entries@.len() == map_entries(*t).len(),
        forall|i: int|
            0 <= i < entries@.len() ==> ((#[trigger] entries@[i]).0@, *entries@[i].1)
                == map_entries(*t)[i],
        forall|i: int, j: int|
            0 <= i < j < entries@.len() ==> (#[trigger] entries@[i]).0@ != (
            #[trigger] entries@[j]).0@,
{
    t.iter().collect()
}

/// The scalar that a parsed value stands for: a date, an array and a table
/// are unsupported.
pub open spec fn scalar_of(v: toml::Value) -> ScalarView {
    match node(v) {
        Node::String(s) => ScalarView::String(s),
        Node::Integer(i) => ScalarView::Integer(i),
        Node::Float => ScalarView::Float(float_text(v)),
        Node::Boolean(b) => ScalarView::Boolean(b),
        Node::Datetime => ScalarView::Unsupported,
        Node::Array => ScalarView::Unsupported,
        Node::Table(_) => ScalarView::Unsupported,
    }
}

/// The constants of a parsed table, in the table's order.
pub open spec fn table_of(t: toml::map::Map<String, toml::Value>) -> TableView {
    map_entries(t).map_values(|e: (Seq<char>, toml::Value)| (e.0, scalar_of(e.1)))
}

/// The section that a parsed value stands for.
pub open spec fn section_of(v: toml::Value) -> SectionView {
    match node(v) {
        Node::Table(t) => SectionView::Table(table_of(t)),
        _ => SectionView::NotATable,
    }
}

/// The document that a parsed value stands for: its namespaces in the
/// value's order, where the value is a table.
pub open spec fn document_of(root: toml::Value) -> Result<DocumentView, GenErrorView> {
    match node(root) {
        Node::Table(t) => Ok(
            map_entries(t).map_values(|e: (Seq<char>, toml::Value)| (e.0, section_of(e.1))),
        ),
        _ => Err(GenErrorView::DocumentNotTable),
    }
}

/// The document that a text stands for, or why it stands for none.
pub open spec fn loaded(text: Seq<char>) -> Result<DocumentView, GenErrorView> {
    match parsed(text) {
        Ok(root) => document_of(root),
        Err(e) => Err(GenErrorView::Parse { message: error_text(e) }),
    }
}

/// Strings, integers, floats and booleans are supported, and nothing else
/// is.
pub proof fn lemma_supported_kinds(v: toml::Value)
    ensures
        supported(scalar_of(v)) <==> node(v) is String || node(v) is Integer || node(v) is Float
            || node(v) is Boolean,
{
}

/// Reads one parsed value as a scalar.
pub fn scalar_from(v: &toml::Value) -> (s: Scalar)
    ensures
        s@ == scalar_of(*v),
{
    if let Some(text) = v.as_str() {
        Scalar::String(String::from_str(text))
    } else if let Some(i) = v.as_integer() {
        Scalar::Integer(i)
    } else if v.is_float() {
        Scalar::Float(float_literal(v))
    } else if let Some(b) = v.as_bool() {
        Scalar::Boolean(b)
    } else {
        Scalar::Unsupported
    }
}

/// Reads a parsed table as a table of constants.
pub fn table_from(t: &toml::map::Map<String, toml::Value>) -> (table: Table)
    ensures
        table@ == table_of(*t),
{
    let entries = entries_of(t);
    let mut table = Table::new();
    let mut i: usize = 0;
    while i < entries.len()
        invariant
            i <= entries.len(),
            entries@.len() == map_entries(*t).len(),
            forall|k: int|
                0 <= k < entries@.len() ==> ((#[trigger] entries@[k]).0@, *entries@[k].1)
                    == map_entries(*t)[k],
            forall|a: int, b: int|
                0 <= a < b < entries@.len() ==> (#[trigger] entries@[a]).0@ != (
                #[trigger] entries@[b]).0@,
            table.entries().len() == i,
            names_of(table.entries()) == names_of(map_entries(*t)).take(i as int),
            table@ == table_of(*t).take(i as int),
        decreases entries.len() - i,
    {
        let (name, value) = entries[i];
        let scalar = scalar_from(value);
        let ghost before = table.entries();
        let replaced = table.insert(name.clone(), scalar);
        proof {
            let keys = names_of(map_entries(*t));
            assert(keys[i as int] == name@);
            if replaced is Some {
                let k = choose|k: int|
                    0 <= k < before.len() && #[trigger] before[k] == (name@, replaced->Some_0);
                assert(names_of(before)[k] == name@);
                assert(keys.take(i as int)[k] == keys[k]);
                assert(entries@[k].0@ == keys[k]);
                assert(entries@[i as int].0@ == name@);
            }
            assert(table.entries() == before.push((name@, scalar)));
            assert(names_of(table.entries()) =~= keys.take(i + 1));
            assert(table@ =~= table_of(*t).take(i + 1));
        }
        i += 1;
    }
    proof {
        assert(table_of(*t).take(i as int) =~= table_of(*t));
    }
    table
}

/// Reads what stands under a namespace's name.
pub fn section_from(v: &toml::Value) -> (section: Section)
    ensures
        section@ == section_of(*v),
{
    match v.as_table() {
        Some(t) => Section::Table(table_from(t)),
        None => Section::NotATable,
    }
}

/// Reads a parsed value as a document. A value that is no table is no
/// document.
pub fn document_from(root: &toml::Value) -> (r: Result<Document, GenError>)
    ensures
        match r {
            Ok(document) => document_of(*root) == Ok::<DocumentView, GenErrorView>(document@),
            Err(e) => document_of(*root) == Err::<DocumentView, GenErrorView>(e@),
        },
{
    let t = match root.as_table() {
        Some(t) => t,
        None => {
            return Err(GenError::DocumentNotTable);
        },
    };
    let ghost sections = map_entries(*t).map_values(
        |e: (Seq<char>, toml::Value)| (e.0, section_of(e.1)),
    );
    let entries = entries_of(t);
    let mut document = Document::new();
    let mut i: usize = 0;
    while i < entries.len()
        invariant
            i <= entries.len(),
            entries@.len() == map_entries(*t).len(),
            forall|k: int|
                0 <= k < entries@.len() ==> ((#[trigger] entries@[k]).0@, *entries@[k].1)
                    == map_entries(*t)[k],
            forall|a: int, b: int|
                0 <= a < b < entries@.len() ==> (#[trigger] entries@[a]).0@ != (
                #[trigger] entries@[b]).0@,
            sections == map_entries(*t).map_values(
                |e: (Seq<char>, toml::Value)| (e.0, section_of(e.1)),
            ),
            document.entries().len() == i,
            names_of(document.entries()) == names_of(map_entries(*t)).take(i as int),
            document@ == sections.take(i as int),
        decreases entries.len() - i,
    {
        let (name, value) = entries[i];
        let section = section_from(value);
        let ghost before = document.entries();
        let replaced = document.insert(name.clone(), section);
        proof {
            let keys = names_of(map_entries(*t));
            assert(keys[i as int] == name@);
            if replaced is Some {
                let k = choose|k: int|
                    0 <= k < before.len() && #[trigger] before[k] == (name@, replaced->Some_0);
                assert(names_of(before)[k] == name@);
                assert(keys.take(i as int)[k] == keys[k]);
                assert(entries@[k].0@ == keys[k]);
                assert(entries@[i as int].0@ == name@);
            }
            assert(document.entries() == before.push((name@, section)));
            assert(names_of(document.entries()) =~= keys.take(i + 1));
            assert(document@ =~= sections.take(i + 1));
        }
        i += 1;
    }
    proof {
        assert(sections.take(i as int) =~= sections);
    }
    Ok(document)
}

/// Parses a text and reads it as a document.
pub fn load_document(text: &str) -> (r: Result<Document, GenError>)
    ensures
        match r {
            Ok(document) => loaded(text@) == Ok::<DocumentView, GenErrorView>(document@),
            Err(e) => loaded(text@) == Err::<DocumentView, GenErrorView>(e@),
        },
{
    match parse_toml(text) {
        Ok(root) => document_from(&root),
        Err(e) => Err(GenError::Parse { message: parse_error_message(&e) }),
    }
}

} // verus!
