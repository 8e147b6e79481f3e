//! The text of a namespace's constants, as Rust declarations and as
//! JavaScript exports.

use vstd::prelude::*;
use vstd::string::StringExecFns;
use crate::error::{GenError, GenErrorView};
use crate::scalar::{literal, rust_type, supported, value_to_literal, value_to_rust_type};
use crate::table::{Table, TableView};

verus! {

/// The position of the first constant whose value is unsupported, if there is
/// one.
pub open spec fn first_unsupported(table: TableView) -> Option<int>
    decreases table.len(),
{
    if table.len() == 0 {
        None
    } else {
        match first_unsupported(table.drop_last()) {
            Some(i) => Some(i),
            None => if supported(table.last().1) {
                None
            } else {
                Some(table.len() - 1)
            },
        }
    }
}

/// `first_unsupported` finds an unsupported value where there is one, and
/// every value before it is supported.
pub proof fn lemma_first_unsupported(table: TableView)
    ensures
        match first_unsupported(table) {
            Some(i) => 0 <= i < table.len() && !supported(table[i].1) && forall|j: int|
                0 <= j < i ==> supported(#[trigger] table[j].1),
            None => forall|j: int| 0 <= j < table.len() ==> supported(#[trigger] table[j].1),
        },
    decreases table.len(),
{
    if table.len() > 0 {
        lemma_first_unsupported(table.drop_last());
        assert forall|j: int| 0 <= j < table.len() - 1 implies table[j] == table.drop_last()[j] by {}
    }
}

/// The first unsupported value is the one that all supported values lead up
/// to.
pub proof fn lemma_first_unsupported_is(table: TableView, i: int)
    requires
        0 <= i < table.len(),
        !supported(table[i].1),
        forall|j: int| 0 <= j < i ==> supported(#[trigger] table[j].1),
    ensures
        first_unsupported(table) == Some(i),
{
    lemma_first_unsupported(table);
}

/// One Rust declaration: `pub const NAME: TYPE = LITERAL;` behind the
/// indentation, and a line feed.
pub open spec fn rust_declaration(
    indent: Seq<char>,
    name: Seq<char>,
    type_token: Seq<char>,
    value: Seq<char>,
) -> Seq<char> {
    indent + "pub const "@ + name + ": "@ + type_token + " = "@ + value + ";\n"@
}

/// The Rust declarations of a table's constants, in the table's order. It
/// speaks of tables whose values are all supported.
pub open spec fn rust_declarations(table: TableView, indent: Seq<char>) -> Seq<char>
    decreases table.len(),
{
    if table.len() == 0 {
        Seq::empty()
    } else {
        rust_declarations(table.drop_last(), indent) + rust_declaration(
            indent,
            table.last().0,
            rust_type(table.last().1).unwrap(),
            literal(table.last().1).unwrap(),
        )
    }
}

/// A table as Rust: the attribute that allows unused constants, on a line of
/// its own, then the declarations.
pub open spec fn rust_mod(table: TableView, indent: Seq<char>) -> Seq<char> {
    "#[allow(dead_code)]\n"@ + rust_declarations(table, indent)
}

/// One JavaScript export: `export const PREFIXNAME = LITERAL;` and a line
/// feed.
pub open spec fn js_export(prefix: Seq<char>, name: Seq<char>, value: Seq<char>) -> Seq<char> {
    "export const "@ + prefix + name + " = "@ + value + ";\n"@
}

/// A table as JavaScript: the exports of its constants, in the table's
/// order. It speaks of tables whose values are all supported.
pub open spec fn js_mod(table: TableView, prefix: Seq<char>) -> Seq<char>
    decreases table.len(),
{
    if table.len() == 0 {
        Seq::empty()
    } else {
        js_mod(table.drop_last(), prefix) + js_export(
            prefix,
            table.last().0,
            literal(table.last().1).unwrap(),
        )
    }
}

/// The error for the constant at position `i` of a namespace's table.
pub open spec fn unsupported_error(namespace: Seq<char>, table: TableView, i: int) -> GenErrorView {
    GenErrorView::UnsupportedType { namespace, constant: table[i].0 }
}

fn rust_declaration_text(indent: &str, name: &str, type_token: &str, value: &str) -> (line: String)
    ensures
        line@ == rust_declaration(indent@, name@, type_token@, value@),
{
    let mut line = String::from_str(indent);
    line.append("pub const ");
    line.append(name);
    line.append(": ");
    line.append(type_token);
    line.append(" = ");
    line.append(value);
    line.append(";\n");
    line
}

fn js_export_text(prefix: &str, name: &str, value: &str) -> (line: String)
    ensures
        line@ == js_export(prefix@, name@, value@),
{
    let mut line = String::from_str("export const ");
    line.append(prefix);
    line.append(name);
    line.append(" = ");
    line.append(value);
    line.append(";\n");
    line
}

/// Appends a table's constants to `writer` as Rust declarations, each behind
/// `indent`.
///
/// A table that holds an unsupported value is not written at all: the error
/// names `namespace` and the first constant with such a value.
pub fn generate_rust_mod(namespace: &str, table: &Table, indent: &str, writer: &mut String) -> (r:
    Result<(), GenError>)
    ensures
        match r {
            Ok(()) => first_unsupported(table@) is None && final(writer)@ == old(writer)@
                + rust_mod(table@, indent@),
            Err(e) => first_unsupported(table@) matches Some(i) && e@ == unsupported_error(
                namespace@,
                table@,
                i,
            ) && final(writer)@ == old(writer)@,
        },
{
    let mut text = String::from_str("#[allow(dead_code)]\n");
    let n = table.len();
    let mut i: usize = 0;
    while i < n
        invariant
            i <= n,
            n == table@.len(),
            n == table.entries().len(),
            text@ == rust_mod(table@.take(i as int), indent@),
            forall|j: int| 0 <= j < i ==> supported(#[trigger] table@[j].1),
        decreases n - i,
    {
        let (name, value) = table.entry(i);
        assert(table@[i as int] == (name@, value@));
        match (value_to_rust_type(value), value_to_literal(value)) {
            (Some(type_token), Some(value_text)) => {
                let line = rust_declaration_text(
                    indent,
                    name.as_str(),
                    type_token,
                    value_text.as_str(),
                );
                text.append(line.as_str());
                proof {
                    assert(table@.take(i + 1).drop_last() =~= table@.take(i as int));
                }
            },
            _ => {
                proof {
                    lemma_first_unsupported_is(table@, i as int);
                }
                return Err(
                    GenError::UnsupportedType {
                        namespace: String::from_str(namespace),
                        constant: name.clone(),
                    },
                );
            },
        }
        i += 1;
    }
    proof {
        assert(table@.take(n as int) =~= table@);
        lemma_first_unsupported(table@);
    }
    writer.append(text.as_str());
    Ok(())
}

/// Appends a table's constants to `writer` as JavaScript exports, each name
/// behind `prefix`.
///
/// A table that holds an unsupported value is not written at all: the error
/// names `namespace` and the first constant with such a value.
pub fn generate_js_mod(namespace: &str, table: &Table, prefix: &str, writer: &mut String) -> (r:
    Result<(), GenError>)
    ensures
        match r {
            Ok(()) => first_unsupported(table@) is None && final(writer)@ == old(writer)@ + js_mod(
                table@,
                prefix@,
            ),
            Err(e) => first_unsupported(table@) matches Some(i) && e@ == unsupported_error(
                namespace@,
                table@,
                i,
            ) && final(writer)@ == old(writer)@,
        },
{
    let mut text = String::new();
    let n = table.len();
    let mut i: usize = 0;
    while i < n
        invariant
            i <= n,
            n == table@.len(),
            n == table.entries().len(),
            text@ == js_mod(table@.take(i as int), prefix@),
            forall|j: int| 0 <= j < i ==> supported(#[trigger] table@[j].1),
        decreases n - i,
    {
        let (name, value) = table.entry(i);
        assert(table@[i as int] == (name@, value@));
        match value_to_literal(value) {
            Some(value_text) => {
                let line = js_export_text(prefix, name.as_str(), value_text.as_str());
                text.append(line.as_str());
                proof {
                    assert(table@.take(i + 1).drop_last() =~= table@.take(i as int));
                }
            },
            None => {
                proof {
                    lemma_first_unsupported_is(table@, i as int);
                }
                return Err(
                    GenError::UnsupportedType {
                        namespace: String::from_str(namespace),
                        constant: name.clone(),
                    },
                );
            },
        }
        i += 1;
    }
    proof {
        assert(table@.take(n as int) =~= table@);
        lemma_first_unsupported(table@);
    }
    writer.append(text.as_str());
    Ok(())
}

} // verus!
