//! What can stop a generation, and the message for each.

use vstd::prelude::*;
use vstd::string::StringExecFns;

verus! {

/// Why a generation stopped.
#[derive(Debug, PartialEq)]
pub enum GenError {
    /// The language selector is none of the four known ones.
    UnknownLanguage,
    /// The input is no well-formed document; `message` says why.
    Parse { message: String },
    /// The document as a whole is no table.
    DocumentNotTable,
    /// What stands under a namespace's name is no table.
    NamespaceNotTable { namespace: String },
    /// A constant's value is neither string, integer, float nor boolean.
    UnsupportedType { namespace: String, constant: String },
}

/// The mathematical content of a [`GenError`].
pub enum GenErrorView {
    UnknownLanguage,
    Parse { message: Seq<char> },
    DocumentNotTable,
    NamespaceNotTable { namespace: Seq<char> },
    UnsupportedType { namespace: Seq<char>, constant: Seq<char> },
}

impl View for GenError {
    type V = GenErrorView;

    open spec fn view(&self) -> GenErrorView {
        match self {
            GenError::UnknownLanguage => GenErrorView::UnknownLanguage,
            GenError::Parse { message } => GenErrorView::Parse { message: message@ },
            GenError::DocumentNotTable => GenErrorView::DocumentNotTable,
            GenError::NamespaceNotTable { namespace } => GenErrorView::NamespaceNotTable {
                namespace: namespace@,
            },
            GenError::UnsupportedType { namespace, constant } => GenErrorView::UnsupportedType {
                namespace: namespace@,
                constant: constant@,
            },
        }
    }
}

/// The message that describes an error. It names the namespace, and the
/// constant, that the error is about.
pub open spec fn message_text(e: GenErrorView) -> Seq<char> {
    match e {
        GenErrorView::UnknownLanguage => "unknown language"@,
        GenErrorView::Parse { message } => message,
        GenErrorView::DocumentNotTable => "toml file is not a table"@,
        GenErrorView::NamespaceNotTable { namespace } => "toml namespace is not a table: "@
            + namespace,
        GenErrorView::UnsupportedType { namespace, constant } => "unsupported type of constant "@
            + constant + " in namespace "@ + namespace,
    }
}

impl GenError {
    /// The message that describes this error.
    pub fn message(&self) -> (text: String)
        ensures
            text@ == message_text(self@),
    {
        match self {
            GenError::UnknownLanguage => String::from_str("unknown language"),
            GenError::Parse { message } => message.clone(),
            GenError::DocumentNotTable => String::from_str("toml file is not a table"),
            GenError::NamespaceNotTable { namespace } => {
                let mut text = String::from_str("toml namespace is not a table: ");
                text.append(namespace.as_str());
                text
            },
            GenError::UnsupportedType { namespace, constant } => {
                let mut text = String::from_str("unsupported type of constant ");
                text.append(constant.as_str());
                text.append(" in namespace ");
                text.append(namespace.as_str());
                text
            },
        }
    }
}

} // verus!
