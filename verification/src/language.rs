//! The language selector: which of the four generators a run uses.

use vstd::prelude::*;
use crate::error::GenError;

verus! {

/// The four ways to generate: a language, and whether all namespaces go into
/// one shared stream or each into a file of its own.
#[derive(Clone, Copy, Debug, PartialEq, Eq)]
pub enum Language {
    /// Rust, one file per namespace: `rust`.
    Rust,
    /// Rust, one shared stream: `rust-single`.
    RustSingle,
    /// JavaScript, one file per namespace: `js`.
    Js,
    /// JavaScript, one shared stream: `js-single`.
    JsSingle,
}

/// The language that a selector names, if it names one.
pub open spec fn language_of(selector: Seq<char>) -> Option<Language> {
    if selector == "rust-single"@ {
        Some(Language::RustSingle)
    } else if selector == "rust"@ {
        Some(Language::Rust)
    } else if selector == "js"@ {
        Some(Language::Js)
    } else if selector == "js-single"@ {
        Some(Language::JsSingle)
    } else {
        None
    }
}

/// Whether a language writes one file per namespace.
pub open spec fn per_file(language: Language) -> bool {
    language is Rust || language is Js
}

fn same_text(a: &str, b: &str) -> (same: bool)
    ensures
        same == (a@ == b@),
{
    a.to_owned() == b.to_owned()
}

/// Resolves a selector: `rust`, `rust-single`, `js` or `js-single`. Any other
/// is an unknown language.
pub fn select_language(selector: &str) -> (r: Result<Language, GenError>)
    ensures
        match r {
            Ok(language) => language_of(selector@) == Some(language),
            Err(e) => language_of(selector@) is None && e == GenError::UnknownLanguage,
        },
{
    if same_text(selector, "rust-single") {
        Ok(Language::RustSingle)
    } else if same_text(selector, "rust") {
        Ok(Language::Rust)
    } else if same_text(selector, "js") {
        Ok(Language::Js)
    } else if same_text(selector, "js-single") {
        Ok(Language::JsSingle)
    } else {
        Err(GenError::UnknownLanguage)
    }
}

/// Each of the four selectors names its own language.
pub proof fn lemma_known_selectors()
    ensures
        language_of("rust"@) == Some(Language::Rust),
        language_of("rust-single"@) == Some(Language::RustSingle),
        language_of("js"@) == Some(Language::Js),
        language_of("js-single"@) == Some(Language::JsSingle),
{
    reveal_strlit("rust");
    reveal_strlit("rust-single");
    reveal_strlit("js");
    reveal_strlit("js-single");
    assert("rust"@.len() == 4);
    assert("rust-single"@.len() == 11);
    assert("js"@.len() == 2);
    assert("js-single"@.len() == 9);
}

impl Language {
    /// Whether this language writes one file per namespace, under a root
    /// directory.
    pub fn is_per_file(&self) -> (b: bool)
        ensures
            b == per_file(*self),
    {
        match self {
            Language::Rust => true,
            Language::Js => true,
            Language::RustSingle => false,
            Language::JsSingle => false,
        }
    }
}

} // verus!
