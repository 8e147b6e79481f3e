//! The four generators: Rust or JavaScript, into one shared stream or into one
//! file per namespace.

use vstd::prelude::*;
use vstd::string::StringExecFns;
use crate::emit::{
    first_unsupported,
    generate_js_mod,
    generate_rust_mod,
    js_mod,
    rust_mod,
    unsupported_error,
};
use crate::error::GenError;
use crate::table::{Table, TableView};

verus! {

/// `std::path::PathBuf`, which the generators carry and never look into.
#[verifier::external_type_specification]
#[verifier::external_body]
pub struct ExPathBuf(std::path::PathBuf);

/// One piece of generated text under its name: a block of the shared stream
/// under its namespace's name, or a file's contents under the file's name.
#[derive(Debug, PartialEq)]
pub struct Artifact {
    pub name: String,
    pub text: String,
}

/// The mathematical content of an [`Artifact`].
pub struct ArtifactView {
    pub name: Seq<char>,
    pub text: Seq<char>,
}

impl View for Artifact {
    type V = ArtifactView;

    open spec fn view(&self) -> ArtifactView {
        ArtifactView { name: self.name@, text: self.text@ }
    }
}

/// The artifacts behind a vector of them, in order.
pub open spec fn artifact_views(artifacts: Seq<Artifact>) -> Seq<ArtifactView> {
    artifacts.map_values(|a: Artifact| a@)
}

/// The texts of some artifacts, one after the other.
pub open spec fn stream_text(artifacts: Seq<ArtifactView>) -> Seq<char>
    decreases artifacts.len(),
{
    if artifacts.len() == 0 {
        Seq::empty()
    } else {
        stream_text(artifacts.drop_last()) + artifacts.last().text
    }
}

/// The upper-case form of a string, as `str::to_uppercase` of std gives it.
pub uninterp spec fn uppercased(s: Seq<char>) -> Seq<char>;

/// Calls `str::to_uppercase`. Trusted: the result depends on the string
/// alone.
#[verifier::external_body]
fn to_uppercase(s: &str) -> (upper: String)
    ensures
        upper@ == uppercased(s@),
{
    s.to_uppercase()
}

/// The prefix of a namespace's exports in the shared stream: the namespace's
/// name in upper case and an underscore.
pub open spec fn js_prefix(namespace: Seq<char>) -> Seq<char> {
    uppercased(namespace) + "_"@
}

/// A namespace in the shared Rust stream: its declarations, indented by four
/// spaces, inside `mod NAME { }`, and an empty line.
pub open spec fn rust_block(namespace: Seq<char>, table: TableView) -> Seq<char> {
    "mod "@ + namespace + " {\n"@ + rust_mod(table, "    "@) + "}\n\n"@
}

/// A namespace in the shared JavaScript stream: a comment with its name, its
/// exports under prefixed names, and two empty lines.
pub open spec fn js_block(namespace: Seq<char>, table: TableView) -> Seq<char> {
    "// "@ + namespace + "\n"@ + js_mod(table, js_prefix(namespace)) + "\n\n"@
}

/// Two names that differ still differ with the same extension behind them.
pub proof fn lemma_extension_keeps_names_apart(a: Seq<char>, b: Seq<char>, extension: Seq<char>)
    requires
        a != b,
    ensures
        a + extension != b + extension,
{
    if a + extension == b + extension {
        assert((a + extension).len() == a.len() + extension.len());
        assert((b + extension).len() == b.len() + extension.len());
        assert(a =~= (a + extension).subrange(0, a.len() as int));
        assert(b =~= (b + extension).subrange(0, b.len() as int));
    }
}

/// A generator: it takes namespaces one by one and keeps what it made of
/// them.
pub trait CodeGen {
    /// All that was generated so far, oldest first.
    spec fn artifacts(&self) -> Seq<ArtifactView>;

    /// What a namespace whose values are all supported becomes.
    spec fn artifact(namespace: Seq<char>, table: TableView) -> ArtifactView;

    /// Generates one namespace. A table with an unsupported value adds
    /// nothing: the error names the namespace and the first such constant.
    fn generate(&mut self, name: &str, table: &Table) -> (r: Result<(), GenError>)
        ensures
            match r {
                Ok(()) => first_unsupported(table@) is None && final(self).artifacts() == old(
                    self,
                ).artifacts().push(Self::artifact(name@, table@)),
                Err(e) => first_unsupported(table@) matches Some(i) && e@ == unsupported_error(
                    name@,
                    table@,
                    i,
                ) && final(self).artifacts() == old(self).artifacts(),
            },
    ;
}

/// Joins the texts of some artifacts.
fn concatenate(artifacts: &Vec<Artifact>) -> (text: String)
    ensures
        text@ == stream_text(artifact_views(artifacts@)),
{
    let mut text = String::new();
    let mut i: usize = 0;
    while i < artifacts.len()
        invariant
            i <= artifacts.len(),
            text@ == stream_text(artifact_views(artifacts@.take(i as int))),
        decreases artifacts.len() - i,
    {
        text.append(artifacts[i].text.as_str());
        proof {
            assert(artifact_views(artifacts@.take(i + 1)).drop_last() =~= artifact_views(
                artifacts@.take(i as int),
            ));
        }
        i += 1;
    }
    proof {
        assert(artifacts@.take(artifacts.len() as int) =~= artifacts@);
    }
    text
}

/// Rust, all namespaces in one stream.
#[derive(Debug, PartialEq)]
pub struct RustOneFile {
    pub blocks: Vec<Artifact>,
}

impl RustOneFile {
    /// A generator that has written nothing yet.
    pub fn new() -> (generator: Self)
        ensures
            generator.artifacts() == Seq::<ArtifactView>::empty(),
    {
        let generator = RustOneFile { blocks: Vec::new() };
        assert(generator.artifacts() =~= Seq::<ArtifactView>::empty());
        generator
    }

    /// The stream: the blocks written so far, in order.
    pub fn output(&self) -> (text: String)
        ensures
            text@ == stream_text(self.artifacts()),
    {
        concatenate(&self.blocks)
    }
}

impl CodeGen for RustOneFile {
    open spec fn artifacts(&self) -> Seq<ArtifactView> {
        artifact_views(self.blocks@)
    }

    open spec fn artifact(namespace: Seq<char>, table: TableView) -> ArtifactView {
        ArtifactView { name: namespace, text: rust_block(namespace, table) }
    }

    /// Adds the namespace's block to the stream.
    fn generate(&mut self, name: &str, table: &Table) -> (r: Result<(), GenError>) {
        let mut text = String::from_str("mod ");
        text.append(name);
        text.append(" {\n");
        match generate_rust_mod(name, table, "    ", &mut text) {
            Err(e) => Err(e),
            Ok(()) => {
                text.append("}\n\n");
                let ghost before = self.blocks@;
                self.blocks.push(Artifact { name: String::from_str(name), text });
                proof {
                    assert(artifact_views(self.blocks@) =~= artifact_views(before).push(
                        Self::artifact(name@, table@),
                    ));
                }
                Ok(())
            },
        }
    }
}

/// JavaScript, all namespaces in one stream.
#[derive(Debug, PartialEq)]
pub struct JsOneFile {
    pub blocks: Vec<Artifact>,
}

impl JsOneFile {
    /// A generator that has written nothing yet.
    pub fn new() -> (generator: Self)
        ensures
            generator.artifacts() == Seq::<ArtifactView>::empty(),
    {
        let generator = JsOneFile { blocks: Vec::new() };
        assert(generator.artifacts() =~= Seq::<ArtifactView>::empty());
        generator
    }

    /// The stream: the blocks written so far, in order.
    pub fn output(&self) -> (text: String)
        ensures
            text@ == stream_text(self.artifacts()),
    {
        concatenate(&self.blocks)
    }
}

impl CodeGen for JsOneFile {
    open spec fn artifacts(&self) -> Seq<ArtifactView> {
        artifact_views(self.blocks@)
    }

    open spec fn artifact(namespace: Seq<char>, table: TableView) -> ArtifactView {
        ArtifactView { name: namespace, text: js_block(namespace, table) }
    }

    /// Adds the namespace's block to the stream.
    fn generate(&mut self, name: &str, table: &Table) -> (r: Result<(), GenError>) {
        let mut text = String::from_str("// ");
        text.append(name);
        text.append("\n");
        let mut prefix = to_uppercase(name);
        prefix.append("_");
        match generate_js_mod(name, table, prefix.as_str(), &mut text) {
            Err(e) => Err(e),
            Ok(()) => {
                text.append("\n\n");
                let ghost before = self.blocks@;
                self.blocks.push(Artifact { name: String::from_str(name), text });
                proof {
                    assert(artifact_views(self.blocks@) =~= artifact_views(before).push(
                        Self::artifact(name@, table@),
                    ));
                }
                Ok(())
            },
        }
    }
}

/// Rust, one file per namespace: `NAME.rs` under the root directory.
#[derive(Debug, PartialEq)]
pub struct RustMultiFile {
    pub root_path: std::path::PathBuf,
    pub files: Vec<Artifact>,
}

impl RustMultiFile {
    /// A generator for files under `root_path` that has made none yet.
    pub fn new(root_path: std::path::PathBuf) -> (generator: Self)
        ensures
            generator.root_path == root_path,
            generator.artifacts() == Seq::<ArtifactView>::empty(),
    {
        let generator = RustMultiFile { root_path, files: Vec::new() };
        assert(generator.artifacts() =~= Seq::<ArtifactView>::empty());
        generator
    }
}

impl CodeGen for RustMultiFile {
    open spec fn artifacts(&self) -> Seq<ArtifactView> {
        artifact_views(self.files@)
    }

    open spec fn artifact(namespace: Seq<char>, table: TableView) -> ArtifactView {
        ArtifactView { name: namespace + ".rs"@, text: rust_mod(table, Seq::empty()) }
    }

    /// Adds the namespace's file. The root directory stays as it is.
    fn generate(&mut self, name: &str, table: &Table) -> (r: Result<(), GenError>)
        ensures
            final(self).root_path == old(self).root_path,
    {
        let mut file_name = String::from_str(name);
        file_name.append(".rs");
        let mut text = String::new();
        match generate_rust_mod(name, table, "", &mut text) {
            Err(e) => Err(e),
            Ok(()) => {
                let ghost before = self.files@;
                self.files.push(Artifact { name: file_name, text });
                proof {
                    reveal_strlit("");
                    assert(""@ =~= Seq::<char>::empty());
                    assert(text@ =~= rust_mod(table@, Seq::empty()));
                    assert(artifact_views(self.files@) =~= artifact_views(before).push(
                        Self::artifact(name@, table@),
                    ));
                }
                Ok(())
            },
        }
    }
}

/// JavaScript, one file per namespace: `NAME.js` under the root directory.
#[derive(Debug, PartialEq)]
pub struct JsMultiFile {
    pub root_path: std::path::PathBuf,
    pub files: Vec<Artifact>,
}

impl JsMultiFile {
    /// A generator for files under `root_path` that has made none yet.
    pub fn new(root_path: std::path::PathBuf) -> (generator: Self)
        ensures
            generator.root_path == root_path,
            generator.artifacts() == Seq::<ArtifactView>::empty(),
    {
        let generator = JsMultiFile { root_path, files: Vec::new() };
        assert(generator.artifacts() =~= Seq::<ArtifactView>::empty());
        generator
    }
}

impl CodeGen for JsMultiFile {
    open spec fn artifacts(&self) -> Seq<ArtifactView> {
        artifact_views(self.files@)
    }

    open spec fn artifact(namespace: Seq<char>, table: TableView) -> ArtifactView {
        ArtifactView { name: namespace + ".js"@, text: js_mod(table, Seq::empty()) }
    }

    /// Adds the namespace's file. The root directory stays as it is.
    fn generate(&mut self, name: &str, table: &Table) -> (r: Result<(), GenError>)
        ensures
            final(self).root_path == old(self).root_path,
    {
        let mut file_name = String::from_str(name);
        file_name.append(".js");
        let mut text = String::new();
        match generate_js_mod(name, table, "", &mut text) {
            Err(e) => Err(e),
            Ok(()) => {
                let ghost before = self.files@;
                self.files.push(Artifact { name: file_name, text });
                proof {
                    reveal_strlit("");
                    assert(""@ =~= Seq::<char>::empty());
                    assert(text@ =~= js_mod(table@, Seq::empty()));
                    assert(artifact_views(self.files@) =~= artifact_views(before).push(
                        Self::artifact(name@, table@),
                    ));
                }
                Ok(())
            },
        }
    }
}

} // verus!
