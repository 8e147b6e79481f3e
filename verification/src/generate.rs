//! The driver: it takes a document's namespaces in order and hands each to a
//! generator, until one of them cannot be generated.

use vstd::prelude::*;
use crate::codegen::{
    lemma_extension_keeps_names_apart,
    ArtifactView,
    CodeGen,
    JsMultiFile,
    RustMultiFile,
};
use crate::emit::{first_unsupported, lemma_first_unsupported, unsupported_error};
use crate::error::{GenError, GenErrorView};
use crate::scalar::supported;
use crate::source::{load_document, loaded};
use crate::table::{names_of, Document, DocumentView, Section, SectionView, TableView};

verus! {

/// Why a namespace cannot be generated, if it cannot: what stands under its
/// name is no table, or the table holds an unsupported value.
pub open spec fn failure(namespace: Seq<char>, section: SectionView) -> Option<GenErrorView> {
    match section {
        SectionView::NotATable => Some(GenErrorView::NamespaceNotTable { namespace }),
        SectionView::Table(table) => match first_unsupported(table) {
            Some(i) => Some(unsupported_error(namespace, table, i)),
            None => None,
        },
    }
}

/// The position of the first namespace that cannot be generated, if there is
/// one.
pub open spec fn first_failure(document: DocumentView) -> Option<int>
    decreases document.len(),
{
    if document.len() == 0 {
        None
    } else {
        match first_failure(document.drop_last()) {
            Some(k) => Some(k),
            None => if failure(document.last().0, document.last().1) is Some {
                Some(document.len() - 1)
            } else {
                None
            },
        }
    }
}

/// The number of namespaces that are generated: all those before the first
/// that cannot be.
pub open spec fn reach(document: DocumentView) -> int {
    match first_failure(document) {
        Some(k) => k,
        None => document.len() as int,
    }
}

/// The table of a section; the empty table where the section is none.
pub open spec fn table_in(section: SectionView) -> TableView {
    match section {
        SectionView::Table(table) => table,
        SectionView::NotATable => Seq::empty(),
    }
}

/// What a generator makes of the first `count` namespaces: one artifact for
/// each, in the document's order.
pub open spec fn generated<G: CodeGen>(document: DocumentView, count: int) -> Seq<ArtifactView> {
    Seq::new(count as nat, |i: int| G::artifact(document[i].0, table_in(document[i].1)))
}

/// What a run over a document does: the generator gains one artifact for each
/// namespace before the first that cannot be generated, and the run fails with
/// that namespace's error, or succeeds where there is none.
pub open spec fn run<G: CodeGen>(
    document: DocumentView,
    before: Seq<ArtifactView>,
    r: Result<(), GenError>,
    after: Seq<ArtifactView>,
) -> bool {
    &&& after == before + generated::<G>(document, reach(document))
    &&& match r {
        Ok(()) => first_failure(document) is None,
        Err(e) => first_failure(document) matches Some(k) && Some(e@) == failure(
            document[k].0,
            document[k].1,
        ),
    }
}

/// `first_failure` finds a namespace that cannot be generated where there is
/// one, and every namespace before it can be.
pub proof fn lemma_first_failure(document: DocumentView)
    ensures
        match first_failure(document) {
            Some(k) => 0 <= k < document.len() && failure(document[k].0, document[k].1) is Some
                && forall|j: int|
                0 <= j < k ==> failure((#[trigger] document[j]).0, document[j].1) is None,
            None => forall|j: int|
                0 <= j < document.len() ==> failure((#[trigger] document[j]).0, document[j].1)
                    is None,
        },
    decreases document.len(),
{
    if document.len() > 0 {
        lemma_first_failure(document.drop_last());
        assert forall|j: int| 0 <= j < document.len() - 1 implies document[j]
            == document.drop_last()[j] by {}
    }
}

/// The first failure is the namespace that all good namespaces lead up to.
pub proof fn lemma_first_failure_is(document: DocumentView, k: int)
    requires
        0 <= k < document.len(),
        failure(document[k].0, document[k].1) is Some,
        forall|j: int| 0 <= j < k ==> failure((#[trigger] document[j]).0, document[j].1) is None,
    ensures
        first_failure(document) == Some(k),
{
    lemma_first_failure(document);
}

/// Generates the namespaces of a document, in order, and stops at the first
/// that cannot be generated. What was generated before it stays.
pub fn generate_document<G: CodeGen>(document: &Document, code_gen: &mut G) -> (r: Result<
    (),
    GenError,
>)
    ensures
        run::<G>(document@, old(code_gen).artifacts(), r, final(code_gen).artifacts()),
{
    let ghost start = code_gen.artifacts();
    let n = document.len();
    let mut i: usize = 0;
    assert(generated::<G>(document@, 0) =~= Seq::<ArtifactView>::empty());
    while i < n
        invariant
            i <= n,
            n == document@.len(),
            n == document.entries().len(),
            start == old(code_gen).artifacts(),
            forall|j: int| 0 <= j < i ==> failure((#[trigger] document@[j]).0, document@[j].1) is None,
            code_gen.artifacts() == start + generated::<G>(document@, i as int),
        decreases n - i,
    {
        let (name, section) = document.entry(i);
        assert(document@[i as int] == (name@, section@));
        match section {
            Section::NotATable => {
                proof {
                    lemma_first_failure_is(document@, i as int);
                }
                return Err(GenError::NamespaceNotTable { namespace: name.clone() });
            },
            Section::Table(table) => {
                match code_gen.generate(name.as_str(), table) {
                    Err(e) => {
                        proof {
                            lemma_first_failure_is(document@, i as int);
                        }
                        return Err(e);
                    },
                    Ok(()) => {
                        proof {
                            assert(generated::<G>(document@, i + 1) =~= generated::<G>(
                                document@,
                                i as int,
                            ).push(G::artifact(name@, table@)));
                            assert(code_gen.artifacts() =~= start + generated::<G>(
                                document@,
                                i + 1,
                            ));
                        }
                    },
                }
            },
        }
        i += 1;
    }
    proof {
        lemma_first_failure(document@);
    }
    Ok(())
}

/// Parses a document's text and generates its namespaces. A text that is no
/// document generates nothing.
pub fn generate<G: CodeGen>(toml_string: &str, code_gen: &mut G) -> (r: Result<(), GenError>)
    ensures
        match loaded(toml_string@) {
            Ok(document) => run::<G>(
                document,
                old(code_gen).artifacts(),
                r,
                final(code_gen).artifacts(),
            ),
            Err(e) => r matches Err(err) && err@ == e && final(code_gen).artifacts() == old(
                code_gen,
            ).artifacts(),
        },
{
    match load_document(toml_string) {
        Ok(document) => generate_document(&document, code_gen),
        Err(e) => Err(e),
    }
}

/// A run that succeeds makes exactly one artifact of each namespace, in the
/// document's order: none is left out and none comes twice.
pub proof fn lemma_one_artifact_per_namespace<G: CodeGen>(
    document: DocumentView,
    before: Seq<ArtifactView>,
    r: Result<(), GenError>,
    after: Seq<ArtifactView>,
)
    requires
        run::<G>(document, before, r, after),
        r is Ok,
    ensures
        after.len() == before.len() + document.len(),
        after.take(before.len() as int) == before,
        forall|i: int|
            0 <= i < document.len() ==> #[trigger] after[before.len() + i] == G::artifact(
                document[i].0,
                table_in(document[i].1),
            ),
{
    assert(after.take(before.len() as int) =~= before);
}

/// Where no two namespaces of a document share a name, no two of its files
/// do: each file stands for one namespace.
pub proof fn lemma_one_file_per_namespace(document: DocumentView, count: int)
    requires
        names_of(document).no_duplicates(),
        0 <= count <= document.len(),
    ensures
        forall|i: int, j: int|
            0 <= i < j < count ==> (#[trigger] generated::<RustMultiFile>(document, count)[i]).name
                != (#[trigger] generated::<RustMultiFile>(document, count)[j]).name,
        forall|i: int, j: int|
            0 <= i < j < count ==> (#[trigger] generated::<JsMultiFile>(document, count)[i]).name
                != (#[trigger] generated::<JsMultiFile>(document, count)[j]).name,
{
    assert forall|i: int, j: int| 0 <= i < j < count implies (#[trigger] generated::<RustMultiFile>(
        document,
        count,
    )[i]).name != (#[trigger] generated::<RustMultiFile>(document, count)[j]).name by {
        assert(names_of(document)[i] != names_of(document)[j]);
        lemma_extension_keeps_names_apart(document[i].0, document[j].0, ".rs"@);
    }
    assert forall|i: int, j: int| 0 <= i < j < count implies (#[trigger] generated::<JsMultiFile>(
        document,
        count,
    )[i]).name != (#[trigger] generated::<JsMultiFile>(document, count)[j]).name by {
        assert(names_of(document)[i] != names_of(document)[j]);
        lemma_extension_keeps_names_apart(document[i].0, document[j].0, ".js"@);
    }
}

/// A run that fails has made one artifact of each namespace before the one
/// that the error is about, and none of that one or of those after it.
pub proof fn lemma_failed_run_keeps_earlier_artifacts<G: CodeGen>(
    document: DocumentView,
    before: Seq<ArtifactView>,
    r: Result<(), GenError>,
    after: Seq<ArtifactView>,
)
    requires
        run::<G>(document, before, r, after),
        r is Err,
    ensures
        first_failure(document) is Some,
        0 <= first_failure(document).unwrap() < document.len(),
        after.len() == before.len() + first_failure(document).unwrap(),
        after.take(before.len() as int) == before,
        forall|i: int|
            0 <= i < first_failure(document).unwrap() ==> #[trigger] after[before.len() + i]
                == G::artifact(document[i].0, table_in(document[i].1)),
{
    lemma_first_failure(document);
    assert(after.take(before.len() as int) =~= before);
}

/// Two runs over the same document, from the same artifacts, end alike: with
/// the same artifacts, and both well or both with the same error.
pub proof fn lemma_runs_agree<G: CodeGen>(
    document: DocumentView,
    before: Seq<ArtifactView>,
    first: Result<(), GenError>,
    after_first: Seq<ArtifactView>,
    second: Result<(), GenError>,
    after_second: Seq<ArtifactView>,
)
    requires
        run::<G>(document, before, first, after_first),
        run::<G>(document, before, second, after_second),
    ensures
        after_first == after_second,
        first is Ok <==> second is Ok,
        first is Err ==> first->Err_0@ == second->Err_0@,
{
}

/// A namespace whose table holds an unsupported value cannot be generated:
/// where all namespaces before it can be, the run stops at it with an error
/// that names it and the first such constant.
pub proof fn lemma_unsupported_value_stops_run(document: DocumentView, k: int, i: int)
    requires
        0 <= k < document.len(),
        forall|j: int| 0 <= j < k ==> failure((#[trigger] document[j]).0, document[j].1) is None,
        document[k].1 is Table,
        0 <= i < table_in(document[k].1).len(),
        !supported(table_in(document[k].1)[i].1),
    ensures
        first_failure(document) == Some(k),
        failure(document[k].0, document[k].1) matches Some(
            GenErrorView::UnsupportedType { namespace, constant },
        ) && namespace == document[k].0 && exists|c: int|
            0 <= c <= i && #[trigger] table_in(document[k].1)[c].0 == constant && !supported(
                table_in(document[k].1)[c].1,
            ),
{
    let table = table_in(document[k].1);
    lemma_first_unsupported(table);
    let c = first_unsupported(table).unwrap();
    assert(c <= i) by {
        if i < c {
            assert(supported(table[i].1));
        }
    }
    assert(table[c].0 == unsupported_error(document[k].0, table, c)->constant);
    lemma_first_failure_is(document, k);
}

/// A document that holds an unsupported value somewhere never runs to the
/// end.
pub proof fn lemma_unsupported_value_fails_run<G: CodeGen>(
    document: DocumentView,
    before: Seq<ArtifactView>,
    r: Result<(), GenError>,
    after: Seq<ArtifactView>,
    k: int,
    i: int,
)
    requires
        run::<G>(document, before, r, after),
        0 <= k < document.len(),
        document[k].1 is Table,
        0 <= i < table_in(document[k].1).len(),
        !supported(table_in(document[k].1)[i].1),
    ensures
        r is Err,
        after.len() <= before.len() + k,
{
    lemma_first_failure(document);
    lemma_first_unsupported(table_in(document[k].1));
    if first_failure(document) is None {
        assert(failure(document[k].0, document[k].1) is None);
    } else if first_failure(document).unwrap() > k {
        assert(failure(document[k].0, document[k].1) is None);
    }
}

} // verus!
