//! A package as a whole, manifest and files, and what a transaction does to
//! it from beginning to end. Nothing here runs: this is the model that the
//! steps of `transaction` are meant for, and what holds of it.

use vstd::prelude::*;
use crate::error::Error;
use crate::layout::{solution_path_of, source_path_of};
use crate::manifest::{source_file_for, ProblemConfigView, SolutionView, Verdict};
use crate::paths::{base_name, valid_file_name};
use crate::sequences::lemma_index_of_first;
use crate::solution::{lemma_remove_solution_undoes_add, solution_position};
use crate::source::{lemma_remove_source_undoes_add, source_names, source_position};
use crate::transaction::{
    concluded,
    planned,
    settled,
    FileOpView,
    FileOutcome,
    PlannedView,
    RequestView,
};

verus! {

/// A package as it lies on disk between two transactions.
pub struct Package {
    /// The manifest that the manifest file decodes to; `None` when the file
    /// is missing or does not decode.
    pub manifest: Option<ProblemConfigView>,
    /// The paths at which a file stands.
    pub files: Set<Seq<char>>,
}

/// What a file operation does to the files when the disk does as it is told,
/// and how it ends.
pub open spec fn performed(op: FileOpView, files: Set<Seq<char>>) -> (FileOutcome, Set<Seq<char>>) {
    match op {
        FileOpView::Create { path } => if files.contains(path) {
            (FileOutcome::AlreadyExists, files)
        } else {
            (FileOutcome::Done, files.insert(path))
        },
        FileOpView::Copy { from, to } => if files.contains(to) {
            (FileOutcome::AlreadyExists, files)
        } else if !files.contains(from) {
            (FileOutcome::Failed, files)
        } else {
            (FileOutcome::Done, files.insert(to))
        },
        FileOpView::Delete { path } => if files.contains(path) {
            (FileOutcome::Done, files.remove(path))
        } else {
            (FileOutcome::Failed, files)
        },
    }
}

/// The end of a transaction that got as far as writing `config` back:
/// `written` says whether the write went through.
pub open spec fn persisted(config: ProblemConfigView, package: Package, written: bool) -> (
    Result<(), Error>,
    Package,
) {
    (
        concluded(written),
        if written {
            Package { manifest: Some(config), ..package }
        } else {
            package
        },
    )
}

/// A whole transaction: the result that the caller gets and the package that
/// is left behind. `written` says whether a write of the manifest, should it
/// come to one, goes through.
///
/// The manifest is loaded, the request is planned, the file operation of the
/// plan is carried out, its outcome is settled, and only then is the manifest
/// written. What a file operation did is not undone when a later step fails.
pub open spec fn run(request: RequestView, package: Package, written: bool) -> (
    Result<(), Error>,
    Package,
) {
    match planned(request, package.manifest) {
        PlannedView::Abort(e) => (Err(e), package),
        PlannedView::Persist(config) => persisted(config, package, written),
        PlannedView::Perform { op, pending, config } => {
            let (outcome, files) = performed(op, package.files);
            let touched = Package { files, ..package };
            match settled(pending, config, outcome) {
                Ok(after) => persisted(after, touched, written),
                Err(e) => (Err(e), touched),
            }
        },
    }
}

/// A transaction on a package whose manifest cannot be loaded fails with
/// `ManifestUnreadable` and leaves the package as it was.
pub proof fn lemma_unreadable_manifest(request: RequestView, package: Package, written: bool)
    requires
        package.manifest is None,
    ensures
        run(request, package, written) == (Err::<(), Error>(Error::ManifestUnreadable), package),
{
}

/// A transaction never changes the manifest on disk unless it succeeds, and a
/// write that does not go through fails it with `PersistFailed` at the
/// latest: the old manifest then stands beside whatever the file operation
/// did.
pub proof fn lemma_manifest_changes_only_on_success(
    request: RequestView,
    package: Package,
    written: bool,
)
    ensures
        run(request, package, written).0 is Err ==> run(request, package, written).1.manifest
            == package.manifest,
        !written ==> run(request, package, written).0 is Err,
        !written && run(request, package, true).0 is Ok ==> run(request, package, written).0
            == Err::<(), Error>(Error::PersistFailed) && run(request, package, written).1.files
            == run(request, package, true).1.files,
{
}

/// Adding a source and then removing it by the same name succeeds and gives
/// back `sources` entry for entry as before, and the same files, with none at
/// the path of the source. If the manifest was well formed and held no source
/// of that name, the whole package is as it was.
///
/// This needs a name that is valid for a file, both writes of the manifest to
/// go through, and the addition to succeed. Where a source of that name is
/// registered already, the removal takes the first of them; `sources` then
/// comes back as it was only if every source from that one on is the very
/// entry that the addition makes.
pub proof fn lemma_add_then_remove_source(
    package: Package,
    name: Seq<char>,
    from: Option<Seq<char>>,
)
    requires
        valid_file_name(name),
        run(RequestView::AddSource { name, from }, package, true).0 is Ok,
        source_position(package.manifest->0.sources, name) matches Some(first) ==> forall|j: int|
            first <= j < package.manifest->0.sources.len() ==> package.manifest->0.sources[j]
                == source_file_for(source_path_of(name)),
    ensures
        ({
            let added = run(RequestView::AddSource { name, from }, package, true).1;
            let (result, after) = run(RequestView::RemoveSource { name }, added, true);
            &&& result is Ok
            &&& after.manifest is Some
            &&& after.manifest->0.sources == package.manifest->0.sources
            &&& after.files == package.files
            &&& !after.files.contains(source_path_of(name))
            &&& package.manifest->0.well_formed() && source_position(
                package.manifest->0.sources,
                name,
            ) is None ==> after == package
        }),
{
    lemma_remove_source_undoes_add(package.manifest->0, name);
    let path = source_path_of(name);
    assert(package.files.insert(path).remove(path) =~= package.files);
}

/// Adding a solution and then removing it by the same name gives back the
/// package as it was, on the same conditions as for a source.
pub proof fn lemma_add_then_remove_solution(
    package: Package,
    name: Seq<char>,
    from: Option<Seq<char>>,
    verdict: Verdict,
)
    requires
        valid_file_name(name),
        run(RequestView::AddSolution { name, from, verdict }, package, true).0 is Ok,
        solution_position(package.manifest->0.solutions, name) matches Some(first)
            ==> forall|j: int|
            first <= j < package.manifest->0.solutions.len()
                ==> package.manifest->0.solutions[j] == (SolutionView {
                sourcefile: source_file_for(solution_path_of(name)),
                verdict,
            }),
    ensures
        run(
            RequestView::RemoveSolution { name },
            run(RequestView::AddSolution { name, from, verdict }, package, true).1,
            true,
        ) == (Ok::<(), Error>(()), package),
        !package.files.contains(solution_path_of(name)),
{
    lemma_remove_solution_undoes_add(package.manifest->0, name, verdict);
    let path = solution_path_of(name);
    assert(package.files.insert(path).remove(path) =~= package.files);
}

/// Adding a source or a solution at whose path a file stands already fails
/// with `NameConflict` and leaves the package, manifest and files, as it was.
/// (The manifest must load: a package without one fails before that.)
pub proof fn lemma_add_to_taken_name(request: RequestView, package: Package, written: bool)
    requires
        package.manifest is Some,
        match request {
            RequestView::AddSource { name, .. } => package.files.contains(source_path_of(name)),
            RequestView::AddSolution { name, .. } => package.files.contains(
                solution_path_of(name),
            ),
            _ => false,
        },
    ensures
        run(request, package, written) == (Err::<(), Error>(Error::NameConflict), package),
{
    let (result, after) = run(request, package, written);
    assert(after.files =~= package.files);
}

/// Adding a source or a solution from a file that is not there fails with
/// `CopyFailed`; nothing is registered and no file appears. (The manifest
/// must load, and the destination must be free: either of those fails first.)
pub proof fn lemma_add_from_missing_file(request: RequestView, package: Package, written: bool)
    requires
        package.manifest is Some,
        match request {
            RequestView::AddSource { name, from } => from matches Some(f)
                && !package.files.contains(f) && !package.files.contains(source_path_of(name)),
            RequestView::AddSolution { name, from, .. } => from matches Some(f)
                && !package.files.contains(f) && !package.files.contains(solution_path_of(name)),
            _ => false,
        },
    ensures
        run(request, package, written) == (Err::<(), Error>(Error::CopyFailed), package),
{
    let (result, after) = run(request, package, written);
    assert(after.files =~= package.files);
}

/// Removing a source or a solution by a name that the manifest does not hold
/// fails with `NotFound`; no file is deleted and the package stays as it was.
/// (The manifest must load.)
pub proof fn lemma_remove_unregistered(request: RequestView, package: Package, written: bool)
    requires
        package.manifest is Some,
        match request {
            RequestView::RemoveSource { name } => source_position(
                package.manifest->0.sources,
                name,
            ) is None,
            RequestView::RemoveSolution { name } => solution_position(
                package.manifest->0.solutions,
                name,
            ) is None,
            _ => false,
        },
    ensures
        run(request, package, written) == (Err::<(), Error>(Error::NotFound), package),
{
}

/// Setting the validator to the source at index `i`, by its name, leaves
/// `Some(i)` as the validator and nothing else changed. (The manifest must
/// load and its write go through; the name must not belong to an earlier
/// source as well, or that one is chosen.)
pub proof fn lemma_set_validator_found(package: Package, name: Seq<char>, i: int)
    requires
        package.manifest is Some,
        0 <= i < package.manifest->0.sources.len(),
        base_name(package.manifest->0.sources[i].source) == name,
        forall|j: int| 0 <= j < i ==> base_name(package.manifest->0.sources[j].source) != name,
    ensures
        run(RequestView::SetValidator { name }, package, true) == (
            Ok::<(), Error>(()),
            Package {
                manifest: Some(
                    ProblemConfigView { validator: Some(i as usize), ..package.manifest->0 },
                ),
                ..package
            },
        ),
{
    let names = source_names(package.manifest->0.sources);
    assert(names[i] == name);
    assert forall|j: int| 0 <= j < i implies names[j] != name by {
        assert(names[j] == base_name(package.manifest->0.sources[j].source));
    }
    lemma_index_of_first(names, name, Some(i));
}

/// Setting the validator to a name that no source has fails with `NotFound`
/// and leaves the validator, and all the rest of the package, as it was.
pub proof fn lemma_set_validator_missing(package: Package, name: Seq<char>, written: bool)
    requires
        package.manifest is Some,
        source_position(package.manifest->0.sources, name) is None,
    ensures
        run(RequestView::SetValidator { name }, package, written) == (
            Err::<(), Error>(Error::NotFound),
            package,
        ),
{
}

} // verus!
