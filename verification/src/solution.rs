//! Registering and unregistering solutions in a manifest.

use vstd::prelude::*;
use crate::error::Error;
use crate::layout::{solution_path, solution_path_of};
use crate::manifest::{
    source_file_for,
    ProblemConfig,
    ProblemConfigView,
    Solution,
    SolutionView,
    SourceFile,
    Verdict,
};
use crate::paths::{base_name, file_name, lemma_base_name_of_joined};
use crate::sequences::lemma_index_of_first;
use crate::text::same_text;

verus! {

/// The file names of the solutions, in their order.
pub open spec fn solution_names(solutions: Seq<SolutionView>) -> Seq<Seq<char>> {
    solutions.map_values(|s: SolutionView| base_name(s.sourcefile.source))
}

/// The index of the first solution whose file name is `name`.
pub open spec fn solution_position(solutions: Seq<SolutionView>, name: Seq<char>) -> Option<int> {
    solution_names(solutions).index_of_first(name)
}

/// The manifest after the solution named `name` is registered with the
/// verdict expected of it: it stands at the end of `solutions`.
pub open spec fn with_solution_added(
    manifest: ProblemConfigView,
    name: Seq<char>,
    verdict: Verdict,
) -> ProblemConfigView {
    ProblemConfigView {
        solutions: manifest.solutions.push(
            SolutionView { sourcefile: source_file_for(solution_path_of(name)), verdict },
        ),
        ..manifest
    }
}

/// The manifest after the first solution named `name` is taken out.
/// `NotFound` when no solution has that name.
pub open spec fn with_solution_removed(manifest: ProblemConfigView, name: Seq<char>) -> Result<
    ProblemConfigView,
    Error,
> {
    match solution_position(manifest.solutions, name) {
        Some(i) => Ok(ProblemConfigView { solutions: manifest.solutions.remove(i), ..manifest }),
        None => Err(Error::NotFound),
    }
}

/// Taking out by name the solution that was just registered gives back the
/// manifest as it was, on the same conditions as for a source.
pub proof fn lemma_remove_solution_undoes_add(manifest: ProblemConfigView, name: Seq<char>, verdict: Verdict)
    requires
        !name.contains('/'),
        solution_position(manifest.solutions, name) matches Some(first) ==> forall|j: int|
            first <= j < manifest.solutions.len() ==> manifest.solutions[j] == (SolutionView {
                sourcefile: source_file_for(solution_path_of(name)),
                verdict,
            }),
    ensures
        with_solution_removed(with_solution_added(manifest, name, verdict), name) == Ok::<
            ProblemConfigView,
            Error,
        >(manifest),
{
    let before = manifest.solutions;
    let entry = SolutionView { sourcefile: source_file_for(solution_path_of(name)), verdict };
    let added = before.push(entry);
    lemma_base_name_of_joined("src/solutions"@, name);
    assert(base_name(entry.sourcefile.source) == name);
    solution_names(before).index_of_first_ensures(name);
    let at = match solution_position(before, name) {
        Some(first) => first,
        None => before.len() as int,
    };
    assert(solution_names(added)[at] == name);
    assert forall|j: int| 0 <= j < at implies solution_names(added)[j] != name by {
        assert(solution_names(before)[j] == solution_names(added)[j]);
        assert(solution_names(before).contains(solution_names(before)[j]));
    }
    lemma_index_of_first(solution_names(added), name, Some(at));
    assert(added.remove(at) =~= before);
}

/// Finds the first solution whose file name is `name`.
pub fn find_solution(solutions: &Vec<Solution>, name: &str) -> (position: Option<usize>)
    ensures
        solution_position(solutions.deep_view(), name@) == match position {
            Some(i) => Some(i as int),
            None => None::<int>,
        },
        position matches Some(i) ==> i < solutions.len(),
{
    let ghost names = solution_names(solutions.deep_view());
    let mut i: usize = 0;
    while i < solutions.len()
        invariant
            i <= solutions.len(),
            names == solution_names(solutions.deep_view()),
            forall|j: int| 0 <= j < i ==> names[j] != name@,
        decreases solutions.len() - i,
    {
        let found = file_name(solutions[i].sourcefile.source.as_str());
        if same_text(found.as_str(), name) {
            proof {
                assert(names[i as int] == name@);
                lemma_index_of_first(names, name@, Some(i as int));
            }
            return Some(i);
        }
        assert(names[i as int] != name@);
        i += 1;
    }
    proof {
        lemma_index_of_first(names, name@, None);
    }
    None
}

/// Registers the solution named `name` with the verdict expected of it:
/// appends it, described from its path in the package, to `solutions`.
pub fn add_solution(config: &mut ProblemConfig, name: &str, verdict: Verdict)
    ensures
        final(config)@ == with_solution_added(old(config)@, name@, verdict),
{
    let path = solution_path(name);
    let solution = Solution { sourcefile: SourceFile::from_filename(path.as_str()), verdict };
    config.solutions.push(solution);
    assert(config.solutions.deep_view() =~= old(config).solutions.deep_view().push(solution@));
}

/// Takes the first solution named `name` out of `solutions`. Fails with
/// `NotFound`, and changes nothing, when no solution has that name.
pub fn remove_solution(config: &mut ProblemConfig, name: &str) -> (done: Result<(), Error>)
    ensures
        match with_solution_removed(old(config)@, name@) {
            Ok(after) => done is Ok && final(config)@ == after,
            Err(e) => done == Err::<(), Error>(e) && final(config)@ == old(config)@,
        },
{
    match find_solution(&config.solutions, name) {
        Some(i) => {
            config.solutions.remove(i);
            assert(config.solutions.deep_view() =~= old(config).solutions.deep_view().remove(
                i as int,
            ));
            Ok(())
        },
        None => Err(Error::NotFound),
    }
}

} // verus!
