//! Registering and unregistering source files in a manifest, and choosing
//! the validator among them.

use vstd::prelude::*;
use crate::error::Error;
use crate::layout::{source_path, source_path_of};
use crate::manifest::{source_file_for, ProblemConfig, ProblemConfigView, SourceFile, SourceFileView};
use crate::paths::{base_name, file_name, lemma_base_name_of_joined};
use crate::sequences::lemma_index_of_first;
use crate::text::same_text;

verus! {

/// The file names of the sources, in their order.
pub open spec fn source_names(sources: Seq<SourceFileView>) -> Seq<Seq<char>> {
    sources.map_values(|s: SourceFileView| base_name(s.source))
}

/// The index of the first source whose file name is `name`.
pub open spec fn source_position(sources: Seq<SourceFileView>, name: Seq<char>) -> Option<int> {
    source_names(sources).index_of_first(name)
}

/// The manifest after the source named `name` is registered: its description
/// stands at the end of `sources`.
pub open spec fn with_source_added(manifest: ProblemConfigView, name: Seq<char>) -> ProblemConfigView {
    ProblemConfigView {
        sources: manifest.sources.push(source_file_for(source_path_of(name))),
        ..manifest
    }
}

/// A reference into `sources` after the source at `removed` is taken out: it
/// is cleared if it was to that source, and stays as it is otherwise. It is
/// not moved along with the sources behind the removed one.
pub open spec fn unlinked(reference: Option<usize>, removed: int) -> Option<usize> {
    match reference {
        Some(i) => if i == removed {
            None
        } else {
            reference
        },
        None => None,
    }
}

/// The manifest after the first source named `name` is taken out. A validator
/// or checker that was this source is cleared; an index to another source
/// stays as it is, whatever it then points to. `NotFound` when no source has
/// that name.
pub open spec fn with_source_removed(manifest: ProblemConfigView, name: Seq<char>) -> Result<
    ProblemConfigView,
    Error,
> {
    match source_position(manifest.sources, name) {
        Some(i) => Ok(
            ProblemConfigView {
                sources: manifest.sources.remove(i),
                validator: unlinked(manifest.validator, i),
                checker: unlinked(manifest.checker, i),
                ..manifest
            },
        ),
        None => Err(Error::NotFound),
    }
}

/// The manifest after the first source named `name` is made the validator.
/// `NotFound` when no source has that name.
pub open spec fn with_validator_set(manifest: ProblemConfigView, name: Seq<char>) -> Result<
    ProblemConfigView,
    Error,
> {
    match source_position(manifest.sources, name) {
        Some(i) => Ok(ProblemConfigView { validator: Some(i as usize), ..manifest }),
        None => Err(Error::NotFound),
    }
}

/// Where the source named `name` is found once it is registered: at the
/// first source of that name that was there before, or else at the end.
pub open spec fn position_once_added(sources: Seq<SourceFileView>, name: Seq<char>) -> int {
    match source_position(sources, name) {
        Some(first) => first,
        None => sources.len() as int,
    }
}

/// Taking out by name the source that was just registered gives back the
/// sources as they were, entry for entry, and changes nothing else but a
/// validator or checker index that is the one of the source taken out. In a
/// well-formed manifest without a source of that name there is no such index,
/// and the whole manifest comes back.
///
/// The name must hold no `/`. Where a source of that name was registered
/// before, the first of them is the one taken out, and the sources come back
/// only if every source from that one on is the very entry that registering
/// makes.
pub proof fn lemma_remove_source_undoes_add(manifest: ProblemConfigView, name: Seq<char>)
    requires
        !name.contains('/'),
        source_position(manifest.sources, name) matches Some(first) ==> forall|j: int|
            first <= j < manifest.sources.len() ==> manifest.sources[j] == source_file_for(
                source_path_of(name),
            ),
    ensures
        with_source_removed(with_source_added(manifest, name), name) == Ok::<
            ProblemConfigView,
            Error,
        >(
            ProblemConfigView {
                validator: unlinked(
                    manifest.validator,
                    position_once_added(manifest.sources, name),
                ),
                checker: unlinked(manifest.checker, position_once_added(manifest.sources, name)),
                ..manifest
            },
        ),
        manifest.well_formed() && source_position(manifest.sources, name) is None
            ==> with_source_removed(with_source_added(manifest, name), name) == Ok::<
            ProblemConfigView,
            Error,
        >(manifest),
{
    let before = manifest.sources;
    let entry = source_file_for(source_path_of(name));
    let added = before.push(entry);
    lemma_base_name_of_joined("src/sources"@, name);
    assert(base_name(entry.source) == name);
    source_names(before).index_of_first_ensures(name);
    let at = match source_position(before, name) {
        Some(first) => first,
        None => before.len() as int,
    };
    assert(source_names(added)[at] == name);
    assert forall|j: int| 0 <= j < at implies source_names(added)[j] != name by {
        assert(source_names(before)[j] == source_names(added)[j]);
        assert(source_names(before).contains(source_names(before)[j]));
    }
    lemma_index_of_first(source_names(added), name, Some(at));
    assert(added.remove(at) =~= before);
}

/// Registering a source keeps the validator and the checker valid, and so
/// does setting the validator, which is valid afterwards in any case. Taking
/// a source out clears an index to that source and leaves any other as it
/// is: the indices are valid afterwards exactly when none that is left is
/// that of the last source.
pub proof fn lemma_well_formed(manifest: ProblemConfigView, name: Seq<char>)
    requires
        manifest.well_formed(),
    ensures
        with_source_added(manifest, name).well_formed(),
        with_validator_set(manifest, name) matches Ok(after) ==> after.well_formed(),
        with_source_removed(manifest, name) matches Ok(after) ==> (after.well_formed() <==> {
            &&& after.validator matches Some(i) ==> i + 1 < manifest.sources.len()
            &&& after.checker matches Some(i) ==> i + 1 < manifest.sources.len()
        }),
{
    source_names(manifest.sources).index_of_first_ensures(name);
}

/// Finds the first source whose file name is `name`.
pub fn find_source(sources: &Vec<SourceFile>, name: &str) -> (position: Option<usize>)
    ensures
        source_position(sources.deep_view(), name@) == match position {
            Some(i) => Some(i as int),
            None => None::<int>,
        },
        position matches Some(i) ==> i < sources.len(),
{
    let ghost names = source_names(sources.deep_view());
    let mut i: usize = 0;
    while i < sources.len()
        invariant
            i <= sources.len(),
            names == source_names(sources.deep_view()),
            forall|j: int| 0 <= j < i ==> names[j] != name@,
        decreases sources.len() - i,
    {
        let found = file_name(sources[i].source.as_str());
        if same_text(found.as_str(), name) {
            proof {
                assert(names[i as int] == name@);
                lemma_index_of_first(names, name@, Some(i as int));
            }
            return Some(i);
        }
        assert(names[i as int] != name@);
        i += 1;
    }
    proof {
        lemma_index_of_first(names, name@, None);
    }
    None
}

/// Registers the source named `name`: appends its description, made from its
/// path in the package, to `sources`.
pub fn add_source(config: &mut ProblemConfig, name: &str)
    ensures
        final(config)@ == with_source_added(old(config)@, name@),
{
    let path = source_path(name);
    let file = SourceFile::from_filename(path.as_str());
    config.sources.push(file);
    assert(config.sources.deep_view() =~= old(config).sources.deep_view().push(file@));
}

fn unlink(reference: Option<usize>, removed: usize) -> (left: Option<usize>)
    ensures
        left == unlinked(reference, removed as int),
{
    match reference {
        Some(i) => if i == removed {
            None
        } else {
            reference
        },
        None => None,
    }
}

/// Takes the first source named `name` out of `sources`, and clears the
/// validator or the checker if it was that source. Fails with `NotFound`, and
/// changes nothing, when no source has that name.
pub fn remove_source(config: &mut ProblemConfig, name: &str) -> (done: Result<(), Error>)
    ensures
        match with_source_removed(old(config)@, name@) {
            Ok(after) => done is Ok && final(config)@ == after,
            Err(e) => done == Err::<(), Error>(e) && final(config)@ == old(config)@,
        },
{
    match find_source(&config.sources, name) {
        Some(i) => {
            config.sources.remove(i);
            config.validator = unlink(config.validator, i);
            config.checker = unlink(config.checker, i);
            assert(config.sources.deep_view() =~= old(config).sources.deep_view().remove(i as int));
            Ok(())
        },
        None => Err(Error::NotFound),
    }
}

/// Makes the first source named `name` the validator, by its index. Fails
/// with `NotFound`, and changes nothing, when no source has that name.
pub fn set_validator(config: &mut ProblemConfig, name: &str) -> (done: Result<(), Error>)
    ensures
        match with_validator_set(old(config)@, name@) {
            Ok(after) => done is Ok && final(config)@ == after,
            Err(e) => done == Err::<(), Error>(e) && final(config)@ == old(config)@,
        },
{
    match find_source(&config.sources, name) {
        Some(i) => {
            config.validator = Some(i);
            Ok(())
        },
        None => Err(Error::NotFound),
    }
}

} // verus!
