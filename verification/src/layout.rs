//! Where things are in a package: its directories, its manifest file, the
//! files of its sources and solutions, and how its root is found from below.

use vstd::prelude::*;
use crate::error::Error;
use crate::paths::joined;
use crate::sequences::lemma_index_of_first;

verus! {

/// The name of the manifest file, which lies directly in the package root.
pub const MANIFEST_FILE: &'static str = "problem_config.json";

/// The directories of a fresh package, relative to its root, in the order in
/// which they are made: each one after the directory that holds it. The
/// manifest file is written after the last of them.
pub open spec fn package_layout() -> Seq<Seq<char>> {
    seq![
        "src"@,
        "src/sources"@,
        "src/solutions"@,
        "testcases"@,
        "testcases/input"@,
        "testcases/output"@,
        "text"@,
        "bin"@,
    ]
}

/// The directories to make inside the root of a new package, in order.
pub fn package_directories() -> (directories: Vec<String>)
    ensures
        directories.deep_view() == package_layout(),
{
    let mut directories: Vec<String> = Vec::new();
    directories.push("src".to_owned());
    directories.push("src/sources".to_owned());
    directories.push("src/solutions".to_owned());
    directories.push("testcases".to_owned());
    directories.push("testcases/input".to_owned());
    directories.push("testcases/output".to_owned());
    directories.push("text".to_owned());
    directories.push("bin".to_owned());
    assert(directories.deep_view() =~= package_layout());
    directories
}

/// Picks the package root among a directory and those above it.
/// `has_manifest[k]` says whether the directory `k` levels above the starting
/// one holds a manifest file; the last entry is the file system's root. The
/// package root is the nearest directory that holds one: `PackageNotFound`
/// when none does.
pub fn nearest_package(has_manifest: &Vec<bool>) -> (level: Result<usize, Error>)
    ensures
        match has_manifest@.index_of_first(true) {
            Some(k) => level == Ok::<usize, Error>(k as usize),
            None => level == Err::<usize, Error>(Error::PackageNotFound),
        },
{
    let mut k: usize = 0;
    while k < has_manifest.len()
        invariant
            k <= has_manifest.len(),
            forall|j: int| 0 <= j < k ==> !has_manifest@[j],
        decreases has_manifest.len() - k,
    {
        if has_manifest[k] {
            proof {
                lemma_index_of_first(has_manifest@, true, Some(k as int));
            }
            return Ok(k);
        }
        k += 1;
    }
    proof {
        lemma_index_of_first(has_manifest@, true, None);
    }
    Err(Error::PackageNotFound)
}

/// Where the file of the source named `name` is, relative to the package root.
pub open spec fn source_path_of(name: Seq<char>) -> Seq<char> {
    joined("src/sources"@, name)
}

/// Where the file of the solution named `name` is, relative to the package
/// root.
pub open spec fn solution_path_of(name: Seq<char>) -> Seq<char> {
    joined("src/solutions"@, name)
}

fn join(directory: &str, name: &str) -> (path: String)
    ensures
        path@ == joined(directory@, name@),
{
    let mut path = directory.to_owned();
    path.push('/');
    path.append(name);
    path
}

/// The path of the source file named `name`, relative to the package root.
pub fn source_path(name: &str) -> (path: String)
    ensures
        path@ == source_path_of(name@),
{
    join("src/sources", name)
}

/// The path of the solution file named `name`, relative to the package root.
pub fn solution_path(name: &str) -> (path: String)
    ensures
        path@ == solution_path_of(name@),
{
    join("src/solutions", name)
}

} // verus!
