//! The ways in which an operation on a package fails.

use vstd::prelude::*;

verus! {

/// Why an operation on a problem package failed.
#[derive(Clone, Copy, Debug, PartialEq, Eq, Structural)]
pub enum Error {
    /// No directory from the starting point up to the root holds a manifest.
    PackageNotFound,
    /// The manifest file is missing, cannot be read or cannot be decoded.
    ManifestUnreadable,
    /// The bytes read are not a manifest.
    MalformedManifest,
    /// A file already stands where a new artifact was to be created.
    NameConflict,
    /// The file to copy from is missing or cannot be read.
    CopyFailed,
    /// A new file or directory could not be created for another reason than
    /// one standing in its place.
    CreateFailed,
    /// No entry of the collection has the given file name.
    NotFound,
    /// The file of a removed entry could not be deleted.
    DeleteFailed,
    /// The changed manifest could not be written back.
    PersistFailed,
}

/// What to tell the user about an error.
pub open spec fn message_of(error: Error) -> Seq<char> {
    match error {
        Error::PackageNotFound => "no problem_config.json here or in any directory above"@,
        Error::ManifestUnreadable => "problem_config.json is missing or cannot be read"@,
        Error::MalformedManifest => "problem_config.json does not hold a problem"@,
        Error::NameConflict => "a file of that name is already in the package"@,
        Error::CopyFailed => "the file to copy is missing or cannot be read"@,
        Error::CreateFailed => "the file or directory could not be created"@,
        Error::NotFound => "no such file is registered in problem_config.json"@,
        Error::DeleteFailed => "the file could not be deleted"@,
        Error::PersistFailed =>
            "problem_config.json could not be written: it no longer matches the files of the package"@,
    }
}

impl Error {
    /// The message for the user.
    pub fn message(&self) -> (text: String)
        ensures
            text@ == message_of(*self),
    {
        match self {
            Error::PackageNotFound => "no problem_config.json here or in any directory above".to_owned(),
            Error::ManifestUnreadable => "problem_config.json is missing or cannot be read".to_owned(),
            Error::MalformedManifest => "problem_config.json does not hold a problem".to_owned(),
            Error::NameConflict => "a file of that name is already in the package".to_owned(),
            Error::CopyFailed => "the file to copy is missing or cannot be read".to_owned(),
            Error::CreateFailed => "the file or directory could not be created".to_owned(),
            Error::NotFound => "no such file is registered in problem_config.json".to_owned(),
            Error::DeleteFailed => "the file could not be deleted".to_owned(),
            Error::PersistFailed =>
                "problem_config.json could not be written: it no longer matches the files of the package".to_owned(),
        }
    }
}

} // verus!
