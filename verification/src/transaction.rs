//! The steps of a transaction on a package: load the manifest, change it
//! together with the files, write it back. The caller does the reading and
//! writing; each step here takes what the caller found and says what is next.

use vstd::prelude::*;
use crate::error::Error;
use crate::layout::{solution_path, solution_path_of, source_path, source_path_of};
use crate::manifest::{ProblemConfig, ProblemConfigView, Verdict};
use crate::solution::{add_solution, remove_solution, with_solution_added, with_solution_removed};
use crate::source::{
    add_source,
    remove_source,
    set_validator,
    with_source_added,
    with_source_removed,
    with_validator_set,
};

verus! {

/// A change asked of a package. Every path is text; a `from` path is the
/// caller's, the others are made here and are relative to the package root.
#[derive(Clone, Debug, PartialEq, Eq)]
pub enum Request {
    /// Register a source file; copy it from `from`, or create it empty.
    AddSource { name: String, from: Option<String> },
    /// Unregister a source file and delete it.
    RemoveSource { name: String },
    /// Register a solution; copy it from `from`, or create it empty.
    AddSolution { name: String, from: Option<String>, verdict: Verdict },
    /// Unregister a solution and delete it.
    RemoveSolution { name: String },
    /// Make a registered source the validator.
    SetValidator { name: String },
}

/// What a `Request` holds.
pub enum RequestView {
    AddSource { name: Seq<char>, from: Option<Seq<char>> },
    RemoveSource { name: Seq<char> },
    AddSolution { name: Seq<char>, from: Option<Seq<char>>, verdict: Verdict },
    RemoveSolution { name: Seq<char> },
    SetValidator { name: Seq<char> },
}

impl DeepView for Request {
    type V = RequestView;

    open spec fn deep_view(&self) -> RequestView {
        match *self {
            Request::AddSource { name, from } => RequestView::AddSource {
                name: name@,
                from: from.deep_view(),
            },
            Request::RemoveSource { name } => RequestView::RemoveSource { name: name@ },
            Request::AddSolution { name, from, verdict } => RequestView::AddSolution {
                name: name@,
                from: from.deep_view(),
                verdict,
            },
            Request::RemoveSolution { name } => RequestView::RemoveSolution { name: name@ },
            Request::SetValidator { name } => RequestView::SetValidator { name: name@ },
        }
    }
}

impl View for Request {
    type V = RequestView;

    open spec fn view(&self) -> RequestView {
        self.deep_view()
    }
}

/// One operation on the files of a package, for the caller to carry out.
#[derive(Clone, Debug, PartialEq, Eq)]
pub enum FileOp {
    /// Create a new, empty file at `path`. A file that is already there is
    /// left alone and reported as `AlreadyExists`.
    Create { path: String },
    /// Create a new file at `to` with the bytes of `from`. A file that is
    /// already at `to` is left alone and reported as `AlreadyExists`; a `from`
    /// that is missing or cannot be read is reported as `Failed`.
    Copy { from: String, to: String },
    /// Delete the file at `path`.
    Delete { path: String },
}

/// What a `FileOp` holds.
pub enum FileOpView {
    Create { path: Seq<char> },
    Copy { from: Seq<char>, to: Seq<char> },
    Delete { path: Seq<char> },
}

impl DeepView for FileOp {
    type V = FileOpView;

    open spec fn deep_view(&self) -> FileOpView {
        match *self {
            FileOp::Create { path } => FileOpView::Create { path: path@ },
            FileOp::Copy { from, to } => FileOpView::Copy { from: from@, to: to@ },
            FileOp::Delete { path } => FileOpView::Delete { path: path@ },
        }
    }
}

impl View for FileOp {
    type V = FileOpView;

    open spec fn view(&self) -> FileOpView {
        self.deep_view()
    }
}

/// How a file operation ended.
#[derive(Clone, Copy, Debug, PartialEq, Eq, Structural)]
pub enum FileOutcome {
    /// It was carried out.
    Done,
    /// Nothing was written: a file stands at the destination.
    AlreadyExists,
    /// It could not be carried out, for any other reason.
    Failed,
}

/// What is left to do to the manifest once the file operation is through.
#[derive(Clone, Debug, PartialEq, Eq)]
pub enum Pending {
    /// Register the source whose file was created, or copied if `copied`.
    AddSource { name: String, copied: bool },
    /// Register the solution whose file was created, or copied if `copied`.
    AddSolution { name: String, verdict: Verdict, copied: bool },
    /// Nothing: the entry is out of the manifest already, its file was to go.
    Remove,
}

/// What a `Pending` holds.
pub enum PendingView {
    AddSource { name: Seq<char>, copied: bool },
    AddSolution { name: Seq<char>, verdict: Verdict, copied: bool },
    Remove,
}

impl DeepView for Pending {
    type V = PendingView;

    open spec fn deep_view(&self) -> PendingView {
        match *self {
            Pending::AddSource { name, copied } => PendingView::AddSource { name: name@, copied },
            Pending::AddSolution { name, verdict, copied } => PendingView::AddSolution {
                name: name@,
                verdict,
                copied,
            },
            Pending::Remove => PendingView::Remove,
        }
    }
}

impl View for Pending {
    type V = PendingView;

    open spec fn view(&self) -> PendingView {
        self.deep_view()
    }
}

/// What follows the loading of the manifest.
#[derive(Clone, Debug, PartialEq, Eq)]
pub enum Planned {
    /// Stop with this error. Nothing was touched and nothing is to be written.
    Abort(Error),
    /// Write this manifest back; no file is involved.
    Persist(ProblemConfig),
    /// Carry out `op`, then hand its outcome, `pending` and `config` to
    /// `settle`.
    Perform { op: FileOp, pending: Pending, config: ProblemConfig },
}

/// What a `Planned` holds.
pub enum PlannedView {
    Abort(Error),
    Persist(ProblemConfigView),
    Perform { op: FileOpView, pending: PendingView, config: ProblemConfigView },
}

impl DeepView for Planned {
    type V = PlannedView;

    open spec fn deep_view(&self) -> PlannedView {
        match *self {
            Planned::Abort(e) => PlannedView::Abort(e),
            Planned::Persist(config) => PlannedView::Persist(config@),
            Planned::Perform { op, pending, config } => PlannedView::Perform {
                op: op@,
                pending: pending@,
                config: config@,
            },
        }
    }
}

impl View for Planned {
    type V = PlannedView;

    open spec fn view(&self) -> PlannedView {
        self.deep_view()
    }
}

/// The operation that puts a new file at `to`: a copy of `from` where one is
/// given, an empty file otherwise.
pub open spec fn placing(to: Seq<char>, from: Option<Seq<char>>) -> FileOpView {
    match from {
        Some(f) => FileOpView::Copy { from: f, to },
        None => FileOpView::Create { path: to },
    }
}

/// What a request leads to once the manifest is loaded, or could not be
/// (`None`).
///
/// An unreadable manifest ends everything. An addition first places the file
/// and leaves the manifest for later. A removal looks the entry up, takes it
/// out, and then has the file deleted; a missing entry ends it before any file
/// is touched. Setting the validator needs no file at all.
pub open spec fn planned(request: RequestView, loaded: Option<ProblemConfigView>) -> PlannedView {
    match loaded {
        None => PlannedView::Abort(Error::ManifestUnreadable),
        Some(manifest) => match request {
            RequestView::AddSource { name, from } => PlannedView::Perform {
                op: placing(source_path_of(name), from),
                pending: PendingView::AddSource { name, copied: from is Some },
                config: manifest,
            },
            RequestView::AddSolution { name, from, verdict } => PlannedView::Perform {
                op: placing(solution_path_of(name), from),
                pending: PendingView::AddSolution { name, verdict, copied: from is Some },
                config: manifest,
            },
            RequestView::RemoveSource { name } => match with_source_removed(manifest, name) {
                Ok(after) => PlannedView::Perform {
                    op: FileOpView::Delete { path: source_path_of(name) },
                    pending: PendingView::Remove,
                    config: after,
                },
                Err(e) => PlannedView::Abort(e),
            },
            RequestView::RemoveSolution { name } => match with_solution_removed(manifest, name) {
                Ok(after) => PlannedView::Perform {
                    op: FileOpView::Delete { path: solution_path_of(name) },
                    pending: PendingView::Remove,
                    config: after,
                },
                Err(e) => PlannedView::Abort(e),
            },
            RequestView::SetValidator { name } => match with_validator_set(manifest, name) {
                Ok(after) => PlannedView::Persist(after),
                Err(e) => PlannedView::Abort(e),
            },
        },
    }
}

/// The error of an addition whose file could not be placed.
pub open spec fn placing_error(outcome: FileOutcome, copied: bool) -> Error {
    match outcome {
        FileOutcome::AlreadyExists => Error::NameConflict,
        _ => if copied {
            Error::CopyFailed
        } else {
            Error::CreateFailed
        },
    }
}

/// The manifest to write back after the file operation, or the error that
/// ends the transaction with nothing written.
///
/// Only an operation that was carried out lets the transaction go on: the
/// addition then registers its entry, the removal has nothing left to do.
pub open spec fn settled(
    pending: PendingView,
    config: ProblemConfigView,
    outcome: FileOutcome,
) -> Result<ProblemConfigView, Error> {
    match pending {
        PendingView::AddSource { name, copied } => match outcome {
            FileOutcome::Done => Ok(with_source_added(config, name)),
            _ => Err(placing_error(outcome, copied)),
        },
        PendingView::AddSolution { name, verdict, copied } => match outcome {
            FileOutcome::Done => Ok(with_solution_added(config, name, verdict)),
            _ => Err(placing_error(outcome, copied)),
        },
        PendingView::Remove => match outcome {
            FileOutcome::Done => Ok(config),
            _ => Err(Error::DeleteFailed),
        },
    }
}

/// How the transaction ends after the manifest was, or was not, written.
pub open spec fn concluded(saved: bool) -> Result<(), Error> {
    if saved {
        Ok(())
    } else {
        Err(Error::PersistFailed)
    }
}

fn place(to: String, from: Option<String>) -> (op: FileOp)
    ensures
        op@ == placing(to@, from.deep_view()),
{
    match from {
        Some(f) => FileOp::Copy { from: f, to },
        None => FileOp::Create { path: to },
    }
}

/// First step of a transaction, after the caller has tried to load the
/// manifest: decides what happens next.
pub fn plan(request: Request, loaded: Option<ProblemConfig>) -> (next: Planned)
    ensures
        next@ == planned(request@, loaded.deep_view()),
{
    let mut config = match loaded {
        Some(config) => config,
        None => {
            return Planned::Abort(Error::ManifestUnreadable);
        },
    };
    match request {
        Request::AddSource { name, from } => {
            let copied = from.is_some();
            let op = place(source_path(name.as_str()), from);
            Planned::Perform { op, pending: Pending::AddSource { name, copied }, config }
        },
        Request::AddSolution { name, from, verdict } => {
            let copied = from.is_some();
            let op = place(solution_path(name.as_str()), from);
            Planned::Perform { op, pending: Pending::AddSolution { name, verdict, copied }, config }
        },
        Request::RemoveSource { name } => match remove_source(&mut config, name.as_str()) {
            Ok(()) => Planned::Perform {
                op: FileOp::Delete { path: source_path(name.as_str()) },
                pending: Pending::Remove,
                config,
            },
            Err(e) => Planned::Abort(e),
        },
        Request::RemoveSolution { name } => match remove_solution(&mut config, name.as_str()) {
            Ok(()) => Planned::Perform {
                op: FileOp::Delete { path: solution_path(name.as_str()) },
                pending: Pending::Remove,
                config,
            },
            Err(e) => Planned::Abort(e),
        },
        Request::SetValidator { name } => match set_validator(&mut config, name.as_str()) {
            Ok(()) => Planned::Persist(config),
            Err(e) => Planned::Abort(e),
        },
    }
}

/// Second step, after the file operation of a `Perform`: gives the manifest
/// to write back, or the error that ends the transaction.
pub fn settle(pending: Pending, config: ProblemConfig, outcome: FileOutcome) -> (next: Result<
    ProblemConfig,
    Error,
>)
    ensures
        match settled(pending@, config@, outcome) {
            Ok(after) => next matches Ok(c) && c@ == after,
            Err(e) => next matches Err(f) && f == e,
        },
{
    let mut config = config;
    match pending {
        Pending::AddSource { name, copied } => match outcome {
            FileOutcome::Done => {
                add_source(&mut config, name.as_str());
                Ok(config)
            },
            FileOutcome::AlreadyExists => Err(Error::NameConflict),
            FileOutcome::Failed => Err(
                if copied {
                    Error::CopyFailed
                } else {
                    Error::CreateFailed
                },
            ),
        },
        Pending::AddSolution { name, verdict, copied } => match outcome {
            FileOutcome::Done => {
                add_solution(&mut config, name.as_str(), verdict);
                Ok(config)
            },
            FileOutcome::AlreadyExists => Err(Error::NameConflict),
            FileOutcome::Failed => Err(
                if copied {
                    Error::CopyFailed
                } else {
                    Error::CreateFailed
                },
            ),
        },
        Pending::Remove => match outcome {
            FileOutcome::Done => Ok(config),
            _ => Err(Error::DeleteFailed),
        },
    }
}

/// Last step, after the caller has tried to write the manifest back.
pub fn conclude(saved: bool) -> (done: Result<(), Error>)
    ensures
        done == concluded(saved),
{
    if saved {
        Ok(())
    } else {
        Err(Error::PersistFailed)
    }
}

} // verus!
