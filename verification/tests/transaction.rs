use std::collections::BTreeSet;

use rustygon::error::Error;
use rustygon::manifest::{ProblemConfig, SourceFile, Verdict};
use rustygon::transaction::{
    conclude, plan, settle, FileOp, FileOutcome, Pending, Planned, Request,
};

/// A package kept in memory: the manifest as it would decode, the files that
/// are there, and whether the manifest can be written.
struct Disk {
    manifest: Option<ProblemConfig>,
    files: BTreeSet<String>,
    writable: bool,
}

fn fresh() -> Disk {
    Disk {
        manifest: Some(ProblemConfig::new("Two Sum".to_string(), 0x3f80_0000, vec![])),
        files: BTreeSet::new(),
        writable: true,
    }
}

fn perform(op: &FileOp, files: &mut BTreeSet<String>) -> FileOutcome {
    match op {
        FileOp::Create { path } => {
            if files.contains(path) {
                FileOutcome::AlreadyExists
            } else {
                files.insert(path.clone());
                FileOutcome::Done
            }
        }
        FileOp::Copy { from, to } => {
            if files.contains(to) {
                FileOutcome::AlreadyExists
            } else if !files.contains(from) {
                FileOutcome::Failed
            } else {
                files.insert(to.clone());
                FileOutcome::Done
            }
        }
        FileOp::Delete { path } => {
            if files.remove(path) {
                FileOutcome::Done
            } else {
                FileOutcome::Failed
            }
        }
    }
}

fn save(disk: &mut Disk, config: ProblemConfig) -> Result<(), Error> {
    if disk.writable {
        disk.manifest = Some(config);
    }
    conclude(disk.writable)
}

fn run(disk: &mut Disk, request: Request) -> Result<(), Error> {
    match plan(request, disk.manifest.clone()) {
        Planned::Abort(e) => Err(e),
        Planned::Persist(config) => save(disk, config),
        Planned::Perform { op, pending, config } => {
            let outcome = perform(&op, &mut disk.files);
            match settle(pending, config, outcome) {
                Ok(after) => save(disk, after),
                Err(e) => Err(e),
            }
        }
    }
}

fn add_source(name: &str, from: Option<&str>) -> Request {
    Request::AddSource { name: name.to_string(), from: from.map(|f| f.to_string()) }
}

fn add_solution(name: &str, from: Option<&str>, verdict: Verdict) -> Request {
    Request::AddSolution { name: name.to_string(), from: from.map(|f| f.to_string()), verdict }
}

fn remove_source(name: &str) -> Request {
    Request::RemoveSource { name: name.to_string() }
}

fn remove_solution(name: &str) -> Request {
    Request::RemoveSolution { name: name.to_string() }
}

fn set_validator(name: &str) -> Request {
    Request::SetValidator { name: name.to_string() }
}

fn manifest(disk: &Disk) -> ProblemConfig {
    match &disk.manifest {
        Some(config) => config.clone(),
        None => panic!("the package has no manifest"),
    }
}

#[test]
fn a_fresh_package_takes_a_source_and_a_solution_and_gives_the_source_back() {
    let mut disk = fresh();

    assert_eq!(run(&mut disk, add_source("gen.cpp", None)), Ok(()));
    assert!(disk.files.contains("src/sources/gen.cpp"));
    let sources = manifest(&disk).sources;
    assert_eq!(sources.len(), 1);
    assert_eq!(sources[0].source, "src/sources/gen.cpp");
    assert_eq!(sources[0].compiler, "g++");
    assert_eq!(sources[0].compiler_args, vec!["%source%", "-o", "%bin%"]);
    assert_eq!(sources[0].bin, "src/sources/gen..exe");

    assert_eq!(run(&mut disk, add_solution("sol.cpp", None, Verdict::AC)), Ok(()));
    assert!(disk.files.contains("src/solutions/sol.cpp"));
    let solutions = manifest(&disk).solutions;
    assert_eq!(solutions.len(), 1);
    assert_eq!(solutions[0].verdict, Verdict::AC);
    assert_eq!(solutions[0].sourcefile, SourceFile::from_filename("src/solutions/sol.cpp"));

    assert_eq!(run(&mut disk, remove_source("gen.cpp")), Ok(()));
    assert!(!disk.files.contains("src/sources/gen.cpp"));
    assert!(manifest(&disk).sources.is_empty());
    assert_eq!(manifest(&disk).solutions, solutions);
    assert!(disk.files.contains("src/solutions/sol.cpp"));
}

#[test]
fn adding_from_a_file_that_is_not_there_fails_to_copy() {
    let mut disk = fresh();
    assert_eq!(run(&mut disk, add_source("gen.cpp", Some("/tmp/none.cpp"))), Err(Error::CopyFailed));
    assert!(manifest(&disk).sources.is_empty());
    assert!(disk.files.is_empty());
    assert_eq!(
        run(&mut disk, add_solution("sol.cpp", Some("/tmp/none.cpp"), Verdict::WA)),
        Err(Error::CopyFailed)
    );
    assert!(manifest(&disk).solutions.is_empty());
}

#[test]
fn adding_from_a_file_that_is_there_copies_it() {
    let mut disk = fresh();
    disk.files.insert("/tmp/draft.cpp".to_string());
    assert_eq!(run(&mut disk, add_source("gen.cpp", Some("/tmp/draft.cpp"))), Ok(()));
    assert!(disk.files.contains("src/sources/gen.cpp"));
    assert!(disk.files.contains("/tmp/draft.cpp"));
    assert_eq!(manifest(&disk).sources, vec![SourceFile::from_filename("src/sources/gen.cpp")]);
}

#[test]
fn adding_then_removing_a_source_restores_the_package() {
    let mut disk = fresh();
    assert_eq!(run(&mut disk, add_source("val.py", None)), Ok(()));
    assert_eq!(run(&mut disk, add_source("check.cpp", None)), Ok(()));
    assert_eq!(run(&mut disk, set_validator("val.py")), Ok(()));
    let before = manifest(&disk);
    let files = disk.files.clone();
    for name in ["gen.cpp", "gen", "a.b.c", ".hidden", "ünïcödé.cpp"] {
        assert_eq!(run(&mut disk, add_source(name, None)), Ok(()));
        assert_eq!(manifest(&disk).sources.len(), 3);
        assert_eq!(run(&mut disk, remove_source(name)), Ok(()));
        assert_eq!(manifest(&disk), before);
        assert_eq!(disk.files, files);
        assert!(!disk.files.contains(&format!("src/sources/{name}")));
    }
}

#[test]
fn adding_under_a_taken_name_is_a_conflict_and_writes_nothing() {
    let mut disk = fresh();
    assert_eq!(run(&mut disk, add_source("gen.cpp", None)), Ok(()));
    assert_eq!(run(&mut disk, add_solution("sol.cpp", None, Verdict::AC)), Ok(()));
    let before = manifest(&disk);
    let files = disk.files.clone();
    disk.files.insert("/tmp/other.cpp".to_string());

    assert_eq!(run(&mut disk, add_source("gen.cpp", None)), Err(Error::NameConflict));
    assert_eq!(
        run(&mut disk, add_source("gen.cpp", Some("/tmp/other.cpp"))),
        Err(Error::NameConflict)
    );
    assert_eq!(
        run(&mut disk, add_source("gen.cpp", Some("/tmp/none.cpp"))),
        Err(Error::NameConflict)
    );
    assert_eq!(
        run(&mut disk, add_solution("sol.cpp", None, Verdict::TLE)),
        Err(Error::NameConflict)
    );
    assert_eq!(manifest(&disk), before);
    disk.files.remove("/tmp/other.cpp");
    assert_eq!(disk.files, files);
}

#[test]
fn a_file_without_entry_is_a_conflict_too() {
    let mut disk = fresh();
    disk.files.insert("src/sources/orphan.cpp".to_string());
    assert_eq!(run(&mut disk, add_source("orphan.cpp", None)), Err(Error::NameConflict));
    assert!(manifest(&disk).sources.is_empty());
}

#[test]
fn removing_an_unknown_name_is_not_found_and_deletes_nothing() {
    let mut disk = fresh();
    assert_eq!(run(&mut disk, add_source("gen.cpp", None)), Ok(()));
    disk.files.insert("src/sources/orphan.cpp".to_string());
    disk.files.insert("src/solutions/gen.cpp".to_string());
    let before = manifest(&disk);
    let files = disk.files.clone();

    assert_eq!(run(&mut disk, remove_source("orphan.cpp")), Err(Error::NotFound));
    assert_eq!(run(&mut disk, remove_solution("gen.cpp")), Err(Error::NotFound));
    assert_eq!(manifest(&disk), before);
    assert_eq!(disk.files, files);
}

#[test]
fn removing_a_solution_deletes_its_file_and_entry() {
    let mut disk = fresh();
    assert_eq!(run(&mut disk, add_solution("ok.cpp", None, Verdict::AC)), Ok(()));
    assert_eq!(run(&mut disk, add_solution("slow.cpp", None, Verdict::TLE)), Ok(()));
    assert_eq!(run(&mut disk, remove_solution("ok.cpp")), Ok(()));
    let left = manifest(&disk).solutions;
    assert_eq!(left.len(), 1);
    assert_eq!(left[0].sourcefile.source, "src/solutions/slow.cpp");
    assert_eq!(left[0].verdict, Verdict::TLE);
    assert!(!disk.files.contains("src/solutions/ok.cpp"));
    assert!(disk.files.contains("src/solutions/slow.cpp"));
}

#[test]
fn the_validator_is_the_index_of_the_named_source() {
    let mut disk = fresh();
    for name in ["gen.cpp", "val.cpp", "check.cpp"] {
        assert_eq!(run(&mut disk, add_source(name, None)), Ok(()));
    }
    assert_eq!(run(&mut disk, set_validator("val.cpp")), Ok(()));
    assert_eq!(manifest(&disk).validator, Some(1));
    assert_eq!(run(&mut disk, set_validator("check.cpp")), Ok(()));
    assert_eq!(manifest(&disk).validator, Some(2));
    assert_eq!(manifest(&disk).checker, None);
    assert_eq!(manifest(&disk).sources.len(), 3);
}

#[test]
fn an_unknown_validator_is_not_found_and_the_old_one_stays() {
    let mut disk = fresh();
    assert_eq!(run(&mut disk, add_source("val.cpp", None)), Ok(()));
    assert_eq!(run(&mut disk, set_validator("val.cpp")), Ok(()));
    let before = manifest(&disk);
    assert_eq!(run(&mut disk, set_validator("none.cpp")), Err(Error::NotFound));
    assert_eq!(manifest(&disk), before);
    assert_eq!(manifest(&disk).validator, Some(0));
}

#[test]
fn a_removal_before_the_validator_leaves_its_index_stale() {
    let mut disk = fresh();
    for name in ["gen.cpp", "val.cpp", "check.cpp"] {
        assert_eq!(run(&mut disk, add_source(name, None)), Ok(()));
    }
    assert_eq!(run(&mut disk, set_validator("val.cpp")), Ok(()));
    assert_eq!(run(&mut disk, remove_source("gen.cpp")), Ok(()));
    assert_eq!(manifest(&disk).validator, Some(1));
    assert_eq!(manifest(&disk).sources[1].source, "src/sources/check.cpp");
}

#[test]
fn removing_the_validator_clears_it() {
    let mut disk = fresh();
    for name in ["gen.cpp", "val.cpp"] {
        assert_eq!(run(&mut disk, add_source(name, None)), Ok(()));
    }
    assert_eq!(run(&mut disk, set_validator("val.cpp")), Ok(()));
    assert_eq!(run(&mut disk, remove_source("val.cpp")), Ok(()));
    assert_eq!(manifest(&disk).validator, None);
    assert_eq!(manifest(&disk).sources.len(), 1);
}

#[test]
fn a_package_without_readable_manifest_fails_before_anything_happens() {
    let mut disk = Disk { manifest: None, files: BTreeSet::new(), writable: true };
    for request in [
        add_source("gen.cpp", None),
        add_solution("sol.cpp", None, Verdict::AC),
        remove_source("gen.cpp"),
        remove_solution("sol.cpp"),
        set_validator("gen.cpp"),
    ] {
        assert_eq!(run(&mut disk, request), Err(Error::ManifestUnreadable));
    }
    assert!(disk.files.is_empty());
    assert!(disk.manifest.is_none());
}

#[test]
fn a_failed_write_leaves_the_old_manifest_beside_the_new_files() {
    let mut disk = fresh();
    disk.writable = false;
    let before = manifest(&disk);
    assert_eq!(run(&mut disk, add_source("gen.cpp", None)), Err(Error::PersistFailed));
    assert_eq!(manifest(&disk), before);
    assert!(disk.files.contains("src/sources/gen.cpp"));
}

#[test]
fn a_failed_write_fails_setting_the_validator() {
    let mut disk = fresh();
    assert_eq!(run(&mut disk, add_source("val.cpp", None)), Ok(()));
    disk.writable = false;
    assert_eq!(run(&mut disk, set_validator("val.cpp")), Err(Error::PersistFailed));
    assert_eq!(manifest(&disk).validator, None);
}

#[test]
fn an_entry_whose_file_cannot_be_deleted_stays_registered() {
    let mut disk = fresh();
    assert_eq!(run(&mut disk, add_source("gen.cpp", None)), Ok(()));
    disk.files.clear();
    let before = manifest(&disk);
    assert_eq!(run(&mut disk, remove_source("gen.cpp")), Err(Error::DeleteFailed));
    assert_eq!(manifest(&disk), before);
}

#[test]
fn plan_places_the_file_before_the_manifest_is_touched() {
    let config = ProblemConfig::new("T".to_string(), 0, vec![]);
    assert_eq!(
        plan(add_source("gen.cpp", None), Some(config.clone())),
        Planned::Perform {
            op: FileOp::Create { path: "src/sources/gen.cpp".to_string() },
            pending: Pending::AddSource { name: "gen.cpp".to_string(), copied: false },
            config: config.clone(),
        }
    );
    assert_eq!(
        plan(add_solution("sol.py", Some("/tmp/sol.py"), Verdict::WA), Some(config.clone())),
        Planned::Perform {
            op: FileOp::Copy {
                from: "/tmp/sol.py".to_string(),
                to: "src/solutions/sol.py".to_string(),
            },
            pending: Pending::AddSolution {
                name: "sol.py".to_string(),
                verdict: Verdict::WA,
                copied: true,
            },
            config,
        }
    );
}

#[test]
fn plan_takes_the_entry_out_before_the_file_is_deleted() {
    let empty = ProblemConfig::new("T".to_string(), 0, vec![]);
    let mut config = empty.clone();
    config.sources.push(SourceFile::from_filename("src/sources/gen.cpp"));
    assert_eq!(
        plan(remove_source("gen.cpp"), Some(config.clone())),
        Planned::Perform {
            op: FileOp::Delete { path: "src/sources/gen.cpp".to_string() },
            pending: Pending::Remove,
            config: empty,
        }
    );
    assert_eq!(plan(remove_source("val.cpp"), Some(config.clone())), Planned::Abort(Error::NotFound));
    assert_eq!(plan(remove_solution("gen.cpp"), Some(config)), Planned::Abort(Error::NotFound));
}

#[test]
fn plan_sets_the_validator_without_any_file() {
    let mut config = ProblemConfig::new("T".to_string(), 0, vec![]);
    config.sources.push(SourceFile::from_filename("src/sources/val.cpp"));
    let mut expected = config.clone();
    expected.validator = Some(0);
    assert_eq!(plan(set_validator("val.cpp"), Some(config.clone())), Planned::Persist(expected));
    assert_eq!(plan(set_validator("gen.cpp"), Some(config)), Planned::Abort(Error::NotFound));
    assert_eq!(plan(set_validator("val.cpp"), None), Planned::Abort(Error::ManifestUnreadable));
}

#[test]
fn settle_names_the_error_of_each_outcome() {
    let config = ProblemConfig::new("T".to_string(), 0, vec![]);
    let created = Pending::AddSource { name: "gen.cpp".to_string(), copied: false };
    let copied = Pending::AddSolution { name: "s.cpp".to_string(), verdict: Verdict::AC, copied: true };
    assert_eq!(
        settle(created.clone(), config.clone(), FileOutcome::AlreadyExists),
        Err(Error::NameConflict)
    );
    assert_eq!(settle(created, config.clone(), FileOutcome::Failed), Err(Error::CreateFailed));
    assert_eq!(
        settle(copied.clone(), config.clone(), FileOutcome::AlreadyExists),
        Err(Error::NameConflict)
    );
    assert_eq!(settle(copied, config.clone(), FileOutcome::Failed), Err(Error::CopyFailed));
    assert_eq!(
        settle(Pending::Remove, config.clone(), FileOutcome::Failed),
        Err(Error::DeleteFailed)
    );
    assert_eq!(
        settle(Pending::Remove, config.clone(), FileOutcome::AlreadyExists),
        Err(Error::DeleteFailed)
    );
    assert_eq!(settle(Pending::Remove, config.clone(), FileOutcome::Done), Ok(config));
}

#[test]
fn settle_registers_what_was_placed() {
    let config = ProblemConfig::new("T".to_string(), 0, vec![]);
    let pending = Pending::AddSolution { name: "s.cpp".to_string(), verdict: Verdict::TLE, copied: true };
    let after = settle(pending, config, FileOutcome::Done);
    assert!(matches!(&after, Ok(c) if c.solutions.len() == 1
        && c.solutions[0].verdict == Verdict::TLE
        && c.solutions[0].sourcefile.source == "src/solutions/s.cpp"
        && c.sources.is_empty()));
}

#[test]
fn conclude_reports_a_failed_write() {
    assert_eq!(conclude(true), Ok(()));
    assert_eq!(conclude(false), Err(Error::PersistFailed));
}

#[test]
fn every_error_has_its_message() {
    assert_eq!(
        Error::NotFound.message(),
        "no such file is registered in problem_config.json"
    );
    assert_eq!(Error::NameConflict.message(), "a file of that name is already in the package");
    let all = [
        Error::PackageNotFound,
        Error::ManifestUnreadable,
        Error::MalformedManifest,
        Error::NameConflict,
        Error::CopyFailed,
        Error::CreateFailed,
        Error::NotFound,
        Error::DeleteFailed,
        Error::PersistFailed,
    ];
    for (i, a) in all.iter().enumerate() {
        assert!(!a.message().is_empty());
        for b in &all[i + 1..] {
            assert_ne!(a.message(), b.message());
        }
    }
}
