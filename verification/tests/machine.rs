use std::collections::BTreeMap;
use std::collections::BTreeSet;

use nanobot::init::Action;
use nanobot::init::BootstrapConfig;
use nanobot::init::BootstrapError;
use nanobot::init::BsState;
use nanobot::init::Event;
use nanobot::init::handle;
use nanobot::init::initial_state;
use nanobot::init::next_action;
use nanobot::init::success_message;

const MARKER: &str = "# Generated by nanobot";

/// A simulated project directory: file contents by path, plus the set of
/// directories, plus a log of external load invocations.
struct FakeFs {
    files: BTreeMap<String, String>,
    dirs: BTreeSet<String>,
    loads: Vec<(String, String)>,
    load_ok: bool,
    ignore_unreadable: bool,
}

impl FakeFs {
    fn empty() -> FakeFs {
        FakeFs {
            files: BTreeMap::new(),
            dirs: BTreeSet::new(),
            loads: Vec::new(),
            load_ok: true,
            ignore_unreadable: false,
        }
    }

    fn perform(&mut self, action: Action) -> Event {
        match action {
            Action::Probe { path } => Event::Probed {
                exists: self.files.contains_key(&path) || self.dirs.contains(&path),
            },
            Action::WriteFile { path, content } => {
                self.files.insert(path, content);
                Event::Written { ok: true }
            }
            Action::CreateDirAll { path } => {
                self.dirs.insert(path);
                Event::DirMade { ok: true }
            }
            Action::CreateEmptyFile { path } => {
                self.files.insert(path, String::new());
                Event::FileCreated { ok: true }
            }
            Action::ReadIgnoreFile { path } => {
                if self.ignore_unreadable {
                    Event::IgnoreReadFailed
                } else {
                    Event::IgnoreRead {
                        lines: self
                            .files
                            .get(&path)
                            .map(|c| c.lines().map(|l| l.to_string()).collect()),
                    }
                }
            }
            Action::WriteIgnoreFile { path, lines } => {
                let mut joined = lines.join("\n");
                joined.push('\n');
                self.files.insert(path, joined);
                Event::IgnoreWritten { ok: true }
            }
            Action::Load { table_path, db_path } => {
                self.loads.push((table_path, db_path));
                Event::Loaded { ok: self.load_ok }
            }
        }
    }
}

fn run(fs: &mut FakeFs, db: &str) -> BsState {
    let cfg = BootstrapConfig { connection: String::from(db) };
    let mut st = initial_state();
    while let Some(action) = next_action(&cfg, &st) {
        let ev = fs.perform(action);
        st = handle(&cfg, st, ev);
    }
    st
}

#[test]
fn end_to_end_empty_directory() {
    let mut fs = FakeFs::empty();
    let end = run(&mut fs, ".nanobot.db");
    assert!(matches!(end, BsState::Done));
    assert_eq!(success_message(), "Initialized a Nanobot project");
    assert!(fs.files.get("nanobot.toml").unwrap().contains("connection"));
    assert!(fs.dirs.contains("schema"));
    assert!(fs.files.contains_key("schema/table.tsv"));
    assert!(fs.files.contains_key("schema/column.tsv"));
    assert!(fs.files.contains_key("schema/datatype.tsv"));
    assert_eq!(fs.files.get(".nanobot.db").unwrap(), "");
    // An empty directory has no ignore file, so one is created holding a
    // fresh managed block with the database entry.
    let ignore = fs.files.get(".gitignore").unwrap();
    assert_eq!(ignore, &format!("\n{}\n.nanobot.db*\n", MARKER));
    assert!(ignore.lines().any(|l| l.contains(".nanobot.db*")));
    assert_eq!(fs.loads, vec![(String::from("schema/table.tsv"), String::from(".nanobot.db"))]);
}

#[test]
fn end_to_end_with_ignore_file() {
    let mut fs = FakeFs::empty();
    fs.files.insert(String::from(".gitignore"), String::from("target/\n"));
    let end = run(&mut fs, ".nanobot.db");
    assert!(matches!(end, BsState::Done));
    let ignore = fs.files.get(".gitignore").unwrap();
    assert!(ignore.lines().any(|l| l.contains(".nanobot.db*")));
    assert_eq!(ignore, "target/\n\n# Generated by nanobot\n.nanobot.db*\n");
    assert_eq!(fs.loads.len(), 1);
}

#[test]
fn config_present_fails_precondition_and_writes_nothing() {
    let mut fs = FakeFs::empty();
    fs.files.insert(String::from("nanobot.toml"), String::from("old"));
    let before = fs.files.clone();
    let end = run(&mut fs, ".nanobot.db");
    match end {
        BsState::Failed { error: BootstrapError::PreconditionViolation { path } } => {
            assert_eq!(path, "nanobot.toml");
        }
        other => panic!("expected a precondition violation, got {:?}", other),
    }
    assert_eq!(fs.files, before);
    assert!(fs.dirs.is_empty());
    assert!(fs.loads.is_empty());
}

#[test]
fn db_present_fails_precondition_and_writes_nothing() {
    let mut fs = FakeFs::empty();
    fs.files.insert(String::from(".nanobot.db"), String::from("data"));
    let before = fs.files.clone();
    let end = run(&mut fs, ".nanobot.db");
    match end {
        BsState::Failed { error: BootstrapError::PreconditionViolation { path } } => {
            assert_eq!(path, ".nanobot.db");
        }
        other => panic!("expected a precondition violation, got {:?}", other),
    }
    assert_eq!(fs.files, before);
    assert!(fs.dirs.is_empty());
    assert!(fs.loads.is_empty());
}

#[test]
fn seeder_rerun_keeps_existing_seed_and_writes_the_missing_two() {
    let mut fs = FakeFs::empty();
    fs.files.insert(String::from("schema/column.tsv"), String::from("CUSTOM"));
    let end = run(&mut fs, ".nanobot.db");
    assert!(matches!(end, BsState::Done));
    assert_eq!(fs.files.get("schema/column.tsv").unwrap(), "CUSTOM");
    assert!(fs.files.get("schema/table.tsv").unwrap().starts_with("table\tpath\t"));
    assert!(fs.files.get("schema/datatype.tsv").unwrap().starts_with("datatype\tparent\t"));
}

#[test]
fn load_failure_is_terminal_and_names_the_table_seed() {
    let mut fs = FakeFs::empty();
    fs.load_ok = false;
    let end = run(&mut fs, ".nanobot.db");
    match end {
        BsState::Failed { error: BootstrapError::ExternalLoadError { path } } => {
            assert_eq!(path, "schema/table.tsv");
        }
        other => panic!("expected an external load error, got {:?}", other),
    }
    // Earlier steps are not rolled back.
    assert!(fs.files.contains_key("nanobot.toml"));
    assert!(fs.files.contains_key(".nanobot.db"));
}

#[test]
fn ignore_with_marker_gets_entry_inserted_after_it() {
    let mut fs = FakeFs::empty();
    fs.files.insert(
        String::from(".gitignore"),
        format!("target/\n\n{}\nother.db*\n", MARKER),
    );
    let end = run(&mut fs, ".nanobot.db");
    assert!(matches!(end, BsState::Done));
    let ignore = fs.files.get(".gitignore").unwrap();
    assert_eq!(ignore, &format!("target/\n\n{}\n.nanobot.db*\nother.db*\n", MARKER));
}

#[test]
fn rerun_after_success_fails_precondition() {
    let mut fs = FakeFs::empty();
    let first = run(&mut fs, ".nanobot.db");
    assert!(matches!(first, BsState::Done));
    let second = run(&mut fs, ".nanobot.db");
    assert!(matches!(
        second,
        BsState::Failed { error: BootstrapError::PreconditionViolation { .. } }
    ));
}

#[test]
fn unreadable_ignore_file_fails_the_merge() {
    let mut fs = FakeFs::empty();
    fs.ignore_unreadable = true;
    let end = run(&mut fs, ".nanobot.db");
    match end {
        BsState::Failed { error: BootstrapError::IgnoreMergeError { path } } => {
            assert_eq!(path, ".gitignore");
        }
        other => panic!("expected an ignore-merge error, got {:?}", other),
    }
    assert!(fs.loads.is_empty());
}
