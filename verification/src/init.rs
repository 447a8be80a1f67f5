//! The project bootstrapper, as a strictly sequential state machine. The
//! library decides; a thin driver performs each decided action against the
//! real filesystem and the external load engine and feeds the result back.
//!
//! The sequence: refuse to run when the config file or the database file
//! already exists; write the default config; make the schema directory;
//! seed the three schema files that are missing; create the empty database
//! file; merge the database path into the ignore file, creating that file
//! with a fresh managed block when it does not exist; hand the table seed
//! to the external load engine. The first failure is terminal and names the
//! artifact it concerns; completed steps are never rolled back.

use vstd::prelude::*;

use crate::ignore::appended_lines;
use crate::ignore::ensure_entry;
use crate::ignore::entry_present;
use crate::ignore::has_marker;
use crate::ignore::merge_write_spec;
use crate::seed::SeedKind;
use crate::seed::config_path;
use crate::seed::config_path_text;
use crate::seed::config_payload;
use crate::seed::config_payload_text;
use crate::seed::ignore_path;
use crate::seed::ignore_path_text;
use crate::seed::schema_dir;
use crate::seed::schema_dir_text;
use crate::seed::seed_after;
use crate::seed::seed_path;
use crate::seed::seed_path_text;
use crate::seed::seed_payload;
use crate::seed::seed_payload_text;

verus! {

/// The immutable input of one bootstrap run: where the database file goes.
pub struct BootstrapConfig {
    pub connection: String,
}

impl BootstrapConfig {
    /// A usable database path is a single line.
    pub open spec fn wf(&self) -> bool {
        !self.connection@.contains('\n')
    }
}

/// The entry merged into the ignore file: the database path plus a wildcard
/// suffix, so companion files sharing the stem are ignored too.
pub open spec fn ignore_entry_text(db: Seq<char>) -> Seq<char> {
    db + "*"@
}

/// The fixed message of a completed run.
pub open spec fn success_text() -> Seq<char> {
    "Initialized a Nanobot project"@
}

/// Exec copy of `success_text`.
pub fn success_message() -> (s: String)
    ensures
        s@ == success_text(),
{
    String::from_str("Initialized a Nanobot project")
}

/// A terminal bootstrap error: the step kind and the artifact it concerns.
#[derive(Debug)]
pub enum BootstrapError {
    /// The config file or the database file already exists.
    PreconditionViolation { path: String },
    /// A create or write was refused by the filesystem.
    FilesystemError { path: String },
    /// A built-in resource could not be persisted as parsed.
    ParsePersistError { path: String },
    /// The ignore-file merge could not be written back.
    IgnoreMergeError { path: String },
    /// The external validation/loading engine failed.
    ExternalLoadError { path: String },
}

/// Spec-level shape of a `BootstrapError`.
pub enum ErrorV {
    PreconditionViolation(Seq<char>),
    FilesystemError(Seq<char>),
    ParsePersistError(Seq<char>),
    IgnoreMergeError(Seq<char>),
    ExternalLoadError(Seq<char>),
}

impl View for BootstrapError {
    type V = ErrorV;

    open spec fn view(&self) -> ErrorV {
        match self {
            BootstrapError::PreconditionViolation { path } => ErrorV::PreconditionViolation(
                path@,
            ),
            BootstrapError::FilesystemError { path } => ErrorV::FilesystemError(path@),
            BootstrapError::ParsePersistError { path } => ErrorV::ParsePersistError(path@),
            BootstrapError::IgnoreMergeError { path } => ErrorV::IgnoreMergeError(path@),
            BootstrapError::ExternalLoadError { path } => ErrorV::ExternalLoadError(path@),
        }
    }
}

/// An action the driver must perform next.
#[derive(Debug)]
pub enum Action {
    /// Does this path exist?
    Probe { path: String },
    /// Write this payload verbatim to this path.
    WriteFile { path: String, content: String },
    /// Create this directory and its parents; succeed when already present.
    CreateDirAll { path: String },
    /// Create an empty file at this path.
    CreateEmptyFile { path: String },
    /// Read the lines of this file, report that it does not exist, or
    /// report that it exists but cannot be read.
    ReadIgnoreFile { path: String },
    /// Replace this file with these lines.
    WriteIgnoreFile { path: String, lines: Vec<String> },
    /// Hand this table seed and this database to the external load engine.
    Load { table_path: String, db_path: String },
}

/// Spec-level shape of an `Action`.
pub enum ActionV {
    Probe(Seq<char>),
    WriteFile(Seq<char>, Seq<char>),
    CreateDirAll(Seq<char>),
    CreateEmptyFile(Seq<char>),
    ReadIgnoreFile(Seq<char>),
    WriteIgnoreFile(Seq<char>, Seq<Seq<char>>),
    Load(Seq<char>, Seq<char>),
}

impl View for Action {
    type V = ActionV;

    open spec fn view(&self) -> ActionV {
        match self {
            Action::Probe { path } => ActionV::Probe(path@),
            Action::WriteFile { path, content } => ActionV::WriteFile(path@, content@),
            Action::CreateDirAll { path } => ActionV::CreateDirAll(path@),
            Action::CreateEmptyFile { path } => ActionV::CreateEmptyFile(path@),
            Action::ReadIgnoreFile { path } => ActionV::ReadIgnoreFile(path@),
            Action::WriteIgnoreFile { path, lines } => ActionV::WriteIgnoreFile(
                path@,
                lines.deep_view(),
            ),
            Action::Load { table_path, db_path } => ActionV::Load(table_path@, db_path@),
        }
    }
}

/// What the driver observed when performing the pending action.
#[derive(Debug)]
pub enum Event {
    /// Result of a `Probe`.
    Probed { exists: bool },
    /// Result of a `WriteFile`.
    Written { ok: bool },
    /// Result of a `CreateDirAll`.
    DirMade { ok: bool },
    /// Result of a `CreateEmptyFile`.
    FileCreated { ok: bool },
    /// Result of a `ReadIgnoreFile`: the lines, or `None` for no such file.
    IgnoreRead { lines: Option<Vec<String>> },
    /// The ignore file exists but could not be read.
    IgnoreReadFailed,
    /// Result of a `WriteIgnoreFile`.
    IgnoreWritten { ok: bool },
    /// Result of a `Load`.
    Loaded { ok: bool },
}

/// Spec-level shape of an `Event`.
pub enum EventV {
    Probed(bool),
    Written(bool),
    DirMade(bool),
    FileCreated(bool),
    IgnoreRead(Option<Seq<Seq<char>>>),
    IgnoreReadFailed,
    IgnoreWritten(bool),
    Loaded(bool),
}

impl View for Event {
    type V = EventV;

    open spec fn view(&self) -> EventV {
        match self {
            Event::Probed { exists } => EventV::Probed(*exists),
            Event::Written { ok } => EventV::Written(*ok),
            Event::DirMade { ok } => EventV::DirMade(*ok),
            Event::FileCreated { ok } => EventV::FileCreated(*ok),
            Event::IgnoreRead { lines } => EventV::IgnoreRead(lines.deep_view()),
            Event::IgnoreReadFailed => EventV::IgnoreReadFailed,
            Event::IgnoreWritten { ok } => EventV::IgnoreWritten(*ok),
            Event::Loaded { ok } => EventV::Loaded(*ok),
        }
    }
}

/// Where a bootstrap run stands: the step whose action is pending, or a
/// terminal verdict.
#[derive(Debug)]
pub enum BsState {
    /// Check that the config file is absent.
    Start,
    /// Check that the database file is absent.
    DbCheck,
    /// Write the default config file.
    WriteConfig,
    /// Create the schema directory.
    MakeSchemaDir,
    /// Check whether this seed file exists.
    SeedProbe { kind: SeedKind },
    /// Write this missing seed file.
    SeedWrite { kind: SeedKind },
    /// Create the empty database file.
    CreateDb,
    /// Read the ignore file and compute the merge; an absent file is
    /// merged as an empty one, so the managed block is created.
    MergeIgnore,
    /// Write the merged ignore file back.
    WriteIgnore { lines: Vec<String> },
    /// Invoke the external load engine.
    LoadTables,
    /// The run completed.
    Done,
    /// The run stopped at its first failure.
    Failed { error: BootstrapError },
}

/// Spec-level shape of a `BsState`.
pub enum StateV {
    Start,
    DbCheck,
    WriteConfig,
    MakeSchemaDir,
    SeedProbe(SeedKind),
    SeedWrite(SeedKind),
    CreateDb,
    MergeIgnore,
    WriteIgnore(Seq<Seq<char>>),
    LoadTables,
    Done,
    Failed(ErrorV),
}

impl View for BsState {
    type V = StateV;

    open spec fn view(&self) -> StateV {
        match self {
            BsState::Start => StateV::Start,
            BsState::DbCheck => StateV::DbCheck,
            BsState::WriteConfig => StateV::WriteConfig,
            BsState::MakeSchemaDir => StateV::MakeSchemaDir,
            BsState::SeedProbe { kind } => StateV::SeedProbe(*kind),
            BsState::SeedWrite { kind } => StateV::SeedWrite(*kind),
            BsState::CreateDb => StateV::CreateDb,
            BsState::MergeIgnore => StateV::MergeIgnore,
            BsState::WriteIgnore { lines } => StateV::WriteIgnore(lines.deep_view()),
            BsState::LoadTables => StateV::LoadTables,
            BsState::Done => StateV::Done,
            BsState::Failed { error } => StateV::Failed(error@),
        }
    }
}

/// The state that follows a settled seed resource.
pub open spec fn seed_next_state(k: SeedKind) -> StateV {
    match seed_after(k) {
        Some(n) => StateV::SeedProbe(n),
        None => StateV::CreateDb,
    }
}

/// The action pending in a state, or `None` in a terminal state.
pub open spec fn next_action_model(db: Seq<char>, st: StateV) -> Option<ActionV> {
    match st {
        StateV::Start => Some(ActionV::Probe(config_path_text())),
        StateV::DbCheck => Some(ActionV::Probe(db)),
        StateV::WriteConfig => Some(ActionV::WriteFile(config_path_text(), config_payload_text())),
        StateV::MakeSchemaDir => Some(ActionV::CreateDirAll(schema_dir_text())),
        StateV::SeedProbe(k) => Some(ActionV::Probe(seed_path_text(k))),
        StateV::SeedWrite(k) => Some(ActionV::WriteFile(seed_path_text(k), seed_payload_text(k))),
        StateV::CreateDb => Some(ActionV::CreateEmptyFile(db)),
        StateV::MergeIgnore => Some(ActionV::ReadIgnoreFile(ignore_path_text())),
        StateV::WriteIgnore(w) => Some(ActionV::WriteIgnoreFile(ignore_path_text(), w)),
        StateV::LoadTables => Some(ActionV::Load(seed_path_text(SeedKind::Table), db)),
        StateV::Done => None,
        StateV::Failed(_) => None,
    }
}

/// The state after observing an event. An event that does not answer the
/// pending action leaves the state unchanged.
pub open spec fn step_model(db: Seq<char>, st: StateV, ev: EventV) -> StateV {
    match (st, ev) {
        (StateV::Start, EventV::Probed(exists)) => if exists {
            StateV::Failed(ErrorV::PreconditionViolation(config_path_text()))
        } else {
            StateV::DbCheck
        },
        (StateV::DbCheck, EventV::Probed(exists)) => if exists {
            StateV::Failed(ErrorV::PreconditionViolation(db))
        } else {
            StateV::WriteConfig
        },
        (StateV::WriteConfig, EventV::Written(ok)) => if ok {
            StateV::MakeSchemaDir
        } else {
            StateV::Failed(ErrorV::FilesystemError(config_path_text()))
        },
        (StateV::MakeSchemaDir, EventV::DirMade(ok)) => if ok {
            StateV::SeedProbe(SeedKind::Table)
        } else {
            StateV::Failed(ErrorV::FilesystemError(schema_dir_text()))
        },
        (StateV::SeedProbe(k), EventV::Probed(exists)) => if exists {
            seed_next_state(k)
        } else {
            StateV::SeedWrite(k)
        },
        (StateV::SeedWrite(k), EventV::Written(ok)) => if ok {
            seed_next_state(k)
        } else {
            StateV::Failed(ErrorV::FilesystemError(seed_path_text(k)))
        },
        (StateV::CreateDb, EventV::FileCreated(ok)) => if ok {
            StateV::MergeIgnore
        } else {
            StateV::Failed(ErrorV::FilesystemError(db))
        },
        (StateV::MergeIgnore, EventV::IgnoreRead(read)) => {
            let ls = match read {
                None => Seq::<Seq<char>>::empty(),
                Some(ls) => ls,
            };
            match merge_write_spec(ls, ignore_entry_text(db)) {
                Some(w) => StateV::WriteIgnore(w),
                None => StateV::LoadTables,
            }
        },
        (StateV::MergeIgnore, EventV::IgnoreReadFailed) => StateV::Failed(
            ErrorV::IgnoreMergeError(ignore_path_text()),
        ),
        (StateV::WriteIgnore(_), EventV::IgnoreWritten(ok)) => if ok {
            StateV::LoadTables
        } else {
            StateV::Failed(ErrorV::IgnoreMergeError(ignore_path_text()))
        },
        (StateV::LoadTables, EventV::Loaded(ok)) => if ok {
            StateV::Done
        } else {
            StateV::Failed(ErrorV::ExternalLoadError(seed_path_text(SeedKind::Table)))
        },
        (s, _) => s,
    }
}

/// The state every run begins in.
pub fn initial_state() -> (s: BsState)
    ensures
        s@ == StateV::Start,
{
    BsState::Start
}

/// The action the driver must perform in state `st`, or `None` when the
/// run is over.
pub fn next_action(cfg: &BootstrapConfig, st: &BsState) -> (r: Option<Action>)
    ensures
        r is Some <==> next_action_model(cfg.connection@, st@) is Some,
        r matches Some(a) ==> next_action_model(cfg.connection@, st@) == Some(a@),
{
    match st {
        BsState::Start => Some(Action::Probe { path: config_path() }),
        BsState::DbCheck => Some(Action::Probe { path: cfg.connection.clone() }),
        BsState::WriteConfig => Some(
            Action::WriteFile { path: config_path(), content: config_payload() },
        ),
        BsState::MakeSchemaDir => Some(Action::CreateDirAll { path: schema_dir() }),
        BsState::SeedProbe { kind } => Some(Action::Probe { path: seed_path(*kind) }),
        BsState::SeedWrite { kind } => Some(
            Action::WriteFile { path: seed_path(*kind), content: seed_payload(*kind) },
        ),
        BsState::CreateDb => Some(Action::CreateEmptyFile { path: cfg.connection.clone() }),
        BsState::MergeIgnore => Some(Action::ReadIgnoreFile { path: ignore_path() }),
        BsState::WriteIgnore { lines } => {
            let copy = lines.clone();
            proof {
                assert(copy.deep_view() =~= lines.deep_view());
            }
            Some(Action::WriteIgnoreFile { path: ignore_path(), lines: copy })
        },
        BsState::LoadTables => Some(
            Action::Load { table_path: seed_path(SeedKind::Table), db_path: cfg.connection.clone() },
        ),
        BsState::Done => None,
        BsState::Failed { .. } => None,
    }
}

/// Observe one event and move to the next state.
pub fn handle(cfg: &BootstrapConfig, st: BsState, ev: Event) -> (r: BsState)
    requires
        cfg.wf(),
    ensures
        r@ == step_model(cfg.connection@, st@, ev@),
{
    match (st, ev) {
        (BsState::Start, Event::Probed { exists }) => {
            if exists {
                BsState::Failed {
                    error: BootstrapError::PreconditionViolation { path: config_path() },
                }
            } else {
                BsState::DbCheck
            }
        },
        (BsState::DbCheck, Event::Probed { exists }) => {
            if exists {
                BsState::Failed {
                    error: BootstrapError::PreconditionViolation { path: cfg.connection.clone() },
                }
            } else {
                BsState::WriteConfig
            }
        },
        (BsState::WriteConfig, Event::Written { ok }) => {
            if ok {
                BsState::MakeSchemaDir
            } else {
                BsState::Failed { error: BootstrapError::FilesystemError { path: config_path() } }
            }
        },
        (BsState::MakeSchemaDir, Event::DirMade { ok }) => {
            if ok {
                BsState::SeedProbe { kind: SeedKind::Table }
            } else {
                BsState::Failed { error: BootstrapError::FilesystemError { path: schema_dir() } }
            }
        },
        (BsState::SeedProbe { kind }, Event::Probed { exists }) => {
            if exists {
                seed_settled(kind)
            } else {
                BsState::SeedWrite { kind }
            }
        },
        (BsState::SeedWrite { kind }, Event::Written { ok }) => {
            if ok {
                seed_settled(kind)
            } else {
                BsState::Failed {
                    error: BootstrapError::FilesystemError { path: seed_path(kind) },
                }
            }
        },
        (BsState::CreateDb, Event::FileCreated { ok }) => {
            if ok {
                BsState::MergeIgnore
            } else {
                BsState::Failed {
                    error: BootstrapError::FilesystemError { path: cfg.connection.clone() },
                }
            }
        },
        (BsState::MergeIgnore, Event::IgnoreRead { lines }) => {
            let mut entry = cfg.connection.clone();
            entry.append("*");
            proof {
                reveal_strlit("*");
                assert(entry@ == ignore_entry_text(cfg.connection@));
                assert forall|i: int| 0 <= i < entry@.len() implies entry@[i] != '\n' by {
                    if i < cfg.connection@.len() {
                        if entry@[i] == '\n' {
                            assert(cfg.connection@[i] == '\n');
                            assert(cfg.connection@.contains('\n'));
                        }
                    } else {
                        assert(entry@[i] == "*"@[i - cfg.connection@.len()]);
                    }
                }
                assert(!entry@.contains('\n'));
            }
            let file_lines = match lines {
                Some(v) => v,
                None => Vec::new(),
            };
            let plan = ensure_entry(Some(&file_lines), &entry);
            match plan.write {
                Some(w) => BsState::WriteIgnore { lines: w },
                None => BsState::LoadTables,
            }
        },
        (BsState::MergeIgnore, Event::IgnoreReadFailed) => BsState::Failed {
            error: BootstrapError::IgnoreMergeError { path: ignore_path() },
        },
        (BsState::WriteIgnore { .. }, Event::IgnoreWritten { ok }) => {
            if ok {
                BsState::LoadTables
            } else {
                BsState::Failed {
                    error: BootstrapError::IgnoreMergeError { path: ignore_path() },
                }
            }
        },
        (BsState::LoadTables, Event::Loaded { ok }) => {
            if ok {
                BsState::Done
            } else {
                BsState::Failed {
                    error: BootstrapError::ExternalLoadError { path: seed_path(SeedKind::Table) },
                }
            }
        },
        (s, _) => s,
    }
}

/// An action that changes the filesystem; probes, reads and the external
/// load do not.
pub open spec fn is_write_action(a: ActionV) -> bool {
    match a {
        ActionV::WriteFile(_, _) => true,
        ActionV::CreateDirAll(_) => true,
        ActionV::CreateEmptyFile(_) => true,
        ActionV::WriteIgnoreFile(_, _) => true,
        _ => false,
    }
}

/// The state after running the machine from `st`, consuming one event per
/// pending action until the events run out or the run is over.
pub open spec fn run_model(db: Seq<char>, st: StateV, evs: Seq<EventV>) -> StateV
    decreases evs.len(),
{
    if evs.len() == 0 || next_action_model(db, st) is None {
        st
    } else {
        run_model(db, step_model(db, st, evs[0]), evs.drop_first())
    }
}

/// Every action the machine issues along that same run.
pub open spec fn actions_of(db: Seq<char>, st: StateV, evs: Seq<EventV>) -> Seq<ActionV>
    decreases evs.len(),
{
    if evs.len() == 0 || next_action_model(db, st) is None {
        Seq::empty()
    } else {
        seq![next_action_model(db, st).unwrap()] + actions_of(
            db,
            step_model(db, st, evs[0]),
            evs.drop_first(),
        )
    }
}

/// One unfolding of `run_model` and `actions_of` in a non-terminal state.
proof fn lemma_machine_unfold(db: Seq<char>, st: StateV, evs: Seq<EventV>)
    requires
        evs.len() > 0,
        next_action_model(db, st) is Some,
    ensures
        run_model(db, st, evs) == run_model(db, step_model(db, st, evs[0]), evs.drop_first()),
        actions_of(db, st, evs) == seq![next_action_model(db, st).unwrap()] + actions_of(
            db,
            step_model(db, st, evs[0]),
            evs.drop_first(),
        ),
{
}

/// Law: when the config file already exists, every bootstrap run fails
/// with a precondition violation naming the config path, and the only
/// action ever issued is the probe of that path — no filesystem write.
pub proof fn lemma_config_present_no_writes(db: Seq<char>, evs: Seq<EventV>)
    requires
        evs.len() >= 1,
        evs[0] == EventV::Probed(true),
    ensures
        run_model(db, StateV::Start, evs) == StateV::Failed(
            ErrorV::PreconditionViolation(config_path_text()),
        ),
        actions_of(db, StateV::Start, evs) =~= seq![ActionV::Probe(config_path_text())],
        forall|k: int|
            0 <= k < actions_of(db, StateV::Start, evs).len() ==> !is_write_action(
                #[trigger] actions_of(db, StateV::Start, evs)[k],
            ),
{
    let failed = StateV::Failed(ErrorV::PreconditionViolation(config_path_text()));
    assert(step_model(db, StateV::Start, evs[0]) == failed);
    assert(run_model(db, failed, evs.drop_first()) == failed);
    assert(actions_of(db, failed, evs.drop_first()) =~= Seq::<ActionV>::empty());
}

/// Law: when the config file is absent but the database file already
/// exists, every bootstrap run fails with a precondition violation naming
/// the database path, and the only actions ever issued are the two probes
/// — no filesystem write.
pub proof fn lemma_db_present_no_writes(db: Seq<char>, evs: Seq<EventV>)
    requires
        evs.len() >= 2,
        evs[0] == EventV::Probed(false),
        evs[1] == EventV::Probed(true),
    ensures
        run_model(db, StateV::Start, evs) == StateV::Failed(ErrorV::PreconditionViolation(db)),
        actions_of(db, StateV::Start, evs) =~= seq![
            ActionV::Probe(config_path_text()),
            ActionV::Probe(db),
        ],
        forall|k: int|
            0 <= k < actions_of(db, StateV::Start, evs).len() ==> !is_write_action(
                #[trigger] actions_of(db, StateV::Start, evs)[k],
            ),
{
    let failed = StateV::Failed(ErrorV::PreconditionViolation(db));
    assert(step_model(db, StateV::Start, evs[0]) == StateV::DbCheck);
    let evs1 = evs.drop_first();
    assert(evs1[0] == evs[1]);
    lemma_machine_unfold(db, StateV::Start, evs);
    lemma_machine_unfold(db, StateV::DbCheck, evs1);
    assert(step_model(db, StateV::DbCheck, evs1[0]) == failed);
    assert(run_model(db, failed, evs1.drop_first()) == failed);
    assert(actions_of(db, failed, evs1.drop_first()) =~= Seq::<ActionV>::empty());
    assert(actions_of(db, StateV::Start, evs) =~= seq![ActionV::Probe(config_path_text())]
        + actions_of(db, StateV::DbCheck, evs1));
}

/// The events the seeding phase observes when exactly the seed `k` is
/// already present: each probe answers whether its file is `k`, and each
/// write of a missing file succeeds.
pub open spec fn seed_events_one_present(k: SeedKind) -> Seq<EventV> {
    match k {
        SeedKind::Table => seq![
            EventV::Probed(true),
            EventV::Probed(false),
            EventV::Written(true),
            EventV::Probed(false),
            EventV::Written(true),
        ],
        SeedKind::Column => seq![
            EventV::Probed(false),
            EventV::Written(true),
            EventV::Probed(true),
            EventV::Probed(false),
            EventV::Written(true),
        ],
        SeedKind::Datatype => seq![
            EventV::Probed(false),
            EventV::Written(true),
            EventV::Probed(false),
            EventV::Written(true),
            EventV::Probed(true),
        ],
    }
}

/// Law: re-running the seeding phase when exactly one seed file exists
/// writes the two missing files with their fixed payloads and issues no
/// write at all to the present file's path, then moves on to creating the
/// database.
pub proof fn lemma_seed_one_present(db: Seq<char>, k: SeedKind)
    ensures
        ({
            let evs = seed_events_one_present(k);
            let acts = actions_of(db, StateV::SeedProbe(SeedKind::Table), evs);
            &&& run_model(db, StateV::SeedProbe(SeedKind::Table), evs) == StateV::CreateDb
            &&& forall|i: int|
                0 <= i < acts.len() ==> !(#[trigger] acts[i] matches ActionV::WriteFile(
                    p,
                    _,
                ) && p == seed_path_text(k))
            &&& forall|other: SeedKind|
                other != k ==> acts.contains(
                    ActionV::WriteFile(seed_path_text(other), seed_payload_text(other)),
                )
        }),
{
    reveal_strlit("schema/table.tsv");
    reveal_strlit("schema/column.tsv");
    reveal_strlit("schema/datatype.tsv");
    assert(seed_path_text(SeedKind::Table).len() == 16);
    assert(seed_path_text(SeedKind::Column).len() == 17);
    assert(seed_path_text(SeedKind::Datatype).len() == 19);
    let evs = seed_events_one_present(k);
    let acts = actions_of(db, StateV::SeedProbe(SeedKind::Table), evs);
    match k {
        SeedKind::Table => {
            let s0 = StateV::SeedProbe(SeedKind::Table);
            let evs0 = evs;
            assert(evs0.len() == 5);
            lemma_machine_unfold(db, s0, evs0);
            let s1 = step_model(db, s0, evs0[0]);
            let evs1 = evs0.drop_first();
            assert(s1 == StateV::SeedProbe(SeedKind::Column));
            lemma_machine_unfold(db, s1, evs1);
            let s2 = step_model(db, s1, evs1[0]);
            let evs2 = evs1.drop_first();
            assert(s2 == StateV::SeedWrite(SeedKind::Column));
            lemma_machine_unfold(db, s2, evs2);
            let s3 = step_model(db, s2, evs2[0]);
            let evs3 = evs2.drop_first();
            assert(s3 == StateV::SeedProbe(SeedKind::Datatype));
            lemma_machine_unfold(db, s3, evs3);
            let s4 = step_model(db, s3, evs3[0]);
            let evs4 = evs3.drop_first();
            assert(s4 == StateV::SeedWrite(SeedKind::Datatype));
            lemma_machine_unfold(db, s4, evs4);
            let s5 = step_model(db, s4, evs4[0]);
            let evs5 = evs4.drop_first();
            assert(s5 == StateV::CreateDb);
            assert(evs5.len() == 0);
            assert(run_model(db, s5, evs5) == s5);
            assert(actions_of(db, s5, evs5) =~= Seq::<ActionV>::empty());
            assert(acts =~= seq![
                ActionV::Probe(seed_path_text(SeedKind::Table)),
                ActionV::Probe(seed_path_text(SeedKind::Column)),
                ActionV::WriteFile(seed_path_text(SeedKind::Column), seed_payload_text(SeedKind::Column)),
                ActionV::Probe(seed_path_text(SeedKind::Datatype)),
                ActionV::WriteFile(seed_path_text(SeedKind::Datatype), seed_payload_text(SeedKind::Datatype)),
            ]);
            assert(acts.contains(acts[2]));
            assert(acts.contains(acts[4]));
        },
        SeedKind::Column => {
            let s0 = StateV::SeedProbe(SeedKind::Table);
            let evs0 = evs;
            assert(evs0.len() == 5);
            lemma_machine_unfold(db, s0, evs0);
            let s1 = step_model(db, s0, evs0[0]);
            let evs1 = evs0.drop_first();
            assert(s1 == StateV::SeedWrite(SeedKind::Table));
            lemma_machine_unfold(db, s1, evs1);
            let s2 = step_model(db, s1, evs1[0]);
            let evs2 = evs1.drop_first();
            assert(s2 == StateV::SeedProbe(SeedKind::Column));
            lemma_machine_unfold(db, s2, evs2);
            let s3 = step_model(db, s2, evs2[0]);
            let evs3 = evs2.drop_first();
            assert(s3 == StateV::SeedProbe(SeedKind::Datatype));
            lemma_machine_unfold(db, s3, evs3);
            let s4 = step_model(db, s3, evs3[0]);
            let evs4 = evs3.drop_first();
            assert(s4 == StateV::SeedWrite(SeedKind::Datatype));
            lemma_machine_unfold(db, s4, evs4);
            let s5 = step_model(db, s4, evs4[0]);
            let evs5 = evs4.drop_first();
            assert(s5 == StateV::CreateDb);
            assert(evs5.len() == 0);
            assert(run_model(db, s5, evs5) == s5);
            assert(actions_of(db, s5, evs5) =~= Seq::<ActionV>::empty());
            assert(acts =~= seq![
                ActionV::Probe(seed_path_text(SeedKind::Table)),
                ActionV::WriteFile(seed_path_text(SeedKind::Table), seed_payload_text(SeedKind::Table)),
                ActionV::Probe(seed_path_text(SeedKind::Column)),
                ActionV::Probe(seed_path_text(SeedKind::Datatype)),
                ActionV::WriteFile(seed_path_text(SeedKind::Datatype), seed_payload_text(SeedKind::Datatype)),
            ]);
            assert(acts.contains(acts[1]));
            assert(acts.contains(acts[4]));
        },
        SeedKind::Datatype => {
            let s0 = StateV::SeedProbe(SeedKind::Table);
            let evs0 = evs;
            assert(evs0.len() == 5);
            lemma_machine_unfold(db, s0, evs0);
            let s1 = step_model(db, s0, evs0[0]);
            let evs1 = evs0.drop_first();
            assert(s1 == StateV::SeedWrite(SeedKind::Table));
            lemma_machine_unfold(db, s1, evs1);
            let s2 = step_model(db, s1, evs1[0]);
            let evs2 = evs1.drop_first();
            assert(s2 == StateV::SeedProbe(SeedKind::Column));
            lemma_machine_unfold(db, s2, evs2);
            let s3 = step_model(db, s2, evs2[0]);
            let evs3 = evs2.drop_first();
            assert(s3 == StateV::SeedWrite(SeedKind::Column));
            lemma_machine_unfold(db, s3, evs3);
            let s4 = step_model(db, s3, evs3[0]);
            let evs4 = evs3.drop_first();
            assert(s4 == StateV::SeedProbe(SeedKind::Datatype));
            lemma_machine_unfold(db, s4, evs4);
            let s5 = step_model(db, s4, evs4[0]);
            let evs5 = evs4.drop_first();
            assert(s5 == StateV::CreateDb);
            assert(evs5.len() == 0);
            assert(run_model(db, s5, evs5) == s5);
            assert(actions_of(db, s5, evs5) =~= Seq::<ActionV>::empty());
            assert(acts =~= seq![
                ActionV::Probe(seed_path_text(SeedKind::Table)),
                ActionV::WriteFile(seed_path_text(SeedKind::Table), seed_payload_text(SeedKind::Table)),
                ActionV::Probe(seed_path_text(SeedKind::Column)),
                ActionV::WriteFile(seed_path_text(SeedKind::Column), seed_payload_text(SeedKind::Column)),
                ActionV::Probe(seed_path_text(SeedKind::Datatype)),
            ]);
            assert(acts.contains(acts[1]));
            assert(acts.contains(acts[3]));
        },
    }
}

/// The events of a run in an empty project directory where every step
/// succeeds: both precondition probes report absence, every write and
/// create succeeds, there is no ignore file yet (so one is created with a
/// fresh managed block), and the load succeeds.
pub open spec fn clean_run_events() -> Seq<EventV> {
    seq![
        EventV::Probed(false),
        EventV::Probed(false),
        EventV::Written(true),
        EventV::DirMade(true),
        EventV::Probed(false),
        EventV::Written(true),
        EventV::Probed(false),
        EventV::Written(true),
        EventV::Probed(false),
        EventV::Written(true),
        EventV::FileCreated(true),
        EventV::IgnoreRead(None),
        EventV::IgnoreWritten(true),
        EventV::Loaded(true),
    ]
}

/// Law: a run in an empty directory where every step succeeds completes;
/// it writes the config, the missing seeds and the database file, creates
/// the ignore file with the managed block and the database entry, and
/// invokes the external load engine exactly once — as its final action,
/// with the table seed path and the configured database path.
pub proof fn lemma_clean_run(db: Seq<char>)
    ensures
        ({
            let acts = actions_of(db, StateV::Start, clean_run_events());
            &&& run_model(db, StateV::Start, clean_run_events()) == StateV::Done
            &&& acts =~= seq![
                ActionV::Probe(config_path_text()),
                ActionV::Probe(db),
                ActionV::WriteFile(config_path_text(), config_payload_text()),
                ActionV::CreateDirAll(schema_dir_text()),
                ActionV::Probe(seed_path_text(SeedKind::Table)),
                ActionV::WriteFile(seed_path_text(SeedKind::Table), seed_payload_text(SeedKind::Table)),
                ActionV::Probe(seed_path_text(SeedKind::Column)),
                ActionV::WriteFile(seed_path_text(SeedKind::Column), seed_payload_text(SeedKind::Column)),
                ActionV::Probe(seed_path_text(SeedKind::Datatype)),
                ActionV::WriteFile(seed_path_text(SeedKind::Datatype), seed_payload_text(SeedKind::Datatype)),
                ActionV::CreateEmptyFile(db),
                ActionV::ReadIgnoreFile(ignore_path_text()),
                ActionV::WriteIgnoreFile(
                    ignore_path_text(),
                    appended_lines(Seq::<Seq<char>>::empty(), ignore_entry_text(db)),
                ),
                ActionV::Load(seed_path_text(SeedKind::Table), db),
            ]
            &&& acts[13] == ActionV::Load(seed_path_text(SeedKind::Table), db)
            &&& forall|i: int|
                0 <= i < 13 ==> !(#[trigger] acts[i] matches ActionV::Load(_, _))
            &&& appended_lines(Seq::<Seq<char>>::empty(), ignore_entry_text(db)).contains(ignore_entry_text(db))
        }),
{
    let evs0 = clean_run_events();
    assert(evs0.len() == 14);
    let s0 = StateV::Start;
    assert(!entry_present(Seq::<Seq<char>>::empty(), ignore_entry_text(db)));
    assert(!has_marker(Seq::<Seq<char>>::empty()));
    lemma_machine_unfold(db, s0, evs0);
    let s1 = step_model(db, s0, evs0[0]);
    let evs1 = evs0.drop_first();
    assert(s1 == StateV::DbCheck);
    lemma_machine_unfold(db, s1, evs1);
    let s2 = step_model(db, s1, evs1[0]);
    let evs2 = evs1.drop_first();
    assert(s2 == StateV::WriteConfig);
    lemma_machine_unfold(db, s2, evs2);
    let s3 = step_model(db, s2, evs2[0]);
    let evs3 = evs2.drop_first();
    assert(s3 == StateV::MakeSchemaDir);
    lemma_machine_unfold(db, s3, evs3);
    let s4 = step_model(db, s3, evs3[0]);
    let evs4 = evs3.drop_first();
    assert(s4 == StateV::SeedProbe(SeedKind::Table));
    lemma_machine_unfold(db, s4, evs4);
    let s5 = step_model(db, s4, evs4[0]);
    let evs5 = evs4.drop_first();
    assert(s5 == StateV::SeedWrite(SeedKind::Table));
    lemma_machine_unfold(db, s5, evs5);
    let s6 = step_model(db, s5, evs5[0]);
    let evs6 = evs5.drop_first();
    assert(s6 == StateV::SeedProbe(SeedKind::Column));
    lemma_machine_unfold(db, s6, evs6);
    let s7 = step_model(db, s6, evs6[0]);
    let evs7 = evs6.drop_first();
    assert(s7 == StateV::SeedWrite(SeedKind::Column));
    lemma_machine_unfold(db, s7, evs7);
    let s8 = step_model(db, s7, evs7[0]);
    let evs8 = evs7.drop_first();
    assert(s8 == StateV::SeedProbe(SeedKind::Datatype));
    lemma_machine_unfold(db, s8, evs8);
    let s9 = step_model(db, s8, evs8[0]);
    let evs9 = evs8.drop_first();
    assert(s9 == StateV::SeedWrite(SeedKind::Datatype));
    lemma_machine_unfold(db, s9, evs9);
    let s10 = step_model(db, s9, evs9[0]);
    let evs10 = evs9.drop_first();
    assert(s10 == StateV::CreateDb);
    lemma_machine_unfold(db, s10, evs10);
    let s11 = step_model(db, s10, evs10[0]);
    let evs11 = evs10.drop_first();
    assert(s11 == StateV::MergeIgnore);
    lemma_machine_unfold(db, s11, evs11);
    let s12 = step_model(db, s11, evs11[0]);
    let evs12 = evs11.drop_first();
    assert(s12 == StateV::WriteIgnore(appended_lines(Seq::<Seq<char>>::empty(), ignore_entry_text(db))));
    lemma_machine_unfold(db, s12, evs12);
    let s13 = step_model(db, s12, evs12[0]);
    let evs13 = evs12.drop_first();
    assert(s13 == StateV::LoadTables);
    lemma_machine_unfold(db, s13, evs13);
    let s14 = step_model(db, s13, evs13[0]);
    let evs14 = evs13.drop_first();
    assert(s14 == StateV::Done);
    assert(evs14.len() == 0);
    assert(run_model(db, s14, evs14) == s14);
    assert(actions_of(db, s14, evs14) =~= Seq::<ActionV>::empty());
    assert(appended_lines(Seq::<Seq<char>>::empty(), ignore_entry_text(db))[2] == ignore_entry_text(db));
}

/// Exec counterpart of `seed_next_state`.
fn seed_settled(k: SeedKind) -> (r: BsState)
    ensures
        r@ == seed_next_state(k),
{
    match k {
        SeedKind::Table => BsState::SeedProbe { kind: SeedKind::Column },
        SeedKind::Column => BsState::SeedProbe { kind: SeedKind::Datatype },
        SeedKind::Datatype => BsState::CreateDb,
    }
}

} // verus!
