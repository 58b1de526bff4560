//! Opening a store (engine, then schema, then index) and running scripts on
//! it.
use vstd::prelude::*;
use vstd::string::*;
use std::collections::BTreeMap;
use cozo::{DataValue, DbInstance, NamedRows, ScriptMutability};
use crate::affiliation::opt_view;
use crate::engine::{display_name_of, needs_path, resolved_path, resolve_path, Engine};
use crate::schema::{HNSW_INDEX, SCHEMA};

verus! {

#[verifier::external_type_specification]
#[verifier::external_body]
pub struct ExDbInstance(DbInstance);

#[verifier::external_type_specification]
#[verifier::external_body]
pub struct ExNamedRows(NamedRows);

#[verifier::external_type_specification]
#[verifier::external_body]
pub struct ExDataValue(DataValue);

/// Whether a script may change stored relations.
#[derive(Clone, Copy, Debug, PartialEq, Eq, Structural)]
pub enum Mutability {
    Mutable,
    Immutable,
}

/// A script the storage layer refused or could not run: its message, and
/// the diagnostic code it carries when the script itself was at fault.
#[derive(Debug)]
pub struct ScriptFailure {
    pub message: String,
    pub code: Option<String>,
}

/// Why a store could not be opened; each names the step that failed.
#[derive(Debug, PartialEq, Eq)]
pub enum InitError {
    EngineOpenFailed(String),
    SchemaFailed(String),
    IndexFailed(String),
}

/// Why a script produced no rows.
#[derive(Debug, PartialEq, Eq)]
pub enum QueryError {
    /// The script was malformed or did not fit the relations.
    ScriptError(String),
    /// The storage failed while running it.
    EngineError(String),
}

/// Relies on `cozo::DbInstance::new`: opens, or creates, a store of the
/// engine named `kind` at `path`. Whether that succeeds depends on the disk,
/// so nothing is promised of the outcome.
#[verifier::external_body]
fn open_instance(kind: &str, path: &str) -> (r: Result<DbInstance, String>) {
    match DbInstance::new(kind, path, "{}") {
        Ok(db) => Ok(db),
        Err(e) => Err(e.to_string()),
    }
}

/// Relies on `cozo::DbInstance::run_script`: runs `script` with `params` in
/// one transaction. What comes back depends on the stored data, so nothing is
/// promised of it; a failure keeps its message and its diagnostic code.
#[verifier::external_body]
fn run_on(
    db: &DbInstance,
    script: &str,
    params: BTreeMap<String, DataValue>,
    mode: Mutability,
) -> (r: Result<NamedRows, ScriptFailure>) {
    let m = match mode {
        Mutability::Mutable => ScriptMutability::Mutable,
        Mutability::Immutable => ScriptMutability::Immutable,
    };
    match db.run_script(script, params, m) {
        Ok(rows) => Ok(rows),
        Err(e) => {
            let code = match e.code() { Some(c) => Some(c.to_string()), None => None };
            Err(ScriptFailure { message: e.to_string(), code })
        },
    }
}

/// The error a script failure stands for: one with a diagnostic code is the
/// script's fault, one without is the storage's.
pub open spec fn query_error_of(f: ScriptFailure) -> QueryError {
    match f.code {
        Some(_) => QueryError::ScriptError(f.message),
        None => QueryError::EngineError(f.message),
    }
}

/// Sorts a script failure into a [`QueryError`].
pub fn classify_failure(f: ScriptFailure) -> (r: QueryError)
    ensures
        r == query_error_of(f),
{
    match f.code {
        Some(_) => QueryError::ScriptError(f.message),
        None => QueryError::EngineError(f.message),
    }
}

/// How far the opening of a store has come.
#[derive(Debug, PartialEq, Eq)]
pub enum InitStage {
    /// Nothing done yet.
    Uninitialized,
    /// The engine is open.
    EngineOpened,
    /// The relations exist.
    SchemaApplied,
    /// The index exists: the store takes queries.
    Ready,
    /// A step failed; nothing more is tried.
    Failed(InitError),
}

/// The stage reached once the step of `stage` ended with `outcome`: the
/// next stage on success, the failure of that step otherwise. `Ready` and
/// `Failed` stay as they are.
pub open spec fn stage_after(stage: InitStage, outcome: Result<(), String>) -> InitStage {
    match stage {
        InitStage::Uninitialized => match outcome {
            Ok(_) => InitStage::EngineOpened,
            Err(m) => InitStage::Failed(InitError::EngineOpenFailed(m)),
        },
        InitStage::EngineOpened => match outcome {
            Ok(_) => InitStage::SchemaApplied,
            Err(m) => InitStage::Failed(InitError::SchemaFailed(m)),
        },
        InitStage::SchemaApplied => match outcome {
            Ok(_) => InitStage::Ready,
            Err(m) => InitStage::Failed(InitError::IndexFailed(m)),
        },
        InitStage::Ready => InitStage::Ready,
        InitStage::Failed(e) => InitStage::Failed(e),
    }
}

/// The number of steps a stage may still take.
pub open spec fn steps_left(stage: InitStage) -> nat {
    match stage {
        InitStage::Uninitialized => 3,
        InitStage::EngineOpened => 2,
        InitStage::SchemaApplied => 1,
        _ => 0,
    }
}

/// Moves the opening of a store on by one step.
pub fn advance(stage: InitStage, outcome: Result<(), String>) -> (r: InitStage)
    ensures
        r == stage_after(stage, outcome),
        steps_left(stage) > 0 ==> steps_left(r) < steps_left(stage),
{
    match stage {
        InitStage::Uninitialized => match outcome {
            Ok(_) => InitStage::EngineOpened,
            Err(m) => InitStage::Failed(InitError::EngineOpenFailed(m)),
        },
        InitStage::EngineOpened => match outcome {
            Ok(_) => InitStage::SchemaApplied,
            Err(m) => InitStage::Failed(InitError::SchemaFailed(m)),
        },
        InitStage::SchemaApplied => match outcome {
            Ok(_) => InitStage::Ready,
            Err(m) => InitStage::Failed(InitError::IndexFailed(m)),
        },
        InitStage::Ready => InitStage::Ready,
        InitStage::Failed(e) => InitStage::Failed(e),
    }
}

/// Opening reaches `Ready` exactly when all three steps succeed, in order;
/// otherwise it ends in the failure of the first step that failed.
pub proof fn lemma_ready_iff_all_steps_succeed(
    open: Result<(), String>,
    schema: Result<(), String>,
    index: Result<(), String>,
)
    ensures
        ({
            let end = stage_after(
                stage_after(stage_after(InitStage::Uninitialized, open), schema),
                index,
            );
            &&& (end == InitStage::Ready) <==> (open is Ok && schema is Ok && index is Ok)
            &&& open is Err ==> end == InitStage::Failed(InitError::EngineOpenFailed(open->Err_0))
            &&& open is Ok && schema is Err ==> end == InitStage::Failed(
                InitError::SchemaFailed(schema->Err_0),
            )
            &&& open is Ok && schema is Ok && index is Err ==> end == InitStage::Failed(
                InitError::IndexFailed(index->Err_0),
            )
        }),
{
}

/// Whether no step is left to take.
pub fn is_settled(stage: &InitStage) -> (r: bool)
    ensures
        r == (steps_left(*stage) == 0),
{
    match stage {
        InitStage::Uninitialized => false,
        InitStage::EngineOpened => false,
        InitStage::SchemaApplied => false,
        _ => true,
    }
}

/// Runs a fixed script that changes the store, keeping only whether it did.
fn apply_script(db: &DbInstance, script: &str) -> (r: Result<(), String>) {
    match run_on(db, script, BTreeMap::new(), Mutability::Mutable) {
        Ok(_) => Ok(()),
        Err(f) => Err(f.message),
    }
}

/// Where a store lives, as shown to people.
pub open spec fn location_text(path: Option<Seq<char>>) -> Seq<char> {
    match path {
        Some(p) => p,
        None => "in-memory"@,
    }
}

/// The summary of a store on `engine` at `path`.
pub open spec fn description_of(engine: Engine, path: Option<Seq<char>>) -> Seq<char> {
    "AcademicResourceManager using "@ + display_name_of(engine) + " engine at "@ + location_text(
        path,
    )
}

/// Whether `needle` occurs in `hay`.
pub open spec fn contains_text(hay: Seq<char>, needle: Seq<char>) -> bool {
    exists|i: int|
        0 <= i && i + needle.len() <= hay.len() && #[trigger] hay.subrange(i, i + needle.len())
            == needle
}

/// The summary of a store names its engine, and its path or that it lives
/// in memory.
pub proof fn lemma_description_names_engine_and_place(engine: Engine, path: Option<Seq<char>>)
    ensures
        contains_text(description_of(engine, path), display_name_of(engine)),
        contains_text(description_of(engine, path), location_text(path)),
{
    let a = "AcademicResourceManager using "@;
    let b = display_name_of(engine);
    let c = " engine at "@;
    let d = location_text(path);
    let hay = description_of(engine, path);
    let i = a.len() as int;
    let j = i + b.len() + c.len();
    assert(hay.subrange(i, i + b.len()) =~= b);
    assert(hay.subrange(j, j + d.len()) =~= d);
}

/// A store opened on one engine, with its relations and index in place.
pub struct AcademicResourceManager {
    engine: Engine,
    path: Option<String>,
    pub db: DbInstance,
}

impl AcademicResourceManager {
    pub closed spec fn engine_view(&self) -> Engine {
        self.engine
    }

    pub closed spec fn path_view(&self) -> Option<Seq<char>> {
        opt_view(self.path)
    }

    /// Opens a store on `engine` at `path` (ignored in memory), creates its
    /// relations, then its index. An engine on disk given an empty path, or
    /// an engine that will not open, is `EngineOpenFailed`; a schema that
    /// does not apply is `SchemaFailed`; an index that does not is
    /// `IndexFailed`. The relations are created, not replaced: opening again
    /// a store that has them fails with `SchemaFailed` and leaves its data as
    /// it was.
    pub fn new(engine: Engine, path: &str) -> (r: Result<Self, InitError>)
        ensures
            r matches Ok(m) ==> m.engine_view() == engine && m.path_view() == resolved_path(
                engine,
                path@,
            ),
            needs_path(engine) && path@.len() == 0 ==> r matches Err(
                InitError::EngineOpenFailed(_),
            ),
    {
        if engine.requires_path() && path.is_empty() {
            return Err(
                InitError::EngineOpenFailed(
                    String::from_str("no path given for an engine that stores on disk"),
                ),
            );
        }
        let mut stage = InitStage::Uninitialized;
        let mut db: Option<DbInstance> = None;
        while !is_settled(&stage)
            invariant
                steps_left(stage) < 3 && !(stage is Failed) ==> db is Some,
            decreases steps_left(stage),
        {
            let outcome = match &stage {
                InitStage::Uninitialized => match open_instance(engine.kind(), path) {
                    Ok(d) => {
                        db = Some(d);
                        Ok(())
                    },
                    Err(m) => Err(m),
                },
                InitStage::EngineOpened => match &db {
                    Some(d) => apply_script(d, SCHEMA),
                    None => vstd::pervasive::unreached(),
                },
                _ => match &db {
                    Some(d) => apply_script(d, HNSW_INDEX),
                    None => vstd::pervasive::unreached(),
                },
            };
            stage = advance(stage, outcome);
        }
        match stage {
            InitStage::Failed(e) => Err(e),
            _ => match db {
                Some(d) => Ok(AcademicResourceManager { engine, path: resolve_path(engine, path), db: d }),
                None => vstd::pervasive::unreached(),
            },
        }
    }

    /// Where the store lives; nothing for a store in memory.
    pub fn get_path(&self) -> (r: Option<String>)
        ensures
            opt_view(r) == self.path_view(),
    {
        match &self.path {
            Some(p) => Some(p.clone()),
            None => None,
        }
    }

    /// The engine the store runs on.
    pub fn get_engine(&self) -> (r: Engine)
        ensures
            r == self.engine_view(),
    {
        self.engine
    }

    /// A summary naming the engine, and the path or that the store lives in
    /// memory.
    pub fn describe(&self) -> (r: String)
        ensures
            r@ == description_of(self.engine_view(), self.path_view()),
    {
        let mut s = String::from_str("AcademicResourceManager using ");
        s.append(self.engine.display_name());
        s.append(" engine at ");
        match &self.path {
            Some(p) => s.append(p.as_str()),
            None => s.append("in-memory"),
        }
        s
    }

    /// Runs `script` with `params` as one transaction; in `Immutable` mode
    /// it may not change stored relations. A failure is sorted as
    /// [`classify_failure`] does.
    pub fn execute(
        &self,
        script: &str,
        params: BTreeMap<String, DataValue>,
        mode: Mutability,
    ) -> (r: Result<NamedRows, QueryError>) {
        match run_on(&self.db, script, params, mode) {
            Ok(rows) => Ok(rows),
            Err(f) => Err(classify_failure(f)),
        }
    }
}

} // verus!
