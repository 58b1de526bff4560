//! The storage engines a store can be opened on, and what each needs.
use vstd::prelude::*;
use vstd::string::*;
use crate::affiliation::opt_view;

verus! {

/// A storage engine: kept in memory, in one SQLite file, or in a RocksDB
/// directory.
#[derive(Clone, Copy, Debug, PartialEq, Eq, Structural)]
pub enum Engine {
    Mem,
    SQLite,
    RocksDB,
}

/// The name under which the engine is shown to people.
pub open spec fn display_name_of(e: Engine) -> Seq<char> {
    match e {
        Engine::Mem => "In-Memory"@,
        Engine::SQLite => "SQLite"@,
        Engine::RocksDB => "RocksDB"@,
    }
}

/// The name under which the storage layer knows the engine.
pub open spec fn kind_of(e: Engine) -> Seq<char> {
    match e {
        Engine::Mem => "mem"@,
        Engine::SQLite => "sqlite"@,
        Engine::RocksDB => "rocksdb"@,
    }
}

/// Whether the engine stores its data at a place on disk.
pub open spec fn needs_path(e: Engine) -> bool {
    e != Engine::Mem
}

/// Where a store on engine `e` asked to open at `path` lives: nowhere for
/// the in-memory engine, whatever path it was given; `path` itself for the
/// others.
pub open spec fn resolved_path(e: Engine, path: Seq<char>) -> Option<Seq<char>> {
    if needs_path(e) {
        Some(path)
    } else {
        None
    }
}

impl Engine {
    /// The name under which the engine is shown to people.
    pub fn display_name(&self) -> (r: &'static str)
        ensures
            r@ == display_name_of(*self),
    {
        match self {
            Engine::Mem => "In-Memory",
            Engine::SQLite => "SQLite",
            Engine::RocksDB => "RocksDB",
        }
    }

    /// The name under which the storage layer knows the engine.
    pub fn kind(&self) -> (r: &'static str)
        ensures
            r@ == kind_of(*self),
    {
        match self {
            Engine::Mem => "mem",
            Engine::SQLite => "sqlite",
            Engine::RocksDB => "rocksdb",
        }
    }

    /// Whether the engine stores its data at a place on disk.
    pub fn requires_path(&self) -> (r: bool)
        ensures
            r == needs_path(*self),
    {
        match self {
            Engine::Mem => false,
            _ => true,
        }
    }
}

/// Where a store on `engine` asked to open at `path` lives.
pub fn resolve_path(engine: Engine, path: &str) -> (r: Option<String>)
    ensures
        opt_view(r) == resolved_path(engine, path@),
{
    if engine.requires_path() {
        Some(path.to_owned())
    } else {
        None
    }
}

/// Opening in memory never resolves to a path, whatever path was given.
pub proof fn lemma_in_memory_has_no_path(path: Seq<char>)
    ensures
        resolved_path(Engine::Mem, path) is None,
{
}

/// Opening on a file or directory engine resolves to exactly the path given.
pub proof fn lemma_disk_engine_keeps_path(engine: Engine, path: Seq<char>)
    requires
        engine == Engine::SQLite || engine == Engine::RocksDB,
    ensures
        resolved_path(engine, path) == Some(path),
{
}

} // verus!
