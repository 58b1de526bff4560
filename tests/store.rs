use std::collections::BTreeMap;
use std::time::{SystemTime, UNIX_EPOCH};

use cozo::{DbInstance, ScriptMutability};
use poirot::manager::{advance, classify_failure, is_settled, InitStage, ScriptFailure};
use poirot::{AcademicResourceManager, Engine, InitError, Mutability, QueryError};

fn fresh_path(tag: &str) -> String {
    let nanos = SystemTime::now().duration_since(UNIX_EPOCH).unwrap().as_nanos();
    format!("/tmp/poirot_{}_{}.sqlite", tag, nanos)
}

fn vec_literal(len: usize, value: f64) -> String {
    let parts: Vec<String> = (0..len).map(|_| format!("{:.1}", value)).collect();
    format!("vec([{}])", parts.join(", "))
}

fn count_rows(arm: &AcademicResourceManager, relation: &str) -> usize {
    let script = match relation {
        "entity" => "?[id] := *entity{id}",
        _ => "?[entity_id] := *entity_vec{entity_id}",
    };
    arm.execute(script, BTreeMap::new(), Mutability::Immutable).unwrap().rows.len()
}

#[test]
fn test_academic_resource_manager_display() {
    let path = fresh_path("test1_db_display");
    let arm = AcademicResourceManager::new(Engine::SQLite, &path).unwrap();
    let display_str = arm.describe();
    assert!(display_str.contains("SQLite"));
    assert!(display_str.contains(path.as_str()));
}

#[test]
fn in_memory_store_has_no_path_whatever_path_is_given() {
    for p in [":memory:", "", "some/file.db"] {
        let arm = AcademicResourceManager::new(Engine::Mem, p).unwrap();
        assert_eq!(arm.get_engine(), Engine::Mem);
        assert_eq!(arm.get_engine().display_name(), "In-Memory");
        assert!(arm.get_path().is_none());
        assert_eq!(arm.describe(), "AcademicResourceManager using In-Memory engine at in-memory");
    }
}

#[test]
fn sqlite_store_keeps_its_path() {
    let path = fresh_path("test_db_init");
    let arm = AcademicResourceManager::new(Engine::SQLite, &path).unwrap();
    assert_eq!(arm.get_engine().display_name(), "SQLite");
    assert_eq!(arm.get_path(), Some(path.clone()));
}

#[test]
fn disk_engine_without_path_fails_to_open() {
    let r = AcademicResourceManager::new(Engine::SQLite, "");
    assert!(matches!(r, Err(InitError::EngineOpenFailed(_))));
    let r = AcademicResourceManager::new(Engine::RocksDB, "");
    assert!(matches!(r, Err(InitError::EngineOpenFailed(_))));
}

#[test]
fn description_names_engine_and_path() {
    let path = fresh_path("test.db");
    let arm = AcademicResourceManager::new(Engine::SQLite, &path).unwrap();
    let text = arm.describe();
    assert_eq!(text, format!("AcademicResourceManager using SQLite engine at {}", path));
    assert!(text.contains("SQLite"));
    assert!(text.contains("test.db"));
}

#[test]
fn reopening_an_initialized_store_fails_and_keeps_its_rows() {
    let path = fresh_path("reopen");
    {
        let arm = AcademicResourceManager::new(Engine::SQLite, &path).unwrap();
        arm.execute(
            "?[id, kind, title, authors, uri, year, props] <- [['paper-a', 'paper', 'T', 'A', null, 2020, null]] :put entity {id => kind, title, authors, uri, year, props}",
            BTreeMap::new(),
            Mutability::Mutable,
        )
        .unwrap();
        assert_eq!(count_rows(&arm, "entity"), 1);
    }
    let again = AcademicResourceManager::new(Engine::SQLite, &path);
    assert!(matches!(again, Err(InitError::SchemaFailed(_))));
    let db = DbInstance::new("sqlite", &path, "{}").unwrap();
    let rows = db
        .run_script("?[id] := *entity{id}", BTreeMap::new(), ScriptMutability::Immutable)
        .unwrap();
    assert_eq!(rows.rows.len(), 1);
    assert_eq!(rows.rows[0][0].get_str(), Some("paper-a"));
}

#[test]
fn embedding_of_wrong_length_is_a_script_error_and_inserts_nothing() {
    let arm = AcademicResourceManager::new(Engine::Mem, "").unwrap();
    let script = format!(
        "?[entity_id, embedding] <- [['e1', {}]] :put entity_vec {{entity_id => embedding}}",
        vec_literal(3, 1.0)
    );
    let r = arm.execute(&script, BTreeMap::new(), Mutability::Mutable);
    assert!(matches!(r, Err(QueryError::ScriptError(_))));
    assert_eq!(count_rows(&arm, "entity_vec"), 0);
}

#[test]
fn fresh_store_has_no_entities() {
    let arm = AcademicResourceManager::new(Engine::Mem, ":memory:").unwrap();
    let rows = arm
        .execute(
            "?[id, kind, title, authors, uri, year, props] := *entity{id, kind, title, authors, uri, year, props}",
            BTreeMap::new(),
            Mutability::Immutable,
        )
        .unwrap();
    assert!(rows.rows.is_empty());
}

#[test]
fn nearest_neighbours_are_at_most_k_and_ordered_by_distance() {
    let arm = AcademicResourceManager::new(Engine::Mem, "").unwrap();
    for i in 0..10 {
        let script = format!(
            "?[entity_id, embedding] <- [['e{}', {}]] :put entity_vec {{entity_id => embedding}}",
            i,
            vec_literal(768, i as f64)
        );
        arm.execute(&script, BTreeMap::new(), Mutability::Mutable).unwrap();
    }
    assert_eq!(count_rows(&arm, "entity_vec"), 10);
    let query = format!(
        "?[dist, id] := ~entity_vec:entity_vec_hnsw{{ entity_id: id | query: q, k: 5, ef: 50, bind_distance: dist }}, q = {}\n:order dist",
        vec_literal(768, 0.0)
    );
    let rows = arm.execute(&query, BTreeMap::new(), Mutability::Immutable).unwrap().rows;
    assert!(rows.len() <= 5);
    assert!(!rows.is_empty());
    let dists: Vec<f64> = rows.iter().map(|r| r[0].get_float().unwrap()).collect();
    for w in dists.windows(2) {
        assert!(w[0] <= w[1]);
    }
    assert_eq!(rows[0][1].get_str(), Some("e0"));
}

#[test]
fn immutable_script_may_not_write() {
    let arm = AcademicResourceManager::new(Engine::Mem, "").unwrap();
    let r = arm.execute("?[name] <- [['x']] :put tag {name}", BTreeMap::new(), Mutability::Immutable);
    assert!(r.is_err());
    assert!(arm
        .execute("?[name] <- [['x']] :put tag {name}", BTreeMap::new(), Mutability::Mutable)
        .is_ok());
}

#[test]
fn malformed_script_is_a_script_error() {
    let arm = AcademicResourceManager::new(Engine::Mem, "").unwrap();
    let r = arm.execute("?[x] := not valid at all", BTreeMap::new(), Mutability::Immutable);
    assert!(matches!(r, Err(QueryError::ScriptError(_))));
}

#[test]
fn failures_are_sorted_by_their_code() {
    let coded = ScriptFailure { message: "bad".to_string(), code: Some("parser::x".to_string()) };
    assert_eq!(classify_failure(coded), QueryError::ScriptError("bad".to_string()));
    let plain = ScriptFailure { message: "io".to_string(), code: None };
    assert_eq!(classify_failure(plain), QueryError::EngineError("io".to_string()));
}

#[test]
fn engine_names() {
    assert_eq!(Engine::Mem.kind(), "mem");
    assert_eq!(Engine::SQLite.kind(), "sqlite");
    assert_eq!(Engine::RocksDB.kind(), "rocksdb");
    assert_eq!(Engine::RocksDB.display_name(), "RocksDB");
    assert!(!Engine::Mem.requires_path());
    assert!(Engine::SQLite.requires_path());
    assert_eq!(poirot::engine::resolve_path(Engine::Mem, "x"), None);
    assert_eq!(poirot::engine::resolve_path(Engine::RocksDB, "x"), Some("x".to_string()));
}

#[test]
fn init_stages_advance_in_order() {
    let s = advance(InitStage::Uninitialized, Ok(()));
    assert_eq!(s, InitStage::EngineOpened);
    let s = advance(s, Ok(()));
    assert_eq!(s, InitStage::SchemaApplied);
    let s = advance(s, Ok(()));
    assert_eq!(s, InitStage::Ready);
    assert!(is_settled(&s));
    assert_eq!(
        advance(InitStage::Uninitialized, Err("e".to_string())),
        InitStage::Failed(InitError::EngineOpenFailed("e".to_string()))
    );
    assert_eq!(
        advance(InitStage::EngineOpened, Err("e".to_string())),
        InitStage::Failed(InitError::SchemaFailed("e".to_string()))
    );
    assert_eq!(
        advance(InitStage::SchemaApplied, Err("e".to_string())),
        InitStage::Failed(InitError::IndexFailed("e".to_string()))
    );
    assert!(!is_settled(&InitStage::EngineOpened));
}

#[test]
fn all_relations_exist_and_start_empty() {
    let arm = AcademicResourceManager::new(Engine::Mem, "").unwrap();
    for script in [
        "?[id] := *entity{id}",
        "?[src, dst, kind] := *edge{src, dst, kind}",
        "?[name] := *tag{name}",
        "?[e, t] := *entity_tag{entity_id: e, tag_name: t}",
        "?[e] := *entity_vec{entity_id: e}",
    ] {
        let rows = arm.execute(script, BTreeMap::new(), Mutability::Immutable).unwrap();
        assert!(rows.rows.is_empty());
    }
}
