use edge_connector::error::ConnectorError;
use edge_connector::policy_runtime::{create_edge_engine, PolicyRuntime, FUEL_LIMIT};

const ALLOW_GUEST: &str = r#"(module
  (memory (export "memory") 1)
  (func (export "evaluate_access") (param i32 i32) (result i32) (i32.const 7)))"#;

const DENY_GUEST: &str = r#"(module
  (memory (export "memory") 1)
  (func (export "evaluate_access") (param i32 i32) (result i32) (i32.const 0)))"#;

const LOOP_GUEST: &str = r#"(module
  (memory (export "memory") 1)
  (func (export "evaluate_access") (param i32 i32) (result i32)
    (loop $spin (br $spin))
    (i32.const 1)))"#;

const NO_ENTRY_GUEST: &str = r#"(module (memory (export "memory") 1))"#;

const NO_MEMORY_GUEST: &str = r#"(module
  (func (export "evaluate_access") (param i32 i32) (result i32) (i32.const 1)))"#;

const FAR_BUFFER_GUEST: &str = r#"(module
  (memory (export "memory") 1)
  (func (export "get_input_buffer") (result i32) (i32.const 65536))
  (func (export "evaluate_access") (param i32 i32) (result i32) (i32.const 1)))"#;

const LOGGING_GUEST: &str = r#"(module
  (import "host" "log" (func $log (param i32 i32)))
  (memory (export "memory") 1)
  (data (i32.const 0) "policy ready")
  (func (export "evaluate_access") (param i32 i32) (result i32)
    (call $log (i32.const 0) (i32.const 12))
    (i32.const 1)))"#;

#[test]
fn engine_builds() {
    assert!(create_edge_engine().is_ok());
}

#[test]
fn invalid_artifact_is_a_load_error() {
    match PolicyRuntime::new(b"not wasm at all") {
        Err(ConnectorError::WasmLoadError(msg)) => {
            assert!(msg.starts_with("Failed to compile module: "));
        }
        other => panic!("expected WasmLoadError, got {:?}", other.is_ok()),
    }
}

#[test]
fn non_zero_return_allows() {
    let rt = PolicyRuntime::new(ALLOW_GUEST.as_bytes()).unwrap();
    assert_eq!(rt.evaluate_policy(b"{}").unwrap(), true);
}

#[test]
fn zero_return_denies() {
    let rt = PolicyRuntime::new(DENY_GUEST.as_bytes()).unwrap();
    assert_eq!(rt.evaluate_policy(b"{}").unwrap(), false);
}

#[test]
fn infinite_loop_exhausts_fuel() {
    let rt = PolicyRuntime::new(LOOP_GUEST.as_bytes()).unwrap();
    match rt.evaluate_policy(b"{}") {
        Err(ConnectorError::FuelExhausted { consumed }) => {
            assert_eq!(consumed, FUEL_LIMIT);
        }
        other => panic!("expected FuelExhausted, got ok={:?}", other.is_ok()),
    }
}

#[test]
fn missing_entry_is_function_not_found() {
    let rt = PolicyRuntime::new(NO_ENTRY_GUEST.as_bytes()).unwrap();
    match rt.evaluate_policy(b"{}") {
        Err(ConnectorError::FunctionNotFound(name)) => {
            assert!(name.starts_with("evaluate_access"));
        }
        other => panic!("expected FunctionNotFound, got ok={:?}", other.is_ok()),
    }
}

#[test]
fn missing_memory_is_function_not_found() {
    let rt = PolicyRuntime::new(NO_MEMORY_GUEST.as_bytes()).unwrap();
    match rt.evaluate_policy(b"{}") {
        Err(ConnectorError::FunctionNotFound(name)) => {
            assert_eq!(name.as_str(), "memory");
        }
        other => panic!("expected FunctionNotFound, got ok={:?}", other.is_ok()),
    }
}

#[test]
fn huge_request_is_out_of_bounds() {
    let rt = PolicyRuntime::new(ALLOW_GUEST.as_bytes()).unwrap();
    let big = vec![b' '; 10 * 1024 * 1024];
    match rt.evaluate_policy(&big) {
        Err(ConnectorError::MemoryOutOfBounds { offset }) => {
            assert_eq!(offset, 1024);
        }
        other => panic!("expected MemoryOutOfBounds, got ok={:?}", other.is_ok()),
    }
}

#[test]
fn guest_supplied_offset_is_respected_on_failure() {
    let rt = PolicyRuntime::new(FAR_BUFFER_GUEST.as_bytes()).unwrap();
    match rt.evaluate_policy(b"{}") {
        Err(ConnectorError::MemoryOutOfBounds { offset }) => {
            assert_eq!(offset, 65536);
        }
        other => panic!("expected MemoryOutOfBounds, got ok={:?}", other.is_ok()),
    }
}

#[test]
fn host_log_import_is_served() {
    let rt = PolicyRuntime::new(LOGGING_GUEST.as_bytes()).unwrap();
    assert_eq!(rt.evaluate_policy(b"{}").unwrap(), true);
}
