use edge_connector::registry::Registry;
use edge_connector::service::evaluate_request;

const ALLOW_GUEST: &str = r#"(module
  (memory (export "memory") 1)
  (func (export "evaluate_access") (param i32 i32) (result i32) (i32.const 1)))"#;

const DENY_GUEST: &str = r#"(module
  (memory (export "memory") 1)
  (func (export "evaluate_access") (param i32 i32) (result i32) (i32.const 0)))"#;

fn allow_registry() -> Registry {
    Registry::from_artifact(ALLOW_GUEST.as_bytes()).unwrap()
}

#[test]
fn response_carries_snapshot_version() {
    let reg = allow_registry();
    let resp = evaluate_request(&reg, b"{\"role\":\"admin\"}");
    assert_eq!(resp.policy_version, reg.version);
    assert!(resp.allowed);
    assert!(resp.error.is_none());
}

#[test]
fn version_in_response_has_tag_shape() {
    let reg = allow_registry();
    let resp = evaluate_request(&reg, b"{}");
    let rest = resp
        .policy_version
        .strip_prefix("0.1.0-")
        .expect("service version prefix");
    let (len_part, ts_part) = rest.split_once("b-").expect("length and timestamp parts");
    assert!(!len_part.is_empty() && len_part.bytes().all(|b| b.is_ascii_digit()));
    assert!(!ts_part.is_empty() && ts_part.bytes().all(|b| b.is_ascii_digit()));
}

#[test]
fn invalid_json_is_rejected_without_evaluation() {
    let reg = allow_registry();
    let resp = evaluate_request(&reg, b"not-json");
    assert!(!resp.allowed);
    let err = resp.error.expect("diagnostic");
    assert!(err.starts_with("Invalid JSON: "));
    assert!(err.len() > "Invalid JSON: ".len());
}

#[test]
fn deny_verdict_has_no_error() {
    let reg = Registry::from_artifact(DENY_GUEST.as_bytes()).unwrap();
    let resp = evaluate_request(&reg, b"{\"role\":\"admin\"}");
    assert!(!resp.allowed);
    assert!(resp.error.is_none());
}

#[test]
fn failed_reload_keeps_prior_version() {
    let mut reg = allow_registry();
    let before = reg.version.clone();
    assert!(reg.reload_from_bytes(b"garbage, not a module").is_err());
    assert_eq!(reg.version, before);
    let resp = evaluate_request(&reg, b"{}");
    assert_eq!(resp.policy_version, before);
    assert!(resp.allowed);
}

#[test]
fn accepted_reload_swaps_module_and_version() {
    let mut reg = allow_registry();
    let n = reg.reload_from_bytes(DENY_GUEST.as_bytes()).unwrap();
    assert_eq!(n, DENY_GUEST.len());
    let resp = evaluate_request(&reg, b"{\"role\":\"admin\"}");
    assert!(!resp.allowed);
    assert!(resp.error.is_none());
    assert_eq!(resp.policy_version, reg.version);
    assert!(reg.version.starts_with(&format!("0.1.0-{}b-", DENY_GUEST.len())));
}

#[test]
fn manual_reload_reports_read_failure() {
    let mut reg = allow_registry();
    let before = reg.version.clone();
    let outcome = reg.manual_reload(Err(String::from("boom")));
    assert!(!outcome.success);
    assert_eq!(outcome.error.as_deref(), Some("Failed to read policy file: boom"));
    assert!(outcome.policy_version.is_none());
    assert_eq!(reg.version, before);
}

#[test]
fn manual_reload_reports_compile_failure() {
    let mut reg = allow_registry();
    let before = reg.version.clone();
    let outcome = reg.manual_reload(Ok(b"garbage".to_vec()));
    assert!(!outcome.success);
    let err = outcome.error.expect("diagnostic");
    assert!(err.starts_with("Failed to compile policy: Failed to load WASM module: "));
    assert_eq!(reg.version, before);
}

#[test]
fn manual_reload_reports_success() {
    let mut reg = allow_registry();
    let outcome = reg.manual_reload(Ok(DENY_GUEST.as_bytes().to_vec()));
    assert!(outcome.success);
    assert_eq!(outcome.message.as_deref(), Some("Policy reloaded successfully"));
    assert_eq!(outcome.size_bytes, Some(DENY_GUEST.len() as u64));
    assert_eq!(outcome.policy_version.as_deref(), Some(reg.version.as_str()));
    assert!(outcome.error.is_none());
}
