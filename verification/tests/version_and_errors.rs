use edge_connector::error::ConnectorError;
use edge_connector::metrics::build_metrics;
use edge_connector::shared::PolicyResult;
use edge_connector::version::{format_policy_version, make_policy_version, u64_to_string};
use edge_connector::watcher::is_policy_extension;

#[test]
fn decimal_formatting_is_exact() {
    assert_eq!(u64_to_string(0).as_str(), "0");
    assert_eq!(u64_to_string(7).as_str(), "7");
    assert_eq!(u64_to_string(10).as_str(), "10");
    assert_eq!(u64_to_string(1_000_000).as_str(), "1000000");
    assert_eq!(u64_to_string(u64::MAX).as_str(), "18446744073709551615");
}

#[test]
fn version_tag_is_exact() {
    assert_eq!(format_policy_version(7, 1234).as_str(), "0.1.0-7b-1234");
    assert_eq!(format_policy_version(0, 0).as_str(), "0.1.0-0b-0");
}

#[test]
fn stamped_version_has_tag_shape() {
    let tag = make_policy_version(42);
    let rest = tag.strip_prefix("0.1.0-42b-").expect("tag prefix");
    assert!(!rest.is_empty());
    assert!(rest.bytes().all(|b| b.is_ascii_digit()));
}

#[test]
fn error_messages_are_exact() {
    assert_eq!(
        ConnectorError::WasmLoadError(String::from("bad")).message().as_str(),
        "Failed to load WASM module: bad"
    );
    assert_eq!(
        ConnectorError::PolicyExecutionError(String::from("trap")).message().as_str(),
        "Policy execution failed: trap"
    );
    assert_eq!(
        ConnectorError::FuelExhausted { consumed: 1_000_000 }.message().as_str(),
        "Fuel limit exceeded after 1000000 units"
    );
    assert_eq!(
        ConnectorError::MemoryOutOfBounds { offset: 1024 }.message().as_str(),
        "Memory access out of bounds at offset 1024"
    );
    assert_eq!(
        ConnectorError::FunctionNotFound(String::from("memory")).message().as_str(),
        "Function not found: memory"
    );
    assert_eq!(ConnectorError::IoError(String::from("gone")).message().as_str(), "gone");
}

#[test]
fn policy_result_reports_allowance() {
    assert!(PolicyResult::Allow.is_allowed());
    assert!(!PolicyResult::Deny.is_allowed());
}

#[test]
fn metrics_target_boundary() {
    let below = build_metrics(10239);
    assert!(below.within_target);
    assert_eq!(below.target_mb, 10);
    assert_eq!(below.memory_kb, 10239);
    let at = build_metrics(10240);
    assert!(!at.within_target);
}

#[test]
fn watcher_filters_on_wasm_extension() {
    assert!(is_policy_extension(b"wasm"));
    assert!(!is_policy_extension(b"txt"));
    assert!(!is_policy_extension(b"wasmx"));
    assert!(!is_policy_extension(b"was"));
    assert!(!is_policy_extension(b""));
}

#[test]
fn vmrss_parse_reads_second_token() {
    let status = b"VmPeak:\t  5000 kB\nVmRSS:\t  4321 kB\nVmData:\t  900 kB\n";
    assert_eq!(edge_connector::metrics::parse_vmrss_kb(status), 4321);
}

#[test]
fn vmrss_parse_without_line_is_zero() {
    assert_eq!(edge_connector::metrics::parse_vmrss_kb(b"VmPeak:\t 5000 kB\n"), 0);
    assert_eq!(edge_connector::metrics::parse_vmrss_kb(b""), 0);
}

#[test]
fn vmrss_parse_rejects_non_digit_token() {
    assert_eq!(edge_connector::metrics::parse_vmrss_kb(b"VmRSS:\t alpha kB\n"), 0);
    assert_eq!(edge_connector::metrics::parse_vmrss_kb(b"VmRSS:\n"), 0);
}

#[test]
fn vmrss_parse_needs_line_start() {
    assert_eq!(edge_connector::metrics::parse_vmrss_kb(b"xVmRSS:\t 77 kB\n"), 0);
    assert_eq!(edge_connector::metrics::parse_vmrss_kb(b"x\nVmRSS: 77 kB\n"), 77);
}
