use edge_connector::guest_policy::{evaluate_access, get_input_buffer};
use edge_connector::pattern::pattern_match;

fn run(body: &[u8]) -> i32 {
    evaluate_access(1024, body.len() as i32, body)
}

#[test]
fn admin_is_allowed() {
    assert_eq!(run(b"{\"role\":\"admin\"}"), 1);
}

#[test]
fn viewer_write_is_denied() {
    assert_eq!(run(b"{\"role\":\"viewer\",\"action\":\"write\"}"), 0);
}

#[test]
fn viewer_read_is_allowed() {
    assert_eq!(run(b"{\"role\":\"viewer\",\"action\":\"read\"}"), 1);
}

#[test]
fn blocked_precedes_admin() {
    assert_eq!(run(b"{\"blocked\":true,\"role\":\"admin\"}"), 0);
}

#[test]
fn operator_secret_is_denied() {
    assert_eq!(run(b"{\"role\":\"operator\",\"resource\":\"secret\"}"), 0);
}

#[test]
fn operator_plain_is_allowed() {
    assert_eq!(run(b"{\"role\":\"operator\",\"resource\":\"public\"}"), 1);
}

#[test]
fn unknown_role_is_allowed_by_default() {
    assert_eq!(run(b"{\"role\":\"guest\"}"), 1);
}

#[test]
fn non_positive_length_is_denied() {
    assert_eq!(evaluate_access(1024, 0, b""), 0);
    assert_eq!(evaluate_access(1024, -5, b""), 0);
}

#[test]
fn oversized_length_is_denied() {
    assert_eq!(evaluate_access(1024, 8193, b"{\"role\":\"admin\"}"), 0);
}

#[test]
fn negative_pointer_is_denied() {
    assert_eq!(evaluate_access(-1, 16, b"{\"role\":\"admin\"}"), 0);
}

#[test]
fn input_buffer_offset_is_fixed() {
    assert_eq!(get_input_buffer(), 1024);
}

#[test]
fn pattern_match_finds_inner_needle() {
    assert!(pattern_match(b"abcdef", b"cde"));
    assert!(pattern_match(b"abcdef", b"abcdef"));
    assert!(!pattern_match(b"abcdef", b"cdf"));
}

#[test]
fn pattern_match_empty_needle_always_found() {
    assert!(pattern_match(b"", b""));
    assert!(pattern_match(b"abc", b""));
}

#[test]
fn pattern_match_long_needle_never_found() {
    assert!(!pattern_match(b"ab", b"abc"));
}
