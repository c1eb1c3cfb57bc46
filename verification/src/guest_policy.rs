//! The reference guest policy, as plain logic on the request bytes.
//!
//! The guest looks for fixed byte patterns in the raw request: a blocked
//! flag, then role markers, each with its restriction. The entry point
//! applies the guest-side argument defence before any rule.

use vstd::prelude::*;
use crate::pattern::{contains_pattern, pattern_match};

verus! {

/// Largest request length the guest accepts, in bytes.
pub const MAX_GUEST_REQUEST_LEN: i32 = 8192;

/// The bytes of `"blocked":true`.
pub open spec fn blocked_needle() -> Seq<u8> {
    seq![34u8, 98u8, 108u8, 111u8, 99u8, 107u8, 101u8, 100u8, 34u8, 58u8, 116u8, 114u8, 117u8, 101u8]
}

/// The bytes of `"admin"`.
pub open spec fn admin_needle() -> Seq<u8> {
    seq![34u8, 97u8, 100u8, 109u8, 105u8, 110u8, 34u8]
}

/// The bytes of `"operator"`.
pub open spec fn operator_needle() -> Seq<u8> {
    seq![34u8, 111u8, 112u8, 101u8, 114u8, 97u8, 116u8, 111u8, 114u8, 34u8]
}

/// The bytes of `"secret"`.
pub open spec fn secret_needle() -> Seq<u8> {
    seq![34u8, 115u8, 101u8, 99u8, 114u8, 101u8, 116u8, 34u8]
}

/// The bytes of `"viewer"`.
pub open spec fn viewer_needle() -> Seq<u8> {
    seq![34u8, 118u8, 105u8, 101u8, 119u8, 101u8, 114u8, 34u8]
}

/// The bytes of `"write"`.
pub open spec fn write_needle() -> Seq<u8> {
    seq![34u8, 119u8, 114u8, 105u8, 116u8, 101u8, 34u8]
}

/// The guest's decision on a request body: 0 denies, 1 allows.
///
/// A blocked flag denies before any role rule; admin always allows;
/// an operator is allowed except on secret resources; a viewer is
/// allowed except for writes; anything else is allowed by default.
pub open spec fn spec_decide(data: Seq<u8>) -> int {
    if contains_pattern(data, blocked_needle()) {
        0
    } else if contains_pattern(data, admin_needle()) {
        1
    } else if contains_pattern(data, operator_needle()) {
        if contains_pattern(data, secret_needle()) {
            0
        } else {
            1
        }
    } else if contains_pattern(data, viewer_needle()) {
        if contains_pattern(data, write_needle()) {
            0
        } else {
            1
        }
    } else {
        1
    }
}

/// The guest entry point's result: invalid arguments deny outright,
/// otherwise the rules of `spec_decide` apply.
pub open spec fn spec_evaluate_access(ptr: int, len: int, data: Seq<u8>) -> int {
    if len <= 0 || len > MAX_GUEST_REQUEST_LEN || ptr < 0 {
        0
    } else {
        spec_decide(data)
    }
}

/// The byte offset at which the host writes request data.
pub fn get_input_buffer() -> (r: i32)
    ensures
        r == 1024,
{
    1024
}

/// The guest's policy evaluation entry point.
///
/// `ptr` and `len` are the raw arguments of the call; `data` is the request
/// slice of `len` bytes that the host wrote at offset `ptr`. The guest-side
/// defence rejects non-positive or oversized lengths and negative pointers
/// by denying; valid requests go to the pattern rules.
pub fn evaluate_access(ptr: i32, len: i32, data: &[u8]) -> (verdict: i32)
    ensures
        verdict == spec_evaluate_access(ptr as int, len as int, data@),
{
    if len <= 0 || len > MAX_GUEST_REQUEST_LEN || ptr < 0 {
        return 0;
    }
    if pattern_match(data, needle_blocked().as_slice()) {
        return 0;
    }
    if pattern_match(data, needle_admin().as_slice()) {
        return 1;
    }
    if pattern_match(data, needle_operator().as_slice()) {
        if pattern_match(data, needle_secret().as_slice()) {
            return 0;
        }
        return 1;
    }
    if pattern_match(data, needle_viewer().as_slice()) {
        if pattern_match(data, needle_write().as_slice()) {
            return 0;
        }
        return 1;
    }
    1
}

/// The `"blocked":true` pattern as a vector.
fn needle_blocked() -> (v: Vec<u8>)
    ensures
        v@ == blocked_needle(),
{
    let v: Vec<u8> = vec![34u8, 98u8, 108u8, 111u8, 99u8, 107u8, 101u8, 100u8, 34u8, 58u8, 116u8, 114u8, 117u8, 101u8];
    proof {
        assert(v@ =~= blocked_needle());
    }
    v
}

/// The `"admin"` pattern as a vector.
fn needle_admin() -> (v: Vec<u8>)
    ensures
        v@ == admin_needle(),
{
    let v: Vec<u8> = vec![34u8, 97u8, 100u8, 109u8, 105u8, 110u8, 34u8];
    proof {
        assert(v@ =~= admin_needle());
    }
    v
}

/// The `"operator"` pattern as a vector.
fn needle_operator() -> (v: Vec<u8>)
    ensures
        v@ == operator_needle(),
{
    let v: Vec<u8> = vec![34u8, 111u8, 112u8, 101u8, 114u8, 97u8, 116u8, 111u8, 114u8, 34u8];
    proof {
        assert(v@ =~= operator_needle());
    }
    v
}

/// The `"secret"` pattern as a vector.
fn needle_secret() -> (v: Vec<u8>)
    ensures
        v@ == secret_needle(),
{
    let v: Vec<u8> = vec![34u8, 115u8, 101u8, 99u8, 114u8, 101u8, 116u8, 34u8];
    proof {
        assert(v@ =~= secret_needle());
    }
    v
}

/// The `"viewer"` pattern as a vector.
fn needle_viewer() -> (v: Vec<u8>)
    ensures
        v@ == viewer_needle(),
{
    let v: Vec<u8> = vec![34u8, 118u8, 105u8, 101u8, 119u8, 101u8, 114u8, 34u8];
    proof {
        assert(v@ =~= viewer_needle());
    }
    v
}

/// The `"write"` pattern as a vector.
fn needle_write() -> (v: Vec<u8>)
    ensures
        v@ == write_needle(),
{
    let v: Vec<u8> = vec![34u8, 119u8, 114u8, 105u8, 116u8, 101u8, 34u8];
    proof {
        assert(v@ =~= write_needle());
    }
    v
}

} // verus!
