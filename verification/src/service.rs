//! The evaluation path behind the evaluate endpoint: gate the body on JSON
//! validity, snapshot the registry, run the sandbox, and shape the
//! response.

use vstd::prelude::*;
use crate::registry::Registry;
use crate::shared::PolicyResponse;
use crate::version::version_tag;

verus! {

/// The parse diagnostic that the JSON gate reports for a body, if any; a
/// function of the bytes alone. `None` means the body is a JSON document.
pub uninterp spec fn json_error_of(body: Seq<u8>) -> Option<Seq<char>>;

/// Relies on serde_json::from_slice::<Value>: decides whether the body
/// parses as a JSON document and, when it does not, yields the parse
/// diagnostic. The result depends on the bytes alone.
#[verifier::external_body]
fn json_check(body: &[u8]) -> (r: Option<String>)
    ensures
        match r {
            None => json_error_of(body@) is None,
            Some(m) => json_error_of(body@) == Some(m@),
        },
{
    match serde_json::from_slice::<serde_json::Value>(body) {
        Ok(_) => None,
        Err(e) => Some(format!("{}", e)),
    }
}

/// Evaluates one request body against the registry snapshot.
///
/// The response always carries the snapshot's version tag. A body that is
/// not JSON is rejected without touching the sandbox; otherwise the
/// sandbox's verdict or its failure diagnostic fills the response, and
/// every failure reads as a denial.
pub fn evaluate_request(registry: &Registry, body: &[u8]) -> (r: PolicyResponse)
    ensures
        r.policy_version@ == registry.version@,
        registry.wf() ==> exists|len: nat, ts: nat| r.policy_version@ == version_tag(len, ts),
        r.allowed ==> r.error is None,
        json_error_of(body@) matches Some(m) ==> !r.allowed && (r.error matches Some(t) && t@
            == "Invalid JSON: "@ + m),
{
    let policy_version = registry.version.clone();
    match json_check(body) {
        Some(msg) => {
            let prefix = String::from_str("Invalid JSON: ");
            PolicyResponse {
                allowed: false,
                policy_version,
                error: Some(prefix.concat(msg.as_str())),
            }
        },
        None => match registry.runtime.evaluate_policy(body) {
            Ok(allowed) => PolicyResponse { allowed, policy_version, error: None },
            Err(e) => PolicyResponse {
                allowed: false,
                policy_version,
                error: Some(e.message()),
            },
        },
    }
}

} // verus!
