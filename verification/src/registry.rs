//! Active-module registry: the `(runtime, version)` pair that evaluations
//! snapshot and that reloads replace as a whole, failing closed.

use vstd::prelude::*;
use crate::error::{ConnectorError, ConnectorResult};
use crate::policy_runtime::PolicyRuntime;
use crate::version::{make_policy_version, version_tag};

verus! {

/// The current engine-and-module pair together with the version tag that
/// labels it. Replaced as a whole; never mutated in place.
#[derive(Clone)]
pub struct Registry {
    pub runtime: PolicyRuntime,
    pub version: String,
}

impl Registry {
    /// The version string is a well-formed version tag.
    pub open spec fn wf(self) -> bool {
        exists|len: nat, ts: nat| self.version@ == version_tag(len, ts)
    }

    /// Compiles the artifact and stamps a fresh version tag; the initial
    /// load at boot and every accepted reload go through here.
    pub fn from_artifact(artifact: &[u8]) -> (r: ConnectorResult<Registry>)
        ensures
            r matches Ok(reg) ==> reg.wf() && exists|ts: nat|
                reg.version@ == version_tag(artifact@.len(), ts),
            r matches Err(e) ==> e is WasmLoadError,
    {
        let runtime = match PolicyRuntime::new(artifact) {
            Ok(rt) => rt,
            Err(e) => {
                return Err(e);
            },
        };
        let version = make_policy_version(artifact.len());
        Ok(Registry { runtime, version })
    }

    /// Compiles a new artifact and publishes it with a fresh version tag.
    /// Fails closed: on a compile failure the registry is left exactly as
    /// it was, and the previous module keeps serving.
    pub fn reload_from_bytes(&mut self, artifact: &[u8]) -> (r: ConnectorResult<usize>)
        ensures
            r matches Err(e) ==> *final(self) == *old(self) && e is WasmLoadError,
            r matches Ok(n) ==> n == artifact@.len() && final(self).wf() && exists|ts: nat|
                final(self).version@ == version_tag(artifact@.len(), ts),
    {
        match Registry::from_artifact(artifact) {
            Ok(next) => {
                self.runtime = next.runtime;
                self.version = next.version;
                Ok(artifact.len())
            },
            Err(e) => Err(e),
        }
    }
}

/// The structured document a manual reload returns to the caller.
pub struct ReloadOutcome {
    pub success: bool,
    pub message: Option<String>,
    pub size_bytes: Option<u64>,
    pub policy_version: Option<String>,
    pub error: Option<String>,
}

impl Registry {
    /// The manual-reload path: takes the result of reading the artifact
    /// file, compiles and publishes on success, and reports a structured
    /// outcome. A read failure or compile failure leaves the registry
    /// unchanged.
    pub fn manual_reload(&mut self, read_result: Result<Vec<u8>, String>) -> (r: ReloadOutcome)
        ensures
            !r.success ==> *final(self) == *old(self) && r.error is Some && r.policy_version
                is None,
            r.success ==> final(self).wf() && r.error is None,
            read_result matches Err(m) ==> !r.success && (r.error matches Some(t) && t@
                == "Failed to read policy file: "@ + m@),
            read_result matches Ok(bytes) ==> (r.success ==> {
                &&& r.size_bytes == Some(bytes@.len() as u64)
                &&& (r.policy_version matches Some(v) && v@ == final(self).version@)
                &&& (r.message matches Some(t) && t@ == "Policy reloaded successfully"@)
                &&& exists|ts: nat| final(self).version@ == version_tag(bytes@.len(), ts)
            }),
            read_result matches Ok(bytes) ==> (!r.success ==> (r.error matches Some(t) && exists|
                rest: Seq<char>,
            | t@ == "Failed to compile policy: "@ + rest)),
    {
        match read_result {
            Err(m) => {
                let prefix = String::from_str("Failed to read policy file: ");
                ReloadOutcome {
                    success: false,
                    message: None,
                    size_bytes: None,
                    policy_version: None,
                    error: Some(prefix.concat(m.as_str())),
                }
            },
            Ok(bytes) => {
                match self.reload_from_bytes(bytes.as_slice()) {
                    Ok(n) => ReloadOutcome {
                        success: true,
                        message: Some(String::from_str("Policy reloaded successfully")),
                        size_bytes: Some(n as u64),
                        policy_version: Some(self.version.clone()),
                        error: None,
                    },
                    Err(e) => {
                        let prefix = String::from_str("Failed to compile policy: ");
                        let detail = e.message();
                        ReloadOutcome {
                            success: false,
                            message: None,
                            size_bytes: None,
                            policy_version: None,
                            error: Some(prefix.concat(detail.as_str())),
                        }
                    },
                }
            },
        }
    }
}

} // verus!
