//! Decisions of the hot-reload watcher: which change events concern the
//! policy artifact, and how long the quiet period lasts.

use vstd::prelude::*;

verus! {

/// Quiet period for debouncing artifact-change events, in milliseconds.
pub const DEBOUNCE_MILLIS: u64 = 500;

/// The bytes of the policy artifact extension `wasm`.
pub open spec fn wasm_extension() -> Seq<u8> {
    seq![119u8, 97u8, 115u8, 109u8]
}

/// Decides whether a file extension names a policy artifact: exactly the
/// extension `wasm` triggers a reload.
pub fn is_policy_extension(ext: &[u8]) -> (r: bool)
    ensures
        r == (ext@ == wasm_extension()),
{
    if ext.len() != 4 {
        assert(ext@ != wasm_extension());
        return false;
    }
    let r = ext[0] == 119 && ext[1] == 97 && ext[2] == 115 && ext[3] == 109;
    proof {
        if r {
            assert(ext@ =~= wasm_extension());
        } else {
            assert(ext@ != wasm_extension());
        }
    }
    r
}

} // verus!
