//! The runtime metrics document: resident memory against the footprint
//! target, and the parser for the process status text the reading comes
//! from.

use vstd::prelude::*;
use crate::pattern::{match_at, matches_at};

verus! {

/// ASCII whitespace, as token separators in the status text.
pub open spec fn is_ws(b: u8) -> bool {
    b == 32 || b == 9 || b == 10 || b == 11 || b == 12 || b == 13
}

/// An ASCII decimal digit.
pub open spec fn is_digit(b: u8) -> bool {
    48 <= b <= 57
}

/// The value of a run of ASCII digits read as a decimal number.
pub open spec fn digits_val(s: Seq<u8>) -> int
    decreases s.len(),
{
    if s.len() == 0 {
        0
    } else {
        digits_val(s.drop_last()) * 10 + (s.last() - 48)
    }
}

/// The bytes of `VmRSS:`.
pub open spec fn vmrss_needle() -> Seq<u8> {
    seq![86u8, 109u8, 82u8, 83u8, 83u8, 58u8]
}

/// Index `i` starts a line of the status text.
pub open spec fn line_start(s: Seq<u8>, i: int) -> bool {
    i == 0 || s[i - 1] == 10
}

/// A line beginning with `VmRSS:` starts at index `i`.
pub open spec fn vmrss_at(s: Seq<u8>, i: int) -> bool {
    line_start(s, i) && matches_at(s, vmrss_needle(), i)
}

/// The first index at or after `j` holding whitespace, or the length.
pub open spec fn first_ws(s: Seq<u8>, j: int) -> int
    decreases s.len() - j,
{
    if j < 0 || j >= s.len() || is_ws(s[j]) {
        j
    } else {
        first_ws(s, j + 1)
    }
}

/// The first index at or after `j` holding non-whitespace, or the length.
pub open spec fn first_non_ws(s: Seq<u8>, j: int) -> int
    decreases s.len() - j,
{
    if j < 0 || j >= s.len() || !is_ws(s[j]) {
        j
    } else {
        first_non_ws(s, j + 1)
    }
}

/// The resident-set reading of the `VmRSS:` line starting at `i`: its
/// second whitespace-separated token read as a decimal number, or 0 when
/// the token is missing, sits on a later line, or is not a plain run of at
/// most 19 digits.
pub open spec fn vmrss_line_value(s: Seq<u8>, i: int) -> int {
    let t0e = first_ws(s, i);
    let t1s = first_non_ws(s, t0e);
    let t1e = first_ws(s, t1s);
    if t1s < s.len() && (forall|k: int| t0e <= k < t1s ==> s[k] != 10) && (forall|k: int|
        t1s <= k < t1e ==> is_digit(s[k])) && t1e - t1s <= 19 {
        digits_val(s.subrange(t1s, t1e))
    } else {
        0
    }
}

/// Ten to the power `n`.
pub open spec fn pow10(n: nat) -> int
    decreases n,
{
    if n == 0 {
        1
    } else {
        10 * pow10((n - 1) as nat)
    }
}

proof fn lemma_pow10_pos(n: nat)
    ensures
        pow10(n) >= 1,
    decreases n,
{
    if n > 0 {
        lemma_pow10_pos((n - 1) as nat);
    }
}

proof fn lemma_pow10_mono(a: nat, b: nat)
    requires
        a <= b,
    ensures
        pow10(a) <= pow10(b),
    decreases b,
{
    if a < b {
        lemma_pow10_mono(a, (b - 1) as nat);
        lemma_pow10_pos((b - 1) as nat);
    }
}

proof fn lemma_pow10_19()
    ensures
        pow10(19) == 10_000_000_000_000_000_000,
{
    reveal_with_fuel(pow10, 21);
}

/// A run of digits of length `n` reads as a value below ten to the `n`.
proof fn lemma_digits_val_bound(s: Seq<u8>)
    requires
        forall|k: int| 0 <= k < s.len() ==> is_digit(#[trigger] s[k]),
    ensures
        0 <= digits_val(s) < pow10(s.len()),
    decreases s.len(),
{
    if s.len() > 0 {
        assert(forall|k: int|
            0 <= k < s.drop_last().len() ==> is_digit(#[trigger] s.drop_last()[k]));
        lemma_digits_val_bound(s.drop_last());
    }
}

/// Decides ASCII whitespace.
fn is_ws_byte(b: u8) -> (r: bool)
    ensures
        r == is_ws(b),
{
    b == 32 || b == 9 || b == 10 || b == 11 || b == 12 || b == 13
}

/// Scans forward to the first whitespace byte at or after `start`.
fn scan_first_ws(s: &[u8], start: usize) -> (r: usize)
    requires
        start <= s@.len(),
    ensures
        r == first_ws(s@, start as int),
        start <= r <= s@.len(),
{
    let mut j: usize = start;
    while j < s.len() && !is_ws_byte(s[j])
        invariant
            start <= j <= s@.len(),
            first_ws(s@, start as int) == first_ws(s@, j as int),
        decreases s@.len() - j,
    {
        assert(first_ws(s@, j as int) == first_ws(s@, j + 1));
        j += 1;
    }
    assert(first_ws(s@, j as int) == j);
    j
}

/// Scans forward to the first non-whitespace byte at or after `start`.
fn scan_first_non_ws(s: &[u8], start: usize) -> (r: usize)
    requires
        start <= s@.len(),
    ensures
        r == first_non_ws(s@, start as int),
        start <= r <= s@.len(),
{
    let mut j: usize = start;
    while j < s.len() && is_ws_byte(s[j])
        invariant
            start <= j <= s@.len(),
            first_non_ws(s@, start as int) == first_non_ws(s@, j as int),
        decreases s@.len() - j,
    {
        assert(first_non_ws(s@, j as int) == first_non_ws(s@, j + 1));
        j += 1;
    }
    assert(first_non_ws(s@, j as int) == j);
    j
}

/// Finds the start of the first `VmRSS:` line, if there is one.
fn find_vmrss(s: &[u8]) -> (r: Option<usize>)
    ensures
        match r {
            Some(i) => vmrss_at(s@, i as int) && forall|k: int| 0 <= k < i ==> !vmrss_at(s@, k),
            None => forall|k: int| !vmrss_at(s@, k),
        },
{
    let needle: Vec<u8> = vec![86u8, 109u8, 82u8, 83u8, 83u8, 58u8];
    proof {
        assert(needle@ =~= vmrss_needle());
    }
    if s.len() < 6 {
        assert(forall|k: int| !vmrss_at(s@, k));
        return None;
    }
    let last: usize = s.len() - 6;
    let mut i: usize = 0;
    while i <= last
        invariant
            needle@ == vmrss_needle(),
            s@.len() >= 6,
            last == s@.len() - 6,
            i <= last + 1,
            forall|k: int| 0 <= k < i ==> !vmrss_at(s@, k),
        decreases last + 1 - i,
    {
        let at_line_start = i == 0 || s[i - 1] == 10;
        if at_line_start {
            if match_at(s, needle.as_slice(), i) {
                return Some(i);
            }
        }
        assert(!vmrss_at(s@, i as int));
        i += 1;
    }
    assert(forall|k: int| vmrss_at(s@, k) ==> 0 <= k <= last);
    None
}

/// Reads the resident-set figure out of a process status text: the second
/// token of the first `VmRSS:` line, as the kernel's status format carries
/// `VmRSS:   <kb> kB`. Yields 0 when no such line, token or plain digit
/// run of at most 19 digits is there.
pub fn parse_vmrss_kb(status: &[u8]) -> (r: u64)
    ensures
        (forall|i: int| !vmrss_at(status@, i)) ==> r == 0,
        forall|i: int|
            (vmrss_at(status@, i) && (forall|k: int| 0 <= k < i ==> !vmrss_at(status@, k)))
                ==> r as int == vmrss_line_value(status@, i),
{
    let i = match find_vmrss(status) {
        None => {
            return 0;
        },
        Some(i) => i,
    };
    let t0e = scan_first_ws(status, i);
    let t1s = scan_first_non_ws(status, t0e);
    let t1e = scan_first_ws(status, t1s);
    if t1s >= status.len() {
        return 0;
    }
    let mut k: usize = t0e;
    while k < t1s
        invariant
            t0e <= k <= t1s <= status@.len(),
            t1s < status@.len(),
            t0e == first_ws(status@, i as int),
            t1s == first_non_ws(status@, t0e as int),
            vmrss_at(status@, i as int),
            forall|k2: int| 0 <= k2 < i ==> !vmrss_at(status@, k2),
            forall|m: int| t0e <= m < k ==> status@[m] != 10,
        decreases t1s - k,
    {
        if status[k] == 10 {
            proof {
                assert(status@[k as int] == 10);
                assert(vmrss_line_value(status@, i as int) == 0);
            }
            return 0;
        }
        k += 1;
    }
    if t1e - t1s > 19 {
        return 0;
    }
    let mut j: usize = t1s;
    let mut acc: u64 = 0;
    while j < t1e
        invariant
            t1s <= j <= t1e <= status@.len(),
            t1s < status@.len(),
            t1e - t1s <= 19,
            t0e == first_ws(status@, i as int),
            t1s == first_non_ws(status@, t0e as int),
            t1e == first_ws(status@, t1s as int),
            vmrss_at(status@, i as int),
            forall|k2: int| 0 <= k2 < i ==> !vmrss_at(status@, k2),
            forall|m: int| t0e <= m < t1s ==> status@[m] != 10,
            forall|m: int| t1s <= m < j ==> is_digit(#[trigger] status@[m]),
            acc as int == digits_val(status@.subrange(t1s as int, j as int)),
            (acc as int) < pow10((j - t1s) as nat),
        decreases t1e - j,
    {
        let b = status[j];
        if b < 48 || b > 57 {
            proof {
                assert(!is_digit(status@[j as int]));
                assert(vmrss_line_value(status@, i as int) == 0);
            }
            return 0;
        }
        proof {
            let sub1 = status@.subrange(t1s as int, j + 1);
            assert(sub1.drop_last() =~= status@.subrange(t1s as int, j as int));
            assert(sub1.last() == status@[j as int]);
            lemma_pow10_mono((j + 1 - t1s) as nat, 19);
            lemma_pow10_19();
        }
        acc = acc * 10 + ((b - 48) as u64);
        j += 1;
    }
    proof {
        if j == t1e {
            assert(forall|m: int| t1s <= m < t1e ==> is_digit(#[trigger] status@[m]));
        }
    }
    acc
}

/// Memory footprint target, in megabytes.
pub const TARGET_MB: u64 = 10;

/// The metrics document reported by the service.
pub struct MetricsReport {
    pub memory_kb: u64,
    pub target_mb: u64,
    pub within_target: bool,
}

/// Builds the metrics document for a resident-set reading: the target is
/// fixed, and the reading is within target exactly when it is below the
/// target expressed in kilobytes.
pub fn build_metrics(memory_kb: u64) -> (r: MetricsReport)
    ensures
        r.memory_kb == memory_kb,
        r.target_mb == TARGET_MB,
        r.within_target == (memory_kb < 10240),
{
    MetricsReport { memory_kb, target_mb: TARGET_MB, within_target: memory_kb < 10240 }
}

} // verus!
