//! Version stamper: produces the opaque tag identifying the loaded artifact,
//! `"<service-version>-<artifact-length>b-<unix-seconds>"`.

use vstd::prelude::*;

verus! {

/// The decimal digit character for `d` (`0 <= d <= 9`).
pub open spec fn digit_char(d: int) -> char {
    if d == 0 {
        '0'
    } else if d == 1 {
        '1'
    } else if d == 2 {
        '2'
    } else if d == 3 {
        '3'
    } else if d == 4 {
        '4'
    } else if d == 5 {
        '5'
    } else if d == 6 {
        '6'
    } else if d == 7 {
        '7'
    } else if d == 8 {
        '8'
    } else {
        '9'
    }
}

/// The decimal representation of `n`, most significant digit first.
pub open spec fn dec_digits(n: nat) -> Seq<char>
    decreases n,
{
    if n < 10 {
        seq![digit_char(n as int)]
    } else {
        dec_digits(n / 10).push(digit_char((n % 10) as int))
    }
}

/// The version of the service itself, the leading component of every tag.
pub open spec fn service_version() -> Seq<char> {
    "0.1.0"@
}

/// The full version tag for an artifact of `len` bytes loaded at `ts`
/// seconds past the Unix epoch.
pub open spec fn version_tag(len: nat, ts: nat) -> Seq<char> {
    service_version() + "-"@ + dec_digits(len) + "b-"@ + dec_digits(ts)
}

/// A non-empty sequence of decimal digit characters.
pub open spec fn is_digit_seq(s: Seq<char>) -> bool {
    s.len() > 0 && forall|i: int| 0 <= i < s.len() ==> '0' <= #[trigger] s[i] <= '9'
}

/// Every decimal representation is a non-empty run of digit characters.
pub proof fn lemma_dec_digits_are_digits(n: nat)
    ensures
        is_digit_seq(dec_digits(n)),
    decreases n,
{
    if n >= 10 {
        lemma_dec_digits_are_digits(n / 10);
    }
}

/// The tag always has the shape `<semver>-<digits>b-<digits>`: the service
/// version, a dash, a non-empty digit run, `b-`, and a non-empty digit run.
pub proof fn lemma_version_tag_shape(len: nat, ts: nat)
    ensures
        version_tag(len, ts) == service_version() + "-"@ + dec_digits(len) + "b-"@ + dec_digits(
            ts,
        ),
        is_digit_seq(dec_digits(len)),
        is_digit_seq(dec_digits(ts)),
{
    lemma_dec_digits_are_digits(len);
    lemma_dec_digits_are_digits(ts);
}

/// The string slice `"0".."9"` for a single digit.
fn digit_str(d: u64) -> (s: &'static str)
    requires
        d < 10,
    ensures
        s@ == seq![digit_char(d as int)],
{
    proof {
        reveal_strlit("0");
        reveal_strlit("1");
        reveal_strlit("2");
        reveal_strlit("3");
        reveal_strlit("4");
        reveal_strlit("5");
        reveal_strlit("6");
        reveal_strlit("7");
        reveal_strlit("8");
        reveal_strlit("9");
    }
    let s = match d {
        0 => "0",
        1 => "1",
        2 => "2",
        3 => "3",
        4 => "4",
        5 => "5",
        6 => "6",
        7 => "7",
        8 => "8",
        _ => "9",
    };
    proof {
        assert(s@ =~= seq![digit_char(d as int)]);
    }
    s
}

/// Formats `n` in decimal.
pub fn u64_to_string(n: u64) -> (s: String)
    ensures
        s@ == dec_digits(n as nat),
    decreases n,
{
    if n < 10 {
        String::from_str(digit_str(n))
    } else {
        let mut s = u64_to_string(n / 10);
        s.append(digit_str(n % 10));
        s
    }
}

/// Deterministic formatter for the version tag: a pure function of the
/// artifact byte length and a clock reading.
pub fn format_policy_version(bytes_len: usize, unix_secs: u64) -> (s: String)
    ensures
        s@ == version_tag(bytes_len as nat, unix_secs as nat),
{
    let mut s = String::from_str("0.1.0");
    s.append("-");
    let len_digits = u64_to_string(bytes_len as u64);
    s.append(len_digits.as_str());
    s.append("b-");
    let ts_digits = u64_to_string(unix_secs);
    s.append(ts_digits.as_str());
    s
}

/// Clock reading for the version stamper.
///
/// Relies on std::time::SystemTime::now, SystemTime::duration_since and
/// Duration::as_secs: the seconds elapsed since the Unix epoch, or zero if
/// the clock reads earlier than the epoch. Nothing is promised of the
/// value.
#[verifier::external_body]
fn now_unix_secs() -> u64 {
    match std::time::SystemTime::now().duration_since(std::time::UNIX_EPOCH) {
        Ok(d) => d.as_secs(),
        Err(_) => 0,
    }
}

/// Stamps a version tag for an artifact of `bytes_len` bytes using the
/// current clock reading.
pub fn make_policy_version(bytes_len: usize) -> (s: String)
    ensures
        exists|ts: nat| s@ == version_tag(bytes_len as nat, ts),
{
    let ts = now_unix_secs();
    let s = format_policy_version(bytes_len, ts);
    proof {
        assert(s@ == version_tag(bytes_len as nat, ts as nat));
    }
    s
}

} // verus!
