//! Test-harness helpers: DNS-safe random identifiers, timestamp-derived
//! execution identifiers, the test runner, and the local docker builder.

use rand::Rng;
use vstd::prelude::*;
use vstd::string::StringSliceAdditionalSpecFns;

use crate::model::Context;

verus! {

broadcast use vstd::string::is_ascii_spec_bytes;

/// An ASCII upper-case letter.
pub open spec fn is_upper_alpha(c: char) -> bool {
    'A' <= c <= 'Z'
}

/// An ASCII lower-case letter.
pub open spec fn is_lower_alpha(c: char) -> bool {
    'a' <= c <= 'z'
}

/// An ASCII digit.
pub open spec fn is_digit_char(c: char) -> bool {
    '0' <= c <= '9'
}

/// An ASCII letter or digit.
pub open spec fn is_alnum_char(c: char) -> bool {
    is_upper_alpha(c) || is_lower_alpha(c) || is_digit_char(c)
}

/// An ASCII lower-case letter or digit.
pub open spec fn is_lower_alnum_char(c: char) -> bool {
    is_lower_alpha(c) || is_digit_char(c)
}

/// An upper-case ASCII letter folded to lower case; all else unchanged.
pub open spec fn spec_to_lower(c: char) -> char {
    if is_upper_alpha(c) {
        ((c as u8) + 32) as char
    } else {
        c
    }
}

/// The character-wise lower-casing of an ASCII sequence.
pub open spec fn spec_lowered(s: Seq<char>) -> Seq<char> {
    Seq::new(s.len(), |i: int| spec_to_lower(s[i]))
}

/// Relies on `String::from_utf8`: every byte below 0x80 is the one-byte
/// UTF-8 encoding of exactly the character with that value, so an all-ASCII
/// byte vector decodes to the character sequence with the same values.
#[verifier::external_body]
fn string_from_ascii(bytes: Vec<u8>) -> (r: String)
    requires
        forall|i: int| 0 <= i < bytes@.len() ==> bytes@[i] < 128,
    ensures
        r@.len() == bytes@.len(),
        forall|i: int| 0 <= i < r@.len() ==> r@[i] == (#[trigger] bytes@[i]) as char,
        r.is_ascii(),
{
    match String::from_utf8(bytes) {
        Ok(s) => s,
        Err(_) => String::new(),
    }
}

/// Relies on rand's `thread_rng` and the `Alphanumeric` distribution: every
/// sampled character is drawn from a-z, A-Z and 0-9, and `take(15).collect()`
/// yields exactly fifteen of them. Nothing is assumed about which ones.
#[verifier::external_body]
fn random_alphanumeric_chunk() -> (r: String)
    ensures
        r@.len() == 15,
        forall|i: int| 0 <= i < r@.len() ==> is_alnum_char(#[trigger] r@[i]),
        r.is_ascii(),
{
    rand::thread_rng().sample_iter(rand::distributions::Alphanumeric).take(15).collect()
}

/// Relies on chrono's `Utc::now().to_rfc3339()`: an RFC 3339 timestamp is a
/// non-empty, all-ASCII rendering of the current time. Nothing is assumed
/// about which time comes back.
#[verifier::external_body]
fn utc_now_rfc3339() -> (r: String)
    ensures
        r@.len() > 0,
        r.is_ascii(),
{
    chrono::Utc::now().to_rfc3339()
}

/// Fold an all-ASCII string to lower case, character by character.
fn ascii_lowercase(s: &str) -> (r: String)
    requires
        s.is_ascii(),
    ensures
        r@ == spec_lowered(s@),
        r.is_ascii(),
{
    let bytes = s.as_bytes_vec();
    let mut out: Vec<u8> = Vec::new();
    let mut i: usize = 0;
    proof {
        assert(bytes@.len() == s@.len());
    }
    while i < bytes.len()
        invariant
            s.is_ascii(),
            bytes@ == s.spec_bytes(),
            bytes@.len() == s@.len(),
            i <= bytes@.len(),
            out@.len() == i,
            forall|j: int| 0 <= j < i ==> #[trigger] out@[j] < 128,
            forall|j: int| 0 <= j < i ==> (#[trigger] out@[j]) as char == spec_to_lower(s@[j]),
        decreases bytes@.len() - i,
    {
        let b = bytes[i];
        proof {
            assert(b == s@[i as int] as u8);
            assert('\0' <= s@[i as int] <= '\u{7f}');
        }
        // bytes 65 through 90 are 'A' through 'Z'; adding 32 reaches 'a'
        let nb: u8 = if b >= 65 && b <= 90 {
            b + 32
        } else {
            b
        };
        out.push(nb);
        i = i + 1;
    }
    let ghost gout = out@;
    let r = string_from_ascii(out);
    proof {
        assert forall|j: int| 0 <= j < s@.len() implies r@[j] == spec_lowered(s@)[j] by {
            assert(gout[j] < 128);
            assert(gout[j] as char == spec_to_lower(s@[j]));
        }
        assert(r@ =~= spec_lowered(s@));
    }
    r
}

/// Generate a random fifteen-character identifier that satisfies DNS naming:
/// all lower-case letters and digits, starting with a letter. Sampling is
/// repeated while the first character comes out as a digit; after a bounded
/// number of rejections the first character is forced to a letter, keeping
/// the identifier well-formed in every case.
pub fn generate_id() -> (r: String)
    ensures
        r@.len() == 15,
        forall|i: int| 0 <= i < r@.len() ==> is_lower_alnum_char(#[trigger] r@[i]),
        is_lower_alpha(r@[0]),
{
    let mut tries: usize = 0;
    while tries < 64
        invariant
            tries <= 64,
        decreases 64 - tries,
    {
        let chunk = random_alphanumeric_chunk();
        let b0 = chunk.as_str().get_ascii(0);
        proof {
            assert(b0 == chunk@[0] as u8);
        }
        // alphabetic first byte: 'a' through 'z' or 'A' through 'Z'
        if (b0 >= 97 && b0 <= 122) || (b0 >= 65 && b0 <= 90) {
            let lowered = ascii_lowercase(chunk.as_str());
            proof {
                lemma_lowered_of_alnum(chunk@);
                assert(is_lower_alpha(lowered@[0]));
            }
            return lowered;
        }
        tries = tries + 1;
    }
    // Every sample began with a digit, which has probability well under one
    // in a nonillion: force a letter rather than loop without bound.
    let chunk = random_alphanumeric_chunk();
    let lowered = ascii_lowercase(chunk.as_str());
    proof {
        lemma_lowered_of_alnum(chunk@);
    }
    let tail = lowered.as_str().substring_ascii(1, 15);
    let mut forced = String::from_str("a");
    forced.append(tail);
    proof {
        reveal_strlit("a");
        assert(forced@.len() == 15);
        assert(forced@[0] == 'a');
        assert forall|i: int| 0 <= i < forced@.len() implies is_lower_alnum_char(
            #[trigger] forced@[i],
        ) by {
            if i >= 1 {
                assert(forced@[i] == lowered@[i]);
            }
        }
    }
    forced
}

proof fn lemma_lowered_of_alnum(s: Seq<char>)
    requires
        forall|i: int| 0 <= i < s.len() ==> is_alnum_char(#[trigger] s[i]),
    ensures
        forall|i: int| 0 <= i < s.len() ==> is_lower_alnum_char(#[trigger] spec_lowered(s)[i]),
        spec_lowered(s).len() == s.len(),
{
    assert(forall|i: int|
        0 <= i < s.len() ==> is_lower_alnum_char(spec_to_lower(#[trigger] s[i])));
}

/// A character a timestamp-derived identifier may not contain is replaced by
/// a dash; all else is kept.
pub open spec fn spec_sanitize_char(c: char) -> char {
    if c == ':' || c == '.' || c == '+' {
        '-'
    } else {
        c
    }
}

/// The character-wise sanitization of a timestamp.
pub open spec fn spec_sanitized(s: Seq<char>) -> Seq<char> {
    Seq::new(s.len(), |i: int| spec_sanitize_char(s[i]))
}

/// Replace every colon, dot and plus of an all-ASCII timestamp by a dash.
fn sanitize_timestamp(s: &str) -> (r: String)
    requires
        s.is_ascii(),
    ensures
        r@ == spec_sanitized(s@),
{
    let bytes = s.as_bytes_vec();
    let mut out: Vec<u8> = Vec::new();
    let mut i: usize = 0;
    while i < bytes.len()
        invariant
            s.is_ascii(),
            bytes@ == s.spec_bytes(),
            bytes@.len() == s@.len(),
            i <= bytes@.len(),
            out@.len() == i,
            forall|j: int| 0 <= j < i ==> #[trigger] out@[j] < 128,
            forall|j: int| 0 <= j < i ==> (#[trigger] out@[j]) as char == spec_sanitize_char(s@[j]),
        decreases bytes@.len() - i,
    {
        let b = bytes[i];
        proof {
            assert(b == s@[i as int] as u8);
            assert('\0' <= s@[i as int] <= '\u{7f}');
        }
        // bytes 58, 46 and 43 are ':', '.' and '+'; byte 45 is '-'
        let nb: u8 = if b == 58 || b == 46 || b == 43 {
            45
        } else {
            b
        };
        out.push(nb);
        i = i + 1;
    }
    let ghost gout = out@;
    let r = string_from_ascii(out);
    proof {
        assert forall|j: int| 0 <= j < s@.len() implies r@[j] == spec_sanitized(s@)[j] by {
            assert(gout[j] < 128);
            assert(gout[j] as char == spec_sanitize_char(s@[j]));
        }
        assert(r@ =~= spec_sanitized(s@));
    }
    r
}

/// A fresh execution identifier: the current UTC time in RFC 3339 form with
/// every colon, dot and plus replaced by a dash, so it can serve as a path
/// segment. Non-empty and free of the replaced characters.
pub fn execution_id() -> (r: String)
    ensures
        r@.len() > 0,
        forall|i: int|
            0 <= i < r@.len() ==> #[trigger] r@[i] != ':' && r@[i] != '.' && r@[i] != '+',
{
    let now = utc_now_rfc3339();
    let r = sanitize_timestamp(now.as_str());
    proof {
        assert(forall|i: int|
            0 <= i < r@.len() ==> #[trigger] r@[i] != ':' && r@[i] != '.' && r@[i] != '+') by {
            assert(forall|i: int|
                0 <= i < now@.len() ==> spec_sanitize_char(#[trigger] now@[i]) != ':'
                    && spec_sanitize_char(now@[i]) != '.' && spec_sanitize_char(now@[i]) != '+');
        }
    }
    r
}

/// Run one test body and hand back the name it reports; the caller wraps the
/// run with its own timing and logging.
pub fn engine_run_test<T>(test: T) -> (r: String) where T: FnOnce() -> String
    requires
        call_requires(test, ()),
    ensures
        call_ensures(test, (), r),
{
    test()
}

/// A build platform backed by the local docker daemon.
pub struct LocalDocker {
    pub context: Context,
    pub id: String,
    pub name: String,
}

impl LocalDocker {
    pub fn new(context: Context, id: &str, name: &str) -> (r: LocalDocker)
        ensures
            r.context == context,
            r.id@ == id@,
            r.name@ == name@,
    {
        LocalDocker { context, id: String::from_str(id), name: String::from_str(name) }
    }
}

/// The fixed local-docker build platform every functional test builds on.
pub fn build_platform_local_docker(context: &Context) -> (r: LocalDocker)
    ensures
        r.context == *context,
        r.id@ == "oxqlm3r99vwcmvuj"@,
        r.name@ == "qovery-local-docker"@,
{
    LocalDocker::new(context.clone(), "oxqlm3r99vwcmvuj", "qovery-local-docker")
}

} // verus!
