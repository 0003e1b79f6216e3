//! Handling of repository subprocess output: decoding its legacy text
//! encoding, stripping the trailing line terminator, and shaping the
//! diagnostic message of a failed subcommand.

use vstd::prelude::*;

use crate::changes::{lemma_trim_start_at, spec_trim_start};
use crate::errors::ExtractError;
use crate::text::{is_space, spec_is_space};

use encoding::{all::GBK, DecoderTrap, Encoding};

verus! {

/// The text denoted by a byte string under the legacy encoding, with every
/// invalid sequence replaced.
pub uninterp spec fn gbk_decoded(bytes: Seq<u8>) -> Seq<char>;

/// Relies on `Encoding::decode` of the `GBK` encoding with the replacing
/// trap: the result is a function of the input bytes alone, and with that
/// trap no input is rejected.
#[verifier::external_body]
fn decode_legacy(bytes: &[u8]) -> (r: String)
    ensures
        r@ == gbk_decoded(bytes@),
{
    GBK.decode(bytes, DecoderTrap::Replace).unwrap_or_default()
}

/// Trailing whitespace removed.
pub open spec fn spec_trim_end(s: Seq<char>) -> Seq<char>
    decreases s.len(),
{
    if s.len() > 0 && spec_is_space(s[s.len() - 1]) {
        spec_trim_end(s.drop_last())
    } else {
        s
    }
}

pub proof fn lemma_trim_end_at(s: Seq<char>, m: int)
    requires
        0 <= m <= s.len(),
        forall|j: int| m <= j < s.len() ==> spec_is_space(s[j]),
        m == 0 || !spec_is_space(s[m - 1]),
    ensures
        spec_trim_end(s) =~= s.subrange(0, m),
    decreases s.len(),
{
    if s.len() > m {
        lemma_trim_end_at(s.drop_last(), m);
    } else {
        assert(s.subrange(0, m) =~= s);
    }
}

/// Leading and trailing whitespace removed.
pub open spec fn spec_trim(s: Seq<char>) -> Seq<char> {
    spec_trim_end(spec_trim_start(s))
}

/// One trailing line terminator removed: a final line feed is dropped, then
/// a carriage return that precedes it.
pub open spec fn spec_strip_eol(s: Seq<char>) -> Seq<char> {
    let s1 = if s.len() > 0 && s[s.len() - 1] == '\n' {
        s.drop_last()
    } else {
        s
    };
    if s1.len() > 0 && s1[s1.len() - 1] == '\r' {
        s1.drop_last()
    } else {
        s1
    }
}

/// The diagnostic text of a failed subcommand: its output trimmed, or the
/// `(EMPTY)` marker when nothing but whitespace was written.
pub open spec fn spec_error_detail(t: Seq<char>) -> Seq<char> {
    if spec_trim(t).len() == 0 {
        "(EMPTY)"@
    } else {
        spec_trim(t)
    }
}

/// The decoded text a subcommand run stands for. On success: the decoded
/// standard output with one trailing line terminator stripped. On failure:
/// an extraction error naming the failing command (with its arguments, as
/// given) and carrying the decoded diagnostic, taken from standard error
/// when it is non-empty, else from standard output, with the `(EMPTY)`
/// marker in place of an all-whitespace diagnostic.
pub fn subprocess_text(command: &str, success: bool, stdout: &[u8], stderr: &[u8]) -> (r: Result<
    String,
    ExtractError,
>)
    ensures
        match r {
            Ok(text) => success && text@ == spec_strip_eol(gbk_decoded(stdout@)),
            Err(e) => !success && (e matches ExtractError::Command { command: c, detail }
                && c@ == command@ && detail@ == spec_error_detail_of(stdout@, stderr@)),
        },
{
    if success {
        let decoded = decode_legacy(stdout);
        Ok(strip_eol(decoded))
    } else {
        let decoded = if stderr.len() > 0 {
            decode_legacy(stderr)
        } else {
            decode_legacy(stdout)
        };
        let detail = error_detail(&decoded);
        Err(ExtractError::Command { command: command.to_owned(), detail })
    }
}

/// The diagnostic text chosen for a failed run: standard error when
/// non-empty, else standard output, shaped by `spec_error_detail`.
pub open spec fn spec_error_detail_of(stdout: Seq<u8>, stderr: Seq<u8>) -> Seq<char> {
    if stderr.len() > 0 {
        spec_error_detail(gbk_decoded(stderr))
    } else {
        spec_error_detail(gbk_decoded(stdout))
    }
}

/// Removes one trailing line terminator.
fn strip_eol(s: String) -> (r: String)
    ensures
        r@ == spec_strip_eol(s@),
{
    let n = s.as_str().unicode_len();
    let mut end = n;
    if end > 0 && s.as_str().get_char(end - 1) == '\n' {
        end = end - 1;
    }
    if end > 0 && s.as_str().get_char(end - 1) == '\r' {
        end = end - 1;
    }
    let r = s.as_str().substring_char(0, end).to_owned();
    proof {
        assert(r@ =~= spec_strip_eol(s@));
    }
    r
}

/// Trims the diagnostic and substitutes the `(EMPTY)` marker.
fn error_detail(s: &String) -> (r: String)
    ensures
        r@ == spec_error_detail(s@),
{
    let n = s.as_str().unicode_len();
    let mut b: usize = 0;
    while b < n && is_space(s.as_str().get_char(b))
        invariant
            0 <= b <= n,
            n == s@.len(),
            forall|j: int| 0 <= j < b ==> spec_is_space(s@[j]),
        decreases n - b,
    {
        b += 1;
    }
    proof {
        lemma_trim_start_at(s@, b as int);
    }
    if b == n {
        // all whitespace
        proof {
            assert(spec_trim_start(s@) =~= s@.subrange(n as int, n as int));
            assert(spec_trim(s@).len() == 0);
        }
        return String::from_str("(EMPTY)");
    }
    let mut e: usize = n;
    while e > b && is_space(s.as_str().get_char(e - 1))
        invariant
            b < e <= n,
            b < n,
            n == s@.len(),
            !spec_is_space(s@[b as int]),
            forall|j: int| e <= j < n ==> spec_is_space(s@[j]),
        decreases e,
    {
        e -= 1;
    }
    proof {
        let t = spec_trim_start(s@);
        lemma_trim_start_at(s@, b as int);
        assert(t =~= s@.subrange(b as int, n as int));
        assert forall|j: int| e - b <= j < t.len() implies spec_is_space(t[j]) by {
            assert(t[j] == s@[j + b]);
        }
        assert(!spec_is_space(s@[e as int - 1]));
        assert(t[e as int - 1 - b as int] == s@[e as int - 1]);
        lemma_trim_end_at(t, e as int - b as int);
        assert(spec_trim(s@) =~= s@.subrange(b as int, e as int));
        assert(spec_trim(s@).len() > 0);
    }
    let r = s.as_str().substring_char(b, e).to_owned();
    proof {
        assert(r@ =~= spec_trim(s@));
    }
    r
}

} // verus!
