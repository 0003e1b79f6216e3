//! Lowercase hexadecimal rendering and the tree identifier: the digest that
//! correlates a commit with its branch reference.

use vstd::prelude::*;

use crate::errors::SyncError;
use vstd::utf8::encode_utf8;

verus! {

/// The lowercase hexadecimal digit of a value below sixteen.
pub open spec fn spec_hex_digit(v: int) -> char {
    if v == 0 {
        '0'
    } else if v == 1 {
        '1'
    } else if v == 2 {
        '2'
    } else if v == 3 {
        '3'
    } else if v == 4 {
        '4'
    } else if v == 5 {
        '5'
    } else if v == 6 {
        '6'
    } else if v == 7 {
        '7'
    } else if v == 8 {
        '8'
    } else if v == 9 {
        '9'
    } else if v == 10 {
        'a'
    } else if v == 11 {
        'b'
    } else if v == 12 {
        'c'
    } else if v == 13 {
        'd'
    } else if v == 14 {
        'e'
    } else {
        'f'
    }
}

/// Lowercase hexadecimal rendering of a byte string: two digits per byte,
/// high half first.
pub open spec fn spec_hex_of(bytes: Seq<u8>) -> Seq<char> {
    Seq::new(
        bytes.len() * 2,
        |i: int|
            if i % 2 == 0 {
                spec_hex_digit(bytes[i / 2] as int / 16)
            } else {
                spec_hex_digit(bytes[i / 2] as int % 16)
            },
    )
}

/// The character is a lowercase hexadecimal digit.
pub open spec fn spec_is_hex_char(c: char) -> bool {
    ('0' <= c && c <= '9') || ('a' <= c && c <= 'f')
}

/// Every character of a hexadecimal rendering is a lowercase digit.
pub proof fn lemma_hex_of_chars(bytes: Seq<u8>)
    ensures
        forall|i: int|
            0 <= i < spec_hex_of(bytes).len() ==> spec_is_hex_char(#[trigger] spec_hex_of(bytes)[i]),
{
}

/// Lowercase hexadecimal rendering of a byte string.
pub fn to_hex(bytes: &[u8]) -> (r: String)
    ensures
        r@ == spec_hex_of(bytes@),
        r@.len() == 2 * bytes@.len(),
{
    let digits = "0123456789abcdef";
    proof {
        reveal_strlit("0123456789abcdef");
    }
    let n = bytes.len();
    let mut r = String::new();
    let mut i: usize = 0;
    while i < n
        invariant
            i <= n,
            n == bytes@.len(),
            digits@.len() == 16,
            forall|v: int| 0 <= v < 16 ==> digits@[v] == spec_hex_digit(v),
            r@ =~= spec_hex_of(bytes@.take(i as int)),
        decreases n - i,
    {
        let b = bytes[i];
        let hi = (b / 16) as usize;
        let lo = (b % 16) as usize;
        r.append(digits.substring_char(hi, hi + 1));
        r.append(digits.substring_char(lo, lo + 1));
        proof {
            let ghost before = bytes@.take(i as int);
            let ghost after = bytes@.take(i as int + 1);
            assert(r@ =~= spec_hex_of(before) + seq![
                spec_hex_digit(hi as int),
                spec_hex_digit(lo as int),
            ]);
            assert forall|j: int| 0 <= j < after.len() * 2 implies spec_hex_of(after)[j] == (
            spec_hex_of(before) + seq![
                spec_hex_digit(hi as int),
                spec_hex_digit(lo as int),
            ])[j] by {
                if j < 2 * i {
                    assert(after[j / 2] == before[j / 2]);
                } else {
                    assert(j / 2 == i && after[j / 2] == bytes@[i as int]);
                }
            }
            assert(r@ =~= spec_hex_of(after));
        }
        i += 1;
    }
    proof {
        assert(bytes@.take(n as int) =~= bytes@);
    }
    r
}

/// The digest of a byte string under the tracker's tree-hash function.
pub uninterp spec fn sha1_digest(data: Seq<u8>) -> Seq<u8>;

/// Relies on `openssl::hash::hash` with the SHA-1 message digest: the result
/// is a function of the input bytes alone and is twenty bytes long.
#[verifier::external_body]
fn sha1(data: &[u8]) -> (r: Option<Vec<u8>>)
    ensures
        match r {
            Some(d) => d@ == sha1_digest(data@) && d@.len() == 20,
            None => true,
        },
{
    match openssl::hash::hash(openssl::hash::MessageDigest::sha1(), data) {
        Ok(d) => Some(d.to_vec()),
        Err(_) => None,
    }
}

/// The tree identifier of a repository and branch pair: the hexadecimal
/// SHA-1 digest of `<repository_id>/<branch_id>`.
pub open spec fn spec_tree_id(repo_id: Seq<char>, branch_id: Seq<char>) -> Seq<char> {
    spec_hex_of(sha1_digest(encode_utf8(repo_id + "/"@ + branch_id)))
}

/// Computes the tree identifier; fails only when the digest provider does.
pub fn tree_id(repo_id: &str, branch_id: &str) -> (r: Result<String, SyncError>)
    ensures
        match r {
            Ok(s) => s@ == spec_tree_id(repo_id@, branch_id@) && s@.len() == 40,
            Err(e) => e == SyncError::Digest,
        },
{
    let joined = repo_id.to_owned().concat("/").concat(branch_id);
    proof {
        assert(joined@ == repo_id@ + "/"@ + branch_id@);
    }
    let data = joined.as_str().as_bytes_vec();
    match sha1(data.as_slice()) {
        Some(d) => Ok(to_hex(d.as_slice())),
        None => Err(SyncError::Digest),
    }
}

} // verus!
