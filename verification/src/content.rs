//! Synthesis of the content identifier that stands in for a commit hash: the
//! revision reference padded to ten characters, followed by fifteen random
//! bytes rendered as lowercase hexadecimal.

use vstd::prelude::*;

use crate::digest::{lemma_hex_of_chars, spec_hex_of, spec_is_hex_char, to_hex};

verus! {

/// Relies on `rand::random`: one byte from the thread's generator; nothing
/// is assumed of its value.
#[verifier::external_body]
fn random_byte() -> u8 {
    rand::random()
}

/// The revision reference brought to exactly ten characters: right-padded
/// with spaces, or truncated when longer.
pub open spec fn spec_pad_rev(rev: Seq<char>) -> Seq<char> {
    if rev.len() >= 10 {
        rev.take(10)
    } else {
        rev + Seq::new((10 - rev.len()) as nat, |i: int| ' ')
    }
}

/// The content identifier made of a revision reference and noise bytes.
pub open spec fn spec_content_id(rev: Seq<char>, noise: Seq<u8>) -> Seq<char> {
    spec_pad_rev(rev) + spec_hex_of(noise)
}

/// Builds the content identifier from the revision reference and the given
/// noise bytes: forty characters, the padded reference first.
pub fn content_id_from(rev: &str, noise: &[u8]) -> (r: String)
    requires
        noise@.len() == 15,
    ensures
        r@ == spec_content_id(rev@, noise@),
        r@.len() == 40,
{
    let n = rev.unicode_len();
    let mut head = if n >= 10 {
        rev.substring_char(0, 10).to_owned()
    } else {
        rev.to_owned()
    };
    let mut pad: usize = 0;
    let needed: usize = if n >= 10 {
        0
    } else {
        10 - n
    };
    while pad < needed
        invariant
            pad <= needed,
            needed == if n >= 10 {
                0int
            } else {
                10 - n
            },
            n == rev@.len(),
            head@ =~= (if n >= 10 {
                rev@.take(10)
            } else {
                rev@
            }) + Seq::new(pad as nat, |i: int| ' '),
        decreases needed - pad,
    {
        head.append(" ");
        pad += 1;
        proof {
            reveal_strlit(" ");
            assert(head@ =~= (if n >= 10 {
                rev@.take(10)
            } else {
                rev@
            }) + Seq::new(pad as nat, |i: int| ' '));
        }
    }
    proof {
        assert(head@ =~= spec_pad_rev(rev@));
    }
    let tail = to_hex(noise);
    let r = head.concat(tail.as_str());
    proof {
        assert(r@ =~= spec_content_id(rev@, noise@));
    }
    r
}

/// Synthesizes a fresh content identifier for a revision: the padded
/// reference followed by thirty hexadecimal digits of noise. Only the noise
/// varies between calls; the shape and the reference prefix do not.
pub fn fresh_content_id(rev: &str) -> (r: String)
    ensures
        r@.len() == 40,
        r@.subrange(0, 10) == spec_pad_rev(rev@),
        forall|i: int| 10 <= i < 40 ==> spec_is_hex_char(#[trigger] r@[i]),
{
    let mut noise: Vec<u8> = Vec::new();
    let mut k: usize = 0;
    while k < 15
        invariant
            noise@.len() == k,
            k <= 15,
        decreases 15 - k,
    {
        noise.push(random_byte());
        k += 1;
    }
    let r = content_id_from(rev, noise.as_slice());
    proof {
        lemma_hex_of_chars(noise@);
        assert(r@.subrange(0, 10) =~= spec_pad_rev(rev@));
        assert forall|i: int| 10 <= i < 40 implies spec_is_hex_char(r@[i]) by {
            assert(r@[i] == spec_hex_of(noise@)[i - 10]);
        }
    }
    r
}

} // verus!
