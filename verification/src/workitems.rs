//! Extraction of referenced work-item identifiers from a commit message.

use vstd::prelude::*;

use crate::text::{
    digit_run_end, lemma_digit_run_end, lemma_word_run_end, spec_digit_run_end, spec_word_run_end,
    word_run_end,
};

verus! {

/// The work-item token starting at position `i`, when `s[i]` opens one: a
/// `#`, a non-empty word run, a dash, and a non-empty digit run. The token's
/// text (without the leading `#`) is returned with the position just past it.
pub open spec fn spec_work_item_at(s: Seq<char>, i: int) -> Option<(Seq<char>, int)> {
    if 0 <= i && i < s.len() && s[i] == '#' {
        let w = spec_word_run_end(s, i + 1);
        if w > i + 1 && w < s.len() && s[w] == '-' {
            let d = spec_digit_run_end(s, w + 1);
            if d > w + 1 {
                Some((s.subrange(i + 1, d), d))
            } else {
                None
            }
        } else {
            None
        }
    } else {
        None
    }
}

/// All work-item identifiers found scanning `s` from position `i`, in scan
/// order, duplicates preserved; tokens do not overlap.
pub open spec fn spec_work_items_from(s: Seq<char>, i: int) -> Seq<Seq<char>>
    decreases s.len() - i,
    via spec_work_items_from_decreases
{
    if i < 0 || i >= s.len() {
        Seq::empty()
    } else {
        match spec_work_item_at(s, i) {
            Some((name, j)) => seq![name] + spec_work_items_from(s, j),
            None => spec_work_items_from(s, i + 1),
        }
    }
}

#[via_fn]
proof fn spec_work_items_from_decreases(s: Seq<char>, i: int) {
    if 0 <= i && i < s.len() && s[i] == '#' {
        lemma_word_run_end(s, i + 1);
        let w = spec_word_run_end(s, i + 1);
        if w > i + 1 && w < s.len() && s[w] == '-' {
            lemma_digit_run_end(s, w + 1);
        }
    }
}

/// The work-item identifiers referenced by a commit message.
pub open spec fn spec_work_items(s: Seq<char>) -> Seq<Seq<char>> {
    spec_work_items_from(s, 0)
}

/// Scans a commit message for work-item references of the shape
/// `#<identifier>-<digits>` (identifier: a run of ASCII letters, digits and
/// underscores; identifiers in other scripts are not recognized) and returns
/// each reference without its leading `#`, in scan order, duplicates
/// preserved.
pub fn identifiers_from_message(message: &str) -> (r: Vec<String>)
    ensures
        r.deep_view() == spec_work_items(message@),
{
    let n = message.unicode_len();
    let mut items: Vec<String> = Vec::new();
    let mut i: usize = 0;
    while i < n
        invariant
            0 <= i <= n,
            n == message@.len(),
            spec_work_items(message@) =~= items.deep_view() + spec_work_items_from(
                message@,
                i as int,
            ),
        decreases n - i,
    {
        let mut advanced = false;
        if message.get_char(i) == '#' {
            let w = word_run_end(message, i + 1);
            proof {
                lemma_word_run_end(message@, i + 1);
            }
            if w > i + 1 && w < n && message.get_char(w) == '-' {
                let d = digit_run_end(message, w + 1);
                proof {
                    lemma_digit_run_end(message@, w + 1);
                }
                if d > w + 1 {
                    let name = message.substring_char(i + 1, d).to_owned();
                    proof {
                        let ghost olditems = items.deep_view();
                        assert(spec_work_item_at(message@, i as int) == Some(
                            (name@, d as int),
                        ));
                        assert(olditems + (seq![name@] + spec_work_items_from(message@, d as int))
                            =~= olditems.push(name@) + spec_work_items_from(message@, d as int));
                    }
                    items.push(name);
                    proof {
                        assert(items.deep_view() =~= items.deep_view().subrange(
                            0,
                            items.deep_view().len() - 1,
                        ).push(items.deep_view().last()));
                    }
                    i = d;
                    advanced = true;
                }
            }
        }
        if !advanced {
            proof {
                assert(spec_work_item_at(message@, i as int) is None);
            }
            i += 1;
        }
    }
    items
}

} // verus!
