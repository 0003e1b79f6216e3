//! Classification of a change-list text into added, removed and modified
//! paths, and detection of a branch name from the changed paths.

use vstd::prelude::*;

use crate::text::{
    is_space, lemma_word_run_end, spec_is_space, spec_word_run_end, word_run_end,
};

verus! {

// ---------------------------------------------------------------------------
// Splitting a text into lines separated by a carriage return + line feed pair.
// ---------------------------------------------------------------------------

/// A line separator starts at position `i` of `s`.
pub open spec fn spec_crlf_at(s: Seq<char>, i: int) -> bool {
    0 <= i && i + 1 < s.len() && s[i] == '\r' && s[i + 1] == '\n'
}

/// Position of the first line separator of `s`, or a negative value when
/// there is none.
pub open spec fn spec_first_crlf(s: Seq<char>) -> int
    decreases s.len(),
{
    if s.len() < 2 {
        -1
    } else if s[0] == '\r' && s[1] == '\n' {
        0
    } else {
        let r = spec_first_crlf(s.subrange(1, s.len() as int));
        if r < 0 {
            -1
        } else {
            r + 1
        }
    }
}

pub proof fn lemma_first_crlf(s: Seq<char>)
    ensures
        spec_first_crlf(s) < 0 ==> forall|j: int| !spec_crlf_at(s, j),
        spec_first_crlf(s) >= 0 ==> spec_crlf_at(s, spec_first_crlf(s)),
        spec_first_crlf(s) >= 0 ==> forall|j: int| 0 <= j < spec_first_crlf(s) ==> !spec_crlf_at(s, j),
    decreases s.len(),
{
    if s.len() < 2 {
        assert forall|j: int| !spec_crlf_at(s, j) by {}
    } else if s[0] == '\r' && s[1] == '\n' {
    } else {
        let t = s.subrange(1, s.len() as int);
        lemma_first_crlf(t);
        assert forall|j: int| 1 <= j implies (spec_crlf_at(s, j) == spec_crlf_at(t, j - 1)) by {}
        if spec_first_crlf(t) < 0 {
            assert forall|j: int| !spec_crlf_at(s, j) by {
                if j >= 1 {
                    assert(!spec_crlf_at(t, j - 1));
                }
            }
        }
    }
}

/// `spec_first_crlf` is determined by any witness position `k` that starts a
/// separator and is preceded by none.
pub proof fn lemma_first_crlf_is(s: Seq<char>, k: int)
    requires
        spec_crlf_at(s, k),
        forall|j: int| 0 <= j < k ==> !spec_crlf_at(s, j),
    ensures
        spec_first_crlf(s) == k,
{
    lemma_first_crlf(s);
    if spec_first_crlf(s) < 0 {
        assert(!spec_crlf_at(s, k));
    } else {
        let f = spec_first_crlf(s);
        if f < k {
            assert(!spec_crlf_at(s, f));
        }
        if k < f {
            assert(!spec_crlf_at(s, k));
        }
    }
}

/// The lines of `s`: maximal runs separated by carriage return + line feed.
pub open spec fn spec_split_crlf(s: Seq<char>) -> Seq<Seq<char>>
    decreases s.len(),
{
    let i = spec_first_crlf(s);
    if i < 0 {
        seq![s]
    } else if spec_crlf_at(s, i) {
        seq![s.subrange(0, i)] + spec_split_crlf(s.subrange(i + 2, s.len() as int))
    } else {
        seq![s]
    }
}

// ---------------------------------------------------------------------------
// Classifying one line.
// ---------------------------------------------------------------------------

/// Leading whitespace removed.
pub open spec fn spec_trim_start(s: Seq<char>) -> Seq<char>
    decreases s.len(),
{
    if s.len() > 0 && spec_is_space(s[0]) {
        spec_trim_start(s.subrange(1, s.len() as int))
    } else {
        s
    }
}

pub proof fn lemma_trim_start_at(s: Seq<char>, m: int)
    requires
        0 <= m <= s.len(),
        forall|j: int| 0 <= j < m ==> spec_is_space(s[j]),
        m == s.len() || !spec_is_space(s[m]),
    ensures
        spec_trim_start(s) =~= s.subrange(m, s.len() as int),
    decreases m,
{
    if m == 0 {
        if s.len() > 0 && spec_is_space(s[0]) {
            assert(false);
        }
        assert(s.subrange(0, s.len() as int) =~= s);
    } else {
        let t = s.subrange(1, s.len() as int);
        lemma_trim_start_at(t, m - 1);
        assert(t.subrange(m - 1, t.len() as int) =~= s.subrange(m, s.len() as int));
    }
}

/// One trailing path separator removed.
pub open spec fn spec_strip_trailing_slash(s: Seq<char>) -> Seq<char> {
    if s.len() > 0 && s[s.len() - 1] == '/' {
        s.subrange(0, s.len() - 1)
    } else {
        s
    }
}

/// The line begins with the given status character.
pub open spec fn spec_line_has_status(line: Seq<char>, status: char) -> bool {
    line.len() > 0 && line[0] == status
}

/// The changed path carried by a status line: the rest of the line, trimmed
/// of leading whitespace, with a single trailing path separator removed.
pub open spec fn spec_path_of_line(line: Seq<char>) -> Seq<char> {
    spec_strip_trailing_slash(spec_trim_start(line.subrange(1, line.len() as int)))
}

/// The paths of the lines carrying the given status character, in order.
pub open spec fn spec_paths_with_status(lines: Seq<Seq<char>>, status: char) -> Seq<Seq<char>>
    decreases lines.len(),
{
    if lines.len() == 0 {
        Seq::empty()
    } else {
        let rest = spec_paths_with_status(lines.subrange(1, lines.len() as int), status);
        if spec_line_has_status(lines[0], status) {
            seq![spec_path_of_line(lines[0])] + rest
        } else {
            rest
        }
    }
}

/// The paths of the change-list text `s` whose lines begin with `status`.
pub open spec fn spec_changed_paths(s: Seq<char>, status: char) -> Seq<Seq<char>> {
    spec_paths_with_status(spec_split_crlf(s), status)
}

// ---------------------------------------------------------------------------
// Exec classification.
// ---------------------------------------------------------------------------

/// The added, removed and modified paths of one change list.
pub struct FilesChanged {
    pub added: Vec<String>,
    pub removed: Vec<String>,
    pub modified: Vec<String>,
}

impl FilesChanged {
    /// The three lists are exactly the classification of `text`.
    pub open spec fn matches(&self, text: Seq<char>) -> bool {
        &&& self.added.deep_view() == spec_changed_paths(text, 'A')
        &&& self.removed.deep_view() == spec_changed_paths(text, 'D')
        &&& self.modified.deep_view() == spec_changed_paths(text, 'U')
    }
}

/// The changed path carried by a status line (exec side).
fn path_of_line(line: &str) -> (r: String)
    requires
        line@.len() >= 1,
    ensures
        r@ == spec_path_of_line(line@),
{
    let n = line.unicode_len();
    let mut j: usize = 1;
    while j < n && is_space(line.get_char(j))
        invariant
            1 <= j <= n,
            n == line@.len(),
            forall|q: int| 1 <= q < j ==> spec_is_space(line@[q]),
        decreases n - j,
    {
        j += 1;
    }
    let mut k: usize = n;
    if k > j && line.get_char(k - 1) == '/' {
        k = k - 1;
    }
    let r = line.substring_char(j, k).to_owned();
    proof {
        let rest = line@.subrange(1, n as int);
        lemma_trim_start_at(rest, j - 1);
        assert(spec_trim_start(rest) =~= line@.subrange(j as int, n as int));
        assert(r@ =~= spec_path_of_line(line@));
    }
    r
}

/// Classifies every line of a change list by its leading status character:
/// `A` into added, `D` into removed, `U` into modified; lines with any other
/// leading character carry no path. Paths are trimmed of leading whitespace
/// and of one trailing path separator.
pub fn classify_changed(text: &str) -> (r: FilesChanged)
    ensures
        r.matches(text@),
{
    let n = text.unicode_len();
    let mut added: Vec<String> = Vec::new();
    let mut removed: Vec<String> = Vec::new();
    let mut modified: Vec<String> = Vec::new();
    let ghost whole: Seq<Seq<char>> = spec_split_crlf(text@);
    let ghost mut done: Seq<Seq<char>> = Seq::empty();
    let mut start: usize = 0;
    let mut i: usize = 0;
    proof {
        assert(text@.subrange(0, n as int) =~= text@);
        assert(whole =~= done + spec_split_crlf(text@));
    }
    loop
        invariant
            start <= i <= n,
            n == text@.len(),
            whole == spec_split_crlf(text@),
            forall|j: int| start <= j < i ==> !spec_crlf_at(text@, j),
            whole =~= done + spec_split_crlf(text@.subrange(start as int, n as int)),
            added.deep_view() == spec_paths_with_status(done, 'A'),
            removed.deep_view() == spec_paths_with_status(done, 'D'),
            modified.deep_view() == spec_paths_with_status(done, 'U'),
        decreases n - i,
    {
        let ghost rest = text@.subrange(start as int, n as int);
        if n - i > 1 && text.get_char(i) == '\r' && text.get_char(i + 1) == '\n' {
            // a separator: the line runs from start to i.
            let line = text.substring_char(start, i);
            let ghost rest2 = text@.subrange(i as int + 2, n as int);
            proof {
                assert(spec_crlf_at(rest, i - start as int));
                assert forall|j: int| 0 <= j < i - start as int implies !spec_crlf_at(rest, j) by {
                    assert(!spec_crlf_at(text@, j + start as int));
                }
                lemma_first_crlf_is(rest, i - start as int);
                assert(rest.subrange(0, i - start as int) =~= line@);
                assert(rest.subrange(i - start as int + 2, rest.len() as int) =~= rest2);
                assert(spec_split_crlf(rest) =~= seq![line@] + spec_split_crlf(rest2));
            }
            classify_line(line, &mut added, &mut removed, &mut modified);
            proof {
                lemma_paths_push(done, line@, 'A');
                lemma_paths_push(done, line@, 'D');
                lemma_paths_push(done, line@, 'U');
                done = done + seq![line@];
                assert(whole =~= done + spec_split_crlf(rest2));
            }
            start = i + 2;
            i = start;
        } else if n - i > 1 {
            i += 1;
        } else {
            // no separator remains: the final line runs to the end.
            let line = text.substring_char(start, n);
            proof {
                assert forall|j: int| 0 <= j implies !spec_crlf_at(rest, j) by {
                    if spec_crlf_at(rest, j) {
                        assert(spec_crlf_at(text@, j + start as int));
                    }
                }
                lemma_first_crlf(rest);
                if spec_first_crlf(rest) >= 0 {
                    assert(spec_crlf_at(rest, spec_first_crlf(rest)));
                }
                assert(spec_split_crlf(rest) =~= seq![rest]);
                assert(rest =~= line@);
            }
            classify_line(line, &mut added, &mut removed, &mut modified);
            proof {
                lemma_paths_push(done, line@, 'A');
                lemma_paths_push(done, line@, 'D');
                lemma_paths_push(done, line@, 'U');
                done = done + seq![line@];
                assert(whole =~= done);
                assert(whole == done);
                assert(added.deep_view() == spec_paths_with_status(done, 'A'));
                assert(removed.deep_view() == spec_paths_with_status(done, 'D'));
                assert(modified.deep_view() == spec_paths_with_status(done, 'U'));
                assert(added.deep_view() == spec_changed_paths(text@, 'A'));
                assert(removed.deep_view() == spec_changed_paths(text@, 'D'));
                assert(modified.deep_view() == spec_changed_paths(text@, 'U'));
            }
            return FilesChanged { added, removed, modified };
        }
    }
}

/// Appends the path of one line to the list matching its status character.
fn classify_line(
    line: &str,
    added: &mut Vec<String>,
    removed: &mut Vec<String>,
    modified: &mut Vec<String>,
) -> (r: ())
    ensures
        final(added).deep_view() == if spec_line_has_status(line@, 'A') {
            old(added).deep_view().push(spec_path_of_line(line@))
        } else {
            old(added).deep_view()
        },
        final(removed).deep_view() == if spec_line_has_status(line@, 'D') {
            old(removed).deep_view().push(spec_path_of_line(line@))
        } else {
            old(removed).deep_view()
        },
        final(modified).deep_view() == if spec_line_has_status(line@, 'U') {
            old(modified).deep_view().push(spec_path_of_line(line@))
        } else {
            old(modified).deep_view()
        },
{
    if line.unicode_len() >= 1 {
        let c = line.get_char(0);
        if c == 'A' {
            let p = path_of_line(line);
            added.push(p);
            proof {
                assert(added.deep_view() =~= old(added).deep_view().push(spec_path_of_line(line@)));
            }
        } else if c == 'D' {
            let p = path_of_line(line);
            removed.push(p);
            proof {
                assert(removed.deep_view() =~= old(removed).deep_view().push(
                    spec_path_of_line(line@),
                ));
            }
        } else if c == 'U' {
            let p = path_of_line(line);
            modified.push(p);
            proof {
                assert(modified.deep_view() =~= old(modified).deep_view().push(
                    spec_path_of_line(line@),
                ));
            }
        }
    }
}

// ---------------------------------------------------------------------------
// Branch detection.
// ---------------------------------------------------------------------------

/// The marker `/branches/` starts at position `i` of `s`.
pub open spec fn spec_branches_marker_at(s: Seq<char>, i: int) -> bool {
    &&& 0 <= i
    &&& i + 10 <= s.len()
    &&& s[i] == '/'
    &&& s[i + 1] == 'b'
    &&& s[i + 2] == 'r'
    &&& s[i + 3] == 'a'
    &&& s[i + 4] == 'n'
    &&& s[i + 5] == 'c'
    &&& s[i + 6] == 'h'
    &&& s[i + 7] == 'e'
    &&& s[i + 8] == 's'
    &&& s[i + 9] == '/'
}

/// The marker `/tags/` starts at position `i` of `s`.
pub open spec fn spec_tags_marker_at(s: Seq<char>, i: int) -> bool {
    &&& 0 <= i
    &&& i + 6 <= s.len()
    &&& s[i] == '/'
    &&& s[i + 1] == 't'
    &&& s[i + 2] == 'a'
    &&& s[i + 3] == 'g'
    &&& s[i + 4] == 's'
    &&& s[i + 5] == '/'
}

/// The branch name read at position `k`: the word run starting there, when it
/// is non-empty and followed directly by a path separator.
pub open spec fn spec_name_run_at(s: Seq<char>, k: int) -> Option<Seq<char>> {
    let e = spec_word_run_end(s, k);
    if e > k && e < s.len() && s[e] == '/' {
        Some(s.subrange(k, e))
    } else {
        None
    }
}

/// The branch name of a marker starting at position `i`, if any.
pub open spec fn spec_branch_name_at(s: Seq<char>, i: int) -> Option<Seq<char>> {
    if spec_branches_marker_at(s, i) {
        spec_name_run_at(s, i + 10)
    } else if spec_tags_marker_at(s, i) {
        spec_name_run_at(s, i + 6)
    } else {
        None
    }
}

/// The first branch name found scanning `s` from position `i`.
pub open spec fn spec_detect_branch_from(s: Seq<char>, i: int) -> Option<Seq<char>>
    decreases s.len() - i,
{
    if i < 0 || i >= s.len() {
        None
    } else if spec_branch_name_at(s, i) is Some {
        spec_branch_name_at(s, i)
    } else {
        spec_detect_branch_from(s, i + 1)
    }
}

/// The branch name derived from a change list: the name captured by the first
/// `/branches/<name>/` or `/tags/<name>/` path fragment, scanning from the
/// start of the text; nothing when no such fragment occurs.
pub open spec fn spec_detect_branch(s: Seq<char>) -> Option<Seq<char>> {
    spec_detect_branch_from(s, 0)
}

fn branches_marker_at(text: &str, i: usize) -> (r: bool)
    requires
        i < text@.len(),
    ensures
        r == spec_branches_marker_at(text@, i as int),
{
    let n = text.unicode_len();
    if n - i < 10 {
        return false;
    }
    text.get_char(i) == '/' && text.get_char(i + 1) == 'b' && text.get_char(i + 2) == 'r'
        && text.get_char(i + 3) == 'a' && text.get_char(i + 4) == 'n' && text.get_char(i + 5) == 'c'
        && text.get_char(i + 6) == 'h' && text.get_char(i + 7) == 'e' && text.get_char(i + 8) == 's'
        && text.get_char(i + 9) == '/'
}

fn tags_marker_at(text: &str, i: usize) -> (r: bool)
    requires
        i < text@.len(),
    ensures
        r == spec_tags_marker_at(text@, i as int),
{
    let n = text.unicode_len();
    if n - i < 6 {
        return false;
    }
    text.get_char(i) == '/' && text.get_char(i + 1) == 't' && text.get_char(i + 2) == 'a'
        && text.get_char(i + 3) == 'g' && text.get_char(i + 4) == 's' && text.get_char(i + 5) == '/'
}

/// The name run read at position `k` (exec side of `spec_name_run_at`).
fn name_run_at(text: &str, k: usize) -> (r: Option<String>)
    requires
        k <= text@.len(),
    ensures
        match r {
            Some(name) => spec_name_run_at(text@, k as int) == Some(name@),
            None => spec_name_run_at(text@, k as int) is None,
        },
{
    let n = text.unicode_len();
    let e = word_run_end(text, k);
    proof {
        lemma_word_run_end(text@, k as int);
    }
    if e > k && e < n && text.get_char(e) == '/' {
        Some(text.substring_char(k, e).to_owned())
    } else {
        None
    }
}

/// Scans the change list for the first `/branches/<name>/` or `/tags/<name>/`
/// fragment and returns the captured name, or nothing when no path of that
/// shape occurs. A name is a run of ASCII letters, digits and underscores;
/// branch names in other scripts are not recognized.
pub fn detect_branch(text: &str) -> (r: Option<String>)
    ensures
        match r {
            Some(name) => spec_detect_branch(text@) == Some(name@),
            None => spec_detect_branch(text@) is None,
        },
{
    let n = text.unicode_len();
    let mut i: usize = 0;
    while i < n
        invariant
            0 <= i <= n,
            n == text@.len(),
            spec_detect_branch(text@) == spec_detect_branch_from(text@, i as int),
        decreases n - i,
    {
        if branches_marker_at(text, i) {
            if let Some(name) = name_run_at(text, i + 10) {
                return Some(name);
            }
        } else if tags_marker_at(text, i) {
            if let Some(name) = name_run_at(text, i + 6) {
                return Some(name);
            }
        }
        i += 1;
    }
    None
}

/// Appending one line extends the classified paths by that line's
/// contribution.
pub proof fn lemma_paths_push(lines: Seq<Seq<char>>, line: Seq<char>, status: char)
    ensures
        spec_paths_with_status(lines + seq![line], status) =~= if spec_line_has_status(
            line,
            status,
        ) {
            spec_paths_with_status(lines, status).push(spec_path_of_line(line))
        } else {
            spec_paths_with_status(lines, status)
        },
    decreases lines.len(),
{
    let all = lines + seq![line];
    if lines.len() == 0 {
        assert(all[0] == line);
        assert(all.subrange(1, all.len() as int) =~= Seq::<Seq<char>>::empty());
        assert(spec_paths_with_status(Seq::<Seq<char>>::empty(), status) =~= Seq::<Seq<char>>::empty());
        assert(spec_paths_with_status(lines, status) =~= Seq::<Seq<char>>::empty());
        if spec_line_has_status(line, status) {
            assert(spec_paths_with_status(all, status) =~= seq![spec_path_of_line(line)]
                + Seq::<Seq<char>>::empty());
        }
    } else {
        let tail = lines.subrange(1, lines.len() as int);
        assert(all[0] == lines[0]);
        assert(all.subrange(1, all.len() as int) =~= tail + seq![line]);
        lemma_paths_push(tail, line, status);
        let rest_all = spec_paths_with_status(tail + seq![line], status);
        assert(spec_paths_with_status(all, status) == if spec_line_has_status(lines[0], status) {
            seq![spec_path_of_line(lines[0])] + rest_all
        } else {
            rest_all
        });
        if spec_line_has_status(lines[0], status) && spec_line_has_status(line, status) {
            assert(seq![spec_path_of_line(lines[0])] + spec_paths_with_status(tail, status).push(
                spec_path_of_line(line),
            ) =~= (seq![spec_path_of_line(lines[0])] + spec_paths_with_status(tail, status)).push(
                spec_path_of_line(line),
            ));
        }
    }
}

} // verus!
