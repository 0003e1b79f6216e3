//! Append-only maps from natural keys to tracker-issued identifiers: the
//! store behind the entity-resolution cache.

use vstd::prelude::*;

verus! {

/// A map from one natural key to an identifier, kept as the sequence of
/// insertions.
#[derive(Debug)]
pub struct StrMap {
    entries: Vec<(String, String)>,
}

/// The mapping denoted by a sequence of insertions: later entries win.
pub open spec fn spec_assoc(entries: Seq<(String, String)>) -> Map<Seq<char>, Seq<char>>
    decreases entries.len(),
{
    if entries.len() == 0 {
        Map::empty()
    } else {
        spec_assoc(entries.drop_last()).insert(entries.last().0@, entries.last().1@)
    }
}

proof fn lemma_assoc_found(entries: Seq<(String, String)>, i: int, k: Seq<char>)
    requires
        0 <= i < entries.len(),
        entries[i].0@ == k,
        forall|j: int| i < j < entries.len() ==> entries[j].0@ != k,
    ensures
        spec_assoc(entries).contains_key(k),
        spec_assoc(entries)[k] == entries[i].1@,
    decreases entries.len(),
{
    if i == entries.len() - 1 {
    } else {
        assert(entries.drop_last()[i] == entries[i]);
        lemma_assoc_found(entries.drop_last(), i, k);
        assert(entries.last().0@ != k);
    }
}

proof fn lemma_assoc_absent(entries: Seq<(String, String)>, k: Seq<char>)
    requires
        forall|j: int| 0 <= j < entries.len() ==> entries[j].0@ != k,
    ensures
        !spec_assoc(entries).contains_key(k),
    decreases entries.len(),
{
    if entries.len() > 0 {
        lemma_assoc_absent(entries.drop_last(), k);
    }
}

impl StrMap {
    /// The mapping this store denotes.
    pub closed spec fn view(&self) -> Map<Seq<char>, Seq<char>> {
        spec_assoc(self.entries@)
    }

    pub fn new() -> (r: StrMap)
        ensures
            r.view() == Map::<Seq<char>, Seq<char>>::empty(),
    {
        StrMap { entries: Vec::new() }
    }

    /// Looks the key up; the copy handed out is the mapped identifier.
    pub fn get(&self, k: &String) -> (r: Option<String>)
        ensures
            match r {
                Some(v) => self.view().contains_key(k@) && v@ == self.view()[k@],
                None => !self.view().contains_key(k@),
            },
    {
        let n = self.entries.len();
        let mut i = n;
        while i > 0
            invariant
                i <= n,
                n == self.entries.len(),
                forall|j: int| i <= j < n ==> self.entries@[j].0@ != k@,
            decreases i,
        {
            i -= 1;
            if self.entries[i].0 == *k {
                let v = self.entries[i].1.clone();
                proof {
                    lemma_assoc_found(self.entries@, i as int, k@);
                }
                return Some(v);
            }
        }
        proof {
            lemma_assoc_absent(self.entries@, k@);
        }
        None
    }

    /// Records one resolution; entries are never removed.
    pub fn insert(&mut self, k: String, v: String)
        ensures
            final(self).view() == old(self).view().insert(k@, v@),
    {
        let ghost before = self.entries@;
        self.entries.push((k, v));
        proof {
            assert(self.entries@.drop_last() =~= before);
        }
    }
}

/// A map from a pair of natural keys to an identifier.
#[derive(Debug)]
pub struct PairMap {
    entries: Vec<((String, String), String)>,
}

/// The mapping denoted by a sequence of pair-keyed insertions.
pub open spec fn spec_assoc_pair(entries: Seq<((String, String), String)>) -> Map<
    (Seq<char>, Seq<char>),
    Seq<char>,
>
    decreases entries.len(),
{
    if entries.len() == 0 {
        Map::empty()
    } else {
        spec_assoc_pair(entries.drop_last()).insert(
            (entries.last().0.0@, entries.last().0.1@),
            entries.last().1@,
        )
    }
}

proof fn lemma_assoc_pair_found(
    entries: Seq<((String, String), String)>,
    i: int,
    k: (Seq<char>, Seq<char>),
)
    requires
        0 <= i < entries.len(),
        (entries[i].0.0@, entries[i].0.1@) == k,
        forall|j: int| i < j < entries.len() ==> (entries[j].0.0@, entries[j].0.1@) != k,
    ensures
        spec_assoc_pair(entries).contains_key(k),
        spec_assoc_pair(entries)[k] == entries[i].1@,
    decreases entries.len(),
{
    if i == entries.len() - 1 {
    } else {
        assert(entries.drop_last()[i] == entries[i]);
        lemma_assoc_pair_found(entries.drop_last(), i, k);
        assert((entries.last().0.0@, entries.last().0.1@) != k);
    }
}

proof fn lemma_assoc_pair_absent(entries: Seq<((String, String), String)>, k: (Seq<char>, Seq<char>))
    requires
        forall|j: int| 0 <= j < entries.len() ==> (entries[j].0.0@, entries[j].0.1@) != k,
    ensures
        !spec_assoc_pair(entries).contains_key(k),
    decreases entries.len(),
{
    if entries.len() > 0 {
        lemma_assoc_pair_absent(entries.drop_last(), k);
    }
}

impl PairMap {
    /// The mapping this store denotes.
    pub closed spec fn view(&self) -> Map<(Seq<char>, Seq<char>), Seq<char>> {
        spec_assoc_pair(self.entries@)
    }

    pub fn new() -> (r: PairMap)
        ensures
            r.view() == Map::<(Seq<char>, Seq<char>), Seq<char>>::empty(),
    {
        PairMap { entries: Vec::new() }
    }

    /// Looks the key pair up; the copy handed out is the mapped identifier.
    pub fn get(&self, k0: &String, k1: &String) -> (r: Option<String>)
        ensures
            match r {
                Some(v) => self.view().contains_key((k0@, k1@)) && v@ == self.view()[(k0@, k1@)],
                None => !self.view().contains_key((k0@, k1@)),
            },
    {
        let n = self.entries.len();
        let mut i = n;
        while i > 0
            invariant
                i <= n,
                n == self.entries.len(),
                forall|j: int|
                    i <= j < n ==> (self.entries@[j].0.0@, self.entries@[j].0.1@) != (k0@, k1@),
            decreases i,
        {
            i -= 1;
            if self.entries[i].0.0 == *k0 && self.entries[i].0.1 == *k1 {
                let v = self.entries[i].1.clone();
                proof {
                    lemma_assoc_pair_found(self.entries@, i as int, (k0@, k1@));
                }
                return Some(v);
            }
        }
        proof {
            lemma_assoc_pair_absent(self.entries@, (k0@, k1@));
        }
        None
    }

    /// Records one resolution; entries are never removed.
    pub fn insert(&mut self, k0: String, k1: String, v: String)
        ensures
            final(self).view() == old(self).view().insert((k0@, k1@), v@),
    {
        let ghost before = self.entries@;
        self.entries.push(((k0, k1), v));
        proof {
            assert(self.entries@.drop_last() =~= before);
        }
    }
}

} // verus!
