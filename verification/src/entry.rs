//! The entry catalog: one record per discovered workspace directory,
//! classification of the raw per-directory facts the scanner hands over
//! (date-prefix split, capability flags), and the descending sorts used
//! for the default ordering and for score ranking.

use vstd::prelude::*;
use vstd::seq_lib::group_to_multiset_ensures;

use crate::dates::{has_date_prefix, token_day, token_month, token_year, PrefixDate};
use crate::dates::extract_prefix_date;

verus! {

/// When an entry was created: taken from its date-prefix token, or from
/// the filesystem timestamp (seconds since the epoch).
#[derive(Clone, Copy, PartialEq, Eq, Structural, Debug)]
pub enum Created {
    Date(PrefixDate),
    Stamp(u64),
}

/// One discovered workspace directory.
pub struct TryEntry {
    pub name: String,
    pub display_name: String,
    pub modified: u64,
    pub created: Created,
    pub score: i64,
    pub is_git: bool,
    pub is_worktree: bool,
    pub is_worktree_locked: bool,
    pub is_gitmodules: bool,
    pub is_mise: bool,
    pub is_cargo: bool,
    pub is_maven: bool,
    pub is_flutter: bool,
    pub is_go: bool,
    pub is_python: bool,
}

impl Clone for TryEntry {
    fn clone(&self) -> (res: Self)
        ensures
            res == *self,
    {
        TryEntry {
            name: self.name.clone(),
            display_name: self.display_name.clone(),
            modified: self.modified,
            created: self.created,
            score: self.score,
            is_git: self.is_git,
            is_worktree: self.is_worktree,
            is_worktree_locked: self.is_worktree_locked,
            is_gitmodules: self.is_gitmodules,
            is_mise: self.is_mise,
            is_cargo: self.is_cargo,
            is_maven: self.is_maven,
            is_flutter: self.is_flutter,
            is_go: self.is_go,
            is_python: self.is_python,
        }
    }
}

/// Raw facts about one child directory, as the scanner reads them off the
/// filesystem: the directory name, its timestamps, and one independent
/// existence test per capability marker.
pub struct EntryProbe {
    pub name: String,
    pub modified: u64,
    pub created: u64,
    pub is_git: bool,
    pub is_worktree: bool,
    pub is_worktree_locked: bool,
    pub is_gitmodules: bool,
    pub is_mise: bool,
    pub is_cargo: bool,
    pub is_maven: bool,
    pub is_flutter: bool,
    pub is_go: bool,
    pub is_python: bool,
}

/// How a catalog entry must relate to the probe it was built from: the
/// raw name, timestamps and flags are carried over; the display name and
/// creation source depend on whether the name bears a date prefix.
pub open spec fn classifies(p: EntryProbe, e: TryEntry) -> bool {
    &&& e.name == p.name
    &&& e.modified == p.modified
    &&& e.score == 0
    &&& e.is_git == p.is_git
    &&& e.is_worktree == p.is_worktree
    &&& e.is_worktree_locked == p.is_worktree_locked
    &&& e.is_gitmodules == p.is_gitmodules
    &&& e.is_mise == p.is_mise
    &&& e.is_cargo == p.is_cargo
    &&& e.is_maven == p.is_maven
    &&& e.is_flutter == p.is_flutter
    &&& e.is_go == p.is_go
    &&& e.is_python == p.is_python
    &&& if has_date_prefix(p.name@) {
        &&& e.display_name@ == p.name@.subrange(11, p.name@.len() as int)
        &&& e.created == Created::Date(
            PrefixDate {
                year: token_year(p.name@.subrange(0, 10)) as u32,
                month: token_month(p.name@.subrange(0, 10)) as u32,
                day: token_day(p.name@.subrange(0, 10)) as u32,
            },
        )
    } else {
        &&& e.display_name@ == p.name@
        &&& e.created == Created::Stamp(p.created)
    }
}

/// Builds one catalog entry from one probe, splitting off a leading date
/// token when the name carries one.
pub fn classify(p: &EntryProbe) -> (e: TryEntry)
    ensures
        classifies(*p, e),
{
    let (display_name, created) = match extract_prefix_date(p.name.as_str()) {
        Some(d) => (d.1, Created::Date(d.0)),
        None => (p.name.clone(), Created::Stamp(p.created)),
    };
    TryEntry {
        name: p.name.clone(),
        display_name,
        modified: p.modified,
        created,
        score: 0,
        is_git: p.is_git,
        is_worktree: p.is_worktree,
        is_worktree_locked: p.is_worktree_locked,
        is_gitmodules: p.is_gitmodules,
        is_mise: p.is_mise,
        is_cargo: p.is_cargo,
        is_maven: p.is_maven,
        is_flutter: p.is_flutter,
        is_go: p.is_go,
        is_python: p.is_python,
    }
}

/// The key a sort ranks entries by.
#[derive(Clone, Copy, PartialEq, Eq, Structural)]
pub enum SortKey {
    ModifiedDesc,
    ScoreDesc,
}

pub open spec fn entry_key(k: SortKey, e: TryEntry) -> int {
    match k {
        SortKey::ModifiedDesc => e.modified as int,
        SortKey::ScoreDesc => e.score as int,
    }
}

/// Descending order under the chosen key.
pub open spec fn sorted_desc(k: SortKey, s: Seq<TryEntry>) -> bool {
    forall|i: int, j: int| 0 <= i < j < s.len() ==> entry_key(k, s[i]) >= entry_key(k, s[j])
}

/// `e` placed behind every element whose key is at least its own: the
/// insertion step of a stable descending sort.
pub open spec fn inserted_desc(k: SortKey, s: Seq<TryEntry>, e: TryEntry) -> Seq<TryEntry>
    decreases s.len(),
{
    if s.len() == 0 {
        seq![e]
    } else if entry_key(k, s[0]) >= entry_key(k, e) {
        seq![s[0]] + inserted_desc(k, s.drop_first(), e)
    } else {
        seq![e] + s
    }
}

/// The stable descending sort of `v` under the chosen key: each element
/// in turn is inserted behind the elements ranked at least as high, so
/// ties keep their earlier relative order.
pub open spec fn insertion_sorted_desc(k: SortKey, v: Seq<TryEntry>) -> Seq<TryEntry>
    decreases v.len(),
{
    if v.len() == 0 {
        v
    } else {
        inserted_desc(k, insertion_sorted_desc(k, v.drop_last()), v.last())
    }
}

proof fn lemma_inserted_at(k: SortKey, s: Seq<TryEntry>, e: TryEntry, j: int)
    requires
        0 <= j <= s.len(),
        forall|t: int| 0 <= t < j ==> entry_key(k, s[t]) >= entry_key(k, e),
        j < s.len() ==> entry_key(k, s[j]) < entry_key(k, e),
    ensures
        inserted_desc(k, s, e) == s.insert(j, e),
    decreases s.len(),
{
    if j == 0 {
        if s.len() == 0 {
            assert(inserted_desc(k, s, e) =~= s.insert(0, e));
        } else {
            assert(entry_key(k, s[0]) < entry_key(k, e));
            assert(seq![e] + s =~= s.insert(0, e));
        }
    } else {
        assert(entry_key(k, s[0]) >= entry_key(k, e));
        lemma_inserted_at(k, s.drop_first(), e, j - 1);
        assert(seq![s[0]] + s.drop_first().insert(j - 1, e) =~= s.insert(j, e));
    }
}

fn key_ge(k: SortKey, a: &TryEntry, b: &TryEntry) -> (r: bool)
    ensures
        r == (entry_key(k, *a) >= entry_key(k, *b)),
{
    match k {
        SortKey::ModifiedDesc => a.modified >= b.modified,
        SortKey::ScoreDesc => a.score >= b.score,
    }
}

/// Sorts entries by the chosen key, highest first, stably: the result is
/// exactly the stable descending sort of the input.
pub fn sort_entries_desc(v: Vec<TryEntry>, k: SortKey) -> (r: Vec<TryEntry>)
    ensures
        r@ == insertion_sorted_desc(k, v@),
        r@.to_multiset() == v@.to_multiset(),
        r@.len() == v@.len(),
        sorted_desc(k, r@),
{
    let mut out: Vec<TryEntry> = Vec::new();
    proof {
        assert(v@.subrange(0, 0) =~= out@);
    }
    let mut i: usize = 0;
    while i < v.len()
        invariant
            0 <= i <= v.len(),
            out@.len() == i,
            out@ == insertion_sorted_desc(k, v@.subrange(0, i as int)),
            out@.to_multiset() == v@.subrange(0, i as int).to_multiset(),
            sorted_desc(k, out@),
        decreases v.len() - i,
    {
        let e = v[i].clone();
        let mut j: usize = 0;
        while j < out.len() && key_ge(k, &out[j], &e)
            invariant
                0 <= j <= out@.len(),
                forall|t: int| 0 <= t < j ==> entry_key(k, out@[t]) >= entry_key(k, e),
            decreases out@.len() - j,
        {
            j += 1;
        }
        let ghost prev = out@;
        out.insert(j, e);
        proof {
            broadcast use group_to_multiset_ensures;

            lemma_inserted_at(k, prev, e, j as int);
            assert(v@.subrange(0, i + 1).drop_last() =~= v@.subrange(0, i as int));
            assert(out@ == insertion_sorted_desc(k, v@.subrange(0, i + 1)));
            assert(prev.insert(j as int, e).to_multiset() == prev.to_multiset().insert(e));
            assert(v@.subrange(0, i as int).push(v@[i as int]).to_multiset() == v@.subrange(
                0,
                i as int,
            ).to_multiset().insert(v@[i as int]));
            assert(v@.subrange(0, i + 1) =~= v@.subrange(0, i as int).push(v@[i as int]));
            assert forall|a: int, b: int| 0 <= a < b < out@.len() implies entry_key(k, out@[a])
                >= entry_key(k, out@[b]) by {
                if b < j {
                } else if a > j {
                } else if a == j {
                    assert(out@[b] == prev[b - 1]);
                    if j < prev.len() {
                        assert(entry_key(k, e) > entry_key(k, prev[j as int]));
                    }
                } else if b == j {
                    assert(out@[a] == prev[a]);
                } else {
                    assert(out@[a] == prev[a] && out@[b] == prev[b - 1]);
                    if j < prev.len() && b - 1 >= j {
                        assert(entry_key(k, prev[a]) >= entry_key(k, prev[b - 1]));
                    }
                }
            }
        }
        i += 1;
    }
    proof {
        assert(v@.subrange(0, v@.len() as int) =~= v@);
    }
    out
}

/// Copies a vector of entries element by element.
pub fn clone_entries(v: &Vec<TryEntry>) -> (r: Vec<TryEntry>)
    ensures
        r@ == v@,
{
    let mut r: Vec<TryEntry> = Vec::new();
    let mut i: usize = 0;
    while i < v.len()
        invariant
            0 <= i <= v@.len(),
            r@ == v@.subrange(0, i as int),
        decreases v@.len() - i,
    {
        r.push(v[i].clone());
        proof {
            assert(v@.subrange(0, i + 1) =~= v@.subrange(0, i as int).push(v@[i as int]));
        }
        i += 1;
    }
    proof {
        assert(v@.subrange(0, v@.len() as int) =~= v@);
    }
    r
}

/// Builds the session-start catalog: every probe classified, then the
/// default ordering applied — most recently modified first, stably.
pub fn build_catalog(probes: &Vec<EntryProbe>) -> (r: Vec<TryEntry>)
    ensures
        r@.len() == probes@.len(),
        sorted_desc(SortKey::ModifiedDesc, r@),
        exists|mid: Seq<TryEntry>|
            #![trigger mid.len()]
            {
                &&& mid.len() == probes@.len()
                &&& (forall|i: int| 0 <= i < mid.len() ==> classifies(probes@[i], #[trigger] mid[i]))
                &&& r@ == insertion_sorted_desc(SortKey::ModifiedDesc, mid)
            },
{
    let mut entries: Vec<TryEntry> = Vec::new();
    let mut i: usize = 0;
    while i < probes.len()
        invariant
            0 <= i <= probes@.len(),
            entries@.len() == i,
            forall|t: int| 0 <= t < i ==> classifies(probes@[t], #[trigger] entries@[t]),
        decreases probes@.len() - i,
    {
        entries.push(classify(&probes[i]));
        i += 1;
    }
    let ghost mid = entries@;
    let r = sort_entries_desc(entries, SortKey::ModifiedDesc);
    proof {
        assert(mid.len() == probes@.len());
    }
    r
}

} // verus!
