//! Pure string logic on entry and repository names: URL detection, the
//! repository name taken from a clone URL, matching a requested name
//! against an on-disk entry name, and the optional date prefix applied to
//! a newly created folder.

use vstd::prelude::*;

use crate::dates::{extract_prefix_date, has_date_prefix};
use crate::trusted::os_home_dir;

verus! {

pub open spec fn seq_starts_with(s: Seq<char>, p: Seq<char>) -> bool {
    &&& p.len() <= s.len()
    &&& s.subrange(0, p.len() as int) == p
}

pub open spec fn seq_ends_with(s: Seq<char>, p: Seq<char>) -> bool {
    &&& p.len() <= s.len()
    &&& s.subrange(s.len() - p.len(), s.len() as int) == p
}

pub(crate) fn str_eq(a: &str, b: &str) -> (r: bool)
    ensures
        r == (a@ == b@),
{
    let al = a.unicode_len();
    let bl = b.unicode_len();
    if al != bl {
        return false;
    }
    let mut i: usize = 0;
    while i < al
        invariant
            0 <= i <= al,
            al == a@.len(),
            al == b@.len(),
            forall|k: int| 0 <= k < i ==> a@[k] == b@[k],
        decreases al - i,
    {
        if a.get_char(i) != b.get_char(i) {
            return false;
        }
        i += 1;
    }
    proof {
        assert(a@ =~= b@);
    }
    true
}

pub(crate) fn str_starts_with(s: &str, p: &str) -> (r: bool)
    ensures
        r == seq_starts_with(s@, p@),
{
    let sl = s.unicode_len();
    let pl = p.unicode_len();
    if pl > sl {
        return false;
    }
    let mut i: usize = 0;
    while i < pl
        invariant
            0 <= i <= pl,
            pl == p@.len(),
            sl == s@.len(),
            pl <= sl,
            forall|k: int| 0 <= k < i ==> s@[k] == p@[k],
        decreases pl - i,
    {
        if s.get_char(i) != p.get_char(i) {
            assert(s@.subrange(0, pl as int)[i as int] != p@[i as int]);
            return false;
        }
        i += 1;
    }
    proof {
        assert(s@.subrange(0, pl as int) =~= p@);
    }
    true
}

pub(crate) fn str_ends_with(s: &str, p: &str) -> (r: bool)
    ensures
        r == seq_ends_with(s@, p@),
{
    let sl = s.unicode_len();
    let pl = p.unicode_len();
    if pl > sl {
        return false;
    }
    let off = sl - pl;
    let mut i: usize = 0;
    while i < pl
        invariant
            0 <= i <= pl,
            pl == p@.len(),
            sl == s@.len(),
            off == sl - pl,
            forall|k: int| 0 <= k < i ==> s@[off + k] == p@[k],
        decreases pl - i,
    {
        if s.get_char(off + i) != p.get_char(i) {
            assert(s@.subrange(s@.len() - p@.len(), s@.len() as int)[i as int] != p@[i as int]);
            return false;
        }
        i += 1;
    }
    proof {
        assert(s@.subrange(s@.len() - p@.len(), s@.len() as int) =~= p@);
    }
    true
}

/// A name is treated as something to clone rather than a folder name when
/// it starts like a URL or SSH remote, or ends in `.git`.
pub open spec fn is_git_url_spec(s: Seq<char>) -> bool {
    ||| seq_starts_with(s, "http://"@)
    ||| seq_starts_with(s, "https://"@)
    ||| seq_starts_with(s, "git@"@)
    ||| seq_starts_with(s, "ssh://"@)
    ||| seq_ends_with(s, ".git"@)
}

pub fn is_git_url(s: &str) -> (r: bool)
    ensures
        r == is_git_url_spec(s@),
{
    str_starts_with(s, "http://") || str_starts_with(s, "https://") || str_starts_with(s, "git@")
        || str_starts_with(s, "ssh://") || str_ends_with(s, ".git")
}

pub open spec fn ends_with_git(s: Seq<char>) -> bool {
    &&& s.len() >= 4
    &&& s[s.len() - 4] == '.'
    &&& s[s.len() - 3] == 'g'
    &&& s[s.len() - 2] == 'i'
    &&& s[s.len() - 1] == 't'
}

pub open spec fn trim_trailing_slashes(s: Seq<char>) -> Seq<char>
    decreases s.len(),
{
    if s.len() > 0 && s.last() == '/' {
        trim_trailing_slashes(s.drop_last())
    } else {
        s
    }
}

pub open spec fn trim_trailing_git(s: Seq<char>) -> Seq<char>
    decreases s.len(),
{
    if ends_with_git(s) {
        trim_trailing_git(s.subrange(0, s.len() - 4))
    } else {
        s
    }
}

pub open spec fn is_sep(c: char) -> bool {
    c == '/' || c == ':'
}

/// The suffix of `s` after its last `/` or `:`, or all of `s` when it has
/// neither.
pub open spec fn last_segment(s: Seq<char>) -> Seq<char>
    decreases s.len(),
{
    if s.len() == 0 {
        s
    } else if is_sep(s.last()) {
        Seq::empty()
    } else {
        last_segment(s.drop_last()).push(s.last())
    }
}

/// What `extract_repo_name` returns: trailing slashes dropped, then any
/// repeated `.git` suffix, then the segment after the last `/` or `:`;
/// the fallback name when that segment is empty.
pub open spec fn repo_name_spec(url: Seq<char>) -> Seq<char> {
    let cleaned = trim_trailing_git(trim_trailing_slashes(url));
    let seg = last_segment(cleaned);
    if seg.len() > 0 {
        seg
    } else {
        "cloned-repo"@
    }
}

proof fn lemma_last_segment_tail(c: Seq<char>, k: int)
    requires
        0 <= k <= c.len(),
        forall|i: int| k <= i < c.len() ==> !is_sep(c[i]),
        k > 0 ==> is_sep(c[k - 1]),
    ensures
        last_segment(c) == c.subrange(k, c.len() as int),
    decreases c.len(),
{
    if c.len() == 0 {
        assert(c.subrange(0, 0) =~= c);
    } else if k == c.len() {
        if k > 0 {
            assert(is_sep(c.last()));
        }
        assert(last_segment(c) =~= c.subrange(k, c.len() as int));
    } else {
        assert(!is_sep(c.last()));
        lemma_last_segment_tail(c.drop_last(), k);
        assert(last_segment(c.drop_last()).push(c.last()) =~= c.subrange(k, c.len() as int));
    }
}

/// Pulls the repository name out of a clone URL, falling back to a fixed
/// name when nothing usable is left.
pub fn extract_repo_name(url: &str) -> (r: String)
    ensures
        r@ == repo_name_spec(url@),
{
    let n = url.unicode_len();
    let mut e: usize = n;
    proof {
        assert(url@.subrange(0, n as int) =~= url@);
    }
    while e > 0 && url.get_char(e - 1) == '/'
        invariant
            0 <= e <= n,
            n == url@.len(),
            trim_trailing_slashes(url@) == trim_trailing_slashes(url@.subrange(0, e as int)),
        decreases e,
    {
        proof {
            assert(url@.subrange(0, e as int).drop_last() =~= url@.subrange(0, e - 1));
        }
        e -= 1;
    }
    proof {
        assert(trim_trailing_slashes(url@.subrange(0, e as int)) == url@.subrange(0, e as int));
    }
    let ghost slashless = url@.subrange(0, e as int);
    while e >= 4 && url.get_char(e - 4) == '.' && url.get_char(e - 3) == 'g' && url.get_char(
        e - 2,
    ) == 'i' && url.get_char(e - 1) == 't'
        invariant
            0 <= e <= n,
            n == url@.len(),
            trim_trailing_git(slashless) == trim_trailing_git(url@.subrange(0, e as int)),
        decreases e,
    {
        proof {
            assert(url@.subrange(0, e as int).subrange(0, e - 4) =~= url@.subrange(0, e - 4));
        }
        e -= 4;
    }
    proof {
        assert(!ends_with_git(url@.subrange(0, e as int)));
        assert(trim_trailing_git(url@.subrange(0, e as int)) == url@.subrange(0, e as int));
    }
    let ghost cleaned = url@.subrange(0, e as int);
    let mut k: usize = e;
    while k > 0 && url.get_char(k - 1) != '/' && url.get_char(k - 1) != ':'
        invariant
            0 <= k <= e,
            e <= n,
            n == url@.len(),
            forall|i: int| k <= i < e ==> !is_sep(url@[i]),
        decreases k,
    {
        k -= 1;
    }
    proof {
        assert(forall|i: int| k <= i < e ==> !is_sep(cleaned[i]));
        lemma_last_segment_tail(cleaned, k as int);
    }
    if k < e {
        let seg = url.substring_char(k, e);
        proof {
            assert(seg@ =~= cleaned.subrange(k as int, e as int));
        }
        seg.to_owned()
    } else {
        proof {
            assert(last_segment(cleaned) =~= cleaned.subrange(k as int, e as int));
            assert(last_segment(cleaned).len() == 0);
        }
        String::from_str("cloned-repo")
    }
}

/// A requested name matches an on-disk entry name when they are equal
/// outright or when the entry name carries a date prefix and the part
/// after it is the requested name.
pub open spec fn name_matches_spec(entry_name: Seq<char>, wanted: Seq<char>) -> bool {
    ||| entry_name == wanted
    ||| (has_date_prefix(entry_name) && entry_name.subrange(11, entry_name.len() as int) == wanted)
}

pub fn name_matches(entry_name: &str, wanted: &str) -> (r: bool)
    ensures
        r == name_matches_spec(entry_name@, wanted@),
{
    if str_eq(entry_name, wanted) {
        return true;
    }
    match extract_prefix_date(entry_name) {
        Some(p) => str_eq(p.1.as_str(), wanted),
        None => false,
    }
}

/// Expands a leading `~/` to the home directory. A path without that
/// prefix — a lone `~` included — comes back unchanged, as does any path
/// when the environment defines no home directory.
pub fn expand_path(path_str: &str) -> (r: String)
    ensures
        !seq_starts_with(path_str@, "~/"@) ==> r@ == path_str@,
        seq_starts_with(path_str@, "~/"@) ==> (r@ == path_str@ || exists|home: Seq<char>|
            r@ == #[trigger] (home + seq!['/'] + path_str@.subrange(2, path_str@.len() as int))),
{
    if str_starts_with(path_str, "~/") {
        match os_home_dir() {
            Some(home) => {
                let ghost home_view = home@;
                proof {
                    reveal_strlit("/");
                    reveal_strlit("~/");
                    assert("/"@ =~= seq!['/']);
                    assert(path_str@.len() >= 2);
                }
                let rest = path_str.substring_char(2, path_str.unicode_len());
                let r = home.concat("/").concat(rest);
                proof {
                    assert(r@ == home_view + seq!['/'] + path_str@.subrange(
                        2,
                        path_str@.len() as int,
                    ));
                }
                r
            },
            None => String::from_str(path_str),
        }
    } else {
        String::from_str(path_str)
    }
}

/// The folder name for a newly created entry: the current date is put in
/// front exactly when the caller asks for a date prefix and the name does
/// not already start with that date.
pub fn prefixed_folder_name(name: &str, today: &str, apply_date_prefix: bool) -> (r: String)
    ensures
        r@ == if apply_date_prefix && !seq_starts_with(name@, today@) {
            today@ + seq![' '] + name@
        } else {
            name@
        },
{
    if apply_date_prefix && !str_starts_with(name, today) {
        proof {
            reveal_strlit(" ");
            assert(" "@ =~= seq![' ']);
        }
        let r = String::from_str(today).concat(" ").concat(name);
        r
    } else {
        String::from_str(name)
    }
}

} // verus!
