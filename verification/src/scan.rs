//! Reading what a `.git` back-reference file says: a worktree's `.git` is
//! a regular file whose first line names the real git directory after the
//! first space. Parsing those bytes is pure; only the two existence
//! probes touch the disk.

use vstd::prelude::*;

use crate::trusted::{lossy_utf8, path_is_file, utf8_lossy};

verus! {

/// Everything after the first space, or nothing when there is no space.
pub open spec fn after_first_space(b: Seq<u8>) -> Seq<u8>
    decreases b.len(),
{
    if b.len() == 0 {
        b
    } else if b[0] == 32 {
        b.drop_first()
    } else {
        after_first_space(b.drop_first())
    }
}

/// Length of the prefix before the first newline byte.
pub open spec fn newline_len(b: Seq<u8>) -> int
    decreases b.len(),
{
    if b.len() == 0 {
        0
    } else if b[0] == 10 {
        0
    } else {
        1 + newline_len(b.drop_first())
    }
}

/// The prefix before the first newline byte.
pub open spec fn before_newline(b: Seq<u8>) -> Seq<u8> {
    b.subrange(0, newline_len(b))
}

/// The target bytes of a `.git` back-reference: after the first space,
/// up to the first newline.
pub open spec fn first_line_bytes(b: Seq<u8>) -> Seq<u8> {
    before_newline(after_first_space(b))
}

proof fn lemma_after_space(b: Seq<u8>, i: int)
    requires
        0 <= i <= b.len(),
        forall|k: int| 0 <= k < i ==> b[k] != 32,
        i < b.len() ==> b[i] == 32,
    ensures
        after_first_space(b) == if i < b.len() {
            b.subrange(i + 1, b.len() as int)
        } else {
            Seq::<u8>::empty()
        },
    decreases b.len(),
{
    if b.len() == 0 {
        assert(after_first_space(b) =~= Seq::<u8>::empty());
    } else if i == 0 {
        if b[0] == 32 {
            assert(b.drop_first() =~= b.subrange(1, b.len() as int));
        } else {
            assert(i < b.len() ==> b[i] == 32);
            assert(false);
        }
    } else {
        assert(b[0] != 32);
        lemma_after_space(b.drop_first(), i - 1);
        if i < b.len() {
            assert(b.drop_first().subrange(i, b.len() - 1) =~= b.subrange(i + 1, b.len() as int));
        }
    }
}

proof fn lemma_newline_len(b: Seq<u8>, i: int)
    requires
        0 <= i <= b.len(),
        forall|k: int| 0 <= k < i ==> b[k] != 10,
        i < b.len() ==> b[i] == 10,
    ensures
        newline_len(b) == i,
    decreases b.len(),
{
    if i == 0 {
    } else {
        assert(b[0] != 10);
        lemma_newline_len(b.drop_first(), i - 1);
    }
}

/// Pulls the back-reference target out of the bytes of a worktree's
/// `.git` file: the text after the first space on its first line. Bytes
/// that are not valid UTF-8 go through the replacement decoding; plain
/// ASCII comes back unchanged.
pub fn first_line(bytes: &[u8]) -> (r: String)
    ensures
        r@ == lossy_utf8(first_line_bytes(bytes@)),
        (forall|k: int|
            0 <= k < first_line_bytes(bytes@).len() ==> first_line_bytes(bytes@)[k] < 128)
            ==> r@ == first_line_bytes(bytes@).map_values(|b: u8| b as char),
{
    let n = bytes.len();
    let mut i: usize = 0;
    while i < n && bytes[i] != 32
        invariant
            0 <= i <= n,
            n == bytes@.len(),
            forall|k: int| 0 <= k < i ==> bytes@[k] != 32,
        decreases n - i,
    {
        i += 1;
    }
    proof {
        lemma_after_space(bytes@, i as int);
    }
    let ghost target = after_first_space(bytes@);
    let mut out: Vec<u8> = Vec::new();
    if i < n {
        let start = i + 1;
        let mut j: usize = start;
        while j < n && bytes[j] != 10
            invariant
                start == i + 1,
                start <= j <= n,
                n == bytes@.len(),
                target == bytes@.subrange(start as int, n as int),
                out@ == bytes@.subrange(start as int, j as int),
                forall|k: int| start <= k < j ==> bytes@[k] != 10,
            decreases n - j,
        {
            out.push(bytes[j]);
            proof {
                assert(bytes@.subrange(start as int, j + 1) =~= bytes@.subrange(
                    start as int,
                    j as int,
                ).push(bytes@[j as int]));
            }
            j += 1;
        }
        proof {
            assert(forall|k: int| 0 <= k < j - start ==> target[k] != 10);
            assert((j as int) - (start as int) < target.len() ==> target[(j as int) - (start as int)]
                == 10);
            lemma_newline_len(target, (j as int) - (start as int));
            assert(out@ =~= before_newline(target));
        }
    } else {
        proof {
            assert(out@ =~= before_newline(target));
        }
    }
    utf8_lossy(&out)
}

/// Whether the path is a git worktree linked to a primary checkout
/// elsewhere: its `.git` is a regular file (holding a back-reference)
/// rather than a directory.
pub fn is_git_worktree(path: &str) -> (r: bool) {
    let dot_git = String::from_str(path).concat("/.git");
    path_is_file(dot_git.as_str())
}

} // verus!
