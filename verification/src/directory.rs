//! The directory-size model: a tree of regular files with known byte
//! lengths, the recursive walk that sums them, and the report that pairs
//! a path with its total.

use vstd::prelude::*;
use vstd::string::StringExecFns;
use crate::format::{format_size, spec_gb_string};

verus! {

/// A directory tree as the walker sees it: a regular file with its byte
/// length, or a directory with its immediate entries.
pub enum FsTree {
    File(u64),
    Dir(Vec<FsTree>),
}

/// The exact sum of every regular-file byte length in the tree,
/// whatever its nesting depth.
pub open spec fn total(t: FsTree) -> nat
    decreases t,
{
    match t {
        FsTree::File(len) => len as nat,
        FsTree::Dir(entries) => total_seq(entries@),
    }
}

/// The exact sum of the totals of a sequence of trees.
pub open spec fn total_seq(s: Seq<FsTree>) -> nat
    decreases s,
{
    if s.len() == 0 {
        0
    } else {
        total(s[0]) + total_seq(s.drop_first())
    }
}

proof fn lemma_total_seq_skip(s: Seq<FsTree>, i: int)
    requires
        0 <= i < s.len(),
    ensures
        total_seq(s.skip(i)) == total(s[i]) + total_seq(s.skip(i + 1)),
{
    assert(s.skip(i).drop_first() =~= s.skip(i + 1));
    assert(s.skip(i)[0] == s[i]);
}

/// Recursively sums the file sizes under the tree: the total of every
/// regular file, or nothing where that sum does not fit in a machine
/// word.
pub fn total_size(t: &FsTree) -> (r: Option<u64>)
    ensures
        r is Some <==> total(*t) <= u64::MAX,
        r matches Some(n) ==> n as nat == total(*t),
    decreases *t,
{
    match t {
        FsTree::File(len) => Some(*len),
        FsTree::Dir(entries) => {
            let mut acc: u64 = 0;
            let mut i: usize = 0;
            proof {
                assert(entries@.skip(0) =~= entries@);
            }
            while i < entries.len()
                invariant
                    *t == FsTree::Dir(*entries),
                    0 <= i <= entries.len(),
                    acc as nat + total_seq(entries@.skip(i as int)) == total_seq(entries@),
                decreases entries.len() - i,
            {
                proof {
                    lemma_total_seq_skip(entries@, i as int);
                    assert(decreases_to!(*t => t->Dir_0));
                    assert(t->Dir_0 == *entries);
                    assert(decreases_to!(*entries => entries@));
                    assert(decreases_to!(entries@ => entries@[i as int]));
                    assert(decreases_to!(*t => entries@[i as int]));
                }
                let sub = total_size(&entries[i]);
                match sub {
                    None => {
                        proof {
                            assert(total(*t) == total_seq(entries@));
                            assert(total_seq(entries@) >= total(entries@[i as int]));
                        }
                        return None;
                    },
                    Some(n) => {
                        match acc.checked_add(n) {
                            None => {
                                proof {
                                    assert(total(*t) == total_seq(entries@));
                                    assert(total_seq(entries@) >= acc + n);
                                }
                                return None;
                            },
                            Some(next) => {
                                acc = next;
                            },
                        }
                    },
                }
                i = i + 1;
            }
            proof {
                assert(entries@.skip(i as int) =~= Seq::<FsTree>::empty());
            }
            Some(acc)
        },
    }
}

/// A resolved directory path with its computed size in bytes.
pub struct Directory {
    pub path: String,
    pub size_bytes: u64,
}

impl Directory {
    /// Pairs a path with the total size of the tree under it.
    pub fn new(path: String, tree: &FsTree) -> (r: Self)
        requires
            total(*tree) <= u64::MAX,
        ensures
            r.path@ == path@,
            r.size_bytes as nat == total(*tree),
    {
        let size_bytes = match total_size(tree) {
            Some(n) => n,
            None => vstd::pervasive::unreached(),
        };
        Directory { path, size_bytes }
    }

    /// The report line for this directory: its path and its size in
    /// gigabytes with two fractional digits.
    pub fn report_line(&self) -> (r: String)
        ensures
            r@ == self.path@ + ", "@ + spec_gb_string(self.size_bytes as nat) + " GB"@,
    {
        let mut r = self.path.clone();
        r.append(", ");
        let size = format_size(self.size_bytes);
        r.append(size.as_str());
        r.append(" GB");
        r
    }
}

} // verus!
