//! Copying a bundle's directory tree with an explicit worklist rather than
//! recursion, refusing symbolic links so that nothing outside the source
//! tree is reached. The caller lists directories and copies files; the
//! worklist decides what to do with each entry.

use vstd::prelude::*;
use crate::effects::child;
use crate::error::{Fault, StoreError};
use crate::path_guard::{is_safe_name, is_safe_segment};
use crate::text::join3;

verus! {

/// What a directory entry is, without following links.
#[derive(PartialEq, Eq, Structural, Clone, Copy, Debug)]
pub enum EntryKind {
    File,
    Dir,
    Symlink,
}

/// One copy operation, by path relative to the roots of the source and
/// target trees.
#[derive(Debug)]
pub enum CopyOp {
    /// Make the directory in the target.
    MakeDir(String),
    /// Copy the file from the source to the target.
    CopyFile(String),
}

/// The relative path of entry `name` inside the relative directory `dir`
/// (the empty path is the root).
pub open spec fn rel_child(dir: Seq<char>, name: Seq<char>) -> Seq<char> {
    if dir.len() == 0 {
        name
    } else {
        child(dir, name)
    }
}

/// The relative paths of the subdirectories among `entries` of the
/// directory `dir`, in order.
pub open spec fn subdirs(dir: Seq<char>, entries: Seq<(String, EntryKind)>) -> Seq<Seq<char>>
    decreases entries.len(),
{
    if entries.len() == 0 {
        Seq::empty()
    } else {
        let rest = subdirs(dir, entries.drop_last());
        if entries.last().1 == EntryKind::Dir {
            rest.push(rel_child(dir, entries.last().0@))
        } else {
            rest
        }
    }
}

/// The directories still to be listed and copied.
#[derive(Debug)]
pub struct CopyWorklist {
    pending: Vec<String>,
}

impl CopyWorklist {
    /// The relative paths of the directories still to be listed.
    pub closed spec fn pending(&self) -> Seq<Seq<char>> {
        self.pending@.map_values(|p: String| p@)
    }

    /// A worklist holding the root of the tree.
    pub fn new() -> (r: CopyWorklist)
        ensures
            r.pending() == seq![Seq::<char>::empty()],
    {
        let mut pending: Vec<String> = Vec::new();
        pending.push(String::new());
        let r = CopyWorklist { pending };
        assert(r.pending() =~= seq![Seq::<char>::empty()]);
        r
    }

    /// The next directory to list, taken off the worklist; `None` when the
    /// copy is complete.
    pub fn next_dir(&mut self) -> (r: Option<String>)
        ensures
            old(self).pending().len() == 0 ==> r is None && final(self).pending() == old(self).pending(),
            old(self).pending().len() > 0 ==> (r matches Some(d) && d@ == old(self).pending().last()
                && final(self).pending() == old(self).pending().drop_last()),
    {
        let r = self.pending.pop();
        proof {
            assert(self.pending() =~= old(self).pending().drop_last() || old(self).pending().len() == 0);
        }
        r
    }

    /// The operations for the entries of the listed directory `dir`, in
    /// order: each subdirectory is made and put on the worklist, each file
    /// copied. A symbolic link, or an entry name that is not a plain path
    /// segment, refuses the copy with `InvalidPath`, adding nothing.
    pub fn visit(&mut self, dir: &str, entries: &Vec<(String, EntryKind)>) -> (r: Result<Vec<CopyOp>, StoreError>)
        ensures
            match r {
                Ok(ops) => {
                    &&& forall|i: int| 0 <= i < entries@.len() ==> (#[trigger] entries@[i]).1 != EntryKind::Symlink
                        && is_safe_segment(entries@[i].0@)
                    &&& ops@.len() == entries@.len()
                    &&& forall|i: int| 0 <= i < ops@.len() ==> match (#[trigger] ops@[i]) {
                        CopyOp::MakeDir(p) => entries@[i].1 == EntryKind::Dir && p@ == rel_child(dir@, entries@[i].0@),
                        CopyOp::CopyFile(p) => entries@[i].1 == EntryKind::File && p@ == rel_child(dir@, entries@[i].0@),
                    }
                    &&& final(self).pending() == old(self).pending() + subdirs(dir@, entries@)
                },
                Err(e) => {
                    &&& e@ == Fault::InvalidPath
                    &&& exists|i: int| 0 <= i < entries@.len() && ((#[trigger] entries@[i]).1 == EntryKind::Symlink
                        || !is_safe_segment(entries@[i].0@))
                    &&& final(self).pending() == old(self).pending()
                },
            },
    {
        let n = entries.len();
        let mut i: usize = 0;
        while i < n
            invariant
                n == entries@.len(),
                i <= n,
                forall|j: int| 0 <= j < i ==> (#[trigger] entries@[j]).1 != EntryKind::Symlink
                    && is_safe_segment(entries@[j].0@),
            decreases n - i,
        {
            if entries[i].1 == EntryKind::Symlink || !is_safe_name(entries[i].0.as_str()) {
                proof {
                    assert(entries@[i as int].1 == EntryKind::Symlink || !is_safe_segment(entries@[i as int].0@));
                }
                return Err(StoreError::InvalidPath);
            }
            i = i + 1;
        }
        let ghost start = self.pending();
        let mut ops: Vec<CopyOp> = Vec::new();
        assert(start + subdirs(dir@, entries@.subrange(0, 0)) =~= start);
        let mut k: usize = 0;
        while k < n
            invariant
                n == entries@.len(),
                k <= n,
                forall|j: int| 0 <= j < n ==> (#[trigger] entries@[j]).1 != EntryKind::Symlink,
                ops@.len() == k,
                forall|j: int| 0 <= j < k ==> match (#[trigger] ops@[j]) {
                    CopyOp::MakeDir(p) => entries@[j].1 == EntryKind::Dir && p@ == rel_child(dir@, entries@[j].0@),
                    CopyOp::CopyFile(p) => entries@[j].1 == EntryKind::File && p@ == rel_child(dir@, entries@[j].0@),
                },
                self.pending() == start + subdirs(dir@, entries@.subrange(0, k as int)),
            decreases n - k,
        {
            let name = entries[k].0.as_str();
            let path = if dir.unicode_len() == 0 {
                String::from_str(name)
            } else {
                join3(dir, "/", name)
            };
            let ghost before = self.pending();
            proof {
                assert(entries@.subrange(0, k + 1).drop_last() =~= entries@.subrange(0, k as int));
                assert(entries@.subrange(0, k + 1).last() == entries@[k as int]);
            }
            if entries[k].1 == EntryKind::Dir {
                self.pending.push(path.clone());
                proof {
                    assert(self.pending() =~= before.push(path@));
                    assert(self.pending() =~= start + subdirs(dir@, entries@.subrange(0, k + 1)));
                }
                ops.push(CopyOp::MakeDir(path));
            } else {
                proof {
                    assert(self.pending() =~= start + subdirs(dir@, entries@.subrange(0, k + 1)));
                }
                ops.push(CopyOp::CopyFile(path));
            }
            k = k + 1;
        }
        assert(entries@.subrange(0, n as int) =~= entries@);
        Ok(ops)
    }
}

} // verus!
