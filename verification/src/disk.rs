use vstd::prelude::*;
use crate::paths::str_eq;

verus! {

// ---------------------------------------------------------------------------
// The filesystem, as the creation protocols see it: a set of directory
// paths and a set of files, each file a path with its content.
//
// Directory creation and byte writes never fail here, so the model
// exercises every decision of the protocols except infrastructure
// faults; those are reported by the process that performs the real
// filesystem calls.
// ---------------------------------------------------------------------------

/// A directory tree: the directories that exist, and the files that
/// exist together with their contents.
pub struct Disk {
    dirs: Vec<String>,
    files: Vec<(String, Vec<u8>)>,
}

impl Disk {
    /// True when a directory exists at `p`.
    pub closed spec fn has_dir(self, p: Seq<char>) -> bool {
        exists|i: int| 0 <= i < self.dirs@.len() && self.dirs@[i]@ == p
    }

    /// True when a file exists at `p`.
    pub closed spec fn has_file(self, p: Seq<char>) -> bool {
        exists|i: int| 0 <= i < self.files@.len() && self.files@[i].0@ == p
    }

    /// True when anything (directory or file) exists at `p`.
    pub open spec fn has_path(self, p: Seq<char>) -> bool {
        self.has_dir(p) || self.has_file(p)
    }

    /// The content of the file at `p` (meaningful only when
    /// `has_file(p)` holds).
    pub closed spec fn file_content(self, p: Seq<char>) -> Seq<u8> {
        self.files@[choose|i: int| 0 <= i < self.files@.len() && self.files@[i].0@ == p].1@
    }

    /// File paths are unique: at most one file per path.
    pub closed spec fn wf(self) -> bool {
        forall|i: int, j: int| #![trigger self.files@[i], self.files@[j]]
            0 <= i < j < self.files@.len() ==> self.files@[i].0@ != self.files@[j].0@
    }

    /// An empty tree: no directories, no files.
    pub fn new() -> (r: Disk)
        ensures
            r.wf(),
            forall|p: Seq<char>| !r.has_path(p),
            forall|p: Seq<char>| !r.has_dir(p) && !r.has_file(p),
    {
        Disk { dirs: Vec::new(), files: Vec::new() }
    }

    /// True when anything exists at path `p`.
    pub fn path_exists(&self, p: &str) -> (r: bool)
        ensures
            r == self.has_path(p@),
    {
        let mut i: usize = 0;
        while i < self.dirs.len()
            invariant
                i <= self.dirs@.len(),
                forall|k: int| 0 <= k < i ==> self.dirs@[k]@ != p@,
            decreases self.dirs@.len() - i,
        {
            if str_eq(self.dirs[i].as_str(), p) {
                return true;
            }
            i += 1;
        }
        let mut j: usize = 0;
        while j < self.files.len()
            invariant
                j <= self.files@.len(),
                forall|k: int| 0 <= k < j ==> self.files@[k].0@ != p@,
            decreases self.files@.len() - j,
        {
            if str_eq(self.files[j].0.as_str(), p) {
                return true;
            }
            j += 1;
        }
        false
    }

    /// Creates the directory at `p`; succeeds whether or not it already
    /// exists, and touches nothing else.
    pub fn create_dir_all(&mut self, p: &str)
        requires
            old(self).wf(),
        ensures
            final(self).wf(),
            forall|q: Seq<char>| final(self).has_dir(q) <==> old(self).has_dir(q) || q == p@,
            forall|q: Seq<char>| final(self).has_file(q) == old(self).has_file(q),
            forall|q: Seq<char>|
                final(self).has_file(q) ==> final(self).file_content(q) == old(self).file_content(
                    q,
                ),
    {
        let ghost pre = *old(self);
        self.dirs.push(p.to_owned());
        proof {
            assert(self.files@ == pre.files@);
            assert forall|q: Seq<char>| final(self).has_dir(q) implies pre.has_dir(q) || q
                == p@ by {
                let i = choose|i: int| 0 <= i < self.dirs@.len() && self.dirs@[i]@ == q;
                if i < pre.dirs@.len() {
                    assert(pre.dirs@[i]@ == q);
                }
            }
            assert forall|q: Seq<char>| pre.has_dir(q) || q == p@ implies final(self).has_dir(
                q,
            ) by {
                if pre.has_dir(q) {
                    let i = choose|i: int| 0 <= i < pre.dirs@.len() && pre.dirs@[i]@ == q;
                    assert(self.dirs@[i]@ == q);
                } else {
                    assert(self.dirs@[pre.dirs@.len() as int]@ == q);
                }
            }
        }
    }

    /// Writes `data` as a new file at `p`.
    pub fn write(&mut self, p: &str, data: Vec<u8>)
        requires
            old(self).wf(),
            !old(self).has_file(p@),
        ensures
            final(self).wf(),
            forall|q: Seq<char>| final(self).has_file(q) <==> old(self).has_file(q) || q == p@,
            forall|q: Seq<char>| final(self).has_dir(q) == old(self).has_dir(q),
            final(self).file_content(p@) == data@,
            forall|q: Seq<char>|
                old(self).has_file(q) ==> final(self).file_content(q) == old(self).file_content(q),
    {
        let ghost pre = *old(self);
        let ghost n = self.files@.len() as int;
        self.files.push((p.to_owned(), data));
        proof {
            assert(self.dirs@ == pre.dirs@);
            assert forall|q: Seq<char>| final(self).has_file(q) implies pre.has_file(q) || q
                == p@ by {
                let i = choose|i: int| 0 <= i < self.files@.len() && self.files@[i].0@ == q;
                if i < pre.files@.len() {
                    assert(pre.files@[i].0@ == q);
                }
            }
            assert forall|q: Seq<char>| pre.has_file(q) || q == p@ implies final(self).has_file(
                q,
            ) by {
                if pre.has_file(q) {
                    let i = choose|i: int| 0 <= i < pre.files@.len() && pre.files@[i].0@ == q;
                    assert(self.files@[i].0@ == q);
                } else {
                    assert(self.files@[n].0@ == q);
                }
            }
            assert(self.files@[n].0@ == p@);
            assert forall|q: Seq<char>| pre.has_file(q) implies final(self).file_content(q)
                == pre.file_content(q) by {
                let i = choose|i: int| 0 <= i < pre.files@.len() && pre.files@[i].0@ == q;
                let j = choose|j: int| 0 <= j < self.files@.len() && self.files@[j].0@ == q;
                assert(self.files@[i].0@ == q);
                assert(j < pre.files@.len());
                assert(pre.files@[j].0@ == q);
            }
            let j = choose|j: int| 0 <= j < self.files@.len() && self.files@[j].0@ == p@;
            assert(j == n) by {
                if j < n {
                    assert(pre.files@[j].0@ == p@);
                }
            }
        }
    }

    /// Reads the content of the file at `p`, if one exists.
    pub fn read_file(&self, p: &str) -> (r: Option<&Vec<u8>>)
        requires
            self.wf(),
        ensures
            match r {
                Some(data) => self.has_file(p@) && data@ == self.file_content(p@),
                None => !self.has_file(p@),
            },
    {
        let mut j: usize = 0;
        while j < self.files.len()
            invariant
                self.wf(),
                j <= self.files@.len(),
                forall|k: int| 0 <= k < j ==> self.files@[k].0@ != p@,
            decreases self.files@.len() - j,
        {
            if str_eq(self.files[j].0.as_str(), p) {
                proof {
                    let jj = j as int;
                    assert(self.files@[jj].0@ == p@);
                    assert(self.has_file(p@));
                    let i = choose|i: int|
                        0 <= i < self.files@.len() && self.files@[i].0@ == p@;
                    assert(0 <= i < self.files@.len() && self.files@[i].0@ == p@);
                    if i < jj {
                        assert(self.files@[i].0@ != p@);
                        assert(false);
                    } else if jj < i {
                        assert(self.files@[jj].0@ != self.files@[i].0@);
                        assert(false);
                    }
                    assert(i == jj);
                }
                return Some(&self.files[j].1);
            }
            j += 1;
        }
        None
    }
}

} // verus!
