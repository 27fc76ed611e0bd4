//! The checkpoint: for each file identity, the path it was last seen under
//! and the offset up to which it has been consumed.

use std::collections::HashMap;
use vstd::std_specs::iter::IteratorSpec;
use vstd::prelude::*;

verus! {

broadcast use vstd::std_specs::hash::group_hash_axioms;

/// A stable identity of a file: its inode number.
pub type Inode = u64;

/// What is remembered of one file.
#[derive(Clone, Debug, PartialEq, Eq)]
pub struct FileState {
    pub path: String,
    pub inode: u64,
    pub offset: u64,
}

impl FileState {
    /// An independent copy with the same value.
    pub fn duplicate(&self) -> (r: FileState)
        ensures
            r == *self,
    {
        FileState { path: self.path.clone(), inode: self.inode, offset: self.offset }
    }
}

/// What the removal of a path turns out to be.
#[derive(Clone, Copy, Debug, PartialEq, Eq, Structural)]
pub enum RemovalAction {
    /// The path was not known: nothing to do.
    Ignore,
    /// The path still holds the known file: nothing to do.
    StillValid,
    /// The path holds another file now: follow that one from offset zero.
    Rotated { new_inode: u64 },
    /// The path is gone from disk: forget the file.
    Deleted,
}

/// Decides what a removal notice for a path means, from the identity that
/// is known under the path, if any, and the identity found on disk, if any.
pub fn handle_file_removal(known: Option<u64>, on_disk: Option<u64>) -> (a: RemovalAction)
    ensures
        a == match known {
            None => RemovalAction::Ignore,
            Some(t) => match on_disk {
                None => RemovalAction::Deleted,
                Some(d) => if d == t {
                    RemovalAction::StillValid
                } else {
                    RemovalAction::Rotated { new_inode: d }
                },
            },
        },
{
    match known {
        None => RemovalAction::Ignore,
        Some(t) => match on_disk {
            None => RemovalAction::Deleted,
            Some(d) => if d == t {
                RemovalAction::StillValid
            } else {
                RemovalAction::Rotated { new_inode: d }
            },
        },
    }
}

/// The offset saved for an identity, or zero where none is saved.
pub open spec fn offset_in(files: Map<u64, FileState>, inode: u64) -> u64 {
    if files.contains_key(inode) {
        files[inode].offset
    } else {
        0
    }
}

/// The saved states after an offset was recorded for an identity: the new
/// state replaces the old one unless its offset lies below the saved one,
/// in which case nothing changes.
pub open spec fn advanced(
    files: Map<u64, FileState>,
    inode: u64,
    path: String,
    offset: u64,
) -> Map<u64, FileState> {
    if offset >= offset_in(files, inode) {
        files.insert(inode, FileState { path, inode, offset })
    } else {
        files
    }
}

/// Whether a path is saved under an identity other than the given one: the
/// path was given to another file since its state was saved.
pub open spec fn known_elsewhere(files: Map<u64, FileState>, path: Seq<char>, inode: u64) -> bool {
    exists|k: u64| #[trigger] files.contains_key(k) && k != inode && files[k].path@ == path
}

/// The mapping from file identity to file state.
#[derive(Debug)]
pub struct Checkpoint {
    pub files: HashMap<u64, FileState>,
}

impl Checkpoint {
    /// Every state is filed under its own identity.
    pub open spec fn wf(&self) -> bool {
        forall|k: u64| #[trigger] self.files@.contains_key(k) ==> self.files@[k].inode == k
    }

    /// A checkpoint that knows no file.
    pub fn new() -> (c: Checkpoint)
        ensures
            c.wf(),
            c.files@ == Map::<u64, FileState>::empty(),
    {
        Checkpoint { files: HashMap::new() }
    }

    /// Whether a state is saved for the identity.
    pub fn contains(&self, inode: u64) -> (r: bool)
        ensures
            r == self.files@.contains_key(inode),
    {
        self.files.contains_key(&inode)
    }

    /// The offset from which a file is read on: the one saved for its
    /// identity, or zero for a file that is not known.
    pub fn saved_offset(&self, inode: u64) -> (offset: u64)
        ensures
            offset == offset_in(self.files@, inode),
    {
        match self.files.get(&inode) {
            Some(state) => state.offset,
            None => 0,
        }
    }

    /// Whether the path is saved under an identity other than the given one.
    pub fn path_known_elsewhere(&self, path: &str, inode: u64) -> (r: bool)
        ensures
            r == known_elsewhere(self.files@, path@, inode),
    {
        let mut found = false;
        let ghost keys = self.files.keys().remaining().unref();
        proof {
            vstd::std_specs::hash::axiom_spec_keys_iter(&self.files);
        }
        for k in it: self.files.keys()
            invariant
                it.seq().unref() == keys,
                keys.to_set() == self.files@.dom(),
                found == exists|j: int|
                    0 <= j < it.index() && #[trigger] keys[j] != inode
                        && self.files@[keys[j]].path@ == path@,
        {
            let ghost at = it.index() as int;
            assert(keys[at] == *k);
            assert(keys.to_set().contains(keys[at]));
            let other = *k;
            let here = match self.files.get(&other) {
                Some(state) => other != inode && crate::config::text_eq(state.path.as_str(), path),
                None => false,
            };
            if here {
                assert(keys[at] != inode && self.files@[keys[at]].path@ == path@);
                found = true;
            }
        }
        proof {
            if found {
                let j = choose|j: int|
                    0 <= j < keys.len() && #[trigger] keys[j] != inode
                        && self.files@[keys[j]].path@ == path@;
                assert(keys.to_set().contains(keys[j]));
                assert(self.files@.contains_key(keys[j]));
            }
            if known_elsewhere(self.files@, path@, inode) {
                let k = choose|k: u64| #[trigger]
                    self.files@.contains_key(k) && k != inode && self.files@[k].path@ == path@;
                assert(keys.to_set().contains(k));
                let j = choose|j: int| 0 <= j < keys.len() && keys[j] == k;
                assert(keys[j] != inode && self.files@[keys[j]].path@ == path@);
            }
        }
        found
    }

    /// Records that a file has been consumed up to `offset`. The offset of
    /// an identity never moves back: a smaller offset than the saved one is
    /// refused and changes nothing. Returns whether the state was saved.
    pub fn advance(&mut self, inode: u64, path: String, offset: u64) -> (saved: bool)
        requires
            old(self).wf(),
        ensures
            final(self).wf(),
            saved == (offset >= offset_in(old(self).files@, inode)),
            final(self).files@ == advanced(old(self).files@, inode, path, offset),
            offset_in(final(self).files@, inode) >= offset_in(old(self).files@, inode),
    {
        let current = self.saved_offset(inode);
        if offset >= current {
            let _previous = self.files.insert(inode, FileState { path, inode, offset });
            true
        } else {
            false
        }
    }

    /// Starts a file over at offset zero under the given path, as after a
    /// truncation or a replacement in place.
    pub fn reset(&mut self, inode: u64, path: String)
        requires
            old(self).wf(),
        ensures
            final(self).wf(),
            final(self).files@ == old(self).files@.insert(
                inode,
                FileState { path, inode, offset: 0 },
            ),
    {
        let _previous = self.files.insert(inode, FileState { path, inode, offset: 0 });
    }

    /// Forgets a file. Returns its state, if it was known.
    pub fn remove(&mut self, inode: u64) -> (state: Option<FileState>)
        requires
            old(self).wf(),
        ensures
            final(self).wf(),
            final(self).files@ == old(self).files@.remove(inode),
            state == if old(self).files@.contains_key(inode) {
                Some(old(self).files@[inode])
            } else {
                None
            },
    {
        self.files.remove(&inode)
    }
}

/// Offsets only grow: recording an offset leaves the saved offset of every
/// identity at least where it was, and the identity of every saved state
/// stays its key.
pub proof fn lemma_advance_is_monotonic(
    files: Map<u64, FileState>,
    inode: u64,
    path: String,
    offset: u64,
)
    ensures
        forall|other: u64|
            offset_in(#[trigger] advanced(files, inode, path, offset), other) >= offset_in(
                files,
                other,
            ),
        offset_in(advanced(files, inode, path, offset), inode) == if offset >= offset_in(
            files,
            inode,
        ) {
            offset
        } else {
            offset_in(files, inode)
        },
{
    let after = advanced(files, inode, path, offset);
    assert forall|other: u64| offset_in(after, other) >= offset_in(files, other) by {
        if other == inode {
        } else {
            if offset >= offset_in(files, inode) {
                assert(after.contains_key(other) == files.contains_key(other));
            }
        }
    }
}

} // verus!
