//! The watcher's decisions: which files are accepted, which file-system
//! notices become which events, and which files a scan of the directory
//! discovers. Reading the directory and resolving identities is the caller's
//! part; what it found comes in as plain values.

use crate::checkpoint::{handle_file_removal, RemovalAction};
use crate::text::{after_last, chars_of, ends_with, has_suffix, position_after_last};
use std::collections::HashMap;
use vstd::prelude::*;
use vstd::std_specs::iter::IteratorSpec;

verus! {

broadcast use vstd::std_specs::hash::group_hash_axioms;

/// What the watcher tells the tailer manager.
#[derive(Clone, Debug, PartialEq, Eq)]
pub enum WatcherEvent {
    FileDiscovered { inode: u64, path: String },
    FileRotated { old_inode: u64, new_inode: u64, old_path: String, new_path: String },
    FileRemoved { inode: u64, path: String },
}

/// The kinds of file-system notice that the watcher tells apart.
#[derive(Clone, Copy, Debug, PartialEq, Eq, Structural)]
pub enum FsEventKind {
    /// A file was created.
    CreateFile,
    /// A file was renamed; the notice names the old path and the new one.
    RenameBoth,
    /// A file was removed.
    RemoveFile,
    /// Anything else, such as a change of content or attributes.
    Other,
}

/// A path as the caller found it: with the identity it resolved to, if it
/// could be resolved, and whether it is a regular file.
#[derive(Clone, Debug, PartialEq, Eq)]
pub struct FsPath {
    pub path: String,
    pub inode: Option<u64>,
    pub is_file: bool,
}

/// One file-system notice.
#[derive(Clone, Debug, PartialEq, Eq)]
pub struct FsEvent {
    pub kind: FsEventKind,
    pub paths: Vec<FsPath>,
}

/// The name of the file that a path leads to: what follows the last `/`.
pub open spec fn file_name(path: Seq<char>) -> Seq<char> {
    path.subrange(after_last(path, '/'), path.len() as int)
}

/// Whether a path is followed: it is a regular file, its file name does not
/// begin with a dot, and its extension is `log` or `txt`.
pub open spec fn accepted_file(path: Seq<char>, is_file: bool) -> bool {
    let name = file_name(path);
    &&& is_file
    &&& name.len() > 0
    &&& name[0] != '.'
    &&& (ends_with(name, ".log"@) || ends_with(name, ".txt"@))
}

/// Whether a path is followed. `is_file` says whether the path leads to a
/// regular file; a directory, a pipe, a socket or a device is never followed.
pub fn valid_file_format(path: &str, is_file: bool) -> (r: bool)
    ensures
        r == accepted_file(path@, is_file),
{
    if !is_file {
        return false;
    }
    let chars = chars_of(path);
    let start = position_after_last(&chars, '/');
    proof {
        crate::text::lemma_after_last(path@, '/');
    }
    let name = chars_of(path.substring_char(start, chars.len()));
    if name.len() == 0 {
        return false;
    }
    if name[0] == '.' {
        return false;
    }
    has_suffix(&name, ".log") || has_suffix(&name, ".txt")
}

/// The events that a notice stands for when every identity it needs was
/// resolved by the caller: a created file that is accepted is discovered; a
/// rename with both identities resolved is a rotation; a removed file whose
/// identity is known is removed. Everything else is dropped.
pub open spec fn event_of_path(kind: FsEventKind, p: FsPath) -> Option<WatcherEvent> {
    match (kind, p.inode) {
        (FsEventKind::CreateFile, Some(inode)) => if accepted_file(p.path@, p.is_file) {
            Some(WatcherEvent::FileDiscovered { inode, path: p.path })
        } else {
            None
        },
        (FsEventKind::RemoveFile, Some(inode)) => Some(
            WatcherEvent::FileRemoved { inode, path: p.path },
        ),
        _ => None,
    }
}

/// The events of the paths of a notice, one path after the other.
pub open spec fn events_of_paths(kind: FsEventKind, paths: Seq<FsPath>) -> Seq<WatcherEvent>
    decreases paths.len(),
{
    if paths.len() == 0 {
        Seq::empty()
    } else {
        let rest = events_of_paths(kind, paths.drop_last());
        match event_of_path(kind, paths.last()) {
            Some(e) => rest.push(e),
            None => rest,
        }
    }
}

/// The rotation that a rename notice stands for: it names exactly two paths,
/// the old and the new, and they resolved to two different identities. A
/// notice whose paths lead to one and the same file is no rotation.
pub open spec fn rotation_of(paths: Seq<FsPath>) -> Option<WatcherEvent> {
    if paths.len() == 2 && paths[0].inode.is_some() && paths[1].inode.is_some()
        && paths[0].inode.unwrap() != paths[1].inode.unwrap() {
        Some(
            WatcherEvent::FileRotated {
                old_inode: paths[0].inode.unwrap(),
                new_inode: paths[1].inode.unwrap(),
                old_path: paths[0].path,
                new_path: paths[1].path,
            },
        )
    } else {
        None
    }
}

/// The events that a notice stands for.
pub open spec fn events_of(event: FsEvent) -> Seq<WatcherEvent> {
    match event.kind {
        FsEventKind::RenameBoth => match rotation_of(event.paths@) {
            Some(e) => seq![e],
            None => Seq::empty(),
        },
        FsEventKind::Other => Seq::empty(),
        kind => events_of_paths(kind, event.paths@),
    }
}

fn translate_path(kind: FsEventKind, p: &FsPath) -> (e: Option<WatcherEvent>)
    ensures
        e == event_of_path(kind, *p),
{
    match (kind, p.inode) {
        (FsEventKind::CreateFile, Some(inode)) => if valid_file_format(p.path.as_str(), p.is_file) {
            Some(WatcherEvent::FileDiscovered { inode, path: p.path.clone() })
        } else {
            None
        },
        (FsEventKind::RemoveFile, Some(inode)) => Some(
            WatcherEvent::FileRemoved { inode, path: p.path.clone() },
        ),
        _ => None,
    }
}

/// Translates a file-system notice into watcher events, in the order of the
/// paths that the notice names.
pub fn translate_event(event: &FsEvent) -> (out: Vec<WatcherEvent>)
    ensures
        out@ == events_of(*event),
{
    let mut out: Vec<WatcherEvent> = Vec::new();
    match event.kind {
        FsEventKind::Other => {},
        FsEventKind::RenameBoth => {
            if event.paths.len() == 2 {
                let old = &event.paths[0];
                let new = &event.paths[1];
                match (old.inode, new.inode) {
                    (Some(old_inode), Some(new_inode)) => if old_inode != new_inode {
                        out.push(
                            WatcherEvent::FileRotated {
                                old_inode,
                                new_inode,
                                old_path: old.path.clone(),
                                new_path: new.path.clone(),
                            },
                        );
                    },
                    _ => {},
                }
            }
        },
        kind => {
            let n = event.paths.len();
            let mut i: usize = 0;
            while i < n
                invariant
                    i <= n == event.paths@.len(),
                    kind == event.kind,
                    out@ == events_of_paths(kind, event.paths@.subrange(0, i as int)),
                decreases n - i,
            {
                let ghost next = event.paths@.subrange(0, i + 1);
                assert(next.drop_last() =~= event.paths@.subrange(0, i as int));
                assert(next.last() == event.paths@[i as int]);
                match translate_path(kind, &event.paths[i]) {
                    Some(e) => {
                        out.push(e);
                    },
                    None => {},
                }
                i = i + 1;
            }
            assert(event.paths@.subrange(0, n as int) =~= event.paths@);
        },
    }
    out
}

/// Whether an identity is followed under a path.
pub open spec fn at_path(active: Map<u64, String>, path: Seq<char>, k: u64) -> bool {
    active.contains_key(k) && active[k]@ == path
}

/// Whether an identity is the least of those followed under a path.
pub open spec fn least_at_path(active: Map<u64, String>, path: Seq<char>, k: u64) -> bool {
    at_path(active, path, k) && forall|j: u64| at_path(active, path, j) ==> k <= j
}

/// The identity that is followed under a path, if there is one; the least
/// where there are several.
pub open spec fn inode_at_path(active: Map<u64, String>, path: Seq<char>) -> Option<u64> {
    if exists|k: u64| at_path(active, path, k) {
        Some(choose|k: u64| least_at_path(active, path, k))
    } else {
        None
    }
}

/// The followed files with one more, unless its identity is followed already.
pub open spec fn with_file(active: Map<u64, String>, inode: u64, path: String) -> Map<
    u64,
    String,
> {
    if active.contains_key(inode) {
        active
    } else {
        active.insert(inode, path)
    }
}

/// What one found path does to the followed files, and the event it raises.
///
/// A created or scanned file is discovered if it is accepted, its identity is
/// resolved and it is not followed yet. A removal notice for a path that is
/// followed is judged by what is on disk under the path: nothing means the
/// file is gone; the same identity means nothing happened; another identity
/// means the path was given to a new file, a rotation in place.
pub open spec fn step(kind: FsEventKind, active: Map<u64, String>, p: FsPath) -> (
    Map<u64, String>,
    Option<WatcherEvent>,
) {
    match kind {
        FsEventKind::CreateFile => match p.inode {
            Some(inode) => if accepted_file(p.path@, p.is_file) && !active.contains_key(inode) {
                (
                    active.insert(inode, p.path),
                    Some(WatcherEvent::FileDiscovered { inode, path: p.path }),
                )
            } else {
                (active, None)
            },
            None => (active, None),
        },
        FsEventKind::RemoveFile => match inode_at_path(active, p.path@) {
            None => (active, None),
            Some(known) => match p.inode {
                None => (
                    active.remove(known),
                    Some(WatcherEvent::FileRemoved { inode: known, path: p.path }),
                ),
                Some(found) => if found == known {
                    (active, None)
                } else {
                    (
                        with_file(active.remove(known), found, p.path),
                        Some(
                            WatcherEvent::FileRotated {
                                old_inode: known,
                                new_inode: found,
                                old_path: p.path,
                                new_path: p.path,
                            },
                        ),
                    )
                },
            },
        },
        _ => (active, None),
    }
}

/// The followed files after the paths were taken one after the other.
pub open spec fn active_after(kind: FsEventKind, active: Map<u64, String>, paths: Seq<FsPath>) -> Map<
    u64,
    String,
>
    decreases paths.len(),
{
    if paths.len() == 0 {
        active
    } else {
        step(kind, active_after(kind, active, paths.drop_last()), paths.last()).0
    }
}

/// The events raised while the paths were taken one after the other.
pub open spec fn raised(kind: FsEventKind, active: Map<u64, String>, paths: Seq<FsPath>) -> Seq<
    WatcherEvent,
>
    decreases paths.len(),
{
    if paths.len() == 0 {
        Seq::empty()
    } else {
        let before = raised(kind, active, paths.drop_last());
        match step(kind, active_after(kind, active, paths.drop_last()), paths.last()).1 {
            Some(e) => before.push(e),
            None => before,
        }
    }
}

/// Followed files after a rename notice: the old identity is followed no
/// longer and the new one is.
pub open spec fn active_after_rename(active: Map<u64, String>, paths: Seq<FsPath>) -> Map<
    u64,
    String,
> {
    match rotation_of(paths) {
        Some(_) => with_file(
            active.remove(paths[0].inode.unwrap()),
            paths[1].inode.unwrap(),
            paths[1].path,
        ),
        None => active,
    }
}

/// The least identity under a path is the one that `inode_at_path` names.
pub proof fn lemma_least_is_named(active: Map<u64, String>, path: Seq<char>, k: u64)
    requires
        least_at_path(active, path, k),
    ensures
        inode_at_path(active, path) == Some(k),
{
    assert(at_path(active, path, k));
    let c = choose|c: u64| least_at_path(active, path, c);
    assert(least_at_path(active, path, c));
    assert(c <= k && k <= c);
}

/// The watcher's record of the files that are followed: for each identity
/// the path under which it was found.
#[derive(Debug)]
pub struct Watcher {
    pub active: HashMap<u64, String>,
}

impl Watcher {
    /// A watcher that follows no file yet.
    pub fn new() -> (w: Watcher)
        ensures
            w.active@ == Map::<u64, String>::empty(),
    {
        Watcher { active: HashMap::new() }
    }

    /// Whether the identity is followed.
    pub fn is_followed(&self, inode: u64) -> (r: bool)
        ensures
            r == self.active@.contains_key(inode),
    {
        self.active.contains_key(&inode)
    }

    /// The identity that is followed under the path, if there is one; the
    /// least where there are several.
    pub fn find_path(&self, path: &str) -> (r: Option<u64>)
        ensures
            r == inode_at_path(self.active@, path@),
    {
        let mut best: Option<u64> = None;
        let ghost keys = self.active.keys().remaining().unref();
        proof {
            vstd::std_specs::hash::axiom_spec_keys_iter(&self.active);
        }
        for k in it: self.active.keys()
            invariant
                it.seq().unref() == keys,
                keys.to_set() == self.active@.dom(),
                match best {
                    Some(b) => at_path(self.active@, path@, b) && forall|j: int|
                        0 <= j < it.index() && at_path(self.active@, path@, #[trigger] keys[j])
                            ==> b <= keys[j],
                    None => forall|j: int|
                        0 <= j < it.index() ==> !at_path(self.active@, path@, #[trigger] keys[j]),
                },
        {
            let ghost at = it.index() as int;
            assert(keys[at] == *k);
            assert(keys.to_set().contains(keys[at]));
            let other = *k;
            let here = match self.active.get(&other) {
                Some(p) => crate::config::text_eq(p.as_str(), path),
                None => false,
            };
            if here {
                best = match best {
                    Some(b) => if other < b {
                        Some(other)
                    } else {
                        Some(b)
                    },
                    None => Some(other),
                };
            }
        }
        proof {
            match best {
                Some(b) => {
                    assert forall|j: u64| at_path(self.active@, path@, j) implies b <= j by {
                        assert(keys.to_set().contains(j));
                        let i = choose|i: int| 0 <= i < keys.len() && keys[i] == j;
                        assert(at_path(self.active@, path@, keys[i]));
                    }
                    lemma_least_is_named(self.active@, path@, b);
                },
                None => {
                    assert forall|j: u64| !at_path(self.active@, path@, j) by {
                        if at_path(self.active@, path@, j) {
                            assert(keys.to_set().contains(j));
                            let i = choose|i: int| 0 <= i < keys.len() && keys[i] == j;
                            assert(!at_path(self.active@, path@, keys[i]));
                        }
                    }
                },
            }
        }
        best
    }

    fn follow(&mut self, inode: u64, path: String)
        ensures
            final(self).active@ == with_file(old(self).active@, inode, path),
    {
        if !self.active.contains_key(&inode) {
            let _previous = self.active.insert(inode, path);
        }
    }

    /// Takes one found path: updates the followed files and raises the event
    /// that the path stands for, if any.
    pub fn apply(&mut self, kind: FsEventKind, p: &FsPath) -> (e: Option<WatcherEvent>)
        ensures
            (final(self).active@, e) == step(kind, old(self).active@, *p),
    {
        match kind {
            FsEventKind::CreateFile => match p.inode {
                Some(inode) => {
                    if !valid_file_format(p.path.as_str(), p.is_file) {
                        return None;
                    }
                    if self.active.contains_key(&inode) {
                        return None;
                    }
                    let _previous = self.active.insert(inode, p.path.clone());
                    Some(WatcherEvent::FileDiscovered { inode, path: p.path.clone() })
                },
                None => None,
            },
            FsEventKind::RemoveFile => {
                let known = self.find_path(p.path.as_str());
                match handle_file_removal(known, p.inode) {
                    RemovalAction::Ignore => None,
                    RemovalAction::StillValid => None,
                    RemovalAction::Deleted => {
                        let inode = known.unwrap();
                        let _gone = self.active.remove(&inode);
                        Some(WatcherEvent::FileRemoved { inode, path: p.path.clone() })
                    },
                    RemovalAction::Rotated { new_inode } => {
                        let old_inode = known.unwrap();
                        let _gone = self.active.remove(&old_inode);
                        self.follow(new_inode, p.path.clone());
                        Some(
                            WatcherEvent::FileRotated {
                                old_inode,
                                new_inode,
                                old_path: p.path.clone(),
                                new_path: p.path.clone(),
                            },
                        )
                    },
                }
            },
            _ => None,
        }
    }

    fn apply_all(&mut self, kind: FsEventKind, paths: &Vec<FsPath>) -> (out: Vec<WatcherEvent>)
        ensures
            final(self).active@ == active_after(kind, old(self).active@, paths@),
            out@ == raised(kind, old(self).active@, paths@),
    {
        let mut out: Vec<WatcherEvent> = Vec::new();
        let n = paths.len();
        let mut i: usize = 0;
        while i < n
            invariant
                i <= n == paths@.len(),
                self.active@ == active_after(kind, old(self).active@, paths@.subrange(0, i as int)),
                out@ == raised(kind, old(self).active@, paths@.subrange(0, i as int)),
            decreases n - i,
        {
            let ghost next = paths@.subrange(0, i + 1);
            assert(next.drop_last() =~= paths@.subrange(0, i as int));
            assert(next.last() == paths@[i as int]);
            match self.apply(kind, &paths[i]) {
                Some(e) => {
                    out.push(e);
                },
                None => {},
            }
            i = i + 1;
        }
        assert(paths@.subrange(0, n as int) =~= paths@);
        out
    }

    /// Takes the files that the first scan of the directory found. Each
    /// accepted file that is not followed yet is discovered, in scan order,
    /// and followed from then on.
    pub fn discover_initial_files(&mut self, found: &Vec<FsPath>) -> (out: Vec<WatcherEvent>)
        ensures
            final(self).active@ == active_after(
                FsEventKind::CreateFile,
                old(self).active@,
                found@,
            ),
            out@ == raised(FsEventKind::CreateFile, old(self).active@, found@),
    {
        self.apply_all(FsEventKind::CreateFile, found)
    }

    /// Takes the files that a periodic scan of the directory found. Each
    /// accepted file whose identity is not followed yet is discovered, in
    /// scan order, and followed from then on; so a file whose creation
    /// notice was missed is picked up by the next scan.
    pub fn discover_new_files(&mut self, found: &Vec<FsPath>) -> (out: Vec<WatcherEvent>)
        ensures
            final(self).active@ == active_after(
                FsEventKind::CreateFile,
                old(self).active@,
                found@,
            ),
            out@ == raised(FsEventKind::CreateFile, old(self).active@, found@),
    {
        self.apply_all(FsEventKind::CreateFile, found)
    }

    /// Takes a file-system notice: updates the followed files and returns the
    /// events that the notice raises, in the order of its paths.
    pub fn handle_event(&mut self, event: &FsEvent) -> (out: Vec<WatcherEvent>)
        ensures
            event.kind == FsEventKind::RenameBoth ==> {
                &&& final(self).active@ == active_after_rename(old(self).active@, event.paths@)
                &&& out@ == match rotation_of(event.paths@) {
                    Some(e) => seq![e],
                    None => Seq::empty(),
                }
            },
            event.kind != FsEventKind::RenameBoth ==> {
                &&& final(self).active@ == active_after(
                    event.kind,
                    old(self).active@,
                    event.paths@,
                )
                &&& out@ == raised(event.kind, old(self).active@, event.paths@)
            },
    {
        match event.kind {
            FsEventKind::RenameBoth => {
                let mut out: Vec<WatcherEvent> = Vec::new();
                if event.paths.len() == 2 {
                    let old_path = &event.paths[0];
                    let new_path = &event.paths[1];
                    match (old_path.inode, new_path.inode) {
                        (Some(old_inode), Some(new_inode)) => if old_inode != new_inode {
                            let _gone = self.active.remove(&old_inode);
                            self.follow(new_inode, new_path.path.clone());
                            out.push(
                                WatcherEvent::FileRotated {
                                    old_inode,
                                    new_inode,
                                    old_path: old_path.path.clone(),
                                    new_path: new_path.path.clone(),
                                },
                            );
                        },
                        _ => {},
                    }
                }
                out
            },
            kind => self.apply_all(kind, &event.paths),
        }
    }
}

/// A scan finds nothing new in what is followed already: a path whose
/// identity is followed raises no event and changes nothing.
pub proof fn lemma_followed_file_is_not_rediscovered(active: Map<u64, String>, p: FsPath)
    requires
        p.inode.is_some(),
        active.contains_key(p.inode.unwrap()),
    ensures
        step(FsEventKind::CreateFile, active, p) == (active, None::<WatcherEvent>),
{
}

/// A scan recovers a missed creation: an accepted file whose identity is
/// resolved and not followed yet is discovered under that identity and path,
/// and is followed afterwards.
pub proof fn lemma_scan_discovers_unfollowed_file(active: Map<u64, String>, p: FsPath)
    requires
        p.inode.is_some(),
        accepted_file(p.path@, p.is_file),
        !active.contains_key(p.inode.unwrap()),
    ensures
        step(FsEventKind::CreateFile, active, p).1 == Some(
            WatcherEvent::FileDiscovered { inode: p.inode.unwrap(), path: p.path },
        ),
        step(FsEventKind::CreateFile, active, p).0.contains_key(p.inode.unwrap()),
{
}

/// What is not a regular file is never followed: a path that does not lead
/// to a regular file raises no discovery and changes nothing.
pub proof fn lemma_only_regular_files_are_followed(active: Map<u64, String>, p: FsPath)
    requires
        !p.is_file,
    ensures
        step(FsEventKind::CreateFile, active, p) == (active, None::<WatcherEvent>),
        event_of_path(FsEventKind::CreateFile, p).is_none(),
{
}

} // verus!
