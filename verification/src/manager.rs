//! The tailer manager's decisions: which watcher event starts or stops which
//! tailer, and what becomes of the saved state of a file. The manager keeps
//! one handle per followed file identity and answers each event with the
//! commands to perform, in order; spawning and stopping the tasks is the
//! caller's part.

use crate::checkpoint::{advanced, known_elsewhere, offset_in, Checkpoint, FileState};
use crate::watcher::WatcherEvent;
use std::collections::HashMap;
use vstd::prelude::*;

verus! {

broadcast use vstd::std_specs::hash::group_hash_axioms;

/// What a watcher event asks of the tailers.
#[derive(Clone, Debug, PartialEq, Eq)]
pub enum TailerEvent {
    Start { inode: u64, path: String },
    Stop { inode: u64, path: String },
    Rotate { old_inode: u64, new_inode: u64, path: String },
}

/// The manager's record of one running tailer.
#[derive(Clone, Debug, PartialEq, Eq)]
pub struct TailerHandle {
    pub inode: u64,
    pub path: String,
    /// Offset at which the tailer started to read.
    pub start_offset: u64,
}

/// The manager's record of a tailer that was told to stop and has not yet
/// reported its last offset.
#[derive(Clone, Debug, PartialEq, Eq)]
pub struct StoppingTailer {
    /// The path that the stop named for the file.
    pub path: String,
    /// Whether the file lives on, because the stop was the first half of a
    /// rotation; the last offset of such a file is saved.
    pub lives_on: bool,
}

/// What the caller does to the tailer tasks.
#[derive(Clone, Debug, PartialEq, Eq)]
pub enum TailerCommand {
    /// Start a tailer for the file at the offset. `identity_changed` says
    /// that the path is saved under another identity, so that the file is
    /// read as a new one: a warning is due.
    Spawn { inode: u64, path: String, offset: u64, identity_changed: bool },
    /// Stop the tailer of the file: let it read to the end of its open file
    /// and hand over its last lines, and wait until it has exited, before the
    /// next command is performed. The offset that the tailer reached is then
    /// reported with `finish_tailer`.
    Stop { inode: u64 },
}

/// The tailer events that a watcher event stands for: a discovery starts a
/// tailer, a removal stops one, and a rotation stops the tailer of the old
/// identity and then starts one for the new identity.
pub open spec fn tailer_events_of(event: WatcherEvent) -> Seq<TailerEvent> {
    match event {
        WatcherEvent::FileDiscovered { inode, path } => seq![TailerEvent::Start { inode, path }],
        WatcherEvent::FileRotated { old_inode, new_inode, old_path, new_path } => seq![
            TailerEvent::Stop { inode: old_inode, path: old_path },
            TailerEvent::Start { inode: new_inode, path: new_path },
        ],
        WatcherEvent::FileRemoved { inode, path } => seq![TailerEvent::Stop { inode, path }],
    }
}

/// Translates a watcher event into tailer events, in the order in which they
/// are to be handled.
pub fn translate_event(event: WatcherEvent) -> (out: Vec<TailerEvent>)
    ensures
        out@ == tailer_events_of(event),
{
    let mut out: Vec<TailerEvent> = Vec::new();
    match event {
        WatcherEvent::FileDiscovered { inode, path } => {
            out.push(TailerEvent::Start { inode, path });
        },
        WatcherEvent::FileRotated { old_inode, new_inode, old_path, new_path } => {
            out.push(TailerEvent::Stop { inode: old_inode, path: old_path });
            out.push(TailerEvent::Start { inode: new_inode, path: new_path });
        },
        WatcherEvent::FileRemoved { inode, path } => {
            out.push(TailerEvent::Stop { inode, path });
        },
    }
    out
}

/// The manager as a mathematical value.
pub struct ManagerModel {
    /// The running tailers by identity.
    pub tailers: Map<u64, TailerHandle>,
    /// The tailers that were told to stop and whose last offset is awaited.
    pub stopping: Map<u64, StoppingTailer>,
    /// The saved states by identity.
    pub files: Map<u64, FileState>,
    /// The identity that the event handled last stopped, if that event was a
    /// stop. A start that directly follows a stop is the second half of a
    /// rotation.
    pub last_stopped: Option<u64>,
}

impl ManagerModel {
    /// Whether a start for the identity completes a rotation: it directly
    /// follows the stop of another identity.
    pub open spec fn completes_rotation(self, inode: u64) -> bool {
        self.last_stopped.is_some() && self.last_stopped.unwrap() != inode
    }

    /// Whether a start for the identity finds the path saved under another
    /// identity and nothing saved for its own.
    pub open spec fn sees_identity_change(self, inode: u64, path: String) -> bool {
        !self.files.contains_key(inode) && known_elsewhere(self.files, path@, inode)
    }

    /// The offset at which a start begins to read: zero where it completes a
    /// rotation, else the offset saved for the identity, or zero where
    /// nothing is saved.
    pub open spec fn start_offset(self, inode: u64) -> u64 {
        if self.completes_rotation(inode) {
            0
        } else {
            offset_in(self.files, inode)
        }
    }

    /// The saved states after a start: a start that completes a rotation
    /// saves offset zero for the new identity, whatever was saved for it; a
    /// discovery creates the state of an identity that has none, at offset
    /// zero, and leaves a state that is there as it is.
    pub open spec fn files_after_start(self, inode: u64, path: String) -> Map<u64, FileState> {
        if self.completes_rotation(inode) || !self.files.contains_key(inode) {
            self.files.insert(inode, FileState { path, inode, offset: 0 })
        } else {
            self.files
        }
    }

    /// The stopping tailers after a start: where the start completes a
    /// rotation and the stop named another path than the start, the file of
    /// the tailer that was stopped lives on under that path. A file whose
    /// path was given to the new file in place is gone.
    pub open spec fn stopping_after_start(self, inode: u64, path: String) -> Map<
        u64,
        StoppingTailer,
    > {
        if self.completes_rotation(inode) && self.stopping.contains_key(self.last_stopped.unwrap())
            && self.stopping[self.last_stopped.unwrap()].path@ != path@ {
            self.stopping.insert(
                self.last_stopped.unwrap(),
                StoppingTailer {
                    path: self.stopping[self.last_stopped.unwrap()].path,
                    lives_on: true,
                },
            )
        } else {
            self.stopping
        }
    }

    /// The manager after a start. A file that has a tailer keeps it.
    pub open spec fn after_start(self, inode: u64, path: String) -> ManagerModel {
        if self.tailers.contains_key(inode) {
            ManagerModel { last_stopped: None, ..self }
        } else {
            ManagerModel {
                tailers: self.tailers.insert(
                    inode,
                    TailerHandle { inode, path, start_offset: self.start_offset(inode) },
                ),
                stopping: self.stopping_after_start(inode, path),
                files: self.files_after_start(inode, path),
                last_stopped: None,
            }
        }
    }

    /// The commands of a start.
    pub open spec fn start_commands(self, inode: u64, path: String) -> Seq<TailerCommand> {
        if self.tailers.contains_key(inode) {
            Seq::empty()
        } else {
            seq![
                TailerCommand::Spawn {
                    inode,
                    path,
                    offset: self.start_offset(inode),
                    identity_changed: !self.completes_rotation(inode)
                        && self.sees_identity_change(inode, path),
                },
            ]
        }
    }

    /// The manager after a stop: the tailer of the identity is stopping, if
    /// it had one, and the saved state of the identity is gone.
    pub open spec fn after_stop(self, inode: u64, path: String) -> ManagerModel {
        ManagerModel {
            tailers: self.tailers.remove(inode),
            stopping: if self.tailers.contains_key(inode) {
                self.stopping.insert(inode, StoppingTailer { path, lives_on: false })
            } else {
                self.stopping.remove(inode)
            },
            files: self.files.remove(inode),
            last_stopped: Some(inode),
        }
    }

    /// The commands of a stop.
    pub open spec fn stop_commands(self, inode: u64) -> Seq<TailerCommand> {
        if self.tailers.contains_key(inode) {
            seq![TailerCommand::Stop { inode }]
        } else {
            Seq::empty()
        }
    }

    /// The manager after an event. A rotation is the stop of the old
    /// identity followed by the start of the new one.
    pub open spec fn after_event(self, event: TailerEvent) -> ManagerModel {
        match event {
            TailerEvent::Start { inode, path } => self.after_start(inode, path),
            TailerEvent::Stop { inode, path } => self.after_stop(inode, path),
            TailerEvent::Rotate { old_inode, new_inode, path } => self.after_stop(
                old_inode,
                path,
            ).after_start(new_inode, path),
        }
    }

    /// The commands that an event gives, in order.
    pub open spec fn commands_of(self, event: TailerEvent) -> Seq<TailerCommand> {
        match event {
            TailerEvent::Start { inode, path } => self.start_commands(inode, path),
            TailerEvent::Stop { inode, path } => self.stop_commands(inode),
            TailerEvent::Rotate { old_inode, new_inode, path } => self.stop_commands(old_inode)
                + self.after_stop(old_inode, path).start_commands(new_inode, path),
        }
    }

    /// The manager once a watcher event has been dealt with: a start that
    /// comes later follows no stop.
    pub open spec fn after_end(self) -> ManagerModel {
        ManagerModel { last_stopped: None, ..self }
    }

    /// The manager after a watcher event: after its tailer events, one after
    /// the other.
    pub open spec fn after_watcher_event(self, event: WatcherEvent) -> ManagerModel {
        match event {
            WatcherEvent::FileDiscovered { inode, path } => self.after_start(
                inode,
                path,
            ).after_end(),
            WatcherEvent::FileRotated { old_inode, new_inode, old_path, new_path } => self.after_stop(
                old_inode,
                old_path,
            ).after_start(new_inode, new_path).after_end(),
            WatcherEvent::FileRemoved { inode, path } => self.after_stop(inode, path).after_end(),
        }
    }

    /// The commands of a watcher event: those of its tailer events, in order.
    pub open spec fn watcher_commands(self, event: WatcherEvent) -> Seq<TailerCommand> {
        match event {
            WatcherEvent::FileDiscovered { inode, path } => self.start_commands(inode, path),
            WatcherEvent::FileRotated { old_inode, new_inode, old_path, new_path } =>
                self.stop_commands(old_inode) + self.after_stop(old_inode, old_path).start_commands(
                    new_inode,
                    new_path,
                ),
            WatcherEvent::FileRemoved { inode, path } => self.stop_commands(inode),
        }
    }

    /// The manager after a progress report: the offset of a running tailer
    /// is saved, unless it lies below the saved one.
    pub open spec fn after_progress(self, inode: u64, offset: u64) -> ManagerModel {
        if self.tailers.contains_key(inode) {
            ManagerModel {
                files: advanced(self.files, inode, self.tailers[inode].path, offset),
                ..self
            }
        } else {
            self
        }
    }

    /// The manager after a running tailer has found its file truncated: the
    /// file is read from its start, and offset zero is saved for it.
    pub open spec fn after_truncation(self, inode: u64) -> ManagerModel {
        if self.tailers.contains_key(inode) {
            ManagerModel {
                files: self.files.insert(
                    inode,
                    FileState { path: self.tailers[inode].path, inode, offset: 0 },
                ),
                ..self
            }
        } else {
            self
        }
    }

    /// The manager after a stopping tailer has reported its last offset: the
    /// tailer is stopping no longer, and where its file lives on and no new
    /// tailer runs for it, the offset is saved.
    pub open spec fn after_finish(self, inode: u64, offset: u64) -> ManagerModel {
        if self.stopping.contains_key(inode) {
            ManagerModel {
                stopping: self.stopping.remove(inode),
                files: if self.stopping[inode].lives_on && !self.tailers.contains_key(inode) {
                    advanced(self.files, inode, self.stopping[inode].path, offset)
                } else {
                    self.files
                },
                ..self
            }
        } else {
            self
        }
    }
}

/// The tailer manager: one handle per followed file identity, and the
/// checkpoint from which a tailer learns where to read on.
#[derive(Debug)]
pub struct TailerManager {
    pub tailers: HashMap<u64, TailerHandle>,
    pub stopping: HashMap<u64, StoppingTailer>,
    pub checkpoint: Checkpoint,
    pub last_stopped: Option<u64>,
}

impl View for TailerManager {
    type V = ManagerModel;

    open spec fn view(&self) -> ManagerModel {
        ManagerModel {
            tailers: self.tailers@,
            stopping: self.stopping@,
            files: self.checkpoint.files@,
            last_stopped: self.last_stopped,
        }
    }
}

impl TailerManager {
    /// Every saved state is filed under the identity of its file.
    pub open spec fn wf(&self) -> bool {
        self.checkpoint.wf()
    }

    /// A manager without tailers, over the loaded checkpoint.
    pub fn new(checkpoint: Checkpoint) -> (m: TailerManager)
        requires
            checkpoint.wf(),
        ensures
            m.wf(),
            m@ == (ManagerModel {
                tailers: Map::empty(),
                stopping: Map::empty(),
                files: checkpoint.files@,
                last_stopped: None,
            }),
    {
        TailerManager {
            tailers: HashMap::new(),
            stopping: HashMap::new(),
            checkpoint,
            last_stopped: None,
        }
    }

    /// Whether a tailer runs for the file.
    pub fn is_running(&self, inode: u64) -> (r: bool)
        ensures
            r == self@.tailers.contains_key(inode),
    {
        self.tailers.contains_key(&inode)
    }

    /// Starts a tailer for a file, unless one runs for it already.
    ///
    /// A start that directly follows the stop of another identity completes
    /// a rotation: the tailer reads from offset zero and offset zero is saved
    /// for the file, whatever was saved for its identity. Any other start is
    /// a discovery: the tailer reads from the offset saved for the identity,
    /// and a file that has no saved state gets one, at offset zero. Returns
    /// the command to perform, if any.
    pub fn start_tailer(&mut self, inode: u64, path: String) -> (command: Option<TailerCommand>)
        requires
            old(self).wf(),
        ensures
            final(self).wf(),
            final(self)@ == old(self)@.after_start(inode, path),
            match command {
                Some(c) => old(self)@.start_commands(inode, path) == seq![c],
                None => old(self)@.start_commands(inode, path) == Seq::<TailerCommand>::empty(),
            },
    {
        let stopped = self.last_stopped;
        self.last_stopped = None;
        if self.tailers.contains_key(&inode) {
            return None;
        }
        let rotation = match stopped {
            Some(old_inode) => old_inode != inode,
            None => false,
        };
        let known = self.checkpoint.contains(inode);
        let offset = if rotation {
            0
        } else {
            self.checkpoint.saved_offset(inode)
        };
        let identity_changed = !rotation && !known && self.checkpoint.path_known_elsewhere(
            path.as_str(),
            inode,
        );
        if rotation {
            let old_inode = stopped.unwrap();
            let lives = match self.stopping.get(&old_inode) {
                Some(entry) => if crate::config::text_eq(entry.path.as_str(), path.as_str()) {
                    None
                } else {
                    Some(StoppingTailer { path: entry.path.clone(), lives_on: true })
                },
                None => None,
            };
            match lives {
                Some(entry) => {
                    let _earlier = self.stopping.insert(old_inode, entry);
                },
                None => {},
            }
        }
        if rotation || !known {
            self.checkpoint.reset(inode, path.clone());
        }
        let handle = TailerHandle { inode, path: path.clone(), start_offset: offset };
        let _previous = self.tailers.insert(inode, handle);
        Some(TailerCommand::Spawn { inode, path, offset, identity_changed })
    }

    /// Stops the tailer of a file, if one runs, and forgets the file's saved
    /// state. The tailer is stopping until `finish_tailer` reports the offset
    /// that it reached. Returns the command to perform, if any.
    pub fn stop_tailer(&mut self, inode: u64, path: String) -> (command: Option<TailerCommand>)
        requires
            old(self).wf(),
        ensures
            final(self).wf(),
            final(self)@ == old(self)@.after_stop(inode, path),
            match command {
                Some(c) => old(self)@.stop_commands(inode) == seq![c],
                None => old(self)@.stop_commands(inode) == Seq::<TailerCommand>::empty(),
            },
    {
        let _state = self.checkpoint.remove(inode);
        self.last_stopped = Some(inode);
        match self.tailers.remove(&inode) {
            Some(_) => {
                let _earlier = self.stopping.insert(inode, StoppingTailer { path, lives_on: false });
                Some(TailerCommand::Stop { inode })
            },
            None => {
                let _earlier = self.stopping.remove(&inode);
                None
            },
        }
    }

    /// Handles one tailer event and returns the commands to perform, in order.
    ///
    /// A start is ignored where a tailer runs for the file already. A stop
    /// ends the tailer of the file and forgets the file's saved state. A
    /// start that directly follows a stop completes a rotation and reads the
    /// new file from offset zero; a rotation given as one event is handled as
    /// that stop and that start.
    pub fn handle_event(&mut self, event: TailerEvent) -> (commands: Vec<TailerCommand>)
        requires
            old(self).wf(),
        ensures
            final(self).wf(),
            final(self)@ == old(self)@.after_event(event),
            commands@ == old(self)@.commands_of(event),
    {
        let mut commands: Vec<TailerCommand> = Vec::new();
        match event {
            TailerEvent::Start { inode, path } => {
                match self.start_tailer(inode, path) {
                    Some(c) => {
                        commands.push(c);
                    },
                    None => {},
                }
            },
            TailerEvent::Stop { inode, path } => {
                match self.stop_tailer(inode, path) {
                    Some(c) => {
                        commands.push(c);
                    },
                    None => {},
                }
            },
            TailerEvent::Rotate { old_inode, new_inode, path } => {
                match self.stop_tailer(old_inode, path.clone()) {
                    Some(c) => {
                        commands.push(c);
                    },
                    None => {},
                }
                let ghost stop = commands@;
                match self.start_tailer(new_inode, path) {
                    Some(c) => {
                        commands.push(c);
                        assert(commands@ =~= stop + seq![c]);
                    },
                    None => {
                        assert(commands@ =~= stop + Seq::<TailerCommand>::empty());
                    },
                }
            },
        }
        commands
    }

    /// Marks the end of a watcher event: a start that comes later follows no
    /// stop and is a discovery.
    pub fn end_event(&mut self)
        ensures
            final(self).wf() == old(self).wf(),
            final(self)@ == old(self)@.after_end(),
    {
        self.last_stopped = None;
    }

    /// Handles one watcher event: its tailer events, one after the other.
    /// Returns the commands to perform, in order.
    pub fn handle_watcher_event(&mut self, event: WatcherEvent) -> (commands: Vec<TailerCommand>)
        requires
            old(self).wf(),
        ensures
            final(self).wf(),
            final(self)@ == old(self)@.after_watcher_event(event),
            commands@ == old(self)@.watcher_commands(event),
    {
        let mut commands: Vec<TailerCommand> = Vec::new();
        match event {
            WatcherEvent::FileDiscovered { inode, path } => {
                match self.start_tailer(inode, path) {
                    Some(c) => {
                        commands.push(c);
                    },
                    None => {},
                }
            },
            WatcherEvent::FileRemoved { inode, path } => {
                match self.stop_tailer(inode, path) {
                    Some(c) => {
                        commands.push(c);
                    },
                    None => {},
                }
            },
            WatcherEvent::FileRotated { old_inode, new_inode, old_path, new_path } => {
                match self.stop_tailer(old_inode, old_path) {
                    Some(c) => {
                        commands.push(c);
                    },
                    None => {},
                }
                let ghost stop = commands@;
                match self.start_tailer(new_inode, new_path) {
                    Some(c) => {
                        commands.push(c);
                        assert(commands@ =~= stop + seq![c]);
                    },
                    None => {
                        assert(commands@ =~= stop + Seq::<TailerCommand>::empty());
                    },
                }
            },
        }
        self.end_event();
        commands
    }

    /// Records that the running tailer of a file has consumed its file up to
    /// `offset`. An offset below the saved one is refused, and so is a report
    /// for a file without a running tailer. Returns whether the offset was
    /// saved.
    pub fn record_progress(&mut self, inode: u64, offset: u64) -> (saved: bool)
        requires
            old(self).wf(),
        ensures
            final(self).wf(),
            final(self)@ == old(self)@.after_progress(inode, offset),
            saved == (old(self)@.tailers.contains_key(inode) && offset >= offset_in(
                old(self)@.files,
                inode,
            )),
            offset_in(final(self)@.files, inode) >= offset_in(old(self)@.files, inode),
    {
        let path = match self.tailers.get(&inode) {
            Some(handle) => handle.path.clone(),
            None => {
                return false;
            },
        };
        self.checkpoint.advance(inode, path, offset)
    }

    /// Records that the running tailer of a file has found the file shorter
    /// than its offset and reads it from the start: offset zero is saved for
    /// the file. Returns whether a tailer runs for the file.
    pub fn record_truncation(&mut self, inode: u64) -> (running: bool)
        requires
            old(self).wf(),
        ensures
            final(self).wf(),
            final(self)@ == old(self)@.after_truncation(inode),
            running == old(self)@.tailers.contains_key(inode),
    {
        let path = match self.tailers.get(&inode) {
            Some(handle) => handle.path.clone(),
            None => {
                return false;
            },
        };
        self.checkpoint.reset(inode, path);
        true
    }

    /// Takes the last offset of a tailer that was stopped, once its task has
    /// exited. The tailer is stopping no longer. Where its file lives on
    /// after a rotation, the offset is saved under the path that the stop
    /// named; the state of a removed file stays forgotten. Returns whether
    /// the tailer was stopping.
    pub fn finish_tailer(&mut self, inode: u64, offset: u64) -> (finished: bool)
        requires
            old(self).wf(),
        ensures
            final(self).wf(),
            final(self)@ == old(self)@.after_finish(inode, offset),
            finished == old(self)@.stopping.contains_key(inode),
    {
        match self.stopping.remove(&inode) {
            Some(entry) => {
                if entry.lives_on && !self.tailers.contains_key(&inode) {
                    let _saved = self.checkpoint.advance(inode, entry.path, offset);
                }
                true
            },
            None => {
                assert(self.stopping@ =~= old(self).stopping@);
                false
            },
        }
    }
}

/// A rotation is a stop followed by a start at offset zero: whatever is
/// saved for the new identity, the start that directly follows the stop of
/// another identity spawns the new tailer at offset zero, and afterwards
/// offset zero is saved for the new identity under the new path.
pub proof fn lemma_start_after_stop_begins_at_zero(
    m: ManagerModel,
    old_inode: u64,
    new_inode: u64,
    old_path: String,
    new_path: String,
)
    requires
        old_inode != new_inode,
        !m.tailers.contains_key(new_inode),
    ensures
        ({
            let stopped = m.after_event(TailerEvent::Stop { inode: old_inode, path: old_path });
            let start = TailerEvent::Start { inode: new_inode, path: new_path };
            &&& stopped.commands_of(start) == seq![
                TailerCommand::Spawn {
                    inode: new_inode,
                    path: new_path,
                    offset: 0,
                    identity_changed: false,
                },
            ]
            &&& stopped.after_event(start).files.contains_key(new_inode)
            &&& stopped.after_event(start).files[new_inode] == (FileState {
                path: new_path,
                inode: new_inode,
                offset: 0,
            })
            &&& stopped.after_event(start).tailers[new_inode].start_offset == 0
        }),
{
}

/// The old file is finished before the new one begins: the commands of a
/// rotation are the stop of the old identity, where it has a tailer,
/// followed by the spawn of the new identity at offset zero.
pub proof fn lemma_rotation_stops_before_it_starts(
    m: ManagerModel,
    old_inode: u64,
    new_inode: u64,
    old_path: String,
    new_path: String,
)
    requires
        m.tailers.contains_key(old_inode),
        old_inode != new_inode,
        !m.tailers.contains_key(new_inode),
    ensures
        m.watcher_commands(
            WatcherEvent::FileRotated { old_inode, new_inode, old_path, new_path },
        ) == seq![
            TailerCommand::Stop { inode: old_inode },
            TailerCommand::Spawn {
                inode: new_inode,
                path: new_path,
                offset: 0,
                identity_changed: false,
            },
        ],
        offset_in(
            m.after_watcher_event(
                WatcherEvent::FileRotated { old_inode, new_inode, old_path, new_path },
            ).files,
            new_inode,
        ) == 0,
{
    let e = WatcherEvent::FileRotated { old_inode, new_inode, old_path, new_path };
    assert(m.watcher_commands(e) =~= seq![
        TailerCommand::Stop { inode: old_inode },
        TailerCommand::Spawn {
            inode: new_inode,
            path: new_path,
            offset: 0,
            identity_changed: false,
        },
    ]);
}

/// Handling a watcher event is handling its tailer events in order: the
/// commands and the tailers, stopping tailers and saved states afterwards are
/// those of the events that `translate_event` gives, one after the other.
pub proof fn lemma_watcher_event_is_its_tailer_events(m: ManagerModel, event: WatcherEvent)
    ensures
        ({
            let events = tailer_events_of(event);
            if events.len() == 1 {
                &&& m.watcher_commands(event) == m.commands_of(events[0])
                &&& m.after_watcher_event(event) == m.after_event(events[0]).after_end()
            } else {
                &&& events.len() == 2
                &&& m.watcher_commands(event) == m.commands_of(events[0]) + m.after_event(
                    events[0],
                ).commands_of(events[1])
                &&& m.after_watcher_event(event) == m.after_event(events[0]).after_event(
                    events[1],
                ).after_end()
            }
        }),
{
}

/// A discovery creates the saved state of the file: after the start of an
/// identity that has no tailer and no saved state, and that follows no stop,
/// the state `{path, identity, 0}` is saved and the tailer is spawned at
/// offset zero.
pub proof fn lemma_discovery_creates_the_state(m: ManagerModel, inode: u64, path: String)
    requires
        !m.tailers.contains_key(inode),
        !m.files.contains_key(inode),
        m.last_stopped.is_none(),
    ensures
        m.after_start(inode, path).files.contains_key(inode),
        m.after_start(inode, path).files[inode] == (FileState { path, inode, offset: 0 }),
        m.start_commands(inode, path).len() == 1,
        m.start_commands(inode, path)[0] matches TailerCommand::Spawn { offset, .. } && offset
            == 0,
{
}

/// A known file is read on where it was left: a discovery of an identity
/// with a saved state and no tailer spawns at the saved offset, raises no
/// warning and leaves the saved state as it is.
pub proof fn lemma_discovery_resumes_at_the_saved_offset(
    m: ManagerModel,
    inode: u64,
    path: String,
)
    requires
        !m.tailers.contains_key(inode),
        m.files.contains_key(inode),
        m.last_stopped.is_none(),
    ensures
        m.start_commands(inode, path) == seq![
            TailerCommand::Spawn {
                inode,
                path,
                offset: m.files[inode].offset,
                identity_changed: false,
            },
        ],
        m.after_start(inode, path).files == m.files,
{
}

/// A path that was given to another file is read from its start: a
/// discovery of an identity without saved state, under a path that is saved
/// for another identity, spawns at offset zero with the warning set and
/// saves the new identity at offset zero.
pub proof fn lemma_changed_identity_starts_at_zero(m: ManagerModel, inode: u64, path: String)
    requires
        !m.tailers.contains_key(inode),
        !m.files.contains_key(inode),
        known_elsewhere(m.files, path@, inode),
        m.last_stopped.is_none(),
    ensures
        m.start_commands(inode, path) == seq![
            TailerCommand::Spawn { inode, path, offset: 0, identity_changed: true },
        ],
        m.after_start(inode, path).files[inode] == (FileState { path, inode, offset: 0 }),
{
}

/// A stale offset does not hold the new file back: after a rotation every
/// progress report of the new tailer is taken.
pub proof fn lemma_progress_after_rotation_is_taken(
    m: ManagerModel,
    old_inode: u64,
    new_inode: u64,
    old_path: String,
    new_path: String,
    offset: u64,
)
    requires
        old_inode != new_inode,
        !m.tailers.contains_key(new_inode),
    ensures
        offset_in(
            m.after_watcher_event(
                WatcherEvent::FileRotated { old_inode, new_inode, old_path, new_path },
            ).after_progress(new_inode, offset).files,
            new_inode,
        ) == offset,
{
}

/// The last lines of a rotated file count: where the old file has another
/// path after the rotation, the offset that its stopped tailer reports when
/// it has drained is saved, under that path.
pub proof fn lemma_drained_offset_is_saved(
    m: ManagerModel,
    old_inode: u64,
    new_inode: u64,
    old_path: String,
    new_path: String,
    offset: u64,
)
    requires
        m.tailers.contains_key(old_inode),
        old_inode != new_inode,
        !m.tailers.contains_key(new_inode),
        old_path@ != new_path@,
    ensures
        ({
            let after = m.after_watcher_event(
                WatcherEvent::FileRotated { old_inode, new_inode, old_path, new_path },
            ).after_finish(old_inode, offset);
            &&& after.files.contains_key(old_inode)
            &&& after.files[old_inode] == (FileState {
                path: old_path,
                inode: old_inode,
                offset,
            })
            &&& !after.stopping.contains_key(old_inode)
        }),
{
}

/// A removed file leaves nothing behind: after its removal the identity has
/// no tailer and no saved state, reports for it are refused, and the last
/// offset of its tailer is not saved.
pub proof fn lemma_removal_forgets_the_file(
    m: ManagerModel,
    inode: u64,
    path: String,
    offset: u64,
)
    ensures
        ({
            let after = m.after_watcher_event(WatcherEvent::FileRemoved { inode, path });
            &&& !after.tailers.contains_key(inode)
            &&& !after.files.contains_key(inode)
            &&& after.after_progress(inode, offset) == after
            &&& !after.after_finish(inode, offset).files.contains_key(inode)
        }),
{
}

/// A truncated file starts over in the checkpoint too: after a running
/// tailer has reported a truncation, offset zero is saved for its file, and
/// every later progress report is taken.
pub proof fn lemma_truncation_resets_the_saved_offset(m: ManagerModel, inode: u64, offset: u64)
    requires
        m.tailers.contains_key(inode),
    ensures
        offset_in(m.after_truncation(inode).files, inode) == 0,
        offset_in(m.after_truncation(inode).after_progress(inode, offset).files, inode) == offset,
{
}

/// One tailer per file: a start for a file that has a tailer commands
/// nothing and leaves the tailers and the saved states as they are.
pub proof fn lemma_start_is_idempotent(m: ManagerModel, inode: u64, path: String)
    requires
        m.tailers.contains_key(inode),
    ensures
        m.after_start(inode, path).tailers == m.tailers,
        m.after_start(inode, path).files == m.files,
        m.start_commands(inode, path) == Seq::<TailerCommand>::empty(),
{
}

} // verus!
