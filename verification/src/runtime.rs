//! The supervisor's decisions: which tasks a configuration starts, and the
//! order in which the parts of the agent are shut down.

use crate::config::{GeneralConfig, WatcherConfig};
use vstd::prelude::*;

verus! {

/// Which tasks the supervisor starts.
#[derive(Clone, Copy, Debug, PartialEq, Eq, Structural)]
pub struct TaskPlan {
    /// The watcher over the local log directory, with its tailers.
    pub watcher: bool,
    /// The server that takes lines over the network.
    pub server: bool,
}

/// The tasks that a configuration asks for: the watcher runs in local mode
/// if a watcher is configured and enabled; the server runs in network mode.
pub open spec fn tasks_of(general: GeneralConfig, watcher: Option<WatcherConfig>) -> TaskPlan {
    TaskPlan {
        watcher: general.enable_local_mode && watcher.is_some() && watcher.unwrap().enabled,
        server: general.enable_network_mode,
    }
}

/// Decides which tasks to start.
pub fn plan_tasks(general: &GeneralConfig, watcher: &Option<WatcherConfig>) -> (plan: TaskPlan)
    ensures
        plan == tasks_of(*general, *watcher),
{
    let local = match watcher {
        Some(w) => general.enable_local_mode && w.enabled,
        None => false,
    };
    TaskPlan { watcher: local, server: general.enable_network_mode }
}

/// The steps of an orderly shutdown.
#[derive(Clone, Copy, Debug, PartialEq, Eq, Structural)]
pub enum ShutdownStep {
    /// Stop the watcher, so that no new file is picked up.
    StopWatcher,
    /// Let every tailer read to the end of its file and hand over its lines.
    DrainTailers,
    /// Flush the buffer completely.
    FlushBuffer,
    /// Let the shipper stream what it still holds, and close the stream.
    DrainShipper,
    /// Release pools and file handles.
    ReleaseResources,
}

/// The place of a step in the shutdown order, from zero.
pub open spec fn rank(step: ShutdownStep) -> nat {
    match step {
        ShutdownStep::StopWatcher => 0,
        ShutdownStep::DrainTailers => 1,
        ShutdownStep::FlushBuffer => 2,
        ShutdownStep::DrainShipper => 3,
        ShutdownStep::ReleaseResources => 4,
    }
}

/// The step with which a shutdown begins.
pub fn first_shutdown_step() -> (step: ShutdownStep)
    ensures
        rank(step) == 0,
{
    ShutdownStep::StopWatcher
}

/// The step that follows a step, or `None` after the last.
pub fn next_shutdown_step(step: ShutdownStep) -> (next: Option<ShutdownStep>)
    ensures
        next.is_some() <==> rank(step) < 4,
        next.is_some() ==> rank(next.unwrap()) == rank(step) + 1,
{
    match step {
        ShutdownStep::StopWatcher => Some(ShutdownStep::DrainTailers),
        ShutdownStep::DrainTailers => Some(ShutdownStep::FlushBuffer),
        ShutdownStep::FlushBuffer => Some(ShutdownStep::DrainShipper),
        ShutdownStep::DrainShipper => Some(ShutdownStep::ReleaseResources),
        ShutdownStep::ReleaseResources => None,
    }
}

/// Data flows forward during shutdown: a step's rank fixes the step, so the
/// producers are always stopped before what consumes from them.
pub proof fn lemma_rank_fixes_the_step(a: ShutdownStep, b: ShutdownStep)
    requires
        rank(a) == rank(b),
    ensures
        a == b,
{
}

} // verus!
