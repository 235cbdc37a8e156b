use vstd::prelude::*;

verus! {

/// The status a process exits with when startup fails.
pub const FATAL_EXIT_CODE: u8 = 1;

/// The status a process exits with when its event loop ends.
pub const NORMAL_EXIT_CODE: u8 = 0;

/// Where the process stands between start and exit.
#[derive(Clone, Copy, Debug, PartialEq, Eq, Structural)]
pub enum LifecycleStage {
    /// The runtime has not reported its event loop yet.
    Starting,
    /// The setup hook has been dispatched and has not returned.
    AwaitSetup,
    /// Setup succeeded; content loads are being served.
    Running,
    /// The process has exited with this status.
    Exited(u8),
}

/// What the runtime reports to the process.
#[derive(Clone, Copy, Debug, PartialEq, Eq, Structural)]
pub enum LifecycleEvent {
    /// The event loop is up and the application handle is live.
    LoopStarted,
    /// The runtime's run call failed.
    RunFailed,
    SetupSucceeded,
    SetupFailed,
    /// The embedded content finished loading.
    PageLoaded,
    /// The event loop ended, e.g. the window was closed.
    LoopEnded,
}

/// What the process does next.
#[derive(Clone, Copy, Debug, PartialEq, Eq, Structural)]
pub enum LifecycleCommand {
    DispatchSetup,
    DispatchPageLoad,
    /// Terminate with this status.
    Exit(u8),
    Nothing,
}

/// How the process reacts to one event: its next stage and command.
///
/// A failed run or a failed setup is fatal; once exited, nothing is
/// dispatched any more.
pub open spec fn lifecycle_step(stage: LifecycleStage, event: LifecycleEvent) -> (
    LifecycleStage,
    LifecycleCommand,
) {
    match (stage, event) {
        (LifecycleStage::Exited(_), _) => (stage, LifecycleCommand::Nothing),
        (_, LifecycleEvent::RunFailed) => (
            LifecycleStage::Exited(FATAL_EXIT_CODE),
            LifecycleCommand::Exit(FATAL_EXIT_CODE),
        ),
        (LifecycleStage::Starting, LifecycleEvent::LoopStarted) => (
            LifecycleStage::AwaitSetup,
            LifecycleCommand::DispatchSetup,
        ),
        (LifecycleStage::AwaitSetup, LifecycleEvent::SetupSucceeded) => (
            LifecycleStage::Running,
            LifecycleCommand::Nothing,
        ),
        (LifecycleStage::AwaitSetup, LifecycleEvent::SetupFailed) => (
            LifecycleStage::Exited(FATAL_EXIT_CODE),
            LifecycleCommand::Exit(FATAL_EXIT_CODE),
        ),
        (LifecycleStage::Running, LifecycleEvent::PageLoaded) => (
            LifecycleStage::Running,
            LifecycleCommand::DispatchPageLoad,
        ),
        (LifecycleStage::Running, LifecycleEvent::LoopEnded) => (
            LifecycleStage::Exited(NORMAL_EXIT_CODE),
            LifecycleCommand::Exit(NORMAL_EXIT_CODE),
        ),
        _ => (stage, LifecycleCommand::Nothing),
    }
}

/// The commands the process issues, from `stage`, in answer to `events`.
pub open spec fn lifecycle_commands(stage: LifecycleStage, events: Seq<LifecycleEvent>) -> Seq<
    LifecycleCommand,
>
    decreases events.len(),
{
    if events.len() == 0 {
        seq![]
    } else {
        let (next, cmd) = lifecycle_step(stage, events[0]);
        seq![cmd] + lifecycle_commands(next, events.drop_first())
    }
}

/// The process between start and exit, driven by the runtime's events.
pub struct Lifecycle {
    pub stage: LifecycleStage,
}

impl Lifecycle {
    pub fn new() -> (r: Lifecycle)
        ensures
            r.stage == LifecycleStage::Starting,
    {
        Lifecycle { stage: LifecycleStage::Starting }
    }

    /// Moves the process on by one event; returns what to do next.
    pub fn on_event(&mut self, event: LifecycleEvent) -> (r: LifecycleCommand)
        ensures
            (final(self).stage, r) == lifecycle_step(old(self).stage, event),
    {
        let (next, cmd) = match (self.stage, event) {
            (LifecycleStage::Exited(_), _) => (self.stage, LifecycleCommand::Nothing),
            (_, LifecycleEvent::RunFailed) => (
                LifecycleStage::Exited(FATAL_EXIT_CODE),
                LifecycleCommand::Exit(FATAL_EXIT_CODE),
            ),
            (LifecycleStage::Starting, LifecycleEvent::LoopStarted) => (
                LifecycleStage::AwaitSetup,
                LifecycleCommand::DispatchSetup,
            ),
            (LifecycleStage::AwaitSetup, LifecycleEvent::SetupSucceeded) => (
                LifecycleStage::Running,
                LifecycleCommand::Nothing,
            ),
            (LifecycleStage::AwaitSetup, LifecycleEvent::SetupFailed) => (
                LifecycleStage::Exited(FATAL_EXIT_CODE),
                LifecycleCommand::Exit(FATAL_EXIT_CODE),
            ),
            (LifecycleStage::Running, LifecycleEvent::PageLoaded) => (
                LifecycleStage::Running,
                LifecycleCommand::DispatchPageLoad,
            ),
            (LifecycleStage::Running, LifecycleEvent::LoopEnded) => (
                LifecycleStage::Exited(NORMAL_EXIT_CODE),
                LifecycleCommand::Exit(NORMAL_EXIT_CODE),
            ),
            _ => (self.stage, LifecycleCommand::Nothing),
        };
        self.stage = next;
        cmd
    }

    /// The status to exit with, once the process has exited.
    pub fn exit_code(&self) -> (r: Option<u8>)
        ensures
            r == (match self.stage {
                LifecycleStage::Exited(c) => Some(c),
                _ => None::<u8>,
            }),
    {
        match self.stage {
            LifecycleStage::Exited(c) => Some(c),
            _ => None,
        }
    }
}

} // verus!
