use vstd::prelude::*;
use crate::config::{Platform, StartupConfig};
use crate::window::{Vibrancy, VibrancyMaterial, WindowAction, VIBRANCY_CORNER_RADIUS};

verus! {

/// Verbosity of the logging plugin.
#[derive(Clone, Copy, Debug, PartialEq, Eq, Structural)]
pub enum LogLevel {
    Error,
    Warn,
    Info,
    Debug,
    Trace,
}

/// A failure that aborts startup.
#[derive(Clone, Copy, Debug, PartialEq, Eq, Structural)]
pub enum SetupError {
    /// The logging plugin could not be attached.
    LoggingAttach,
}

/// The translucent background used on macOS.
pub open spec fn macos_vibrancy() -> Vibrancy {
    Vibrancy { material: VibrancyMaterial::HudWindow, corner_radius: VIBRANCY_CORNER_RADIUS }
}

/// The one-time window tuning of each platform, in the order it is applied.
pub open spec fn platform_actions(config: StartupConfig, platform: Platform) -> Seq<WindowAction> {
    match platform {
        Platform::MacOS => seq![WindowAction::ApplyVibrancy(macos_vibrancy())],
        Platform::Windows => seq![WindowAction::SetDecorations(true)],
        Platform::Linux => if config.debug {
            seq![
                WindowAction::SetDecorations(false),
                WindowAction::SetZoom(config.zoom_boost_percent),
            ]
        } else {
            seq![WindowAction::SetDecorations(false)]
        },
        Platform::Other => seq![],
    }
}

/// The logging plugin is attached, at `Info`, in debug builds only.
pub open spec fn logging_level(config: StartupConfig) -> Option<LogLevel> {
    if config.debug {
        Some(LogLevel::Info)
    } else {
        None
    }
}

/// The one-time window tuning for `platform`, in the order it is applied.
pub fn setup_actions(config: StartupConfig, platform: Platform) -> (r: Vec<WindowAction>)
    ensures
        r@ == platform_actions(config, platform),
{
    let mut r: Vec<WindowAction> = Vec::new();
    match platform {
        Platform::MacOS => {
            r.push(
                WindowAction::ApplyVibrancy(
                    Vibrancy {
                        material: VibrancyMaterial::HudWindow,
                        corner_radius: VIBRANCY_CORNER_RADIUS,
                    },
                ),
            );
        },
        Platform::Windows => {
            r.push(WindowAction::SetDecorations(true));
        },
        Platform::Linux => {
            r.push(WindowAction::SetDecorations(false));
            if config.debug {
                r.push(WindowAction::SetZoom(config.zoom_boost_percent));
            }
        },
        Platform::Other => {},
    }
    assert(r@ =~= platform_actions(config, platform));
    r
}

/// The verbosity at which the logging plugin is attached, or `None` where no
/// logging plugin is attached.
pub fn logging_plugin_level(config: StartupConfig) -> (r: Option<LogLevel>)
    ensures
        r == logging_level(config),
{
    if config.debug {
        Some(LogLevel::Info)
    } else {
        None
    }
}

/// Where the setup hook stands.
#[derive(Clone, Copy, Debug, PartialEq, Eq, Structural)]
pub enum SetupStage {
    /// Waiting to hear whether the logging plugin was attached.
    AwaitLogging,
    /// Waiting for the lookup of the main window.
    AwaitWindow,
    /// Waiting for the outcome of the tuning action at this index.
    Configuring(usize),
    /// The hook has returned success.
    Succeeded,
    /// The hook has returned this failure.
    Failed(SetupError),
}

/// What the runtime reports back to the setup hook.
#[derive(Clone, Copy, Debug, PartialEq, Eq, Structural)]
pub enum SetupEvent {
    LoggingAttached,
    LoggingFailed,
    WindowFound,
    WindowMissing,
    ActionApplied,
    ActionFailed,
}

/// What the setup hook asks the runtime to do next.
#[derive(Clone, Copy, Debug, PartialEq, Eq, Structural)]
pub enum SetupCommand {
    /// Attach the logging plugin at this verbosity.
    AttachLogging(LogLevel),
    /// Look up the main window by its name.
    LookUpMainWindow,
    /// Perform this mutation on the main window.
    Apply(WindowAction),
    /// Return success from the hook.
    Succeed,
    /// Return this failure from the hook, which aborts startup.
    Fail(SetupError),
    /// Nothing to do: the event did not concern the current stage.
    Nothing,
}

/// The stage and command with which the hook starts.
pub open spec fn setup_start(config: StartupConfig) -> (SetupStage, SetupCommand) {
    if config.debug {
        (SetupStage::AwaitLogging, SetupCommand::AttachLogging(LogLevel::Info))
    } else {
        (SetupStage::AwaitWindow, SetupCommand::LookUpMainWindow)
    }
}

/// The first tuning action at or after index `i`, or success when none is left.
pub open spec fn action_from(acts: Seq<WindowAction>, i: int) -> (SetupStage, SetupCommand) {
    if 0 <= i < acts.len() {
        (SetupStage::Configuring(i as usize), SetupCommand::Apply(acts[i]))
    } else {
        (SetupStage::Succeeded, SetupCommand::Succeed)
    }
}

/// How the hook reacts to one event: its next stage and command.
///
/// A failed logging attachment is fatal; a missing window ends the hook with
/// success and no tuning; a failed tuning action is only a warning, and the
/// next action follows as if it had succeeded.
pub open spec fn setup_step(
    config: StartupConfig,
    platform: Platform,
    stage: SetupStage,
    event: SetupEvent,
) -> (SetupStage, SetupCommand) {
    let acts = platform_actions(config, platform);
    match (stage, event) {
        (SetupStage::AwaitLogging, SetupEvent::LoggingAttached) => (
            SetupStage::AwaitWindow,
            SetupCommand::LookUpMainWindow,
        ),
        (SetupStage::AwaitLogging, SetupEvent::LoggingFailed) => (
            SetupStage::Failed(SetupError::LoggingAttach),
            SetupCommand::Fail(SetupError::LoggingAttach),
        ),
        (SetupStage::AwaitWindow, SetupEvent::WindowMissing) => (
            SetupStage::Succeeded,
            SetupCommand::Succeed,
        ),
        (SetupStage::AwaitWindow, SetupEvent::WindowFound) => action_from(acts, 0),
        (SetupStage::Configuring(i), SetupEvent::ActionApplied) => action_from(acts, i + 1),
        (SetupStage::Configuring(i), SetupEvent::ActionFailed) => action_from(acts, i + 1),
        _ => (stage, SetupCommand::Nothing),
    }
}

/// The commands the hook issues, from `stage`, in answer to `events`.
pub open spec fn setup_commands(
    config: StartupConfig,
    platform: Platform,
    stage: SetupStage,
    events: Seq<SetupEvent>,
) -> Seq<SetupCommand>
    decreases events.len(),
{
    if events.len() == 0 {
        seq![]
    } else {
        let (next, cmd) = setup_step(config, platform, stage, events[0]);
        seq![cmd] + setup_commands(config, platform, next, events.drop_first())
    }
}

/// The stage the hook reaches from `stage` after `events`.
pub open spec fn setup_stage_after(
    config: StartupConfig,
    platform: Platform,
    stage: SetupStage,
    events: Seq<SetupEvent>,
) -> SetupStage
    decreases events.len(),
{
    if events.len() == 0 {
        stage
    } else {
        let (next, _) = setup_step(config, platform, stage, events[0]);
        setup_stage_after(config, platform, next, events.drop_first())
    }
}

/// Every command of one invocation of the hook: the first one, then those
/// answering `events`.
pub open spec fn setup_run(config: StartupConfig, platform: Platform, events: Seq<SetupEvent>) -> Seq<
    SetupCommand,
> {
    let (stage, cmd) = setup_start(config);
    seq![cmd] + setup_commands(config, platform, stage, events)
}

/// The one-shot setup hook, driven by the runtime one event at a time.
pub struct SetupHook {
    pub config: StartupConfig,
    pub platform: Platform,
    pub actions: Vec<WindowAction>,
    pub stage: SetupStage,
}

impl SetupHook {
    pub open spec fn wf(&self) -> bool {
        &&& self.actions@ == platform_actions(self.config, self.platform)
        &&& (self.stage matches SetupStage::Configuring(i) ==> i < self.actions@.len())
    }

    /// Starts the hook; returns it with its first command.
    pub fn begin(config: StartupConfig, platform: Platform) -> (r: (SetupHook, SetupCommand))
        ensures
            r.0.wf(),
            r.0.config == config,
            r.0.platform == platform,
            (r.0.stage, r.1) == setup_start(config),
    {
        let actions = setup_actions(config, platform);
        match logging_plugin_level(config) {
            Some(level) => (
                SetupHook { config, platform, actions, stage: SetupStage::AwaitLogging },
                SetupCommand::AttachLogging(level),
            ),
            None => (
                SetupHook { config, platform, actions, stage: SetupStage::AwaitWindow },
                SetupCommand::LookUpMainWindow,
            ),
        }
    }

    fn action_at(&self, i: usize) -> (r: (SetupStage, SetupCommand))
        requires
            self.wf(),
        ensures
            r == action_from(self.actions@, i as int),
    {
        if i < self.actions.len() {
            (SetupStage::Configuring(i), SetupCommand::Apply(self.actions[i]))
        } else {
            (SetupStage::Succeeded, SetupCommand::Succeed)
        }
    }

    /// Moves the hook on by one event; returns the next command.
    pub fn on_event(&mut self, event: SetupEvent) -> (r: SetupCommand)
        requires
            old(self).wf(),
        ensures
            final(self).wf(),
            final(self).config == old(self).config,
            final(self).platform == old(self).platform,
            (final(self).stage, r) == setup_step(
                old(self).config,
                old(self).platform,
                old(self).stage,
                event,
            ),
    {
        let (next, cmd) = match (self.stage, event) {
            (SetupStage::AwaitLogging, SetupEvent::LoggingAttached) => (
                SetupStage::AwaitWindow,
                SetupCommand::LookUpMainWindow,
            ),
            (SetupStage::AwaitLogging, SetupEvent::LoggingFailed) => (
                SetupStage::Failed(SetupError::LoggingAttach),
                SetupCommand::Fail(SetupError::LoggingAttach),
            ),
            (SetupStage::AwaitWindow, SetupEvent::WindowMissing) => (
                SetupStage::Succeeded,
                SetupCommand::Succeed,
            ),
            (SetupStage::AwaitWindow, SetupEvent::WindowFound) => self.action_at(0),
            (SetupStage::Configuring(i), SetupEvent::ActionApplied)
            | (SetupStage::Configuring(i), SetupEvent::ActionFailed) => self.action_at(i + 1),
            _ => (self.stage, SetupCommand::Nothing),
        };
        self.stage = next;
        cmd
    }
}

} // verus!
