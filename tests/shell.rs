use desktop_shell::config::{
    ConfigError, Platform, StartupConfig, DEFAULT_ZOOM_BOOST_PERCENT, NATIVE_ZOOM_PERCENT,
};
use desktop_shell::lifecycle::{
    Lifecycle, LifecycleCommand, LifecycleEvent, LifecycleStage, FATAL_EXIT_CODE,
    NORMAL_EXIT_CODE,
};
use desktop_shell::page_load::{page_load_action, page_load_zoom};
use desktop_shell::setup::{
    logging_plugin_level, setup_actions, LogLevel, SetupCommand, SetupError, SetupEvent,
    SetupHook, SetupStage,
};
use desktop_shell::window::{
    Vibrancy, VibrancyMaterial, WindowAction, WindowState, VIBRANCY_CORNER_RADIUS,
};

const ALL_PLATFORMS: [Platform; 4] =
    [Platform::MacOS, Platform::Windows, Platform::Linux, Platform::Other];

fn debug() -> StartupConfig {
    StartupConfig::new(true, 130).unwrap()
}

fn release() -> StartupConfig {
    StartupConfig::new(false, 130).unwrap()
}

fn plain_window() -> WindowState {
    WindowState { decorations: false, zoom_percent: 100, vibrancy: None }
}

/// Drives a setup hook through `events`; returns every command and the final stage.
fn drive(
    config: StartupConfig,
    platform: Platform,
    events: &[SetupEvent],
) -> (Vec<SetupCommand>, SetupStage) {
    let (mut hook, first) = SetupHook::begin(config, platform);
    let mut cmds = vec![first];
    for e in events {
        cmds.push(hook.on_event(*e));
    }
    (cmds, hook.stage)
}

#[test]
fn config_accepts_boost_above_native() {
    let c = StartupConfig::new(true, 140).unwrap();
    assert!(c.debug);
    assert_eq!(c.zoom_boost_percent, 140);
}

#[test]
fn config_refuses_boost_not_above_native() {
    assert_eq!(StartupConfig::new(true, 100), Err(ConfigError::BoostNotAboveNative));
    assert_eq!(StartupConfig::new(false, 0), Err(ConfigError::BoostNotAboveNative));
    assert!(StartupConfig::new(false, 101).is_ok());
}

#[test]
fn config_default_boost() {
    let c = StartupConfig::with_default_boost(false);
    assert!(!c.debug);
    assert_eq!(c.zoom_boost_percent, DEFAULT_ZOOM_BOOST_PERCENT);
    assert_eq!(DEFAULT_ZOOM_BOOST_PERCENT, 130);
}

#[test]
fn setup_actions_per_platform() {
    assert_eq!(
        setup_actions(release(), Platform::MacOS),
        vec![WindowAction::ApplyVibrancy(Vibrancy {
            material: VibrancyMaterial::HudWindow,
            corner_radius: 12,
        })]
    );
    assert_eq!(VIBRANCY_CORNER_RADIUS, 12);
    assert_eq!(setup_actions(release(), Platform::Windows), vec![WindowAction::SetDecorations(true)]);
    assert_eq!(setup_actions(release(), Platform::Linux), vec![WindowAction::SetDecorations(false)]);
    assert_eq!(
        setup_actions(debug(), Platform::Linux),
        vec![WindowAction::SetDecorations(false), WindowAction::SetZoom(130)]
    );
    assert!(setup_actions(debug(), Platform::Other).is_empty());
}

#[test]
fn logging_level_only_in_debug() {
    assert_eq!(logging_plugin_level(debug()), Some(LogLevel::Info));
    assert_eq!(logging_plugin_level(release()), None);
}

#[test]
fn other_platform_mutates_nothing_and_succeeds() {
    for config in [debug(), release()] {
        let events: Vec<SetupEvent> = if config.debug {
            vec![SetupEvent::LoggingAttached, SetupEvent::WindowFound]
        } else {
            vec![SetupEvent::WindowFound]
        };
        let (cmds, stage) = drive(config, Platform::Other, &events);
        assert!(cmds.iter().all(|c| !matches!(c, SetupCommand::Apply(_))));
        assert_eq!(*cmds.last().unwrap(), SetupCommand::Succeed);
        assert_eq!(stage, SetupStage::Succeeded);
    }
}

#[test]
fn page_load_zoom_boost_only_on_linux_debug() {
    assert_eq!(page_load_zoom(debug(), Platform::Linux), 130);
    let c140 = StartupConfig::new(true, 140).unwrap();
    assert_eq!(page_load_zoom(c140, Platform::Linux), 140);
    assert_eq!(page_load_zoom(release(), Platform::Linux), NATIVE_ZOOM_PERCENT);
    for p in [Platform::MacOS, Platform::Windows, Platform::Other] {
        assert_eq!(page_load_zoom(debug(), p), 100);
        assert_eq!(page_load_zoom(release(), p), 100);
    }
    assert_eq!(page_load_action(debug(), Platform::Linux), WindowAction::SetZoom(130));
}

#[test]
fn missing_window_succeeds_without_mutation() {
    for p in ALL_PLATFORMS {
        let (cmds, stage) = drive(release(), p, &[SetupEvent::WindowMissing]);
        assert_eq!(cmds, vec![SetupCommand::LookUpMainWindow, SetupCommand::Succeed]);
        assert_eq!(stage, SetupStage::Succeeded);
        let (cmds, stage) = drive(
            debug(),
            p,
            &[SetupEvent::LoggingAttached, SetupEvent::WindowMissing, SetupEvent::ActionApplied],
        );
        assert_eq!(
            cmds,
            vec![
                SetupCommand::AttachLogging(LogLevel::Info),
                SetupCommand::LookUpMainWindow,
                SetupCommand::Succeed,
                SetupCommand::Nothing,
            ]
        );
        assert_eq!(stage, SetupStage::Succeeded);
    }
}

#[test]
fn logging_attempted_once_in_debug_never_in_release() {
    let events = [
        SetupEvent::LoggingAttached,
        SetupEvent::WindowFound,
        SetupEvent::ActionApplied,
        SetupEvent::ActionApplied,
        SetupEvent::LoggingAttached,
    ];
    for p in ALL_PLATFORMS {
        let attach = |cmds: &Vec<SetupCommand>| {
            cmds.iter().filter(|c| matches!(c, SetupCommand::AttachLogging(_))).count()
        };
        assert_eq!(attach(&drive(debug(), p, &events).0), 1);
        assert_eq!(attach(&drive(release(), p, &events[1..]).0), 0);
    }
}

#[test]
fn logging_failure_is_fatal() {
    let (cmds, stage) = drive(debug(), Platform::Linux, &[SetupEvent::LoggingFailed, SetupEvent::WindowFound]);
    assert_eq!(
        cmds,
        vec![
            SetupCommand::AttachLogging(LogLevel::Info),
            SetupCommand::Fail(SetupError::LoggingAttach),
            SetupCommand::Nothing,
        ]
    );
    assert_eq!(stage, SetupStage::Failed(SetupError::LoggingAttach));
}

#[test]
fn page_load_repeated_equals_once() {
    let a = page_load_action(debug(), Platform::Linux);
    let mut once = plain_window();
    once.apply(a);
    let mut many = plain_window();
    for _ in 0..5 {
        many.apply(a);
    }
    assert_eq!(once, many);
    assert_eq!(many.zoom_percent, 130);
}

#[test]
fn run_failure_exits_nonzero_and_dispatches_nothing() {
    let mut life = Lifecycle::new();
    assert_eq!(life.exit_code(), None);
    assert_eq!(life.on_event(LifecycleEvent::RunFailed), LifecycleCommand::Exit(FATAL_EXIT_CODE));
    assert_ne!(FATAL_EXIT_CODE, 0);
    assert_eq!(life.exit_code(), Some(1));
    for e in [LifecycleEvent::LoopStarted, LifecycleEvent::PageLoaded, LifecycleEvent::SetupSucceeded] {
        assert_eq!(life.on_event(e), LifecycleCommand::Nothing);
    }
    assert_eq!(life.stage, LifecycleStage::Exited(1));
}

#[test]
fn lifecycle_normal_path() {
    let mut life = Lifecycle::new();
    assert_eq!(life.on_event(LifecycleEvent::PageLoaded), LifecycleCommand::Nothing);
    assert_eq!(life.on_event(LifecycleEvent::LoopStarted), LifecycleCommand::DispatchSetup);
    assert_eq!(life.on_event(LifecycleEvent::LoopStarted), LifecycleCommand::Nothing);
    assert_eq!(life.on_event(LifecycleEvent::SetupSucceeded), LifecycleCommand::Nothing);
    assert_eq!(life.on_event(LifecycleEvent::PageLoaded), LifecycleCommand::DispatchPageLoad);
    assert_eq!(life.on_event(LifecycleEvent::PageLoaded), LifecycleCommand::DispatchPageLoad);
    assert_eq!(life.on_event(LifecycleEvent::LoopEnded), LifecycleCommand::Exit(NORMAL_EXIT_CODE));
    assert_eq!(life.exit_code(), Some(0));
}

#[test]
fn setup_failure_exits_nonzero() {
    let mut life = Lifecycle::new();
    assert_eq!(life.on_event(LifecycleEvent::LoopStarted), LifecycleCommand::DispatchSetup);
    assert_eq!(life.on_event(LifecycleEvent::SetupFailed), LifecycleCommand::Exit(1));
    assert_eq!(life.on_event(LifecycleEvent::PageLoaded), LifecycleCommand::Nothing);
}

#[test]
fn windows_decorations_enabled_from_any_prior_state() {
    for prior in [false, true] {
        let mut w = WindowState { decorations: prior, zoom_percent: 100, vibrancy: None };
        let (cmds, stage) = drive(
            release(),
            Platform::Windows,
            &[SetupEvent::WindowFound, SetupEvent::ActionApplied],
        );
        for c in &cmds {
            if let SetupCommand::Apply(a) = c {
                w.apply(*a);
            }
        }
        assert!(w.decorations);
        assert_eq!(stage, SetupStage::Succeeded);
    }
}

#[test]
fn macos_vibrancy_failure_still_succeeds() {
    let (cmds, stage) = drive(
        debug(),
        Platform::MacOS,
        &[SetupEvent::LoggingAttached, SetupEvent::WindowFound, SetupEvent::ActionFailed],
    );
    assert_eq!(
        cmds[2],
        SetupCommand::Apply(WindowAction::ApplyVibrancy(Vibrancy {
            material: VibrancyMaterial::HudWindow,
            corner_radius: 12,
        }))
    );
    assert_eq!(cmds[3], SetupCommand::Succeed);
    assert_eq!(stage, SetupStage::Succeeded);
}

#[test]
fn linux_debug_failed_action_goes_on_to_the_next() {
    let (cmds, stage) = drive(
        debug(),
        Platform::Linux,
        &[
            SetupEvent::LoggingAttached,
            SetupEvent::WindowFound,
            SetupEvent::ActionFailed,
            SetupEvent::ActionApplied,
        ],
    );
    assert_eq!(
        cmds,
        vec![
            SetupCommand::AttachLogging(LogLevel::Info),
            SetupCommand::LookUpMainWindow,
            SetupCommand::Apply(WindowAction::SetDecorations(false)),
            SetupCommand::Apply(WindowAction::SetZoom(130)),
            SetupCommand::Succeed,
        ]
    );
    assert_eq!(stage, SetupStage::Succeeded);
}

#[test]
fn out_of_order_events_are_ignored() {
    let (cmds, stage) = drive(
        release(),
        Platform::Windows,
        &[SetupEvent::ActionApplied, SetupEvent::LoggingFailed, SetupEvent::WindowFound],
    );
    assert_eq!(
        cmds,
        vec![
            SetupCommand::LookUpMainWindow,
            SetupCommand::Nothing,
            SetupCommand::Nothing,
            SetupCommand::Apply(WindowAction::SetDecorations(true)),
        ]
    );
    assert_eq!(stage, SetupStage::Configuring(0));
}

#[test]
fn window_apply_all_overwrites_each_setting() {
    let mut w = plain_window();
    w.apply_all(&vec![
        WindowAction::SetDecorations(true),
        WindowAction::SetZoom(140),
        WindowAction::SetZoom(120),
        WindowAction::ApplyVibrancy(Vibrancy { material: VibrancyMaterial::HudWindow, corner_radius: 12 }),
    ]);
    assert!(w.decorations);
    assert_eq!(w.zoom_percent, 120);
    assert!(w.vibrancy.is_some());
}
