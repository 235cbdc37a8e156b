//! Properties that relate several steps or several functions of the library.
use vstd::prelude::*;
use crate::config::{Platform, StartupConfig};
use crate::lifecycle::{
    lifecycle_commands, lifecycle_step, LifecycleCommand, LifecycleEvent, LifecycleStage,
    FATAL_EXIT_CODE,
};
use crate::page_load::page_zoom;
use crate::setup::{
    macos_vibrancy, platform_actions, setup_commands, setup_run, setup_stage_after, setup_start,
    setup_step, SetupCommand, SetupEvent, SetupStage,
};
use crate::window::{applied, applied_all, applied_times, WindowAction, WindowState};

verus! {

/// The events that carry a setup hook past logging: the successful attachment
/// in debug builds, nothing in release builds.
pub open spec fn logging_answered(config: StartupConfig) -> Seq<SetupEvent> {
    if config.debug {
        seq![SetupEvent::LoggingAttached]
    } else {
        seq![]
    }
}

/// No command of `cmds` mutates the window.
pub open spec fn no_mutation(cmds: Seq<SetupCommand>) -> bool {
    forall|k: int| 0 <= k < cmds.len() ==> !(#[trigger] cmds[k] is Apply)
}

/// No command of `cmds` makes the hook fail.
pub open spec fn no_failure(cmds: Seq<SetupCommand>) -> bool {
    forall|k: int| 0 <= k < cmds.len() ==> !(#[trigger] cmds[k] is Fail)
}

proof fn lemma_commands_cons(
    config: StartupConfig,
    platform: Platform,
    stage: SetupStage,
    e: SetupEvent,
    rest: Seq<SetupEvent>,
)
    ensures
        setup_commands(config, platform, stage, seq![e] + rest) == seq![
            setup_step(config, platform, stage, e).1,
        ] + setup_commands(config, platform, setup_step(config, platform, stage, e).0, rest),
        setup_stage_after(config, platform, stage, seq![e] + rest) == setup_stage_after(
            config,
            platform,
            setup_step(config, platform, stage, e).0,
            rest,
        ),
{
    let evs = seq![e] + rest;
    assert(evs.drop_first() =~= rest);
    assert(evs[0] == e);
}

/// From any stage, the hook never asks for the logging plugin; it fails only on
/// a failed attachment; with no tuning to do it never mutates the window.
proof fn lemma_commands_shape(
    config: StartupConfig,
    platform: Platform,
    stage: SetupStage,
    events: Seq<SetupEvent>,
)
    ensures
        forall|k: int|
            0 <= k < setup_commands(config, platform, stage, events).len() ==> !(
            #[trigger] setup_commands(config, platform, stage, events)[k] is AttachLogging),
        (forall|k: int| 0 <= k < events.len() ==> events[k] != SetupEvent::LoggingFailed)
            ==> no_failure(setup_commands(config, platform, stage, events)),
        platform_actions(config, platform).len() == 0 && !(stage is Configuring) ==> no_mutation(
            setup_commands(config, platform, stage, events),
        ),
    decreases events.len(),
{
    if events.len() > 0 {
        let (next, cmd) = setup_step(config, platform, stage, events[0]);
        let rest = events.drop_first();
        lemma_commands_shape(config, platform, next, rest);
        let cmds = setup_commands(config, platform, stage, events);
        assert(cmds == seq![cmd] + setup_commands(config, platform, next, rest));
        assert forall|k: int| 0 <= k < cmds.len() implies !(#[trigger] cmds[k] is AttachLogging) by {
            if k > 0 {
                assert(cmds[k] == setup_commands(config, platform, next, rest)[k - 1]);
            }
        }
        if forall|k: int| 0 <= k < events.len() ==> events[k] != SetupEvent::LoggingFailed {
            assert forall|k: int| 0 <= k < rest.len() implies rest[k]
                != SetupEvent::LoggingFailed by {
                assert(rest[k] == events[k + 1]);
            }
            assert(events[0] != SetupEvent::LoggingFailed);
            assert forall|k: int| 0 <= k < cmds.len() implies !(#[trigger] cmds[k] is Fail) by {
                if k > 0 {
                    assert(cmds[k] == setup_commands(config, platform, next, rest)[k - 1]);
                }
            }
        }
        if platform_actions(config, platform).len() == 0 && !(stage is Configuring) {
            assert forall|k: int| 0 <= k < cmds.len() implies !(#[trigger] cmds[k] is Apply) by {
                if k > 0 {
                    assert(cmds[k] == setup_commands(config, platform, next, rest)[k - 1]);
                }
            }
        }
    }
}

/// Once the hook has returned success, it issues nothing more and stays there.
proof fn lemma_succeeded_is_quiet(config: StartupConfig, platform: Platform, events: Seq<SetupEvent>)
    ensures
        setup_stage_after(config, platform, SetupStage::Succeeded, events) == SetupStage::Succeeded,
        forall|k: int|
            0 <= k < setup_commands(config, platform, SetupStage::Succeeded, events).len()
                ==> #[trigger] setup_commands(config, platform, SetupStage::Succeeded, events)[k]
                == SetupCommand::Nothing,
    decreases events.len(),
{
    if events.len() > 0 {
        let rest = events.drop_first();
        lemma_succeeded_is_quiet(config, platform, rest);
        let cmds = setup_commands(config, platform, SetupStage::Succeeded, events);
        assert forall|k: int| 0 <= k < cmds.len() implies #[trigger] cmds[k]
            == SetupCommand::Nothing by {
            if k > 0 {
                assert(cmds[k] == setup_commands(config, platform, SetupStage::Succeeded, rest)[k
                    - 1]);
            }
        }
    }
}

/// The logging plugin is asked for exactly once in a debug build, as the hook's
/// first command, and never in a release build, whatever the runtime reports.
pub proof fn law_logging_only_in_debug(
    config: StartupConfig,
    platform: Platform,
    events: Seq<SetupEvent>,
)
    ensures
        forall|k: int|
            0 <= k < setup_run(config, platform, events).len() ==> (
            #[trigger] setup_run(config, platform, events)[k] is AttachLogging <==> (k == 0
                && config.debug)),
{
    let (stage, first) = setup_start(config);
    let rest = setup_commands(config, platform, stage, events);
    lemma_commands_shape(config, platform, stage, events);
    let run = setup_run(config, platform, events);
    assert(run == seq![first] + rest);
    assert forall|k: int| 0 <= k < run.len() implies (#[trigger] run[k] is AttachLogging <==> (k
        == 0 && config.debug)) by {
        if k > 0 {
            assert(run[k] == rest[k - 1]);
        }
    }
}

/// On a platform outside macOS, Windows and Linux, the setup hook requests no
/// window mutation, and it fails only where the logging plugin could not be
/// attached.
pub proof fn law_other_platform_untouched(config: StartupConfig, events: Seq<SetupEvent>)
    ensures
        platform_actions(config, Platform::Other).len() == 0,
        no_mutation(setup_run(config, Platform::Other, events)),
        (forall|k: int| 0 <= k < events.len() ==> events[k] != SetupEvent::LoggingFailed)
            ==> no_failure(setup_run(config, Platform::Other, events)),
{
    let (stage, first) = setup_start(config);
    let rest = setup_commands(config, Platform::Other, stage, events);
    lemma_commands_shape(config, Platform::Other, stage, events);
    let run = setup_run(config, Platform::Other, events);
    assert(run == seq![first] + rest);
    assert forall|k: int| 0 <= k < run.len() implies !(#[trigger] run[k] is Apply) by {
        if k > 0 {
            assert(run[k] == rest[k - 1]);
        }
    }
    if forall|k: int| 0 <= k < events.len() ==> events[k] != SetupEvent::LoggingFailed {
        assert forall|k: int| 0 <= k < run.len() implies !(#[trigger] run[k] is Fail) by {
            if k > 0 {
                assert(run[k] == rest[k - 1]);
            }
        }
    }
}

/// When the main window cannot be found, the setup hook returns success and
/// requests no window mutation, whatever the runtime reports afterwards.
pub proof fn law_missing_window_is_harmless(
    config: StartupConfig,
    platform: Platform,
    rest: Seq<SetupEvent>,
)
    ensures
        ({
            let events = logging_answered(config) + (seq![SetupEvent::WindowMissing] + rest);
            &&& setup_stage_after(config, platform, setup_start(config).0, events)
                == SetupStage::Succeeded
            &&& no_mutation(setup_run(config, platform, events))
            &&& no_failure(setup_run(config, platform, events))
        }),
{
    let tail = seq![SetupEvent::WindowMissing] + rest;
    let events = logging_answered(config) + tail;
    let (stage, first) = setup_start(config);
    lemma_commands_cons(config, platform, SetupStage::AwaitWindow, SetupEvent::WindowMissing, rest);
    lemma_succeeded_is_quiet(config, platform, rest);
    let quiet = setup_commands(config, platform, SetupStage::Succeeded, rest);
    let after_lookup = setup_commands(config, platform, SetupStage::AwaitWindow, tail);
    assert(after_lookup == seq![SetupCommand::Succeed] + quiet);
    if config.debug {
        assert(events =~= seq![SetupEvent::LoggingAttached] + tail);
        lemma_commands_cons(config, platform, stage, SetupEvent::LoggingAttached, tail);
        let run = setup_run(config, platform, events);
        assert(run == seq![first] + (seq![SetupCommand::LookUpMainWindow] + after_lookup));
        assert forall|k: int| 0 <= k < run.len() implies !(#[trigger] run[k] is Apply) && !(
        run[k] is Fail) by {
            if k >= 3 {
                assert(run[k] == quiet[k - 3]);
            }
        }
    } else {
        assert(events =~= tail);
        let run = setup_run(config, platform, events);
        assert(run == seq![first] + after_lookup);
        assert forall|k: int| 0 <= k < run.len() implies !(#[trigger] run[k] is Apply) && !(
        run[k] is Fail) by {
            if k >= 2 {
                assert(run[k] == quiet[k - 2]);
            }
        }
    }
}

/// On macOS, a failed vibrancy effect is no failure of the setup hook: it
/// still returns success.
pub proof fn law_vibrancy_failure_is_a_warning(config: StartupConfig, rest: Seq<SetupEvent>)
    ensures
        platform_actions(config, Platform::MacOS) == seq![
            WindowAction::ApplyVibrancy(macos_vibrancy()),
        ],
        ({
            let events = logging_answered(config) + (seq![
                SetupEvent::WindowFound,
                SetupEvent::ActionFailed,
            ] + rest);
            &&& setup_stage_after(config, Platform::MacOS, setup_start(config).0, events)
                == SetupStage::Succeeded
            &&& no_failure(setup_run(config, Platform::MacOS, events))
        }),
{
    let p = Platform::MacOS;
    let after_found = seq![SetupEvent::ActionFailed] + rest;
    let tail = seq![SetupEvent::WindowFound] + after_found;
    assert(tail =~= seq![SetupEvent::WindowFound, SetupEvent::ActionFailed] + rest);
    let events = logging_answered(config) + tail;
    let (stage, first) = setup_start(config);
    lemma_succeeded_is_quiet(config, p, rest);
    lemma_commands_cons(config, p, SetupStage::Configuring(0), SetupEvent::ActionFailed, rest);
    lemma_commands_cons(config, p, SetupStage::AwaitWindow, SetupEvent::WindowFound, after_found);
    let quiet = setup_commands(config, p, SetupStage::Succeeded, rest);
    let after_lookup = setup_commands(config, p, SetupStage::AwaitWindow, tail);
    assert(after_lookup == seq![
        SetupCommand::Apply(WindowAction::ApplyVibrancy(macos_vibrancy())),
    ] + (seq![SetupCommand::Succeed] + quiet));
    if config.debug {
        assert(events =~= seq![SetupEvent::LoggingAttached] + tail);
        lemma_commands_cons(config, p, stage, SetupEvent::LoggingAttached, tail);
        let run = setup_run(config, p, events);
        assert(run == seq![first] + (seq![SetupCommand::LookUpMainWindow] + after_lookup));
        assert forall|k: int| 0 <= k < run.len() implies !(#[trigger] run[k] is Fail) by {
            if k >= 4 {
                assert(run[k] == quiet[k - 4]);
            }
        }
    } else {
        assert(events =~= tail);
        let run = setup_run(config, p, events);
        assert(run == seq![first] + after_lookup);
        assert forall|k: int| 0 <= k < run.len() implies !(#[trigger] run[k] is Fail) by {
            if k >= 3 {
                assert(run[k] == quiet[k - 3]);
            }
        }
    }
}

/// On Windows, whatever decorations a window had before, they are enabled once
/// the setup hook's tuning has taken effect.
pub proof fn law_windows_keeps_decorations(config: StartupConfig, w: WindowState)
    ensures
        applied_all(w, platform_actions(config, Platform::Windows)).decorations,
{
    let acts = platform_actions(config, Platform::Windows);
    assert(acts.drop_first() =~= Seq::<WindowAction>::empty());
    assert(applied_all(w, acts) == applied_all(applied(w, acts[0]), acts.drop_first()));
}

/// Each action overwrites the setting it names, so taking effect again changes
/// nothing.
proof fn lemma_applied_idempotent(w: WindowState, a: WindowAction)
    ensures
        applied(applied(w, a), a) == applied(w, a),
{
}

/// Running the page-load hook any positive number of times leaves the window as
/// running it once, with the zoom set to the same value.
pub proof fn law_page_load_idempotent(
    config: StartupConfig,
    platform: Platform,
    w: WindowState,
    n: nat,
)
    requires
        n >= 1,
    ensures
        applied_times(w, WindowAction::SetZoom(page_zoom(config, platform)), n) == applied(
            w,
            WindowAction::SetZoom(page_zoom(config, platform)),
        ),
        applied_times(w, WindowAction::SetZoom(page_zoom(config, platform)), n).zoom_percent
            == page_zoom(config, platform),
    decreases n,
{
    let a = WindowAction::SetZoom(page_zoom(config, platform));
    if n > 1 {
        law_page_load_idempotent(config, platform, w, (n - 1) as nat);
        lemma_applied_idempotent(w, a);
    } else {
        assert(applied_times(w, a, 0) == w);
    }
}

/// Once the process has exited, nothing more is dispatched.
proof fn lemma_exited_is_quiet(code: u8, events: Seq<LifecycleEvent>)
    ensures
        forall|k: int|
            0 <= k < lifecycle_commands(LifecycleStage::Exited(code), events).len()
                ==> #[trigger] lifecycle_commands(LifecycleStage::Exited(code), events)[k]
                == LifecycleCommand::Nothing,
    decreases events.len(),
{
    if events.len() > 0 {
        let rest = events.drop_first();
        lemma_exited_is_quiet(code, rest);
        let cmds = lifecycle_commands(LifecycleStage::Exited(code), events);
        assert forall|k: int| 0 <= k < cmds.len() implies #[trigger] cmds[k]
            == LifecycleCommand::Nothing by {
            if k > 0 {
                assert(cmds[k] == lifecycle_commands(LifecycleStage::Exited(code), rest)[k - 1]);
            }
        }
    }
}

/// A failed run, before the process has exited, terminates it with a non-zero
/// status, and no hook is dispatched after it.
pub proof fn law_run_failure_is_fatal(stage: LifecycleStage, rest: Seq<LifecycleEvent>)
    requires
        !(stage is Exited),
    ensures
        lifecycle_commands(stage, seq![LifecycleEvent::RunFailed] + rest)[0]
            == LifecycleCommand::Exit(FATAL_EXIT_CODE),
        FATAL_EXIT_CODE != 0,
        forall|k: int|
            1 <= k < lifecycle_commands(stage, seq![LifecycleEvent::RunFailed] + rest).len()
                ==> #[trigger] lifecycle_commands(stage, seq![LifecycleEvent::RunFailed] + rest)[k]
                == LifecycleCommand::Nothing,
{
    let events = seq![LifecycleEvent::RunFailed] + rest;
    assert(events.drop_first() =~= rest);
    assert(events[0] == LifecycleEvent::RunFailed);
    lemma_exited_is_quiet(FATAL_EXIT_CODE, rest);
    let cmds = lifecycle_commands(stage, events);
    assert(cmds == seq![LifecycleCommand::Exit(FATAL_EXIT_CODE)] + lifecycle_commands(
        LifecycleStage::Exited(FATAL_EXIT_CODE),
        rest,
    ));
    assert forall|k: int| 1 <= k < cmds.len() implies #[trigger] cmds[k]
        == LifecycleCommand::Nothing by {
        assert(cmds[k] == lifecycle_commands(LifecycleStage::Exited(FATAL_EXIT_CODE), rest)[k - 1]);
    }
}

/// After the process has left its starting stage, the setup hook is never
/// dispatched again.
proof fn lemma_no_setup_after_start(stage: LifecycleStage, events: Seq<LifecycleEvent>)
    requires
        stage != LifecycleStage::Starting,
    ensures
        forall|k: int|
            0 <= k < lifecycle_commands(stage, events).len() ==> #[trigger] lifecycle_commands(
                stage,
                events,
            )[k] != LifecycleCommand::DispatchSetup,
    decreases events.len(),
{
    if events.len() > 0 {
        let (next, _) = lifecycle_step(stage, events[0]);
        let rest = events.drop_first();
        lemma_no_setup_after_start(next, rest);
        let cmds = lifecycle_commands(stage, events);
        assert forall|k: int| 0 <= k < cmds.len() implies #[trigger] cmds[k]
            != LifecycleCommand::DispatchSetup by {
            if k > 0 {
                assert(cmds[k] == lifecycle_commands(next, rest)[k - 1]);
            }
        }
    }
}

/// The setup hook is dispatched at most once in the life of a process.
pub proof fn law_setup_dispatched_once(events: Seq<LifecycleEvent>)
    ensures
        forall|i: int, j: int|
            0 <= i < lifecycle_commands(LifecycleStage::Starting, events).len() && 0 <= j
                < lifecycle_commands(LifecycleStage::Starting, events).len()
                && #[trigger] lifecycle_commands(LifecycleStage::Starting, events)[i]
                == LifecycleCommand::DispatchSetup && #[trigger] lifecycle_commands(
                LifecycleStage::Starting,
                events,
            )[j] == LifecycleCommand::DispatchSetup ==> i == j,
    decreases events.len(),
{
    if events.len() > 0 {
        let (next, cmd) = lifecycle_step(LifecycleStage::Starting, events[0]);
        let rest = events.drop_first();
        let cmds = lifecycle_commands(LifecycleStage::Starting, events);
        let later = lifecycle_commands(next, rest);
        assert(cmds == seq![cmd] + later);
        if next == LifecycleStage::Starting {
            law_setup_dispatched_once(rest);
            assert forall|i: int, j: int|
                0 <= i < cmds.len() && 0 <= j < cmds.len() && #[trigger] cmds[i]
                    == LifecycleCommand::DispatchSetup && #[trigger] cmds[j]
                    == LifecycleCommand::DispatchSetup implies i == j by {
                assert(i > 0 && j > 0);
                assert(cmds[i] == later[i - 1]);
                assert(cmds[j] == later[j - 1]);
            }
        } else {
            lemma_no_setup_after_start(next, rest);
            assert forall|i: int, j: int|
                0 <= i < cmds.len() && 0 <= j < cmds.len() && #[trigger] cmds[i]
                    == LifecycleCommand::DispatchSetup && #[trigger] cmds[j]
                    == LifecycleCommand::DispatchSetup implies i == j by {
                if i > 0 {
                    assert(cmds[i] == later[i - 1]);
                }
                if j > 0 {
                    assert(cmds[j] == later[j - 1]);
                }
            }
        }
    }
}

} // verus!
