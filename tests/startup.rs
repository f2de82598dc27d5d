use gui_shell::{
    main_window_label, Action, EffectRequest, EffectState, Event, Failure, Material, Phase,
    Platform, Startup,
};

fn sidebar() -> EffectRequest {
    EffectRequest {
        material: Material::Sidebar,
        state: Some(EffectState::FollowsWindowActiveState),
    }
}

fn happy_events() -> Vec<Event> {
    vec![
        Event::PluginRegistered,
        Event::SetupHook,
        Event::WindowLookedUp { found: true },
        Event::EffectApplied { ok: true },
        Event::RunLoopStarted { ok: true },
    ]
}

#[test]
fn new_sequence_starts_configuring() {
    let s = Startup::new(Platform::MacOs);
    assert_eq!(s.phase, Phase::Configuring);
    assert_eq!(s.plugin_registrations, 0);
    assert_eq!(s.effect_requests, 0);
    assert!(!s.setup_complete);
    assert!(!s.is_finished());
    assert_eq!(s.first_action(), Action::RegisterOpenerPlugin);
}

#[test]
fn macos_launch_applies_sidebar_once_and_runs() {
    let mut s = Startup::new(Platform::MacOs);
    let acts = s.run_events(&happy_events());
    assert_eq!(
        acts,
        vec![
            Action::StartApplication,
            Action::LookUpWindow,
            Action::ApplyEffect(sidebar()),
            Action::FinishSetup,
            Action::KeepRunning,
        ]
    );
    let effects = acts.iter().filter(|a| matches!(a, Action::ApplyEffect(_))).count();
    assert_eq!(effects, 1);
    assert_eq!(s.phase, Phase::Running);
    assert_eq!(s.effect_requests, 1);
    assert_eq!(s.plugin_registrations, 1);
    assert!(s.setup_complete);
    assert!(s.is_finished());
}

#[test]
fn macos_effect_not_requested_twice() {
    let mut s = Startup::new(Platform::MacOs);
    let mut evs = happy_events();
    evs.push(Event::WindowLookedUp { found: true });
    evs.push(Event::SetupHook);
    evs.push(Event::WindowLookedUp { found: true });
    let acts = s.run_events(&evs);
    let effects = acts.iter().filter(|a| matches!(a, Action::ApplyEffect(_))).count();
    assert_eq!(effects, 1);
    assert_eq!(&acts[5..], &[Action::Ignore, Action::Ignore, Action::Ignore]);
    assert_eq!(s.effect_requests, 1);
}

#[test]
fn other_platform_never_applies_effect() {
    let mut s = Startup::new(Platform::Other);
    let acts = s.run_events(&vec![
        Event::PluginRegistered,
        Event::SetupHook,
        Event::WindowLookedUp { found: true },
        Event::EffectApplied { ok: true },
        Event::RunLoopStarted { ok: true },
    ]);
    assert_eq!(
        acts,
        vec![
            Action::StartApplication,
            Action::FinishSetup,
            Action::Ignore,
            Action::Ignore,
            Action::KeepRunning,
        ]
    );
    assert_eq!(s.effect_requests, 0);
    assert_eq!(s.phase, Phase::Running);
}

#[test]
fn other_platform_setup_reports_success() {
    let mut s = Startup::new(Platform::Other);
    assert_eq!(s.step(Event::PluginRegistered), Action::StartApplication);
    assert_eq!(s.step(Event::SetupHook), Action::FinishSetup);
    assert_eq!(s.phase, Phase::SetUp);
    assert!(s.setup_complete);
}

#[test]
fn missing_main_window_aborts() {
    let mut s = Startup::new(Platform::MacOs);
    let acts = s.run_events(&vec![
        Event::PluginRegistered,
        Event::SetupHook,
        Event::WindowLookedUp { found: false },
        Event::EffectApplied { ok: true },
        Event::RunLoopStarted { ok: true },
    ]);
    assert_eq!(acts[2], Action::Abort(Failure::WindowNotFound));
    assert_eq!(acts[3], Action::Ignore);
    assert_eq!(acts[4], Action::Ignore);
    assert_eq!(s.phase, Phase::Aborted(Failure::WindowNotFound));
    assert_eq!(s.effect_requests, 0);
    assert!(!s.setup_complete);
    assert!(s.is_finished());
}

#[test]
fn refused_effect_aborts() {
    let mut s = Startup::new(Platform::MacOs);
    let acts = s.run_events(&vec![
        Event::PluginRegistered,
        Event::SetupHook,
        Event::WindowLookedUp { found: true },
        Event::EffectApplied { ok: false },
    ]);
    assert_eq!(acts[3], Action::Abort(Failure::EffectFailed));
    assert_eq!(s.phase, Phase::Aborted(Failure::EffectFailed));
    assert_eq!(s.step(Event::RunLoopStarted { ok: true }), Action::Ignore);
    assert_eq!(s.phase, Phase::Aborted(Failure::EffectFailed));
}

#[test]
fn run_loop_failure_after_setup_aborts() {
    let mut s = Startup::new(Platform::Other);
    let acts = s.run_events(&vec![
        Event::PluginRegistered,
        Event::SetupHook,
        Event::RunLoopStarted { ok: false },
    ]);
    assert_eq!(acts[2], Action::Abort(Failure::RunLoopFailed));
    assert_eq!(s.phase, Phase::Aborted(Failure::RunLoopFailed));
}

#[test]
fn run_loop_failure_before_setup_aborts() {
    let mut s = Startup::new(Platform::MacOs);
    assert_eq!(s.step(Event::PluginRegistered), Action::StartApplication);
    assert_eq!(
        s.step(Event::RunLoopStarted { ok: false }),
        Action::Abort(Failure::RunLoopFailed)
    );
    assert_eq!(s.phase, Phase::Aborted(Failure::RunLoopFailed));
    assert_eq!(s.effect_requests, 0);
}

#[test]
fn run_loop_cannot_start_before_setup() {
    let mut s = Startup::new(Platform::MacOs);
    s.step(Event::PluginRegistered);
    assert_eq!(s.step(Event::RunLoopStarted { ok: true }), Action::Ignore);
    assert_eq!(s.phase, Phase::PluginReady);
    s.step(Event::SetupHook);
    assert_eq!(s.step(Event::RunLoopStarted { ok: true }), Action::Ignore);
    assert_eq!(s.phase, Phase::AwaitingWindow);
}

#[test]
fn plugin_registered_once() {
    let mut s = Startup::new(Platform::Other);
    assert_eq!(s.step(Event::PluginRegistered), Action::StartApplication);
    assert_eq!(s.step(Event::PluginRegistered), Action::Ignore);
    assert_eq!(s.plugin_registrations, 1);
    assert_eq!(s.step(Event::SetupHook), Action::FinishSetup);
    assert_eq!(s.step(Event::PluginRegistered), Action::Ignore);
    assert_eq!(s.plugin_registrations, 1);
}

#[test]
fn setup_hook_waits_for_plugin() {
    let mut s = Startup::new(Platform::MacOs);
    assert_eq!(s.step(Event::SetupHook), Action::Ignore);
    assert_eq!(s.phase, Phase::Configuring);
    assert_eq!(s.plugin_registrations, 0);
}

#[test]
fn no_events_no_actions() {
    let mut s = Startup::new(Platform::MacOs);
    let acts = s.run_events(&Vec::new());
    assert!(acts.is_empty());
    assert_eq!(s, Startup::new(Platform::MacOs));
}

#[test]
fn failure_messages() {
    assert_eq!(Failure::WindowNotFound.message(), "main window not found");
    assert_eq!(Failure::EffectFailed.message(), "Failed to apply vibrancy");
    assert_eq!(
        Failure::RunLoopFailed.message(),
        "error while running application"
    );
}

#[test]
fn main_window_is_labelled_main() {
    assert_eq!(main_window_label(), "main");
}
