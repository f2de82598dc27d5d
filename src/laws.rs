use vstd::prelude::*;

use crate::startup::{
    count_of, effect_count, initial, is_terminal, next, run, sidebar_request, Action, Event,
    Failure, Phase, Platform, Startup,
};

verus! {

/// What every run of `evs` from a well-formed `s` keeps: the state stays
/// well formed, the platform stays, each effect request is counted in the
/// state and carries the sidebar parameters, and each registration of the
/// plugin is answered by exactly one start of the application.
proof fn lemma_run_counts(s: Startup, evs: Seq<Event>)
    requires
        s.wf(),
    ensures
        run(s, evs).0.wf(),
        run(s, evs).0.platform == s.platform,
        run(s, evs).1.len() == evs.len(),
        s.effect_requests + effect_count(run(s, evs).1) == run(s, evs).0.effect_requests,
        s.plugin_registrations + count_of(run(s, evs).1, Action::StartApplication)
            == run(s, evs).0.plugin_registrations,
        forall|i: int|
            0 <= i < evs.len() && (#[trigger] run(s, evs).1[i]) is ApplyEffect ==> run(s, evs).1[i]
                == Action::ApplyEffect(sidebar_request()),
    decreases evs.len(),
{
    if evs.len() > 0 {
        lemma_run_counts(s, evs.drop_last());
        let prev = run(s, evs.drop_last());
        let last = next(prev.0, evs.last());
        assert(run(s, evs).1 == prev.1.push(last.1));
        assert(run(s, evs).1.drop_last() =~= prev.1);
        assert forall|i: int|
            0 <= i < evs.len() && (#[trigger] run(s, evs).1[i]) is ApplyEffect implies run(
                s,
                evs,
            ).1[i] == Action::ApplyEffect(sidebar_request()) by {
            if i < evs.len() - 1 {
                assert(run(s, evs).1[i] == prev.1[i]);
            }
        }
    }
}

/// On macOS the effect is applied at most once per launch, always with the
/// sidebar material and following the window's active state; and once the run
/// loop is running it has been applied exactly once.
pub proof fn law_effect_once_on_macos(evs: Seq<Event>)
    ensures
        effect_count(run(initial(Platform::MacOs), evs).1) <= 1,
        forall|i: int|
            0 <= i < evs.len() && (#[trigger] run(initial(Platform::MacOs), evs).1[i]) is ApplyEffect
                ==> run(initial(Platform::MacOs), evs).1[i] == Action::ApplyEffect(
                sidebar_request(),
            ),
        run(initial(Platform::MacOs), evs).0.phase == Phase::Running ==> effect_count(
            run(initial(Platform::MacOs), evs).1,
        ) == 1,
{
    lemma_run_counts(initial(Platform::MacOs), evs);
}

/// On any other platform the effect is never requested, and the setup hook
/// reports success as soon as it runs.
pub proof fn law_no_effect_elsewhere(evs: Seq<Event>, s: Startup)
    requires
        s.wf(),
        s.platform == Platform::Other,
        s.phase == Phase::PluginReady,
    ensures
        effect_count(run(initial(Platform::Other), evs).1) == 0,
        next(s, Event::SetupHook).1 == Action::FinishSetup,
        next(s, Event::SetupHook).0.phase == Phase::SetUp,
        next(s, Event::SetupHook).0.setup_complete,
{
    lemma_run_counts(initial(Platform::Other), evs);
}

/// A missing main window aborts startup, and nothing continues after an
/// abort.
pub proof fn law_missing_window_is_fatal(s: Startup, e: Event)
    requires
        s.wf(),
        s.phase == Phase::AwaitingWindow,
    ensures
        next(s, Event::WindowLookedUp { found: false }).1 == Action::Abort(Failure::WindowNotFound),
        next(s, Event::WindowLookedUp { found: false }).0.phase == Phase::Aborted(
            Failure::WindowNotFound,
        ),
        next(next(s, Event::WindowLookedUp { found: false }).0, e) == (
            next(s, Event::WindowLookedUp { found: false }).0,
            Action::Ignore,
        ),
{
}

/// The opener plugin is registered at most once per launch, the application
/// is started only after it, and the run loop never runs without it.
pub proof fn law_plugin_registered_once(p: Platform, evs: Seq<Event>)
    ensures
        run(initial(p), evs).0.plugin_registrations <= 1,
        count_of(run(initial(p), evs).1, Action::StartApplication)
            == run(initial(p), evs).0.plugin_registrations,
        run(initial(p), evs).0.phase != Phase::Configuring ==> run(
            initial(p),
            evs,
        ).0.plugin_registrations == 1,
        run(initial(p), evs).0.phase == Phase::Running ==> run(
            initial(p),
            evs,
        ).0.plugin_registrations == 1,
{
    lemma_run_counts(initial(p), evs);
}

/// Startup ends either in the run loop or in an abort. The run loop is
/// entered only from a completed setup (on macOS, after the effect was
/// applied); a start of the run loop after setup ends startup one way or the
/// other; and an ended startup ignores every further event.
pub proof fn law_two_outcomes(s: Startup, e: Event)
    requires
        s.wf(),
    ensures
        next(s, e).0.wf(),
        next(s, e).0.phase == Phase::Running ==> next(s, e).0.setup_complete
            && next(s, e).0.plugin_registrations == 1 && (s.platform == Platform::MacOs
            ==> next(s, e).0.effect_requests == 1),
        next(s, e).0.phase == Phase::Running ==> s.phase == Phase::SetUp || s.phase
            == Phase::Running,
        next(s, e).1 is Abort ==> next(s, e).0.phase == Phase::Aborted(next(s, e).1->Abort_0),
        s.phase == Phase::SetUp && e is RunLoopStarted ==> is_terminal(next(s, e).0.phase),
        is_terminal(s.phase) ==> next(s, e) == (s, Action::Ignore),
{
}

} // verus!
