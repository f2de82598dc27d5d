use vstd::prelude::*;

verus! {

/// The operating system the application was built for.
#[derive(Clone, Copy, Debug, PartialEq, Eq, Structural)]
pub enum Platform {
    /// The one platform on which the translucency effect is applied.
    MacOs,
    /// Any other platform: setup does nothing and succeeds.
    Other,
}

/// The compositor material of the translucency effect.
#[derive(Clone, Copy, Debug, PartialEq, Eq, Structural)]
pub enum Material {
    /// The material of a window's sidebar.
    Sidebar,
}

/// How the effect follows the window's state.
#[derive(Clone, Copy, Debug, PartialEq, Eq, Structural)]
pub enum EffectState {
    /// Active while the window is active, inactive otherwise.
    FollowsWindowActiveState,
}

/// The parameters handed to the compositor when the effect is applied.
#[derive(Clone, Copy, Debug, PartialEq, Eq, Structural)]
pub struct EffectRequest {
    pub material: Material,
    pub state: Option<EffectState>,
}

/// Why startup was abandoned.
#[derive(Clone, Copy, Debug, PartialEq, Eq, Structural)]
pub enum Failure {
    /// No window labelled `main` existed when setup ran.
    WindowNotFound,
    /// The compositor refused the translucency effect.
    EffectFailed,
    /// The run loop could not be started.
    RunLoopFailed,
}

/// The diagnostic with which the process terminates on `f`.
pub open spec fn failure_message(f: Failure) -> Seq<char> {
    match f {
        Failure::WindowNotFound => "main window not found"@,
        Failure::EffectFailed => "Failed to apply vibrancy"@,
        Failure::RunLoopFailed => "error while running application"@,
    }
}

impl Failure {
    /// The diagnostic with which the process terminates.
    pub fn message(&self) -> (r: &'static str)
        ensures
            r@ == failure_message(*self),
    {
        match self {
            Failure::WindowNotFound => "main window not found",
            Failure::EffectFailed => "Failed to apply vibrancy",
            Failure::RunLoopFailed => "error while running application",
        }
    }
}

/// Where the startup sequence stands.
#[derive(Clone, Copy, Debug, PartialEq, Eq, Structural)]
pub enum Phase {
    /// Building the application; the opener plugin is not registered yet.
    Configuring,
    /// The plugin is registered and the application was asked to start; the
    /// setup hook has not run yet.
    PluginReady,
    /// The setup hook asked for the main window.
    AwaitingWindow,
    /// The effect was requested on the main window.
    AwaitingEffect,
    /// Setup reported success; the run loop is being started.
    SetUp,
    /// The run loop is running (terminal).
    Running,
    /// Startup was abandoned (terminal); the process is to terminate.
    Aborted(Failure),
}

/// What the caller reports back after performing an [`Action`].
#[derive(Clone, Copy, Debug, PartialEq, Eq, Structural)]
pub enum Event {
    /// The opener plugin was registered with the application builder.
    PluginRegistered,
    /// The framework invoked the setup hook.
    SetupHook,
    /// The lookup of the main window finished.
    WindowLookedUp { found: bool },
    /// The compositor call finished.
    EffectApplied { ok: bool },
    /// The run loop started (`ok`) or failed to start.
    RunLoopStarted { ok: bool },
}

/// What the caller is to do next.
#[derive(Clone, Copy, Debug, PartialEq, Eq, Structural)]
pub enum Action {
    /// Register the opener plugin with the application builder.
    RegisterOpenerPlugin,
    /// Hand the builder to the framework, which runs the setup hook and then
    /// the run loop.
    StartApplication,
    /// Look up the window labelled `main`.
    LookUpWindow,
    /// Apply the translucency effect to the main window.
    ApplyEffect(EffectRequest),
    /// Report success from the setup hook.
    FinishSetup,
    /// Nothing more to do: the run loop owns the process.
    KeepRunning,
    /// Terminate the process with the failure's message.
    Abort(Failure),
    /// The event does not belong to the current phase; nothing to do.
    Ignore,
}

/// The fixed parameters of the effect: the sidebar material, following the
/// window's active state.
pub open spec fn sidebar_request() -> EffectRequest {
    EffectRequest {
        material: Material::Sidebar,
        state: Some(EffectState::FollowsWindowActiveState),
    }
}

/// The startup sequence of one launch.
#[derive(Clone, Copy, Debug, PartialEq, Eq, Structural)]
pub struct Startup {
    pub platform: Platform,
    pub phase: Phase,
    /// How many times the opener plugin was registered.
    pub plugin_registrations: u8,
    /// How many times the effect was requested.
    pub effect_requests: u8,
    /// Whether the setup hook reported success.
    pub setup_complete: bool,
}

/// The state in which a launch on `platform` begins.
pub open spec fn initial(platform: Platform) -> Startup {
    Startup {
        platform,
        phase: Phase::Configuring,
        plugin_registrations: 0,
        effect_requests: 0,
        setup_complete: false,
    }
}

/// True of the phases before the setup hook has reported anything.
pub open spec fn before_setup(p: Phase) -> bool {
    p == Phase::Configuring || p == Phase::PluginReady || p == Phase::AwaitingWindow
        || p == Phase::AwaitingEffect
}

/// True of the two phases in which startup has ended.
pub open spec fn is_terminal(p: Phase) -> bool {
    p == Phase::Running || p is Aborted
}

/// The state and the action that follow `s` on event `e`. An event that does
/// not belong to the phase leaves the state as it is.
pub open spec fn next(s: Startup, e: Event) -> (Startup, Action) {
    match (s.phase, e) {
        (Phase::Configuring, Event::PluginRegistered) => (
            Startup {
                phase: Phase::PluginReady,
                plugin_registrations: (s.plugin_registrations + 1) as u8,
                ..s
            },
            Action::StartApplication,
        ),
        (Phase::PluginReady, Event::SetupHook) => if s.platform == Platform::MacOs {
            (Startup { phase: Phase::AwaitingWindow, ..s }, Action::LookUpWindow)
        } else {
            (Startup { phase: Phase::SetUp, setup_complete: true, ..s }, Action::FinishSetup)
        },
        (Phase::PluginReady, Event::RunLoopStarted { ok: false }) => (
            Startup { phase: Phase::Aborted(Failure::RunLoopFailed), ..s },
            Action::Abort(Failure::RunLoopFailed),
        ),
        (Phase::AwaitingWindow, Event::WindowLookedUp { found }) => if found {
            (
                Startup {
                    phase: Phase::AwaitingEffect,
                    effect_requests: (s.effect_requests + 1) as u8,
                    ..s
                },
                Action::ApplyEffect(sidebar_request()),
            )
        } else {
            (
                Startup { phase: Phase::Aborted(Failure::WindowNotFound), ..s },
                Action::Abort(Failure::WindowNotFound),
            )
        },
        (Phase::AwaitingEffect, Event::EffectApplied { ok }) => if ok {
            (Startup { phase: Phase::SetUp, setup_complete: true, ..s }, Action::FinishSetup)
        } else {
            (
                Startup { phase: Phase::Aborted(Failure::EffectFailed), ..s },
                Action::Abort(Failure::EffectFailed),
            )
        },
        (Phase::SetUp, Event::RunLoopStarted { ok }) => if ok {
            (Startup { phase: Phase::Running, ..s }, Action::KeepRunning)
        } else {
            (
                Startup { phase: Phase::Aborted(Failure::RunLoopFailed), ..s },
                Action::Abort(Failure::RunLoopFailed),
            )
        },
        _ => (s, Action::Ignore),
    }
}

/// The final state and the actions, one per event, of feeding `evs` to `s`
/// in order.
pub open spec fn run(s: Startup, evs: Seq<Event>) -> (Startup, Seq<Action>)
    decreases evs.len(),
{
    if evs.len() == 0 {
        (s, Seq::empty())
    } else {
        let prev = run(s, evs.drop_last());
        let last = next(prev.0, evs.last());
        (last.0, prev.1.push(last.1))
    }
}

/// How many of `acts` are `a`.
pub open spec fn count_of(acts: Seq<Action>, a: Action) -> nat
    decreases acts.len(),
{
    if acts.len() == 0 {
        0
    } else {
        count_of(acts.drop_last(), a) + if acts.last() == a {
            1nat
        } else {
            0nat
        }
    }
}

/// How many of `acts` apply an effect, whatever its parameters.
pub open spec fn effect_count(acts: Seq<Action>) -> nat
    decreases acts.len(),
{
    if acts.len() == 0 {
        0
    } else {
        effect_count(acts.drop_last()) + if acts.last() is ApplyEffect {
            1nat
        } else {
            0nat
        }
    }
}

impl Startup {
    /// Every state that the sequence can reach from [`Startup::new`].
    pub open spec fn wf(self) -> bool {
        &&& self.plugin_registrations == (if self.phase == Phase::Configuring { 0u8 } else { 1u8 })
        &&& self.effect_requests <= 1
        &&& self.platform == Platform::Other ==> self.effect_requests == 0
        &&& (self.phase == Phase::Configuring || self.phase == Phase::PluginReady
            || self.phase == Phase::AwaitingWindow) ==> self.effect_requests == 0
        &&& (self.phase == Phase::AwaitingWindow || self.phase == Phase::AwaitingEffect)
            ==> self.platform == Platform::MacOs
        &&& before_setup(self.phase) ==> !self.setup_complete
        &&& (self.phase == Phase::SetUp || self.phase == Phase::Running) ==> self.setup_complete
        &&& (self.phase == Phase::AwaitingEffect || self.setup_complete)
            && self.platform == Platform::MacOs ==> self.effect_requests == 1
        &&& (self.phase == Phase::Aborted(Failure::WindowNotFound) || self.phase
            == Phase::Aborted(Failure::EffectFailed)) ==> !self.setup_complete
    }

    /// A fresh sequence for `platform`: nothing registered, nothing applied.
    pub fn new(platform: Platform) -> (r: Startup)
        ensures
            r.wf(),
            r == initial(platform),
    {
        Startup {
            platform,
            phase: Phase::Configuring,
            plugin_registrations: 0,
            effect_requests: 0,
            setup_complete: false,
        }
    }

    /// The action that opens the sequence.
    pub fn first_action(&self) -> (r: Action)
        ensures
            r == Action::RegisterOpenerPlugin,
    {
        Action::RegisterOpenerPlugin
    }

    /// Whether startup has ended, in the run loop or in an abort.
    pub fn is_finished(&self) -> (r: bool)
        ensures
            r == is_terminal(self.phase),
    {
        match self.phase {
            Phase::Running => true,
            Phase::Aborted(_) => true,
            _ => false,
        }
    }

    /// Moves the sequence on by one reported event and returns what to do next.
    pub fn step(&mut self, e: Event) -> (r: Action)
        requires
            old(self).wf(),
        ensures
            final(self).wf(),
            (*final(self), r) == next(*old(self), e),
    {
        match (self.phase, e) {
            (Phase::Configuring, Event::PluginRegistered) => {
                self.phase = Phase::PluginReady;
                self.plugin_registrations = self.plugin_registrations + 1;
                Action::StartApplication
            },
            (Phase::PluginReady, Event::SetupHook) => {
                match self.platform {
                    Platform::MacOs => {
                        self.phase = Phase::AwaitingWindow;
                        Action::LookUpWindow
                    },
                    Platform::Other => {
                        self.phase = Phase::SetUp;
                        self.setup_complete = true;
                        Action::FinishSetup
                    },
                }
            },
            (Phase::PluginReady, Event::RunLoopStarted { ok: false }) => {
                self.phase = Phase::Aborted(Failure::RunLoopFailed);
                Action::Abort(Failure::RunLoopFailed)
            },
            (Phase::AwaitingWindow, Event::WindowLookedUp { found }) => {
                if found {
                    self.phase = Phase::AwaitingEffect;
                    self.effect_requests = self.effect_requests + 1;
                    Action::ApplyEffect(
                        EffectRequest {
                            material: Material::Sidebar,
                            state: Some(EffectState::FollowsWindowActiveState),
                        },
                    )
                } else {
                    self.phase = Phase::Aborted(Failure::WindowNotFound);
                    Action::Abort(Failure::WindowNotFound)
                }
            },
            (Phase::AwaitingEffect, Event::EffectApplied { ok }) => {
                if ok {
                    self.phase = Phase::SetUp;
                    self.setup_complete = true;
                    Action::FinishSetup
                } else {
                    self.phase = Phase::Aborted(Failure::EffectFailed);
                    Action::Abort(Failure::EffectFailed)
                }
            },
            (Phase::SetUp, Event::RunLoopStarted { ok }) => {
                if ok {
                    self.phase = Phase::Running;
                    Action::KeepRunning
                } else {
                    self.phase = Phase::Aborted(Failure::RunLoopFailed);
                    Action::Abort(Failure::RunLoopFailed)
                }
            },
            _ => Action::Ignore,
        }
    }
}

impl Startup {
    /// Feeds `events` to the sequence in order and returns the action that
    /// answered each of them.
    pub fn run_events(&mut self, events: &Vec<Event>) -> (r: Vec<Action>)
        requires
            old(self).wf(),
        ensures
            final(self).wf(),
            (*final(self), r@) == run(*old(self), events@),
    {
        let ghost start = *self;
        let mut acts: Vec<Action> = Vec::new();
        let mut i: usize = 0;
        while i < events.len()
            invariant
                self.wf(),
                i <= events.len(),
                (*self, acts@) == run(start, events@.take(i as int)),
            decreases events.len() - i,
        {
            let a = self.step(events[i]);
            acts.push(a);
            assert(events@.take(i + 1).drop_last() =~= events@.take(i as int));
            i = i + 1;
        }
        assert(events@.take(events.len() as int) =~= events@);
        acts
    }
}

/// The label of the window that receives the translucency effect.
pub fn main_window_label() -> (r: &'static str)
    ensures
        r@ == "main"@,
{
    "main"
}

} // verus!
