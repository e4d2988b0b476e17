use vstd::prelude::*;
use crate::config::{Plugin, ShellConfig, plan_of, plugin_plan};

verus! {

/// Label of the window whose developer tools the setup hook opens.
pub const MAIN_WINDOW_LABEL: &'static str = "main";

/// Diagnostic printed when the event loop cannot start or fails.
pub const FATAL_MESSAGE: &'static str = "error while running tauri application";

/// Where the shell is in its start-up.
#[derive(Clone, Copy, Debug, PartialEq, Eq, Structural)]
pub enum Stage {
    /// Attaching the planned plugins; `next` indexes the plan.
    Registering { next: usize },
    /// The event loop was asked to start; the setup hook has not run yet.
    AwaitingSetup,
    /// The setup hook is looking up the main window.
    LookingUp,
    /// The setup hook asked the main window to open developer tools.
    OpeningDevtools,
    /// Setup finished; the event loop runs.
    Running,
    /// The event loop ended normally.
    Exited,
    /// The event loop failed; the process must terminate.
    Failed,
}

/// What the host reports back after performing an action.
#[derive(Clone, Copy, Debug, PartialEq, Eq, Structural)]
pub enum Event {
    /// The previous action was carried out (or the setup hook was entered).
    Proceed,
    /// Result of looking up the main window.
    Window { found: bool },
    /// Result of opening developer tools. It is deliberately ignored:
    /// developer tools are a debug aid and must never block start-up.
    Devtools { opened: bool },
    /// The event loop returned, successfully or not.
    LoopEnded { ok: bool },
}

/// What the host is asked to do next.
#[derive(Clone, Copy, Debug, PartialEq, Eq, Structural)]
pub enum Action {
    /// Attach this plugin to the application builder.
    Register(Plugin),
    /// Install the setup hook and start the blocking event loop.
    Launch,
    /// Look up the window labelled `MAIN_WINDOW_LABEL`.
    LookupWindow,
    /// Ask the main window to open its developer tools (best effort).
    OpenDevtools,
    /// Return success from the setup hook.
    CompleteSetup,
    /// Nothing to do.
    Idle,
    /// Return normally: the application has shut down.
    Exit,
    /// Terminate the process with `FATAL_MESSAGE`.
    Abort,
}

/// How the shell ends once the event loop returns.
pub open spec fn ending(ok: bool) -> (Stage, Action) {
    if ok {
        (Stage::Exited, Action::Exit)
    } else {
        (Stage::Failed, Action::Abort)
    }
}

/// One transition of the start-up sequence.
pub open spec fn next(config: ShellConfig, plan: Seq<Plugin>, s: Stage, e: Event) -> (Stage, Action) {
    match s {
        Stage::Registering { next } => {
            if next < plan.len() {
                (Stage::Registering { next: (next + 1) as usize }, Action::Register(plan[next as int]))
            } else {
                (Stage::AwaitingSetup, Action::Launch)
            }
        },
        Stage::AwaitingSetup => match e {
            Event::LoopEnded { ok } => ending(ok),
            _ => if config.enable_devtools {
                (Stage::LookingUp, Action::LookupWindow)
            } else {
                (Stage::Running, Action::CompleteSetup)
            },
        },
        Stage::LookingUp => match e {
            Event::LoopEnded { ok } => ending(ok),
            Event::Window { found: true } => (Stage::OpeningDevtools, Action::OpenDevtools),
            _ => (Stage::Running, Action::CompleteSetup),
        },
        Stage::OpeningDevtools => match e {
            Event::LoopEnded { ok } => ending(ok),
            _ => (Stage::Running, Action::CompleteSetup),
        },
        Stage::Running => match e {
            Event::LoopEnded { ok } => ending(ok),
            _ => (Stage::Running, Action::Idle),
        },
        Stage::Exited => (Stage::Exited, Action::Idle),
        Stage::Failed => (Stage::Failed, Action::Idle),
    }
}

/// The stage in which start-up begins.
pub open spec fn initial_stage() -> Stage {
    Stage::Registering { next: 0 }
}

/// The stage reached after the host reported `events`, in order.
pub open spec fn stage_after(config: ShellConfig, plan: Seq<Plugin>, events: Seq<Event>) -> Stage
    decreases events.len(),
{
    if events.len() == 0 {
        initial_stage()
    } else {
        next(config, plan, stage_after(config, plan, events.drop_last()), events.last()).0
    }
}

/// The action emitted in answer to the `i`-th event of `events`.
pub open spec fn action_at(config: ShellConfig, plan: Seq<Plugin>, events: Seq<Event>, i: int) -> Action {
    next(config, plan, stage_after(config, plan, events.take(i)), events[i]).1
}

/// The start-up sequencer: the configuration, the plugin plan derived from
/// it, and the current stage.
pub struct Bootstrap {
    config: ShellConfig,
    plan: Vec<Plugin>,
    stage: Stage,
}

impl Bootstrap {
    pub closed spec fn config_spec(&self) -> ShellConfig {
        self.config
    }

    pub closed spec fn plan_spec(&self) -> Seq<Plugin> {
        self.plan@
    }

    pub closed spec fn stage_spec(&self) -> Stage {
        self.stage
    }

    /// The plan is the one derived from the configuration, and registration
    /// never runs past its end.
    pub open spec fn wf(&self) -> bool {
        &&& self.plan_spec() == plan_of(self.config_spec())
        &&& (self.stage_spec() matches Stage::Registering { next } ==> next <= self.plan_spec().len())
    }

    /// A sequencer at the start of start-up for `config`.
    pub fn new(config: ShellConfig) -> (r: Bootstrap)
        ensures
            r.wf(),
            r.config_spec() == config,
            r.plan_spec() == plan_of(config),
            r.stage_spec() == initial_stage(),
    {
        let plan = plugin_plan(&config);
        Bootstrap { config, plan, stage: Stage::Registering { next: 0 } }
    }

    /// Takes the host's report of the last action and returns the next one.
    pub fn step(&mut self, event: Event) -> (a: Action)
        requires
            old(self).wf(),
        ensures
            final(self).wf(),
            final(self).config_spec() == old(self).config_spec(),
            final(self).plan_spec() == old(self).plan_spec(),
            (final(self).stage_spec(), a) == next(
                old(self).config_spec(),
                old(self).plan_spec(),
                old(self).stage_spec(),
                event,
            ),
    {
        let (s, a) = match self.stage {
            Stage::Registering { next } => {
                if next < self.plan.len() {
                    (Stage::Registering { next: next + 1 }, Action::Register(self.plan[next]))
                } else {
                    (Stage::AwaitingSetup, Action::Launch)
                }
            },
            Stage::AwaitingSetup => match event {
                Event::LoopEnded { ok } => end_of_loop(ok),
                _ => if self.config.enable_devtools {
                    (Stage::LookingUp, Action::LookupWindow)
                } else {
                    (Stage::Running, Action::CompleteSetup)
                },
            },
            Stage::LookingUp => match event {
                Event::LoopEnded { ok } => end_of_loop(ok),
                Event::Window { found: true } => (Stage::OpeningDevtools, Action::OpenDevtools),
                _ => (Stage::Running, Action::CompleteSetup),
            },
            Stage::OpeningDevtools => match event {
                Event::LoopEnded { ok } => end_of_loop(ok),
                _ => (Stage::Running, Action::CompleteSetup),
            },
            Stage::Running => match event {
                Event::LoopEnded { ok } => end_of_loop(ok),
                _ => (Stage::Running, Action::Idle),
            },
            Stage::Exited => (Stage::Exited, Action::Idle),
            Stage::Failed => (Stage::Failed, Action::Idle),
        };
        self.stage = s;
        a
    }

    /// The current stage.
    pub fn stage(&self) -> (r: Stage)
        ensures
            r == self.stage_spec(),
    {
        self.stage
    }

    /// The configuration this sequencer was made with.
    pub fn config(&self) -> (r: ShellConfig)
        ensures
            r == self.config_spec(),
    {
        self.config
    }

    /// The plugins this sequencer attaches, in order.
    pub fn plan(&self) -> (r: &Vec<Plugin>)
        ensures
            r@ == self.plan_spec(),
    {
        &self.plan
    }
}

/// Stage and action once the event loop has returned with `ok`.
pub fn end_of_loop(ok: bool) -> (r: (Stage, Action))
    ensures
        r == ending(ok),
{
    if ok {
        (Stage::Exited, Action::Exit)
    } else {
        (Stage::Failed, Action::Abort)
    }
}

} // verus!
