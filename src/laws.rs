use vstd::prelude::*;
use crate::config::{Plugin, ShellConfig, plan_of};
use crate::bootstrap::{Action, Event, Stage, action_at, next, stage_after};

verus! {

/// The event loop runs, or start-up has ended normally or fatally.
pub open spec fn settled(s: Stage) -> bool {
    s matches Stage::Running || s matches Stage::Exited || s matches Stage::Failed
}

/// Registration never runs past the end of the plan.
pub open spec fn within_plan(plan: Seq<Plugin>, s: Stage) -> bool {
    s matches Stage::Registering { next } ==> next <= plan.len()
}

/// An upper bound on the steps left before start-up settles.
pub open spec fn steps_left(plan: Seq<Plugin>, s: Stage) -> int {
    match s {
        Stage::Registering { next } => plan.len() - next + 4,
        Stage::AwaitingSetup => 3,
        Stage::LookingUp => 2,
        Stage::OpeningDevtools => 1,
        _ => 0,
    }
}

/// `n` reports that the previous action was carried out.
pub open spec fn proceeds(n: nat) -> Seq<Event> {
    Seq::new(n, |i: int| Event::Proceed)
}

proof fn lemma_step_progress(config: ShellConfig, plan: Seq<Plugin>, s: Stage, e: Event)
    requires
        within_plan(plan, s),
        plan.len() <= usize::MAX,
    ensures
        within_plan(plan, next(config, plan, s, e).0),
        settled(s) ==> settled(next(config, plan, s, e).0),
        !settled(s) ==> steps_left(plan, next(config, plan, s, e).0) < steps_left(plan, s),
        steps_left(plan, next(config, plan, s, e).0) >= 0,
{
}

proof fn lemma_progress_along(config: ShellConfig, plan: Seq<Plugin>, events: Seq<Event>)
    requires
        plan.len() <= usize::MAX,
    ensures
        within_plan(plan, stage_after(config, plan, events)),
        steps_left(plan, stage_after(config, plan, events)) >= 0,
        settled(stage_after(config, plan, events))
            || steps_left(plan, stage_after(config, plan, events)) + events.len() <= plan.len() + 4,
    decreases events.len(),
{
    if events.len() > 0 {
        let prev = stage_after(config, plan, events.drop_last());
        lemma_progress_along(config, plan, events.drop_last());
        lemma_step_progress(config, plan, prev, events.last());
    }
}

/// Start-up never stalls: whatever the host reports, after as many
/// reports as there are plugins plus four, the event loop is running or
/// the application has ended, normally or by a fatal termination.
pub proof fn lemma_start_up_settles(config: ShellConfig, events: Seq<Event>)
    requires
        events.len() >= plan_of(config).len() + 4,
    ensures
        settled(stage_after(config, plan_of(config), events)),
{
    lemma_progress_along(config, plan_of(config), events);
}

/// The event loop has been started and has not returned yet.
pub open spec fn launched(s: Stage) -> bool {
    s matches Stage::AwaitingSetup || s matches Stage::LookingUp || s matches Stage::OpeningDevtools
        || s matches Stage::Running
}

/// Once start-up has settled it stays settled. Once the event loop was
/// started, its failure always ends in a fatal termination and its normal
/// return in a normal exit.
pub proof fn lemma_settled_is_final(config: ShellConfig, plan: Seq<Plugin>, s: Stage, e: Event)
    ensures
        settled(s) ==> settled(next(config, plan, s, e).0),
        launched(s) ==> next(config, plan, s, Event::LoopEnded { ok: false }) == (Stage::Failed, Action::Abort),
        launched(s) ==> next(config, plan, s, Event::LoopEnded { ok: true }) == (Stage::Exited, Action::Exit),
{
}

proof fn lemma_registering_phase(config: ShellConfig, plan: Seq<Plugin>, events: Seq<Event>)
    requires
        events.len() <= plan.len(),
        plan.len() <= usize::MAX,
    ensures
        stage_after(config, plan, events) == (Stage::Registering { next: events.len() as usize }),
    decreases events.len(),
{
    if events.len() > 0 {
        lemma_registering_phase(config, plan, events.drop_last());
    }
}

/// The plugins are attached first, each exactly once and in plan order,
/// whatever the host reports meanwhile; the step after the last one
/// starts the event loop.
pub proof fn lemma_plugins_attached_in_order(config: ShellConfig, plan: Seq<Plugin>, events: Seq<Event>, i: int)
    requires
        plan.len() <= usize::MAX,
        0 <= i < events.len(),
        i <= plan.len(),
    ensures
        i < plan.len() ==> action_at(config, plan, events, i) == Action::Register(plan[i]),
        i == plan.len() ==> action_at(config, plan, events, i) == Action::Launch,
{
    lemma_registering_phase(config, plan, events.take(i));
}

proof fn lemma_launched(config: ShellConfig, plan: Seq<Plugin>)
    requires
        plan.len() < usize::MAX,
    ensures
        stage_after(config, plan, proceeds(plan.len() + 1)) == Stage::AwaitingSetup,
{
    let ev = proceeds(plan.len() + 1);
    assert(ev.drop_last() =~= proceeds(plan.len()));
    lemma_registering_phase(config, plan, proceeds(plan.len()));
}

/// Without the developer-tools flag the window lookup and the
/// developer-tools request never happen, whatever the host reports.
pub proof fn lemma_no_devtools_without_flag(config: ShellConfig, events: Seq<Event>, i: int)
    requires
        !config.enable_devtools,
        0 <= i < events.len(),
    ensures
        action_at(config, plan_of(config), events, i) != Action::OpenDevtools,
        action_at(config, plan_of(config), events, i) != Action::LookupWindow,
{
    lemma_no_lookup_stage(config, events.take(i));
}

proof fn lemma_no_lookup_stage(config: ShellConfig, events: Seq<Event>)
    requires
        !config.enable_devtools,
    ensures
        !(stage_after(config, plan_of(config), events) matches Stage::LookingUp),
        !(stage_after(config, plan_of(config), events) matches Stage::OpeningDevtools),
    decreases events.len(),
{
    if events.len() > 0 {
        lemma_no_lookup_stage(config, events.drop_last());
    }
}

/// The reports of a debug start-up in which the main window exists: the
/// plugins and the launch go through, the setup hook is entered, the
/// lookup finds the window, and opening developer tools gives `opened`.
pub open spec fn found_window_reports(plugins: nat, opened: bool) -> Seq<Event> {
    proceeds(plugins + 1).push(Event::Proceed).push(Event::Window { found: true }).push(
        Event::Devtools { opened },
    )
}

/// The reports of a debug start-up in which no main window exists.
pub open spec fn missing_window_reports(plugins: nat) -> Seq<Event> {
    proceeds(plugins + 1).push(Event::Proceed).push(Event::Window { found: false })
}

/// With developer tools enabled and a main window present, the setup hook
/// looks the window up and asks it to open developer tools; whether that
/// succeeds or fails, the hook then returns success and the event loop runs.
pub proof fn lemma_devtools_opened_on_main_window(config: ShellConfig, opened: bool)
    requires
        config.enable_devtools,
    ensures
        ({
            let plan = plan_of(config);
            let ev = found_window_reports(plan.len(), opened);
            &&& action_at(config, plan, ev, plan.len() as int + 1) == Action::LookupWindow
            &&& action_at(config, plan, ev, plan.len() as int + 2) == Action::OpenDevtools
            &&& action_at(config, plan, ev, plan.len() as int + 3) == Action::CompleteSetup
            &&& stage_after(config, plan, ev) == Stage::Running
        }),
{
    let plan = plan_of(config);
    let n = plan.len();
    let ev = found_window_reports(n, opened);
    lemma_launched(config, plan);
    let p0 = proceeds(n + 1);
    let p1 = p0.push(Event::Proceed);
    let p2 = p1.push(Event::Window { found: true });
    assert(ev.take(n as int + 1) =~= p0);
    assert(ev.take(n as int + 2) =~= p1);
    assert(ev.take(n as int + 3) =~= p2);
    assert(p1.drop_last() =~= p0);
    assert(p2.drop_last() =~= p1);
    assert(ev.drop_last() =~= p2);
}

/// With developer tools enabled and no main window, the setup hook returns
/// success right after the lookup and never asks for developer tools.
pub proof fn lemma_missing_main_window_is_harmless(config: ShellConfig)
    requires
        config.enable_devtools,
    ensures
        ({
            let plan = plan_of(config);
            let ev = missing_window_reports(plan.len());
            &&& action_at(config, plan, ev, plan.len() as int + 1) == Action::LookupWindow
            &&& action_at(config, plan, ev, plan.len() as int + 2) == Action::CompleteSetup
            &&& stage_after(config, plan, ev) == Stage::Running
            &&& forall|i: int| 0 <= i < ev.len() ==> action_at(config, plan, ev, i) != Action::OpenDevtools
        }),
{
    let plan = plan_of(config);
    let n = plan.len();
    let ev = missing_window_reports(n);
    lemma_launched(config, plan);
    let p0 = proceeds(n + 1);
    let p1 = p0.push(Event::Proceed);
    assert(ev.take(n as int + 1) =~= p0);
    assert(ev.take(n as int + 2) =~= p1);
    assert(p1.drop_last() =~= p0);
    assert(ev.drop_last() =~= p1);
    assert forall|i: int| 0 <= i < ev.len() implies action_at(config, plan, ev, i) != Action::OpenDevtools by {
        if i <= n {
            lemma_plugins_attached_in_order(config, plan, ev, i);
        }
    }
}

/// The order of the plugin plan has no effect on start-up: for two plans
/// of the same length (in particular, two orders of the same plugins) and
/// any reports, the stages are the same, every step that attaches a plugin
/// in one attaches a plugin in the other, and every other action is the same.
pub proof fn lemma_plugin_order_irrelevant(
    config: ShellConfig,
    a: Seq<Plugin>,
    b: Seq<Plugin>,
    events: Seq<Event>,
)
    requires
        a.len() == b.len(),
    ensures
        stage_after(config, a, events) == stage_after(config, b, events),
        forall|i: int|
            0 <= i < events.len() ==> {
                ||| (action_at(config, a, events, i) is Register && action_at(config, b, events, i) is Register)
                ||| action_at(config, a, events, i) == action_at(config, b, events, i)
            },
{
    lemma_same_stages(config, a, b, events);
    assert forall|i: int|
        0 <= i < events.len() implies {
            ||| (action_at(config, a, events, i) is Register && action_at(config, b, events, i) is Register)
            ||| action_at(config, a, events, i) == action_at(config, b, events, i)
        } by {
        lemma_same_stages(config, a, b, events.take(i));
    }
}

proof fn lemma_same_stages(config: ShellConfig, a: Seq<Plugin>, b: Seq<Plugin>, events: Seq<Event>)
    requires
        a.len() == b.len(),
    ensures
        stage_after(config, a, events) == stage_after(config, b, events),
    decreases events.len(),
{
    if events.len() > 0 {
        lemma_same_stages(config, a, b, events.drop_last());
    }
}

} // verus!
