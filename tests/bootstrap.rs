use app_shell::bootstrap::{Action, Bootstrap, Event, Stage, FATAL_MESSAGE, MAIN_WINDOW_LABEL};
use app_shell::config::{plugin_plan, Plugin, ShellConfig};

fn config(updater: bool, process: bool, devtools: bool) -> ShellConfig {
    ShellConfig { enable_updater: updater, enable_process: process, enable_devtools: devtools }
}

/// Feeds `events` in order and returns the actions.
fn drive(b: &mut Bootstrap, events: &[Event]) -> Vec<Action> {
    events.iter().map(|e| b.step(*e)).collect()
}

#[test]
fn plan_with_both_plugins_lists_updater_then_process() {
    assert_eq!(plugin_plan(&config(true, true, false)), vec![Plugin::Updater, Plugin::Process]);
}

#[test]
fn plan_follows_each_flag() {
    assert_eq!(plugin_plan(&config(false, false, true)), Vec::<Plugin>::new());
    assert_eq!(plugin_plan(&config(true, false, false)), vec![Plugin::Updater]);
    assert_eq!(plugin_plan(&config(false, true, false)), vec![Plugin::Process]);
}

#[test]
fn new_sequencer_starts_registering_its_plan() {
    let c = config(true, true, true);
    let b = Bootstrap::new(c);
    assert_eq!(b.stage(), Stage::Registering { next: 0 });
    assert_eq!(b.config(), c);
    assert_eq!(b.plan(), &vec![Plugin::Updater, Plugin::Process]);
}

#[test]
fn debug_start_up_opens_devtools_on_main_window() {
    let mut b = Bootstrap::new(config(true, true, true));
    let actions = drive(
        &mut b,
        &[
            Event::Proceed,
            Event::Proceed,
            Event::Proceed,
            Event::Proceed,
            Event::Window { found: true },
            Event::Devtools { opened: true },
        ],
    );
    assert_eq!(
        actions,
        vec![
            Action::Register(Plugin::Updater),
            Action::Register(Plugin::Process),
            Action::Launch,
            Action::LookupWindow,
            Action::OpenDevtools,
            Action::CompleteSetup,
        ]
    );
    assert_eq!(b.stage(), Stage::Running);
}

#[test]
fn devtools_failure_still_completes_setup() {
    let mut b = Bootstrap::new(config(false, false, true));
    let actions = drive(
        &mut b,
        &[Event::Proceed, Event::Proceed, Event::Window { found: true }, Event::Devtools { opened: false }],
    );
    assert_eq!(actions[3], Action::CompleteSetup);
    assert_eq!(b.stage(), Stage::Running);
}

#[test]
fn missing_main_window_completes_setup_without_devtools() {
    let mut b = Bootstrap::new(config(true, false, true));
    let actions = drive(&mut b, &[Event::Proceed, Event::Proceed, Event::Proceed, Event::Window { found: false }]);
    assert_eq!(
        actions,
        vec![Action::Register(Plugin::Updater), Action::Launch, Action::LookupWindow, Action::CompleteSetup]
    );
    assert!(!actions.contains(&Action::OpenDevtools));
    assert_eq!(b.stage(), Stage::Running);
}

#[test]
fn release_start_up_never_touches_devtools() {
    let mut b = Bootstrap::new(config(true, true, false));
    let actions = drive(
        &mut b,
        &[
            Event::Proceed,
            Event::Proceed,
            Event::Proceed,
            Event::Proceed,
            Event::Window { found: true },
            Event::Devtools { opened: true },
            Event::Proceed,
        ],
    );
    assert_eq!(actions[3], Action::CompleteSetup);
    assert!(!actions.contains(&Action::LookupWindow));
    assert!(!actions.contains(&Action::OpenDevtools));
    assert_eq!(b.stage(), Stage::Running);
}

#[test]
fn failed_event_loop_aborts() {
    let mut b = Bootstrap::new(config(false, true, false));
    let actions = drive(&mut b, &[Event::Proceed, Event::Proceed, Event::LoopEnded { ok: false }]);
    assert_eq!(actions, vec![Action::Register(Plugin::Process), Action::Launch, Action::Abort]);
    assert_eq!(b.stage(), Stage::Failed);
    assert_eq!(b.step(Event::Proceed), Action::Idle);
    assert_eq!(b.stage(), Stage::Failed);
}

#[test]
fn normal_shutdown_exits() {
    let mut b = Bootstrap::new(config(false, false, false));
    let actions = drive(&mut b, &[Event::Proceed, Event::Proceed, Event::Proceed, Event::LoopEnded { ok: true }]);
    assert_eq!(actions, vec![Action::Launch, Action::CompleteSetup, Action::Idle, Action::Exit]);
    assert_eq!(b.stage(), Stage::Exited);
}

#[test]
fn start_up_settles_whatever_is_reported() {
    let odd = [
        Event::Window { found: true },
        Event::LoopEnded { ok: true },
        Event::Devtools { opened: false },
        Event::Window { found: false },
        Event::Proceed,
        Event::Devtools { opened: true },
    ];
    for devtools in [false, true] {
        let mut b = Bootstrap::new(config(true, true, devtools));
        drive(&mut b, &odd);
        let s = b.stage();
        assert!(matches!(s, Stage::Running | Stage::Exited | Stage::Failed), "{:?}", s);
    }
}

#[test]
fn plans_of_equal_length_start_up_alike() {
    let events = [
        Event::Proceed,
        Event::Proceed,
        Event::Proceed,
        Event::Window { found: true },
        Event::Devtools { opened: false },
        Event::LoopEnded { ok: true },
    ];
    let mut a = Bootstrap::new(config(true, false, true));
    let mut b = Bootstrap::new(config(false, true, true));
    for e in events {
        let x = a.step(e);
        let y = b.step(e);
        match (x, y) {
            (Action::Register(p), Action::Register(q)) => {
                assert_eq!(p, Plugin::Updater);
                assert_eq!(q, Plugin::Process);
            }
            _ => assert_eq!(x, y),
        }
        assert_eq!(a.stage(), b.stage());
    }
    assert_eq!(a.stage(), Stage::Exited);
}

#[test]
fn window_label_and_fatal_message() {
    assert_eq!(MAIN_WINDOW_LABEL, "main");
    assert_eq!(FATAL_MESSAGE, "error while running tauri application");
}
