use iui::ffi_tools::ProcessGuard;
use iui::ui::{delay_nanos, LoopState, Tick, UI};

fn running() -> UI {
    let mut guard = ProcessGuard::new();
    UI::init(&mut guard, None).unwrap()
}

#[test]
fn a_fresh_loop_has_no_tick_callback() {
    let ui = running();
    let mut events = ui.event_loop();
    assert_eq!(events.next_tick(&ui, 1), Tick { keep_running: true, callback: None });
}

#[test]
fn the_tick_callback_is_due_after_every_step() {
    let ui = running();
    let mut events = ui.event_loop();
    assert_eq!(events.on_tick(&ui, 0xc0), None);
    assert_eq!(events.next_tick(&ui, 1), Tick { keep_running: true, callback: Some(0xc0) });
    assert_eq!(events.next_event_tick(&ui, 1), Tick { keep_running: true, callback: Some(0xc0) });
    assert_eq!(events.next_event_tick(&ui, 0), Tick { keep_running: false, callback: Some(0xc0) });
    assert_eq!(events.on_tick(&ui, 0xd0), Some(0xc0));
    assert_eq!(events.next_tick(&ui, 0), Tick { keep_running: false, callback: Some(0xd0) });
}

#[test]
fn only_the_answer_one_keeps_the_loop_running() {
    let ui = running();
    let mut events = ui.event_loop();
    assert!(events.next_tick(&ui, 1).keep_running);
    assert!(!events.next_tick(&ui, 0).keep_running);
    assert!(!events.next_tick(&ui, 2).keep_running);
    assert!(!events.next_tick(&ui, -1).keep_running);
}

#[test]
fn run_steps_until_the_toolkit_says_stop() {
    let ui = running();
    let mut events = ui.event_loop();
    assert_eq!(events.run(&ui, &vec![1, 1, 1, 0, 1, 1]), 4);
    assert_eq!(events.run(&ui, &vec![0]), 1);
    assert_eq!(events.run(&ui, &vec![0, 0]), 1);
    assert_eq!(events.run(&ui, &vec![1, 1]), 2);
    assert_eq!(events.run(&ui, &vec![]), 0);
    assert_eq!(events.run(&ui, &vec![1, 2, 1]), 2);
}

#[test]
fn the_loop_tells_its_tick_callback() {
    let ui = running();
    let mut events = ui.event_loop();
    assert_eq!(events.callback(), None);
    events.on_tick(&ui, 0xc0);
    assert_eq!(events.callback(), Some(0xc0));
    events.next_tick(&ui, 1);
    assert_eq!(events.callback(), Some(0xc0));
}

#[test]
fn a_pause_in_nanoseconds() {
    assert_eq!(delay_nanos(0), 0);
    assert_eq!(delay_nanos(1), 1_000_000);
    assert_eq!(delay_nanos(16), 16_000_000);
    assert_eq!(delay_nanos(4294), 4_294_000_000);
}

#[test]
fn a_step_goes_from_idle_to_stepping_and_back() {
    let ui = running();
    let mut events = ui.event_loop();
    assert_eq!(events.state(), LoopState::Idle);
    assert_eq!(events.step(&ui, false), 0);
    assert_eq!(events.state(), LoopState::Stepping { wait: false });
    events.on_tick(&ui, 0xc0);
    assert_eq!(events.state(), LoopState::Stepping { wait: false });
    events.next_tick(&ui, 1);
    assert_eq!(events.state(), LoopState::Idle);
    assert_eq!(events.step(&ui, true), 1);
    assert_eq!(events.state(), LoopState::Stepping { wait: true });
    events.next_event_tick(&ui, 0);
    assert_eq!(events.state(), LoopState::Idle);
    events.run(&ui, &vec![1, 0]);
    assert_eq!(events.state(), LoopState::Idle);
}
