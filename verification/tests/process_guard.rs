use iui::error::UIError;
use iui::ffi_tools::{is_initialized, ProcessGuard};
use iui::ui::UI;
use iui::window::{Registry, Window};

#[test]
fn a_new_guard_is_not_initialized() {
    let guard = ProcessGuard::new();
    assert!(!is_initialized(&guard));
}

#[test]
fn set_and_unset_flip_the_flag() {
    let mut guard = ProcessGuard::new();
    guard.set_initialized();
    assert!(is_initialized(&guard));
    guard.unset_initialized();
    assert!(!is_initialized(&guard));
    guard.unset_initialized();
    assert!(!is_initialized(&guard));
}

#[test]
fn only_one_instance_at_a_time() {
    let mut guard = ProcessGuard::new();
    let mut registry = Registry::new();
    let first = UI::init(&mut guard, None);
    assert!(first.is_ok());
    assert!(is_initialized(&guard));

    let second = UI::init(&mut guard, None);
    assert!(matches!(second, Err(UIError::MultipleInitError)));
    assert!(is_initialized(&guard));

    let rest = first.unwrap().uninit(&mut guard, &mut registry);
    assert!(rest.is_empty());
    assert!(!is_initialized(&guard));

    let third = UI::init(&mut guard, None);
    assert!(third.is_ok());
    assert!(is_initialized(&guard));
}

#[test]
fn a_second_start_wins_over_a_startup_error() {
    let mut guard = ProcessGuard::new();
    let _first = UI::init(&mut guard, None).unwrap();
    let second = UI::init(&mut guard, Some("no display".to_string()));
    assert!(matches!(second, Err(UIError::MultipleInitError)));
    assert!(is_initialized(&guard));
}

#[test]
fn a_startup_error_is_forwarded_verbatim() {
    let mut guard = ProcessGuard::new();
    let refused = UI::init(&mut guard, Some("cannot open display: :0".to_string()));
    match refused {
        Err(UIError::FailedInitError { error }) => assert_eq!(error, "cannot open display: :0"),
        _ => panic!("the start-up error was lost"),
    }
    assert!(!is_initialized(&guard));
    assert!(UI::init(&mut guard, None).is_ok());
}

#[test]
fn only_a_second_start_is_recoverable() {
    assert!(UIError::MultipleInitError.is_recoverable());
    assert!(!UIError::FailedInitError { error: "x".to_string() }.is_recoverable());
    assert!(!UIError::TabGroupIndexOutOfBounds { index: 3, n: 2 }.is_recoverable());
}

#[test]
fn shutdown_hands_out_the_windows_oldest_first() {
    let mut guard = ProcessGuard::new();
    let mut registry = Registry::new();
    let ui = UI::init(&mut guard, None).unwrap();
    let a = Window::new(&ui, &mut registry, 0x100);
    let b = Window::new(&ui, &mut registry, 0x200);
    let c = Window::new(&ui, &mut registry, 0x300);
    let rest = ui.uninit(&mut guard, &mut registry);
    assert_eq!(rest, vec![a, b, c]);
    assert_eq!(registry.len(), 0);
    assert!(!is_initialized(&guard));
}
