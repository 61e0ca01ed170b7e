use iui::ffi_tools::ProcessGuard;
use iui::handle::Handle;
use iui::ui::UI;
use iui::window::{Registry, Window, WindowType};

fn running() -> (ProcessGuard, UI) {
    let mut guard = ProcessGuard::new();
    let ui = UI::init(&mut guard, None).unwrap();
    (guard, ui)
}

#[test]
fn shutdown_destroys_exactly_the_remaining_window() {
    let (mut guard, ui) = running();
    let mut registry = Registry::new();
    let first = Window::new(&ui, &mut registry, 0x1000);
    let second = Window::new(&ui, &mut registry, 0x2000);
    assert_eq!(registry.len(), 2);

    assert!(first.destroy(&mut registry));
    assert_eq!(registry.len(), 1);

    let rest = ui.uninit(&mut guard, &mut registry);
    assert_eq!(rest, vec![second]);
    assert_eq!(registry.len(), 0);
}

#[test]
fn a_window_is_destroyed_once_only() {
    let (_guard, ui) = running();
    let mut registry = Registry::new();
    let window = Window::new(&ui, &mut registry, 0x1000);
    let alias = window;
    assert!(window.destroy(&mut registry));
    assert!(!alias.destroy(&mut registry));
    assert!(!window.destroy(&mut registry));
    assert!(Window::destroy_all_windows(&mut registry).is_empty());
}

#[test]
fn a_window_is_on_record_once() {
    let (_guard, ui) = running();
    let mut registry = Registry::new();
    let window = Window::new(&ui, &mut registry, 0x1000);
    registry.track(window);
    registry.track(Window::from_raw(0x1000));
    assert_eq!(registry.len(), 1);
    assert_eq!(Window::destroy_all_windows(&mut registry), vec![window]);
}

#[test]
fn from_raw_does_not_put_a_window_on_record() {
    let (_guard, ui) = running();
    let mut registry = Registry::new();
    let made = Window::new(&ui, &mut registry, 0x1000);
    let seen = Window::from_raw(0x2000);
    assert_eq!(registry.len(), 1);
    assert_eq!(registry.position(&made), Some(0));
    assert_eq!(registry.position(&seen), None);
    assert!(!registry.forget(&seen));
    assert_eq!(registry.len(), 1);
}

#[test]
fn destroying_keeps_the_order_of_the_others() {
    let (_guard, ui) = running();
    let mut registry = Registry::new();
    let a = Window::new(&ui, &mut registry, 0xa0);
    let b = Window::new(&ui, &mut registry, 0xb0);
    let c = Window::new(&ui, &mut registry, 0xc0);
    let d = Window::new(&ui, &mut registry, 0xd0);
    assert!(b.destroy(&mut registry));
    assert_eq!(registry.position(&a), Some(0));
    assert_eq!(registry.position(&c), Some(1));
    assert_eq!(registry.position(&d), Some(2));
    assert_eq!(Window::destroy_all_windows(&mut registry), vec![a, c, d]);
    assert_eq!(registry.len(), 0);
}

#[test]
fn as_ui_window_gives_the_address_back() {
    let (_guard, ui) = running();
    let mut registry = Registry::new();
    let window = Window::new(&ui, &mut registry, 0xbeef);
    assert_eq!(window.as_ui_window(), 0xbeef);
    assert_eq!(window.handle, Handle::from_raw(0xbeef));
}

#[test]
fn window_type_says_whether_there_is_a_menubar() {
    assert!(WindowType::HasMenubar.has_menubar());
    assert!(!WindowType::NoMenubar.has_menubar());
}

#[test]
fn handles_are_equal_by_address() {
    let a = Handle::from_raw(0x10);
    let alias = a;
    let b = Handle::from_raw(0x20);
    assert_eq!(a, alias);
    assert_ne!(a, b);
    assert!(a.same_object(&alias));
    assert!(!a.same_object(&b));
    assert_eq!(a.as_raw(), 0x10);
    assert_eq!(Handle::from_nullable(0), None);
    assert_eq!(Handle::from_nullable(0x10), Some(a));
}

#[test]
fn window_margins_cross_over_as_flags() {
    let (_guard, ui) = running();
    let mut window = Window::from_raw(0x10);
    assert!(window.margined(&ui, 1));
    assert!(!window.margined(&ui, 0));
    assert_eq!(window.set_margined(&ui, true), 1);
    assert_eq!(window.set_margined(&ui, false), 0);
    assert_eq!(window.as_ui_window(), 0x10);
}
