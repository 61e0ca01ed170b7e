use iui::ffi_tools::ProcessGuard;
use iui::menus::{Menu, MenuItem};
use iui::ui::UI;
use iui::window::{Registry, Window, WindowType};

/// Stands in for the toolkit: hands out a fresh address for every object
/// that it is asked to make.
struct Toolkit {
    next: usize,
    made: Vec<String>,
}

impl Toolkit {
    fn new() -> Toolkit {
        Toolkit { next: 0x1000, made: Vec::new() }
    }

    fn make(&mut self, what: &str) -> usize {
        self.next += 0x10;
        self.made.push(what.to_string());
        self.next
    }
}

fn new_menu(ui: &UI, registry: &Registry, toolkit: &mut Toolkit, name: &str) -> Option<Menu> {
    if registry.has_finalized_menus() {
        return Menu::new(ui, registry, 0);
    }
    let raw = toolkit.make(name);
    Menu::new(ui, registry, raw)
}

fn append_item(menu: &Menu, registry: &Registry, toolkit: &mut Toolkit, name: &str) -> Option<MenuItem> {
    if registry.has_finalized_menus() {
        return menu.append_item(registry, 0);
    }
    let raw = toolkit.make(name);
    menu.append_item(registry, raw)
}

fn new_window(
    ui: &UI,
    registry: &mut Registry,
    toolkit: &mut Toolkit,
    title: &str,
    width: i32,
    height: i32,
    t: WindowType,
) -> Window {
    let described = format!("{} {}x{} menubar={}", title, width, height, t.has_menubar());
    let raw = toolkit.make(&described);
    Window::new(ui, registry, raw)
}

#[test]
fn cannot_change_menus_late() {
    let mut guard = ProcessGuard::new();
    let mut registry = Registry::new();
    let mut toolkit = Toolkit::new();
    let ui = UI::init(&mut guard, None).expect("failed to init");
    let menu = new_menu(&ui, &registry, &mut toolkit, "menu").unwrap();
    assert!(append_item(&menu, &registry, &mut toolkit, "test item").is_some());
    let _win = new_window(&ui, &mut registry, &mut toolkit, "Test App", 200, 200, WindowType::HasMenubar);
    assert!(new_menu(&ui, &registry, &mut toolkit, "menu2").is_none());
    assert!(append_item(&menu, &registry, &mut toolkit, "test item 2").is_none());
}

#[test]
fn toolkit_is_not_asked_for_late_menus() {
    let mut guard = ProcessGuard::new();
    let mut registry = Registry::new();
    let mut toolkit = Toolkit::new();
    let ui = UI::init(&mut guard, None).unwrap();
    let menu = new_menu(&ui, &registry, &mut toolkit, "menu").unwrap();
    let _win = new_window(&ui, &mut registry, &mut toolkit, "Test App", 200, 200, WindowType::NoMenubar);
    assert!(append_item(&menu, &registry, &mut toolkit, "late").is_none());
    assert_eq!(toolkit.made, vec!["menu".to_string(), "Test App 200x200 menubar=false".to_string()]);
}

#[test]
fn menu_and_items_wrap_the_addresses_they_are_given() {
    let mut guard = ProcessGuard::new();
    let registry = Registry::new();
    let ui = UI::init(&mut guard, None).unwrap();
    let menu = Menu::new(&ui, &registry, 0x40).unwrap();
    assert_eq!(menu.as_raw(), 0x40);
    let item = menu.append_item(&registry, 0x50).unwrap();
    assert_eq!(item.as_raw(), 0x50);
    let check = menu.append_check_item(&registry, 0x60).unwrap();
    assert_eq!(check.as_raw(), 0x60);
    assert_eq!(check, MenuItem::from_raw(0x60));
    assert!(menu.append_separator(&registry));
}

#[test]
fn menus_stay_final_after_the_window_is_gone() {
    let mut guard = ProcessGuard::new();
    let mut registry = Registry::new();
    let ui = UI::init(&mut guard, None).unwrap();
    assert!(!registry.has_finalized_menus());
    let menu = Menu::new(&ui, &registry, 0x40).unwrap();
    let win = Window::new(&ui, &mut registry, 0x80);
    assert!(registry.has_finalized_menus());
    assert!(win.destroy(&mut registry));
    assert_eq!(registry.len(), 0);
    assert!(registry.has_finalized_menus());
    assert!(Menu::new(&ui, &registry, 0x90).is_none());
    assert!(menu.append_check_item(&registry, 0xa0).is_none());
    assert!(!menu.append_separator(&registry));
    let rest = Window::destroy_all_windows(&mut registry);
    assert!(rest.is_empty());
    assert!(registry.has_finalized_menus());
}

#[test]
fn the_special_items_follow_the_same_rule() {
    let mut guard = ProcessGuard::new();
    let mut registry = Registry::new();
    let ui = UI::init(&mut guard, None).unwrap();
    let menu = Menu::new(&ui, &registry, 0x40).unwrap();
    assert_eq!(menu.append_quit_item(&registry, 0x51), Some(MenuItem::from_raw(0x51)));
    assert_eq!(menu.append_preferences_item(&registry, 0x52), Some(MenuItem::from_raw(0x52)));
    assert_eq!(menu.append_about_item(&registry, 0x53), Some(MenuItem::from_raw(0x53)));
    let _win = Window::new(&ui, &mut registry, 0x80);
    assert_eq!(menu.append_quit_item(&registry, 0x54), None);
    assert_eq!(menu.append_preferences_item(&registry, 0x55), None);
    assert_eq!(menu.append_about_item(&registry, 0x56), None);
}
