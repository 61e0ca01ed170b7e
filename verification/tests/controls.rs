use iui::area::{AreaKeyEvent, Modifiers, MODIFIER_ALT, MODIFIER_CTRL, MODIFIER_SHIFT, MODIFIER_SUPER};
use iui::controls::{
    from_flag, placement, to_flag, BoxControl, Control, Form, HorizontalBox, LayoutStrategy, Placement, ProgressBar,
    ProgressBarValue, Spinbox, Tab, VerticalBox,
};
use iui::error::UIError;
use iui::ffi_tools::ProcessGuard;
use iui::handle::Handle;
use iui::image::{Image, PixmapLoad};
use iui::ui::UI;

fn running() -> UI {
    let mut guard = ProcessGuard::new();
    UI::init(&mut guard, None).unwrap()
}

#[test]
fn a_percentage_is_cut_off_at_100() {
    let mut bar = ProgressBar::from_raw(0x10);
    assert_eq!(bar.set_determinate(0), 0);
    assert_eq!(bar.set_determinate(42), 42);
    assert_eq!(bar.set_determinate(100), 100);
    assert_eq!(bar.set_determinate(101), 100);
    assert_eq!(bar.set_determinate(u32::MAX), 100);
    assert_eq!(bar.set_value(ProgressBarValue::Determinate(250)), 100);
    assert_eq!(ProgressBarValue::Determinate(7).to_sys(), 7);
}

#[test]
fn an_indeterminate_bar_is_minus_one() {
    let mut bar = ProgressBar::from_raw(0x10);
    assert_eq!(bar.set_indeterminate(), -1);
    assert_eq!(bar.set_value(ProgressBarValue::Indeterminate), -1);
    assert_eq!(ProgressBarValue::Indeterminate.to_sys(), -1);
    let (made, sys) = ProgressBar::indeterminate(0x20);
    assert_eq!(made, ProgressBar::from_raw(0x20));
    assert_eq!(sys, -1);
}

#[test]
fn the_toolkit_answer_is_read_back() {
    let bar = ProgressBar::from_raw(0x10);
    assert_eq!(bar.value(-1), ProgressBarValue::Indeterminate);
    assert_eq!(bar.value(0), ProgressBarValue::Determinate(0));
    assert_eq!(bar.value(100), ProgressBarValue::Determinate(100));
    assert_eq!(ProgressBarValue::from_sys(55), ProgressBarValue::Determinate(55));
    assert_eq!(ProgressBarValue::from_sys(-1), ProgressBarValue::Indeterminate);
}

#[test]
fn flags_cross_over_as_integers() {
    assert_eq!(to_flag(true), 1);
    assert_eq!(to_flag(false), 0);
    assert!(from_flag(1));
    assert!(from_flag(-1));
    assert!(from_flag(2));
    assert!(!from_flag(0));
}

#[test]
fn boxes_read_and_set_padding() {
    let ui = running();
    let vertical = VerticalBox::from_raw(0x10);
    let horizontal = HorizontalBox::from_raw(0x20);
    assert!(vertical.padded(&ui, 1));
    assert!(!vertical.padded(&ui, 0));
    assert!(horizontal.padded(&ui, 1));
    assert!(!horizontal.padded(&ui, 0));
    assert_eq!(vertical.set_padded(&ui, true), 1);
    assert_eq!(vertical.set_padded(&ui, false), 0);
    assert_eq!(horizontal.set_padded(&ui, true), 1);
    assert_eq!(horizontal.set_padded(&ui, false), 0);
}

#[test]
fn a_child_is_placed_with_its_strategy() {
    let ui = running();
    let vertical = VerticalBox::from_raw(0x10);
    let horizontal = HorizontalBox::from_raw(0x20);
    let child = Control::from_ui_control(0x30);
    assert_eq!(
        vertical.append(&ui, &child, None, LayoutStrategy::Compact),
        Placement { parent: 0x10, child: 0x30, stretchy: 0 }
    );
    assert_eq!(
        horizontal.append(&ui, &child, None, LayoutStrategy::Stretchy),
        Placement { parent: 0x20, child: 0x30, stretchy: 1 }
    );
    assert_eq!(
        placement(&Handle::from_raw(0x40), &child, None, LayoutStrategy::Stretchy),
        Placement { parent: 0x40, child: 0x30, stretchy: 1 }
    );
    assert!(LayoutStrategy::Stretchy.stretchy());
    assert!(!LayoutStrategy::Compact.stretchy());
}

#[test]
fn the_null_address_is_no_parent() {
    let control = Control::from_ui_control(0x30);
    assert_eq!(control.parent(0), None);
    assert_eq!(control.parent(0x10), Some(Control::from_ui_control(0x10)));
    assert_eq!(control.set_parent(None), 0);
    let parent = Control::from_ui_control(0x10);
    assert_eq!(control.set_parent(Some(&parent)), 0x10);
    assert_eq!(control.as_ui_control(), 0x30);
    assert_eq!(VerticalBox::from_raw(0x30).as_control(), control);
}

#[test]
fn a_tab_index_must_be_in_the_group() {
    let ui = running();
    let mut tabs = Tab::from_raw(0x10);
    assert!(tabs.delete(&ui, 0, 3).is_ok());
    assert!(tabs.delete(&ui, 2, 3).is_ok());
    assert!(matches!(
        tabs.delete(&ui, 3, 3),
        Err(UIError::TabGroupIndexOutOfBounds { index: 3, n: 3 })
    ));
    assert!(matches!(
        tabs.delete(&ui, -1, 3),
        Err(UIError::TabGroupIndexOutOfBounds { index: -1, n: 3 })
    ));
    assert!(matches!(
        tabs.delete(&ui, 0, 0),
        Err(UIError::TabGroupIndexOutOfBounds { index: 0, n: 0 })
    ));
}

#[test]
fn modifiers_hold_the_four_known_bits_only() {
    assert_eq!(Modifiers::from_bits(0), Some(Modifiers { bits: 0 }));
    assert!(Modifiers::from_bits(0).unwrap().is_empty());
    let all = MODIFIER_CTRL | MODIFIER_ALT | MODIFIER_SHIFT | MODIFIER_SUPER;
    assert_eq!(all, 15);
    assert_eq!(Modifiers::from_bits(all).unwrap().bits(), 15);
    assert_eq!(Modifiers::from_bits(MODIFIER_SHIFT), Some(Modifiers { bits: 4 }));
    assert_eq!(Modifiers::from_bits(16), None);
    assert_eq!(Modifiers::from_bits(0x80 | MODIFIER_CTRL), None);
    assert_eq!(Modifiers::from_bits(255), None);
}

#[test]
fn a_key_event_is_read_from_the_toolkit_fields() {
    let event = AreaKeyEvent::from_ui_area_key_event(b'a', 0, 0, MODIFIER_CTRL | MODIFIER_SHIFT, 0);
    assert_eq!(event.key, b'a');
    assert_eq!(event.ext_key, 0);
    assert!(event.modifier.is_empty());
    assert_eq!(event.modifiers.bits(), 5);
    assert!(!event.up);
    let released = AreaKeyEvent::from_ui_area_key_event(0, 12, MODIFIER_ALT, 0, 1);
    assert_eq!(released.ext_key, 12);
    assert_eq!(released.modifier, Modifiers { bits: 2 });
    assert!(released.up);
}

#[test]
fn a_row_of_pixels_takes_four_bytes_each() {
    let image = Image::from_raw(0x77);
    assert_eq!(image.as_ui_draw_image(), 0x77);
    assert_eq!(
        image.load_pixmap(3, 5, 16, 9),
        PixmapLoad { image: 0x77, x: 3, y: 5, width: 16, height: 9, row_stride: 64 }
    );
    assert_eq!(image.load_pixmap(0, 0, 0, 0).row_stride, 0);
    assert_eq!(image.load_pixmap(0, 0, 536_870_911, 1).row_stride, 2_147_483_644);
}

#[test]
fn an_unlimited_spinbox_spans_all_integers() {
    let ui = running();
    assert_eq!(Spinbox::new_unlimited(&ui), (-2_147_483_648, 2_147_483_647));
}

#[test]
fn forms_and_plain_boxes_place_children_too() {
    let ui = running();
    let child = Control::from_ui_control(0x30);
    let mut form = Form::from_raw(0x50);
    assert_eq!(
        form.append(&ui, &child, None, LayoutStrategy::Stretchy),
        Placement { parent: 0x50, child: 0x30, stretchy: 1 }
    );
    assert_eq!(
        form.append(&ui, &child, None, LayoutStrategy::Compact),
        Placement { parent: 0x50, child: 0x30, stretchy: 0 }
    );
    assert!(form.padded(&ui, 1));
    assert!(!form.padded(&ui, 0));
    assert_eq!(form.set_padded(&ui, true), 1);
    assert_eq!(form.set_padded(&ui, false), 0);
    let plain = BoxControl::from_raw(0x60);
    assert_eq!(plain.append(&child, true), Placement { parent: 0x60, child: 0x30, stretchy: 1 });
    assert_eq!(plain.append(&child, false), Placement { parent: 0x60, child: 0x30, stretchy: 0 });
}
