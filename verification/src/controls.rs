//! The controls: typed handles, the values that cross over to the toolkit
//! with them, and the events that closures can answer.

use vstd::prelude::*;
use crate::callback::{handlers_of, without, CallbackBridge, EventSlot, Registration};
use crate::error::UIError;
use crate::handle::Handle;
use crate::ui::UI;

verus! {

/// The toolkit's integer for a yes or no: 1 for yes, 0 for no.
pub fn to_flag(value: bool) -> (flag: i32)
    ensures
        flag == (if value { 1i32 } else { 0i32 }),
{
    if value {
        1
    } else {
        0
    }
}

/// The yes or no that an integer of the toolkit stands for: everything but 0
/// is a yes.
pub fn from_flag(flag: i32) -> (value: bool)
    ensures
        value == (flag != 0),
{
    flag != 0
}

/// Any control, without its kind.
#[derive(Clone, Copy, Debug, PartialEq, Eq, Structural)]
pub struct Control {
    pub handle: Handle,
}

impl Control {
    /// Wraps the address of a control that the toolkit handed out.
    pub fn from_ui_control(raw: usize) -> (control: Control)
        ensures
            control.handle.raw == raw,
    {
        Control { handle: Handle::from_raw(raw) }
    }

    /// The control's address, to hand back to the toolkit.
    pub fn as_ui_control(&self) -> (raw: usize)
        ensures
            raw == self.handle.raw,
    {
        self.handle.as_raw()
    }

    /// Takes every registration of this control away before the caller
    /// destroys it, and hands them out for the caller to release their
    /// closures. Every alias of the control is stale afterwards.
    pub fn destroy(&self, bridge: &mut CallbackBridge) -> (released: Vec<Registration>)
        ensures
            released@ == handlers_of(old(bridge)@, self.handle.raw),
            final(bridge)@ == without(old(bridge)@, self.handle.raw),
    {
        bridge.release_all(&self.handle)
    }

    /// The parent of this control, given the address that the toolkit
    /// returned for it: none where the toolkit returned the null address.
    pub fn parent(&self, reply: usize) -> (parent: Option<Control>)
        ensures
            reply == 0 ==> parent is None,
            reply != 0 ==> parent == Some(Control { handle: Handle { raw: reply } }),
    {
        match Handle::from_nullable(reply) {
            None => None,
            Some(handle) => Some(Control { handle }),
        }
    }

    /// The address to hand to the toolkit as this control's new parent: the
    /// null address takes the control out of the tree.
    pub fn set_parent(&self, parent: Option<&Control>) -> (raw: usize)
        ensures
            parent is None ==> raw == 0,
            parent is Some ==> raw == parent.unwrap().handle.raw,
    {
        match parent {
            None => 0,
            Some(control) => control.handle.raw,
        }
    }
}

/// How a box sizes a child.
#[derive(Clone, Copy, Debug, PartialEq, Eq, Structural)]
pub enum LayoutStrategy {
    /// As small as its content allows.
    Compact,
    /// As large as the box allows.
    Stretchy,
}

impl LayoutStrategy {
    /// Whether the child stretches.
    pub fn stretchy(self) -> (stretchy: bool)
        ensures
            stretchy == (self == LayoutStrategy::Stretchy),
    {
        match self {
            LayoutStrategy::Compact => false,
            LayoutStrategy::Stretchy => true,
        }
    }
}

/// What the toolkit is handed to put a child into a box.
#[derive(Clone, Copy, Debug, PartialEq, Eq, Structural)]
pub struct Placement {
    /// The box.
    pub parent: usize,
    /// The child.
    pub child: usize,
    /// 1 if the child stretches, else 0.
    pub stretchy: i32,
}

/// What the toolkit is handed to put `child` into the box at `parent`.
///
/// `current` is the parent that the child has now. A control that stands in
/// the tree already cannot be put into a box, so the contract leaves that
/// input out.
pub fn placement(
    parent: &Handle,
    child: &Control,
    current: Option<Control>,
    strategy: LayoutStrategy,
) -> (placed: Placement)
    requires
        current is None,
    ensures
        placed == (Placement {
            parent: parent.raw,
            child: child.handle.raw,
            stretchy: if strategy == LayoutStrategy::Stretchy {
                1i32
            } else {
                0i32
            },
        }),
{
    Placement {
        parent: parent.as_raw(),
        child: child.as_ui_control(),
        stretchy: to_flag(strategy.stretchy()),
    }
}

/// What a date and time picker asks for.
#[derive(Clone, Copy, Debug, PartialEq, Eq, Structural)]
pub enum DateTimePickerKind {
    DateTime,
    Date,
    Time,
}

/// What a progress bar shows.
#[derive(Clone, Copy, Debug, PartialEq, Eq, Structural)]
pub enum ProgressBarValue {
    /// A percentage of the bar, from 0 to 100.
    Determinate(u32),
    /// That work goes on, without a percentage.
    Indeterminate,
}

impl ProgressBarValue {
    /// The toolkit's integer for this value: the percentage, cut off at 100,
    /// or -1 for an indeterminate bar.
    pub open spec fn sys_value(self) -> int {
        match self {
            ProgressBarValue::Determinate(value) => if value > 100 {
                100
            } else {
                value as int
            },
            ProgressBarValue::Indeterminate => -1,
        }
    }

    /// The toolkit's integer for this value.
    pub fn to_sys(self) -> (sys: i32)
        ensures
            sys == self.sys_value(),
    {
        match self {
            ProgressBarValue::Determinate(value) => if value > 100 {
                100
            } else {
                value as i32
            },
            ProgressBarValue::Indeterminate => -1,
        }
    }

    /// The value that the toolkit's integer stands for. The toolkit knows no
    /// negative value but -1, so the contract leaves the others out.
    pub fn from_sys(sys: i32) -> (value: ProgressBarValue)
        requires
            sys >= -1,
        ensures
            sys == -1 ==> value == ProgressBarValue::Indeterminate,
            sys >= 0 ==> value == ProgressBarValue::Determinate(sys as u32),
    {
        if sys < 0 {
            ProgressBarValue::Indeterminate
        } else {
            ProgressBarValue::Determinate(sys as u32)
        }
    }
}

/// A piece of text that the user cannot interact with.
#[derive(Clone, Copy, Debug, PartialEq, Eq, Structural)]
pub struct Label {
    pub handle: Handle,
}

impl Label {
    /// Wraps the address of a label that the toolkit made or handed to a
    /// callback.
    pub fn from_raw(raw: usize) -> (control: Label)
        ensures
            control.handle.raw == raw,
    {
        Label { handle: Handle::from_raw(raw) }
    }

    /// The same object as a control without its kind.
    pub fn as_control(&self) -> (control: Control)
        ensures
            control.handle == self.handle,
    {
        Control { handle: self.handle }
    }
}

/// A textual button which the user can click, causing a callback to run.
#[derive(Clone, Copy, Debug, PartialEq, Eq, Structural)]
pub struct Button {
    pub handle: Handle,
}

impl Button {
    /// Wraps the address of a button that the toolkit made or handed to a
    /// callback.
    pub fn from_raw(raw: usize) -> (control: Button)
        ensures
            control.handle.raw == raw,
    {
        Button { handle: Handle::from_raw(raw) }
    }

    /// The same object as a control without its kind.
    pub fn as_control(&self) -> (control: Control)
        ensures
            control.handle == self.handle,
    {
        Control { handle: self.handle }
    }

    /// Makes the closure at `context` the one that is called when
    /// the button is clicked. Hands out the closure that it replaces, if any.
    pub fn on_clicked(&mut self, _ctx: &UI, bridge: &mut CallbackBridge, context: usize) -> (previous:
        Option<usize>)
        ensures
            *final(self) == *old(self),
            previous == old(bridge).handler(old(self).handle.raw, EventSlot::Clicked),
            final(bridge)@ == old(bridge)@.insert((old(self).handle.raw, EventSlot::Clicked), context),
    {
        bridge.register(&self.handle, EventSlot::Clicked, context)
    }
}

/// A box that the user can tick, with a text beside it.
#[derive(Clone, Copy, Debug, PartialEq, Eq, Structural)]
pub struct Checkbox {
    pub handle: Handle,
}

impl Checkbox {
    /// Wraps the address of a checkbox that the toolkit made or handed to a
    /// callback.
    pub fn from_raw(raw: usize) -> (control: Checkbox)
        ensures
            control.handle.raw == raw,
    {
        Checkbox { handle: Handle::from_raw(raw) }
    }

    /// The same object as a control without its kind.
    pub fn as_control(&self) -> (control: Control)
        ensures
            control.handle == self.handle,
    {
        Control { handle: self.handle }
    }

    /// Makes the closure at `context` the one that is called when
    /// the checkbox is ticked or cleared. Hands out the closure that it replaces, if any.
    pub fn on_toggled(&mut self, _ctx: &UI, bridge: &mut CallbackBridge, context: usize) -> (previous:
        Option<usize>)
        ensures
            *final(self) == *old(self),
            previous == old(bridge).handler(old(self).handle.raw, EventSlot::Toggled),
            final(bridge)@ == old(bridge)@.insert((old(self).handle.raw, EventSlot::Toggled), context),
    {
        bridge.register(&self.handle, EventSlot::Toggled, context)
    }
}

/// A list of choices of which the user selects one.
#[derive(Clone, Copy, Debug, PartialEq, Eq, Structural)]
pub struct Combobox {
    pub handle: Handle,
}

impl Combobox {
    /// Wraps the address of a combobox that the toolkit made or handed to a
    /// callback.
    pub fn from_raw(raw: usize) -> (control: Combobox)
        ensures
            control.handle.raw == raw,
    {
        Combobox { handle: Handle::from_raw(raw) }
    }

    /// The same object as a control without its kind.
    pub fn as_control(&self) -> (control: Control)
        ensures
            control.handle == self.handle,
    {
        Control { handle: self.handle }
    }

    /// Makes the closure at `context` the one that is called when
    /// another choice is selected. Hands out the closure that it replaces, if any.
    pub fn on_selected(&mut self, _ctx: &UI, bridge: &mut CallbackBridge, context: usize) -> (previous:
        Option<usize>)
        ensures
            *final(self) == *old(self),
            previous == old(bridge).handler(old(self).handle.raw, EventSlot::Selected),
            final(bridge)@ == old(bridge)@.insert((old(self).handle.raw, EventSlot::Selected), context),
    {
        bridge.register(&self.handle, EventSlot::Selected, context)
    }
}

/// A set of buttons of which exactly one is selected.
#[derive(Clone, Copy, Debug, PartialEq, Eq, Structural)]
pub struct RadioButtons {
    pub handle: Handle,
}

impl RadioButtons {
    /// Wraps the address of a set of radio buttons that the toolkit made or handed to a
    /// callback.
    pub fn from_raw(raw: usize) -> (control: RadioButtons)
        ensures
            control.handle.raw == raw,
    {
        RadioButtons { handle: Handle::from_raw(raw) }
    }

    /// The same object as a control without its kind.
    pub fn as_control(&self) -> (control: Control)
        ensures
            control.handle == self.handle,
    {
        Control { handle: self.handle }
    }

    /// Makes the closure at `context` the one that is called when
    /// another button is selected. Hands out the closure that it replaces, if any.
    pub fn on_selected(&mut self, _ctx: &UI, bridge: &mut CallbackBridge, context: usize) -> (previous:
        Option<usize>)
        ensures
            *final(self) == *old(self),
            previous == old(bridge).handler(old(self).handle.raw, EventSlot::Selected),
            final(bridge)@ == old(bridge)@.insert((old(self).handle.raw, EventSlot::Selected), context),
    {
        bridge.register(&self.handle, EventSlot::Selected, context)
    }
}

/// Lets the user enter a date, a time, or both.
#[derive(Clone, Copy, Debug, PartialEq, Eq, Structural)]
pub struct DateTimePicker {
    pub handle: Handle,
}

impl DateTimePicker {
    /// Wraps the address of a picker that the toolkit made or handed to a
    /// callback.
    pub fn from_raw(raw: usize) -> (control: DateTimePicker)
        ensures
            control.handle.raw == raw,
    {
        DateTimePicker { handle: Handle::from_raw(raw) }
    }

    /// The same object as a control without its kind.
    pub fn as_control(&self) -> (control: Control)
        ensures
            control.handle == self.handle,
    {
        Control { handle: self.handle }
    }

    /// Makes the closure at `context` the one that is called when
    /// the user changes the date or time. Hands out the closure that it replaces, if any.
    pub fn on_changed(&mut self, _ctx: &UI, bridge: &mut CallbackBridge, context: usize) -> (previous:
        Option<usize>)
        ensures
            *final(self) == *old(self),
            previous == old(bridge).handler(old(self).handle.raw, EventSlot::Changed),
            final(bridge)@ == old(bridge)@.insert((old(self).handle.raw, EventSlot::Changed), context),
    {
        bridge.register(&self.handle, EventSlot::Changed, context)
    }
}

/// A button that opens a color chooser.
#[derive(Clone, Copy, Debug, PartialEq, Eq, Structural)]
pub struct ColorButton {
    pub handle: Handle,
}

impl ColorButton {
    /// Wraps the address of a color button that the toolkit made or handed to a
    /// callback.
    pub fn from_raw(raw: usize) -> (control: ColorButton)
        ensures
            control.handle.raw == raw,
    {
        ColorButton { handle: Handle::from_raw(raw) }
    }

    /// The same object as a control without its kind.
    pub fn as_control(&self) -> (control: Control)
        ensures
            control.handle == self.handle,
    {
        Control { handle: self.handle }
    }

    /// Makes the closure at `context` the one that is called when
    /// another color is chosen. Hands out the closure that it replaces, if any.
    pub fn on_changed(&mut self, _ctx: &UI, bridge: &mut CallbackBridge, context: usize) -> (previous:
        Option<usize>)
        ensures
            *final(self) == *old(self),
            previous == old(bridge).handler(old(self).handle.raw, EventSlot::Changed),
            final(bridge)@ == old(bridge)@.insert((old(self).handle.raw, EventSlot::Changed), context),
    {
        bridge.register(&self.handle, EventSlot::Changed, context)
    }
}

/// A button that opens a font chooser.
#[derive(Clone, Copy, Debug, PartialEq, Eq, Structural)]
pub struct FontButton {
    pub handle: Handle,
}

impl FontButton {
    /// Wraps the address of a font button that the toolkit made or handed to a
    /// callback.
    pub fn from_raw(raw: usize) -> (control: FontButton)
        ensures
            control.handle.raw == raw,
    {
        FontButton { handle: Handle::from_raw(raw) }
    }

    /// The same object as a control without its kind.
    pub fn as_control(&self) -> (control: Control)
        ensures
            control.handle == self.handle,
    {
        Control { handle: self.handle }
    }

    /// Makes the closure at `context` the one that is called when
    /// another font is chosen. Hands out the closure that it replaces, if any.
    pub fn on_changed(&mut self, _ctx: &UI, bridge: &mut CallbackBridge, context: usize) -> (previous:
        Option<usize>)
        ensures
            *final(self) == *old(self),
            previous == old(bridge).handler(old(self).handle.raw, EventSlot::Changed),
            final(bridge)@ == old(bridge)@.insert((old(self).handle.raw, EventSlot::Changed), context),
    {
        bridge.register(&self.handle, EventSlot::Changed, context)
    }
}

/// Numerical entry in a range, by typing or by stepping up and down.
#[derive(Clone, Copy, Debug, PartialEq, Eq, Structural)]
pub struct Spinbox {
    pub handle: Handle,
}

impl Spinbox {
    /// Wraps the address of a spinbox that the toolkit made or handed to a
    /// callback.
    pub fn from_raw(raw: usize) -> (control: Spinbox)
        ensures
            control.handle.raw == raw,
    {
        Spinbox { handle: Handle::from_raw(raw) }
    }

    /// The least and the greatest value to hand to the toolkit for a spinbox
    /// with the widest range there is.
    pub fn new_unlimited(_ctx: &UI) -> (range: (i32, i32))
        ensures
            range.0 == i32::MIN,
            range.1 == i32::MAX,
    {
        (i32::MIN, i32::MAX)
    }

    /// The same object as a control without its kind.
    pub fn as_control(&self) -> (control: Control)
        ensures
            control.handle == self.handle,
    {
        Control { handle: self.handle }
    }
}

/// Numerical entry in a range, by picking a place along a line.
#[derive(Clone, Copy, Debug, PartialEq, Eq, Structural)]
pub struct Slider {
    pub handle: Handle,
}

impl Slider {
    /// Wraps the address of a slider that the toolkit made or handed to a
    /// callback.
    pub fn from_raw(raw: usize) -> (control: Slider)
        ensures
            control.handle.raw == raw,
    {
        Slider { handle: Handle::from_raw(raw) }
    }

    /// The same object as a control without its kind.
    pub fn as_control(&self) -> (control: Control)
        ensures
            control.handle == self.handle,
    {
        Control { handle: self.handle }
    }
}

/// A single line of text that the user can edit.
#[derive(Clone, Copy, Debug, PartialEq, Eq, Structural)]
pub struct Entry {
    pub handle: Handle,
}

impl Entry {
    /// Wraps the address of an entry that the toolkit made or handed to a
    /// callback.
    pub fn from_raw(raw: usize) -> (control: Entry)
        ensures
            control.handle.raw == raw,
    {
        Entry { handle: Handle::from_raw(raw) }
    }

    /// The same object as a control without its kind.
    pub fn as_control(&self) -> (control: Control)
        ensures
            control.handle == self.handle,
    {
        Control { handle: self.handle }
    }
}

/// A single line of text that is shown masked.
#[derive(Clone, Copy, Debug, PartialEq, Eq, Structural)]
pub struct PasswordEntry {
    pub handle: Handle,
}

impl PasswordEntry {
    /// Wraps the address of an entry that the toolkit made or handed to a
    /// callback.
    pub fn from_raw(raw: usize) -> (control: PasswordEntry)
        ensures
            control.handle.raw == raw,
    {
        PasswordEntry { handle: Handle::from_raw(raw) }
    }

    /// The same object as a control without its kind.
    pub fn as_control(&self) -> (control: Control)
        ensures
            control.handle == self.handle,
    {
        Control { handle: self.handle }
    }
}

/// Several lines of text that the user can edit.
#[derive(Clone, Copy, Debug, PartialEq, Eq, Structural)]
pub struct MultilineEntry {
    pub handle: Handle,
}

impl MultilineEntry {
    /// Wraps the address of an entry that the toolkit made or handed to a
    /// callback.
    pub fn from_raw(raw: usize) -> (control: MultilineEntry)
        ensures
            control.handle.raw == raw,
    {
        MultilineEntry { handle: Handle::from_raw(raw) }
    }

    /// The same object as a control without its kind.
    pub fn as_control(&self) -> (control: Control)
        ensures
            control.handle == self.handle,
    {
        Control { handle: self.handle }
    }
}

/// A labelled frame around one child control.
#[derive(Clone, Copy, Debug, PartialEq, Eq, Structural)]
pub struct Group {
    pub handle: Handle,
}

impl Group {
    /// Wraps the address of a group that the toolkit made or handed to a
    /// callback.
    pub fn from_raw(raw: usize) -> (control: Group)
        ensures
            control.handle.raw == raw,
    {
        Group { handle: Handle::from_raw(raw) }
    }

    /// The same object as a control without its kind.
    pub fn as_control(&self) -> (control: Control)
        ensures
            control.handle == self.handle,
    {
        Control { handle: self.handle }
    }
}

/// A set of pages, each with a name and one child control.
#[derive(Clone, Copy, Debug, PartialEq, Eq, Structural)]
pub struct Tab {
    pub handle: Handle,
}

impl Tab {
    /// Wraps the address of a tab group that the toolkit made or handed to a
    /// callback.
    pub fn from_raw(raw: usize) -> (control: Tab)
        ensures
            control.handle.raw == raw,
    {
        Tab { handle: Handle::from_raw(raw) }
    }

    /// Checks the index of a page that is to be removed against the number
    /// of pages, `n`, that the toolkit reports for the group.
    pub fn delete(&mut self, _ctx: &UI, index: i32, n: i32) -> (checked: Result<(), UIError>)
        ensures
            *final(self) == *old(self),
            0 <= index < n ==> checked is Ok,
            !(0 <= index < n) ==> checked == Err::<(), UIError>(
                UIError::TabGroupIndexOutOfBounds { index, n },
            ),
    {
        if 0 <= index && index < n {
            Ok(())
        } else {
            Err(UIError::TabGroupIndexOutOfBounds { index, n })
        }
    }

    /// The same object as a control without its kind.
    pub fn as_control(&self) -> (control: Control)
        ensures
            control.handle == self.handle,
    {
        Control { handle: self.handle }
    }
}

/// A line that sets controls apart.
#[derive(Clone, Copy, Debug, PartialEq, Eq, Structural)]
pub struct Separator {
    pub handle: Handle,
}

impl Separator {
    /// Wraps the address of a separator that the toolkit made or handed to a
    /// callback.
    pub fn from_raw(raw: usize) -> (control: Separator)
        ensures
            control.handle.raw == raw,
    {
        Separator { handle: Handle::from_raw(raw) }
    }

    /// The same object as a control without its kind.
    pub fn as_control(&self) -> (control: Control)
        ensures
            control.handle == self.handle,
    {
        Control { handle: self.handle }
    }
}

/// A canvas that the application draws itself.
#[derive(Clone, Copy, Debug, PartialEq, Eq, Structural)]
pub struct Area {
    pub handle: Handle,
}

impl Area {
    /// Wraps the address of an area that the toolkit made or handed to a
    /// callback.
    pub fn from_raw(raw: usize) -> (control: Area)
        ensures
            control.handle.raw == raw,
    {
        Area { handle: Handle::from_raw(raw) }
    }

    /// The area at the address that the toolkit returned for a new area,
    /// with the handler at `context` as the one that answers its events:
    /// drawing, the mouse, and keys. Hands out the handler that was on
    /// record for this address, if any.
    pub fn new(_ctx: &UI, bridge: &mut CallbackBridge, raw: usize, context: usize) -> (made: (
        Area,
        Option<usize>,
    ))
        ensures
            made.0.handle.raw == raw,
            made.1 == old(bridge).handler(raw, EventSlot::Area),
            final(bridge)@ == old(bridge)@.insert((raw, EventSlot::Area), context),
    {
        let area = Area { handle: Handle::from_raw(raw) };
        let previous = bridge.register(&area.handle, EventSlot::Area, context);
        (area, previous)
    }

    /// The same object as a control without its kind.
    pub fn as_control(&self) -> (control: Control)
        ensures
            control.handle == self.handle,
    {
        Control { handle: self.handle }
    }
}

/// A box that lays out its children in a row or a column.
#[derive(Clone, Copy, Debug, PartialEq, Eq, Structural)]
pub struct BoxControl {
    pub handle: Handle,
}

impl BoxControl {
    /// Wraps the address of a box that the toolkit made or handed to a
    /// callback.
    pub fn from_raw(raw: usize) -> (control: BoxControl)
        ensures
            control.handle.raw == raw,
    {
        BoxControl { handle: Handle::from_raw(raw) }
    }

    /// What the toolkit is handed to put `child` at the end of the box,
    /// stretching or not.
    pub fn append(&self, child: &Control, stretchy: bool) -> (placed: Placement)
        ensures
            placed == (Placement {
                parent: self.handle.raw,
                child: child.handle.raw,
                stretchy: if stretchy {
                    1i32
                } else {
                    0i32
                },
            }),
    {
        Placement {
            parent: self.handle.as_raw(),
            child: child.as_ui_control(),
            stretchy: to_flag(stretchy),
        }
    }

    /// The same object as a control without its kind.
    pub fn as_control(&self) -> (control: Control)
        ensures
            control.handle == self.handle,
    {
        Control { handle: self.handle }
    }
}

/// A box that lays out its children one below the other.
#[derive(Clone, Copy, Debug, PartialEq, Eq, Structural)]
pub struct VerticalBox {
    pub handle: Handle,
}

impl VerticalBox {
    /// Wraps the address of a box that the toolkit made or handed to a
    /// callback.
    pub fn from_raw(raw: usize) -> (control: VerticalBox)
        ensures
            control.handle.raw == raw,
    {
        VerticalBox { handle: Handle::from_raw(raw) }
    }

    /// The same object as a control without its kind.
    pub fn as_control(&self) -> (control: Control)
        ensures
            control.handle == self.handle,
    {
        Control { handle: self.handle }
    }

    /// What the toolkit is handed to put `child` at the end of the box.
    /// `current` is the parent that the child has now, which must be none.
    pub fn append(
        &self,
        _ctx: &UI,
        child: &Control,
        current: Option<Control>,
        strategy: LayoutStrategy,
    ) -> (placed: Placement)
        requires
            current is None,
        ensures
            placed == (Placement {
                parent: self.handle.raw,
                child: child.handle.raw,
                stretchy: if strategy == LayoutStrategy::Stretchy {
                    1i32
                } else {
                    0i32
                },
            }),
    {
        placement(&self.handle, child, current, strategy)
    }

    /// Whether the box pads its children, given the toolkit's answer.
    pub fn padded(&self, _ctx: &UI, reply: i32) -> (padded: bool)
        ensures
            padded == (reply != 0),
    {
        from_flag(reply)
    }

    /// The flag to hand to the toolkit so that the box pads its children, or
    /// does not.
    pub fn set_padded(&self, _ctx: &UI, padded: bool) -> (flag: i32)
        ensures
            flag == (if padded { 1i32 } else { 0i32 }),
    {
        to_flag(padded)
    }
}

/// A box that lays out its children side by side.
#[derive(Clone, Copy, Debug, PartialEq, Eq, Structural)]
pub struct HorizontalBox {
    pub handle: Handle,
}

impl HorizontalBox {
    /// Wraps the address of a box that the toolkit made or handed to a
    /// callback.
    pub fn from_raw(raw: usize) -> (control: HorizontalBox)
        ensures
            control.handle.raw == raw,
    {
        HorizontalBox { handle: Handle::from_raw(raw) }
    }

    /// The same object as a control without its kind.
    pub fn as_control(&self) -> (control: Control)
        ensures
            control.handle == self.handle,
    {
        Control { handle: self.handle }
    }

    /// What the toolkit is handed to put `child` at the end of the box.
    /// `current` is the parent that the child has now, which must be none.
    pub fn append(
        &self,
        _ctx: &UI,
        child: &Control,
        current: Option<Control>,
        strategy: LayoutStrategy,
    ) -> (placed: Placement)
        requires
            current is None,
        ensures
            placed == (Placement {
                parent: self.handle.raw,
                child: child.handle.raw,
                stretchy: if strategy == LayoutStrategy::Stretchy {
                    1i32
                } else {
                    0i32
                },
            }),
    {
        placement(&self.handle, child, current, strategy)
    }

    /// Whether the box pads its children, given the toolkit's answer.
    pub fn padded(&self, _ctx: &UI, reply: i32) -> (padded: bool)
        ensures
            padded == (reply != 0),
    {
        from_flag(reply)
    }

    /// The flag to hand to the toolkit so that the box pads its children, or
    /// does not.
    pub fn set_padded(&self, _ctx: &UI, padded: bool) -> (flag: i32)
        ensures
            flag == (if padded { 1i32 } else { 0i32 }),
    {
        to_flag(padded)
    }
}

/// A column of controls, each with a label beside it.
#[derive(Clone, Copy, Debug, PartialEq, Eq, Structural)]
pub struct Form {
    pub handle: Handle,
}

impl Form {
    /// Wraps the address of a form that the toolkit made or handed to a
    /// callback.
    pub fn from_raw(raw: usize) -> (control: Form)
        ensures
            control.handle.raw == raw,
    {
        Form { handle: Handle::from_raw(raw) }
    }

    /// The same object as a control without its kind.
    pub fn as_control(&self) -> (control: Control)
        ensures
            control.handle == self.handle,
    {
        Control { handle: self.handle }
    }

    /// What the toolkit is handed, beside the label, to put `child` at the
    /// end of the form. `current` is the parent that the child has now,
    /// which must be none.
    pub fn append(
        &mut self,
        _ctx: &UI,
        child: &Control,
        current: Option<Control>,
        strategy: LayoutStrategy,
    ) -> (placed: Placement)
        requires
            current is None,
        ensures
            *final(self) == *old(self),
            placed == (Placement {
                parent: old(self).handle.raw,
                child: child.handle.raw,
                stretchy: if strategy == LayoutStrategy::Stretchy {
                    1i32
                } else {
                    0i32
                },
            }),
    {
        placement(&self.handle, child, current, strategy)
    }

    /// Whether the form pads its controls, given the toolkit's answer.
    pub fn padded(&self, _ctx: &UI, reply: i32) -> (padded: bool)
        ensures
            padded == (reply != 0),
    {
        from_flag(reply)
    }

    /// The flag to hand to the toolkit so that the form pads its controls,
    /// or does not.
    pub fn set_padded(&mut self, _ctx: &UI, padded: bool) -> (flag: i32)
        ensures
            *final(self) == *old(self),
            flag == (if padded { 1i32 } else { 0i32 }),
    {
        to_flag(padded)
    }
}

/// A bar that fills up by a percentage, or shows that work goes on without saying how much is done.
#[derive(Clone, Copy, Debug, PartialEq, Eq, Structural)]
pub struct ProgressBar {
    pub handle: Handle,
}

impl ProgressBar {
    /// Wraps the address of a progress bar that the toolkit made or handed to a
    /// callback.
    pub fn from_raw(raw: usize) -> (control: ProgressBar)
        ensures
            control.handle.raw == raw,
    {
        ProgressBar { handle: Handle::from_raw(raw) }
    }

    /// The same object as a control without its kind.
    pub fn as_control(&self) -> (control: Control)
        ensures
            control.handle == self.handle,
    {
        Control { handle: self.handle }
    }

    /// The bar at the address of a progress bar that the toolkit has just
    /// made, and the integer to set on it so that it is indeterminate.
    pub fn indeterminate(raw: usize) -> (made: (ProgressBar, i32))
        ensures
            made.0.handle.raw == raw,
            made.1 == -1,
    {
        let mut bar = ProgressBar::from_raw(raw);
        let sys = bar.set_indeterminate();
        (bar, sys)
    }

    /// The integer to hand to the toolkit to show `value` percent: `value`
    /// itself, cut off at 100.
    pub fn set_determinate(&mut self, value: u32) -> (sys: i32)
        ensures
            *final(self) == *old(self),
            sys == (if value > 100 { 100 } else { value as int }),
    {
        self.set_value(ProgressBarValue::Determinate(value))
    }

    /// The integer to hand to the toolkit for an indeterminate bar: -1.
    pub fn set_indeterminate(&mut self) -> (sys: i32)
        ensures
            *final(self) == *old(self),
            sys == -1,
    {
        self.set_value(ProgressBarValue::Indeterminate)
    }

    /// The integer to hand to the toolkit to show `value`.
    pub fn set_value(&mut self, value: ProgressBarValue) -> (sys: i32)
        ensures
            *final(self) == *old(self),
            sys == value.sys_value(),
    {
        value.to_sys()
    }

    /// What the bar shows, given the toolkit's answer. The toolkit knows no
    /// negative value but -1, so the contract leaves the others out.
    pub fn value(&self, reply: i32) -> (value: ProgressBarValue)
        requires
            reply >= -1,
        ensures
            reply == -1 ==> value == ProgressBarValue::Indeterminate,
            reply >= 0 ==> value == ProgressBarValue::Determinate(reply as u32),
    {
        ProgressBarValue::from_sys(reply)
    }
}

/// A control that holds a number.
pub trait NumericEntry {
    /// The address of the control.
    spec fn target(&self) -> usize;

    /// Makes the closure at `context` the one that is called, with the new
    /// number, when the user changes it. Hands out the closure that it
    /// replaces, if any.
    fn on_changed(&mut self, ctx: &UI, bridge: &mut CallbackBridge, context: usize) -> (previous:
        Option<usize>)
        ensures
            final(self).target() == old(self).target(),
            previous == old(bridge).handler(old(self).target(), EventSlot::Changed),
            final(bridge)@ == old(bridge)@.insert((old(self).target(), EventSlot::Changed), context),
    ;
}

/// A control that holds text.
pub trait TextEntry {
    /// The address of the control.
    spec fn target(&self) -> usize;

    /// Makes the closure at `context` the one that is called, with the new
    /// text, when the user changes it. Hands out the closure that it
    /// replaces, if any.
    fn on_changed(&mut self, ctx: &UI, bridge: &mut CallbackBridge, context: usize) -> (previous:
        Option<usize>)
        ensures
            final(self).target() == old(self).target(),
            previous == old(bridge).handler(old(self).target(), EventSlot::Changed),
            final(bridge)@ == old(bridge)@.insert((old(self).target(), EventSlot::Changed), context),
    ;
}

impl NumericEntry for Spinbox {
    open spec fn target(&self) -> usize {
        self.handle.raw
    }

    fn on_changed(&mut self, _ctx: &UI, bridge: &mut CallbackBridge, context: usize) -> (previous:
        Option<usize>) {
        bridge.register(&self.handle, EventSlot::Changed, context)
    }
}

impl NumericEntry for Slider {
    open spec fn target(&self) -> usize {
        self.handle.raw
    }

    fn on_changed(&mut self, _ctx: &UI, bridge: &mut CallbackBridge, context: usize) -> (previous:
        Option<usize>) {
        bridge.register(&self.handle, EventSlot::Changed, context)
    }
}

impl TextEntry for Entry {
    open spec fn target(&self) -> usize {
        self.handle.raw
    }

    fn on_changed(&mut self, _ctx: &UI, bridge: &mut CallbackBridge, context: usize) -> (previous:
        Option<usize>) {
        bridge.register(&self.handle, EventSlot::Changed, context)
    }
}

impl TextEntry for PasswordEntry {
    open spec fn target(&self) -> usize {
        self.handle.raw
    }

    fn on_changed(&mut self, _ctx: &UI, bridge: &mut CallbackBridge, context: usize) -> (previous:
        Option<usize>) {
        bridge.register(&self.handle, EventSlot::Changed, context)
    }
}

impl TextEntry for MultilineEntry {
    open spec fn target(&self) -> usize {
        self.handle.raw
    }

    fn on_changed(&mut self, _ctx: &UI, bridge: &mut CallbackBridge, context: usize) -> (previous:
        Option<usize>) {
        bridge.register(&self.handle, EventSlot::Changed, context)
    }
}

} // verus!
