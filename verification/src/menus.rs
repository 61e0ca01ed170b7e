//! Menus at the top of windows, and the items in them. Both can be made
//! only until the first window exists.

use vstd::prelude::*;
use crate::callback::{CallbackBridge, EventSlot};
use crate::handle::Handle;
use crate::ui::UI;
use crate::window::Registry;

verus! {

/// An item shown in a [`Menu`]. Its text cannot change once it is made.
#[derive(Clone, Copy, Debug, PartialEq, Eq, Structural)]
pub struct MenuItem {
    pub handle: Handle,
}

/// One of the menus of the application's menubar.
#[derive(Clone, Copy, Debug, PartialEq, Eq, Structural)]
pub struct Menu {
    pub handle: Handle,
}

impl MenuItem {
    /// Wraps the address of a menu item, as a callback does with the address
    /// that the toolkit hands it.
    pub fn from_raw(raw: usize) -> (item: MenuItem)
        ensures
            item.handle.raw == raw,
    {
        MenuItem { handle: Handle::from_raw(raw) }
    }

    /// The item's address, to hand back to the toolkit.
    pub fn as_raw(&self) -> (raw: usize)
        ensures
            raw == self.handle.raw,
    {
        self.handle.as_raw()
    }

    /// Makes the closure at `context` the one that is called when the item
    /// is clicked. Hands out the closure that it replaces, if any.
    pub fn on_clicked(&self, _ctx: &UI, bridge: &mut CallbackBridge, context: usize) -> (previous:
        Option<usize>)
        ensures
            previous == old(bridge).handler(self.handle.raw, EventSlot::Clicked),
            final(bridge)@ == old(bridge)@.insert((self.handle.raw, EventSlot::Clicked), context),
    {
        bridge.register(&self.handle, EventSlot::Clicked, context)
    }
}

impl Menu {
    /// The menu at the address that the toolkit returned for a new menu, or
    /// nothing if the menus are final.
    ///
    /// A caller asks [`Registry::has_finalized_menus`] before it asks the
    /// toolkit for a menu: the toolkit takes no menu once a window exists.
    pub fn new(_ctx: &UI, registry: &Registry, raw: usize) -> (menu: Option<Menu>)
        ensures
            menu is Some <==> !registry@.finalized,
            menu is Some ==> menu.unwrap().handle == (Handle { raw }),
    {
        if registry.has_finalized_menus() {
            None
        } else {
            Some(Menu { handle: Handle::from_raw(raw) })
        }
    }

    /// The menu's address, to hand back to the toolkit.
    pub fn as_raw(&self) -> (raw: usize)
        ensures
            raw == self.handle.raw,
    {
        self.handle.as_raw()
    }

    /// The item at the address that the toolkit returned for a new item of
    /// this menu, or nothing if the menus are final.
    pub fn append_item(&self, registry: &Registry, raw: usize) -> (item: Option<MenuItem>)
        ensures
            item is Some <==> !registry@.finalized,
            item is Some ==> item.unwrap().handle == (Handle { raw }),
    {
        if registry.has_finalized_menus() {
            None
        } else {
            Some(MenuItem { handle: Handle::from_raw(raw) })
        }
    }

    /// The checkable item at the address that the toolkit returned for a new
    /// item of this menu, or nothing if the menus are final.
    pub fn append_check_item(&self, registry: &Registry, raw: usize) -> (item: Option<MenuItem>)
        ensures
            item is Some <==> !registry@.finalized,
            item is Some ==> item.unwrap().handle == (Handle { raw }),
    {
        if registry.has_finalized_menus() {
            None
        } else {
            Some(MenuItem { handle: Handle::from_raw(raw) })
        }
    }

    /// The item at the address that the toolkit returned for this menu's
    /// item that quits the application, or nothing if the menus are final.
    pub fn append_quit_item(&self, registry: &Registry, raw: usize) -> (item: Option<MenuItem>)
        ensures
            item is Some <==> !registry@.finalized,
            item is Some ==> item.unwrap().handle == (Handle { raw }),
    {
        self.append_item(registry, raw)
    }

    /// The item at the address that the toolkit returned for this menu's
    /// item that opens the preferences, or nothing if the menus are final.
    pub fn append_preferences_item(&self, registry: &Registry, raw: usize) -> (item: Option<MenuItem>)
        ensures
            item is Some <==> !registry@.finalized,
            item is Some ==> item.unwrap().handle == (Handle { raw }),
    {
        self.append_item(registry, raw)
    }

    /// The item at the address that the toolkit returned for this menu's
    /// item that tells about the application, or nothing if the menus are
    /// final.
    pub fn append_about_item(&self, registry: &Registry, raw: usize) -> (item: Option<MenuItem>)
        ensures
            item is Some <==> !registry@.finalized,
            item is Some ==> item.unwrap().handle == (Handle { raw }),
    {
        self.append_item(registry, raw)
    }

    /// Whether a separator may be added to this menu: only while the menus
    /// are not final.
    pub fn append_separator(&self, registry: &Registry) -> (allowed: bool)
        ensures
            allowed == !registry@.finalized,
    {
        !registry.has_finalized_menus()
    }
}

} // verus!
