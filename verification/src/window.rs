//! Top-level windows and the registry that keeps track of the live ones.

use vstd::prelude::*;
use crate::callback::{CallbackBridge, EventSlot};
use crate::controls::{from_flag, to_flag};
use crate::handle::Handle;
use crate::ui::UI;

verus! {

/// Whether a window carries the application's menubar.
#[derive(Clone, Copy, Debug, PartialEq, Eq, Structural)]
pub enum WindowType {
    HasMenubar,
    NoMenubar,
}

impl WindowType {
    /// The flag that the toolkit's window constructor takes.
    pub fn has_menubar(self) -> (flag: bool)
        ensures
            flag == (self == WindowType::HasMenubar),
    {
        match self {
            WindowType::HasMenubar => true,
            WindowType::NoMenubar => false,
        }
    }
}

/// A top-level window: holds one child control and shows it on screen.
#[derive(Clone, Copy, Debug, PartialEq, Eq, Structural)]
pub struct Window {
    pub handle: Handle,
}

/// The live top-level windows of one toolkit thread, and whether the menus
/// are still open to change.
///
/// The windows stand in the order in which they were made, each once. The
/// menus are final from the first window on, for good.
pub struct Registry {
    windows: Vec<Window>,
    menus_finalized: bool,
}

/// What a registry holds, as plain values.
pub struct RegistryView {
    /// The live windows, oldest first.
    pub windows: Seq<Window>,
    /// Whether the menus are final.
    pub finalized: bool,
}

impl RegistryView {
    /// No window is on record twice.
    pub open spec fn wf(self) -> bool {
        self.windows.no_duplicates()
    }

    /// The registry once `window` has been made: the window is on record,
    /// behind the older ones, and the menus are final.
    pub open spec fn recorded(self, window: Window) -> RegistryView {
        RegistryView {
            windows: if self.windows.contains(window) {
                self.windows
            } else {
                self.windows.push(window)
            },
            finalized: true,
        }
    }

    /// The registry once `window` has been destroyed: the window is off
    /// record, the others stay as they are.
    pub open spec fn forgotten(self, window: Window) -> RegistryView {
        RegistryView {
            windows: if self.windows.contains(window) {
                self.windows.remove(self.windows.index_of(window))
            } else {
                self.windows
            },
            finalized: self.finalized,
        }
    }

    /// The registry once every window on record has been handed out.
    pub open spec fn cleared(self) -> RegistryView {
        RegistryView { windows: Seq::empty(), finalized: self.finalized }
    }
}

impl Registry {
    /// The registry as plain values.
    pub closed spec fn view(&self) -> RegistryView {
        RegistryView { windows: self.windows@, finalized: self.menus_finalized }
    }

    /// No window is on record twice. This holds of every registry.
    pub open spec fn wf(&self) -> bool {
        self@.wf()
    }

    #[verifier::type_invariant]
    spec fn distinct(&self) -> bool {
        self.windows@.no_duplicates()
    }

    /// The registry of a thread that has made no window yet.
    pub fn new() -> (registry: Registry)
        ensures
            registry.wf(),
            registry@ == (RegistryView { windows: Seq::empty(), finalized: false }),
    {
        Registry { windows: Vec::new(), menus_finalized: false }
    }

    /// Whether the menus are final, so that no menu or menu item can be
    /// made any more.
    pub fn has_finalized_menus(&self) -> (finalized: bool)
        ensures
            finalized == self@.finalized,
    {
        self.menus_finalized
    }

    /// How many windows are on record.
    pub fn len(&self) -> (n: usize)
        ensures
            n == self@.windows.len(),
    {
        self.windows.len()
    }

    /// Where `window` stands on record, if it does.
    pub fn position(&self, window: &Window) -> (at: Option<usize>)
        ensures
            at is None <==> !self@.windows.contains(*window),
            at is Some ==> at.unwrap() < self@.windows.len() && self@.windows[at.unwrap() as int]
                == *window,
    {
        let mut i: usize = 0;
        while i < self.windows.len()
            invariant
                i <= self.windows@.len(),
                forall|k: int| 0 <= k < i ==> self.windows@[k] != *window,
            decreases self.windows@.len() - i,
        {
            if self.windows[i].handle.raw == window.handle.raw {
                return Some(i);
            }
            i += 1;
        }
        None
    }

    /// Puts a new window on record and makes the menus final. A window that
    /// is on record already stays where it is.
    pub fn track(&mut self, window: Window)
        ensures
            final(self).wf(),
            final(self)@ == old(self)@.recorded(window),
    {
        proof {
            use_type_invariant(&*self);
        }
        self.menus_finalized = true;
        if self.position(&window).is_none() {
            proof {
                lemma_registry_membership(self@, window, window);
            }
            let mut windows: Vec<Window> = Vec::new();
            std::mem::swap(&mut self.windows, &mut windows);
            windows.push(window);
            std::mem::swap(&mut self.windows, &mut windows);
        }
    }

    /// Takes a destroyed window off record; tells whether it was there.
    pub fn forget(&mut self, window: &Window) -> (known: bool)
        ensures
            final(self).wf(),
            known == old(self)@.windows.contains(*window),
            final(self)@ == old(self)@.forgotten(*window),
            !final(self)@.windows.contains(*window),
    {
        proof {
            use_type_invariant(&*self);
        }
        match self.position(window) {
            None => false,
            Some(at) => {
                proof {
                    lemma_remove_keeps_distinct(self.windows@, at as int);
                    assert(self.windows@.index_of(*window) == at);
                }
                let mut windows: Vec<Window> = Vec::new();
                std::mem::swap(&mut self.windows, &mut windows);
                windows.remove(at);
                std::mem::swap(&mut self.windows, &mut windows);
                true
            },
        }
    }

    /// Empties the record and hands out the windows that were on it, oldest
    /// first: the ones that are still to be destroyed.
    pub fn drain(&mut self) -> (remaining: Vec<Window>)
        ensures
            remaining@ == old(self)@.windows,
            final(self)@ == old(self)@.cleared(),
            final(self).wf(),
    {
        let mut remaining: Vec<Window> = Vec::new();
        std::mem::swap(&mut self.windows, &mut remaining);
        remaining
    }
}

/// Taking one item out of a sequence without duplicates leaves no duplicates,
/// and the item is gone.
pub proof fn lemma_remove_keeps_distinct(windows: Seq<Window>, at: int)
    requires
        windows.no_duplicates(),
        0 <= at < windows.len(),
    ensures
        windows.remove(at).no_duplicates(),
        !windows.remove(at).contains(windows[at]),
        windows.remove(at).len() == windows.len() - 1,
        forall|w: Window| w != windows[at] ==> (windows.remove(at).contains(w) <==> windows.contains(w)),
{
    let after = windows.remove(at);
    assert forall|i: int| 0 <= i < after.len() implies after[i] == windows[if i < at {
        i
    } else {
        i + 1
    }] by {}
    assert forall|w: Window| w != windows[at] && windows.contains(w) implies after.contains(w) by {
        let k = windows.index_of(w);
        if k < at {
            assert(after[k] == w);
        } else {
            assert(after[k - 1] == w);
        }
    }
}

/// Making or destroying a window keeps every window on record once, and
/// changes the record by that window alone.
pub proof fn lemma_registry_membership(registry: RegistryView, changed: Window, other: Window)
    requires
        registry.wf(),
    ensures
        registry.recorded(changed).wf(),
        registry.forgotten(changed).wf(),
        registry.recorded(changed).windows.contains(other) <==> (other == changed
            || registry.windows.contains(other)),
        registry.forgotten(changed).windows.contains(other) <==> (other != changed
            && registry.windows.contains(other)),
{
    let ws = registry.windows;
    if ws.contains(changed) {
        let at = ws.index_of(changed);
        lemma_remove_keeps_distinct(ws, at);
    } else {
        let more = ws.push(changed);
        assert(more[ws.len() as int] == changed);
        if ws.contains(other) {
            assert(more[ws.index_of(other)] == other);
        }
    }
}

/// The menus are open to change until the first window is made, and final
/// from then on, whatever is made or destroyed afterwards.
pub proof fn lemma_menus_stay_final(registry: RegistryView, made: Window, later: Window)
    ensures
        !(RegistryView { windows: Seq::empty(), finalized: false }).finalized,
        registry.recorded(made).finalized,
        registry.finalized ==> registry.recorded(later).finalized && registry.forgotten(
            later,
        ).finalized && registry.cleared().finalized,
{
}

/// One use of a registry.
#[derive(Clone, Copy, Debug, PartialEq, Eq, Structural)]
pub enum RegistryOp {
    /// A window is made.
    Make(Window),
    /// A window is destroyed.
    Destroy(Window),
    /// The toolkit shuts down: every window on record is handed out.
    Shutdown,
}

/// The registry after `ops`, one after the other.
pub open spec fn after_ops(registry: RegistryView, ops: Seq<RegistryOp>) -> RegistryView
    decreases ops.len(),
{
    if ops.len() == 0 {
        registry
    } else {
        let before = after_ops(registry, ops.drop_last());
        match ops.last() {
            RegistryOp::Make(window) => before.recorded(window),
            RegistryOp::Destroy(window) => before.forgotten(window),
            RegistryOp::Shutdown => before.cleared(),
        }
    }
}

/// Whatever is done with a registry, in whatever order: no window comes to
/// stand on record twice, menus that are final stay final, and the menus are
/// final as soon as one window was made.
pub proof fn lemma_registry_invariant(registry: RegistryView, ops: Seq<RegistryOp>)
    requires
        registry.wf(),
    ensures
        after_ops(registry, ops).wf(),
        registry.finalized ==> after_ops(registry, ops).finalized,
        (exists|i: int| 0 <= i < ops.len() && #[trigger] ops[i] is Make) ==> after_ops(
            registry,
            ops,
        ).finalized,
    decreases ops.len(),
{
    if ops.len() > 0 {
        let earlier = ops.drop_last();
        lemma_registry_invariant(registry, earlier);
        let before = after_ops(registry, earlier);
        match ops.last() {
            RegistryOp::Make(window) => {
                lemma_registry_membership(before, window, window);
            },
            RegistryOp::Destroy(window) => {
                lemma_registry_membership(before, window, window);
            },
            RegistryOp::Shutdown => {},
        }
        if exists|i: int| 0 <= i < ops.len() && #[trigger] ops[i] is Make {
            let i = choose|i: int| 0 <= i < ops.len() && #[trigger] ops[i] is Make;
            if i < earlier.len() {
                assert(earlier[i] is Make);
            }
        }
    }
}

/// Of two new windows of which the first is destroyed again, exactly the
/// second is added to those that shutdown hands out for destruction, once;
/// and shutdown leaves nothing on record.
pub proof fn lemma_shutdown_destroys_the_living(registry: RegistryView, a: Window, b: Window)
    requires
        registry.wf(),
        a != b,
        !registry.windows.contains(a),
        !registry.windows.contains(b),
    ensures
        registry.recorded(a).recorded(b).forgotten(a).windows == registry.windows.push(b),
        registry.recorded(a).recorded(b).forgotten(a).wf(),
        registry.recorded(a).recorded(b).forgotten(a).cleared().windows.len() == 0,
{
    let ws = registry.windows;
    let one = registry.recorded(a);
    assert(one.windows == ws.push(a));
    lemma_registry_membership(registry, a, b);
    let two = one.recorded(b);
    assert(two.windows == ws.push(a).push(b));
    lemma_registry_membership(one, b, a);
    assert(two.windows[ws.len() as int] == a);
    assert(two.windows.contains(a));
    let at = two.windows.index_of(a);
    assert(at == ws.len());
    assert(two.windows.remove(at) =~= ws.push(b));
    lemma_registry_membership(two, a, b);
}

impl Window {
    /// Wraps the address of a window that the toolkit has just made, puts
    /// the window on record, and thereby makes the menus final.
    pub fn new(_ctx: &UI, registry: &mut Registry, raw: usize) -> (window: Window)
        ensures
            window.handle.raw == raw,
            final(registry).wf(),
            final(registry)@ == old(registry)@.recorded(window),
    {
        let window = Window { handle: Handle::from_raw(raw) };
        registry.track(window);
        window
    }

    /// Wraps the address of a window without putting it on record, as a
    /// callback does with the address that the toolkit hands it.
    pub fn from_raw(raw: usize) -> (window: Window)
        ensures
            window.handle.raw == raw,
    {
        Window { handle: Handle::from_raw(raw) }
    }

    /// The window's address, to hand back to the toolkit.
    pub fn as_ui_window(&self) -> (raw: usize)
        ensures
            raw == self.handle.raw,
    {
        self.handle.as_raw()
    }

    /// Makes the closure at `context` the one that is called when the user
    /// closes the window. Hands out the closure that it replaces, if any.
    pub fn on_closing(&mut self, _ctx: &UI, bridge: &mut CallbackBridge, context: usize) -> (previous:
        Option<usize>)
        ensures
            *final(self) == *old(self),
            previous == old(bridge).handler(old(self).handle.raw, EventSlot::Closing),
            final(bridge)@ == old(bridge)@.insert((old(self).handle.raw, EventSlot::Closing), context),
    {
        bridge.register(&self.handle, EventSlot::Closing, context)
    }

    /// Whether the window has margins around its edges, given the toolkit's
    /// answer.
    pub fn margined(&self, _ctx: &UI, reply: i32) -> (margined: bool)
        ensures
            margined == (reply != 0),
    {
        from_flag(reply)
    }

    /// The flag to hand to the toolkit so that the window has margins, or
    /// has none.
    pub fn set_margined(&mut self, _ctx: &UI, margined: bool) -> (flag: i32)
        ensures
            *final(self) == *old(self),
            flag == (if margined { 1i32 } else { 0i32 }),
    {
        to_flag(margined)
    }

    /// Takes the window off record before the caller destroys it. Tells
    /// whether it was on record: only then is it the caller's to destroy.
    /// Every alias of the window is stale afterwards.
    pub fn destroy(&self, registry: &mut Registry) -> (known: bool)
        ensures
            final(registry).wf(),
            known == old(registry)@.windows.contains(*self),
            final(registry)@ == old(registry)@.forgotten(*self),
            !final(registry)@.windows.contains(*self),
    {
        registry.forget(self)
    }

    /// Empties the record and hands out every window that is still alive,
    /// oldest first, for the caller to destroy before the toolkit shuts down.
    pub fn destroy_all_windows(registry: &mut Registry) -> (remaining: Vec<Window>)
        ensures
            remaining@ == old(registry)@.windows,
            final(registry)@ == old(registry)@.cleared(),
            final(registry).wf(),
    {
        registry.drain()
    }
}

} // verus!
