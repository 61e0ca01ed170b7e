//! The callback bridge: which boxed closure answers which event of which
//! toolkit object.

use vstd::prelude::*;
use crate::handle::Handle;

verus! {

/// The events that a closure can be registered for.
#[derive(Clone, Copy, Debug, PartialEq, Eq, Structural)]
pub enum EventSlot {
    Clicked,
    Changed,
    Toggled,
    Selected,
    Closing,
    ShouldQuit,
    /// All events of a drawing area go to its one handler.
    Area,
}

/// One registration: the closure at `context` answers the event `slot` of
/// the object at `target`.
#[derive(Clone, Copy, Debug, PartialEq, Eq, Structural)]
pub struct Registration {
    pub target: usize,
    pub slot: EventSlot,
    pub context: usize,
}

/// The live registrations. An object has at most one closure for each of its
/// events; there is no fan-out to several.
pub struct CallbackBridge {
    entries: Vec<Registration>,
}

/// An event of an object: the object's address and the event.
pub type EventKey = (usize, EventSlot);

/// The closure that `table` holds for this event of this object.
pub open spec fn handler_in(table: Map<EventKey, usize>, target: usize, slot: EventSlot) -> Option<
    usize,
> {
    if table.contains_key((target, slot)) {
        Some(table[(target, slot)])
    } else {
        None
    }
}

/// The registration that `table` holds for this event of this object, as a
/// sequence of one, or of none.
pub open spec fn held(table: Map<EventKey, usize>, target: usize, slot: EventSlot) -> Seq<
    Registration,
> {
    if table.contains_key((target, slot)) {
        seq![Registration { target, slot, context: table[(target, slot)] }]
    } else {
        Seq::empty()
    }
}

/// The registrations that `table` holds for the object at `target`, in the
/// order in which [`EventSlot`] lists the events.
pub open spec fn handlers_of(table: Map<EventKey, usize>, target: usize) -> Seq<Registration> {
    held(table, target, EventSlot::Clicked) + held(table, target, EventSlot::Changed) + held(
        table,
        target,
        EventSlot::Toggled,
    ) + held(table, target, EventSlot::Selected) + held(table, target, EventSlot::Closing) + held(
        table,
        target,
        EventSlot::ShouldQuit,
    ) + held(table, target, EventSlot::Area)
}

/// The table without any event of the object at `target`.
pub open spec fn without(table: Map<EventKey, usize>, target: usize) -> Map<EventKey, usize> {
    Map::new(|key: EventKey| key.0 != target && table.contains_key(key), |key: EventKey| table[key])
}

/// Dispatch goes by the address alone. Once a closure is registered for an
/// event through one handle, the event finds exactly that closure through
/// every alias of the handle, and every other event finds what it found
/// before.
pub proof fn lemma_dispatch_by_identity(
    table: Map<EventKey, usize>,
    handle: Handle,
    alias: Handle,
    slot: EventSlot,
    context: usize,
)
    requires
        alias == handle,
    ensures
        handler_in(table.insert((handle.raw, slot), context), alias.raw, slot) == Some(context),
        forall|target: usize, other: EventSlot|
            !(target == handle.raw && other == slot) ==> handler_in(
                table.insert((handle.raw, slot), context),
                target,
                other,
            ) == handler_in(table, target, other),
{
}

/// Whether `entry` is the registration for this event of this object.
spec fn answers(entry: Registration, target: usize, slot: EventSlot) -> bool {
    entry.target == target && entry.slot == slot
}

/// The closure that `entries` holds for this event of this object.
spec fn lookup(entries: Seq<Registration>, target: usize, slot: EventSlot) -> Option<usize> {
    if exists|i: int| 0 <= i < entries.len() && answers(#[trigger] entries[i], target, slot) {
        let i = choose|i: int| 0 <= i < entries.len() && answers(#[trigger] entries[i], target, slot);
        Some(entries[i].context)
    } else {
        None
    }
}

/// The entries as a table from events to closures.
spec fn table_of(entries: Seq<Registration>) -> Map<EventKey, usize> {
    Map::new(
        |key: EventKey| lookup(entries, key.0, key.1) is Some,
        |key: EventKey| lookup(entries, key.0, key.1).unwrap(),
    )
}

/// No event of any object has two entries.
spec fn single_handler(entries: Seq<Registration>) -> bool {
    forall|i: int, j: int|
        0 <= i < entries.len() && 0 <= j < entries.len() && i != j ==> !answers(
            #[trigger] entries[i],
            (#[trigger] entries[j]).target,
            entries[j].slot,
        )
}

/// Where each event has one entry at most, the closure found for an event is
/// the one of the entry that answers it.
proof fn lemma_lookup_at(entries: Seq<Registration>, at: int)
    requires
        single_handler(entries),
        0 <= at < entries.len(),
    ensures
        lookup(entries, entries[at].target, entries[at].slot) == Some(entries[at].context),
{
    let target = entries[at].target;
    let slot = entries[at].slot;
    assert(answers(entries[at], target, slot));
    let i = choose|i: int| 0 <= i < entries.len() && answers(#[trigger] entries[i], target, slot);
    assert(i == at);
}

impl CallbackBridge {
    /// The registrations, as a table from events to closures.
    pub closed spec fn view(&self) -> Map<EventKey, usize> {
        table_of(self.entries@)
    }

    #[verifier::type_invariant]
    spec fn one_each(&self) -> bool {
        single_handler(self.entries@)
    }

    /// The closure that answers this event of this object, if one does.
    pub open spec fn handler(&self, target: usize, slot: EventSlot) -> Option<usize> {
        handler_in(self@, target, slot)
    }

    /// A bridge with no registration.
    pub fn new() -> (bridge: CallbackBridge)
        ensures
            bridge@ == Map::<EventKey, usize>::empty(),
    {
        let bridge = CallbackBridge { entries: Vec::new() };
        assert(bridge@ =~= Map::<EventKey, usize>::empty());
        bridge
    }

    fn find(&self, target: usize, slot: EventSlot) -> (at: Option<usize>)
        ensures
            at is None ==> lookup(self.entries@, target, slot) is None,
            at is Some ==> at.unwrap() < self.entries@.len() && answers(
                self.entries@[at.unwrap() as int],
                target,
                slot,
            ) && lookup(self.entries@, target, slot) == Some(
                self.entries@[at.unwrap() as int].context,
            ),
    {
        proof {
            use_type_invariant(self);
        }
        let mut i: usize = 0;
        while i < self.entries.len()
            invariant
                single_handler(self.entries@),
                i <= self.entries@.len(),
                forall|k: int| 0 <= k < i ==> !answers(self.entries@[k], target, slot),
            decreases self.entries@.len() - i,
        {
            let entry = self.entries[i];
            if entry.target == target && entry.slot == slot {
                proof {
                    lemma_lookup_at(self.entries@, i as int);
                }
                return Some(i);
            }
            i += 1;
        }
        None
    }

    /// The closure to call when the toolkit reports this event of the object
    /// at `target`. Only the address counts: every alias of a handle leads
    /// to the same closure.
    pub fn dispatch(&self, target: usize, slot: EventSlot) -> (context: Option<usize>)
        ensures
            context == self.handler(target, slot),
    {
        match self.find(target, slot) {
            None => None,
            Some(at) => Some(self.entries[at].context),
        }
    }

    /// Makes the closure at `context` the one that answers this event of
    /// this object. Hands out the closure that answered it before, if there
    /// was one: it is not called again, and the caller may release it.
    pub fn register(&mut self, handle: &Handle, slot: EventSlot, context: usize) -> (previous:
        Option<usize>)
        ensures
            previous == old(self).handler(handle.raw, slot),
            final(self)@ == old(self)@.insert((handle.raw, slot), context),
    {
        proof {
            use_type_invariant(&*self);
        }
        let entry = Registration { target: handle.raw, slot, context };
        let found = self.find(handle.raw, slot);
        let ghost before = self.entries@;
        let mut entries: Vec<Registration> = Vec::new();
        std::mem::swap(&mut self.entries, &mut entries);
        let previous = match found {
            Some(at) => {
                let previous = entries[at].context;
                entries[at] = entry;
                proof {
                    let after = entries@;
                    assert(after == before.update(at as int, entry));
                    assert forall|i: int, j: int|
                        0 <= i < after.len() && 0 <= j < after.len() && i != j implies !answers(
                        #[trigger] after[i],
                        (#[trigger] after[j]).target,
                        after[j].slot,
                    ) by {
                        assert(answers(after[i], after[j].target, after[j].slot) == answers(
                            before[i],
                            before[j].target,
                            before[j].slot,
                        ));
                    }
                    lemma_lookup_at(after, at as int);
                    assert forall|target: usize, other: EventSlot|
                        !(target == handle.raw && other == slot) implies lookup(
                        after,
                        target,
                        other,
                    ) == lookup(before, target, other) by {
                        lemma_lookup_same_keys(before, after, target, other);
                    }
                }
                Some(previous)
            },
            None => {
                entries.push(entry);
                proof {
                    let after = entries@;
                    assert(after == before.push(entry));
                    assert forall|i: int, j: int|
                        0 <= i < after.len() && 0 <= j < after.len() && i != j implies !answers(
                        #[trigger] after[i],
                        (#[trigger] after[j]).target,
                        after[j].slot,
                    ) by {
                        if i < before.len() && j < before.len() {
                            assert(after[i] == before[i] && after[j] == before[j]);
                        }
                    }
                    lemma_lookup_at(after, before.len() as int);
                    assert forall|target: usize, other: EventSlot|
                        !(target == handle.raw && other == slot) implies lookup(
                        after,
                        target,
                        other,
                    ) == lookup(before, target, other) by {
                        lemma_lookup_pushed(before, entry, target, other);
                    }
                }
                None
            },
        };
        std::mem::swap(&mut self.entries, &mut entries);
        assert(self@ =~= old(self)@.insert((handle.raw, slot), context));
        previous
    }

    /// Takes the registration for this event of this object away, as when
    /// the object is destroyed. Hands out the closure that answered it, for
    /// the caller to release.
    pub fn release(&mut self, handle: &Handle, slot: EventSlot) -> (previous: Option<usize>)
        ensures
            previous == old(self).handler(handle.raw, slot),
            final(self)@ == old(self)@.remove((handle.raw, slot)),
    {
        proof {
            use_type_invariant(&*self);
        }
        match self.find(handle.raw, slot) {
            None => {
                assert(self@ =~= old(self)@.remove((handle.raw, slot)));
                None
            },
            Some(at) => {
                proof {
                    lemma_lookup_removed(self.entries@, at as int);
                }
                let mut entries: Vec<Registration> = Vec::new();
                std::mem::swap(&mut self.entries, &mut entries);
                let removed = entries.remove(at);
                std::mem::swap(&mut self.entries, &mut entries);
                assert(self@ =~= old(self)@.remove((handle.raw, slot)));
                Some(removed.context)
            },
        }
    }
}

impl CallbackBridge {
    fn release_into(&mut self, handle: &Handle, slot: EventSlot, released: &mut Vec<Registration>)
        ensures
            final(self)@ == old(self)@.remove((handle.raw, slot)),
            final(released)@ == old(released)@ + held(old(self)@, handle.raw, slot),
    {
        match self.release(handle, slot) {
            Some(context) => {
                let entry = Registration { target: handle.raw, slot, context };
                released.push(entry);
                assert(released@ =~= old(released)@ + seq![entry]);
            },
            None => {
                assert(released@ =~= old(released)@ + Seq::<Registration>::empty());
            },
        }
    }

    /// Takes every registration of this object away, as when the object is
    /// destroyed. Hands out the registrations that it had, in the order in
    /// which [`EventSlot`] lists the events, for the caller to release their
    /// closures. The other objects keep theirs.
    pub fn release_all(&mut self, handle: &Handle) -> (released: Vec<Registration>)
        ensures
            released@ == handlers_of(old(self)@, handle.raw),
            final(self)@ == without(old(self)@, handle.raw),
    {
        let mut released: Vec<Registration> = Vec::new();
        assert(released@ =~= Seq::<Registration>::empty());
        self.release_into(handle, EventSlot::Clicked, &mut released);
        self.release_into(handle, EventSlot::Changed, &mut released);
        self.release_into(handle, EventSlot::Toggled, &mut released);
        self.release_into(handle, EventSlot::Selected, &mut released);
        self.release_into(handle, EventSlot::Closing, &mut released);
        self.release_into(handle, EventSlot::ShouldQuit, &mut released);
        self.release_into(handle, EventSlot::Area, &mut released);
        assert(released@ =~= handlers_of(old(self)@, handle.raw));
        assert(self@ =~= without(old(self)@, handle.raw)) by {
            assert forall|key: EventKey| self@.contains_key(key) <==> (key.0 != handle.raw
                && old(self)@.contains_key(key)) by {
                let slot = key.1;
                assert(key == (key.0, slot));
            }
        }
        released
    }
}

/// Two records that answer the same questions at every index find the same
/// closure.
proof fn lemma_lookup_same_keys(
    before: Seq<Registration>,
    after: Seq<Registration>,
    target: usize,
    slot: EventSlot,
)
    requires
        single_handler(before),
        single_handler(after),
        before.len() == after.len(),
        forall|i: int|
            0 <= i < before.len() ==> (answers(before[i], target, slot) <==> answers(
                after[i],
                target,
                slot,
            )),
        forall|i: int|
            0 <= i < before.len() && answers(before[i], target, slot) ==> before[i] == after[i],
    ensures
        lookup(after, target, slot) == lookup(before, target, slot),
{
    if exists|i: int| 0 <= i < before.len() && answers(#[trigger] before[i], target, slot) {
        let i = choose|i: int| 0 <= i < before.len() && answers(#[trigger] before[i], target, slot);
        assert(answers(after[i], target, slot));
        lemma_lookup_at(before, i);
        lemma_lookup_at(after, i);
    } else {
        assert forall|i: int| 0 <= i < after.len() implies !answers(
            #[trigger] after[i],
            target,
            slot,
        ) by {
            assert(!answers(before[i], target, slot));
        }
    }
}

/// A new entry changes nothing for the events that it does not answer.
proof fn lemma_lookup_pushed(
    before: Seq<Registration>,
    entry: Registration,
    target: usize,
    slot: EventSlot,
)
    requires
        single_handler(before),
        single_handler(before.push(entry)),
        !answers(entry, target, slot),
    ensures
        lookup(before.push(entry), target, slot) == lookup(before, target, slot),
{
    let after = before.push(entry);
    if exists|i: int| 0 <= i < before.len() && answers(#[trigger] before[i], target, slot) {
        let i = choose|i: int| 0 <= i < before.len() && answers(#[trigger] before[i], target, slot);
        assert(after[i] == before[i]);
        lemma_lookup_at(before, i);
        lemma_lookup_at(after, i);
    } else {
        assert forall|i: int| 0 <= i < after.len() implies !answers(
            #[trigger] after[i],
            target,
            slot,
        ) by {
            if i < before.len() {
                assert(after[i] == before[i]);
            }
        }
    }
}

/// Taking one entry away leaves its event without a closure and changes
/// nothing for the others.
proof fn lemma_lookup_removed(before: Seq<Registration>, at: int)
    requires
        single_handler(before),
        0 <= at < before.len(),
    ensures
        single_handler(before.remove(at)),
        lookup(before.remove(at), before[at].target, before[at].slot) is None,
        forall|target: usize, slot: EventSlot|
            !answers(before[at], target, slot) ==> lookup(before.remove(at), target, slot)
                == lookup(before, target, slot),
{
    let after = before.remove(at);
    assert forall|i: int| 0 <= i < after.len() implies #[trigger] after[i] == before[if i < at {
        i
    } else {
        i + 1
    }] by {}
    assert forall|i: int, j: int|
        0 <= i < after.len() && 0 <= j < after.len() && i != j implies !answers(
        #[trigger] after[i],
        (#[trigger] after[j]).target,
        after[j].slot,
    ) by {
        let bi = if i < at { i } else { i + 1 };
        let bj = if j < at { j } else { j + 1 };
        assert(after[i] == before[bi] && after[j] == before[bj]);
    }
    assert forall|i: int| 0 <= i < after.len() implies !answers(
        #[trigger] after[i],
        before[at].target,
        before[at].slot,
    ) by {
        let bi = if i < at { i } else { i + 1 };
        assert(after[i] == before[bi]);
    }
    assert forall|target: usize, slot: EventSlot| !answers(before[at], target, slot) implies lookup(
        after,
        target,
        slot,
    ) == lookup(before, target, slot) by {
        if exists|i: int| 0 <= i < before.len() && answers(#[trigger] before[i], target, slot) {
            let i = choose|i: int|
                0 <= i < before.len() && answers(#[trigger] before[i], target, slot);
            assert(i != at);
            let k = if i < at { i } else { i - 1 };
            assert(after[k] == before[i]);
            lemma_lookup_at(before, i);
            lemma_lookup_at(after, k);
        } else {
            assert forall|k: int| 0 <= k < after.len() implies !answers(
                #[trigger] after[k],
                target,
                slot,
            ) by {
                let bk = if k < at { k } else { k + 1 };
                assert(after[k] == before[bk]);
            }
        }
    }
}

} // verus!
