//! Mouse events: their kinds, their subscribers, and the registry that keeps
//! the events of every view.
//!
//! A subscriber is a token for a callback that the platform layer holds. The
//! library keeps the tokens in the order in which they subscribed, which is
//! the order in which the callbacks are to be invoked.

use crate::handle::Handle;
use std::collections::HashMap;
use vstd::prelude::*;

verus! {

broadcast use vstd::std_specs::hash::group_hash_axioms;

/// The kinds of event a view has.
#[derive(Clone, Copy, Debug, PartialEq, Eq, Structural)]
pub enum EventKind {
    /// A mouse button went down over the view.
    MouseDown,
    /// A mouse button went up over the view.
    MouseUp,
    /// The pointer entered the view.
    MouseEnter,
    /// The pointer left the view.
    MouseLeave,
}

impl EventKind {
    /// The key under which the native layer posts events of this kind.
    pub open spec fn key_spec(self) -> Seq<char> {
        match self {
            EventKind::MouseDown => "MouseDown"@,
            EventKind::MouseUp => "MouseUp"@,
            EventKind::MouseEnter => "MouseEnter"@,
            EventKind::MouseLeave => "MouseLeave"@,
        }
    }

    /// The kind that `key` names, if it names one.
    pub open spec fn kind_of_key(key: Seq<char>) -> Option<EventKind> {
        if key == "MouseDown"@ {
            Some(EventKind::MouseDown)
        } else if key == "MouseUp"@ {
            Some(EventKind::MouseUp)
        } else if key == "MouseEnter"@ {
            Some(EventKind::MouseEnter)
        } else if key == "MouseLeave"@ {
            Some(EventKind::MouseLeave)
        } else {
            None
        }
    }

    /// Each kind has a key of its own: a key names the kind it belongs to,
    /// and no other.
    pub proof fn lemma_key_names_kind(self)
        ensures
            EventKind::kind_of_key(self.key_spec()) == Some(self),
    {
        reveal_strlit("MouseDown");
        reveal_strlit("MouseUp");
        reveal_strlit("MouseEnter");
        reveal_strlit("MouseLeave");
        assert("MouseDown"@.len() == 9);
        assert("MouseUp"@.len() == 7);
        assert("MouseEnter"@.len() == 10);
        assert("MouseLeave"@.len() == 10);
        assert("MouseEnter"@[5] == 'E');
        assert("MouseLeave"@[5] == 'L');
    }

    /// The key under which the native layer posts events of this kind.
    pub fn key(self) -> (key: &'static str)
        ensures
            key@ == self.key_spec(),
    {
        match self {
            EventKind::MouseDown => "MouseDown",
            EventKind::MouseUp => "MouseUp",
            EventKind::MouseEnter => "MouseEnter",
            EventKind::MouseLeave => "MouseLeave",
        }
    }

    /// The kind that `key` names: `None` where it is the key of no kind.
    pub fn from_key(key: &str) -> (kind: Option<EventKind>)
        ensures
            kind == EventKind::kind_of_key(key@),
    {
        let key = key.to_owned();
        if key == "MouseDown".to_owned() {
            Some(EventKind::MouseDown)
        } else if key == "MouseUp".to_owned() {
            Some(EventKind::MouseUp)
        } else if key == "MouseEnter".to_owned() {
            Some(EventKind::MouseEnter)
        } else if key == "MouseLeave".to_owned() {
            Some(EventKind::MouseLeave)
        } else {
            None
        }
    }
}

/// A token for one callback, which the platform layer holds and invokes.
#[derive(Clone, Copy, Debug, PartialEq, Eq, Structural)]
pub struct Subscriber {
    /// The value the platform layer knows the callback by.
    pub id: u64,
}

/// One event of one view: its subscribers, in the order in which they
/// subscribed. Seen as the sequence of its subscribers.
pub struct Event {
    subscribers: Vec<Subscriber>,
}

impl View for Event {
    type V = Seq<Subscriber>;

    closed spec fn view(&self) -> Seq<Subscriber> {
        self.subscribers@
    }
}

impl Event {
    /// An event nobody has subscribed to.
    pub fn new() -> (event: Event)
        ensures
            event@ == Seq::<Subscriber>::empty(),
    {
        Event { subscribers: Vec::new() }
    }

    /// Adds `subscriber` behind those that subscribed before. The same token
    /// may subscribe more than once and is then invoked once for each.
    pub fn subscribe(&mut self, subscriber: Subscriber)
        ensures
            final(self)@ == old(self)@.push(subscriber),
    {
        self.subscribers.push(subscriber);
    }

    /// The subscribers to invoke when the event occurs, in the order in which
    /// to invoke them: that in which they subscribed.
    pub fn subscribers(&self) -> (order: &Vec<Subscriber>)
        ensures
            order@ == self@,
    {
        &self.subscribers
    }

    /// Of two subscriptions made one after the other, the earlier is invoked
    /// directly before the later, and both after all who subscribed before;
    /// those keep their places.
    pub proof fn lemma_subscription_order(
        before: Seq<Subscriber>,
        first: Subscriber,
        second: Subscriber,
    )
        ensures
            before.push(first).push(second).len() == before.len() + 2,
            before.push(first).push(second)[before.len() as int] == first,
            before.push(first).push(second)[before.len() as int + 1] == second,
            forall|i: int|
                0 <= i < before.len() ==> #[trigger] before.push(first).push(second)[i]
                    == before[i],
    {
    }
}

/// The four events of one view.
struct ViewEvents {
    mouse_down: Event,
    mouse_up: Event,
    mouse_enter: Event,
    mouse_leave: Event,
}

impl ViewEvents {
    spec fn of_kind(self, kind: EventKind) -> Seq<Subscriber> {
        match kind {
            EventKind::MouseDown => self.mouse_down@,
            EventKind::MouseUp => self.mouse_up@,
            EventKind::MouseEnter => self.mouse_enter@,
            EventKind::MouseLeave => self.mouse_leave@,
        }
    }

    fn new() -> (events: ViewEvents)
        ensures
            events.mouse_down@ == Seq::<Subscriber>::empty(),
            events.mouse_up@ == Seq::<Subscriber>::empty(),
            events.mouse_enter@ == Seq::<Subscriber>::empty(),
            events.mouse_leave@ == Seq::<Subscriber>::empty(),
    {
        ViewEvents {
            mouse_down: Event::new(),
            mouse_up: Event::new(),
            mouse_enter: Event::new(),
            mouse_leave: Event::new(),
        }
    }
}

/// The events of every view, found by the view's native handle and the kind
/// of event. The events of a view are made the first time one is asked for,
/// and last until the view's entry is removed.
///
/// Seen as the map that gives, for every view and kind, the subscribers of
/// that event in the order in which they subscribed: none where nobody did.
pub struct EventRegistry {
    events: HashMap<u64, ViewEvents>,
}

impl View for EventRegistry {
    type V = Map<(Handle, EventKind), Seq<Subscriber>>;

    closed spec fn view(&self) -> Map<(Handle, EventKind), Seq<Subscriber>> {
        Map::total(
            |at: (Handle, EventKind)|
                if self.events@.contains_key(at.0.raw) {
                    self.events@[at.0.raw].of_kind(at.1)
                } else {
                    Seq::empty()
                },
        )
    }
}

impl EventRegistry {
    /// The map in which no event has a subscriber.
    pub open spec fn silent() -> Map<(Handle, EventKind), Seq<Subscriber>> {
        Map::total(|at: (Handle, EventKind)| Seq::empty())
    }

    /// `events` after the four events of `target` lost their subscribers.
    pub open spec fn without(
        events: Map<(Handle, EventKind), Seq<Subscriber>>,
        target: Handle,
    ) -> Map<(Handle, EventKind), Seq<Subscriber>> {
        Map::total(
            |at: (Handle, EventKind)|
                if at.0 == target {
                    Seq::empty()
                } else {
                    events[at]
                },
        )
    }

    /// A registry in which no event has a subscriber.
    pub fn new() -> (registry: EventRegistry)
        ensures
            registry@ == EventRegistry::silent(),
    {
        EventRegistry { events: HashMap::new() }
    }

    /// The event of kind `kind` of the view `target`, to subscribe to. What
    /// the caller leaves in it is what the registry holds for that view and
    /// kind from then on; no other event changes.
    pub fn event(&mut self, target: Handle, kind: EventKind) -> (event: &mut Event)
        ensures
            event@ == old(self)@[(target, kind)],
            final(self)@ == old(self)@.insert((target, kind), final(event)@),
    {
        let events = self.events.entry(target.raw).or_insert(ViewEvents::new());
        match kind {
            EventKind::MouseDown => &mut events.mouse_down,
            EventKind::MouseUp => &mut events.mouse_up,
            EventKind::MouseEnter => &mut events.mouse_enter,
            EventKind::MouseLeave => &mut events.mouse_leave,
        }
    }

    /// Whom to invoke, first to last, when the native layer posts `key` for
    /// the view `target`: the subscribers of the event that `key` names, in
    /// the order in which they subscribed. `None` where `key` names no event.
    pub fn dispatch(&self, target: Handle, key: &str) -> (order: Option<Vec<Subscriber>>)
        ensures
            match EventKind::kind_of_key(key@) {
                Some(kind) => order.is_some() && order.unwrap()@ == self@[(target, kind)],
                None => order.is_none(),
            },
    {
        match EventKind::from_key(key) {
            Some(kind) => {
                match self.events.get(&target.raw) {
                    Some(events) => {
                        let event = match kind {
                            EventKind::MouseDown => &events.mouse_down,
                            EventKind::MouseUp => &events.mouse_up,
                            EventKind::MouseEnter => &events.mouse_enter,
                            EventKind::MouseLeave => &events.mouse_leave,
                        };
                        let order = event.subscribers().clone();
                        assert(order@ =~= event@);
                        Some(order)
                    },
                    None => Some(Vec::new()),
                }
            },
            None => None,
        }
    }

    /// Ends the events of the view `target`: all four lose their subscribers.
    /// The events of other views stay as they are.
    pub fn remove(&mut self, target: Handle)
        ensures
            final(self)@ == EventRegistry::without(old(self)@, target),
    {
        self.events.remove(&target.raw);
    }
}

} // verus!
