use vstd::prelude::*;

use crate::player_events::EventName;

verus! {

/// What a registered handler runs when its event fires.
#[derive(Debug, Clone, Copy, PartialEq, Eq, Structural)]
pub enum Callback {
    /// The wrapper's own handler that marks the player ready.
    Readiness,
    /// A caller's handler, known by the number the caller gave it.
    External(u64),
}

/// A registered handler: the callback and the namespace it was filed under.
#[derive(Debug)]
pub struct EventHandler {
    pub namespace: Option<String>,
    pub callback: Callback,
}

/// Whether handler `h` was filed under namespace `ns`.
pub open spec fn in_namespace(h: EventHandler, ns: Seq<char>) -> bool {
    match h.namespace {
        Some(n) => n@ == ns,
        None => false,
    }
}

/// The handlers of `hs` that were not filed under namespace `ns`, in their order.
pub open spec fn without_namespace(hs: Seq<EventHandler>, ns: Seq<char>) -> Seq<EventHandler> {
    hs.filter(|h: EventHandler| !in_namespace(h, ns))
}

/// The handler lists, filed by event key in a hashbrown map.
#[verifier::external_body]
pub struct HandlerTable {
    map: hashbrown::HashMap<u64, Vec<EventHandler>>,
}

/// What a handler table holds: for each key that was ever filed, its list.
pub uninterp spec fn table_contents(t: HandlerTable) -> Map<u64, Seq<EventHandler>>;

impl HandlerTable {
    /// Relies on `hashbrown::HashMap::new`: the map starts empty.
    #[verifier::external_body]
    pub(crate) fn new() -> (r: HandlerTable)
        ensures
            table_contents(r).dom() == Set::<u64>::empty(),
    {
        HandlerTable { map: hashbrown::HashMap::new() }
    }

    /// Relies on `hashbrown::HashMap::contains_key`: whether the key is in the map.
    #[verifier::external_body]
    pub(crate) fn contains_key(&self, key: u64) -> (r: bool)
        ensures
            r == table_contents(*self).dom().contains(key),
    {
        self.map.contains_key(&key)
    }

    /// Relies on `hashbrown::HashMap::get`: the list filed under the key, if any.
    #[verifier::external_body]
    pub(crate) fn get(&self, key: u64) -> (r: Option<&Vec<EventHandler>>)
        ensures
            match r {
                Some(v) => table_contents(*self).dom().contains(key) && v@ == table_contents(
                    *self,
                )[key],
                None => !table_contents(*self).dom().contains(key),
            },
    {
        self.map.get(&key)
    }

    /// Relies on `hashbrown::HashMap::insert`: the key now maps to the list,
    /// replacing what it held; other keys keep theirs.
    #[verifier::external_body]
    pub(crate) fn insert(&mut self, key: u64, handlers: Vec<EventHandler>)
        ensures
            table_contents(*final(self)) == table_contents(*old(self)).insert(key, handlers@),
    {
        self.map.insert(key, handlers);
    }

    /// Relies on `hashbrown::HashMap::remove`: the key leaves the map and its
    /// list, if it had one, is handed back; other keys keep theirs.
    #[verifier::external_body]
    pub(crate) fn remove(&mut self, key: u64) -> (r: Option<Vec<EventHandler>>)
        ensures
            table_contents(*final(self)) == table_contents(*old(self)).remove(key),
            match r {
                Some(v) => table_contents(*old(self)).dom().contains(key) && v@ == table_contents(
                    *old(self),
                )[key],
                None => !table_contents(*old(self)).dom().contains(key),
            },
    {
        self.map.remove(&key)
    }
}

/// The handlers registered for each event, in registration order, and the
/// events for which a low-level listener has been installed.
pub struct EventRegistry {
    table: HandlerTable,
}

impl EventRegistry {
    /// Whether a low-level listener was installed for `e`: true from the first
    /// registration for `e` on, whatever is removed later.
    pub closed spec fn installed(&self, e: EventName) -> bool {
        table_contents(self.table).dom().contains(e.spec_key())
    }

    /// The handlers registered for `e`, in the order they were registered.
    pub closed spec fn handlers(&self, e: EventName) -> Seq<EventHandler> {
        if self.installed(e) {
            table_contents(self.table)[e.spec_key()]
        } else {
            Seq::empty()
        }
    }

    /// A registry without handlers and without listeners.
    pub fn new() -> (r: EventRegistry)
        ensures
            forall|e: EventName| !#[trigger] r.installed(e),
            forall|e: EventName| #[trigger] r.handlers(e).len() == 0,
    {
        EventRegistry { table: HandlerTable::new() }
    }

    /// Whether a low-level listener was installed for `event`.
    pub fn is_installed(&self, event: EventName) -> (r: bool)
        ensures
            r == self.installed(event),
    {
        self.table.contains_key(event.key())
    }

    /// Appends a handler for `event` under `namespace`. Returns whether this
    /// was the first registration ever for `event`, that is, whether a
    /// low-level listener has to be installed for it now.
    pub fn subscribe(&mut self, event: EventName, namespace: Option<String>, callback: Callback) -> (first: bool)
        ensures
            subscribed(*old(self), *final(self), event, (EventHandler { namespace, callback }), first),
    {
        let key = event.key();
        let ghost before = table_contents(self.table);
        let first = !self.table.contains_key(key);
        let mut list = match self.table.remove(key) {
            Some(v) => v,
            None => Vec::new(),
        };
        list.push(EventHandler { namespace, callback });
        self.table.insert(key, list);
        proof {
            assert forall|e: EventName| e != event implies e.spec_key() != event.spec_key() by {}
            assert(table_contents(self.table) == before.insert(key, list@));
        }
        first
    }

    /// Removes the handlers of `event` filed under `namespace`, keeping the
    /// order of the rest; without a namespace, removes all handlers of
    /// `event`. Installed listeners stay installed.
    pub fn unsubscribe(&mut self, event: EventName, namespace: Option<&str>)
        ensures
            unsubscribed(*old(self), *final(self), event, str_view(namespace)),
    {
        let key = event.key();
        let ghost before = table_contents(self.table);
        proof {
            assert forall|e: EventName| e != event implies e.spec_key() != event.spec_key() by {}
        }
        match self.table.remove(key) {
            None => {
                proof {
                    assert(table_contents(self.table) =~= before);
                    reveal(Seq::filter);
                }
            },
            Some(list) => {
                let kept = match namespace {
                    None => Vec::new(),
                    Some(ns) => keep_outside_namespace(list, ns),
                };
                self.table.insert(key, kept);
                proof {
                    assert(table_contents(self.table) =~= before.insert(key, kept@));
                }
            },
        }
    }

    /// The callbacks to run when `event` fires, in registration order.
    pub fn fire(&self, event: EventName) -> (r: Vec<Callback>)
        ensures
            r@ == fired(*self, event),
    {
        let mut out: Vec<Callback> = Vec::new();
        match self.table.get(event.key()) {
            None => {},
            Some(list) => {
                let mut i: usize = 0;
                while i < list.len()
                    invariant
                        i <= list@.len(),
                        list@ == self.handlers(event),
                        out@ == list@.take(i as int).map_values(|h: EventHandler| h.callback),
                    decreases list@.len() - i,
                {
                    out.push(list[i].callback);
                    assert(list@.take(i + 1) =~= list@.take(i as int).push(list@[i as int]));
                    i = i + 1;
                }
                assert(list@.take(list@.len() as int) =~= list@);
            },
        }
        assert(out@ =~= self.handlers(event).map_values(|h: EventHandler| h.callback));
        out
    }
}

/// The callbacks that firing `e` runs on `reg`, in registration order.
pub open spec fn fired(reg: EventRegistry, e: EventName) -> Seq<Callback> {
    reg.handlers(e).map_values(|h: EventHandler| h.callback)
}

/// An optional string slice seen as its characters.
pub open spec fn str_view(o: Option<&str>) -> Option<Seq<char>> {
    match o {
        Some(s) => Some(s@),
        None => None,
    }
}

/// `r1` is `r0` with handler `h` appended for `event`; `first` tells whether
/// `event` had no listener before. Other events are untouched.
pub open spec fn subscribed(
    r0: EventRegistry,
    r1: EventRegistry,
    event: EventName,
    h: EventHandler,
    first: bool,
) -> bool {
    &&& first == !r0.installed(event)
    &&& r1.installed(event)
    &&& r1.handlers(event) == r0.handlers(event).push(h)
    &&& forall|e: EventName|
        e != event ==> r1.installed(e) == r0.installed(e) && r1.handlers(e) == r0.handlers(e)
}

/// `r1` is `r0` with the handlers of `event` under namespace `ns` removed, or
/// all of them where there is no namespace. Listeners and other events are untouched.
pub open spec fn unsubscribed(
    r0: EventRegistry,
    r1: EventRegistry,
    event: EventName,
    ns: Option<Seq<char>>,
) -> bool {
    &&& forall|e: EventName| r1.installed(e) == r0.installed(e)
    &&& r1.handlers(event) == match ns {
        Some(n) => without_namespace(r0.handlers(event), n),
        None => Seq::<EventHandler>::empty(),
    }
    &&& forall|e: EventName| e != event ==> r1.handlers(e) == r0.handlers(e)
}

/// Two handlers subscribed one after the other to the same event both run
/// when it fires, after those already there, in the order of subscription.
pub proof fn lemma_fire_in_subscription_order(
    r0: EventRegistry,
    r1: EventRegistry,
    r2: EventRegistry,
    event: EventName,
    h1: EventHandler,
    h2: EventHandler,
    first1: bool,
    first2: bool,
)
    requires
        subscribed(r0, r1, event, h1, first1),
        subscribed(r1, r2, event, h2, first2),
    ensures
        fired(r2, event) == fired(r0, event) + seq![h1.callback, h2.callback],
{
    assert(fired(r2, event) =~= fired(r0, event) + seq![h1.callback, h2.callback]);
}

/// Two subscriptions to the same event ask for at most one low-level
/// listener, and for exactly one where the event had none.
pub proof fn lemma_one_listener_per_event(
    r0: EventRegistry,
    r1: EventRegistry,
    r2: EventRegistry,
    event: EventName,
    h1: EventHandler,
    h2: EventHandler,
    first1: bool,
    first2: bool,
)
    requires
        subscribed(r0, r1, event, h1, first1),
        subscribed(r1, r2, event, h2, first2),
    ensures
        !first2,
        first1 == !r0.installed(event),
        r2.installed(event),
{
}

/// Removing a namespace from an event keeps every handler of that event
/// outside the namespace, in order, drops every one inside it, and leaves
/// other events as they were.
pub proof fn lemma_unsubscribe_keeps_others(
    r0: EventRegistry,
    r1: EventRegistry,
    event: EventName,
    ns: Seq<char>,
)
    requires
        unsubscribed(r0, r1, event, Some(ns)),
    ensures
        r1.handlers(event) == without_namespace(r0.handlers(event), ns),
        forall|i: int|
            0 <= i < r1.handlers(event).len() ==> !in_namespace(#[trigger] r1.handlers(event)[i], ns),
        forall|h: EventHandler|
            r0.handlers(event).contains(h) && !in_namespace(h, ns) ==> #[trigger] r1.handlers(
                event,
            ).contains(h),
        forall|e: EventName| e != event ==> #[trigger] fired(r1, e) == fired(r0, e),
{
    let pred = |h: EventHandler| !in_namespace(h, ns);
    let hs = r0.handlers(event);
    assert forall|i: int| 0 <= i < r1.handlers(event).len() implies !in_namespace(
        #[trigger] r1.handlers(event)[i],
        ns,
    ) by {
        hs.lemma_filter_pred(pred, i);
    }
    assert forall|h: EventHandler|
        hs.contains(h) && !in_namespace(h, ns) implies #[trigger] r1.handlers(event).contains(h) by {
        let i = choose|i: int| 0 <= i < hs.len() && hs[i] == h;
        hs.lemma_filter_contains(pred, i);
    }
}

/// The handlers of `list` that were not filed under `ns`, in their order.
fn keep_outside_namespace(list: Vec<EventHandler>, ns: &str) -> (r: Vec<EventHandler>)
    ensures
        r@ == without_namespace(list@, ns@),
{
    let ghost all = list@;
    let mut rest = list;
    let mut kept: Vec<EventHandler> = Vec::new();
    let mut i: usize = 0;
    let wanted = String::from_str(ns);
    let total = rest.len();
    while rest.len() > 0
        invariant
            total == all.len(),
            i + rest@.len() == all.len(),
            rest@ == all.skip(i as int),
            kept@ == without_namespace(all.take(i as int), ns@),
            wanted@ == ns@,
        decreases rest@.len(),
    {
        let h = rest.remove(0);
        let drop = match &h.namespace {
            Some(n) => *n == wanted,
            None => false,
        };
        proof {
            assert(h == all[i as int]);
            assert(all.take(i + 1).drop_last() =~= all.take(i as int));
            reveal(Seq::filter);
        }
        if !drop {
            kept.push(h);
        }
        i = i + 1;
    }
    assert(all.take(all.len() as int) =~= all);
    kept
}

} // verus!
