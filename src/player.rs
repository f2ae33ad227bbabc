use vstd::prelude::*;

use crate::error::PlayerError;
use crate::gate::{marked_ready, Readiness, ReadinessGate};
use crate::player_events::{
    opt_view, same_text, spec_handler_name, spec_namespaced_event, EventName, PlayerEvents,
};
use crate::player_state::PlayerState;
use crate::registry::{
    fired, unsubscribed, Callback, EventHandler, EventRegistry,
};

verus! {

/// A command for the remote player.
#[derive(Debug, PartialEq, Eq)]
pub enum RemoteCall {
    PlayVideo,
    PauseVideo,
    StopVideo,
    /// Cue the video with this id, without starting it.
    CueVideoById(String),
}

/// What the host is to do for a command: make the call on the remote player,
/// or, when the player is not ready, only warn that it is not.
#[derive(Debug, PartialEq, Eq)]
pub enum PlayerAction {
    Call(RemoteCall),
    WarnNotReady,
}

/// A low-level listener to install on the remote player: it fans `event`
/// out to the registry, under the handler property `handler_name`.
#[derive(Debug)]
pub struct Listener {
    pub event: EventName,
    pub handler_name: String,
}

/// Whether `l` carries the handler name of its event.
pub open spec fn listener_named(l: Listener) -> bool {
    l.handler_name@ == spec_handler_name(l.event.spec_name())
}

/// A handler seen over plain values: its namespace and its callback.
pub open spec fn handler_view(h: EventHandler) -> (Option<Seq<char>>, Callback) {
    (opt_view(h.namespace), h.callback)
}

/// The handlers of `e` in `reg`, seen over plain values.
pub open spec fn handler_views(reg: EventRegistry, e: EventName) -> Seq<(Option<Seq<char>>, Callback)> {
    reg.handlers(e).map_values(|h: EventHandler| handler_view(h))
}

/// The handlers that the caller's `(name, callback number)` entries give
/// event `e`, in entry order; entries that name no known event give none.
pub open spec fn entry_handlers(entries: Seq<(String, u64)>, e: EventName) -> Seq<
    (Option<Seq<char>>, Callback),
>
    decreases entries.len(),
{
    if entries.len() == 0 {
        Seq::empty()
    } else {
        let prev = entry_handlers(entries.drop_last(), e);
        match spec_namespaced_event(entries.last().0@) {
            Ok((ev, ns)) => if ev == e {
                prev.push((ns, Callback::External(entries.last().1)))
            } else {
                prev
            },
            Err(_) => prev,
        }
    }
}

/// The positions of the entries that name no known event, in order.
pub open spec fn skipped_entries(entries: Seq<(String, u64)>) -> Seq<int>
    decreases entries.len(),
{
    if entries.len() == 0 {
        Seq::empty()
    } else {
        let prev = skipped_entries(entries.drop_last());
        if spec_namespaced_event(entries.last().0@) is Err {
            prev.push(entries.len() - 1)
        } else {
            prev
        }
    }
}

/// The handlers of `e` at construction: those of the caller's entries, and
/// for the ready event the wrapper's own readiness handler after them.
pub open spec fn initial_handlers(entries: Seq<(String, u64)>, e: EventName) -> Seq<
    (Option<Seq<char>>, Callback),
> {
    if e == EventName::Ready {
        entry_handlers(entries, e).push((None, Callback::Readiness))
    } else {
        entry_handlers(entries, e)
    }
}

/// `seq![e]` where `reg` has a listener for `e`, else empty.
pub open spec fn if_installed(reg: EventRegistry, e: EventName) -> Seq<EventName> {
    if reg.installed(e) {
        seq![e]
    } else {
        Seq::empty()
    }
}

/// The events that have a listener in `reg`, in a fixed order.
pub open spec fn installed_events(reg: EventRegistry) -> Seq<EventName> {
    if_installed(reg, EventName::Ready) + if_installed(reg, EventName::Error) + if_installed(
        reg,
        EventName::StateChange,
    ) + if_installed(reg, EventName::PlaybackQualityChange) + if_installed(
        reg,
        EventName::PlaybackRateChange,
    ) + if_installed(reg, EventName::ApiChange)
}

/// What construction of the remote player needs from the wrapper.
pub struct Prepared {
    /// The registry with the caller's handlers and the readiness handler.
    pub registry: EventRegistry,
    /// The listeners to hand to the remote constructor, one per event with handlers.
    pub listeners: Vec<Listener>,
    /// The positions of the caller's entries that were skipped, to be reported.
    pub skipped: Vec<usize>,
}

/// Appends a listener for `e` when `reg` has one installed.
fn push_listener_if_installed(reg: &EventRegistry, e: EventName, out: &mut Vec<Listener>)
    requires
        forall|k: int| 0 <= k < old(out)@.len() ==> listener_named(#[trigger] old(out)@[k]),
    ensures
        final(out)@.map_values(|l: Listener| l.event) == old(out)@.map_values(|l: Listener| l.event)
            + if_installed(*reg, e),
        forall|k: int| 0 <= k < final(out)@.len() ==> listener_named(#[trigger] final(out)@[k]),
{
    let ghost before = out@;
    if reg.is_installed(e) {
        let handler_name = e.handler_name();
        out.push(Listener { event: e, handler_name });
        assert(out@.map_values(|l: Listener| l.event) =~= before.map_values(|l: Listener| l.event)
            + seq![e]);
    } else {
        assert(out@.map_values(|l: Listener| l.event) =~= before.map_values(|l: Listener| l.event)
            + Seq::<EventName>::empty());
    }
}

/// The listeners for the events that have one installed in `reg`.
pub fn listeners_for(reg: &EventRegistry) -> (r: Vec<Listener>)
    ensures
        r@.map_values(|l: Listener| l.event) == installed_events(*reg),
        forall|k: int| 0 <= k < r@.len() ==> listener_named(#[trigger] r@[k]),
{
    let mut out: Vec<Listener> = Vec::new();
    assert(out@.map_values(|l: Listener| l.event) =~= Seq::<EventName>::empty());
    push_listener_if_installed(reg, EventName::Ready, &mut out);
    push_listener_if_installed(reg, EventName::Error, &mut out);
    push_listener_if_installed(reg, EventName::StateChange, &mut out);
    push_listener_if_installed(reg, EventName::PlaybackQualityChange, &mut out);
    push_listener_if_installed(reg, EventName::PlaybackRateChange, &mut out);
    push_listener_if_installed(reg, EventName::ApiChange, &mut out);
    assert(out@.map_values(|l: Listener| l.event) =~= installed_events(*reg));
    out
}

proof fn lemma_push_view(hs: Seq<EventHandler>, h: EventHandler)
    ensures
        hs.push(h).map_values(|x: EventHandler| handler_view(x)) == hs.map_values(
            |x: EventHandler| handler_view(x),
        ).push(handler_view(h)),
{
    assert(hs.push(h).map_values(|x: EventHandler| handler_view(x)) =~= hs.map_values(
        |x: EventHandler| handler_view(x),
    ).push(handler_view(h)));
}

impl Prepared {
    /// Files the caller's handlers, given as `(event name, callback number)`
    /// with names as `"event"` or `"event.namespace"`, then the wrapper's own
    /// readiness handler for the ready event, and lists the listeners to
    /// install. Entries that name no known event are skipped, not fatal.
    pub fn new(entries: &Vec<(String, u64)>) -> (r: Prepared)
        ensures
            forall|e: EventName|
                #![trigger handler_views(r.registry, e)]
                handler_views(r.registry, e) == initial_handlers(entries@, e)
                    && r.registry.installed(e) == (initial_handlers(entries@, e).len() > 0),
            r.listeners@.map_values(|l: Listener| l.event) == installed_events(r.registry),
            forall|k: int| 0 <= k < r.listeners@.len() ==> listener_named(#[trigger] r.listeners@[k]),
            r.skipped@.map_values(|i: usize| i as int) == skipped_entries(entries@),
    {
        let mut registry = EventRegistry::new();
        let mut skipped: Vec<usize> = Vec::new();
        let n = entries.len();
        let mut i: usize = 0;
        proof {
            assert forall|e: EventName| #![trigger handler_views(registry, e)]
                handler_views(registry, e) == entry_handlers(entries@.take(0), e) by {
                assert(!registry.installed(e) && registry.handlers(e).len() == 0);
                assert(handler_views(registry, e) =~= Seq::<(Option<Seq<char>>, Callback)>::empty());
            }
            assert(skipped@.map_values(|i: usize| i as int) =~= skipped_entries(entries@.take(0)));
        }
        while i < n
            invariant
                n == entries@.len(),
                i <= n,
                forall|e: EventName|
                    #![trigger handler_views(registry, e)]
                    handler_views(registry, e) == entry_handlers(entries@.take(i as int), e)
                        && registry.installed(e) == (handler_views(registry, e).len() > 0),
                skipped@.map_values(|i: usize| i as int) == skipped_entries(entries@.take(i as int)),
            decreases n - i,
        {
            let ghost r0 = registry;
            let ghost pre = entries@.take(i as int);
            let ghost cur = entries@.take(i + 1);
            proof {
                assert(cur.drop_last() =~= pre);
                assert(cur.last() == entries@[i as int]);
            }
            let entry = &entries[i];
            match PlayerEvents::get_namespaced_event(entry.0.as_str()) {
                Ok((event, namespace)) => {
                    let ghost nsv = opt_view(namespace);
                    let ghost h = EventHandler { namespace, callback: Callback::External(entry.1) };
                    let _ = registry.subscribe(event, namespace, Callback::External(entry.1));
                    proof {
                        assert(spec_namespaced_event(cur.last().0@) == Ok::<(EventName, Option<Seq<char>>), PlayerError>((event, nsv)));
                        assert forall|e: EventName| #![trigger handler_views(registry, e)]
                            handler_views(registry, e) == entry_handlers(cur, e)
                                && registry.installed(e) == (handler_views(registry, e).len() > 0) by {
                            assert(handler_views(r0, e) == entry_handlers(pre, e));
                            if e == event {
                                lemma_push_view(r0.handlers(e), h);
                            } else {
                                assert(registry.handlers(e) == r0.handlers(e));
                                assert(registry.installed(e) == r0.installed(e));
                            }
                        }
                        assert(skipped@.map_values(|i: usize| i as int) =~= skipped_entries(cur));
                    }
                },
                Err(_) => {
                    let ghost sk0 = skipped@;
                    skipped.push(i);
                    proof {
                        assert(skipped@.map_values(|i: usize| i as int) =~= sk0.map_values(
                            |i: usize| i as int,
                        ).push(i as int));
                        assert(skipped@.map_values(|i: usize| i as int) =~= skipped_entries(cur));
                        assert forall|e: EventName| #![trigger handler_views(registry, e)]
                            handler_views(registry, e) == entry_handlers(cur, e) by {}
                    }
                },
            }
            i = i + 1;
        }
        proof {
            assert(entries@.take(n as int) =~= entries@);
        }
        let ghost r0 = registry;
        let _ = registry.subscribe(EventName::Ready, None, Callback::Readiness);
        proof {
            assert forall|e: EventName| #![trigger handler_views(registry, e)]
                handler_views(registry, e) == initial_handlers(entries@, e)
                    && registry.installed(e) == (initial_handlers(entries@, e).len() > 0) by {
                assert(handler_views(r0, e) == entry_handlers(entries@, e));
                if e == EventName::Ready {
                    lemma_push_view(r0.handlers(e), EventHandler { namespace: None, callback: Callback::Readiness });
                } else {
                    assert(registry.handlers(e) == r0.handlers(e));
                    assert(registry.installed(e) == r0.installed(e));
                }
            }
        }
        let listeners = listeners_for(&registry);
        Prepared { registry, listeners, skipped }
    }
}


/// The registry after a subscription of a handler seen as `v` to `event`;
/// `first` tells whether `event` had no listener before.
pub open spec fn subscribed_as(
    r0: EventRegistry,
    r1: EventRegistry,
    event: EventName,
    v: (Option<Seq<char>>, Callback),
    first: bool,
) -> bool {
    &&& first == !r0.installed(event)
    &&& r1.installed(event)
    &&& handler_views(r1, event) == handler_views(r0, event).push(v)
    &&& forall|e: EventName|
        e != event ==> r1.installed(e) == r0.installed(e) && r1.handlers(e) == r0.handlers(e)
}

/// The payload key under which the remote player puts a handle to itself.
pub const TARGET_KEY: &'static str = "target";

/// What the fan-out does with an event payload before the handlers see it.
#[derive(Debug, PartialEq, Eq)]
pub struct PayloadPlan {
    /// Delete the `target` entry, the handle to the remote player itself.
    pub strip_target: bool,
    /// Hand the payload to the handlers; else they are called without one.
    pub forward: bool,
}

/// Plans the scrubbing of a payload with the given keys: the `target` entry
/// goes where present, and the payload is handed on only where some other
/// entry remains.
pub fn plan_payload(keys: &Vec<String>) -> (r: PayloadPlan)
    ensures
        r.strip_target == exists|i: int| 0 <= i < keys@.len() && #[trigger] keys@[i]@ == TARGET_KEY@,
        r.forward == exists|i: int| 0 <= i < keys@.len() && #[trigger] keys@[i]@ != TARGET_KEY@,
{
    let mut strip_target = false;
    let mut forward = false;
    let mut i: usize = 0;
    while i < keys.len()
        invariant
            i <= keys@.len(),
            strip_target == exists|j: int| 0 <= j < i && #[trigger] keys@[j]@ == TARGET_KEY@,
            forward == exists|j: int| 0 <= j < i && #[trigger] keys@[j]@ != TARGET_KEY@,
        decreases keys@.len() - i,
    {
        if same_text(keys[i].as_str(), TARGET_KEY) {
            strip_target = true;
        } else {
            forward = true;
        }
        i = i + 1;
    }
    PayloadPlan { strip_target, forward }
}

/// The effect of `on(name, callback)` taking `p0` to `p1` with result `r`:
/// readiness is kept; a name that is no known event is refused and changes
/// nothing; else the handler is appended and a listener comes back exactly
/// when the event had none and a remote player exists.
pub open spec fn subscribed_on(
    p0: YtPlayer,
    p1: YtPlayer,
    name: Seq<char>,
    callback: u64,
    r: Result<Option<Listener>, PlayerError>,
) -> bool {
    &&& p1.readiness() == p0.readiness()
    &&& match spec_namespaced_event(name) {
        Err(err) => r == Err::<Option<Listener>, PlayerError>(err) && p1.events() == p0.events(),
        Ok((event, ns)) => {
            &&& r is Ok
            &&& subscribed_as(
                p0.events(),
                p1.events(),
                event,
                (ns, Callback::External(callback)),
                !p0.events().installed(event),
            )
            &&& match r {
                Ok(Some(l)) => l.event == event && listener_named(l) && !p0.events().installed(
                    event,
                ) && p0.readiness() != Readiness::Failed,
                Ok(None) => p0.events().installed(event) || p0.readiness() == Readiness::Failed,
                Err(_) => false,
            }
        },
    }
}

/// The player facade: the handler registry and the readiness gate of one
/// remote player. Every command goes through the readiness guard.
pub struct YtPlayer {
    gate: ReadinessGate,
    registry: EventRegistry,
}

impl YtPlayer {
    /// The handler registry.
    pub closed spec fn events(&self) -> EventRegistry {
        self.registry
    }

    /// Where the player stands in its start-up.
    pub closed spec fn readiness(&self) -> Readiness {
        self.gate@
    }

    /// Whether commands reach the remote player.
    pub open spec fn ready(&self) -> bool {
        self.readiness() == Readiness::Ready
    }

    /// What a command becomes: the call itself once ready, a warning before.
    pub open spec fn gated(&self, call: RemoteCall) -> PlayerAction {
        if self.ready() {
            PlayerAction::Call(call)
        } else {
            PlayerAction::WarnNotReady
        }
    }

    /// What the wait for readiness has come to: `None` while pending,
    /// `Ok` once ready, `PlayerConstructionFailed` where construction failed.
    pub open spec fn spec_ready_outcome(&self) -> Option<Result<(), PlayerError>> {
        match self.readiness() {
            Readiness::Unready => None,
            Readiness::Ready => Some(Ok(())),
            Readiness::Failed => Some(Err(PlayerError::PlayerConstructionFailed)),
        }
    }

    /// The facade over a prepared registry, once the remote constructor has
    /// run: `constructed` tells whether it yielded a usable player.
    pub fn new(registry: EventRegistry, constructed: bool) -> (r: YtPlayer)
        ensures
            r.events() == registry,
            r.readiness() == if constructed {
                Readiness::Unready
            } else {
                Readiness::Failed
            },
    {
        YtPlayer { gate: ReadinessGate::new(constructed), registry }
    }

    /// Where the player stands in its start-up.
    pub fn readiness_state(&self) -> (r: Readiness)
        ensures
            r == self.readiness(),
    {
        self.gate.state()
    }

    /// Whether the player is ready.
    pub fn is_ready(&self) -> (r: bool)
        ensures
            r == self.ready(),
    {
        self.gate.is_ready()
    }

    /// What the wait for readiness has come to (see `spec_ready_outcome`).
    pub fn ready_outcome(&self) -> (r: Option<Result<(), PlayerError>>)
        ensures
            r == self.spec_ready_outcome(),
    {
        match self.gate.state() {
            Readiness::Unready => None,
            Readiness::Ready => Some(Ok(())),
            Readiness::Failed => Some(Err(PlayerError::PlayerConstructionFailed)),
        }
    }

    /// The guard of every command: the call once ready, a warning before.
    fn run_if_ready(&self, call: RemoteCall) -> (r: PlayerAction)
        ensures
            r == self.gated(call),
    {
        if self.gate.is_ready() {
            PlayerAction::Call(call)
        } else {
            PlayerAction::WarnNotReady
        }
    }

    /// Starts playback.
    pub fn play_video(&self) -> (r: PlayerAction)
        ensures
            r == self.gated(RemoteCall::PlayVideo),
    {
        self.run_if_ready(RemoteCall::PlayVideo)
    }

    /// Pauses playback.
    pub fn pause_video(&self) -> (r: PlayerAction)
        ensures
            r == self.gated(RemoteCall::PauseVideo),
    {
        self.run_if_ready(RemoteCall::PauseVideo)
    }

    /// Stops playback.
    pub fn stop_video(&self) -> (r: PlayerAction)
        ensures
            r == self.gated(RemoteCall::StopVideo),
    {
        self.run_if_ready(RemoteCall::StopVideo)
    }

    /// Cues the video `video_id` without starting it.
    pub fn change_video(&self, video_id: &str) -> (r: PlayerAction)
        ensures
            match r {
                PlayerAction::Call(RemoteCall::CueVideoById(id)) => self.ready() && id@ == video_id@,
                PlayerAction::WarnNotReady => !self.ready(),
                _ => false,
            },
    {
        self.run_if_ready(RemoteCall::CueVideoById(String::from_str(video_id)))
    }

    /// The player state: once ready, what `read_state` reports of the remote
    /// player; before, `PlayerState::UNSTARTED`, without asking.
    pub fn get_player_state<F: FnOnce() -> i32>(&self, read_state: F) -> (r: i32)
        requires
            read_state.requires(()),
        ensures
            self.ready() ==> read_state.ensures((), r),
            !self.ready() ==> r == PlayerState::UNSTARTED,
    {
        if self.gate.is_ready() {
            read_state()
        } else {
            PlayerState::UNSTARTED
        }
    }

    /// Subscribes callback `callback` to `"event"` or `"event.namespace"`.
    /// Returns the listener to install now where this is the first handler
    /// for the event and a remote player exists. A name that is not a known
    /// event is refused and changes nothing.
    pub fn on(&mut self, event_name: &str, callback: u64) -> (r: Result<Option<Listener>, PlayerError>)
        ensures
            subscribed_on(*old(self), *final(self), event_name@, callback, r),
    {
        match PlayerEvents::get_namespaced_event(event_name) {
            Err(err) => Err(err),
            Ok((event, namespace)) => {
                let ghost r0 = self.registry;
                let ghost h = EventHandler { namespace, callback: Callback::External(callback) };
                let first = self.registry.subscribe(event, namespace, Callback::External(callback));
                proof {
                    lemma_push_view(r0.handlers(event), h);
                }
                let failed = match self.gate.state() {
                    Readiness::Failed => true,
                    _ => false,
                };
                if first && !failed {
                    Ok(Some(Listener { event, handler_name: event.handler_name() }))
                } else {
                    Ok(None)
                }
            },
        }
    }

    /// Removes the handlers of `"event.namespace"`, or all handlers of
    /// `"event"`. Installed listeners stay. A name that is not a known event
    /// is refused and changes nothing.
    pub fn off(&mut self, event_name: &str) -> (r: Result<(), PlayerError>)
        ensures
            final(self).readiness() == old(self).readiness(),
            match spec_namespaced_event(event_name@) {
                Err(err) => r == Err::<(), PlayerError>(err) && final(self).events() == old(
                    self,
                ).events(),
                Ok((event, ns)) => r is Ok && unsubscribed(
                    old(self).events(),
                    final(self).events(),
                    event,
                    ns,
                ),
            },
    {
        match PlayerEvents::get_namespaced_event(event_name) {
            Err(err) => Err(err),
            Ok((event, namespace)) => {
                match namespace {
                    Some(ns) => self.registry.unsubscribe(event, Some(ns.as_str())),
                    None => self.registry.unsubscribe(event, None),
                }
                Ok(())
            },
        }
    }

    /// The callbacks to run, in order, when the remote player fires `event`.
    pub fn fire(&self, event: EventName) -> (r: Vec<Callback>)
        ensures
            r@ == fired(self.events(), event),
    {
        self.registry.fire(event)
    }

    /// Runs the wrapper's readiness handler. Returns whether the waiters for
    /// readiness are to be released now (only on the first time, and never
    /// for a player whose construction failed).
    pub fn mark_ready(&mut self) -> (release: bool)
        ensures
            marked_ready(old(self).readiness(), final(self).readiness(), release),
            final(self).events() == old(self).events(),
    {
        self.gate.mark_ready()
    }
}


/// Two subscriptions to the same event, whatever their namespaces, ask for
/// at most one low-level listener between them: the second never does.
pub proof fn lemma_on_installs_once(
    p0: YtPlayer,
    p1: YtPlayer,
    p2: YtPlayer,
    name1: Seq<char>,
    name2: Seq<char>,
    cb1: u64,
    cb2: u64,
    r1: Result<Option<Listener>, PlayerError>,
    r2: Result<Option<Listener>, PlayerError>,
)
    requires
        subscribed_on(p0, p1, name1, cb1, r1),
        subscribed_on(p1, p2, name2, cb2, r2),
        spec_namespaced_event(name1) is Ok,
        spec_namespaced_event(name2) is Ok,
        spec_namespaced_event(name1)->Ok_0.0 == spec_namespaced_event(name2)->Ok_0.0,
    ensures
        r2 == Ok::<Option<Listener>, PlayerError>(None),
        r1 is Ok,
{
}

/// Before readiness no command reaches the remote player: each is only a
/// warning, and the wait for readiness is still pending or has failed.
pub proof fn lemma_inert_before_ready(p: YtPlayer, call: RemoteCall)
    requires
        !p.ready(),
    ensures
        p.gated(call) == PlayerAction::WarnNotReady,
        p.spec_ready_outcome() != Some(Ok::<(), PlayerError>(())),
{
}

/// The first ready event of a constructed player releases the waiters for
/// readiness, a later one releases nothing, and from the first on every
/// command reaches the remote player.
pub proof fn lemma_ready_releases_once(
    p0: YtPlayer,
    p1: YtPlayer,
    p2: YtPlayer,
    release1: bool,
    release2: bool,
    call: RemoteCall,
)
    requires
        p0.readiness() == Readiness::Unready,
        marked_ready(p0.readiness(), p1.readiness(), release1),
        marked_ready(p1.readiness(), p2.readiness(), release2),
    ensures
        release1,
        !release2,
        p1.spec_ready_outcome() == Some(Ok::<(), PlayerError>(())),
        p1.gated(call) == PlayerAction::Call(call),
        p2.gated(call) == PlayerAction::Call(call),
{
}

/// A player whose construction failed stays failed through the ready event:
/// it releases nothing, reports `PlayerConstructionFailed` to every waiter,
/// and no command reaches a remote player.
pub proof fn lemma_failed_stays_inert(p0: YtPlayer, p1: YtPlayer, release: bool, call: RemoteCall)
    requires
        p0.readiness() == Readiness::Failed,
        marked_ready(p0.readiness(), p1.readiness(), release),
    ensures
        !release,
        p1.readiness() == Readiness::Failed,
        p1.spec_ready_outcome() == Some(
            Err::<(), PlayerError>(PlayerError::PlayerConstructionFailed),
        ),
        p0.gated(call) == PlayerAction::WarnNotReady,
        p1.gated(call) == PlayerAction::WarnNotReady,
{
}

} // verus!
