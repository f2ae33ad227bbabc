use vstd::prelude::*;

use crate::error::PlayerError;
use crate::casefold::{
    ascii_lower, ascii_upper, is_ascii_char, is_ascii_lower, lower_of, to_lowercase,
    to_uppercase, upper_of,
};

verus! {

/// The characters of `s` from position `n` on; empty where `s` is shorter.
pub open spec fn rest_from(s: Seq<char>, n: int) -> Seq<char> {
    if s.len() <= n {
        Seq::empty()
    } else {
        s.skip(n)
    }
}

/// The upper-cased form of a one-character string: its ASCII form where the
/// character is ASCII, else what Unicode upper-casing gives.
pub open spec fn first_upper(c: Seq<char>) -> Seq<char> {
    if c.len() == 1 && is_ascii_char(c[0]) {
        seq![ascii_upper(c[0])]
    } else {
        upper_of(c)
    }
}

/// The lower-cased form of a one-character string, as `first_upper`.
pub open spec fn first_lower(c: Seq<char>) -> Seq<char> {
    if c.len() == 1 && is_ascii_char(c[0]) {
        seq![ascii_lower(c[0])]
    } else {
        lower_of(c)
    }
}

/// `"on"`, then the already upper-cased first character, then the rest of the event name.
pub open spec fn handler_name_from(upper_first: Seq<char>, event_name: Seq<char>) -> Seq<char> {
    seq!['o', 'n'] + upper_first + rest_from(event_name, 1)
}

/// The handler name of an event name: `"stateChange"` gives `"onStateChange"`.
pub open spec fn spec_handler_name(event_name: Seq<char>) -> Seq<char> {
    handler_name_from(first_upper(event_name.take(1)), event_name)
}

/// A handler name longer than two characters that starts with a lowercase `"on"`.
pub open spec fn has_on_prefix(handler_name: Seq<char>) -> bool {
    handler_name.len() > 2 && handler_name[0] == 'o' && handler_name[1] == 'n'
}

/// The already lower-cased character after `"on"`, then what follows it.
pub open spec fn event_name_from(lower_first: Seq<char>, handler_name: Seq<char>) -> Seq<char> {
    lower_first + rest_from(handler_name, 3)
}

/// The event name of a handler name: the prefix `"on"` dropped and the next
/// character lower-cased; a name without that prefix is kept as it is.
pub open spec fn spec_event_name(handler_name: Seq<char>) -> Seq<char> {
    if has_on_prefix(handler_name) {
        event_name_from(first_lower(handler_name.subrange(2, 3)), handler_name)
    } else {
        handler_name
    }
}

/// The names of the events that the player emits, and the conversion between
/// an event name and the name of its handler property.
#[non_exhaustive]
#[derive(Debug, PartialEq)]
pub struct PlayerEvents;

impl PlayerEvents {
    pub const API_CHANGE: &'static str = "apiChange";
    pub const ERROR: &'static str = "error";
    pub const PLAYBACK_QUALITY_CHANGE: &'static str = "playbackQualityChange";
    pub const PLAYBACK_RATE_CHANGE: &'static str = "playbackRateChange";
    pub const READY: &'static str = "ready";
    pub const STATE_CHANGE: &'static str = "stateChange";

    /// Puts a handler name together from the upper-cased first character of
    /// an event name and the event name itself.
    pub fn join_handler_name(upper_first: &str, event_name: &str) -> (r: String)
        ensures
            r@ == handler_name_from(upper_first@, event_name@),
    {
        let len = event_name.unicode_len();
        let mut r = String::from_str("on");
        proof {
            reveal_strlit("on");
        }
        r.append(upper_first);
        if len > 1 {
            r.append(event_name.substring_char(1, len));
        }
        assert(r@ =~= handler_name_from(upper_first@, event_name@));
        r
    }

    /// The handler name of an event name: `"on"` and the event name with its
    /// first character upper-cased. An empty name is refused.
    pub fn get_handler_name(event_name: &str) -> (r: Result<String, &'static str>)
        ensures
            r is Err <==> event_name@.len() == 0,
            r matches Ok(h) ==> h@ == spec_handler_name(event_name@),
    {
        let len = event_name.unicode_len();
        if len == 0 {
            return Err("Event name must not be empty!");
        }
        let upper = to_uppercase(event_name.substring_char(0, 1));
        Ok(Self::join_handler_name(upper.as_str(), event_name))
    }

    /// Puts an event name together from the lower-cased character that follows
    /// `"on"` and the handler name itself.
    pub fn join_event_name(lower_first: &str, handler_name: &str) -> (r: String)
        ensures
            r@ == event_name_from(lower_first@, handler_name@),
    {
        let len = handler_name.unicode_len();
        let mut r = String::from_str(lower_first);
        if len > 3 {
            r.append(handler_name.substring_char(3, len));
        }
        assert(r@ =~= event_name_from(lower_first@, handler_name@));
        r
    }

    /// The event name of a handler name: a lowercase `"on"` prefix dropped and
    /// the next character lower-cased. A name of at most two characters, or
    /// one without that prefix, comes back unchanged. An empty name is refused.
    pub fn get_event_name(handler_name: &str) -> (r: Result<String, &'static str>)
        ensures
            r is Err <==> handler_name@.len() == 0,
            r matches Ok(e) ==> e@ == spec_event_name(handler_name@),
    {
        let len = handler_name.unicode_len();
        if len == 0 {
            return Err("Handler name must not be empty!");
        }
        if len <= 2 || handler_name.get_char(0) != 'o' || handler_name.get_char(1) != 'n' {
            return Ok(String::from_str(handler_name));
        }
        let lower = to_lowercase(handler_name.substring_char(2, 3));
        Ok(Self::join_event_name(lower.as_str(), handler_name))
    }
}


/// One of the events that the player emits.
#[derive(Debug, Clone, Copy, PartialEq, Eq, Structural)]
pub enum EventName {
    Ready,
    Error,
    StateChange,
    PlaybackQualityChange,
    PlaybackRateChange,
    ApiChange,
}

/// The known event named `n`, if there is one.
pub open spec fn spec_event_of(n: Seq<char>) -> Option<EventName> {
    if n == PlayerEvents::READY@ {
        Some(EventName::Ready)
    } else if n == PlayerEvents::ERROR@ {
        Some(EventName::Error)
    } else if n == PlayerEvents::STATE_CHANGE@ {
        Some(EventName::StateChange)
    } else if n == PlayerEvents::PLAYBACK_QUALITY_CHANGE@ {
        Some(EventName::PlaybackQualityChange)
    } else if n == PlayerEvents::PLAYBACK_RATE_CHANGE@ {
        Some(EventName::PlaybackRateChange)
    } else if n == PlayerEvents::API_CHANGE@ {
        Some(EventName::ApiChange)
    } else {
        None
    }
}

impl EventName {
    /// The wire name of the event.
    pub open spec fn spec_name(self) -> Seq<char> {
        match self {
            EventName::Ready => PlayerEvents::READY@,
            EventName::Error => PlayerEvents::ERROR@,
            EventName::StateChange => PlayerEvents::STATE_CHANGE@,
            EventName::PlaybackQualityChange => PlayerEvents::PLAYBACK_QUALITY_CHANGE@,
            EventName::PlaybackRateChange => PlayerEvents::PLAYBACK_RATE_CHANGE@,
            EventName::ApiChange => PlayerEvents::API_CHANGE@,
        }
    }

    /// The key under which the registry files this event.
    pub open spec fn spec_key(self) -> u64 {
        match self {
            EventName::Ready => 0,
            EventName::Error => 1,
            EventName::StateChange => 2,
            EventName::PlaybackQualityChange => 3,
            EventName::PlaybackRateChange => 4,
            EventName::ApiChange => 5,
        }
    }

    /// The wire name of the event, such as `"stateChange"`.
    pub fn as_str(&self) -> (r: &'static str)
        ensures
            r@ == self.spec_name(),
    {
        match self {
            EventName::Ready => PlayerEvents::READY,
            EventName::Error => PlayerEvents::ERROR,
            EventName::StateChange => PlayerEvents::STATE_CHANGE,
            EventName::PlaybackQualityChange => PlayerEvents::PLAYBACK_QUALITY_CHANGE,
            EventName::PlaybackRateChange => PlayerEvents::PLAYBACK_RATE_CHANGE,
            EventName::ApiChange => PlayerEvents::API_CHANGE,
        }
    }

    /// The key under which the registry files this event; distinct events have distinct keys.
    pub fn key(&self) -> (r: u64)
        ensures
            r == self.spec_key(),
    {
        match self {
            EventName::Ready => 0,
            EventName::Error => 1,
            EventName::StateChange => 2,
            EventName::PlaybackQualityChange => 3,
            EventName::PlaybackRateChange => 4,
            EventName::ApiChange => 5,
        }
    }

    /// The known event whose wire name is `name`, if there is one.
    pub fn from_name(name: &str) -> (r: Option<EventName>)
        ensures
            r == spec_event_of(name@),
    {
        if same_text(name, PlayerEvents::READY) {
            Some(EventName::Ready)
        } else if same_text(name, PlayerEvents::ERROR) {
            Some(EventName::Error)
        } else if same_text(name, PlayerEvents::STATE_CHANGE) {
            Some(EventName::StateChange)
        } else if same_text(name, PlayerEvents::PLAYBACK_QUALITY_CHANGE) {
            Some(EventName::PlaybackQualityChange)
        } else if same_text(name, PlayerEvents::PLAYBACK_RATE_CHANGE) {
            Some(EventName::PlaybackRateChange)
        } else if same_text(name, PlayerEvents::API_CHANGE) {
            Some(EventName::ApiChange)
        } else {
            None
        }
    }

    /// The name of the handler property for this event, such as `"onStateChange"`.
    pub fn handler_name(&self) -> (r: String)
        ensures
            r@ == spec_handler_name(self.spec_name()),
    {
        proof {
            lemma_event_names_ascii();
        }
        match PlayerEvents::get_handler_name(self.as_str()) {
            Ok(h) => h,
            Err(_) => String::new(),
        }
    }
}

/// The position of the first `'.'` in `s`, or its length where there is none.
pub open spec fn dot_index(s: Seq<char>) -> int
    decreases s.len(),
{
    if s.len() == 0 {
        0
    } else if s[0] == '.' {
        0
    } else {
        1 + dot_index(s.skip(1))
    }
}

/// An optional string seen as its characters.
pub open spec fn opt_view(o: Option<String>) -> Option<Seq<char>> {
    match o {
        Some(s) => Some(s@),
        None => None,
    }
}

/// What `"name.namespace"` stands for: the known event that the part before
/// the first dot names (as an event or a handler name), and the text after
/// that dot as the namespace, if there is a dot.
pub open spec fn spec_namespaced_event(s: Seq<char>) -> Result<
    (EventName, Option<Seq<char>>),
    PlayerError,
> {
    let d = dot_index(s);
    let part = s.take(d);
    let namespace = if d < s.len() {
        Some(s.skip(d + 1))
    } else {
        None
    };
    if part.len() == 0 {
        Err(PlayerError::InvalidInput)
    } else {
        match spec_event_of(spec_event_name(part)) {
            Some(e) => Ok((e, namespace)),
            None => Err(PlayerError::InvalidInput),
        }
    }
}

/// A parsed namespaced event seen over plain values.
pub open spec fn namespaced_view(r: Result<(EventName, Option<String>), PlayerError>) -> Result<
    (EventName, Option<Seq<char>>),
    PlayerError,
> {
    match r {
        Ok((e, ns)) => Ok((e, opt_view(ns))),
        Err(err) => Err(err),
    }
}

proof fn lemma_dot_index(s: Seq<char>, i: int)
    requires
        0 <= i <= s.len(),
        forall|j: int| 0 <= j < i ==> s[j] != '.',
        i == s.len() || s[i] == '.',
    ensures
        dot_index(s) == i,
    decreases i,
{
    if i > 0 {
        let t = s.skip(1);
        assert forall|j: int| 0 <= j < i - 1 implies t[j] != '.' by {
            assert(t[j] == s[j + 1]);
        }
        lemma_dot_index(t, i - 1);
    }
}

impl PlayerEvents {
    /// Reads `"event"` or `"event.namespace"`, where the event may also be
    /// given by its handler name (`"onReady"`). Anything but a known event
    /// before the first dot is refused.
    pub fn get_namespaced_event(name: &str) -> (r: Result<(EventName, Option<String>), PlayerError>)
        ensures
            namespaced_view(r) == spec_namespaced_event(name@),
    {
        let len = name.unicode_len();
        let mut d: usize = 0;
        while d < len && name.get_char(d) != '.'
            invariant
                len == name@.len(),
                d <= len,
                forall|j: int| 0 <= j < d ==> name@[j] != '.',
            decreases len - d,
        {
            d = d + 1;
        }
        proof {
            lemma_dot_index(name@, d as int);
        }
        let namespace = if d < len {
            Some(String::from_str(name.substring_char(d + 1, len)))
        } else {
            None
        };
        let part = name.substring_char(0, d);
        match Self::get_event_name(part) {
            Err(_) => Err(PlayerError::InvalidInput),
            Ok(event_name) => match EventName::from_name(event_name.as_str()) {
                Some(e) => Ok((e, namespace)),
                None => Err(PlayerError::InvalidInput),
            },
        }
    }
}

/// Whether two strings hold the same characters.
pub fn same_text(a: &str, b: &str) -> (r: bool)
    ensures
        r == (a@ == b@),
{
    let n = a.unicode_len();
    if n != b.unicode_len() {
        return false;
    }
    let mut i: usize = 0;
    while i < n
        invariant
            n == a@.len(),
            n == b@.len(),
            i <= n,
            a@.take(i as int) == b@.take(i as int),
        decreases n - i,
    {
        if a.get_char(i) != b.get_char(i) {
            return false;
        }
        assert(a@.take(i + 1) =~= a@.take(i as int).push(a@[i as int]));
        assert(b@.take(i + 1) =~= b@.take(i as int).push(b@[i as int]));
        i = i + 1;
    }
    assert(a@ =~= a@.take(n as int));
    assert(b@ =~= b@.take(n as int));
    true
}

/// Every known event name starts with a lowercase ASCII letter.
pub proof fn lemma_event_names_ascii()
    ensures
        forall|e: EventName|
            #![auto]
            e.spec_name().len() > 1 && is_ascii_lower(e.spec_name()[0]),
{
    reveal_strlit("ready");
    reveal_strlit("error");
    reveal_strlit("stateChange");
    reveal_strlit("playbackQualityChange");
    reveal_strlit("playbackRateChange");
    reveal_strlit("apiChange");
}

/// A name that starts with a lowercase ASCII letter comes back unchanged when
/// turned into its handler name and back.
pub proof fn lemma_round_trip_ascii_lower(n: Seq<char>)
    requires
        n.len() > 0,
        is_ascii_lower(n[0]),
    ensures
        spec_event_name(spec_handler_name(n)) == n,
{
    let h = spec_handler_name(n);
    let u = ascii_upper(n[0]);
    assert(n.take(1) =~= seq![n[0]]);
    assert(h =~= seq!['o', 'n', u] + rest_from(n, 1));
    assert(h.subrange(2, 3) =~= seq![u]);
    assert(rest_from(h, 3) =~= rest_from(n, 1));
    assert(seq![n[0]] + rest_from(n, 1) =~= n);
}

/// For every known event, the event name of its handler name is the event name itself.
pub proof fn lemma_handler_name_round_trip(e: EventName)
    ensures
        spec_event_name(spec_handler_name(e.spec_name())) == e.spec_name(),
{
    lemma_event_names_ascii();
    lemma_round_trip_ascii_lower(e.spec_name());
}

} // verus!
