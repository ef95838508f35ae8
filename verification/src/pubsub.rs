//! The Redis pub/sub subscriber's decisions: when to connect, how long to
//! back off after a failure, and what a received message becomes.
//!
//! Times are nanoseconds on a monotonic clock that the caller reads; delays
//! are computed by the caller from the backoff factor given here.
use vstd::prelude::*;
use crate::json::{json_of_text, map_get, parse_json, Json, JsonObject, JsonValue};

verus! {

/// What a received message becomes: the object it encodes; any other JSON
/// value as `{"event": "raw", "raw_payload": value}`; text that is not JSON
/// as `{"event": "raw", "raw_payload": text}`.
pub open spec fn spec_normalize_payload(raw: Seq<char>, parsed: Option<Json>) -> Map<Seq<char>, Json> {
    match parsed {
        Some(Json::Object(m)) => m,
        Some(v) => Map::<Seq<char>, Json>::empty().insert("event"@, Json::Str("raw"@)).insert(
            "raw_payload"@,
            v,
        ),
        None => Map::<Seq<char>, Json>::empty().insert("event"@, Json::Str("raw"@)).insert(
            "raw_payload"@,
            Json::Str(raw),
        ),
    }
}

/// The payload of a received message; `parsed` is the JSON value of `raw`, or
/// nothing when `raw` is not JSON.
pub fn normalize_payload(raw: String, parsed: Option<JsonValue>) -> (r: JsonObject)
    ensures
        r@ == spec_normalize_payload(
            raw@,
            match parsed {
                Some(v) => Some(v@),
                None => None,
            },
        ),
{
    match parsed {
        Some(JsonValue::Object(map)) => map,
        Some(value) => {
            let mut map = JsonObject::new();
            map.insert(String::from_str("event"), JsonValue::from_text("raw"));
            map.insert(String::from_str("raw_payload"), value);
            map
        },
        None => {
            let mut map = JsonObject::new();
            map.insert(String::from_str("event"), JsonValue::from_text("raw"));
            map.insert(String::from_str("raw_payload"), JsonValue::String(raw));
            map
        },
    }
}

/// An object message is its own payload; any other message becomes an object
/// with exactly `event` = `raw` and `raw_payload` = the JSON value, or the text
/// itself when it is not JSON.
pub proof fn lemma_normalize_payload(raw: Seq<char>, parsed: Option<Json>)
    ensures
        parsed matches Some(Json::Object(m)) ==> spec_normalize_payload(raw, parsed) == m,
        !(parsed matches Some(Json::Object(_))) ==> {
            let r = spec_normalize_payload(raw, parsed);
            &&& map_get(r, "event"@) == Some(Json::Str("raw"@))
            &&& map_get(r, "raw_payload"@) == Some(match parsed {
                Some(v) => v,
                None => Json::Str(raw),
            })
            &&& forall|k: Seq<char>| #[trigger] r.dom().contains(k) ==> k == "event"@ || k == "raw_payload"@
        },
{
    reveal_strlit("event");
    reveal_strlit("raw_payload");
    assert("event"@ != "raw_payload"@) by {
        assert("event"@[0] != "raw_payload"@[0]);
    }
}

/// The payload of a received message text: read as JSON, then normalized.
pub fn payload_of_message(raw: String) -> (r: JsonObject)
    ensures
        r@ == spec_normalize_payload(raw@, json_of_text(raw@)),
{
    let parsed = parse_json(raw.as_str());
    normalize_payload(raw, parsed)
}

/// `2^n`.
pub open spec fn doubling(n: nat) -> nat
    decreases n,
{
    if n == 0 {
        1
    } else {
        2 * doubling((n - 1) as nat)
    }
}

/// The factor by which the reconnect delay is multiplied after `attempts`
/// failed attempts: `2^min(attempts, 6)`.
pub open spec fn backoff_factor(attempts: u32) -> nat {
    if attempts >= 6 {
        doubling(6)
    } else {
        doubling(attempts as nat)
    }
}

/// The delay factor doubles with each failed attempt, from 1, up to 64, and
/// stays at 64 from the sixth failure on.
pub proof fn lemma_backoff_factor_values(a: u32)
    ensures
        backoff_factor(0) == 1,
        a < 6 ==> backoff_factor((a + 1) as u32) == 2 * backoff_factor(a),
        a >= 6 ==> backoff_factor(a) == 64,
{
    reveal_with_fuel(doubling, 7);
}

/// What `subscribe` does next.
#[derive(Debug, PartialEq, Eq)]
pub enum SubscribeStep {
    /// A subscription is open.
    Connected,
    /// A reconnect is scheduled later: wait (at most) this many nanoseconds and report no connection.
    Wait(u64),
    /// Open a connection and subscribe.
    Connect,
}

/// The subscriber's connection state: whether a subscription is open, how
/// many reconnects failed in a row, and when the next one is due.
#[derive(Debug)]
pub struct SubscriberState {
    connected: bool,
    reconnect_attempts: u32,
    next_reconnect_at: Option<u64>,
}

impl SubscriberState {
    pub closed spec fn spec_connected(&self) -> bool {
        self.connected
    }

    pub closed spec fn spec_attempts(&self) -> u32 {
        self.reconnect_attempts
    }

    pub closed spec fn spec_deadline(&self) -> Option<u64> {
        self.next_reconnect_at
    }

    /// The time left before a scheduled reconnect, if one is due later than `now`.
    pub open spec fn spec_backoff_left(&self, now: u64) -> Option<u64> {
        match self.spec_deadline() {
            Some(d) => if now < d {
                Some((d - now) as u64)
            } else {
                None
            },
            None => None,
        }
    }

    /// The next step of `subscribe` at time `now`.
    pub open spec fn spec_step(&self, now: u64) -> SubscribeStep {
        if self.spec_connected() {
            SubscribeStep::Connected
        } else {
            match self.spec_backoff_left(now) {
                Some(left) => SubscribeStep::Wait(left),
                None => SubscribeStep::Connect,
            }
        }
    }

    /// No subscription, no failed attempt, nothing scheduled.
    pub fn new() -> (r: SubscriberState)
        ensures
            !r.spec_connected(),
            r.spec_attempts() == 0,
            r.spec_deadline() is None,
    {
        SubscriberState { connected: false, reconnect_attempts: 0, next_reconnect_at: None }
    }

    pub fn is_connected(&self) -> (r: bool)
        ensures
            r == self.spec_connected(),
    {
        self.connected
    }

    pub fn reconnect_attempts(&self) -> (r: u32)
        ensures
            r == self.spec_attempts(),
    {
        self.reconnect_attempts
    }

    /// The factor for the next reconnect delay, `2^min(attempts, 6)`.
    pub fn backoff_multiplier(&self) -> (r: u32)
        ensures
            r == backoff_factor(self.spec_attempts()),
    {
        let k: u32 = if self.reconnect_attempts < 6 {
            self.reconnect_attempts
        } else {
            6
        };
        let mut factor: u32 = 1;
        let mut i: u32 = 0;
        while i < k
            invariant
                i <= k <= 6,
                factor == doubling(i as nat),
                factor <= 64,
            decreases k - i,
        {
            assert(doubling((i + 1) as nat) == 2 * doubling(i as nat));
            assert(factor <= 32) by {
                lemma_doubling_bound(i as nat);
            }
            factor = factor * 2;
            i += 1;
        }
        proof {
            reveal_with_fuel(doubling, 7);
        }
        factor
    }

    /// Forgets failed attempts and any scheduled reconnect.
    pub fn reset_reconnect_state(&mut self)
        ensures
            final(self).spec_connected() == old(self).spec_connected(),
            final(self).spec_attempts() == 0,
            final(self).spec_deadline() is None,
    {
        self.reconnect_attempts = 0;
        self.next_reconnect_at = None;
    }

    /// Drops the subscription and schedules a reconnect `delay` nanoseconds
    /// after `now`, counting one more failed attempt.
    pub fn schedule_reconnect(&mut self, now: u64, delay: u64)
        requires
            now + delay <= u64::MAX,
        ensures
            !final(self).spec_connected(),
            final(self).spec_deadline() == Some((now + delay) as u64),
            final(self).spec_attempts() == (if old(self).spec_attempts() == u32::MAX {
                u32::MAX
            } else {
                (old(self).spec_attempts() + 1) as u32
            }),
    {
        self.connected = false;
        self.next_reconnect_at = Some(now + delay);
        self.reconnect_attempts = self.reconnect_attempts.saturating_add(1);
    }

    /// The time left before the scheduled reconnect, if it is later than `now`.
    pub fn backoff_left(&self, now: u64) -> (r: Option<u64>)
        ensures
            r == self.spec_backoff_left(now),
    {
        match self.next_reconnect_at {
            Some(d) => if now < d {
                Some(d - now)
            } else {
                None
            },
            None => None,
        }
    }

    /// What `subscribe` does at time `now`.
    pub fn next_step(&self, now: u64) -> (r: SubscribeStep)
        ensures
            r == self.spec_step(now),
    {
        if self.connected {
            return SubscribeStep::Connected;
        }
        match self.backoff_left(now) {
            Some(left) => SubscribeStep::Wait(left),
            None => SubscribeStep::Connect,
        }
    }

    /// The subscription is open.
    pub fn on_subscribed(&mut self)
        ensures
            final(self).spec_connected(),
            final(self).spec_attempts() == 0,
            final(self).spec_deadline() is None,
    {
        self.connected = true;
        self.reset_reconnect_state();
    }

    /// The subscription was closed on purpose.
    pub fn close(&mut self)
        ensures
            !final(self).spec_connected(),
            final(self).spec_attempts() == 0,
            final(self).spec_deadline() is None,
    {
        self.connected = false;
        self.reset_reconnect_state();
    }
}

proof fn lemma_doubling_bound(n: nat)
    requires
        n < 6,
    ensures
        doubling(n) <= 32,
{
    reveal_with_fuel(doubling, 7);
}

/// The doubling is monotone.
proof fn lemma_doubling_monotone(a: nat, b: nat)
    requires
        a <= b,
    ensures
        doubling(a) <= doubling(b),
    decreases b,
{
    if a < b {
        lemma_doubling_monotone(a, (b - 1) as nat);
    }
}

/// The reconnect delay factor is at least 1, at most 64, and never shrinks as
/// failed attempts accumulate.
pub proof fn lemma_backoff_factor_bounded_monotone(a: u32, b: u32)
    requires
        a <= b,
    ensures
        1 <= backoff_factor(a) <= backoff_factor(b) <= 64,
{
    reveal_with_fuel(doubling, 7);
    let ka: nat = if a >= 6 { 6 } else { a as nat };
    let kb: nat = if b >= 6 { 6 } else { b as nat };
    lemma_doubling_monotone(ka, kb);
    lemma_doubling_monotone(0, ka);
    lemma_doubling_monotone(kb, 6);
}

/// With a subscription open, `subscribe` keeps it; without one and with no
/// reconnect pending (as after `new` or `close`), it connects at once.
pub proof fn lemma_step_open_or_idle(s: SubscriberState, now: u64)
    ensures
        s.spec_connected() ==> s.spec_step(now) == SubscribeStep::Connected,
        !s.spec_connected() && s.spec_deadline() is None ==> s.spec_step(now) == SubscribeStep::Connect,
        s.spec_step(now) matches SubscribeStep::Wait(left) ==> (left > 0 && s.spec_deadline() == Some(
            (now + left) as u64,
        )),
{
}

/// After a reconnect is scheduled `delay` nanoseconds after `now`, `subscribe`
/// waits out exactly the rest of that delay before it connects again, and
/// connects once the delay has passed.
pub proof fn lemma_backoff_then_connect(s: SubscriberState, now: u64, delay: u64, later: u64)
    requires
        !s.spec_connected(),
        s.spec_deadline() == Some((now + delay) as u64),
        now + delay <= u64::MAX,
        now <= later,
    ensures
        later < now + delay ==> s.spec_step(later) == SubscribeStep::Wait((now + delay - later) as u64),
        later >= now + delay ==> s.spec_step(later) == SubscribeStep::Connect,
{
}

} // verus!
