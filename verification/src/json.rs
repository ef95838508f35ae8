//! A JSON document model: the values that payloads, API requests and API
//! responses carry. Objects keep each key once; their abstract view is a map
//! from key to value, as a JSON object is.
use vstd::prelude::*;
use crate::text::signed_decimal;
use serde_json::Value;

verus! {

/// Abstract JSON number: an integer, or a non-integral number kept by its
/// shortest decimal rendering.
pub enum JsonNum {
    Int(int),
    Float(Seq<char>),
}

/// Abstract JSON value.
pub enum Json {
    Null,
    Bool(bool),
    Number(JsonNum),
    Str(Seq<char>),
    Array(Seq<Json>),
    Object(Map<Seq<char>, Json>),
}

/// A JSON number as it is stored: a non-negative integer, a negative integer,
/// or a floating-point number held by its decimal rendering.
#[derive(Debug, PartialEq)]
pub enum JsonNumber {
    PosInt(u64),
    NegInt(i64),
    Float(String),
}

/// A JSON value.
#[derive(Debug, PartialEq)]
pub enum JsonValue {
    Null,
    Bool(bool),
    Number(JsonNumber),
    String(String),
    Array(Vec<JsonValue>),
    Object(JsonObject),
}

/// A JSON object: a list of entries in which no key occurs twice.
#[derive(Debug, PartialEq)]
pub struct JsonObject {
    entries: Vec<(String, JsonValue)>,
}

pub open spec fn num_of(n: JsonNumber) -> JsonNum {
    match n {
        JsonNumber::PosInt(u) => JsonNum::Int(u as int),
        JsonNumber::NegInt(i) => JsonNum::Int(i as int),
        JsonNumber::Float(t) => JsonNum::Float(t@),
    }
}

/// The abstract value of a stored JSON value.
pub open spec fn json_of(v: JsonValue) -> Json
    decreases v,
{
    match v {
        JsonValue::Null => Json::Null,
        JsonValue::Bool(b) => Json::Bool(b),
        JsonValue::Number(n) => Json::Number(num_of(n)),
        JsonValue::String(s) => Json::Str(s@),
        JsonValue::Array(items) => Json::Array(items_of(items@)),
        JsonValue::Object(o) => Json::Object(object_of(o)),
    }
}

/// The abstract values of a sequence of stored values.
pub open spec fn items_of(s: Seq<JsonValue>) -> Seq<Json>
    decreases s,
{
    if s.len() == 0 {
        Seq::empty()
    } else {
        items_of(s.subrange(0, s.len() - 1)).push(json_of(s[s.len() - 1]))
    }
}

/// The map that an object's entries denote.
pub closed spec fn object_of(o: JsonObject) -> Map<Seq<char>, Json>
    decreases o,
{
    entries_of(o.entries@)
}

/// The map that a list of entries denotes: each key bound to the value of its
/// last entry.
pub closed spec fn entries_of(s: Seq<(String, JsonValue)>) -> Map<Seq<char>, Json>
    decreases s,
{
    if s.len() == 0 {
        Map::empty()
    } else {
        entries_of(s.subrange(0, s.len() - 1)).insert(
            s[s.len() - 1].0@,
            json_of(s[s.len() - 1].1),
        )
    }
}

/// No key occurs twice among the entries.
pub open spec fn keys_unique(s: Seq<(String, JsonValue)>) -> bool {
    forall|i: int, j: int| 0 <= i < j < s.len() ==> #[trigger] s[i].0@ != #[trigger] s[j].0@
}

impl View for JsonValue {
    type V = Json;

    open spec fn view(&self) -> Json {
        json_of(*self)
    }
}

impl View for JsonObject {
    type V = Map<Seq<char>, Json>;

    open spec fn view(&self) -> Map<Seq<char>, Json> {
        object_of(*self)
    }
}

/// The value bound to `key` in a map, if any.
pub open spec fn map_get(m: Map<Seq<char>, Json>, key: Seq<char>) -> Option<Json> {
    if m.dom().contains(key) {
        Some(m[key])
    } else {
        None
    }
}

/// `Value::get` on an abstract value: a member of an object, nothing otherwise.
pub open spec fn json_get(v: Json, key: Seq<char>) -> Option<Json> {
    match v {
        Json::Object(m) => map_get(m, key),
        _ => None,
    }
}

/// The decimal text of a JSON number, as JSON writes it.
pub open spec fn number_text(n: JsonNum) -> Seq<char> {
    match n {
        JsonNum::Int(i) => signed_decimal(i),
        JsonNum::Float(t) => t,
    }
}

/// Appending a stored value appends its abstract value.
pub proof fn lemma_items_push(s: Seq<JsonValue>, x: JsonValue)
    ensures
        items_of(s.push(x)) == items_of(s).push(json_of(x)),
{
    assert(s.push(x).subrange(0, s.len() as int) =~= s);
}

/// There are as many abstract values as stored ones.
pub proof fn lemma_items_len(s: Seq<JsonValue>)
    ensures
        items_of(s).len() == s.len(),
    decreases s.len(),
{
    if s.len() > 0 {
        lemma_items_len(s.subrange(0, s.len() - 1));
    }
}

proof fn lemma_entries_push(s: Seq<(String, JsonValue)>, e: (String, JsonValue))
    ensures
        entries_of(s.push(e)) == entries_of(s).insert(e.0@, json_of(e.1)),
{
    assert(s.push(e).subrange(0, s.len() as int) =~= s);
}

/// A key outside the entries is outside the map.
proof fn lemma_entries_absent(s: Seq<(String, JsonValue)>, key: Seq<char>)
    requires
        forall|i: int| 0 <= i < s.len() ==> #[trigger] s[i].0@ != key,
    ensures
        !entries_of(s).dom().contains(key),
    decreases s.len(),
{
    if s.len() > 0 {
        let t = s.subrange(0, s.len() - 1);
        assert forall|i: int| 0 <= i < t.len() implies #[trigger] t[i].0@ != key by {
            assert(t[i] == s[i]);
        }
        lemma_entries_absent(t, key);
    }
}

/// An entry's key is bound, in the map, to the entry's value.
proof fn lemma_entries_lookup(s: Seq<(String, JsonValue)>, i: int)
    requires
        keys_unique(s),
        0 <= i < s.len(),
    ensures
        entries_of(s).dom().contains(s[i].0@),
        entries_of(s)[s[i].0@] == json_of(s[i].1),
    decreases s.len(),
{
    let t = s.subrange(0, s.len() - 1);
    if i < s.len() - 1 {
        assert(t[i] == s[i]);
        assert(keys_unique(t)) by {
            assert forall|a: int, b: int| 0 <= a < b < t.len() implies #[trigger] t[a].0@
                != #[trigger] t[b].0@ by {
                assert(t[a] == s[a] && t[b] == s[b]);
            }
        }
        lemma_entries_lookup(t, i);
        assert(s[i].0@ != s[s.len() - 1].0@);
    }
}

/// Without a repeated key, the map has an element exactly when there is an entry.
proof fn lemma_entries_empty(s: Seq<(String, JsonValue)>)
    ensures
        (entries_of(s) == Map::<Seq<char>, Json>::empty()) == (s.len() == 0),
{
    if s.len() > 0 {
        let k = s[s.len() - 1].0@;
        assert(entries_of(s).dom().contains(k));
        assert(!Map::<Seq<char>, Json>::empty().dom().contains(k));
    }
}

/// Replacing the value of an entry rebinds its key.
proof fn lemma_entries_update(s: Seq<(String, JsonValue)>, i: int, e: (String, JsonValue))
    requires
        keys_unique(s),
        0 <= i < s.len(),
        e.0@ == s[i].0@,
    ensures
        entries_of(s.update(i, e)) =~= entries_of(s).insert(e.0@, json_of(e.1)),
    decreases s.len(),
{
    let u = s.update(i, e);
    let t = s.subrange(0, s.len() - 1);
    let ut = u.subrange(0, u.len() - 1);
    if i == s.len() - 1 {
        assert(ut =~= t);
    } else {
        assert(ut =~= t.update(i, e));
        assert(keys_unique(t)) by {
            assert forall|a: int, b: int| 0 <= a < b < t.len() implies #[trigger] t[a].0@
                != #[trigger] t[b].0@ by {
                assert(t[a] == s[a] && t[b] == s[b]);
            }
        }
        lemma_entries_update(t, i, e);
        assert(s[i].0@ != s[s.len() - 1].0@);
        assert(u[u.len() - 1] == s[s.len() - 1]);
    }
}

/// Adding one more entry of `s` to a union binds that entry's key last.
proof fn lemma_union_step(m: Map<Seq<char>, Json>, s: Seq<(String, JsonValue)>, i: int)
    requires
        0 <= i < s.len(),
    ensures
        m.union_prefer_right(entries_of(s.take(i))).insert(s[i].0@, json_of(s[i].1))
            == m.union_prefer_right(entries_of(s.take(i + 1))),
{
    let t = s.take(i);
    assert(s.take(i + 1) =~= t.push(s[i]));
    lemma_entries_push(t, s[i]);
    assert(m.union_prefer_right(entries_of(t)).insert(s[i].0@, json_of(s[i].1))
        =~= m.union_prefer_right(entries_of(t).insert(s[i].0@, json_of(s[i].1))));
}

/// Reading a key after binding it gives the bound value; reading any other
/// key gives what it gave before.
pub proof fn lemma_get_after_insert(m: Map<Seq<char>, Json>, key: Seq<char>, value: Json, other: Seq<char>)
    requires
        other != key,
    ensures
        map_get(m.insert(key, value), key) == Some(value),
        map_get(m.insert(key, value), other) == map_get(m, other),
{
}

impl JsonObject {
    #[verifier::type_invariant]
    closed spec fn wf(self) -> bool {
        keys_unique(self.entries@)
    }

    /// An object without members.
    pub fn new() -> (r: JsonObject)
        ensures
            r@ == Map::<Seq<char>, Json>::empty(),
    {
        JsonObject { entries: Vec::new() }
    }

    /// Position of the entry whose key is `key`, if any.
    fn position(&self, key: &str) -> (r: Option<usize>)
        ensures
            r matches Some(i) ==> i < self.entries@.len() && self.entries@[i as int].0@ == key@,
            r is None ==> forall|i: int|
                0 <= i < self.entries@.len() ==> #[trigger] self.entries@[i].0@ != key@,
    {
        let k = key.to_owned();
        let mut i: usize = 0;
        while i < self.entries.len()
            invariant
                k@ == key@,
                i <= self.entries@.len(),
                forall|j: int| 0 <= j < i ==> #[trigger] self.entries@[j].0@ != key@,
            decreases self.entries@.len() - i,
        {
            if self.entries[i].0 == k {
                return Some(i);
            }
            i += 1;
        }
        None
    }

    /// The value bound to `key`.
    pub fn get(&self, key: &str) -> (r: Option<&JsonValue>)
        ensures
            r is Some == self@.dom().contains(key@),
            r matches Some(v) ==> v@ == self@[key@],
    {
        proof {
            use_type_invariant(self);
        }
        match self.position(key) {
            Some(i) => {
                proof {
                    lemma_entries_lookup(self.entries@, i as int);
                }
                Some(&self.entries[i].1)
            },
            None => {
                proof {
                    lemma_entries_absent(self.entries@, key@);
                }
                None
            },
        }
    }

    /// Whether `key` is bound.
    pub fn contains_key(&self, key: &str) -> (r: bool)
        ensures
            r == self@.dom().contains(key@),
    {
        self.get(key).is_some()
    }

    /// Whether the object has no member.
    pub fn is_empty(&self) -> (r: bool)
        ensures
            r == (self@ == Map::<Seq<char>, Json>::empty()),
    {
        proof {
            lemma_entries_empty(self.entries@);
        }
        self.entries.len() == 0
    }

    /// Binds `key` to `value`, replacing any earlier binding of `key`.
    pub fn insert(&mut self, key: String, value: JsonValue)
        ensures
            final(self)@ == old(self)@.insert(key@, value@),
    {
        proof {
            use_type_invariant(&*self);
        }
        let pos = self.position(key.as_str());
        let mut entries: Vec<(String, JsonValue)> = Vec::new();
        std::mem::swap(&mut entries, &mut self.entries);
        let ghost before = entries@;
        let ghost k = key@;
        let ghost v = value@;
        match pos {
            Some(i) => {
                proof {
                    lemma_entries_update(before, i as int, (key, value));
                }
                entries.set(i, (key, value));
                assert(entries@ == before.update(i as int, (key, value)));
                assert(keys_unique(entries@)) by {
                    assert forall|a: int, b: int| 0 <= a < b < entries@.len() implies
                        #[trigger] entries@[a].0@ != #[trigger] entries@[b].0@ by {
                        if a != i && b != i {
                            assert(entries@[a] == before[a] && entries@[b] == before[b]);
                        } else if a == i {
                            assert(entries@[b] == before[b]);
                        } else {
                            assert(entries@[a] == before[a]);
                        }
                    }
                }
            },
            None => {
                proof {
                    lemma_entries_push(before, (key, value));
                }
                entries.push((key, value));
                assert(keys_unique(entries@)) by {
                    assert forall|a: int, b: int| 0 <= a < b < entries@.len() implies
                        #[trigger] entries@[a].0@ != #[trigger] entries@[b].0@ by {
                        assert(entries@[a] == before[a]);
                        if b < before.len() {
                            assert(entries@[b] == before[b]);
                        }
                    }
                }
            },
        }
        self.entries = entries;
    }

    /// Binds `key` to `value` unless `key` is already bound (`entry(key).or_insert(value)`).
    pub fn insert_if_absent(&mut self, key: String, value: JsonValue)
        ensures
            final(self)@ == (if old(self)@.dom().contains(key@) {
                old(self)@
            } else {
                old(self)@.insert(key@, value@)
            }),
    {
        if !self.contains_key(key.as_str()) {
            self.insert(key, value);
        }
    }

    /// Binds every key of `other` to its value there, replacing earlier bindings.
    pub fn extend(&mut self, other: &JsonObject)
        ensures
            final(self)@ == old(self)@.union_prefer_right(other@),
    {
        let ghost start = self@;
        let mut i: usize = 0;
        while i < other.entries.len()
            invariant
                i <= other.entries@.len(),
                self@ == start.union_prefer_right(entries_of(other.entries@.take(i as int))),
            decreases other.entries@.len() - i,
        {
            let key = other.entries[i].0.clone();
            let value = other.entries[i].1.deep_copy();
            proof {
                lemma_union_step(start, other.entries@, i as int);
            }
            self.insert(key, value);
            i += 1;
        }
        assert(other.entries@.take(other.entries@.len() as int) =~= other.entries@);
    }

    /// The entries, each key once.
    pub fn entries(&self) -> (r: &Vec<(String, JsonValue)>)
        ensures
            keys_unique(r@),
            forall|i: int| 0 <= i < r@.len() ==> #[trigger] self@.dom().contains(r@[i].0@)
                && self@[r@[i].0@] == r@[i].1@,
            forall|k: Seq<char>| #[trigger] self@.dom().contains(k) ==> exists|i: int|
                0 <= i < r@.len() && #[trigger] r@[i].0@ == k,
    {
        proof {
            use_type_invariant(self);
            assert forall|i: int| 0 <= i < self.entries@.len() implies #[trigger] self@.dom().contains(
                self.entries@[i].0@,
            ) && self@[self.entries@[i].0@] == self.entries@[i].1@ by {
                lemma_entries_lookup(self.entries@, i);
            }
            assert forall|k: Seq<char>| #[trigger] self@.dom().contains(k) implies exists|i: int|
                0 <= i < self.entries@.len() && #[trigger] self.entries@[i].0@ == k by {
                if !(exists|i: int| 0 <= i < self.entries@.len() && #[trigger] self.entries@[i].0@ == k) {
                    lemma_entries_absent(self.entries@, k);
                }
            }
        }
        &self.entries
    }

    /// The object of a list of entries, each key bound to the value of its last entry.
    pub fn from_entries(entries: Vec<(String, JsonValue)>) -> (r: JsonObject)
        ensures
            r@ == entries_of(entries@),
    {
        let mut object = JsonObject::new();
        let mut i: usize = 0;
        assert(entries@.take(0) =~= Seq::<(String, JsonValue)>::empty());
        while i < entries.len()
            invariant
                i <= entries@.len(),
                object@ == entries_of(entries@.take(i as int)),
            decreases entries@.len() - i,
        {
            let key = entries[i].0.clone();
            let value = entries[i].1.deep_copy();
            proof {
                let t = entries@.take(i as int);
                assert(entries@.take(i + 1) =~= t.push(entries@[i as int]));
                lemma_entries_push(t, entries@[i as int]);
            }
            object.insert(key, value);
            i += 1;
        }
        assert(entries@.take(entries@.len() as int) =~= entries@);
        object
    }

    /// A copy with the same members.
    pub fn deep_copy(&self) -> (r: JsonObject)
        ensures
            r@ == self@,
        decreases self,
    {
        proof {
            use_type_invariant(self);
        }
        let mut out: Vec<(String, JsonValue)> = Vec::new();
        let mut i: usize = 0;
        while i < self.entries.len()
            invariant
                i <= self.entries@.len(),
                keys_unique(self.entries@),
                out@.len() == i,
                forall|j: int| 0 <= j < i ==> #[trigger] out@[j].0@ == self.entries@[j].0@,
                entries_of(out@) == entries_of(self.entries@.take(i as int)),
            decreases self.entries@.len() - i,
        {
            assert(decreases_to!(*self => self.entries));
            assert(decreases_to!(self.entries => self.entries@));
            assert(decreases_to!(self.entries@ => self.entries@[i as int]));
            assert(decreases_to!(self.entries@[i as int] => self.entries@[i as int].1));
            let key = self.entries[i].0.clone();
            let value = self.entries[i].1.deep_copy();
            proof {
                let t = self.entries@.take(i as int);
                assert(self.entries@.take(i + 1) =~= t.push(self.entries@[i as int]));
                lemma_entries_push(t, self.entries@[i as int]);
                lemma_entries_push(out@, (key, value));
            }
            out.push((key, value));
            i += 1;
        }
        assert(self.entries@.take(self.entries@.len() as int) =~= self.entries@);
        JsonObject { entries: out }
    }
}

impl JsonValue {
    /// A copy with the same abstract value.
    pub fn deep_copy(&self) -> (r: JsonValue)
        ensures
            r@ == self@,
        decreases self,
    {
        match self {
            JsonValue::Null => JsonValue::Null,
            JsonValue::Bool(b) => JsonValue::Bool(*b),
            JsonValue::Number(n) => JsonValue::Number(
                match n {
                    JsonNumber::PosInt(u) => JsonNumber::PosInt(*u),
                    JsonNumber::NegInt(v) => JsonNumber::NegInt(*v),
                    JsonNumber::Float(t) => JsonNumber::Float(t.clone()),
                },
            ),
            JsonValue::String(s) => JsonValue::String(s.clone()),
            JsonValue::Array(items) => {
                let mut out: Vec<JsonValue> = Vec::new();
                let mut i: usize = 0;
                while i < items.len()
                    invariant
                        *self == JsonValue::Array(*items),
                        i <= items@.len(),
                        items_of(out@) == items_of(items@.take(i as int)),
                    decreases items@.len() - i,
                {
                    assert(decreases_to!(*self => self->Array_0));
                    assert(decreases_to!(self->Array_0 => items@[i as int]));
                    let v = items[i].deep_copy();
                    proof {
                        let t = items@.take(i as int);
                        assert(items@.take(i + 1) =~= t.push(items@[i as int]));
                        lemma_items_push(t, items@[i as int]);
                        lemma_items_push(out@, v);
                    }
                    out.push(v);
                    i += 1;
                }
                assert(items@.take(items@.len() as int) =~= items@);
                JsonValue::Array(out)
            },
            JsonValue::Object(o) => {
                assert(decreases_to!(*self => *o));
                JsonValue::Object(o.deep_copy())
            },
        }
    }

    /// `Value::get`: the member `key` of an object; nothing for other values.
    pub fn get(&self, key: &str) -> (r: Option<&JsonValue>)
        ensures
            r is Some == json_get(self@, key@) is Some,
            r matches Some(v) ==> json_get(self@, key@) == Some(v@),
    {
        match self {
            JsonValue::Object(o) => o.get(key),
            _ => None,
        }
    }

    /// `Value::as_bool`.
    pub fn as_bool(&self) -> (r: Option<bool>)
        ensures
            r == (match self@ {
                Json::Bool(b) => Some(b),
                _ => None,
            }),
    {
        match self {
            JsonValue::Bool(b) => Some(*b),
            _ => None,
        }
    }

    /// `Value::as_str`.
    pub fn as_str(&self) -> (r: Option<&str>)
        ensures
            r is Some == self@ is Str,
            r matches Some(s) ==> self@ == Json::Str(s@),
    {
        match self {
            JsonValue::String(s) => Some(s.as_str()),
            _ => None,
        }
    }

    /// `Value::as_object`.
    pub fn as_object(&self) -> (r: Option<&JsonObject>)
        ensures
            r is Some == self@ is Object,
            r matches Some(o) ==> self@ == Json::Object(o@),
    {
        match self {
            JsonValue::Object(o) => Some(o),
            _ => None,
        }
    }

    /// `Value::is_object`.
    pub fn is_object(&self) -> (r: bool)
        ensures
            r == self@ is Object,
    {
        match self {
            JsonValue::Object(_) => true,
            _ => false,
        }
    }

    /// A string value.
    pub fn from_text(s: &str) -> (r: JsonValue)
        ensures
            r@ == Json::Str(s@),
    {
        JsonValue::String(s.to_owned())
    }

    /// The number `n`, stored as JSON stores an `i64`.
    pub fn from_i64(n: i64) -> (r: JsonValue)
        ensures
            r@ == Json::Number(JsonNum::Int(n as int)),
    {
        if n < 0 {
            JsonValue::Number(JsonNumber::NegInt(n))
        } else {
            JsonValue::Number(JsonNumber::PosInt(n as u64))
        }
    }
}

#[verifier::external_type_specification]
#[verifier::external_body]
pub struct ExSerdeJsonValue(serde_json::Value);

/// The value that `serde_json` reads from a JSON text; nothing when the text is not JSON.
pub uninterp spec fn json_of_text(text: Seq<char>) -> Option<Json>;

/// What `serde_json` makes of a byte string: the JSON value it holds, or the
/// message of the error that reading it gives.
pub uninterp spec fn json_of_bytes(bytes: Seq<u8>) -> Result<Json, Seq<char>>;

/// Converts a `serde_json::Value` into the model, variant by variant: a
/// number that fits `u64` or `i64` as that integer, any other number by its
/// decimal text, and an object by its entries.
#[verifier::external_body]
fn value_from_serde(value: Value) -> JsonValue {
    match value {
        Value::Null => JsonValue::Null,
        Value::Bool(b) => JsonValue::Bool(b),
        Value::Number(n) => JsonValue::Number(match (n.as_u64(), n.as_i64()) {
            (Some(u), _) => JsonNumber::PosInt(u),
            (None, Some(i)) => JsonNumber::NegInt(i),
            (None, None) => JsonNumber::Float(n.to_string()),
        }),
        Value::String(s) => JsonValue::String(s),
        Value::Array(items) => JsonValue::Array(items.into_iter().map(value_from_serde).collect()),
        Value::Object(map) => JsonValue::Object(JsonObject::from_entries(
            map.into_iter().map(|(k, v)| (k, value_from_serde(v))).collect(),
        )),
    }
}

/// `serde_json::from_str::<Value>`: the value of a JSON text, or nothing when
/// the text is not JSON.
#[verifier::external_body]
pub(crate) fn parse_json(text: &str) -> (r: Option<JsonValue>)
    ensures
        r is Some == json_of_text(text@) is Some,
        r matches Some(v) ==> json_of_text(text@) == Some(v@),
{
    match serde_json::from_str::<serde_json::Value>(text) {
        Ok(v) => Some(value_from_serde(v)),
        Err(_) => None,
    }
}

/// `serde_json::from_slice::<Value>`: the value of a JSON byte string, or the
/// error's message when the bytes are not JSON.
#[verifier::external_body]
pub(crate) fn parse_json_bytes(bytes: &[u8]) -> (r: Result<JsonValue, String>)
    ensures
        r is Ok == json_of_bytes(bytes@) is Ok,
        r matches Ok(v) ==> (json_of_bytes(bytes@) matches Ok(j) && j == v@),
        r matches Err(m) ==> (json_of_bytes(bytes@) matches Err(t) && t == m@),
{
    match serde_json::from_slice::<serde_json::Value>(bytes) {
        Ok(v) => Ok(value_from_serde(v)),
        Err(e) => Err(e.to_string()),
    }
}

impl Clone for JsonValue {
    fn clone(&self) -> (r: JsonValue)
        ensures
            r@ == self@,
    {
        self.deep_copy()
    }
}

impl Clone for JsonObject {
    fn clone(&self) -> (r: JsonObject)
        ensures
            r@ == self@,
    {
        self.deep_copy()
    }
}

} // verus!
