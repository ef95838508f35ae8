//! An incoming chat message and the readings of its raw payload.
use vstd::prelude::*;
use crate::json::{json_of, map_get, number_text, num_of, Json, JsonNum, JsonNumber, JsonObject, JsonValue};
use crate::settings::clone_opt;
use crate::text::{is_unicode_whitespace, is_blank, is_blank_text, push_decimal, push_signed_decimal};

verus! {

/// The text that a payload field gives: a non-empty string as it is, a number
/// by its decimal text, a boolean as `true` or `false`; nothing otherwise.
pub open spec fn value_text(v: Option<Json>) -> Option<Seq<char>> {
    match v {
        Some(Json::Str(s)) => if s.len() > 0 {
            Some(s)
        } else {
            None
        },
        Some(Json::Number(n)) => Some(number_text(n)),
        Some(Json::Bool(b)) => Some(
            if b {
                "true"@
            } else {
                "false"@
            },
        ),
        _ => None,
    }
}

/// The abstract value behind an optional reference.
pub open spec fn opt_json(v: Option<&JsonValue>) -> Option<Json> {
    match v {
        Some(x) => Some(json_of(*x)),
        None => None,
    }
}

/// The text of the field `key` of an object.
pub open spec fn field_text(m: Map<Seq<char>, Json>, key: Seq<char>) -> Option<Seq<char>> {
    value_text(map_get(m, key))
}

/// Whether a value counts as set: `true`, a string with a non-whitespace
/// character, any number, a non-empty array or object.
pub open spec fn json_truthy(v: Json) -> bool {
    match v {
        Json::Bool(b) => b,
        Json::Str(s) => !is_blank(s),
        Json::Number(_) => true,
        Json::Array(a) => a.len() > 0,
        Json::Object(m) => m != Map::<Seq<char>, Json>::empty(),
        Json::Null => false,
    }
}

/// Whether the field `key` is present and set.
pub open spec fn field_truthy(m: Map<Seq<char>, Json>, key: Seq<char>) -> bool {
    map_get(m, key) matches Some(v) && json_truthy(v)
}

/// The first of two optional texts that is present.
pub open spec fn or_else(a: Option<Seq<char>>, b: Option<Seq<char>>) -> Option<Seq<char>> {
    match a {
        Some(x) => Some(x),
        None => b,
    }
}

/// A field gives text only when it holds a non-empty string (that string), a
/// number (its decimal text) or a boolean (`true` or `false`); the text of a
/// string, an integer or a boolean is never empty.
pub proof fn lemma_value_text(v: Option<Json>)
    ensures
        value_text(v) matches Some(t) ==> (!(v matches Some(Json::Number(JsonNum::Float(_))))
            ==> t.len() > 0),
        v matches Some(Json::Str(s)) ==> value_text(v) == (if s.len() > 0 {
            Some(s)
        } else {
            None
        }),
        v matches Some(Json::Number(n)) ==> value_text(v) == Some(number_text(n)),
        v == Some(Json::Bool(true)) ==> value_text(v) == Some("true"@),
        v == Some(Json::Bool(false)) ==> value_text(v) == Some("false"@),
        (v is None || v == Some(Json::Null) || v matches Some(Json::Array(_)) || v matches Some(
            Json::Object(_),
        )) ==> value_text(v) is None,
{
    reveal_strlit("true");
    reveal_strlit("false");
    if let Some(Json::Number(n)) = v {
        match n {
            JsonNum::Int(i) => crate::text::lemma_signed_decimal_nonempty(i),
            JsonNum::Float(t) => {},
        }
    }
}

/// A value counts as set when it is `true`, a string with a character outside
/// the whitespace set, a number, an array with an element, or an object with
/// a member; `false` and `null` never do.
pub proof fn lemma_truthy(v: Json)
    ensures
        v matches Json::Bool(b) ==> json_truthy(v) == b,
        v matches Json::Str(s) ==> (json_truthy(v) <==> exists|i: int|
            0 <= i < s.len() && !is_unicode_whitespace(#[trigger] s[i])),
        v is Number ==> json_truthy(v),
        v matches Json::Array(a) ==> (json_truthy(v) <==> a.len() > 0),
        v matches Json::Object(m) ==> (json_truthy(v) <==> exists|k: Seq<char>| #[trigger] m.dom().contains(k)),
        v is Null ==> !json_truthy(v),
{
    if let Json::Object(m) = v {
        if exists|k: Seq<char>| #[trigger] m.dom().contains(k) {
            let k = choose|k: Seq<char>| #[trigger] m.dom().contains(k);
            assert(!Map::<Seq<char>, Json>::empty().dom().contains(k));
        } else {
            assert(m =~= Map::<Seq<char>, Json>::empty());
        }
    }
}

/// The decimal text of a stored number.
pub fn number_to_string(n: &JsonNumber) -> (r: String)
    ensures
        r@ == number_text(num_of(*n)),
{
    match n {
        JsonNumber::PosInt(u) => {
            let mut s = String::new();
            push_decimal(&mut s, *u);
            assert(s@ =~= number_text(num_of(*n)));
            s
        },
        JsonNumber::NegInt(i) => {
            let mut s = String::new();
            push_signed_decimal(&mut s, *i);
            assert(s@ =~= number_text(num_of(*n)));
            s
        },
        JsonNumber::Float(t) => t.clone(),
    }
}

/// Reads a payload field as text.
pub fn value_to_string(value: Option<&JsonValue>) -> (r: Option<String>)
    ensures
        r.deep_view() == value_text(opt_json(value)),
{
    match value {
        Some(JsonValue::String(text)) => {
            if text.as_str().is_empty() {
                None
            } else {
                Some(text.clone())
            }
        },
        Some(JsonValue::Number(number)) => Some(number_to_string(number)),
        Some(JsonValue::Bool(b)) => {
            if *b {
                Some(String::from_str("true"))
            } else {
                Some(String::from_str("false"))
            }
        },
        _ => None,
    }
}

/// Whether a value counts as set.
pub fn is_truthy_value(value: &JsonValue) -> (r: bool)
    ensures
        r == json_truthy(value@),
{
    match value {
        JsonValue::Bool(b) => *b,
        JsonValue::String(s) => !is_blank_text(s.as_str()),
        JsonValue::Number(_) => true,
        JsonValue::Array(items) => {
            proof {
                crate::json::lemma_items_len(items@);
            }
            items.len() > 0
        },
        JsonValue::Object(o) => !o.is_empty(),
        JsonValue::Null => false,
    }
}

/// A chat message as the worker sees it, with the payload it came from.
#[derive(Debug)]
pub struct IncomingMessage {
    pub id: Option<String>,
    pub text: String,
    pub sender: Option<String>,
    pub chat_id: Option<String>,
    pub device_id: String,
    pub is_group: bool,
    pub raw: JsonObject,
}

/// The fields that say whether a payload carries media besides `media_type` and `media_path`.
pub open spec fn media_keys() -> Seq<Seq<char>> {
    seq!["image"@, "video"@, "audio"@, "document"@, "sticker"@]
}

impl IncomingMessage {
    /// Whether the payload marks the message as sent by this device.
    pub open spec fn spec_is_from_me(&self) -> bool {
        map_get(self.raw@, "is_from_me"@) == Some(Json::Bool(true))
    }

    /// The message direction: the payload's `direction` text, else `outgoing`
    /// for a message of this device and `incoming` for any other.
    pub open spec fn spec_direction(&self) -> Seq<char> {
        match field_text(self.raw@, "direction"@) {
            Some(d) => d,
            None => if self.spec_is_from_me() {
                "outgoing"@
            } else {
                "incoming"@
            },
        }
    }

    /// Whom to answer: the payload's `contact_id`, else the chat, else the sender.
    pub open spec fn spec_contact_id(&self) -> Option<Seq<char>> {
        or_else(
            field_text(self.raw@, "contact_id"@),
            or_else(self.chat_id.deep_view(), self.sender.deep_view()),
        )
    }

    /// The image of the message: the media path when the media type is
    /// `image`, else the payload's `image` text.
    pub open spec fn spec_image(&self) -> Option<Seq<char>> {
        if field_text(self.raw@, "media_type"@) == Some("image"@) && field_text(
            self.raw@,
            "media_path"@,
        ) is Some {
            field_text(self.raw@, "media_path"@)
        } else {
            field_text(self.raw@, "image"@)
        }
    }

    /// Whether the message carries media.
    pub open spec fn spec_has_media(&self) -> bool {
        ||| field_text(self.raw@, "media_type"@) is Some
        ||| field_text(self.raw@, "media_path"@) is Some
        ||| exists|i: int| 0 <= i < media_keys().len() && field_truthy(self.raw@, #[trigger] media_keys()[i])
    }

    /// The readings of a message: it is from this device exactly when the
    /// payload's `is_from_me` is `true`; its direction is the payload's
    /// `direction` text, else `outgoing` or `incoming` by that flag; its
    /// contact is the payload's `contact_id` text, else the chat, else the sender.
    pub proof fn lemma_readings(&self)
        ensures
            self.spec_is_from_me() <==> map_get(self.raw@, "is_from_me"@) == Some(Json::Bool(true)),
            field_text(self.raw@, "direction"@) matches Some(d) ==> self.spec_direction() == d,
            field_text(self.raw@, "direction"@) is None ==> self.spec_direction() == (
            if map_get(self.raw@, "is_from_me"@) == Some(Json::Bool(true)) {
                "outgoing"@
            } else {
                "incoming"@
            }),
            field_text(self.raw@, "contact_id"@) matches Some(c) ==> self.spec_contact_id() == Some(c),
            field_text(self.raw@, "contact_id"@) is None && self.chat_id is Some
                ==> self.spec_contact_id() == self.chat_id.deep_view(),
            field_text(self.raw@, "contact_id"@) is None && self.chat_id is None
                ==> self.spec_contact_id() == self.sender.deep_view(),
            self.spec_contact_id() is None <==> (field_text(self.raw@, "contact_id"@) is None
                && self.chat_id is None && self.sender is None),
    {
    }

    /// Media: an image message with a media path gives that path as its image,
    /// any other message its `image` text; a message carries media when it has
    /// a media type or path, or any of `image`, `video`, `audio`, `document`,
    /// `sticker` set, and only then.
    pub proof fn lemma_media(&self)
        ensures
            field_text(self.raw@, "media_path"@) matches Some(p) ==> (field_text(
                self.raw@,
                "media_type"@,
            ) == Some("image"@) ==> self.spec_image() == Some(p)),
            field_text(self.raw@, "media_type"@) != Some("image"@) ==> self.spec_image() == field_text(
                self.raw@,
                "image"@,
            ),
            field_text(self.raw@, "media_path"@) is None ==> self.spec_image() == field_text(
                self.raw@,
                "image"@,
            ),
            self.spec_has_media() <==> (field_text(self.raw@, "media_type"@) is Some || field_text(
                self.raw@,
                "media_path"@,
            ) is Some || field_truthy(self.raw@, "image"@) || field_truthy(self.raw@, "video"@)
                || field_truthy(self.raw@, "audio"@) || field_truthy(self.raw@, "document"@)
                || field_truthy(self.raw@, "sticker"@)),
    {
        let k = media_keys();
        assert(k[0] == "image"@ && k[1] == "video"@ && k[2] == "audio"@ && k[3] == "document"@ && k[4]
            == "sticker"@);
        if field_truthy(self.raw@, "image"@) {
            assert(field_truthy(self.raw@, k[0]));
        }
        if field_truthy(self.raw@, "video"@) {
            assert(field_truthy(self.raw@, k[1]));
        }
        if field_truthy(self.raw@, "audio"@) {
            assert(field_truthy(self.raw@, k[2]));
        }
        if field_truthy(self.raw@, "document"@) {
            assert(field_truthy(self.raw@, k[3]));
        }
        if field_truthy(self.raw@, "sticker"@) {
            assert(field_truthy(self.raw@, k[4]));
        }
    }

    pub fn is_from_me(&self) -> (r: bool)
        ensures
            r == self.spec_is_from_me(),
    {
        match self.raw.get("is_from_me") {
            Some(v) => match v.as_bool() {
                Some(b) => b,
                None => false,
            },
            None => false,
        }
    }

    pub fn direction(&self) -> (r: String)
        ensures
            r@ == self.spec_direction(),
    {
        match value_to_string(self.raw.get("direction")) {
            Some(d) => d,
            None => if self.is_from_me() {
                String::from_str("outgoing")
            } else {
                String::from_str("incoming")
            },
        }
    }

    pub fn contact_id(&self) -> (r: Option<String>)
        ensures
            r.deep_view() == self.spec_contact_id(),
    {
        match value_to_string(self.raw.get("contact_id")) {
            Some(c) => Some(c),
            None => match &self.chat_id {
                Some(c) => Some(c.clone()),
                None => match &self.sender {
                    Some(s) => Some(s.clone()),
                    None => None,
                },
            },
        }
    }

    pub fn replied_to_id(&self) -> (r: Option<String>)
        ensures
            r.deep_view() == field_text(self.raw@, "replied_to_id"@),
    {
        value_to_string(self.raw.get("replied_to_id"))
    }

    pub fn timestamp(&self) -> (r: Option<String>)
        ensures
            r.deep_view() == field_text(self.raw@, "timestamp"@),
    {
        value_to_string(self.raw.get("timestamp"))
    }

    pub fn media_type(&self) -> (r: Option<String>)
        ensures
            r.deep_view() == field_text(self.raw@, "media_type"@),
    {
        value_to_string(self.raw.get("media_type"))
    }

    pub fn media_path(&self) -> (r: Option<String>)
        ensures
            r.deep_view() == field_text(self.raw@, "media_path"@),
    {
        value_to_string(self.raw.get("media_path"))
    }

    pub fn image(&self) -> (r: Option<String>)
        ensures
            r.deep_view() == self.spec_image(),
    {
        if let Some(t) = self.media_type() {
            if t == String::from_str("image") {
                if let Some(path) = self.media_path() {
                    return Some(path);
                }
            }
        }
        value_to_string(self.raw.get("image"))
    }

    pub fn has_media(&self) -> (r: bool)
        ensures
            r == self.spec_has_media(),
    {
        if self.media_type().is_some() || self.media_path().is_some() {
            return true;
        }
        let keys: [&str; 5] = ["image", "video", "audio", "document", "sticker"];
        let mut i: usize = 0;
        while i < 5
            invariant
                i <= 5,
                keys@.len() == 5,
                forall|j: int| 0 <= j < 5 ==> #[trigger] keys@[j]@ == media_keys()[j],
                forall|j: int| 0 <= j < i ==> !field_truthy(self.raw@, #[trigger] media_keys()[j]),
            decreases 5 - i,
        {
            let set = match self.raw.get(keys[i]) {
                Some(v) => is_truthy_value(v),
                None => false,
            };
            if set {
                assert(field_truthy(self.raw@, media_keys()[i as int]));
                return true;
            }
            i += 1;
        }
        false
    }

    /// The webhook payload nested under `raw`, when it is an object.
    pub fn original_webhook_payload(&self) -> (r: Option<JsonObject>)
        ensures
            r is Some == (map_get(self.raw@, "raw"@) matches Some(Json::Object(_))),
            r matches Some(o) ==> map_get(self.raw@, "raw"@) == Some(Json::Object(o@)),
    {
        match self.raw.get("raw") {
            Some(v) => match v.as_object() {
                Some(o) => Some(o.deep_copy()),
                None => None,
            },
            None => None,
        }
    }
}

impl IncomingMessage {
    /// The same message: equal fields, and a payload with the same members.
    pub open spec fn same_as(&self, other: IncomingMessage) -> bool {
        &&& self.id == other.id
        &&& self.text == other.text
        &&& self.sender == other.sender
        &&& self.chat_id == other.chat_id
        &&& self.device_id == other.device_id
        &&& self.is_group == other.is_group
        &&& self.raw@ == other.raw@
    }
}

impl Clone for IncomingMessage {
    fn clone(&self) -> (r: IncomingMessage)
        ensures
            r.same_as(*self),
    {
        IncomingMessage {
            id: clone_opt(&self.id),
            text: self.text.clone(),
            sender: clone_opt(&self.sender),
            chat_id: clone_opt(&self.chat_id),
            device_id: self.device_id.clone(),
            is_group: self.is_group,
            raw: self.raw.deep_copy(),
        }
    }
}

} // verus!
