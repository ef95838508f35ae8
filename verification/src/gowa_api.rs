//! Requests to the GoWa WhatsApp HTTP API and the reading of its replies.
use vstd::prelude::*;
use vstd::string::StringSliceAdditionalSpecFns;
use crate::json::{
    items_of, json_of_bytes, lemma_items_push, map_get, parse_json_bytes, Json, JsonNum,
    JsonObject, JsonValue,
};
use crate::settings::{clone_opt, Settings};
use crate::text::{
    header_value_accepted, is_blank, is_blank_text, is_header_value, percent_encode,
    trim_end_char, trim_trailing, url_encode,
};

verus! {

/// Why a request to the GoWa API was refused.
#[derive(Debug, PartialEq, Eq)]
pub enum ApiError {
    /// The device id cannot be sent in the `X-Device-Id` header.
    InvalidDeviceIdHeader,
    /// The recipient is blank.
    ToRequired,
    /// The message text is blank.
    TextRequired,
    /// The id of the message to update is blank.
    MessageIdRequired,
    /// The reply body is not JSON; the message says why.
    InvalidResponseBody(String),
}

/// The message of an API error.
pub open spec fn api_error_text(e: ApiError) -> Seq<char> {
    match e {
        ApiError::InvalidDeviceIdHeader => "failed to parse header value"@,
        ApiError::ToRequired => "to is required"@,
        ApiError::TextRequired => "text is required"@,
        ApiError::MessageIdRequired => "message_id is required"@,
        ApiError::InvalidResponseBody(m) => m@,
    }
}

impl ApiError {
    /// The error's message.
    pub fn message(&self) -> (r: String)
        ensures
            r@ == api_error_text(*self),
    {
        match self {
            ApiError::InvalidDeviceIdHeader => String::from_str("failed to parse header value"),
            ApiError::ToRequired => String::from_str("to is required"),
            ApiError::TextRequired => String::from_str("text is required"),
            ApiError::MessageIdRequired => String::from_str("message_id is required"),
            ApiError::InvalidResponseBody(m) => m.clone(),
        }
    }
}

/// A POST of a JSON body to the API.
#[derive(Debug)]
pub struct PostRequest {
    pub url: String,
    pub payload: JsonObject,
    /// User name and password, sent as HTTP basic authentication.
    pub basic_auth: Option<(String, String)>,
}

/// The texts of an optional pair of strings.
pub open spec fn auth_view(a: Option<(String, String)>) -> Option<(Seq<char>, Seq<char>)> {
    match a {
        Some((u, p)) => Some((u@, p@)),
        None => None,
    }
}

/// Basic authentication is sent when both a user name and a password are set.
pub open spec fn spec_basic_auth(s: Settings) -> Option<(Seq<char>, Seq<char>)> {
    match (s.gowa_basic_auth_username, s.gowa_basic_auth_password) {
        (Some(u), Some(p)) => Some((u@, p@)),
        _ => None,
    }
}

/// Basic authentication is sent exactly when both a user name and a password
/// are set, and then with the user name first and the password second.
pub proof fn lemma_basic_auth(s: Settings)
    ensures
        spec_basic_auth(s) is Some <==> (s.gowa_basic_auth_username is Some
            && s.gowa_basic_auth_password is Some),
        spec_basic_auth(s) matches Some((u, p)) ==> (s.gowa_basic_auth_username.deep_view() == Some(u)
            && s.gowa_basic_auth_password.deep_view() == Some(p)),
{
}

/// The base URL of the API: the configured one without trailing slashes.
pub open spec fn spec_base_url(s: Settings) -> Seq<char> {
    trim_trailing(s.gowa_base_url@, '/')
}

/// The body of a send request.
pub open spec fn send_payload(
    to: Seq<char>,
    text: Seq<char>,
    reply_message_id: Option<Seq<char>>,
    is_forwarded: Option<bool>,
    duration: Option<i64>,
    mentions: Option<Seq<Seq<char>>>,
    extra_payload: Option<Map<Seq<char>, Json>>,
) -> Map<Seq<char>, Json> {
    let m0 = Map::<Seq<char>, Json>::empty().insert("phone"@, Json::Str(to)).insert(
        "message"@,
        Json::Str(text),
    );
    let m1 = match reply_message_id {
        Some(r) => m0.insert("reply_message_id"@, Json::Str(r)),
        None => m0,
    };
    let m2 = match is_forwarded {
        Some(b) => m1.insert("is_forwarded"@, Json::Bool(b)),
        None => m1,
    };
    let m3 = match duration {
        Some(d) => m2.insert("duration"@, Json::Number(JsonNum::Int(d as int))),
        None => m2,
    };
    let m4 = match mentions {
        Some(ms) => m3.insert("mentions"@, Json::Array(ms.map_values(|t: Seq<char>| Json::Str(t)))),
        None => m3,
    };
    match extra_payload {
        Some(e) => m4.union_prefer_right(e),
        None => m4,
    }
}

/// Whether an optional extra body binds `key`.
pub open spec fn extra_binds(extra: Option<Map<Seq<char>, Json>>, key: Seq<char>) -> bool {
    extra matches Some(e) && e.dom().contains(key)
}

/// What each member of a send body holds: `phone` the recipient, `message`
/// the text, each optional field the value given for it (absent when none is
/// given), unless the extra body binds that key; every member of the extra
/// body as it is there; and no other member.
pub proof fn lemma_send_payload_members(
    to: Seq<char>,
    text: Seq<char>,
    reply_message_id: Option<Seq<char>>,
    is_forwarded: Option<bool>,
    duration: Option<i64>,
    mentions: Option<Seq<Seq<char>>>,
    extra_payload: Option<Map<Seq<char>, Json>>,
)
    ensures
        ({
            let m = send_payload(
                to,
                text,
                reply_message_id,
                is_forwarded,
                duration,
                mentions,
                extra_payload,
            );
            &&& !extra_binds(extra_payload, "phone"@) ==> map_get(m, "phone"@) == Some(Json::Str(to))
            &&& !extra_binds(extra_payload, "message"@) ==> map_get(m, "message"@) == Some(
                Json::Str(text),
            )
            &&& !extra_binds(extra_payload, "reply_message_id"@) ==> map_get(m, "reply_message_id"@)
                == (match reply_message_id {
                Some(r) => Some(Json::Str(r)),
                None => None,
            })
            &&& !extra_binds(extra_payload, "is_forwarded"@) ==> map_get(m, "is_forwarded"@) == (
            match is_forwarded {
                Some(b) => Some(Json::Bool(b)),
                None => None,
            })
            &&& !extra_binds(extra_payload, "duration"@) ==> map_get(m, "duration"@) == (
            match duration {
                Some(d) => Some(Json::Number(JsonNum::Int(d as int))),
                None => None,
            })
            &&& !extra_binds(extra_payload, "mentions"@) ==> map_get(m, "mentions"@) == (
            match mentions {
                Some(ms) => Some(Json::Array(ms.map_values(|t: Seq<char>| Json::Str(t)))),
                None => None,
            })
            &&& forall|k: Seq<char>| #[trigger]
                extra_binds(extra_payload, k) ==> map_get(m, k) == map_get(extra_payload->0, k)
            &&& forall|k: Seq<char>| #[trigger]
                m.dom().contains(k) ==> k == "phone"@ || k == "message"@ || k == "reply_message_id"@
                    || k == "is_forwarded"@ || k == "duration"@ || k == "mentions"@
                    || extra_binds(extra_payload, k)
        }),
{
    reveal_strlit("phone");
    reveal_strlit("message");
    reveal_strlit("reply_message_id");
    reveal_strlit("is_forwarded");
    reveal_strlit("duration");
    reveal_strlit("mentions");
    assert("phone"@ != "message"@) by { assert("phone"@[0] != "message"@[0]); }
    assert("phone"@ != "reply_message_id"@) by { assert("phone"@[0] != "reply_message_id"@[0]); }
    assert("phone"@ != "is_forwarded"@) by { assert("phone"@[0] != "is_forwarded"@[0]); }
    assert("phone"@ != "duration"@) by { assert("phone"@[0] != "duration"@[0]); }
    assert("phone"@ != "mentions"@) by { assert("phone"@[0] != "mentions"@[0]); }
    assert("message"@ != "reply_message_id"@) by { assert("message"@[0] != "reply_message_id"@[0]); }
    assert("message"@ != "is_forwarded"@) by { assert("message"@[0] != "is_forwarded"@[0]); }
    assert("message"@ != "duration"@) by { assert("message"@[0] != "duration"@[0]); }
    assert("message"@ != "mentions"@) by { assert("message"@[2] != "mentions"@[2]); }
    assert("reply_message_id"@ != "is_forwarded"@) by { assert("reply_message_id"@[0] != "is_forwarded"@[0]); }
    assert("reply_message_id"@ != "duration"@) by { assert("reply_message_id"@[0] != "duration"@[0]); }
    assert("reply_message_id"@ != "mentions"@) by { assert("reply_message_id"@[0] != "mentions"@[0]); }
    assert("is_forwarded"@ != "duration"@) by { assert("is_forwarded"@[0] != "duration"@[0]); }
    assert("is_forwarded"@ != "mentions"@) by { assert("is_forwarded"@[0] != "mentions"@[0]); }
    assert("duration"@ != "mentions"@) by { assert("duration"@[0] != "mentions"@[0]); }
}

/// The body of an update request.
pub open spec fn update_payload(to: Seq<char>, text: Seq<char>) -> Map<Seq<char>, Json> {
    Map::<Seq<char>, Json>::empty().insert("phone"@, Json::Str(to)).insert(
        "message"@,
        Json::Str(text),
    )
}

/// The path that updates message `message_id`, the id percent-encoded.
pub open spec fn update_path(message_id: Seq<char>, message_id_bytes: Seq<u8>) -> Seq<char> {
    "/message/"@ + percent_encode(message_id_bytes) + "/update"@
}

/// An object whose `results.message_id` is copied to `message_id`, unless it has one.
pub open spec fn with_message_id(m: Map<Seq<char>, Json>) -> Map<Seq<char>, Json> {
    match map_get(m, "results"@) {
        Some(Json::Object(results)) => match map_get(results, "message_id"@) {
            Some(id) => if m.dom().contains("message_id"@) {
                m
            } else {
                m.insert("message_id"@, id)
            },
            None => m,
        },
        _ => m,
    }
}

/// Lifting the message id is idempotent: a reply already lifted is left as it is.
pub proof fn lemma_with_message_id_idempotent(m: Map<Seq<char>, Json>)
    ensures
        with_message_id(with_message_id(m)) == with_message_id(m),
        with_message_id(m).dom().contains("message_id"@) || with_message_id(m) == m,
        m.dom().contains("message_id"@) ==> with_message_id(m) == m,
{
}

/// Lifting the message id keeps every member of the reply as it is, adds at
/// most `message_id`, and adds it, bound to `results.message_id`, exactly when
/// the reply has no `message_id` of its own and its `results` object has one.
pub proof fn lemma_with_message_id_members(m: Map<Seq<char>, Json>)
    ensures
        forall|k: Seq<char>| #[trigger] m.dom().contains(k) ==> map_get(with_message_id(m), k)
            == map_get(m, k),
        forall|k: Seq<char>| #[trigger]
            with_message_id(m).dom().contains(k) ==> m.dom().contains(k) || k == "message_id"@,
        !m.dom().contains("message_id"@) ==> map_get(with_message_id(m), "message_id"@) == (
        match map_get(m, "results"@) {
            Some(Json::Object(results)) => map_get(results, "message_id"@),
            _ => None,
        }),
{
}

/// A reply object keeps every member, gains at most `message_id`, and is
/// never an error; any other JSON reply becomes `{"ok": true, "data": reply}`.
pub proof fn lemma_reply_object_kept(m: Map<Seq<char>, Json>, v: Json)
    ensures
        response_value(false, Ok(Json::Object(m))) matches Ok(Json::Object(r)) && (forall|k: Seq<char>|
            #[trigger] m.dom().contains(k) ==> map_get(r, k) == map_get(m, k)) && (forall|k: Seq<char>|
            #[trigger] r.dom().contains(k) ==> m.dom().contains(k) || k == "message_id"@),
        !(v is Object) ==> response_value(false, Ok(v)) == Ok::<Json, Seq<char>>(
            Json::Object(Map::empty().insert("ok"@, Json::Bool(true)).insert("data"@, v)),
        ),
{
    lemma_with_message_id_members(m);
}

/// An empty reply is `{"ok": true}` whatever reading it gave; a non-empty
/// reply that is not JSON is the reading error.
pub proof fn lemma_reply_empty_or_unreadable(parsed: Result<Json, Seq<char>>, m: Seq<char>)
    ensures
        response_value(true, parsed) == Ok::<Json, Seq<char>>(
            Json::Object(Map::empty().insert("ok"@, Json::Bool(true))),
        ),
        response_value(false, Err(m)) == Err::<Json, Seq<char>>(m),
{
}

/// What a reply means: `{"ok": true}` for an empty body; the reading error
/// when the body is not JSON; an object with its message id lifted; any other
/// value as `{"ok": true, "data": value}`.
pub open spec fn response_value(body_empty: bool, parsed: Result<Json, Seq<char>>) -> Result<
    Json,
    Seq<char>,
> {
    if body_empty {
        Ok(Json::Object(Map::empty().insert("ok"@, Json::Bool(true))))
    } else {
        match parsed {
            Err(e) => Err(e),
            Ok(Json::Object(m)) => Ok(Json::Object(with_message_id(m))),
            Ok(v) => Ok(
                Json::Object(Map::empty().insert("ok"@, Json::Bool(true)).insert("data"@, v)),
            ),
        }
    }
}

/// Whether `r` is the outcome `response_value` describes: the value, or the
/// error carrying the reading error's message.
pub open spec fn reply_outcome(expected: Result<Json, Seq<char>>, r: Result<JsonValue, ApiError>) -> bool {
    match expected {
        Ok(v) => r matches Ok(x) && x@ == v,
        Err(m) => r matches Err(ApiError::InvalidResponseBody(t)) && t@ == m,
    }
}

/// The abstract form of a reading result.
pub open spec fn parsed_view(parsed: Result<JsonValue, String>) -> Result<Json, Seq<char>> {
    match parsed {
        Ok(v) => Ok(v@),
        Err(m) => Err(m@),
    }
}

/// Client-side state of the GoWa API: the settings and the base URL.
#[derive(Debug)]
pub struct GoWaApi {
    settings: Settings,
    base_url: String,
}

impl GoWaApi {
    #[verifier::type_invariant]
    closed spec fn wf(self) -> bool {
        self.base_url@ == spec_base_url(self.settings)
    }

    /// The settings the API was made with.
    pub closed spec fn spec_settings(&self) -> Settings {
        self.settings
    }

    /// Prepares the API for `settings`; fails when the device id cannot stand
    /// in an HTTP header.
    pub fn new(settings: Settings) -> (r: Result<GoWaApi, ApiError>)
        ensures
            r is Err == !is_header_value(settings.spec_gowa_device_id_bytes()),
            r matches Err(e) ==> e == ApiError::InvalidDeviceIdHeader,
            r matches Ok(api) ==> api.spec_settings() == settings,
    {
        let device_id = settings.resolved_gowa_device_id();
        if !header_value_accepted(device_id.as_str()) {
            return Err(ApiError::InvalidDeviceIdHeader);
        }
        let base_url = trim_end_char(settings.gowa_base_url.as_str(), '/');
        Ok(GoWaApi { settings, base_url })
    }

    pub fn settings(&self) -> (r: &Settings)
        ensures
            *r == self.spec_settings(),
    {
        &self.settings
    }

    /// The base URL, without trailing slashes.
    pub fn base_url(&self) -> (r: &str)
        ensures
            r@ == spec_base_url(self.spec_settings()),
    {
        proof {
            use_type_invariant(self);
        }
        self.base_url.as_str()
    }

    /// The POST of `payload` to `path`.
    pub fn post(&self, path: &str, payload: JsonObject) -> (r: PostRequest)
        ensures
            r.url@ == spec_base_url(self.spec_settings()) + path@,
            r.payload@ == payload@,
            auth_view(r.basic_auth) == spec_basic_auth(self.spec_settings()),
    {
        proof {
            use_type_invariant(self);
        }
        let mut url = self.base_url.clone();
        url.append(path);
        let basic_auth = match (&self.settings.gowa_basic_auth_username, &self.settings.gowa_basic_auth_password) {
            (Some(u), Some(p)) => Some((u.clone(), p.clone())),
            _ => None,
        };
        PostRequest { url, payload, basic_auth }
    }

    /// The request that sends `text` to `to`.
    pub fn send_message(
        &self,
        to: &str,
        text: &str,
        reply_message_id: Option<&str>,
        is_forwarded: Option<bool>,
        duration: Option<i64>,
        mentions: Option<Vec<String>>,
        extra_payload: Option<JsonObject>,
    ) -> (r: Result<PostRequest, ApiError>)
        ensures
            r is Err == (is_blank(to@) || is_blank(text@)),
            r matches Err(e) ==> e == (if is_blank(to@) {
                ApiError::ToRequired
            } else {
                ApiError::TextRequired
            }),
            r matches Ok(req) ==> {
                &&& req.url@ == spec_base_url(self.spec_settings())
                    + self.spec_settings().gowa_send_message_path@
                &&& req.payload@ == send_payload(
                    to@,
                    text@,
                    match reply_message_id {
                        Some(m) => Some(m@),
                        None => None,
                    },
                    is_forwarded,
                    duration,
                    match mentions {
                        Some(ms) => Some(ms@.map_values(|s: String| s@)),
                        None => None,
                    },
                    match extra_payload {
                        Some(e) => Some(e@),
                        None => None,
                    },
                )
                &&& auth_view(req.basic_auth) == spec_basic_auth(self.spec_settings())
            },
    {
        if is_blank_text(to) {
            return Err(ApiError::ToRequired);
        }
        if is_blank_text(text) {
            return Err(ApiError::TextRequired);
        }
        let mut payload = JsonObject::new();
        payload.insert(String::from_str("phone"), JsonValue::from_text(to));
        payload.insert(String::from_str("message"), JsonValue::from_text(text));
        if let Some(reply_message_id) = reply_message_id {
            payload.insert(
                String::from_str("reply_message_id"),
                JsonValue::from_text(reply_message_id),
            );
        }
        if let Some(is_forwarded) = is_forwarded {
            payload.insert(String::from_str("is_forwarded"), JsonValue::Bool(is_forwarded));
        }
        if let Some(duration) = duration {
            payload.insert(String::from_str("duration"), JsonValue::from_i64(duration));
        }
        if let Some(mentions) = &mentions {
            payload.insert(String::from_str("mentions"), string_array(mentions));
        }
        if let Some(extra_payload) = &extra_payload {
            payload.extend(extra_payload);
        }
        Ok(self.post(self.settings.gowa_send_message_path.as_str(), payload))
    }

    /// The request that changes the text of message `message_id` in the chat with `to`.
    pub fn update_message(&self, message_id: &str, to: &str, text: &str) -> (r: Result<
        PostRequest,
        ApiError,
    >)
        ensures
            r is Err == (is_blank(message_id@) || is_blank(to@) || is_blank(text@)),
            r matches Err(e) ==> e == (if is_blank(message_id@) {
                ApiError::MessageIdRequired
            } else if is_blank(to@) {
                ApiError::ToRequired
            } else {
                ApiError::TextRequired
            }),
            r matches Ok(req) ==> {
                &&& req.url@ == spec_base_url(self.spec_settings()) + update_path(
                    message_id@,
                    message_id.spec_bytes(),
                )
                &&& req.payload@ == update_payload(to@, text@)
                &&& auth_view(req.basic_auth) == spec_basic_auth(self.spec_settings())
            },
    {
        if is_blank_text(message_id) {
            return Err(ApiError::MessageIdRequired);
        }
        if is_blank_text(to) {
            return Err(ApiError::ToRequired);
        }
        if is_blank_text(text) {
            return Err(ApiError::TextRequired);
        }
        let safe_message_id = url_encode(message_id);
        let mut path = String::from_str("/message/");
        path.append(safe_message_id.as_str());
        path.append("/update");
        let mut payload = JsonObject::new();
        payload.insert(String::from_str("phone"), JsonValue::from_text(to));
        payload.insert(String::from_str("message"), JsonValue::from_text(text));
        Ok(self.post(path.as_str(), payload))
    }
}

/// A JSON array of strings.
pub fn string_array(items: &Vec<String>) -> (r: JsonValue)
    ensures
        r@ == Json::Array(items@.map_values(|s: String| s@).map_values(|t: Seq<char>| Json::Str(t))),
{
    let mut out: Vec<JsonValue> = Vec::new();
    let mut i: usize = 0;
    while i < items.len()
        invariant
            i <= items@.len(),
            items_of(out@) =~= items@.take(i as int).map_values(|s: String| s@).map_values(
                |t: Seq<char>| Json::Str(t),
            ),
        decreases items@.len() - i,
    {
        let v = JsonValue::from_text(items[i].as_str());
        proof {
            lemma_items_push(out@, v);
            assert(items@.take(i + 1) =~= items@.take(i as int).push(items@[i as int]));
        }
        out.push(v);
        i += 1;
    }
    assert(items@.take(items@.len() as int) =~= items@);
    JsonValue::Array(out)
}

/// Reads the body of a reply; `parsed` is what reading `body` as JSON gave:
/// its value, or the error's message.
pub fn post_response(body: &[u8], parsed: Result<JsonValue, String>) -> (r: Result<JsonValue, ApiError>)
    ensures
        reply_outcome(response_value(body@.len() == 0, parsed_view(parsed)), r),
{
    if body.len() == 0 {
        let mut m = JsonObject::new();
        m.insert(String::from_str("ok"), JsonValue::Bool(true));
        return Ok(JsonValue::Object(m));
    }
    let data = match parsed {
        Ok(d) => d,
        Err(m) => return Err(ApiError::InvalidResponseBody(m)),
    };
    match data {
        JsonValue::Object(mut object) => {
            let message_id = match object.get("results") {
                Some(results) => match results.as_object() {
                    Some(results) => match results.get("message_id") {
                        Some(id) => Some(id.deep_copy()),
                        None => None,
                    },
                    None => None,
                },
                None => None,
            };
            if let Some(message_id) = message_id {
                object.insert_if_absent(String::from_str("message_id"), message_id);
            }
            Ok(JsonValue::Object(object))
        },
        other => {
            let mut m = JsonObject::new();
            m.insert(String::from_str("ok"), JsonValue::Bool(true));
            m.insert(String::from_str("data"), other);
            Ok(JsonValue::Object(m))
        },
    }
}

/// Reads the body of a reply: an empty body is `{"ok": true}`; any other is
/// read as JSON.
pub fn read_reply(body: &[u8]) -> (r: Result<JsonValue, ApiError>)
    ensures
        reply_outcome(response_value(body@.len() == 0, json_of_bytes(body@)), r),
{
    if body.len() == 0 {
        return post_response(body, Err(String::new()));
    }
    let parsed = parse_json_bytes(body);
    post_response(body, parsed)
}

} // verus!
