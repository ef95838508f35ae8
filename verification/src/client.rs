//! The automation client: turns payloads into message events, and replies,
//! sends and updates into requests to the GoWa API.
use vstd::prelude::*;
use crate::events::{MessageEv, StartedEv};
use crate::gowa_api::{
    api_error_text, auth_view, send_payload, spec_base_url, spec_basic_auth, update_path, update_payload, ApiError,
    GoWaApi, PostRequest,
};
use crate::json::{json_get, map_get, Json, JsonObject, JsonValue};
use crate::message::{
    field_text, field_truthy, is_truthy_value, or_else, value_to_string, IncomingMessage,
};
use crate::settings::Settings;
use crate::text::{ends_with, has_suffix};
use vstd::string::StringSliceAdditionalSpecFns;

verus! {

/// The message to update: by its id, or by the API's reply to the request that sent it.
#[derive(Debug)]
pub enum TargetMessage {
    Id(String),
    Response(JsonValue),
}

/// The id that a target names: the id itself, or the `message_id` text of a reply.
pub open spec fn target_message_id(t: TargetMessage) -> Option<Seq<char>> {
    match t {
        TargetMessage::Id(s) => Some(s@),
        TargetMessage::Response(v) => match json_get(v@, "message_id"@) {
            Some(Json::Str(s)) => Some(s),
            _ => None,
        },
    }
}

impl From<String> for TargetMessage {
    fn from(value: String) -> (r: TargetMessage)
        ensures
            r == TargetMessage::Id(value),
    {
        TargetMessage::Id(value)
    }
}

impl vstd::std_specs::convert::FromSpecImpl<String> for TargetMessage {
    open spec fn obeys_from_spec() -> bool {
        true
    }

    open spec fn from_spec(v: String) -> TargetMessage {
        TargetMessage::Id(v)
    }
}

impl From<JsonValue> for TargetMessage {
    fn from(value: JsonValue) -> (r: TargetMessage)
        ensures
            r == TargetMessage::Response(value),
    {
        TargetMessage::Response(value)
    }
}

impl vstd::std_specs::convert::FromSpecImpl<JsonValue> for TargetMessage {
    open spec fn obeys_from_spec() -> bool {
        true
    }

    open spec fn from_spec(v: JsonValue) -> TargetMessage {
        TargetMessage::Response(v)
    }
}

impl<'a> From<&'a str> for TargetMessage {
    fn from(value: &'a str) -> (r: TargetMessage)
        ensures
            r matches TargetMessage::Id(id) && id@ == value@,
    {
        TargetMessage::Id(value.to_owned())
    }
}

/// A `String` is not determined by its text in Verus, so only the text of the
/// id is promised, by the `ensures` of `from`.
impl<'a> vstd::std_specs::convert::FromSpecImpl<&'a str> for TargetMessage {
    open spec fn obeys_from_spec() -> bool {
        false
    }

    open spec fn from_spec(v: &'a str) -> TargetMessage {
        TargetMessage::Id(choose|s: String| s@ == v@)
    }
}

impl<'a> From<&'a JsonValue> for TargetMessage {
    fn from(value: &'a JsonValue) -> (r: TargetMessage)
        ensures
            r matches TargetMessage::Response(v) && v@ == value@,
    {
        TargetMessage::Response(value.deep_copy())
    }
}

/// A copied JSON value is promised the same abstract value only, by the
/// `ensures` of `from`.
impl<'a> vstd::std_specs::convert::FromSpecImpl<&'a JsonValue> for TargetMessage {
    open spec fn obeys_from_spec() -> bool {
        false
    }

    open spec fn from_spec(v: &'a JsonValue) -> TargetMessage {
        TargetMessage::Response(choose|x: JsonValue| x@ == v@)
    }
}

impl TargetMessage {
    /// A target named by its id.
    pub fn from_id(id: &str) -> (r: TargetMessage)
        ensures
            target_message_id(r) == Some(id@),
    {
        TargetMessage::Id(id.to_owned())
    }

    /// A target named by the API's reply to the request that sent it.
    pub fn from_response(response: &JsonValue) -> (r: TargetMessage)
        ensures
            r matches TargetMessage::Response(v) && v@ == response@,
    {
        TargetMessage::Response(response.deep_copy())
    }

    /// The id of the target message.
    pub fn message_id(&self) -> (r: Option<String>)
        ensures
            r.deep_view() == target_message_id(*self),
    {
        match self {
            TargetMessage::Id(id) => Some(id.clone()),
            TargetMessage::Response(value) => match value.get("message_id") {
                Some(v) => match v.as_str() {
                    Some(s) => Some(s.to_owned()),
                    None => None,
                },
                None => None,
            },
        }
    }
}

/// Why the client could not act.
#[derive(Debug, PartialEq, Eq)]
pub enum ClientError {
    /// The Redis URL cannot be used; the message says why.
    InvalidRedisUrl(String),
    /// A message to send to has no contact.
    SendWithoutContact,
    /// A message to reply to has no contact.
    ReplyWithoutContact,
    /// The message to update has no id.
    UpdateWithoutMessageId,
    /// A message in whose chat to update has no contact.
    UpdateWithoutContact,
    /// The API refused the request.
    Api(ApiError),
}

/// The message of a client error.
pub open spec fn client_error_text(e: ClientError) -> Seq<char> {
    match e {
        ClientError::InvalidRedisUrl(m) => m@,
        ClientError::SendWithoutContact => "Cannot send message because message contact_id is empty"@,
        ClientError::ReplyWithoutContact => "Cannot reply message because message contact_id is empty"@,
        ClientError::UpdateWithoutMessageId => "Cannot update message because message_id is empty"@,
        ClientError::UpdateWithoutContact => "Cannot update message because message contact_id is empty"@,
        ClientError::Api(a) => api_error_text(a),
    }
}

impl ClientError {
    /// The error's message.
    pub fn message(&self) -> (r: String)
        ensures
            r@ == client_error_text(*self),
    {
        match self {
            ClientError::InvalidRedisUrl(m) => m.clone(),
            ClientError::SendWithoutContact => String::from_str(
                "Cannot send message because message contact_id is empty",
            ),
            ClientError::ReplyWithoutContact => String::from_str(
                "Cannot reply message because message contact_id is empty",
            ),
            ClientError::UpdateWithoutMessageId => String::from_str(
                "Cannot update message because message_id is empty",
            ),
            ClientError::UpdateWithoutContact => String::from_str(
                "Cannot update message because message contact_id is empty",
            ),
            ClientError::Api(e) => e.message(),
        }
    }
}

/// The message event that a payload makes, under the given settings.
pub open spec fn spec_message_event(settings: Settings, p: Map<Seq<char>, Json>, ev: MessageEv) -> bool {
    let chat_id = field_text(p, "chat_id"@);
    &&& ev.message.chat_id.deep_view() == chat_id
    &&& ev.message.sender.deep_view() == or_else(field_text(p, "sender"@), field_text(p, "from"@))
    &&& ev.message.device_id@ == (match field_text(p, "device_id"@) {
        Some(d) => d,
        None => settings.device_id@,
    })
    &&& ev.message.is_group == (field_truthy(p, "is_group"@) || (chat_id matches Some(c)
        && has_suffix(c, "@g.us"@)))
    &&& ev.message.id.deep_view() == or_else(field_text(p, "message_id"@), field_text(p, "id"@))
    &&& ev.message.text@ == (match or_else(field_text(p, "text"@), field_text(p, "body"@)) {
        Some(t) => t,
        None => Seq::empty(),
    })
    &&& ev.message.raw@ == p
    &&& ev.event_id.deep_view() == or_else(
        field_text(p, "event_id"@),
        or_else(field_text(p, "message_id"@), field_text(p, "id"@)),
    )
    &&& ev.device_id@ == ev.message.device_id@
    &&& ev.raw@ == p
    &&& ev.event_name@ == (match field_text(p, "event"@) {
        Some(e) => e,
        None => "message"@,
    })
    &&& ev.channel_name@ == settings.spec_pubsub_channel()
}

/// The message of the error that `redis::Client::open` gives for a URL it
/// cannot use; nothing for a URL it accepts.
pub uninterp spec fn redis_url_error(url: Seq<char>) -> Option<Seq<char>>;

/// `redis::Client::open(url)`, which checks the URL without connecting:
/// nothing when it accepts the URL, else its error's message.
#[verifier::external_body]
pub(crate) fn check_redis_url(url: &str) -> (r: Option<String>)
    ensures
        r.deep_view() == redis_url_error(url@),
{
    match redis::Client::open(url) {
        Ok(_) => None,
        Err(e) => Some(e.to_string()),
    }
}

/// The ids of a message event: the message id is the payload's `message_id`
/// text, else its `id` text; the event id is the payload's `event_id` text,
/// and without one it is the message id.
pub proof fn lemma_event_ids(settings: Settings, p: Map<Seq<char>, Json>, ev: MessageEv)
    requires
        spec_message_event(settings, p, ev),
    ensures
        field_text(p, "message_id"@) matches Some(m) ==> ev.message.id.deep_view() == Some(m),
        field_text(p, "message_id"@) is None ==> ev.message.id.deep_view() == field_text(p, "id"@),
        field_text(p, "event_id"@) matches Some(e) ==> ev.event_id.deep_view() == Some(e),
        field_text(p, "event_id"@) is None ==> ev.event_id.deep_view() == ev.message.id.deep_view(),
        field_text(p, "event_id"@) is None && field_text(p, "message_id"@) is None
            ==> ev.event_id.deep_view() == field_text(p, "id"@),
{
}

/// The other fields of a message event, read from the payload: each is the
/// payload's text for it when there is one, and otherwise its fallback.
pub proof fn lemma_event_fields(settings: Settings, p: Map<Seq<char>, Json>, ev: MessageEv)
    requires
        spec_message_event(settings, p, ev),
    ensures
        ev.message.chat_id.deep_view() == field_text(p, "chat_id"@),
        field_text(p, "sender"@) matches Some(x) ==> ev.message.sender.deep_view() == Some(x),
        field_text(p, "sender"@) is None ==> ev.message.sender.deep_view() == field_text(p, "from"@),
        field_text(p, "device_id"@) matches Some(d) ==> ev.message.device_id@ == d,
        field_text(p, "device_id"@) is None ==> ev.message.device_id@ == settings.device_id@,
        ev.device_id@ == ev.message.device_id@,
        field_text(p, "text"@) matches Some(t) ==> ev.message.text@ == t,
        field_text(p, "text"@) is None ==> ev.message.text@ == (match field_text(p, "body"@) {
            Some(b) => b,
            None => Seq::<char>::empty(),
        }),
        field_text(p, "event"@) matches Some(e) ==> ev.event_name@ == e,
        field_text(p, "event"@) is None ==> ev.event_name@ == "message"@,
        field_truthy(p, "is_group"@) ==> ev.message.is_group,
        (field_text(p, "chat_id"@) matches Some(c) && has_suffix(c, "@g.us"@)) ==> ev.message.is_group,
        ev.message.is_group ==> field_truthy(p, "is_group"@) || (field_text(p, "chat_id"@) matches Some(c)
            && has_suffix(c, "@g.us"@)),
        ev.message.raw@ == p,
        ev.raw@ == p,
        ev.channel_name@ == settings.spec_pubsub_channel(),
{
}

/// The settings and the API of a worker.
#[derive(Debug)]
pub struct AutomationClient {
    settings: Settings,
    whatsapp: GoWaApi,
}

/// The first present text of two.
fn first_text(a: Option<String>, b: Option<String>) -> (r: Option<String>)
    ensures
        r.deep_view() == or_else(a.deep_view(), b.deep_view()),
{
    match a {
        Some(x) => Some(x),
        None => b,
    }
}

impl AutomationClient {
    #[verifier::type_invariant]
    closed spec fn wf(self) -> bool {
        self.whatsapp.spec_settings() == self.settings
    }

    /// The settings the client was made with.
    pub closed spec fn spec_settings(&self) -> Settings {
        self.settings
    }

    /// A client for `settings`; fails when the Redis URL does not parse (that
    /// error first) or when the GoWa API cannot be set up.
    pub fn with_settings(settings: Settings) -> (r: Result<AutomationClient, ClientError>)
        ensures
            r is Err == (redis_url_error(settings.redis_url@) is Some || !is_header_value_of(
                settings,
            )),
            redis_url_error(settings.redis_url@) matches Some(m) ==> (r matches Err(
                ClientError::InvalidRedisUrl(t),
            ) && t@ == m),
            redis_url_error(settings.redis_url@) is None && !is_header_value_of(settings) ==> (
            r matches Err(ClientError::Api(ApiError::InvalidDeviceIdHeader))),
            r matches Ok(c) ==> c.spec_settings() == settings,
    {
        if let Some(message) = check_redis_url(settings.redis_url.as_str()) {
            return Err(ClientError::InvalidRedisUrl(message));
        }
        match GoWaApi::new(settings.clone()) {
            Ok(whatsapp) => Ok(AutomationClient { settings, whatsapp }),
            Err(e) => Err(ClientError::Api(e)),
        }
    }

    pub fn settings(&self) -> (r: &Settings)
        ensures
            *r == self.spec_settings(),
    {
        &self.settings
    }

    /// The API, made with the client's settings.
    pub fn whatsapp(&self) -> (r: &GoWaApi)
        ensures
            r.spec_settings() == self.spec_settings(),
    {
        proof {
            use_type_invariant(self);
        }
        &self.whatsapp
    }

    /// The event announcing that the worker has started.
    pub fn started_event(&self) -> (r: StartedEv)
        ensures
            r.bot_name@ == self.spec_settings().bot_name@,
            r.device_id@ == self.spec_settings().device_id@,
            r.channel_name@ == self.spec_settings().spec_pubsub_channel(),
    {
        StartedEv {
            bot_name: self.settings.bot_name.clone(),
            device_id: self.settings.device_id.clone(),
            channel_name: self.settings.resolved_pubsub_channel(),
        }
    }

    /// The message event of a payload; payload fields that are missing fall
    /// back to the client's settings and to defaults.
    pub fn build_message_event(&self, payload: JsonObject) -> (r: Result<MessageEv, ClientError>)
        ensures
            r matches Ok(ev) && spec_message_event(self.spec_settings(), payload@, ev),
    {
        let chat_id = value_to_string(payload.get("chat_id"));
        let sender = first_text(
            value_to_string(payload.get("sender")),
            value_to_string(payload.get("from")),
        );
        let device_id = match value_to_string(payload.get("device_id")) {
            Some(d) => d,
            None => self.settings.device_id.clone(),
        };
        let group_flag = match payload.get("is_group") {
            Some(v) => is_truthy_value(v),
            None => false,
        };
        let group_chat = match &chat_id {
            Some(c) => ends_with(c.as_str(), "@g.us"),
            None => false,
        };
        let is_group = group_flag || group_chat;
        let id = first_text(
            value_to_string(payload.get("message_id")),
            value_to_string(payload.get("id")),
        );
        let text = match first_text(
            value_to_string(payload.get("text")),
            value_to_string(payload.get("body")),
        ) {
            Some(t) => t,
            None => String::new(),
        };
        let event_id = first_text(
            value_to_string(payload.get("event_id")),
            first_text(
                value_to_string(payload.get("message_id")),
                value_to_string(payload.get("id")),
            ),
        );
        let event_name = match value_to_string(payload.get("event")) {
            Some(e) => e,
            None => String::from_str("message"),
        };
        let raw = payload.deep_copy();
        let message = IncomingMessage {
            id,
            text,
            sender,
            chat_id,
            device_id: device_id.clone(),
            is_group,
            raw,
        };
        Ok(
            MessageEv {
                event_id,
                device_id,
                message,
                raw: payload,
                event_name,
                channel_name: self.settings.resolved_pubsub_channel(),
            },
        )
    }

    /// The request that sends `text` to the contact of `message`.
    pub fn send_message(&self, text: &str, message: &IncomingMessage) -> (r: Result<
        PostRequest,
        ClientError,
    >)
        ensures
            message.spec_contact_id() is None ==> r == Err::<PostRequest, ClientError>(
                ClientError::SendWithoutContact,
            ),
            message.spec_contact_id() matches Some(to) ==> send_outcome(
                self.spec_settings(),
                to,
                text@,
                None,
                r,
            ),
    {
        proof {
            use_type_invariant(self);
        }
        let target = match message.contact_id() {
            Some(t) => t,
            None => return Err(ClientError::SendWithoutContact),
        };
        match self.whatsapp.send_message(target.as_str(), text, None, None, None, None, None) {
            Ok(req) => Ok(req),
            Err(e) => Err(ClientError::Api(e)),
        }
    }

    /// The request that replies `text` to `message`, quoting it.
    pub fn reply_message(&self, text: &str, message: &IncomingMessage) -> (r: Result<
        PostRequest,
        ClientError,
    >)
        ensures
            message.spec_contact_id() is None ==> r == Err::<PostRequest, ClientError>(
                ClientError::ReplyWithoutContact,
            ),
            message.spec_contact_id() matches Some(to) ==> send_outcome(
                self.spec_settings(),
                to,
                text@,
                message.id.deep_view(),
                r,
            ),
    {
        proof {
            use_type_invariant(self);
        }
        let target = match message.contact_id() {
            Some(t) => t,
            None => return Err(ClientError::ReplyWithoutContact),
        };
        let reply_to = match &message.id {
            Some(id) => Some(id.as_str()),
            None => None,
        };
        match self.whatsapp.send_message(target.as_str(), text, reply_to, None, None, None, None) {
            Ok(req) => Ok(req),
            Err(e) => Err(ClientError::Api(e)),
        }
    }

    /// The request that changes the text of `target_message`, in the chat of `message`, to `text`.
    pub fn update_message(
        &self,
        text: &str,
        target_message: TargetMessage,
        message: &IncomingMessage,
    ) -> (r: Result<PostRequest, ClientError>)
        ensures
            target_message_id(target_message) is None ==> r == Err::<PostRequest, ClientError>(
                ClientError::UpdateWithoutMessageId,
            ),
            target_message_id(target_message) is Some && message.spec_contact_id() is None ==> r
                == Err::<PostRequest, ClientError>(ClientError::UpdateWithoutContact),
            target_message_id(target_message) matches Some(id) ==> (message.spec_contact_id() matches Some(to)
                ==> update_outcome(self.spec_settings(), id, to, text@, r)),
    {
        proof {
            use_type_invariant(self);
        }
        let message_id = match target_message.message_id() {
            Some(id) => id,
            None => return Err(ClientError::UpdateWithoutMessageId),
        };
        let target = match message.contact_id() {
            Some(t) => t,
            None => return Err(ClientError::UpdateWithoutContact),
        };
        match self.whatsapp.update_message(message_id.as_str(), target.as_str(), text) {
            Ok(req) => Ok(req),
            Err(e) => Err(ClientError::Api(e)),
        }
    }
}

/// Whether the device id of `settings` can stand in an HTTP header.
pub open spec fn is_header_value_of(settings: Settings) -> bool {
    crate::text::is_header_value(settings.spec_gowa_device_id_bytes())
}

/// What a request to send `text` to `to` (quoting `reply`) comes to: refused when
/// `to` or `text` is blank, else a POST of the send body to the send path.
pub open spec fn send_outcome(
    settings: Settings,
    to: Seq<char>,
    text: Seq<char>,
    reply: Option<Seq<char>>,
    r: Result<PostRequest, ClientError>,
) -> bool {
    if crate::text::is_blank(to) {
        r == Err::<PostRequest, ClientError>(ClientError::Api(ApiError::ToRequired))
    } else if crate::text::is_blank(text) {
        r == Err::<PostRequest, ClientError>(ClientError::Api(ApiError::TextRequired))
    } else {
        r matches Ok(req) && {
            &&& req.url@ == spec_base_url(settings) + settings.gowa_send_message_path@
            &&& req.payload@ == send_payload(to, text, reply, None, None, None, None)
            &&& auth_view(req.basic_auth) == spec_basic_auth(settings)
        }
    }
}

/// What a request to update message `id` in the chat with `to` to `text` comes to.
pub open spec fn update_outcome(
    settings: Settings,
    id: Seq<char>,
    to: Seq<char>,
    text: Seq<char>,
    r: Result<PostRequest, ClientError>,
) -> bool {
    if crate::text::is_blank(id) {
        r == Err::<PostRequest, ClientError>(ClientError::Api(ApiError::MessageIdRequired))
    } else if crate::text::is_blank(to) {
        r == Err::<PostRequest, ClientError>(ClientError::Api(ApiError::ToRequired))
    } else if crate::text::is_blank(text) {
        r == Err::<PostRequest, ClientError>(ClientError::Api(ApiError::TextRequired))
    } else {
        r matches Ok(req) && {
            &&& req.url@ == spec_base_url(settings) + update_path(id, vstd::utf8::encode_utf8(id))
            &&& req.payload@ == update_payload(to, text)
            &&& auth_view(req.basic_auth) == spec_basic_auth(settings)
        }
    }
}

/// A send request is refused exactly when the recipient or the text is blank
/// (the recipient checked first); otherwise it posts the recipient as `phone`,
/// the text as `message` and the quoted id, if any, as `reply_message_id`, and
/// nothing else, to the send path under the base URL.
pub proof fn lemma_send_outcome(
    settings: Settings,
    to: Seq<char>,
    text: Seq<char>,
    reply: Option<Seq<char>>,
    r: Result<PostRequest, ClientError>,
)
    requires
        send_outcome(settings, to, text, reply, r),
    ensures
        r is Err <==> (crate::text::is_blank(to) || crate::text::is_blank(text)),
        crate::text::is_blank(to) ==> r matches Err(ClientError::Api(ApiError::ToRequired)),
        !crate::text::is_blank(to) && crate::text::is_blank(text) ==> r matches Err(
            ClientError::Api(ApiError::TextRequired),
        ),
        r matches Ok(req) ==> {
            &&& map_get(req.payload@, "phone"@) == Some(Json::Str(to))
            &&& map_get(req.payload@, "message"@) == Some(Json::Str(text))
            &&& map_get(req.payload@, "reply_message_id"@) == (match reply {
                Some(m) => Some(Json::Str(m)),
                None => None,
            })
            &&& forall|k: Seq<char>| #[trigger] req.payload@.dom().contains(k) ==> k == "phone"@ || k
                == "message"@ || k == "reply_message_id"@
            &&& req.url@ == spec_base_url(settings) + settings.gowa_send_message_path@
            &&& auth_view(req.basic_auth) == spec_basic_auth(settings)
        },
{
    crate::gowa_api::lemma_send_payload_members(to, text, reply, None, None, None, None);
}

/// An update request is refused exactly when the id, the recipient or the
/// text is blank (checked in that order); otherwise it posts `phone` and
/// `message`, and nothing else, to `/message/<encoded id>/update`.
pub proof fn lemma_update_outcome(
    settings: Settings,
    id: Seq<char>,
    to: Seq<char>,
    text: Seq<char>,
    r: Result<PostRequest, ClientError>,
)
    requires
        update_outcome(settings, id, to, text, r),
    ensures
        r is Err <==> (crate::text::is_blank(id) || crate::text::is_blank(to) || crate::text::is_blank(
            text,
        )),
        crate::text::is_blank(id) ==> r matches Err(ClientError::Api(ApiError::MessageIdRequired)),
        !crate::text::is_blank(id) && crate::text::is_blank(to) ==> r matches Err(
            ClientError::Api(ApiError::ToRequired),
        ),
        !crate::text::is_blank(id) && !crate::text::is_blank(to) && crate::text::is_blank(text) ==> r
            matches Err(ClientError::Api(ApiError::TextRequired)),
        r matches Ok(req) ==> {
            &&& map_get(req.payload@, "phone"@) == Some(Json::Str(to))
            &&& map_get(req.payload@, "message"@) == Some(Json::Str(text))
            &&& forall|k: Seq<char>| #[trigger] req.payload@.dom().contains(k) ==> k == "phone"@ || k
                == "message"@
            &&& req.url@ == spec_base_url(settings) + "/message/"@ + crate::text::percent_encode(
                vstd::utf8::encode_utf8(id),
            ) + "/update"@
        },
{
    reveal_strlit("phone");
    reveal_strlit("message");
    assert("phone"@ != "message"@) by {
        assert("phone"@[0] != "message"@[0]);
    }
}

/// Whether the worker runs and whether it has been told to stop.
#[derive(Debug)]
pub struct WorkerState {
    running: bool,
    stopping: bool,
}

impl WorkerState {
    pub closed spec fn spec_running(&self) -> bool {
        self.running
    }

    pub closed spec fn spec_stopping(&self) -> bool {
        self.stopping
    }

    /// A worker that has not started.
    pub fn new() -> (r: WorkerState)
        ensures
            !r.spec_running(),
            !r.spec_stopping(),
    {
        WorkerState { running: false, stopping: false }
    }

    /// The worker has subscribed and announced its start.
    pub fn mark_running(&mut self)
        ensures
            final(self).spec_running(),
            final(self).spec_stopping() == old(self).spec_stopping(),
    {
        self.running = true;
    }

    /// Whether the read loop goes on.
    pub fn is_running(&self) -> (r: bool)
        ensures
            r == self.spec_running(),
    {
        self.running
    }

    /// A request to stop: the first one stops the loop and returns `true`, so
    /// that the caller closes the subscription; later ones change nothing and
    /// return `false`.
    pub fn request_stop(&mut self) -> (r: bool)
        ensures
            r == !old(self).spec_stopping(),
            final(self).spec_stopping(),
            r ==> !final(self).spec_running(),
            !r ==> final(self).spec_running() == old(self).spec_running(),
    {
        if self.stopping {
            return false;
        }
        self.stopping = true;
        self.running = false;
        true
    }
}

} // verus!
