//! Worker settings and how they are read from a snapshot of the environment.
use vstd::prelude::*;
use vstd::utf8::encode_utf8;
use crate::text::{decimal, is_blank, is_blank_text, push_decimal};

verus! {

/// The settings of a worker. The two timing settings, which are fractional
/// seconds, are kept by the program that runs the worker.
#[derive(Debug)]
pub struct Settings {
    pub bot_name: String,
    pub device_id: String,
    pub redis_url: String,
    pub pubsub_channel_name: Option<String>,
    pub pubsub_channel_prefix: String,
    pub gowa_base_url: String,
    pub gowa_device_id: Option<String>,
    pub gowa_send_message_path: String,
    pub gowa_basic_auth_username: Option<String>,
    pub gowa_basic_auth_password: Option<String>,
}

/// Why settings could not be read.
#[derive(Debug, PartialEq, Eq)]
pub enum SettingsError {
    /// `DEVICE_ID` is not set.
    MissingDeviceId,
}

impl SettingsError {
    /// The error's message.
    pub fn message(&self) -> (r: String)
        ensures
            r@ == "DEVICE_ID is required"@,
    {
        String::from_str("DEVICE_ID is required")
    }
}

/// The value of the variable `key` in an environment snapshot (its first binding).
pub open spec fn env_lookup(vars: Seq<(String, String)>, key: Seq<char>) -> Option<Seq<char>>
    decreases vars.len(),
{
    if vars.len() == 0 {
        None
    } else if vars[0].0@ == key {
        Some(vars[0].1@)
    } else {
        env_lookup(vars.drop_first(), key)
    }
}

/// The value of a variable is that of its first binding in the snapshot, and
/// a variable without a binding has no value.
pub proof fn lemma_env_lookup_first(vars: Seq<(String, String)>, key: Seq<char>, i: int)
    ensures
        (0 <= i < vars.len() && vars[i].0@ == key && forall|j: int|
            0 <= j < i ==> #[trigger] vars[j].0@ != key) ==> env_lookup(vars, key) == Some(vars[i].1@),
        (forall|j: int| 0 <= j < vars.len() ==> #[trigger] vars[j].0@ != key) ==> env_lookup(vars, key)
            is None,
    decreases vars.len(),
{
    if vars.len() > 0 {
        let t = vars.drop_first();
        assert forall|j: int| 0 <= j < t.len() implies #[trigger] t[j] == vars[j + 1] by {}
        if i > 0 && 0 <= i < vars.len() && vars[i].0@ == key && (forall|j: int|
            0 <= j < i ==> #[trigger] vars[j].0@ != key) {
            assert(vars[0].0@ != key);
            assert forall|j: int| 0 <= j < i - 1 implies #[trigger] t[j].0@ != key by {
                assert(vars[j + 1].0@ != key);
            }
            lemma_env_lookup_first(t, key, i - 1);
        }
        if forall|j: int| 0 <= j < vars.len() ==> #[trigger] vars[j].0@ != key {
            assert(vars[0].0@ != key);
            assert forall|j: int| 0 <= j < t.len() implies #[trigger] t[j].0@ != key by {
                assert(vars[j + 1].0@ != key);
            }
            lemma_env_lookup_first(t, key, 0);
        }
    }
}

/// The value of `key`, or `default` when it is not set.
pub open spec fn env_text_or(vars: Seq<(String, String)>, key: Seq<char>, default: Seq<char>) -> Seq<
    char,
> {
    match env_lookup(vars, key) {
        Some(v) => v,
        None => default,
    }
}

/// The value of `key` when it is set to something other than whitespace.
pub open spec fn env_text_optional(vars: Seq<(String, String)>, key: Seq<char>) -> Option<
    Seq<char>,
> {
    match env_lookup(vars, key) {
        Some(v) => if is_blank(v) {
            None
        } else {
            Some(v)
        },
        None => None,
    }
}

/// The optional texts behind optional strings.
pub open spec fn opt_text(o: Option<String>) -> Option<Seq<char>> {
    o.deep_view()
}

/// Looks up `key` in an environment snapshot.
pub fn env_var(vars: &Vec<(String, String)>, key: &str) -> (r: Option<String>)
    ensures
        r.deep_view() == env_lookup(vars@, key@),
{
    let k = key.to_owned();
    let mut i: usize = 0;
    assert(vars@.skip(0) =~= vars@);
    while i < vars.len()
        invariant
            k@ == key@,
            i <= vars@.len(),
            env_lookup(vars@, key@) == env_lookup(vars@.skip(i as int), key@),
        decreases vars@.len() - i,
    {
        assert(vars@.skip(i as int)[0] == vars@[i as int]);
        if vars[i].0 == k {
            return Some(vars[i].1.clone());
        }
        assert(vars@.skip(i as int).drop_first() =~= vars@.skip(i + 1));
        i += 1;
    }
    None
}

/// The value of `key`, or `default` when the variable is not set.
pub fn env_or(vars: &Vec<(String, String)>, key: &str, default: &str) -> (r: String)
    ensures
        r@ == env_text_or(vars@, key@, default@),
{
    match env_var(vars, key) {
        Some(v) => v,
        None => default.to_owned(),
    }
}

/// The value of `key`, unless it is unset or only whitespace.
pub fn env_optional(vars: &Vec<(String, String)>, key: &str) -> (r: Option<String>)
    ensures
        r.deep_view() == env_text_optional(vars@, key@),
{
    match env_var(vars, key) {
        Some(v) => if is_blank_text(v.as_str()) {
            None
        } else {
            Some(v)
        },
        None => None,
    }
}

/// Clones an optional string.
pub fn clone_opt(o: &Option<String>) -> (r: Option<String>)
    ensures
        r == *o,
{
    match o {
        Some(s) => Some(s.clone()),
        None => None,
    }
}

impl Clone for Settings {
    fn clone(&self) -> (r: Settings)
        ensures
            r == *self,
    {
        Settings {
            bot_name: self.bot_name.clone(),
            device_id: self.device_id.clone(),
            redis_url: self.redis_url.clone(),
            pubsub_channel_name: clone_opt(&self.pubsub_channel_name),
            pubsub_channel_prefix: self.pubsub_channel_prefix.clone(),
            gowa_base_url: self.gowa_base_url.clone(),
            gowa_device_id: clone_opt(&self.gowa_device_id),
            gowa_send_message_path: self.gowa_send_message_path.clone(),
            gowa_basic_auth_username: clone_opt(&self.gowa_basic_auth_username),
            gowa_basic_auth_password: clone_opt(&self.gowa_basic_auth_password),
        }
    }
}

impl Settings {
    /// The settings that an environment snapshot describes, each variable
    /// falling back to its default; `DEVICE_ID` has none.
    pub open spec fn spec_from_vars(vars: Seq<(String, String)>, s: Settings) -> bool {
        &&& env_lookup(vars, "DEVICE_ID"@) == Some(s.device_id@)
        &&& s.bot_name@ == env_text_or(vars, "BOT_NAME"@, "automation-bot"@)
        &&& s.redis_url@ == env_text_or(vars, "REDIS_URL"@, "redis://localhost:6379/0"@)
        &&& opt_text(s.pubsub_channel_name) == env_text_optional(vars, "PUBSUB_CHANNEL_NAME"@)
        &&& s.pubsub_channel_prefix@ == env_text_or(vars, "PUBSUB_CHANNEL_PREFIX"@, "wa:incoming"@)
        &&& s.gowa_base_url@ == env_text_or(vars, "GOWA_BASE_URL"@, "http://localhost:3000"@)
        &&& opt_text(s.gowa_device_id) == env_text_optional(vars, "GOWA_DEVICE_ID"@)
        &&& s.gowa_send_message_path@ == env_text_or(
            vars,
            "GOWA_SEND_MESSAGE_PATH"@,
            "/send/message"@,
        )
        &&& opt_text(s.gowa_basic_auth_username) == env_text_optional(
            vars,
            "GOWA_BASIC_AUTH_USERNAME"@,
        )
        &&& opt_text(s.gowa_basic_auth_password) == env_text_optional(
            vars,
            "GOWA_BASIC_AUTH_PASSWORD"@,
        )
    }

    /// Reads the settings from a snapshot of the environment (name, value).
    pub fn from_vars(vars: &Vec<(String, String)>) -> (r: Result<Settings, SettingsError>)
        ensures
            r is Err == (env_lookup(vars@, "DEVICE_ID"@) is None),
            r matches Err(e) ==> e == SettingsError::MissingDeviceId,
            r matches Ok(s) ==> Settings::spec_from_vars(vars@, s),
    {
        let device_id = match env_var(vars, "DEVICE_ID") {
            Some(d) => d,
            None => return Err(SettingsError::MissingDeviceId),
        };
        Ok(
            Settings {
                bot_name: env_or(vars, "BOT_NAME", "automation-bot"),
                device_id,
                redis_url: env_or(vars, "REDIS_URL", "redis://localhost:6379/0"),
                pubsub_channel_name: env_optional(vars, "PUBSUB_CHANNEL_NAME"),
                pubsub_channel_prefix: env_or(vars, "PUBSUB_CHANNEL_PREFIX", "wa:incoming"),
                gowa_base_url: env_or(vars, "GOWA_BASE_URL", "http://localhost:3000"),
                gowa_device_id: env_optional(vars, "GOWA_DEVICE_ID"),
                gowa_send_message_path: env_or(vars, "GOWA_SEND_MESSAGE_PATH", "/send/message"),
                gowa_basic_auth_username: env_optional(vars, "GOWA_BASIC_AUTH_USERNAME"),
                gowa_basic_auth_password: env_optional(vars, "GOWA_BASIC_AUTH_PASSWORD"),
            },
        )
    }

    /// The channel to subscribe to: the configured name unless it is blank,
    /// else `<prefix>:<device id>`.
    pub open spec fn spec_pubsub_channel(&self) -> Seq<char> {
        match self.pubsub_channel_name {
            Some(c) => if !is_blank(c@) {
                c@
            } else {
                self.pubsub_channel_prefix@ + ":"@ + self.device_id@
            },
            None => self.pubsub_channel_prefix@ + ":"@ + self.device_id@,
        }
    }

    pub fn resolved_pubsub_channel(&self) -> (r: String)
        ensures
            r@ == self.spec_pubsub_channel(),
    {
        if let Some(channel) = &self.pubsub_channel_name {
            if !is_blank_text(channel.as_str()) {
                return channel.clone();
            }
        }
        let mut s = self.pubsub_channel_prefix.clone();
        s.append(":");
        s.append(self.device_id.as_str());
        s
    }

    /// Each setting read from a snapshot is the variable's value when it is
    /// set, and its default otherwise; the optional ones are absent when unset
    /// or blank. The resulting channel, without a configured name, joins the
    /// prefix read and the device id read.
    pub proof fn lemma_from_vars_values(vars: Seq<(String, String)>, s: Settings)
        requires
            Settings::spec_from_vars(vars, s),
        ensures
            env_lookup(vars, "DEVICE_ID"@) == Some(s.device_id@),
            env_lookup(vars, "BOT_NAME"@) matches Some(v) ==> s.bot_name@ == v,
            env_lookup(vars, "BOT_NAME"@) is None ==> s.bot_name@ == "automation-bot"@,
            env_lookup(vars, "REDIS_URL"@) matches Some(v) ==> s.redis_url@ == v,
            env_lookup(vars, "REDIS_URL"@) is None ==> s.redis_url@ == "redis://localhost:6379/0"@,
            env_lookup(vars, "PUBSUB_CHANNEL_PREFIX"@) matches Some(v) ==> s.pubsub_channel_prefix@ == v,
            env_lookup(vars, "PUBSUB_CHANNEL_PREFIX"@) is None ==> s.pubsub_channel_prefix@
                == "wa:incoming"@,
            env_lookup(vars, "GOWA_BASE_URL"@) matches Some(v) ==> s.gowa_base_url@ == v,
            env_lookup(vars, "GOWA_BASE_URL"@) is None ==> s.gowa_base_url@ == "http://localhost:3000"@,
            env_lookup(vars, "GOWA_SEND_MESSAGE_PATH"@) matches Some(v) ==> s.gowa_send_message_path@
                == v,
            env_lookup(vars, "GOWA_SEND_MESSAGE_PATH"@) is None ==> s.gowa_send_message_path@
                == "/send/message"@,
            env_lookup(vars, "PUBSUB_CHANNEL_NAME"@) matches Some(v) ==> opt_text(
                s.pubsub_channel_name,
            ) == (if is_blank(v) {
                None
            } else {
                Some(v)
            }),
            env_lookup(vars, "PUBSUB_CHANNEL_NAME"@) is None ==> s.pubsub_channel_name is None,
            env_lookup(vars, "GOWA_DEVICE_ID"@) matches Some(v) ==> opt_text(s.gowa_device_id) == (
            if is_blank(v) {
                None
            } else {
                Some(v)
            }),
            env_lookup(vars, "GOWA_DEVICE_ID"@) is None ==> s.gowa_device_id is None,
            env_lookup(vars, "GOWA_BASIC_AUTH_USERNAME"@) matches Some(v) ==> opt_text(
                s.gowa_basic_auth_username,
            ) == (if is_blank(v) {
                None
            } else {
                Some(v)
            }),
            env_lookup(vars, "GOWA_BASIC_AUTH_USERNAME"@) is None ==> s.gowa_basic_auth_username is None,
            env_lookup(vars, "GOWA_BASIC_AUTH_PASSWORD"@) matches Some(v) ==> opt_text(
                s.gowa_basic_auth_password,
            ) == (if is_blank(v) {
                None
            } else {
                Some(v)
            }),
            env_lookup(vars, "GOWA_BASIC_AUTH_PASSWORD"@) is None ==> s.gowa_basic_auth_password is None,
            env_lookup(vars, "PUBSUB_CHANNEL_NAME"@) is None ==> s.spec_pubsub_channel()
                == s.pubsub_channel_prefix@ + ":"@ + s.device_id@,
    {
    }

    /// A configured channel name that is not blank is the channel; otherwise the
    /// channel is the prefix, `:` and the device id. The consumer name is the
    /// bot name, the host name (or `localhost`) and the process id, joined by
    /// `-`. The GoWa device id is the configured one, else the device id.
    pub proof fn lemma_resolved_names(&self, hostname: Option<Seq<char>>, pid: u32)
        ensures
            self.pubsub_channel_name matches Some(c) ==> (!is_blank(c@) ==> self.spec_pubsub_channel()
                == c@),
            (self.pubsub_channel_name matches Some(c) ==> is_blank(c@)) ==> self.spec_pubsub_channel()
                == self.pubsub_channel_prefix@ + ":"@ + self.device_id@,
            self.spec_consumer_name(hostname, pid) == self.bot_name@ + "-"@ + (match hostname {
                Some(h) => h,
                None => "localhost"@,
            }) + "-"@ + decimal(pid as nat),
            crate::text::digits_value(decimal(pid as nat)) == pid,
            self.gowa_device_id matches Some(d) ==> self.spec_gowa_device_id() == d@,
            self.gowa_device_id is None ==> self.spec_gowa_device_id() == self.device_id@,
    {
        crate::text::lemma_decimal(pid as nat);
    }

    /// The channel is never blank: a configured name is used only when it is
    /// not blank, and the fallback holds a `:`.
    pub proof fn lemma_channel_not_blank(&self)
        ensures
            !is_blank(self.spec_pubsub_channel()),
    {
        let fallback = self.pubsub_channel_prefix@ + ":"@ + self.device_id@;
        reveal_strlit(":");
        let i = self.pubsub_channel_prefix@.len() as int;
        assert(fallback[i] == ':');
        assert(!crate::text::is_unicode_whitespace(fallback[i]));
    }

    /// `<bot name>-<host name, or localhost>-<process id>`.
    pub open spec fn spec_consumer_name(&self, hostname: Option<Seq<char>>, pid: u32) -> Seq<char> {
        self.bot_name@ + "-"@ + (match hostname {
            Some(h) => h,
            None => "localhost"@,
        }) + "-"@ + decimal(pid as nat)
    }

    /// The consumer name, given the host name (`HOSTNAME`, if set) and the process id.
    pub fn resolved_consumer_name(&self, hostname: Option<String>, pid: u32) -> (r: String)
        ensures
            r@ == self.spec_consumer_name(hostname.deep_view(), pid),
    {
        let mut s = self.bot_name.clone();
        s.append("-");
        match hostname {
            Some(h) => s.append(h.as_str()),
            None => s.append("localhost"),
        }
        s.append("-");
        push_decimal(&mut s, pid as u64);
        s
    }

    /// The device id to present to the GoWa API.
    pub open spec fn spec_gowa_device_id(&self) -> Seq<char> {
        match self.gowa_device_id {
            Some(d) => d@,
            None => self.device_id@,
        }
    }

    /// The UTF-8 bytes of the device id presented to the GoWa API.
    pub open spec fn spec_gowa_device_id_bytes(&self) -> Seq<u8> {
        encode_utf8(self.spec_gowa_device_id())
    }

    pub fn resolved_gowa_device_id(&self) -> (r: String)
        ensures
            r@ == self.spec_gowa_device_id(),
    {
        match &self.gowa_device_id {
            Some(d) => d.clone(),
            None => self.device_id.clone(),
        }
    }
}

} // verus!
