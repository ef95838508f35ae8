//! The events that the worker hands to its handlers.
use vstd::prelude::*;
use crate::json::JsonObject;
use crate::message::IncomingMessage;
use crate::settings::clone_opt;

verus! {

/// The worker has subscribed and is about to read messages.
#[derive(Debug)]
pub struct StartedEv {
    pub bot_name: String,
    pub device_id: String,
    pub channel_name: String,
}

/// A message arrived on the channel.
#[derive(Debug)]
pub struct MessageEv {
    pub device_id: String,
    pub message: IncomingMessage,
    pub raw: JsonObject,
    pub event_name: String,
    pub channel_name: String,
    pub event_id: Option<String>,
}

impl Clone for StartedEv {
    fn clone(&self) -> (r: StartedEv)
        ensures
            r == *self,
    {
        StartedEv {
            bot_name: self.bot_name.clone(),
            device_id: self.device_id.clone(),
            channel_name: self.channel_name.clone(),
        }
    }
}

impl MessageEv {
    /// The same event: equal fields, the same message and the same payload members.
    pub open spec fn same_as(&self, other: MessageEv) -> bool {
        &&& self.device_id == other.device_id
        &&& self.message.same_as(other.message)
        &&& self.raw@ == other.raw@
        &&& self.event_name == other.event_name
        &&& self.channel_name == other.channel_name
        &&& self.event_id == other.event_id
    }
}

impl Clone for MessageEv {
    fn clone(&self) -> (r: MessageEv)
        ensures
            r.same_as(*self),
    {
        MessageEv {
            device_id: self.device_id.clone(),
            message: self.message.clone(),
            raw: self.raw.deep_copy(),
            event_name: self.event_name.clone(),
            channel_name: self.channel_name.clone(),
            event_id: clone_opt(&self.event_id),
        }
    }
}

} // verus!
