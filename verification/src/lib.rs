//! Core logic of a WhatsApp automation worker: a model of the JSON payloads
//! that arrive over Redis pub/sub, the message view built from them, the
//! requests sent to the GoWa HTTP API, and the state kept by the subscriber.
pub mod text;
pub mod json;
pub mod message;
pub mod settings;
pub mod gowa_api;
pub mod events;
pub mod client;
pub mod pubsub;
pub mod bot;
