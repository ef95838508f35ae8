//! The bot's answer to a message: `done` from this device is confirmed,
//! `ping` is answered with `pong`, and `test` gets a reply that is then edited.
use vstd::prelude::*;
use crate::message::IncomingMessage;
use crate::text::{lowercase, to_lowercase, trim, trim_text};

verus! {

/// What the bot does about a message, in the abstract.
pub enum Reaction {
    Ignore,
    Reply(Seq<char>),
    Send(Seq<char>),
    ReplyThenUpdate(Seq<char>, Seq<char>),
}

/// What the bot does about a message.
#[derive(Debug, PartialEq, Eq)]
pub enum BotAction {
    /// Nothing.
    Ignore,
    /// Reply to the message with this text.
    Reply(String),
    /// Send this text to the message's contact.
    Send(String),
    /// Reply with `first`, then change that reply to `then`.
    ReplyThenUpdate { first: String, then: String },
}

impl View for BotAction {
    type V = Reaction;

    open spec fn view(&self) -> Reaction {
        match self {
            BotAction::Ignore => Reaction::Ignore,
            BotAction::Reply(t) => Reaction::Reply(t@),
            BotAction::Send(t) => Reaction::Send(t@),
            BotAction::ReplyThenUpdate { first, then } => Reaction::ReplyThenUpdate(first@, then@),
        }
    }
}

/// The reaction to a message, given whether it is a group message, its
/// direction and its command (its text in lower case, trimmed).
pub open spec fn spec_reaction(is_group: bool, direction: Seq<char>, command: Seq<char>) -> Reaction {
    if is_group {
        Reaction::Ignore
    } else if direction == "outgoing"@ && command == "done"@ {
        Reaction::Reply("yes"@)
    } else if direction != "incoming"@ {
        Reaction::Ignore
    } else if command == "ping"@ {
        Reaction::Send("pong"@)
    } else if command == "test"@ {
        Reaction::ReplyThenUpdate("processing..."@, "pong"@)
    } else {
        Reaction::Ignore
    }
}

/// A group message is never answered; a message that is not incoming is
/// answered only when it is an outgoing `done`, and then with `yes`.
pub proof fn lemma_reaction_scope(is_group: bool, direction: Seq<char>, command: Seq<char>)
    ensures
        is_group ==> spec_reaction(is_group, direction, command) == Reaction::Ignore,
        direction != "incoming"@ && spec_reaction(is_group, direction, command) != Reaction::Ignore
            ==> direction == "outgoing"@ && command == "done"@ && spec_reaction(
            is_group,
            direction,
            command,
        ) == Reaction::Reply("yes"@),
{
}

/// An incoming message outside a group is answered only when its command is
/// `ping` (with `pong`, sent) or `test` (a reply, then edited); every other
/// command is ignored. A group message is never answered, whatever its direction.
pub proof fn lemma_incoming_commands(command: Seq<char>, direction: Seq<char>)
    ensures
        spec_reaction(false, "incoming"@, command) == (if command == "ping"@ {
            Reaction::Send("pong"@)
        } else if command == "test"@ {
            Reaction::ReplyThenUpdate("processing..."@, "pong"@)
        } else {
            Reaction::Ignore
        }),
        spec_reaction(false, "incoming"@, command) is Send <==> command == "ping"@,
        spec_reaction(false, "incoming"@, command) is ReplyThenUpdate <==> command == "test"@,
        spec_reaction(true, direction, command) == Reaction::Ignore,
        spec_reaction(false, "outgoing"@, command) == (if command == "done"@ {
            Reaction::Reply("yes"@)
        } else {
            Reaction::Ignore
        }),
{
    reveal_strlit("incoming");
    reveal_strlit("outgoing");
    reveal_strlit("ping");
    reveal_strlit("test");
    reveal_strlit("done");
    assert("incoming"@ != "outgoing"@) by {
        assert("incoming"@[0] != "outgoing"@[0]);
    }
    assert("ping"@ != "test"@) by {
        assert("ping"@[0] != "test"@[0]);
    }
}

/// The action for `message`, whose text in lower case is `lowered`.
pub fn action_for_text(message: &IncomingMessage, lowered: &str) -> (r: BotAction)
    ensures
        r@ == spec_reaction(message.is_group, message.spec_direction(), trim(lowered@)),
{
    if message.is_group {
        return BotAction::Ignore;
    }
    let command = trim_text(lowered);
    let direction = message.direction();
    if direction == String::from_str("outgoing") && command == String::from_str("done") {
        return BotAction::Reply(String::from_str("yes"));
    }
    if !(direction == String::from_str("incoming")) {
        return BotAction::Ignore;
    }
    if command == String::from_str("ping") {
        BotAction::Send(String::from_str("pong"))
    } else if command == String::from_str("test") {
        BotAction::ReplyThenUpdate {
            first: String::from_str("processing..."),
            then: String::from_str("pong"),
        }
    } else {
        BotAction::Ignore
    }
}

/// The action for `message`.
pub fn decide_action(message: &IncomingMessage) -> (r: BotAction)
    ensures
        r@ == spec_reaction(
            message.is_group,
            message.spec_direction(),
            trim(lowercase(message.text@)),
        ),
{
    let lowered = to_lowercase(message.text.as_str());
    action_for_text(message, lowered.as_str())
}

} // verus!
