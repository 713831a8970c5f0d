//! The one command that the monitor understands: a message that asks to
//! subscribe to its alerts.

use crate::text::starts_with;
use vstd::prelude::*;

verus! {

/// The word with which a message asks to subscribe.
pub const SUBSCRIBE_COMMAND: &'static str = "!subscribe";

/// The reply to a message that asked to subscribe.
pub const SUBSCRIBE_REPLY: &'static str = "Got it! Check you DMs!";

/// Whether a message asks to subscribe: it begins with the command word and
/// was not written by an automated sender.
pub open spec fn asks_to_subscribe(author_is_bot: bool, content: Seq<char>) -> bool {
    !author_is_bot && SUBSCRIBE_COMMAND@.is_prefix_of(content)
}

/// Tells whether the message `content` asks to subscribe its author.
pub fn is_subscribe_command(author_is_bot: bool, content: &str) -> (asks: bool)
    ensures
        asks == asks_to_subscribe(author_is_bot, content@),
{
    !author_is_bot && starts_with(content, SUBSCRIBE_COMMAND)
}

} // verus!
