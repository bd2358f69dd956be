//! The bot's shared state and what it does with the events the gateway delivers.

use vstd::prelude::*;
use std::collections::HashSet;
use crate::reply::Attachment;

verus! {

broadcast use vstd::std_specs::hash::group_hash_axioms;

/// What the bot answers to a message in one of its chat threads.
pub const CHAT_REPLY: &'static str = "mordo";

/// The state shared by all commands and events: the picture that the `gimper`
/// command sends, and the ids of the channels that are the bot's chat threads.
#[derive(Debug)]
pub struct Data {
    pub gimper_attachment: Attachment,
    pub chat_threads: HashSet<u64>,
}

impl Data {
    /// The state at start-up: the given picture and no chat threads yet.
    pub fn new(gimper_attachment: Attachment) -> (data: Data)
        ensures
            data.gimper_attachment == gimper_attachment,
            data.chat_threads@ == Set::<u64>::empty(),
    {
        Data { gimper_attachment, chat_threads: HashSet::new() }
    }
}

/// An event from the gateway, as far as the bot looks at it.
#[derive(Debug, Clone, Copy, PartialEq, Eq, Structural)]
pub enum BotEvent {
    /// A new message by `author_id` in channel `channel_id`.
    Message { author_id: u64, channel_id: u64 },
    /// Any other event.
    Other,
}

/// What to do about an event.
#[derive(Debug)]
pub enum EventAction {
    Ignore,
    /// Reply to the message with this text.
    Reply(String),
}

/// Whether the bot answers `event`, seen by the bot whose own user id is `bot_user_id`:
/// a message by someone else in one of its chat threads.
pub open spec fn answers(chat_threads: Set<u64>, bot_user_id: u64, event: BotEvent) -> bool {
    event matches BotEvent::Message { author_id, channel_id }
        && author_id != bot_user_id && chat_threads.contains(channel_id)
}

/// Handles an event: a message by someone other than the bot, in one of the bot's chat
/// threads, is answered with "mordo"; everything else is left alone.
pub fn event_handler(data: &Data, bot_user_id: u64, event: &BotEvent) -> (action: EventAction)
    ensures
        action is Reply <==> answers(data.chat_threads@, bot_user_id, *event),
        action matches EventAction::Reply(text) ==> text@ == CHAT_REPLY@,
        action matches EventAction::Reply(text) ==> text@ == "mordo"@,
        *event matches BotEvent::Message { author_id, channel_id } ==> (action is Reply <==> (
        author_id != bot_user_id && data.chat_threads@.contains(channel_id))),
        *event is Other ==> action is Ignore,
{
    match event {
        BotEvent::Message { author_id, channel_id } => {
            if *author_id == bot_user_id {
                return EventAction::Ignore;
            }
            if !data.chat_threads.contains(channel_id) {
                return EventAction::Ignore;
            }
            EventAction::Reply(CHAT_REPLY.to_string())
        },
        BotEvent::Other => EventAction::Ignore,
    }
}

/// In the state at start-up, with no chat threads, the bot answers no event at all.
pub proof fn lemma_fresh_state_answers_nothing(bot_user_id: u64, event: BotEvent)
    ensures
        !answers(Set::<u64>::empty(), bot_user_id, event),
{
}

/// Everyone but the bot is answered: every message in one of the chat threads whose
/// author is not the bot itself is answered, whatever the two ids are; the bot's own
/// messages are the only ones in a chat thread that it leaves alone.
pub proof fn lemma_answers_everyone_else(
    chat_threads: Set<u64>,
    bot_user_id: u64,
    author_id: u64,
    channel_id: u64,
)
    requires
        chat_threads.contains(channel_id),
    ensures
        answers(chat_threads, bot_user_id, BotEvent::Message { author_id, channel_id })
            <==> author_id != bot_user_id,
{
}

/// The bot never answers its own messages, whatever its chat threads.
pub proof fn lemma_never_answers_itself(chat_threads: Set<u64>, bot_user_id: u64, channel_id: u64)
    ensures
        !answers(chat_threads, bot_user_id, BotEvent::Message { author_id: bot_user_id, channel_id }),
{
}

} // verus!
