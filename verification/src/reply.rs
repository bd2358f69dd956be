//! What the bot sends back: plain descriptions of replies, embeds and attachments,
//! which the program around the library turns into the chat framework's builders.

use vstd::prelude::*;

verus! {

/// A file sent along with a reply: its bytes and the name it is shown under.
#[derive(Debug)]
pub struct Attachment {
    pub data: Vec<u8>,
    pub filename: String,
}

/// The side colour of an embed.
#[derive(Debug, Clone, Copy, PartialEq, Eq, Structural)]
pub enum EmbedColour {
    Red,
    Blue,
}

/// A rich-text block of a reply.
#[derive(Debug)]
pub struct Embed {
    pub title: Option<String>,
    pub description: String,
    pub colour: EmbedColour,
}

/// A reply to a command: optional text, an optional embed, an optional file.
#[derive(Debug)]
pub struct Reply {
    pub content: Option<String>,
    pub embed: Option<Embed>,
    pub attachment: Option<Attachment>,
}

/// The text of an optional string, by its view.
pub open spec fn opt_text(s: Option<String>) -> Option<Seq<char>> {
    match s {
        Some(t) => Some(t@),
        None => None,
    }
}

} // verus!
