//! The messages the bot sends: an embed with a title, a description, a colour,
//! an optional image, and optionally the message it answers.
use vstd::prelude::*;

verus! {

/// The message a reply points back to: its id, its channel and its guild.
#[derive(Clone, Copy, Debug, PartialEq, Eq, Structural)]
pub struct MessageRef {
    pub message_id: u64,
    pub channel_id: u64,
    pub guild_id: Option<u64>,
}

/// An embed message ready to be sent.
#[derive(Clone, Debug)]
pub struct Embed {
    pub title: String,
    pub description: String,
    pub color: i32,
    pub image: Option<String>,
    pub reference: Option<MessageRef>,
}

/// What an embed holds, as text and numbers.
pub struct EmbedView {
    pub title: Seq<char>,
    pub description: Seq<char>,
    pub color: i32,
    pub image: Option<Seq<char>>,
    pub reference: Option<MessageRef>,
}

/// The text of an optional string.
pub open spec fn opt_text(o: Option<String>) -> Option<Seq<char>> {
    match o {
        Some(s) => Some(s@),
        None => None,
    }
}

impl View for Embed {
    type V = EmbedView;

    open spec fn view(&self) -> EmbedView {
        EmbedView {
            title: self.title@,
            description: self.description@,
            color: self.color,
            image: opt_text(self.image),
            reference: self.reference,
        }
    }
}

/// The embed with the given parts.
pub open spec fn embed_of(
    title: Seq<char>,
    description: Seq<char>,
    color: i32,
    reference: Option<MessageRef>,
    image: Option<Seq<char>>,
) -> EmbedView {
    EmbedView { title, description, color, image, reference }
}

/// Builds an embed message with a title, a description and a colour, replying to
/// `reference_message` when one is given and showing `image` when one is given.
pub fn generate_embed(
    title: String,
    description: String,
    color: i32,
    reference_message: Option<MessageRef>,
    image: Option<&str>,
) -> (e: Embed)
    ensures
        e@ == embed_of(
            title@,
            description@,
            color,
            reference_message,
            match image {
                Some(s) => Some(s@),
                None => None,
            },
        ),
{
    let image = match image {
        Some(s) => Some(String::from_str(s)),
        None => None,
    };
    Embed { title, description, color, image, reference: reference_message }
}

} // verus!
