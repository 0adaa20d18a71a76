//! The "in voice" check: whether the author of a command is in the voice channel
//! the bot is connected to.
use vstd::prelude::*;

use crate::palette;
use crate::text::{decimal, push_decimal};
use crate::utils::msgutils::{embed_of, Embed, EmbedView, MessageRef};
use crate::voice_states::VoiceStates;

verus! {

/// Whether `author` has a voice state in `bot_channel`.
pub fn in_same_voice(states: &VoiceStates, bot_channel: u64, author: u64) -> (b: bool)
    ensures
        b == (states@.contains_key(author) && states@[author] == Some(bot_channel)),
{
    match states.get(author) {
        Some(Some(channel)) => channel == bot_channel,
        _ => false,
    }
}

/// The complaint to an author who is outside the bot's voice channel:
/// "Error", "You must be in <channel id> to use commands", in red.
pub open spec fn wrong_channel_view(bot_channel: nat, reference: MessageRef) -> EmbedView {
    embed_of(
        "Error"@,
        "You must be in "@ + decimal(bot_channel) + " to use commands"@,
        palette::RED,
        Some(reference),
        None,
    )
}

/// The complaint when the bot is in no voice call: "Error", "I'm not in a voice
/// channel", in red.
pub open spec fn no_call_view(reference: MessageRef) -> EmbedView {
    embed_of("Error"@, "I'm not in a voice channel"@, palette::RED, Some(reference), None)
}

/// Builds the complaint to an author who is outside the bot's voice channel.
pub fn wrong_channel_embed(bot_channel: u64, reference: MessageRef) -> (e: Embed)
    ensures
        e@ == wrong_channel_view(bot_channel as nat, reference),
{
    let mut d = String::from_str("You must be in ");
    push_decimal(&mut d, bot_channel);
    d.append(" to use commands");
    Embed {
        title: String::from_str("Error"),
        description: d,
        color: palette::RED,
        image: None,
        reference: Some(reference),
    }
}

/// The "in voice" check: a command passes when the bot is in a voice call
/// (`bot_channel`) and the author's voice state is in that channel. Otherwise it is
/// refused with the complaint to send: the bot's channel when it has one, else
/// that the bot is in no call.
pub fn check_in_voice(bot_channel: Option<u64>, states: &VoiceStates, author: u64, reference: MessageRef) -> (r: Result<(), Embed>)
    ensures
        r is Ok <==> (bot_channel matches Some(c) && states@.contains_key(author) && states@[author] == Some(c)),
        bot_channel matches Some(c) ==> (r matches Err(e) ==> e@ == wrong_channel_view(c as nat, reference)),
        bot_channel is None ==> (r matches Err(e) && e@ == no_call_view(reference)),
{
    match bot_channel {
        Some(c) => {
            if in_same_voice(states, c, author) {
                Ok(())
            } else {
                Err(wrong_channel_embed(c, reference))
            }
        },
        None => Err(Embed {
            title: String::from_str("Error"),
            description: String::from_str("I'm not in a voice channel"),
            color: palette::RED,
            image: None,
            reference: Some(reference),
        }),
    }
}

} // verus!
