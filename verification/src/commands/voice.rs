//! The replies and decisions of the voice commands.
use vstd::prelude::*;

use crate::palette;
use crate::text::{channel_mention, push_channel_mention};
use crate::utils::msgutils::{embed_of, Embed, MessageRef};
use crate::voice_states::VoiceStates;

verus! {

/// The voice channel "join" goes to: the one the author is in, if the author has a
/// voice state with a channel.
pub fn join_target(states: &VoiceStates, author: u64) -> (r: Option<u64>)
    ensures
        r == (if states@.contains_key(author) { states@[author] } else { None }),
{
    match states.get(author) {
        Some(channel) => channel,
        None => None,
    }
}

/// The answer to "join" from someone in no voice channel.
pub fn join_missing_embed(reference: MessageRef) -> (e: Embed)
    ensures
        e@ == embed_of("Bruh"@, "Where tf are u"@, palette::RED, Some(reference), None),
{
    Embed {
        title: String::from_str("Bruh"),
        description: String::from_str("Where tf are u"),
        color: palette::RED,
        image: None,
        reference: Some(reference),
    }
}

/// The answer once "join" has tried `channel`: a green greeting naming the channel
/// when `joined`, else a red error.
pub fn join_result_embed(joined: bool, channel: u64, reference: MessageRef) -> (e: Embed)
    ensures
        joined ==> e@ == embed_of(
            "Hi"@,
            "What's up "@ + channel_mention(channel as nat),
            palette::GREEN,
            Some(reference),
            None,
        ),
        !joined ==> e@ == embed_of("Error"@, "Could not join voice channel"@, palette::RED, Some(reference), None),
{
    if joined {
        let mut d = String::from_str("What's up ");
        push_channel_mention(&mut d, channel);
        Embed { title: String::from_str("Hi"), description: d, color: palette::GREEN, image: None, reference: Some(reference) }
    } else {
        Embed {
            title: String::from_str("Error"),
            description: String::from_str("Could not join voice channel"),
            color: palette::RED,
            image: None,
            reference: Some(reference),
        }
    }
}

} // verus!
