//! Message helpers: filling an embed in place, and the "now playing" text that
//! credits the artist ahead of the title.
use vstd::prelude::*;

use crate::utils::mediautils::{
    bar, clock, dash, or_unknown, push_clock, push_progress_bar, TrackMetadata, TrackMetadataView,
};
use crate::utils::msgutils::{opt_text, Embed, EmbedView, MessageRef};

verus! {

/// Sets the embed of `m` to `title`, `description` and `color` (with no image), and
/// makes it reply to `reference_message` when one is given.
pub fn create_embed_message(
    m: &mut Embed,
    title: &String,
    description: &String,
    color: i32,
    reference_message: Option<MessageRef>,
)
    ensures
        final(m)@ == (EmbedView {
            title: title@,
            description: description@,
            color,
            image: None,
            reference: match reference_message {
                Some(r) => Some(r),
                None => old(m)@.reference,
            },
        }),
{
    if let Some(r) = reference_message {
        m.reference = Some(r);
    }
    m.title = title.clone();
    m.description = description.clone();
    m.color = color;
    m.image = None;
}

/// The "now playing" text crediting the artist first: "[**artist - title**](url)",
/// a new line, then "position / length **`[bar]`**".
pub open spec fn np_text_by_artist(
    m: TrackMetadataView,
    length_secs: nat,
    position_secs: nat,
    done: nat,
) -> Seq<char> {
    seq!['[', '*', '*'] + or_unknown(m.artist) + dash() + or_unknown(m.title) + seq!['*', '*', ']', '(']
        + m.source_url->0 + seq![')', '\n'] + clock(position_secs) + seq![' ', '/', ' ']
        + clock(length_secs) + seq![' ', '*', '*', '`', '['] + bar(done) + seq![']', '`', '*', '*']
}

/// Builds the "now playing" text of a track from its artist (else "Unknown"), its
/// title (else "Unknown"), its source URL, its length and play position in whole
/// seconds, and the number of filled cells of its twenty-cell progress bar.
pub fn construct_np_msg(metadata: &TrackMetadata, length_secs: u64, position_secs: u64, progress: usize) -> (s: String)
    requires
        metadata.source_url is Some,
        progress <= 20,
    ensures
        s@ == np_text_by_artist(metadata@, length_secs as nat, position_secs as nat, progress as nat),
{
    proof {
        reveal_strlit("[**");
        reveal_strlit(" - ");
        reveal_strlit("**](");
        reveal_strlit(")\n");
        reveal_strlit(" / ");
        reveal_strlit(" **`[");
        reveal_strlit("]`**");
        reveal_strlit("Unknown");
    }
    let title: &str = match &metadata.title {
        Some(t) => t.as_str(),
        None => "Unknown",
    };
    let artist: &str = match &metadata.artist {
        Some(a) => a.as_str(),
        None => "Unknown",
    };
    let url: &str = metadata.source_url.as_ref().unwrap().as_str();
    assert(title@ == or_unknown(opt_text(metadata.title)));
    assert(artist@ == or_unknown(opt_text(metadata.artist)));
    let mut s = String::from_str("[**");
    s.append(artist);
    s.append(" - ");
    s.append(title);
    s.append("**](");
    s.append(url);
    s.append(")\n");
    push_clock(&mut s, position_secs);
    s.append(" / ");
    push_clock(&mut s, length_secs);
    s.append(" **`[");
    push_progress_bar(&mut s, progress);
    s.append("]`**");
    assert(s@ =~= np_text_by_artist(metadata@, length_secs as nat, position_secs as nat, progress as nat));
    s
}

} // verus!
