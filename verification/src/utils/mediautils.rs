//! Track descriptions: the title line of a track, its play position and length,
//! and the progress bar of the "now playing" message.
use vstd::prelude::*;

use crate::text::{padded2, push_padded2, starts_with_seq, starts_with_str};
use crate::voice_states::VoiceStates;

verus! {

/// What the bot reads of a track's metadata.
#[derive(Clone, Debug)]
pub struct TrackMetadata {
    pub title: Option<String>,
    pub artist: Option<String>,
    pub channel: Option<String>,
    pub source_url: Option<String>,
}

/// A track's metadata as text.
pub struct TrackMetadataView {
    pub title: Option<Seq<char>>,
    pub artist: Option<Seq<char>>,
    pub channel: Option<Seq<char>>,
    pub source_url: Option<Seq<char>>,
}

impl View for TrackMetadata {
    type V = TrackMetadataView;

    open spec fn view(&self) -> TrackMetadataView {
        TrackMetadataView {
            title: crate::utils::msgutils::opt_text(self.title),
            artist: crate::utils::msgutils::opt_text(self.artist),
            channel: crate::utils::msgutils::opt_text(self.channel),
            source_url: crate::utils::msgutils::opt_text(self.source_url),
        }
    }
}

/// The word shown for a missing title or artist.
pub open spec fn unknown_text() -> Seq<char> {
    seq!['U', 'n', 'k', 'n', 'o', 'w', 'n']
}

/// The text of `o`, or "Unknown".
pub open spec fn or_unknown(o: Option<Seq<char>>) -> Seq<char> {
    match o {
        Some(s) => s,
        None => unknown_text(),
    }
}

/// The separator between artist and title: " - ".
pub open spec fn dash() -> Seq<char> {
    seq![' ', '-', ' ']
}

/// Who is credited for a track: the channel (as on YouTube), else the artist, else "Unknown".
pub open spec fn credited(m: TrackMetadataView) -> Seq<char> {
    match m.channel {
        Some(c) => c,
        None => or_unknown(m.artist),
    }
}

/// The title shown next to `artist`: `title` without a leading "`artist` - ".
pub open spec fn shown_title(title: Seq<char>, artist: Seq<char>) -> Seq<char> {
    let prefix = artist + dash();
    if starts_with_seq(title, prefix) {
        title.subrange(prefix.len() as int, title.len() as int)
    } else {
        title
    }
}

/// The link that names a track: "[artist - title](url)".
pub open spec fn title_string(m: TrackMetadataView) -> Seq<char> {
    let artist = credited(m);
    seq!['['] + artist + dash() + shown_title(or_unknown(m.title), artist) + seq![']', '(']
        + m.source_url->0 + seq![')']
}

fn unknown_str() -> (s: &'static str)
    ensures
        s@ == unknown_text(),
{
    proof {
        reveal_strlit("Unknown");
    }
    "Unknown"
}

fn text_or_unknown(o: &Option<String>) -> (s: &str)
    ensures
        s@ == or_unknown(crate::utils::msgutils::opt_text(*o)),
{
    match o {
        Some(t) => t.as_str(),
        None => unknown_str(),
    }
}

/// Builds the link that names a track: its credited artist (channel, else artist,
/// else "Unknown"), its title (else "Unknown") without a repeated "artist - " in
/// front, and its source URL.
pub fn construct_title_string(metadata: &TrackMetadata) -> (s: String)
    requires
        metadata.source_url is Some,
    ensures
        s@ == title_string(metadata@),
{
    let title = text_or_unknown(&metadata.title);
    let artist: &str = match &metadata.channel {
        Some(c) => c.as_str(),
        None => text_or_unknown(&metadata.artist),
    };
    let url: &str = metadata.source_url.as_ref().unwrap().as_str();
    proof {
        reveal_strlit(" - ");
        reveal_strlit("[");
        reveal_strlit("](");
        reveal_strlit(")");
    }
    let mut prefix = String::from_str(artist);
    prefix.append(" - ");
    let mut s = String::from_str("[");
    s.append(artist);
    s.append(" - ");
    let ghost shown = shown_title(title@, artist@);
    assert(prefix@ == artist@ + dash());
    if starts_with_str(title, prefix.as_str()) {
        let rest = title.substring_char(prefix.as_str().unicode_len(), title.unicode_len());
        assert(rest@ == shown);
        s.append(rest);
    } else {
        s.append(title);
    }
    s.append("](");
    s.append(url);
    s.append(")");
    assert(s@ =~= title_string(metadata@));
    s
}

/// A play time as `{:02}:{:02}` minutes and seconds.
pub open spec fn clock(secs: nat) -> Seq<char> {
    padded2(secs / 60) + seq![':'] + padded2(secs % 60)
}

/// Appends `secs` as minutes and seconds; zero seconds read "00:00".
pub fn push_clock(out: &mut String, secs: u64)
    ensures
        final(out)@ == old(out)@ + clock(secs as nat),
{
    proof {
        reveal_strlit("00:00");
        reveal_strlit(":");
    }
    match secs {
        0 => {
            out.append("00:00");
            proof {
                assert(crate::text::decimal(0) == seq!['0']);
                assert(clock(0) =~= seq!['0', '0', ':', '0', '0']);
            }
        },
        _ => {
            push_padded2(out, secs / 60);
            out.append(":");
            push_padded2(out, secs % 60);
        },
    }
}

/// The width of the progress bar.
pub open spec fn bar_width() -> nat {
    20
}

/// A progress bar with `done` of its twenty cells filled: `done` '#' then '='.
pub open spec fn bar(done: nat) -> Seq<char> {
    Seq::new(done, |i: int| '#') + Seq::new((bar_width() - done) as nat, |i: int| '=')
}

/// Appends the progress bar with `done` cells filled.
pub fn push_progress_bar(out: &mut String, done: usize)
    requires
        done <= 20,
    ensures
        final(out)@ == old(out)@ + bar(done as nat),
{
    proof {
        reveal_strlit("#");
        reveal_strlit("=");
    }
    let ghost start = out@;
    let mut i: usize = 0;
    while i < done
        invariant
            i <= done <= 20,
            out@ == start + Seq::new(i as nat, |k: int| '#'),
        decreases done - i,
    {
        proof {
            reveal_strlit("#");
        }
        out.append("#");
        i = i + 1;
        assert(out@ =~= start + Seq::new(i as nat, |k: int| '#'));
    }
    let ghost mid = out@;
    while i < 20
        invariant
            done <= i <= 20,
            mid == start + Seq::new(done as nat, |k: int| '#'),
            out@ == mid + Seq::new((i - done) as nat, |k: int| '='),
        decreases 20 - i,
    {
        proof {
            reveal_strlit("=");
        }
        out.append("=");
        i = i + 1;
        assert(out@ =~= mid + Seq::new((i - done) as nat, |k: int| '='));
    }
    assert(out@ =~= start + bar(done as nat));
}

/// The "now playing" text: "**[artist - title](url)**", a new line, then
/// "position / length **`[bar]`**".
pub open spec fn np_text(m: TrackMetadataView, length_secs: nat, position_secs: nat, done: nat) -> Seq<char> {
    seq!['*', '*'] + title_string(m) + seq!['*', '*', '\n'] + clock(position_secs) + seq![' ', '/', ' ']
        + clock(length_secs) + seq![' ', '*', '*', '`', '['] + bar(done) + seq![']', '`', '*', '*']
}

/// Builds the "now playing" text of a track from its metadata, its length and
/// play position in whole seconds, and the number of filled cells of its progress
/// bar (twenty times the played fraction, rounded down).
pub fn construct_np_msg(metadata: &TrackMetadata, length_secs: u64, position_secs: u64, progress: usize) -> (s: String)
    requires
        metadata.source_url is Some,
        progress <= 20,
    ensures
        s@ == np_text(metadata@, length_secs as nat, position_secs as nat, progress as nat),
{
    proof {
        reveal_strlit("**");
        reveal_strlit("**\n");
        reveal_strlit(" / ");
        reveal_strlit(" **`[");
        reveal_strlit("]`**");
    }
    let title = construct_title_string(metadata);
    let mut s = String::from_str("**");
    s.append(title.as_str());
    s.append("**\n");
    push_clock(&mut s, position_secs);
    s.append(" / ");
    push_clock(&mut s, length_secs);
    s.append(" **`[");
    push_progress_bar(&mut s, progress);
    s.append("]`**");
    assert(s@ =~= np_text(metadata@, length_secs as nat, position_secs as nat, progress as nat));
    s
}

/// The voice channel that `user` is in, read from the guild's voice states;
/// the user must have a voice state in the guild.
pub fn get_voice_channel_of_user(states: &VoiceStates, user: u64) -> (r: Option<u64>)
    requires
        states@.contains_key(user),
    ensures
        r == states@[user],
{
    match states.get(user) {
        Some(channel) => channel,
        None => None,
    }
}

/// The progress bar always has twenty cells, whatever part of them is filled.
pub proof fn law_bar_has_twenty_cells(done: nat)
    requires
        done <= 20,
    ensures
        bar(done).len() == 20,
        forall|i: int| 0 <= i < done ==> #[trigger] bar(done)[i] == '#',
        forall|i: int| done <= i < 20 ==> #[trigger] bar(done)[i] == '=',
{
}

/// A track's link never repeats its credit: when the title already begins with
/// "artist - ", the shown title is the rest, and credit, dash and shown title
/// together give back the title.
pub proof fn law_title_credit_not_repeated(title: Seq<char>, artist: Seq<char>)
    ensures
        starts_with_seq(title, artist + dash()) ==> artist + dash() + shown_title(title, artist) == title,
        !starts_with_seq(title, artist + dash()) ==> shown_title(title, artist) == title,
{
    let prefix = artist + dash();
    if starts_with_seq(title, prefix) {
        assert(prefix + title.subrange(prefix.len() as int, title.len() as int) =~= title);
    }
}

/// A track link: "[credit - shown](url)".
pub open spec fn link_text(credit: Seq<char>, shown: Seq<char>, url: Seq<char>) -> Seq<char> {
    seq!['['] + credit + seq![' ', '-', ' '] + shown + seq![']', '('] + url + seq![')']
}

/// `shown` is `title` with one leading "credit - " taken off when the title begins
/// with it, and the whole title otherwise.
pub open spec fn strips_one_credit(title: Seq<char>, credit: Seq<char>, shown: Seq<char>) -> bool {
    if starts_with_seq(title, credit + seq![' ', '-', ' ']) {
        credit + seq![' ', '-', ' '] + shown == title
    } else {
        shown == title
    }
}

/// The name a track is credited with, from its fields: the channel when it has one,
/// else the artist, else "Unknown".
pub open spec fn credit_of(m: TrackMetadataView) -> Seq<char> {
    match m.channel {
        Some(c) => c,
        None => match m.artist {
            Some(a) => a,
            None => unknown_text(),
        },
    }
}

/// The title a track is shown with, from its fields: its title, else "Unknown".
pub open spec fn title_of(m: TrackMetadataView) -> Seq<char> {
    match m.title {
        Some(t) => t,
        None => unknown_text(),
    }
}

/// A track's link credits its channel (else its artist, else "Unknown"), shows its
/// title with one leading "credit - " taken off, and points at its source URL.
pub proof fn law_track_link(m: TrackMetadataView)
    requires
        m.source_url is Some,
    ensures
        exists|shown: Seq<char>|
            title_string(m) == link_text(credit_of(m), shown, m.source_url->0)
            && #[trigger] strips_one_credit(title_of(m), credit_of(m), shown),
{
    let shown = shown_title(or_unknown(m.title), credited(m));
    law_title_credit_not_repeated(or_unknown(m.title), credited(m));
    assert(credit_of(m) == credited(m));
    assert(title_of(m) == or_unknown(m.title));
    assert(title_string(m) =~= link_text(credit_of(m), shown, m.source_url->0));
    assert(strips_one_credit(title_of(m), credit_of(m), shown));
}

/// The "now playing" text opens with "**", the track's link (channel, else artist,
/// else "Unknown" as credit; the title with one leading "credit - " taken off; the
/// source URL), then "**" and a new line.
pub proof fn law_np_text_opens_with_link(m: TrackMetadataView, length_secs: nat, position_secs: nat, done: nat)
    requires
        m.source_url is Some,
    ensures
        exists|shown: Seq<char>|
            #[trigger] strips_one_credit(title_of(m), credit_of(m), shown) && {
                let head = seq!['*', '*'] + link_text(credit_of(m), shown, m.source_url->0) + seq!['*', '*', '\n'];
                np_text(m, length_secs, position_secs, done).len() >= head.len()
                    && np_text(m, length_secs, position_secs, done).take(head.len() as int) == head
            },
{
    let shown = shown_title(or_unknown(m.title), credited(m));
    law_title_credit_not_repeated(or_unknown(m.title), credited(m));
    assert(credit_of(m) == credited(m));
    assert(title_of(m) == or_unknown(m.title));
    let head = seq!['*', '*'] + link_text(credit_of(m), shown, m.source_url->0) + seq!['*', '*', '\n'];
    assert(title_string(m) =~= link_text(credit_of(m), shown, m.source_url->0));
    assert(np_text(m, length_secs, position_secs, done).take(head.len() as int) =~= head);
    assert(strips_one_credit(title_of(m), credit_of(m), shown));
}

} // verus!
