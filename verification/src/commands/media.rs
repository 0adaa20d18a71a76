//! The replies and decisions of the media commands: play, skip, resume,
//! now playing, seek, queue and repeat.
use vstd::prelude::*;

use crate::commands::{missing_file_embed, play_usage_embed, PlayPlan, PlayPlanView};
use crate::links::{parses_as_url, url_parses};
use crate::palette;
use vstd::string::StringSliceAdditionalSpecFns;
use crate::text::{decimal, equals_str, join_words, joined, parse_u64, parse_u64_from, parse_u64_spec, push_decimal};
use crate::utils::mediautils::{construct_title_string, title_string, TrackMetadata};
use crate::utils::msgutils::{embed_of, Embed, MessageRef};

verus! {

/// What the media "play" does with its raw arguments, the URL of the message's
/// first attachment, and whether the first argument is a URL: no argument gets the
/// usage reply; "file" plays the attachment (or complains that there is none); a
/// URL is played as given; anything else is searched for, all arguments joined by
/// spaces.
pub open spec fn media_play_plan(
    args: Seq<Seq<char>>,
    attachment_url: Option<Seq<char>>,
    first_is_url: bool,
    reference: MessageRef,
) -> PlayPlanView {
    if args.len() == 0 {
        PlayPlanView::Reply(play_usage_embed(reference))
    } else if args[0] == "file"@ {
        match attachment_url {
            Some(u) => PlayPlanView::PlayUrl(u),
            None => PlayPlanView::Reply(missing_file_embed(reference)),
        }
    } else if first_is_url {
        PlayPlanView::PlayUrl(args[0])
    } else {
        PlayPlanView::PlaySearch(joined(args, seq![' ']))
    }
}

/// Decides a media play request, given whether its first argument parses as a URL.
pub fn plan_media_play_given(
    args: &Vec<String>,
    attachment_url: Option<String>,
    first_is_url: bool,
    reference: MessageRef,
) -> (p: PlayPlan)
    ensures
        p@ == media_play_plan(
            args.deep_view(),
            crate::utils::msgutils::opt_text(attachment_url),
            first_is_url,
            reference,
        ),
{
    if args.len() == 0 {
        return PlayPlan::Reply(Embed {
            title: String::from_str("Bruh"),
            description: String::from_str("U a stupid hoe. It go `bo.play <query|url|file>`"),
            color: palette::RED,
            image: None,
            reference: Some(reference),
        });
    }
    let first = args[0].as_str();
    assert(first@ == args.deep_view()[0]);
    if equals_str(first, "file") {
        return match attachment_url {
            Some(u) => PlayPlan::PlayUrl(u),
            None => PlayPlan::Reply(Embed {
                title: String::from_str("???????????????????????"),
                description: String::from_str("Where's the file tho"),
                color: palette::RED,
                image: None,
                reference: Some(reference),
            }),
        };
    }
    if first_is_url {
        PlayPlan::PlayUrl(String::from_str(first))
    } else {
        PlayPlan::PlaySearch(join_words(args))
    }
}

/// Decides a media play request, asking the `url` crate whether the first argument
/// is a URL.
pub fn plan_media_play(args: &Vec<String>, attachment_url: Option<String>, reference: MessageRef) -> (p: PlayPlan)
    ensures
        p@ == media_play_plan(
            args.deep_view(),
            crate::utils::msgutils::opt_text(attachment_url),
            args.len() > 0 && url_parses(args.deep_view()[0]),
            reference,
        ),
{
    let first_is_url = if args.len() > 0 {
        assert(args[0]@ == args.deep_view()[0]);
        parses_as_url(args[0].as_str())
    } else {
        false
    };
    plan_media_play_given(args, attachment_url, first_is_url, reference)
}

/// The answer when the chosen source cannot be opened: a link that cannot be played,
/// or a search that found nothing to play.
pub fn source_failed_embed(was_url: bool, reference: MessageRef) -> (e: Embed)
    ensures
        was_url ==> e@ == embed_of("Yo"@, "I can't play that"@, palette::RED, Some(reference), None),
        !was_url ==> e@ == embed_of("Why'd u send a jpg"@, "That's a jpg bro"@, palette::RED, Some(reference), None),
{
    if was_url {
        Embed {
            title: String::from_str("Yo"),
            description: String::from_str("I can't play that"),
            color: palette::RED,
            image: None,
            reference: Some(reference),
        }
    } else {
        Embed {
            title: String::from_str("Why'd u send a jpg"),
            description: String::from_str("That's a jpg bro"),
            color: palette::RED,
            image: None,
            reference: Some(reference),
        }
    }
}

/// The answer to a successful skip, naming the queue's length.
pub fn skip_embed(queue_len: usize, reference: MessageRef) -> (e: Embed)
    ensures
        e@ == embed_of(
            "Skipp"@,
            "podition on sticc: "@ + decimal(queue_len as nat),
            palette::GREEN,
            Some(reference),
            None,
        ),
{
    let mut d = String::from_str("podition on sticc: ");
    push_decimal(&mut d, queue_len as u64);
    Embed { title: String::from_str("Skipp"), description: d, color: palette::GREEN, image: None, reference: Some(reference) }
}

/// The answer to "resume" when the bot is in no call.
pub fn resume_missing_embed(reference: MessageRef) -> (e: Embed)
    ensures
        e@ == embed_of("??????????????????????????????????????"@, "ᵂʰᵃᵗ"@, palette::RED, Some(reference), None),
{
    Embed {
        title: String::from_str("??????????????????????????????????????"),
        description: String::from_str("ᵂʰᵃᵗ"),
        color: palette::RED,
        image: None,
        reference: Some(reference),
    }
}

/// The answer to "now playing": the track's text under "We bumpin'" when a track
/// plays, else "We are not bumpin'".
pub fn nowplaying_embed(now_playing: Option<String>, reference: MessageRef) -> (e: Embed)
    ensures
        now_playing matches Some(t) ==> e@ == embed_of("We bumpin'"@, t@, palette::BLURPLE, Some(reference), None),
        now_playing is None ==> e@ == embed_of(
            "We are not bumpin'"@,
            "No more choons :("@,
            palette::YELLOW,
            Some(reference),
            None,
        ),
{
    match now_playing {
        Some(t) => Embed {
            title: String::from_str("We bumpin'"),
            description: t,
            color: palette::BLURPLE,
            image: None,
            reference: Some(reference),
        },
        None => Embed {
            title: String::from_str("We are not bumpin'"),
            description: String::from_str("No more choons :("),
            color: palette::YELLOW,
            image: None,
            reference: Some(reference),
        },
    }
}

/// A number read by `u64::from_str`, or zero when it cannot be read.
pub open spec fn parsed_or_zero(b: Seq<u8>) -> nat {
    match parse_u64_spec(b) {
        Some(v) => v as nat,
        None => 0,
    }
}

/// The seconds of a seek argument `b` in the form `mm:ss`: the bytes after the
/// colon that follows the two minute digits, or, without that colon, all bytes
/// after the first two.
pub open spec fn seconds_part(b: Seq<u8>) -> Seq<u8> {
    if b.len() > 2 && b[2] == 58 {
        b.subrange(3, b.len() as int)
    } else {
        b.subrange(2, b.len() as int)
    }
}

/// The seek target, in seconds, of the UTF-8 text `b` in the form `mm:ss`: the first
/// two bytes read as minutes and the seconds part read as seconds, each counting
/// zero when it is not a number.
pub open spec fn seek_total(b: Seq<u8>) -> nat {
    parsed_or_zero(b.subrange(0, 2)) * 60 + parsed_or_zero(seconds_part(b))
}

/// The text can be split after its second byte, and its seek target fits in 64 bits.
pub open spec fn seekable_text(time: &str) -> bool {
    &&& vstd::utf8::is_char_boundary(time.spec_bytes(), 2)
    &&& seek_total(time.spec_bytes()) <= u64::MAX
}

/// The minutes and the seconds of a seek argument that can be split after its
/// second byte.
fn seek_parts(time: &str) -> (r: (u64, u64))
    requires
        vstd::utf8::is_char_boundary(time.spec_bytes(), 2),
    ensures
        r.0 as nat == parsed_or_zero(time.spec_bytes().subrange(0, 2)),
        r.1 as nat == parsed_or_zero(seconds_part(time.spec_bytes())),
{
    let ghost b = time.spec_bytes();
    let (mins, secs) = time.split_at(2);
    let m: u64 = match parse_u64(mins.as_bytes()) {
        Some(v) => v,
        None => 0,
    };
    let sb = secs.as_bytes();
    let from: usize = if sb.len() > 0 && sb[0] == 58 { 1 } else { 0 };
    proof {
        vstd::utf8::encode_utf8_valid_utf8(time@);
        assert(b.len() >= 2);
        assert(sb@ =~= b.subrange(2, b.len() as int));
        if sb@.len() > 0 {
            assert(sb@[0] == b[2]);
        }
        assert(sb@.subrange(from as int, sb@.len() as int) =~= seconds_part(b));
    }
    let s: u64 = match parse_u64_from(sb, from) {
        Some(v) => v,
        None => 0,
    };
    (m, s)
}

/// The seek target of a "seek" argument `mm:ss`, in seconds: minutes times sixty
/// plus seconds.
pub fn seek_seconds(time: &str) -> (secs: u64)
    requires
        seekable_text(time),
    ensures
        secs as nat == seek_total(time.spec_bytes()),
{
    let (m, s) = seek_parts(time);
    m * 60 + s
}

/// The seek target of a "seek" argument, or `None` for an argument that cannot be
/// split after its second byte or whose target does not fit in 64 bits.
pub fn try_seek_seconds(time: &str) -> (r: Option<u64>)
    ensures
        r is Some <==> seekable_text(time),
        r matches Some(secs) ==> secs as nat == seek_total(time.spec_bytes()),
{
    if !time.is_char_boundary(2) {
        return None;
    }
    let (m, s) = seek_parts(time);
    if m > u64::MAX / 60 || s > u64::MAX - m * 60 {
        return None;
    }
    Some(m * 60 + s)
}

/// The answer to "seek" without an argument.
pub fn seek_usage_embed(reference: MessageRef) -> (e: Embed)
    ensures
        e@ == embed_of(
            "Bruh"@,
            "Invalid syntax. Use `bo.seek <time>` where `<time>` is format `mm:ss`."@,
            palette::BLURPLE,
            Some(reference),
            None,
        ),
{
    Embed {
        title: String::from_str("Bruh"),
        description: String::from_str("Invalid syntax. Use `bo.seek <time>` where `<time>` is format `mm:ss`."),
        color: palette::BLURPLE,
        image: None,
        reference: Some(reference),
    }
}

/// The answer to "seek `time`": "Seeked to `time`" when a track plays, else
/// "Nothing is playing.".
pub fn seek_done_embed(time: &str, playing: bool, reference: MessageRef) -> (e: Embed)
    ensures
        playing ==> e@ == embed_of("Seek"@, "Seeked to "@ + time@, palette::BLURPLE, Some(reference), None),
        !playing ==> e@ == embed_of("Bruh"@, "Nothing is playing."@, palette::BLURPLE, Some(reference), None),
{
    if playing {
        let mut d = String::from_str("Seeked to ");
        d.append(time);
        Embed { title: String::from_str("Seek"), description: d, color: palette::BLURPLE, image: None, reference: Some(reference) }
    } else {
        Embed {
            title: String::from_str("Bruh"),
            description: String::from_str("Nothing is playing."),
            color: palette::BLURPLE,
            image: None,
            reference: Some(reference),
        }
    }
}

/// A queued track: its metadata and its unique id.
#[derive(Clone, Debug)]
pub struct QueueTrack {
    pub metadata: TrackMetadata,
    pub uuid: u128,
}

/// The line of the queue listing for the track at position `i` (from zero): its
/// number and link, in bold and marked "Now Bumpin'" when it is the current track.
pub open spec fn queue_line(i: nat, track: QueueTrack, current: u128) -> Seq<char> {
    if track.uuid == current {
        "**"@ + decimal(i + 1) + ". "@ + title_string(track.metadata@) + " - Now Bumpin'**\n"@
    } else {
        decimal(i + 1) + ". "@ + title_string(track.metadata@) + "\n"@
    }
}

/// The lines of the queue listing for `tracks`.
pub open spec fn queue_lines(tracks: Seq<QueueTrack>, current: u128) -> Seq<char>
    decreases tracks.len(),
{
    if tracks.len() == 0 {
        Seq::empty()
    } else {
        queue_lines(tracks.drop_last(), current) + queue_line((tracks.len() - 1) as nat, tracks.last(), current)
    }
}

/// The queue listing: a new line, then one line per track, or "Empty stick. :(" for
/// an empty queue.
pub open spec fn queue_text(tracks: Seq<QueueTrack>, current: Option<u128>) -> Seq<char> {
    if tracks.len() == 0 {
        "\n"@ + "Empty stick. :("@
    } else {
        "\n"@ + queue_lines(tracks, current->0)
    }
}

/// Every track of `tracks` has a source URL.
pub open spec fn all_have_urls(tracks: Seq<QueueTrack>) -> bool {
    forall|i: int| 0 <= i < tracks.len() ==> (#[trigger] tracks[i]).metadata.source_url is Some
}

/// The answer to "queue": the listing of `tracks`, marking the one whose id is
/// `current`, under "Stick".
pub fn queue_embed(tracks: &Vec<QueueTrack>, current: Option<u128>, reference: MessageRef) -> (e: Embed)
    requires
        tracks.len() > 0 ==> current is Some,
        all_have_urls(tracks@),
    ensures
        e@ == embed_of("Stick"@, queue_text(tracks@, current), palette::BLURPLE, Some(reference), None),
{
    let mut content = String::new();
    if tracks.len() > 0 {
        let cur = match current {
            Some(c) => c,
            None => 0,
        };
        let mut i: usize = 0;
        while i < tracks.len()
            invariant
                i <= tracks.len(),
                all_have_urls(tracks@),
                content@ == queue_lines(tracks@.take(i as int), cur),
            decreases tracks.len() - i,
        {
            let track = &tracks[i];
            assert(tracks@.take(i + 1).drop_last() =~= tracks@.take(i as int));
            assert(tracks@[i as int].metadata.source_url is Some);
            let title = construct_title_string(&track.metadata);
            if track.uuid == cur {
                content.append("**");
                push_decimal(&mut content, (i + 1) as u64);
                content.append(". ");
                content.append(title.as_str());
                content.append(" - Now Bumpin'**\n");
            } else {
                push_decimal(&mut content, (i + 1) as u64);
                content.append(". ");
                content.append(title.as_str());
                content.append("\n");
            }
            i = i + 1;
            assert(content@ =~= queue_lines(tracks@.take(i as int), cur));
        }
        assert(tracks@.take(i as int) =~= tracks@);
    } else {
        content.append("Empty stick. :(");
    }
    let mut d = String::from_str("\n");
    d.append(content.as_str());
    Embed { title: String::from_str("Stick"), description: d, color: palette::BLURPLE, image: None, reference: Some(reference) }
}

/// How a track loops: forever, or a given number of more times.
#[derive(Clone, Copy, Debug, PartialEq, Eq, Structural)]
pub enum LoopMode {
    Infinite,
    Finite(usize),
}

/// What "repeat" does.
#[derive(Clone, Debug)]
pub enum RepeatAction {
    /// Stop looping the current track.
    DisableLoop,
    /// Loop the current track forever.
    EnableLoop,
    /// Answer that nothing plays.
    Reply(Embed),
}

/// Decides "repeat" from the loop mode of the current track, if a track plays: a
/// track looping forever stops looping, any other starts looping forever, and with
/// no track the bot offers bagels.
pub fn repeat_action(current: Option<LoopMode>, reference: MessageRef) -> (r: RepeatAction)
    ensures
        current matches Some(m) ==> mode_after(r, m) == mode_after_repeat(m),
        current == Some(LoopMode::Infinite) ==> r is DisableLoop,
        (current matches Some(LoopMode::Finite(_))) ==> r is EnableLoop,
        current is None ==> (r matches RepeatAction::Reply(e) && e@ == embed_of(
            "You guys want some bagels?"@,
            "Buck a piece. I'll sell you the whole stick. $5"@,
            palette::RED,
            Some(reference),
            None,
        )),
{
    match current {
        Some(LoopMode::Infinite) => RepeatAction::DisableLoop,
        Some(LoopMode::Finite(_)) => RepeatAction::EnableLoop,
        None => RepeatAction::Reply(Embed {
            title: String::from_str("You guys want some bagels?"),
            description: String::from_str("Buck a piece. I'll sell you the whole stick. $5"),
            color: palette::RED,
            image: None,
            reference: Some(reference),
        }),
    }
}

/// A seek argument "mm:ss" in digits seeks to mm minutes and ss seconds.
pub proof fn law_seek_reads_mm_ss(b: Seq<u8>)
    requires
        b.len() == 5,
        48 <= b[0] <= 57,
        48 <= b[1] <= 57,
        b[2] == 58,
        48 <= b[3] <= 57,
        48 <= b[4] <= 57,
    ensures
        seek_total(b) == ((b[0] - 48) * 10 + (b[1] - 48)) * 60 + (b[3] - 48) * 10 + (b[4] - 48),
{
    lemma_two_digits(b.subrange(0, 2));
    lemma_two_digits(b.subrange(3, 5));
    assert(seconds_part(b) =~= b.subrange(3, 5));
}

/// Two ASCII digits read as their two-digit number.
proof fn lemma_two_digits(m: Seq<u8>)
    requires
        m.len() == 2,
        48 <= m[0] <= 57,
        48 <= m[1] <= 57,
    ensures
        parsed_or_zero(m) == (m[0] - 48) * 10 + (m[1] - 48),
{
    assert(crate::text::unsigned_digits(m) =~= m);
    assert(m.drop_last() =~= seq![m[0]]);
    assert(seq![m[0]].drop_last() =~= Seq::<u8>::empty());
    assert(crate::text::digits_value(Seq::<u8>::empty()) == 0);
    assert(crate::text::digits_value(seq![m[0]]) == m[0] - 48);
    assert(m.last() == m[1]);
    assert(crate::text::digits_value(m) == (m[0] - 48) * 10 + (m[1] - 48));
    assert(crate::text::all_digits(m));
}

/// The loop mode of a track after a repeat action: disabling sets it to play to its
/// end and stop (`Finite(0)`), enabling sets it to loop forever, and a reply leaves
/// it as it was. These are the modes that songbird's `disable_loop` and
/// `enable_loop` request for a seekable track.
pub open spec fn mode_after(action: RepeatAction, before: LoopMode) -> LoopMode {
    match action {
        RepeatAction::DisableLoop => LoopMode::Finite(0),
        RepeatAction::EnableLoop => LoopMode::Infinite,
        RepeatAction::Reply(_) => before,
    }
}

/// The loop mode a playing track has after "repeat": looping forever stops, any
/// other mode loops forever.
pub open spec fn mode_after_repeat(m: LoopMode) -> LoopMode {
    match m {
        LoopMode::Infinite => LoopMode::Finite(0),
        LoopMode::Finite(_) => LoopMode::Infinite,
    }
}

/// "repeat" is a toggle: twice on a track that loops forever, or that plays to its
/// end, gives back its loop mode.
pub proof fn law_repeat_twice_restores(m: LoopMode)
    requires
        m == LoopMode::Infinite || m == LoopMode::Finite(0),
    ensures
        mode_after_repeat(mode_after_repeat(m)) == m,
{
}

/// When the first argument is neither "file" nor a URL, "play" searches for a
/// query that holds every argument, in order, one space apart: for arguments
/// without spaces, splitting the query at its spaces gives back the arguments.
pub proof fn law_media_play_search_keeps_every_argument(
    args: Seq<Seq<char>>,
    attachment_url: Option<Seq<char>>,
    reference: MessageRef,
)
    requires
        args.len() > 0,
        args[0] != "file"@,
        forall|i: int| 0 <= i < args.len() ==> crate::text::no_spaces(#[trigger] args[i]),
    ensures
        media_play_plan(args, attachment_url, false, reference) matches PlayPlanView::PlaySearch(q)
            && crate::text::split_spaces(q) == args,
{
    crate::text::law_split_undoes_join(args);
}

/// Each line of the queue listing holds the track's link: its channel (else its
/// artist, else "Unknown") as credit, its title with one leading "credit - " taken
/// off, and its source URL; after its number, and marked when it is the current
/// track.
pub proof fn law_queue_line_links_track(i: nat, track: QueueTrack, current: u128)
    requires
        track.metadata.source_url is Some,
    ensures
        exists|shown: Seq<char>|
            #[trigger] crate::utils::mediautils::strips_one_credit(
                crate::utils::mediautils::title_of(track.metadata@),
                crate::utils::mediautils::credit_of(track.metadata@),
                shown,
            ) && queue_line(i, track, current) == (if track.uuid == current {
                "**"@ + decimal(i + 1) + ". "@
            } else {
                decimal(i + 1) + ". "@
            }) + crate::utils::mediautils::link_text(
                crate::utils::mediautils::credit_of(track.metadata@),
                shown,
                track.metadata@.source_url->0,
            ) + (if track.uuid == current {
                " - Now Bumpin'**\n"@
            } else {
                "\n"@
            }),
{
    let m = track.metadata@;
    crate::utils::mediautils::law_track_link(m);
    let shown = choose|shown: Seq<char>|
        title_string(m) == crate::utils::mediautils::link_text(
            crate::utils::mediautils::credit_of(m),
            shown,
            m.source_url->0,
        ) && #[trigger] crate::utils::mediautils::strips_one_credit(
            crate::utils::mediautils::title_of(m),
            crate::utils::mediautils::credit_of(m),
            shown,
        );
    assert(crate::utils::mediautils::strips_one_credit(
        crate::utils::mediautils::title_of(m),
        crate::utils::mediautils::credit_of(m),
        shown,
    ));
}

} // verus!
