//! The replies and decisions of the guild commands: join, leave and play.
use vstd::prelude::*;

use crate::links::{parses_as_url, url_parses};
use crate::palette;
use crate::text::{channel_mention, contains_seq, contains_str, decimal, join_words, joined, push_channel_mention, push_decimal};
use crate::utils::mediautils::{construct_title_string, title_string, TrackMetadata, TrackMetadataView};
use crate::utils::msgutils::{embed_of, Embed, EmbedView, MessageRef};

pub mod media;
pub mod voice;

verus! {

/// What a play request comes to: a reply and nothing more, a link to play, or a
/// search to run.
#[derive(Clone, Debug)]
pub enum PlayPlan {
    Reply(Embed),
    PlayUrl(String),
    PlaySearch(String),
}

/// A play plan as text.
pub enum PlayPlanView {
    Reply(EmbedView),
    PlayUrl(Seq<char>),
    PlaySearch(Seq<char>),
}

impl View for PlayPlan {
    type V = PlayPlanView;

    open spec fn view(&self) -> PlayPlanView {
        match self {
            PlayPlan::Reply(e) => PlayPlanView::Reply(e@),
            PlayPlan::PlayUrl(u) => PlayPlanView::PlayUrl(u@),
            PlayPlan::PlaySearch(q) => PlayPlanView::PlaySearch(q@),
        }
    }
}

/// The answer to "play" with no argument.
pub open spec fn play_usage_embed(reference: MessageRef) -> EmbedView {
    embed_of("Bruh"@, "U a stupid hoe. It go `bo.play <query|url|file>`"@, palette::RED, Some(reference), None)
}

/// The answer to "play file" without an attachment.
pub open spec fn missing_file_embed(reference: MessageRef) -> EmbedView {
    embed_of("???????????????????????"@, "Where's the file tho"@, palette::RED, Some(reference), None)
}

/// What "play" does with its raw arguments `args`, the URL of the message's first
/// attachment, and whether the first argument is a URL: no argument gets the usage
/// reply; "file" or "f" plays the attachment (or complains that there is none); a
/// URL is played as given; anything else is searched for, all arguments joined by
/// spaces.
pub open spec fn play_plan(
    args: Seq<Seq<char>>,
    attachment_url: Option<Seq<char>>,
    first_is_url: bool,
    reference: MessageRef,
) -> PlayPlanView {
    if args.len() == 0 {
        PlayPlanView::Reply(play_usage_embed(reference))
    } else if args[0] == "file"@ || args[0] == "f"@ {
        match attachment_url {
            Some(u) => PlayPlanView::PlayUrl(u),
            None => PlayPlanView::Reply(missing_file_embed(reference)),
        }
    } else if first_is_url {
        PlayPlanView::PlayUrl(args[0])
    } else {
        PlayPlanView::PlaySearch(joined(args, seq![' ']))
    }
}

fn usage_reply(reference: MessageRef) -> (e: Embed)
    ensures
        e@ == play_usage_embed(reference),
{
    Embed {
        title: String::from_str("Bruh"),
        description: String::from_str("U a stupid hoe. It go `bo.play <query|url|file>`"),
        color: palette::RED,
        image: None,
        reference: Some(reference),
    }
}

/// Decides a play request, given whether its first argument parses as a URL.
pub fn plan_play_given(
    args: &Vec<String>,
    attachment_url: Option<String>,
    first_is_url: bool,
    reference: MessageRef,
) -> (p: PlayPlan)
    ensures
        p@ == play_plan(
            args.deep_view(),
            crate::utils::msgutils::opt_text(attachment_url),
            first_is_url,
            reference,
        ),
{
    if args.len() == 0 {
        return PlayPlan::Reply(usage_reply(reference));
    }
    let first = args[0].as_str();
    assert(first@ == args.deep_view()[0]);
    proof {
        reveal_strlit("file");
        reveal_strlit("f");
    }
    let is_file = crate::text::equals_str(first, "file") || crate::text::equals_str(first, "f");
    if is_file {
        match attachment_url {
            Some(u) => PlayPlan::PlayUrl(u),
            None => PlayPlan::Reply(Embed {
                title: String::from_str("???????????????????????"),
                description: String::from_str("Where's the file tho"),
                color: palette::RED,
                image: None,
                reference: Some(reference),
            }),
        }
    } else if first_is_url {
        PlayPlan::PlayUrl(String::from_str(first))
    } else {
        PlayPlan::PlaySearch(join_words(args))
    }
}

/// Decides a play request from its raw arguments and the URL of the message's first
/// attachment, asking the `url` crate whether the first argument is a URL.
pub fn plan_play(args: &Vec<String>, attachment_url: Option<String>, reference: MessageRef) -> (p: PlayPlan)
    ensures
        p@ == play_plan(
            args.deep_view(),
            crate::utils::msgutils::opt_text(attachment_url),
            args.len() > 0 && url_parses(args.deep_view()[0]),
            reference,
        ),
{
    let first_is_url = if args.len() > 0 {
        assert(args[0]@ == args.deep_view()[0]);
        parses_as_url(args[0].as_str())
    } else {
        false
    };
    plan_play_given(args, attachment_url, first_is_url, reference)
}

/// The image shown when the bot is told off.
pub open spec fn spank_image() -> Seq<char> {
    "https://i.imgur.com/aofzYb8.png"@
}

/// The embed sent when the bot is told off on leaving.
pub open spec fn told_off_embed(color: i32, reference: MessageRef) -> EmbedView {
    embed_of(":("@, "nobody spanks t-bo!"@, color, Some(reference), Some(spank_image()))
}

/// The reply to "leave": the told-off embed, in `color`, exactly when the message
/// `content` contains "fuckoff"; otherwise nothing (the bot only reacts).
pub fn leave_reply(content: &str, color: i32, reference: MessageRef) -> (r: Option<Embed>)
    ensures
        r is Some <==> contains_seq(content@, "fuckoff"@),
        r matches Some(e) ==> e@ == told_off_embed(color, reference),
{
    if contains_str(content, "fuckoff") {
        Some(Embed {
            title: String::from_str(":("),
            description: String::from_str("nobody spanks t-bo!"),
            color,
            image: Some(String::from_str("https://i.imgur.com/aofzYb8.png")),
            reference: Some(reference),
        })
    } else {
        None
    }
}

/// The greeting after joining `voice_channel` with notifications bound to
/// `bound_channel`: "Hi", "What's up <#voice>. Notifications are bound to <#bound>",
/// in green.
pub fn join_greeting(voice_channel: u64, bound_channel: u64, reference: MessageRef) -> (e: Embed)
    ensures
        e@ == embed_of(
            "Hi"@,
            "What's up "@ + channel_mention(voice_channel as nat) + ". Notifications are bound to "@
                + channel_mention(bound_channel as nat),
            palette::GREEN,
            Some(reference),
            None,
        ),
{
    let mut d = String::from_str("What's up ");
    push_channel_mention(&mut d, voice_channel);
    d.append(". Notifications are bound to ");
    push_channel_mention(&mut d, bound_channel);
    Embed { title: String::from_str("Hi"), description: d, color: palette::GREEN, image: None, reference: Some(reference) }
}

/// The answer to "play" from someone in no voice channel while the bot is in none.
pub fn not_in_voice_embed(reference: MessageRef) -> (e: Embed)
    ensures
        e@ == embed_of("Error"@, "You are not in a voice channel"@, palette::RED, Some(reference), None),
{
    Embed {
        title: String::from_str("Error"),
        description: String::from_str("You are not in a voice channel"),
        color: palette::RED,
        image: None,
        reference: Some(reference),
    }
}

/// The text announcing a queued track: "Skewered **[artist - title](url)**", a new
/// line, then " Position on stick: `n`" with the queue length `n`.
pub open spec fn enqueued_text(last: TrackMetadataView, queue_len: nat) -> Seq<char> {
    "Skewered **"@ + title_string(last) + "**\n Position on stick: `"@ + decimal(queue_len) + "`"@
}

/// The confirmation after queueing: it names the last track of the queue and the
/// queue's length, in green.
pub fn enqueued_embed(last: &TrackMetadata, queue_len: usize, reference: MessageRef) -> (e: Embed)
    requires
        last.source_url is Some,
    ensures
        e@ == embed_of(
            "I put food on sticks 😎"@,
            enqueued_text(last@, queue_len as nat),
            palette::GREEN,
            Some(reference),
            None,
        ),
{
    let mut d = String::from_str("Skewered **");
    let t = construct_title_string(last);
    d.append(t.as_str());
    d.append("**\n Position on stick: `");
    push_decimal(&mut d, queue_len as u64);
    d.append("`");
    Embed {
        title: String::from_str("I put food on sticks 😎"),
        description: d,
        color: palette::GREEN,
        image: None,
        reference: Some(reference),
    }
}

/// When the first argument is neither "file" nor "f" nor a URL, "play" searches for a
/// query that holds every argument, in order, one space apart: for arguments
/// without spaces, splitting the query at its spaces gives back the arguments.
pub proof fn law_play_search_keeps_every_argument(
    args: Seq<Seq<char>>,
    attachment_url: Option<Seq<char>>,
    reference: MessageRef,
)
    requires
        args.len() > 0,
        args[0] != "file"@,
        args[0] != "f"@,
        forall|i: int| 0 <= i < args.len() ==> crate::text::no_spaces(#[trigger] args[i]),
    ensures
        play_plan(args, attachment_url, false, reference) matches PlayPlanView::PlaySearch(q)
            && crate::text::split_spaces(q) == args,
{
    crate::text::law_split_undoes_join(args);
}

} // verus!
