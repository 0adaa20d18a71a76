use tbo::checks::{check_in_voice, in_same_voice, wrong_channel_embed};
use tbo::commands::media::{
    nowplaying_embed, plan_media_play, plan_media_play_given, queue_embed, repeat_action, resume_missing_embed,
    seek_done_embed, seek_seconds, seek_usage_embed, skip_embed, source_failed_embed, try_seek_seconds, LoopMode,
    QueueTrack, RepeatAction,
};
use tbo::commands::voice::{join_missing_embed, join_result_embed, join_target};
use tbo::commands::{enqueued_embed, join_greeting, leave_reply, not_in_voice_embed, plan_play, plan_play_given, PlayPlan};
use tbo::palette;
use tbo::utils::mediautils::TrackMetadata;
use tbo::utils::msgutils::{Embed, MessageRef};
use tbo::voice_states::VoiceStates;

fn reference() -> MessageRef {
    MessageRef { message_id: 11, channel_id: 22, guild_id: Some(33) }
}

fn args(words: &[&str]) -> Vec<String> {
    words.iter().map(|w| w.to_string()).collect()
}

fn reply(p: PlayPlan) -> Embed {
    match p {
        PlayPlan::Reply(e) => e,
        other => panic!("expected a reply, got {:?}", other),
    }
}

fn track(title: &str, uuid: u128) -> QueueTrack {
    QueueTrack {
        metadata: TrackMetadata {
            title: Some(title.to_string()),
            artist: Some("A".to_string()),
            channel: None,
            source_url: Some(format!("https://t/{}", uuid)),
        },
        uuid,
    }
}

#[test]
fn voice_check_matches_channel_and_author() {
    let mut states = VoiceStates::new();
    states.insert(7, Some(500));
    states.insert(8, None);
    assert!(in_same_voice(&states, 500, 7));
    assert!(!in_same_voice(&states, 501, 7));
    assert!(!in_same_voice(&states, 500, 8));
    assert!(!in_same_voice(&states, 500, 9));
    let e = wrong_channel_embed(500, reference());
    assert_eq!(e.title, "Error");
    assert_eq!(e.description, "You must be in 500 to use commands");
    assert_eq!(e.color, palette::RED);
}

#[test]
fn leave_told_off_only_on_the_word() {
    let e = leave_reply("bo.fuckoff", palette::FUCHSIA, reference()).unwrap();
    assert_eq!(e.title, ":(");
    assert_eq!(e.description, "nobody spanks t-bo!");
    assert_eq!(e.color, palette::FUCHSIA);
    assert_eq!(e.image.as_deref(), Some("https://i.imgur.com/aofzYb8.png"));
    assert_eq!(e.reference, Some(reference()));
    assert!(leave_reply("bo.leave", palette::GREEN, reference()).is_none());
}

#[test]
fn join_replies() {
    let e = join_greeting(100, 200, reference());
    assert_eq!(e.title, "Hi");
    assert_eq!(e.description, "What's up <#100>. Notifications are bound to <#200>");
    assert_eq!(e.color, palette::GREEN);
    let e = join_result_embed(true, 100, reference());
    assert_eq!((e.title.as_str(), e.description.as_str()), ("Hi", "What's up <#100>"));
    let e = join_result_embed(false, 100, reference());
    assert_eq!((e.title.as_str(), e.description.as_str(), e.color), ("Error", "Could not join voice channel", palette::RED));
    let e = join_missing_embed(reference());
    assert_eq!((e.title.as_str(), e.description.as_str()), ("Bruh", "Where tf are u"));
    let e = not_in_voice_embed(reference());
    assert_eq!((e.title.as_str(), e.description.as_str()), ("Error", "You are not in a voice channel"));
    let mut states = VoiceStates::new();
    states.insert(1, Some(9));
    states.insert(2, None);
    assert_eq!(join_target(&states, 1), Some(9));
    assert_eq!(join_target(&states, 2), None);
    assert_eq!(join_target(&states, 3), None);
}

#[test]
fn play_plans() {
    let e = reply(plan_play(&args(&[]), None, reference()));
    assert_eq!((e.title.as_str(), e.description.as_str()), ("Bruh", "U a stupid hoe. It go `bo.play <query|url|file>`"));
    let e = reply(plan_play(&args(&["file"]), None, reference()));
    assert_eq!((e.title.as_str(), e.description.as_str()), ("???????????????????????", "Where's the file tho"));
    match plan_play(&args(&["f"]), Some("https://cdn/a.mp3".to_string()), reference()) {
        PlayPlan::PlayUrl(u) => assert_eq!(u, "https://cdn/a.mp3"),
        other => panic!("{:?}", other),
    }
    match plan_play(&args(&["https://youtu.be/dQw4w9WgXcQ", "extra"]), None, reference()) {
        PlayPlan::PlayUrl(u) => assert_eq!(u, "https://youtu.be/dQw4w9WgXcQ"),
        other => panic!("{:?}", other),
    }
    match plan_play(&args(&["never", "gonna"]), None, reference()) {
        PlayPlan::PlaySearch(q) => assert_eq!(q, "never gonna"),
        other => panic!("{:?}", other),
    }
    match plan_play_given(&args(&["x"]), None, true, reference()) {
        PlayPlan::PlayUrl(u) => assert_eq!(u, "x"),
        other => panic!("{:?}", other),
    }
}

#[test]
fn media_play_plans() {
    match plan_media_play(&args(&["file"]), Some("https://cdn/a.mp3".to_string()), reference()) {
        PlayPlan::PlayUrl(u) => assert_eq!(u, "https://cdn/a.mp3"),
        other => panic!("{:?}", other),
    }
    let e = reply(plan_media_play(&args(&["file"]), None, reference()));
    assert_eq!(e.description, "Where's the file tho");
    match plan_media_play(&args(&["f", "song"]), None, reference()) {
        PlayPlan::PlaySearch(q) => assert_eq!(q, "f song"),
        other => panic!("{:?}", other),
    }
    match plan_media_play(&args(&["https://example.com/x"]), None, reference()) {
        PlayPlan::PlayUrl(u) => assert_eq!(u, "https://example.com/x"),
        other => panic!("{:?}", other),
    }
    match plan_media_play_given(&args(&["a", "b"]), None, false, reference()) {
        PlayPlan::PlaySearch(q) => assert_eq!(q, "a b"),
        other => panic!("{:?}", other),
    }
    let e = reply(plan_media_play(&args(&[]), None, reference()));
    assert_eq!(e.title, "Bruh");
}

#[test]
fn queued_and_media_replies() {
    let t = track("Song", 1);
    let e = enqueued_embed(&t.metadata, 3, reference());
    assert_eq!(e.title, "I put food on sticks 😎");
    assert_eq!(e.description, "Skewered **[A - Song](https://t/1)**\n Position on stick: `3`");
    let e = skip_embed(4, reference());
    assert_eq!((e.title.as_str(), e.description.as_str()), ("Skipp", "podition on sticc: 4"));
    let e = source_failed_embed(true, reference());
    assert_eq!((e.title.as_str(), e.description.as_str()), ("Yo", "I can't play that"));
    let e = source_failed_embed(false, reference());
    assert_eq!((e.title.as_str(), e.description.as_str()), ("Why'd u send a jpg", "That's a jpg bro"));
    let e = resume_missing_embed(reference());
    assert_eq!(e.description, "ᵂʰᵃᵗ");
    let e = nowplaying_embed(Some("np".to_string()), reference());
    assert_eq!((e.title.as_str(), e.description.as_str(), e.color), ("We bumpin'", "np", palette::BLURPLE));
    let e = nowplaying_embed(None, reference());
    assert_eq!((e.title.as_str(), e.description.as_str(), e.color), ("We are not bumpin'", "No more choons :(", palette::YELLOW));
}

#[test]
fn seek_arguments() {
    assert_eq!(seek_seconds("0130"), 90);
    assert_eq!(seek_seconds("01:30"), 90);
    assert_eq!(seek_seconds("10:05"), 605);
    assert_eq!(seek_seconds("05:"), 300);
    assert_eq!(seek_seconds("12:xx"), 720);
    assert_eq!(try_seek_seconds("02:+7"), Some(127));
    assert_eq!(try_seek_seconds("5"), None);
    assert_eq!(seek_seconds("ab12"), 12);
    assert_eq!(seek_seconds("é7"), 7);
    assert_eq!(try_seek_seconds("99+5"), Some(5945));
    assert_eq!(try_seek_seconds("x"), None);
    assert_eq!(try_seek_seconds("€1"), None);
    assert_eq!(try_seek_seconds("0018446744073709551615"), Some(u64::MAX));
    assert_eq!(try_seek_seconds("0118446744073709551615"), None);
    let e = seek_usage_embed(reference());
    assert_eq!(e.description, "Invalid syntax. Use `bo.seek <time>` where `<time>` is format `mm:ss`.");
    let e = seek_done_embed("01:30", true, reference());
    assert_eq!((e.title.as_str(), e.description.as_str()), ("Seek", "Seeked to 01:30"));
    let e = seek_done_embed("01:30", false, reference());
    assert_eq!((e.title.as_str(), e.description.as_str()), ("Bruh", "Nothing is playing."));
}

#[test]
fn queue_listing() {
    let e = queue_embed(&vec![], None, reference());
    assert_eq!((e.title.as_str(), e.description.as_str()), ("Stick", "\nEmpty stick. :("));
    let tracks = vec![track("One", 5), track("Two", 6)];
    let e = queue_embed(&tracks, Some(5), reference());
    assert_eq!(
        e.description,
        "\n**1. [A - One](https://t/5) - Now Bumpin'**\n2. [A - Two](https://t/6)\n"
    );
    assert_eq!(e.color, palette::BLURPLE);
}

#[test]
fn repeat_toggles() {
    assert!(matches!(repeat_action(Some(LoopMode::Infinite), reference()), RepeatAction::DisableLoop));
    assert!(matches!(repeat_action(Some(LoopMode::Finite(0)), reference()), RepeatAction::EnableLoop));
    assert!(matches!(repeat_action(Some(LoopMode::Finite(3)), reference()), RepeatAction::EnableLoop));
    match repeat_action(None, reference()) {
        RepeatAction::Reply(e) => {
            assert_eq!(e.title, "You guys want some bagels?");
            assert_eq!(e.description, "Buck a piece. I'll sell you the whole stick. $5");
        }
        other => panic!("{:?}", other),
    }
}

#[test]
fn in_voice_check_refuses_outsiders() {
    let mut states = VoiceStates::new();
    states.insert(7, Some(500));
    states.insert(8, Some(600));
    states.insert(9, None);
    assert!(check_in_voice(Some(500), &states, 7, reference()).is_ok());
    let e = check_in_voice(Some(500), &states, 8, reference()).unwrap_err();
    assert_eq!((e.title.as_str(), e.description.as_str()), ("Error", "You must be in 500 to use commands"));
    assert!(check_in_voice(Some(500), &states, 9, reference()).is_err());
    assert!(check_in_voice(Some(500), &states, 10, reference()).is_err());
    let e = check_in_voice(None, &states, 7, reference()).unwrap_err();
    assert_eq!((e.title.as_str(), e.description.as_str(), e.color), ("Error", "I'm not in a voice channel", palette::RED));
    assert_eq!(e.reference, Some(reference()));
}
