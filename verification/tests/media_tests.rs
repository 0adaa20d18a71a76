use tbo::msgutils::{construct_np_msg as construct_np_msg_by_artist, create_embed_message};
use tbo::palette;
use tbo::utils::mediautils::{
    construct_np_msg, construct_title_string, get_voice_channel_of_user, push_clock, push_progress_bar,
    TrackMetadata,
};
use tbo::utils::msgutils::{generate_embed, Embed, MessageRef};
use tbo::voice_states::VoiceStates;

fn meta(title: Option<&str>, artist: Option<&str>, channel: Option<&str>, url: &str) -> TrackMetadata {
    TrackMetadata {
        title: title.map(String::from),
        artist: artist.map(String::from),
        channel: channel.map(String::from),
        source_url: Some(url.to_string()),
    }
}

fn reference() -> MessageRef {
    MessageRef { message_id: 11, channel_id: 22, guild_id: Some(33) }
}

#[test]
fn clock_texts() {
    let mut s = String::new();
    push_clock(&mut s, 0);
    assert_eq!(s, "00:00");
    let mut s = String::new();
    push_clock(&mut s, 65);
    assert_eq!(s, "01:05");
    let mut s = String::new();
    push_clock(&mut s, 59);
    assert_eq!(s, "00:59");
    let mut s = String::new();
    push_clock(&mut s, 6000);
    assert_eq!(s, "100:00");
}

#[test]
fn progress_bars() {
    for done in [0usize, 7, 20] {
        let mut s = String::new();
        push_progress_bar(&mut s, done);
        assert_eq!(s.len(), 20);
        assert_eq!(s, format!("{}{}", "#".repeat(done), "=".repeat(20 - done)));
    }
}

#[test]
fn title_prefers_channel_and_strips_credit() {
    let m = meta(Some("Rick Astley - Never Gonna Give You Up"), Some("RCA"), Some("Rick Astley"), "https://y.t/1");
    assert_eq!(construct_title_string(&m), "[Rick Astley - Never Gonna Give You Up](https://y.t/1)");
    let m = meta(Some("Song"), Some("Band"), None, "u");
    assert_eq!(construct_title_string(&m), "[Band - Song](u)");
    let m = meta(Some("Band - Song"), Some("Band"), None, "u");
    assert_eq!(construct_title_string(&m), "[Band - Song](u)");
    let m = meta(None, None, None, "u");
    assert_eq!(construct_title_string(&m), "[Unknown - Unknown](u)");
    let m = meta(Some("Unknown - X"), None, None, "u");
    assert_eq!(construct_title_string(&m), "[Unknown - X](u)");
    let m = meta(Some("Bänd - Lied"), Some("Bänd"), None, "u");
    assert_eq!(construct_title_string(&m), "[Bänd - Lied](u)");
}

#[test]
fn now_playing_text() {
    let m = meta(Some("Song"), Some("Band"), None, "https://x");
    assert_eq!(
        construct_np_msg(&m, 200, 65, 6),
        "**[Band - Song](https://x)**\n01:05 / 03:20 **`[######==============]`**"
    );
    assert_eq!(
        construct_np_msg(&m, 0, 0, 0),
        "**[Band - Song](https://x)**\n00:00 / 00:00 **`[====================]`**"
    );
}

#[test]
fn now_playing_text_by_artist() {
    let m = meta(Some("Song"), None, Some("Chan"), "https://x");
    assert_eq!(
        construct_np_msg_by_artist(&m, 120, 120, 20),
        "[**Unknown - Song**](https://x)\n02:00 / 02:00 **`[####################]`**"
    );
}

#[test]
fn embeds_are_built_as_asked() {
    let e = generate_embed("T".to_string(), "D".to_string(), palette::RED, Some(reference()), Some("img"));
    assert_eq!(e.title, "T");
    assert_eq!(e.description, "D");
    assert_eq!(e.color, palette::RED);
    assert_eq!(e.image.as_deref(), Some("img"));
    assert_eq!(e.reference, Some(reference()));
    let e = generate_embed("T".to_string(), "D".to_string(), palette::GREEN, None, None);
    assert_eq!(e.image, None);
    assert_eq!(e.reference, None);
}

#[test]
fn embed_filled_in_place() {
    let mut m: Embed = generate_embed("a".to_string(), "b".to_string(), 1, Some(reference()), Some("img"));
    create_embed_message(&mut m, &"T".to_string(), &"D".to_string(), 5, None);
    assert_eq!(m.title, "T");
    assert_eq!(m.description, "D");
    assert_eq!(m.color, 5);
    assert_eq!(m.image, None);
    assert_eq!(m.reference, Some(reference()));
    let other = MessageRef { message_id: 1, channel_id: 2, guild_id: None };
    create_embed_message(&mut m, &"T".to_string(), &"D".to_string(), 5, Some(other));
    assert_eq!(m.reference, Some(other));
}

#[test]
fn voice_states_read_back() {
    let mut states = VoiceStates::new();
    assert_eq!(states.get(1), None);
    states.insert(1, Some(100));
    states.insert(2, None);
    assert_eq!(states.get(1), Some(Some(100)));
    assert_eq!(states.get(2), Some(None));
    states.insert(1, Some(200));
    assert_eq!(states.get(1), Some(Some(200)));
    assert_eq!(get_voice_channel_of_user(&states, 1), Some(200));
    assert_eq!(get_voice_channel_of_user(&states, 2), None);
}
