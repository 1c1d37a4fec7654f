use spotify_server::models::{
    display_image, ClientType, CommandPayload, PlayerData, SpotifyMetadata, SpotifyTrackData,
};

fn metadata(title: &str, artist: &str, album: &str) -> SpotifyMetadata {
    SpotifyMetadata {
        artist_name: Some(artist.to_string()),
        album_title: Some(album.to_string()),
        title: Some(title.to_string()),
        duration: Some("213000".to_string()),
        image_url: Some(" spotify:image:ab67616d0000b273 ".to_string()),
    }
}

#[test]
fn default_player_data() {
    let p = PlayerData::default();
    assert_eq!(p.track_title, "No track info yet");
    assert_eq!(p.artist_name, "Unknown Artist");
    assert_eq!(p.album_title, "Unknown Album");
    assert_eq!(p.duration, "0");
    assert_eq!(p.image_url, "");
    assert_eq!(p.uri, "");
    assert_eq!(p.raw_data, "");
}

#[test]
fn image_addresses() {
    assert_eq!(
        display_image(" spotify:image:ab67616d0000b273 "),
        "https://i.scdn.co/image/ab67616d0000b273"
    );
    assert_eq!(display_image("spotify:image:"), "https://i.scdn.co/image/");
    assert_eq!(display_image("https://example.com/a.png\n"), "https://example.com/a.png");
    assert_eq!(display_image("\u{3000}spotify:image:x\u{a0}"), "https://i.scdn.co/image/x");
    assert_eq!(display_image("  "), "");
    assert_eq!(display_image("Spotify:image:x"), "Spotify:image:x");
}

#[test]
fn track_data_updates_player() {
    let mut p = PlayerData::default();
    let t = SpotifyTrackData {
        metadata: Some(metadata("Song", "Band", "Record")),
        uri: Some("spotify:track:1".to_string()),
        uid: None,
    };
    let changed = p.apply_command("{\"x\":1}".to_string(), CommandPayload::Track(t));
    assert!(changed);
    assert_eq!(p.track_title, "Song");
    assert_eq!(p.artist_name, "Band");
    assert_eq!(p.album_title, "Record");
    assert_eq!(p.duration, "213000");
    assert_eq!(p.image_url, "https://i.scdn.co/image/ab67616d0000b273");
    assert_eq!(p.uri, "spotify:track:1");
    assert_eq!(p.raw_data, "{\"x\":1}");
}

#[test]
fn missing_metadata_fields_take_defaults() {
    let mut p = PlayerData::default();
    let m = SpotifyMetadata {
        artist_name: None,
        album_title: None,
        title: None,
        duration: None,
        image_url: None,
    };
    let t = SpotifyTrackData { metadata: Some(m), uri: None, uid: None };
    let changed = p.apply_command("{}".to_string(), CommandPayload::Track(t));
    assert!(changed);
    assert_eq!(p.track_title, "Unknown Track");
    assert_eq!(p.artist_name, "Unknown Artist");
    assert_eq!(p.album_title, "Unknown Album");
    assert_eq!(p.duration, "0");
    assert_eq!(p.image_url, "");
}

#[test]
fn same_track_is_no_change() {
    let mut p = PlayerData::default();
    let t = SpotifyTrackData { metadata: Some(metadata("A", "B", "C")), uri: None, uid: None };
    assert!(p.apply_command("1".to_string(), CommandPayload::Track(t.clone())));
    assert!(!p.apply_command("2".to_string(), CommandPayload::Track(t)));
    let mut other = metadata("A", "B", "C");
    other.duration = Some("5".to_string());
    let t2 = SpotifyTrackData { metadata: Some(other), uri: None, uid: None };
    assert!(!p.apply_command("3".to_string(), CommandPayload::Track(t2)));
    assert_eq!(p.duration, "5");
    assert_eq!(p.raw_data, "3");
}

#[test]
fn uri_change_is_a_change() {
    let mut p = PlayerData::default();
    let t = SpotifyTrackData { metadata: None, uri: Some("u1".to_string()), uid: None };
    assert!(p.apply_command("r".to_string(), CommandPayload::Track(t.clone())));
    assert!(!p.apply_command("r".to_string(), CommandPayload::Track(t)));
    let t2 = SpotifyTrackData { metadata: None, uri: Some("u2".to_string()), uid: None };
    assert!(p.apply_command("r".to_string(), CommandPayload::Track(t2)));
    assert_eq!(p.uri, "u2");
    assert_eq!(p.track_title, "No track info yet");
}

#[test]
fn bare_text_sets_title_without_change() {
    let mut p = PlayerData::default();
    let changed = p.apply_command("\"Hello\"".to_string(), CommandPayload::Text("Hello".to_string()));
    assert!(!changed);
    assert_eq!(p.track_title, "Hello");
    assert_eq!(p.raw_data, "\"Hello\"");
}

#[test]
fn other_data_sets_title_to_its_text() {
    let mut p = PlayerData::default();
    let changed = p.apply_command("42".to_string(), CommandPayload::Other);
    assert!(!changed);
    assert_eq!(p.track_title, "42");
    assert_eq!(p.raw_data, "42");
}

#[test]
fn payload_of_player() {
    let mut p = PlayerData::default();
    let t = SpotifyTrackData {
        metadata: Some(metadata("Song", "Band", "Record")),
        uri: Some("id".to_string()),
        uid: None,
    };
    p.apply_command("{}".to_string(), CommandPayload::Track(t));
    let q = p.payload();
    assert_eq!(q.name, "Song");
    assert_eq!(q.artist, "Band");
    assert_eq!(q.album, "Record");
    assert_eq!(q.image_url, "https://i.scdn.co/image/ab67616d0000b273");
    assert_eq!(q.duration_ms, 213000);
    assert_eq!(q.progress_ms, 0);
    assert_eq!(q.id, "id");
    p.duration = "3:33".to_string();
    assert_eq!(p.payload().duration_ms, 0);
}

#[test]
fn client_types_compare() {
    assert_eq!(ClientType::Spotify, ClientType::Spotify);
    assert_ne!(ClientType::Spotify, ClientType::WebInterface);
    assert_ne!(ClientType::Unknown, ClientType::WebInterface);
}
