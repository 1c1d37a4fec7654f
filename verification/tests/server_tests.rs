use spotify_server::models::{ClientType, CommandPayload, SpotifyMetadata, SpotifyTrackData};
use spotify_server::server::{server_address, ControlCommand, ServerAction, ServerEvent, ServerState};

fn track(title: &str, uri: &str) -> CommandPayload {
    CommandPayload::Track(SpotifyTrackData {
        metadata: Some(SpotifyMetadata {
            artist_name: Some("Artist".to_string()),
            album_title: Some("Album".to_string()),
            title: Some(title.to_string()),
            duration: Some("1000".to_string()),
            image_url: None,
        }),
        uri: Some(uri.to_string()),
        uid: None,
    })
}

fn command(id: &str, payload: CommandPayload) -> ServerEvent {
    ServerEvent::Command { socket_id: id.to_string(), raw: "{}".to_string(), payload }
}

fn sent_commands(actions: &[ServerAction]) -> Vec<String> {
    actions
        .iter()
        .filter_map(|a| match a {
            ServerAction::SendToSpotify(c) => Some(c.clone()),
            _ => None,
        })
        .collect()
}

#[test]
fn fresh_server_answers_getdata_with_defaults() {
    let mut s = ServerState::new();
    let actions = s.handle(ServerEvent::GetData);
    assert_eq!(actions.len(), 1);
    match &actions[0] {
        ServerAction::ReplyPlayerData(p) => {
            assert_eq!(p.name, "No track info yet");
            assert_eq!(p.artist, "Unknown Artist");
            assert_eq!(p.album, "Unknown Album");
            assert_eq!(p.duration_ms, 0);
            assert_eq!(p.progress_ms, 0);
            assert_eq!(p.id, "");
            assert_eq!(p.image_url, "");
        },
        other => panic!("unexpected {:?}", other),
    }
}

#[test]
fn commands_need_a_plugin() {
    let mut s = ServerState::new();
    assert!(s.handle(ServerEvent::Control(ControlCommand::Next)).is_empty());
    assert!(s.handle(ServerEvent::Request { url: "spotify:track:x".to_string() }).is_empty());
    let a = s.handle(ServerEvent::Input { socket_id: "web".to_string(), command: "Next".to_string() });
    assert!(a.is_empty());
    assert_eq!(s.clients.get(&"web".to_string()), Some(ClientType::WebInterface));
}

#[test]
fn plugin_registers_and_receives_commands() {
    let mut s = ServerState::new();
    s.handle(command("plugin", CommandPayload::Other));
    assert_eq!(s.clients.get(&"plugin".to_string()), Some(ClientType::Spotify));
    let names = [
        (ControlCommand::PlayPause, "PlayPause"),
        (ControlCommand::Next, "Next"),
        (ControlCommand::Prev, "Prev"),
        (ControlCommand::Shuffle, "Shuffle"),
        (ControlCommand::Repeat, "Repeat"),
    ];
    for (c, name) in names.iter() {
        assert_eq!(c.name(), *name);
        let a = s.handle(ServerEvent::Control(*c));
        assert_eq!(sent_commands(&a), vec![name.to_string()]);
    }
    let a = s.handle(ServerEvent::Request { url: "spotify:track:abc".to_string() });
    assert_eq!(sent_commands(&a), vec!["request spotify:track:abc".to_string()]);
    let a = s.handle(ServerEvent::Input { socket_id: "w".to_string(), command: "Shuffle".to_string() });
    assert_eq!(sent_commands(&a), vec!["Shuffle".to_string()]);
    let a = s.handle(ServerEvent::GetData);
    assert_eq!(a.len(), 2);
    assert_eq!(sent_commands(&a), vec!["getdata".to_string()]);
    assert!(matches!(a[1], ServerAction::ReplyPlayerData(_)));
}

#[test]
fn track_change_is_broadcast_once() {
    let mut s = ServerState::new();
    s.handle(ServerEvent::Input { socket_id: "w1".to_string(), command: "x".to_string() });
    s.handle(ServerEvent::Input { socket_id: "w2".to_string(), command: "x".to_string() });
    let a = s.handle(command("plugin", track("Song", "u1")));
    assert_eq!(a.len(), 1);
    for action in a.iter() {
        match action {
            ServerAction::BroadcastPlayerData(p) => {
                assert_eq!(p.name, "Song");
                assert_eq!(p.duration_ms, 1000);
                assert_eq!(p.id, "u1");
            },
            other => panic!("unexpected {:?}", other),
        }
    }
    assert!(s.handle(command("plugin", track("Song", "u1"))).is_empty());
    assert_eq!(s.handle(command("plugin", track("Song", "u2"))).len(), 1);
}

#[test]
fn broadcast_without_web_clients() {
    let mut s = ServerState::new();
    let a = s.handle(command("plugin", track("Song", "u1")));
    assert_eq!(a.len(), 1);
    assert!(matches!(a[0], ServerAction::BroadcastPlayerData(_)));
    assert_eq!(s.player.track_title, "Song");
}

#[test]
fn getdata_after_update_answers_new_track() {
    let mut s = ServerState::new();
    s.handle(command("plugin", track("New Song", "spotify:track:9")));
    let a = s.handle(ServerEvent::GetData);
    match a.last() {
        Some(ServerAction::ReplyPlayerData(p)) => {
            assert_eq!(p.name, "New Song");
            assert_eq!(p.artist, "Artist");
            assert_eq!(p.id, "spotify:track:9");
        },
        other => panic!("unexpected {:?}", other),
    }
}

#[test]
fn web_client_keeps_its_kind() {
    let mut s = ServerState::new();
    s.handle(ServerEvent::Input { socket_id: "a".to_string(), command: "x".to_string() });
    s.handle(command("a", CommandPayload::Text("t".to_string())));
    assert_eq!(s.clients.get(&"a".to_string()), Some(ClientType::WebInterface));
    assert_eq!(s.player.track_title, "t");
}

#[test]
fn disconnect_forgets_client() {
    let mut s = ServerState::new();
    s.handle(command("plugin", CommandPayload::Other));
    let a = s.handle(ServerEvent::Disconnect { socket_id: "plugin".to_string() });
    assert!(a.is_empty());
    assert!(!s.clients.contains(&"plugin".to_string()));
    assert!(s.handle(ServerEvent::Control(ControlCommand::Next)).is_empty());
    s.handle(ServerEvent::Disconnect { socket_id: "nobody".to_string() });
}

#[test]
fn listen_addresses() {
    assert_eq!(server_address(None, None), "127.0.0.1:8443");
    assert_eq!(server_address(Some("0.0.0.0".to_string()), Some("3000".to_string())), "0.0.0.0:3000");
    assert_eq!(server_address(None, Some("abc".to_string())), "127.0.0.1:8443");
    assert_eq!(server_address(None, Some("70000".to_string())), "127.0.0.1:8443");
    assert_eq!(server_address(None, Some("+0080".to_string())), "127.0.0.1:80");
}

#[test]
fn only_plugin_commands_change_player() {
    let mut s = ServerState::new();
    s.handle(command("plugin", track("Song", "u1")));
    let before = s.player.clone();
    s.handle(ServerEvent::Input { socket_id: "w".to_string(), command: "Next".to_string() });
    s.handle(ServerEvent::Control(ControlCommand::Repeat));
    s.handle(ServerEvent::GetData);
    s.handle(ServerEvent::Request { url: "x".to_string() });
    s.handle(ServerEvent::Disconnect { socket_id: "w".to_string() });
    assert_eq!(s.player.track_title, before.track_title);
    assert_eq!(s.player.uri, before.uri);
    assert_eq!(s.player.raw_data, before.raw_data);
    assert_eq!(s.player.duration, before.duration);
}

#[test]
fn visit_and_leave() {
    let mut s = ServerState::new();
    s.handle(command("plugin", CommandPayload::Other));
    s.handle(ServerEvent::Input { socket_id: "w".to_string(), command: "Next".to_string() });
    assert!(s.clients.contains(&"w".to_string()));
    s.handle(ServerEvent::Disconnect { socket_id: "w".to_string() });
    assert!(!s.clients.contains(&"w".to_string()));
    assert_eq!(s.clients.get(&"plugin".to_string()), Some(ClientType::Spotify));
    assert!(!s.clients.has_client(ClientType::WebInterface));
}

#[test]
fn registry_follows_a_session() {
    let mut s = ServerState::new();
    s.handle(ServerEvent::GetData);
    s.handle(ServerEvent::Control(ControlCommand::Next));
    assert!(!s.clients.contains(&"a".to_string()));
    s.handle(ServerEvent::Input { socket_id: "a".to_string(), command: "x".to_string() });
    s.handle(command("b", CommandPayload::Other));
    s.handle(command("a", CommandPayload::Other));
    assert_eq!(s.clients.get(&"a".to_string()), Some(ClientType::WebInterface));
    assert_eq!(s.clients.get(&"b".to_string()), Some(ClientType::Spotify));
    s.handle(ServerEvent::Disconnect { socket_id: "a".to_string() });
    s.handle(command("a", CommandPayload::Other));
    assert_eq!(s.clients.get(&"a".to_string()), Some(ClientType::Spotify));
    assert!(!s.clients.has_client(ClientType::Unknown));
}

#[test]
fn every_control_command() {
    let names: Vec<String> = ControlCommand::all().iter().map(|c| c.name()).collect();
    assert_eq!(names, vec!["PlayPause", "Next", "Prev", "Shuffle", "Repeat"]);
}
