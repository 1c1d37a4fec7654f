use spotify_server::models::ClientType;
use spotify_server::registry::ClientRegistry;

#[test]
fn register_once() {
    let mut r = ClientRegistry::new();
    assert!(r.register("a".to_string(), ClientType::Spotify));
    assert!(!r.register("a".to_string(), ClientType::WebInterface));
    assert_eq!(r.get(&"a".to_string()), Some(ClientType::Spotify));
    assert!(r.contains(&"a".to_string()));
    assert!(!r.contains(&"b".to_string()));
    assert_eq!(r.get(&"b".to_string()), None);
}

#[test]
fn remove_clients() {
    let mut r = ClientRegistry::new();
    r.register("a".to_string(), ClientType::Spotify);
    r.register("b".to_string(), ClientType::WebInterface);
    r.register("c".to_string(), ClientType::WebInterface);
    assert_eq!(r.remove(&"b".to_string()), Some(ClientType::WebInterface));
    assert_eq!(r.remove(&"b".to_string()), None);
    assert!(r.contains(&"a".to_string()));
    assert!(r.contains(&"c".to_string()));
    assert!(r.has_client(ClientType::WebInterface));
}

#[test]
fn kinds_present() {
    let mut r = ClientRegistry::new();
    assert!(!r.has_client(ClientType::Spotify));
    assert!(!r.has_client(ClientType::WebInterface));
    r.register("w1".to_string(), ClientType::WebInterface);
    r.register("w2".to_string(), ClientType::WebInterface);
    assert!(!r.has_client(ClientType::Spotify));
    r.register("s".to_string(), ClientType::Spotify);
    assert!(r.has_client(ClientType::Spotify));
    assert!(r.has_client(ClientType::WebInterface));
    assert!(!r.has_client(ClientType::Unknown));
    r.remove(&"s".to_string());
    assert!(!r.has_client(ClientType::Spotify));
}
