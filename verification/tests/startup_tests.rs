use spotify_server::console::Notice;
use spotify_server::startup::{
    crash_message, is_dev_mode, server_error_message, server_error_notice, start_failure_message,
    start_failure_notice, PanicLocation,
};

#[test]
fn dev_mode_flags() {
    let args = |v: &[&str]| v.iter().map(|s| s.to_string()).collect::<Vec<String>>();
    assert!(is_dev_mode(&args(&["server", "-dev"])));
    assert!(is_dev_mode(&args(&["server", "x", "--dev"])));
    assert!(!is_dev_mode(&args(&["server"])));
    assert!(!is_dev_mode(&args(&["server", "-Dev", "dev", "---dev"])));
    assert!(!is_dev_mode(&args(&[])));
}

#[test]
fn crash_texts() {
    let loc = PanicLocation { file: "src/main.rs".to_string(), line: 42, column: 7 };
    assert_eq!(
        crash_message(Some("oops".to_string()), Some(loc)),
        "Application crashed: oops\n\nLocation: src/main.rs:42:7\n\nThe application will now exit."
    );
    assert_eq!(
        crash_message(None, None),
        "Application crashed with an unknown error\n\nThe application will now exit."
    );
}

#[test]
fn failure_texts() {
    assert_eq!(start_failure_message("port in use"), "Failed to start Spotify Server: port in use");
    assert_eq!(server_error_message("closed"), "Server error: closed");
}

#[test]
fn failure_notices_by_mode() {
    match start_failure_notice("e", true) {
        Notice::Console(t) => assert_eq!(t, "Failed to start Spotify Server: e"),
        other => panic!("unexpected {:?}", other),
    }
    match start_failure_notice("e", false) {
        Notice::Dialog(t) => assert_eq!(t, "Failed to start Spotify Server: e"),
        other => panic!("unexpected {:?}", other),
    }
    match server_error_notice("x", true) {
        Notice::Console(t) => assert_eq!(t, "Server error: x"),
        other => panic!("unexpected {:?}", other),
    }
    match server_error_notice("x", false) {
        Notice::Dialog(t) => assert_eq!(t, "Server error: x"),
        other => panic!("unexpected {:?}", other),
    }
}
