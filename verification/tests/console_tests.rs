use spotify_server::console::{error_dialog, error_line, hide_console, show_console, to_wide_nul, ConsoleStep};

#[test]
fn wide_text() {
    assert_eq!(to_wide_nul(""), vec![0]);
    assert_eq!(to_wide_nul("Ab"), vec![0x41, 0x62, 0]);
    assert_eq!(to_wide_nul("\u{e9}\u{1f600}"), vec![0xe9, 0xd83d, 0xde00, 0]);
    let s = "Spotify Server - Debug Console \u{10ffff}\u{ffff}";
    let mut expected: Vec<u16> = s.encode_utf16().collect();
    expected.push(0);
    assert_eq!(to_wide_nul(s), expected);
}

#[test]
fn console_steps() {
    assert!(matches!(hide_console(true), ConsoleStep::Hide));
    assert!(matches!(hide_console(false), ConsoleStep::Keep));
    assert!(matches!(show_console(true), ConsoleStep::Show));
    match show_console(false) {
        ConsoleStep::Allocate { title } => {
            assert_eq!(title, to_wide_nul("Spotify Server - Debug Console"));
        },
        other => panic!("unexpected {:?}", other),
    }
}

#[test]
fn error_dialog_text() {
    let d = error_dialog("boom");
    assert_eq!(d.title, to_wide_nul("Spotify Server Error"));
    assert_eq!(d.message, vec![0x62, 0x6f, 0x6f, 0x6d, 0]);
    assert_eq!(error_line("boom"), "Error: boom");
}
