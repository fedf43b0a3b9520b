use ws_chat::config::build_config;
use ws_chat::config::session_greeting;
use ws_chat::config::ConfigError;
use ws_chat::inbound::handle_inbound;
use ws_chat::inbound::Action;
use ws_chat::inbound::Inbound;
use ws_chat::message::classify_input;
use ws_chat::message::Outbound;
use ws_chat::message::NORMAL_CLOSE;
use ws_chat::render::render_line;
use ws_chat::render::rgb_string;
use ws_chat::text::trim_str;

const COMPLETION_LINE: &str = "Close Frame Received. Disconnection Complete.\n";

fn strings(parts: &[&str]) -> Vec<String> {
    parts.iter().map(|p| p.to_string()).collect()
}

#[test]
fn trim_removes_surrounding_whitespace() {
    assert_eq!(trim_str(" hello \n"), "hello");
    assert_eq!(trim_str(""), "");
    assert_eq!(trim_str(" \t\r\n"), "");
    assert_eq!(trim_str("a"), "a");
    assert_eq!(trim_str("a b"), "a b");
    assert_eq!(trim_str("\x0b\x0cx\x0c"), "x");
    assert_eq!(trim_str("\u{a0}\u{3000}hi\u{2028}\u{85}"), "hi");
    assert_eq!(trim_str("\u{2000}\u{200a}\u{202f}\u{205f}\u{1680}"), "");
}

#[test]
fn text_input_becomes_one_trimmed_text_message() {
    match classify_input(" hello \n") {
        Some(Outbound::Text(t)) => assert_eq!(t, "hello"),
        other => panic!("expected a text message, got {:?}", kind_of(&other)),
    }
}

#[test]
fn blank_input_enqueues_nothing() {
    assert!(classify_input("").is_none());
    assert!(classify_input("   \n").is_none());
    assert!(classify_input("\t\r\n ").is_none());
}

#[test]
fn dc_command_becomes_one_close_message() {
    for input in ["/dc", "  /dc \n", "\t/dc\t", "\u{a0}/dc\u{3000}"] {
        match classify_input(input) {
            Some(Outbound::Close(code, reason)) => {
                assert_eq!(code, NORMAL_CLOSE);
                assert_eq!(code, 1000);
                assert_eq!(reason, "finished");
            }
            other => panic!("expected a close message, got {:?}", kind_of(&other)),
        }
    }
}

#[test]
fn near_dc_inputs_stay_text() {
    for input in ["/dcx", "/d c", "dc", "//dc"] {
        match classify_input(input) {
            Some(Outbound::Text(t)) => assert_eq!(t, input.trim()),
            other => panic!("expected a text message, got {:?}", kind_of(&other)),
        }
    }
}

#[test]
fn inputs_produce_messages_in_order() {
    let inputs = ["first", "  \n", "second", "/dc"];
    let mut sent: Vec<Outbound> = Vec::new();
    for input in inputs {
        if let Some(m) = classify_input(input) {
            sent.push(m);
        }
    }
    assert_eq!(sent.len(), 3);
    match &sent[0] {
        Outbound::Text(t) => assert_eq!(t, "first"),
        _ => panic!("expected text first"),
    }
    match &sent[1] {
        Outbound::Text(t) => assert_eq!(t, "second"),
        _ => panic!("expected text second"),
    }
    match &sent[2] {
        Outbound::Close(code, reason) => {
            assert_eq!(*code, 1000);
            assert_eq!(reason, "finished");
        }
        _ => panic!("expected close last"),
    }
}

#[test]
fn rgb_string_exact_values() {
    assert_eq!(rgb_string(255, 0, 0), "\x1b[38;2;255;0;0m");
    assert_eq!(rgb_string(0, 0, 0), "\x1b[38;2;0;0;0m");
    assert_eq!(rgb_string(7, 42, 199), "\x1b[38;2;7;42;199m");
    assert_eq!(rgb_string(10, 100, 9), "\x1b[38;2;10;100;9m");
    assert_eq!(rgb_string(255, 255, 255), "\x1b[38;2;255;255;255m");
}

#[test]
fn greeting_is_trimmed_username_and_colon() {
    assert_eq!(session_greeting("alice"), "alice: ");
    assert_eq!(session_greeting(" bob \n"), "bob: ");
}

#[test]
fn rendered_line_is_escape_body_reset_newline() {
    assert_eq!(render_line("hi there"), "\x1b[38;2;255;0;0mhi there\x1b[0m\n");
    assert_eq!(render_line(""), "\x1b[38;2;255;0;0m\x1b[0m\n");
}

#[test]
fn inbound_text_is_printed_colorized() {
    match handle_inbound(&Inbound::Text("hi there".to_string())) {
        Action::Print(line) => assert_eq!(line, "\x1b[38;2;255;0;0mhi there\x1b[0m\n"),
        _ => panic!("expected a print action"),
    }
}

#[test]
fn inbound_close_ends_session_with_completion_line() {
    match handle_inbound(&Inbound::Close) {
        Action::Disconnect(line) => assert_eq!(line, COMPLETION_LINE),
        _ => panic!("expected a disconnect action"),
    }
}

#[test]
fn other_inbound_frames_are_rendered_too() {
    match handle_inbound(&Inbound::Other("ping".to_string())) {
        Action::Print(line) => assert_eq!(line, "\x1b[38;2;255;0;0mping\x1b[0m\n"),
        _ => panic!("expected a print action"),
    }
}

#[test]
fn missing_arguments_are_reported() {
    assert_eq!(build_config(&strings(&[])).unwrap_err(), ConfigError::MissingAddress);
    assert_eq!(build_config(&strings(&["client"])).unwrap_err(), ConfigError::MissingAddress);
    assert_eq!(
        build_config(&strings(&["client", "ws://localhost:9000"])).unwrap_err(),
        ConfigError::MissingUsername
    );
}

#[test]
fn unparseable_address_is_reported() {
    assert_eq!(
        build_config(&strings(&["client", "not a url", "alice"])).unwrap_err(),
        ConfigError::BadAddress
    );
}

#[test]
fn good_arguments_build_a_config() {
    let config = build_config(&strings(&["client", "ws://localhost:9000", "alice"])).unwrap();
    assert_eq!(config.greeting, "alice: ");
    assert_eq!(config.url.as_str(), "ws://localhost:9000/");
}

#[test]
fn full_session_scenario() {
    // Launch with a server address and a username.
    let config = build_config(&strings(&["client", "ws://localhost:9000", "alice"])).unwrap();
    // The first frame sent on the session is the identity line.
    assert_eq!(config.greeting, "alice: ");
    // The user types a chat line; exactly one text frame goes out.
    match classify_input("hello\n") {
        Some(Outbound::Text(t)) => assert_eq!(t, "hello"),
        _ => panic!("expected a text message"),
    }
    // The server sends a text frame; it is shown colorized.
    match handle_inbound(&Inbound::Text("hi there".to_string())) {
        Action::Print(line) => assert_eq!(line, "\x1b[38;2;255;0;0mhi there\x1b[0m\n"),
        _ => panic!("expected a print action"),
    }
    // The user disconnects; exactly one close frame goes out.
    match classify_input("/dc\n") {
        Some(Outbound::Close(code, reason)) => {
            assert_eq!(code, 1000);
            assert_eq!(reason, "finished");
        }
        _ => panic!("expected a close message"),
    }
    // The server echoes the close; the session ends behind the notice.
    match handle_inbound(&Inbound::Close) {
        Action::Disconnect(line) => assert_eq!(line, COMPLETION_LINE),
        _ => panic!("expected a disconnect action"),
    }
}

fn kind_of(m: &Option<Outbound>) -> &'static str {
    match m {
        None => "none",
        Some(Outbound::Text(_)) => "text",
        Some(Outbound::Close(_, _)) => "close",
    }
}
