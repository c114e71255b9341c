use nationguessr::adapter::{respond, Config};
use nationguessr::client::{send_message_url, send_outcome, BotMessage, ParseMode};
use nationguessr::dispatch::{classify, transition, Command, ConversationState, StoreWrite};
use nationguessr::error::BotError;
use nationguessr::session::store_error;

#[test]
fn new_message_has_default_options() {
    let m = BotMessage::new(42, "hi".to_string());
    assert_eq!(m.chat_id, 42);
    assert_eq!(m.text, "hi");
    assert_eq!(m.parse_mode, ParseMode::Markdown);
    assert!(!m.disable_web_page_preview);
    assert!(!m.disable_notification);
    assert_eq!(m.reply_to_message_id, None);
}

#[test]
fn message_options_can_be_changed() {
    let mut m = BotMessage::new(-7, "x".to_string());
    m.disable_web_page_preview();
    assert!(m.disable_web_page_preview);
    assert!(!m.disable_notification);
    m.disable_notification();
    assert!(m.disable_notification);
    m.set_parse_mode(ParseMode::HTML);
    assert_eq!(m.parse_mode, ParseMode::HTML);
    m.set_reply_to_message(17);
    assert_eq!(m.reply_to_message_id, Some(17));
    assert_eq!(m.chat_id, -7);
    assert_eq!(m.text, "x");
}

#[test]
fn parse_mode_labels() {
    assert_eq!(ParseMode::Markdown.label(), "Markdown");
    assert_eq!(ParseMode::HTML.label(), "HTML");
}

#[test]
fn send_url_holds_the_token() {
    assert_eq!(send_message_url("123:abc"), "https://api.telegram.org/bot123:abc/sendMessage");
}

#[test]
fn only_2xx_counts_as_delivered() {
    assert!(send_outcome(true, 200).is_ok());
    assert!(send_outcome(true, 204).is_ok());
    assert!(send_outcome(true, 299).is_ok());
    assert!(send_outcome(true, 199).is_err());
    assert!(send_outcome(true, 300).is_err());
    assert!(send_outcome(true, 429).is_err());
    assert!(send_outcome(false, 200).is_err());
    match send_outcome(true, 500) {
        Err(e) => assert_eq!(
            e.description(),
            "Error while sending a network message: 'Failed to send a response to the user'."
        ),
        Ok(()) => panic!("500 is not a success"),
    }
}

#[test]
fn error_descriptions() {
    let cases = [
        (
            BotError::EnvironmentError("a".to_string()),
            "Environment error occured while executing function: 'a'.",
        ),
        (BotError::ParsingError("b".to_string()), "Error while parsing structure: 'b'."),
        (BotError::NetworkError("c".to_string()), "Error while sending a network message: 'c'."),
        (BotError::FsmError("d".to_string()), "Error while recording an application state: 'd'."),
    ];
    for (e, text) in cases {
        assert_eq!(e.description(), text);
    }
    assert_eq!(
        store_error().description(),
        "Error while recording an application state: 'FSM store is not available'."
    );
}

#[test]
fn config_requires_token_first() {
    match Config::from_values(None, None) {
        Err(BotError::EnvironmentError(m)) => {
            assert_eq!(m, "Bot token is not set in environment variables")
        }
        _ => panic!("missing token"),
    }
    match Config::from_values(Some("t".to_string()), None) {
        Err(BotError::EnvironmentError(m)) => {
            assert_eq!(m, "FSM table name is not set in environment variables")
        }
        _ => panic!("missing table"),
    }
    match Config::from_values(Some("t".to_string()), Some("states".to_string())) {
        Ok(c) => {
            assert_eq!(c.token, "t");
            assert_eq!(c.table_name, "states");
        }
        Err(_) => panic!("both values given"),
    }
    let r = respond(&Config::from_values(None, Some("s".to_string())).map(|_| ()));
    assert_eq!(r.status, 400);
    assert_eq!(
        r.message,
        "Environment error occured while executing function: 'Bot token is not set in environment variables'."
    );
}

#[test]
fn classify_matches_whole_text_only() {
    assert!(matches!(classify(&"/start".to_string()), Command::Start));
    assert!(matches!(classify(&"/restart".to_string()), Command::Restart));
    assert!(matches!(classify(&"/score".to_string()), Command::Score));
    assert!(matches!(classify(&"/clear".to_string()), Command::Clear));
    match classify(&"/Start".to_string()) {
        Command::Unrecognized(t) => assert_eq!(t, "/Start"),
        _ => panic!("commands are case-sensitive"),
    }
    assert!(matches!(classify(&" /score".to_string()), Command::Unrecognized(_)));
}

#[test]
fn state_labels() {
    assert_eq!(ConversationState::from_label(&Some("playing".to_string())), ConversationState::Playing);
    assert_eq!(ConversationState::from_label(&Some("Playing".to_string())), ConversationState::NoSession);
    assert_eq!(ConversationState::from_label(&None), ConversationState::NoSession);
    assert_eq!(ConversationState::Playing.label(), Some("playing".to_string()));
    assert_eq!(ConversationState::NoSession.label(), None);
}

#[test]
fn transition_table_writes() {
    let t = transition(ConversationState::NoSession, Command::Restart);
    assert_eq!(t.write, StoreWrite::Store(ConversationState::Playing));
    let t = transition(ConversationState::Playing, Command::Score);
    assert_eq!(t.write, StoreWrite::Keep);
    let t = transition(ConversationState::Playing, Command::Clear);
    assert_eq!(t.write, StoreWrite::Reset);
    let t = transition(ConversationState::NoSession, Command::Unrecognized("a*b".to_string()));
    assert_eq!(t.write, StoreWrite::Keep);
    assert_eq!(
        t.reply,
        "Your command *a*b* is not recognized! See the list of available commands in the *Menu* section."
    );
}

#[test]
fn placeholder_replies() {
    let t = transition(ConversationState::Playing, Command::Unrecognized("France".to_string()));
    assert_eq!(t.reply, "TODO: implement quiz.");
    let t = transition(ConversationState::NoSession, Command::Score);
    assert_eq!(t.reply, "TODO: implement score command.");
}
