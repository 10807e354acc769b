use mstarplayer_mqtt_plugin::config::Configuration;
use mstarplayer_mqtt_plugin::router::{handle_message, route, Command, Invocation, Rejection};
use mstarplayer_mqtt_plugin::topic::TopicError;

fn config(prefix: &str) -> Configuration {
    Configuration::new("127.0.0.1".to_string(), 1883, "c".to_string(), prefix.to_string()).unwrap()
}

fn call(command: Command, player_name: &str) -> Invocation {
    Invocation { command, player_name: player_name.to_string() }
}

#[test]
fn command_words() {
    assert_eq!(Command::Play.word(), "play");
    assert_eq!(Command::Stop.word(), "stop");
    assert_eq!(Command::Next.word(), "next");
    assert_eq!(Command::Previous.word(), "previous");
}

#[test]
fn command_parse_knows_the_four_words() {
    assert_eq!(Command::parse("play"), Some(Command::Play));
    assert_eq!(Command::parse("stop"), Some(Command::Stop));
    assert_eq!(Command::parse("next"), Some(Command::Next));
    assert_eq!(Command::parse("previous"), Some(Command::Previous));
}

#[test]
fn command_parse_knows_nothing_else() {
    for word in ["", "Play", "PLAY", "play ", " play", "pause", "bogus", "playing", "prev"] {
        assert_eq!(Command::parse(word), None);
    }
}

#[test]
fn every_command_reads_back_from_its_word() {
    for command in [Command::Play, Command::Stop, Command::Next, Command::Previous] {
        assert_eq!(Command::parse(command.word()), Some(command));
    }
}

#[test]
fn route_names_the_callback_and_the_player() {
    assert_eq!(route("P", "play"), Some(call(Command::Play, "P")));
    assert_eq!(route("P", "stop"), Some(call(Command::Stop, "P")));
    assert_eq!(route("Test Player", "next"), Some(call(Command::Next, "Test Player")));
    assert_eq!(route("", "previous"), Some(call(Command::Previous, "")));
}

#[test]
fn route_of_an_unknown_command_calls_nothing() {
    assert_eq!(route("P", "bogus"), None);
    assert_eq!(route("P", ""), None);
}

#[test]
fn handle_message_accepts_a_control_topic() {
    let stored = config("T");
    assert_eq!(handle_message(Some(&stored), "T/control/P/play"), Ok(call(Command::Play, "P")));
    assert_eq!(
        handle_message(Some(&stored), "T/control/Test Player/previous"),
        Ok(call(Command::Previous, "Test Player"))
    );
}

#[test]
fn handle_message_rejects_a_malformed_topic() {
    let stored = config("T");
    assert_eq!(
        handle_message(Some(&stored), "T/control/P"),
        Err(Rejection::Topic(TopicError::MalformedSegmentCount))
    );
    assert_eq!(
        handle_message(Some(&stored), "T/control/a/b/play"),
        Err(Rejection::Topic(TopicError::MalformedSegmentCount))
    );
}

#[test]
fn handle_message_rejects_another_prefix() {
    let stored = config("T");
    assert_eq!(
        handle_message(Some(&stored), "X/control/P/play"),
        Err(Rejection::Topic(TopicError::PrefixMismatch))
    );
}

#[test]
fn handle_message_rejects_another_scope() {
    let stored = config("T");
    assert_eq!(
        handle_message(Some(&stored), "T/monitor/P/play"),
        Err(Rejection::Topic(TopicError::UnexpectedScope))
    );
}

#[test]
fn handle_message_without_configuration() {
    assert_eq!(handle_message(None, "T/control/P/play"), Err(Rejection::NotConfigured));
    assert_eq!(handle_message(None, "nonsense"), Err(Rejection::NotConfigured));
}

#[test]
fn handle_message_rejects_a_name_with_nul() {
    let stored = config("T");
    assert_eq!(
        handle_message(Some(&stored), "T/control/P\0x/play"),
        Err(Rejection::InvalidPlayerName)
    );
    assert_eq!(
        handle_message(Some(&stored), "T/control/\0/bogus"),
        Err(Rejection::InvalidPlayerName)
    );
}

#[test]
fn handle_message_rejects_an_unknown_command() {
    let stored = config("T");
    assert_eq!(handle_message(Some(&stored), "T/control/P/bogus"), Err(Rejection::UnknownCommand));
    assert_eq!(handle_message(Some(&stored), "T/control/P/"), Err(Rejection::UnknownCommand));
}

#[test]
fn handle_message_follows_the_prefix_in_force() {
    assert_eq!(
        handle_message(Some(&config("home")), "home/control/P/stop"),
        Ok(call(Command::Stop, "P"))
    );
    assert_eq!(
        handle_message(Some(&config("home")), "T/control/P/stop"),
        Err(Rejection::Topic(TopicError::PrefixMismatch))
    );
}
