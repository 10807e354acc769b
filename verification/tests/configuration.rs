use mstarplayer_mqtt_plugin::config::{
    parse_configuration, render_configuration, ConfigError, ConfigStore, Configuration,
};
use mstarplayer_mqtt_plugin::decimal::{parse_port, port_text};
use mstarplayer_mqtt_plugin::mqtt::ConnectionSlot;
use mstarplayer_mqtt_plugin::plugin::{
    editor_values, get_configuration, load_configuration, LoadOutcome,
};

fn config(server: &str, port: u16, client: &str, prefix: &str) -> Configuration {
    Configuration::new(server.to_string(), port, client.to_string(), prefix.to_string()).unwrap()
}

#[test]
fn configuration() {
    let input_configuration = "127.0.0.1\n1\nclient\ntopic";
    let mut store = ConfigStore::new();
    let mut slot: ConnectionSlot<u32> = ConnectionSlot::new();
    let outcome = load_configuration(&mut store, &mut slot, input_configuration);
    assert!(matches!(outcome, LoadOutcome::Applied { .. }));

    let configuration = get_configuration(&store);
    assert_eq!(configuration, input_configuration);
}

#[test]
fn defaults() {
    let defaults = Configuration::default();
    assert_eq!(defaults.server(), "127.0.0.1");
    assert_eq!(defaults.port(), 1883);
    assert_eq!(defaults.client_identifier(), "MStarPlayer");
    assert_eq!(defaults.topic_prefix(), "MStarPlayer");
}

#[test]
fn new_keeps_its_parts() {
    let made = config("broker.example", 8883, "c", "T");
    assert_eq!(made.server(), "broker.example");
    assert_eq!(made.port(), 8883);
    assert_eq!(made.client_identifier(), "c");
    assert_eq!(made.topic_prefix(), "T");
    assert_eq!(made.clone(), made);
}

#[test]
fn new_refuses_port_zero() {
    assert_eq!(Configuration::new("s".to_string(), 0, "c".to_string(), "T".to_string()), None);
    assert!(Configuration::new("s".to_string(), 1, "c".to_string(), "T".to_string()).is_some());
    assert!(Configuration::new("s".to_string(), 65535, "c".to_string(), "T".to_string()).is_some());
}

#[test]
fn store_starts_unset() {
    let store = ConfigStore::new();
    assert_eq!(store.current(), None);
}

#[test]
fn store_apply_replaces_the_whole_configuration() {
    let mut store = ConfigStore::new();
    store.apply(config("a", 1, "b", "c"));
    assert_eq!(store.current(), Some(&config("a", 1, "b", "c")));
    store.apply(config("x", 2, "y", "z"));
    assert_eq!(store.current(), Some(&config("x", 2, "y", "z")));
}

#[test]
fn store_clear_goes_back_to_unset() {
    let mut store = ConfigStore::new();
    store.apply(config("a", 1, "b", "c"));
    store.clear();
    assert_eq!(store.current(), None);
    store.clear();
    assert_eq!(store.current(), None);
}

#[test]
fn parse_reads_four_lines() {
    assert_eq!(
        parse_configuration("127.0.0.1\n1883\nc\nT"),
        Ok(Some(config("127.0.0.1", 1883, "c", "T")))
    );
}

#[test]
fn parse_of_empty_text_means_no_configuration() {
    assert_eq!(parse_configuration(""), Ok(None));
}

#[test]
fn parse_takes_the_other_lines_as_they_stand() {
    assert_eq!(parse_configuration("\n1\n\n"), Ok(Some(config("", 1, "", ""))));
    assert_eq!(
        parse_configuration(" host \n65535\na b\nx/y"),
        Ok(Some(config(" host ", 65535, "a b", "x/y")))
    );
}

#[test]
fn parse_rejects_other_line_counts() {
    for text in ["x", "a\n1", "a\n1\nb", "a\n1\nb\nc\n", "a\n1\nb\nc\nd", "\n", "\n\n\n\n"] {
        assert_eq!(parse_configuration(text), Err(ConfigError::LineCount));
    }
}

#[test]
fn parse_rejects_a_bad_port() {
    for port in ["", "0", "65536", "99999999999999999999", "-1", " 1", "1 ", "1a", "0x10", "1_0",
        "+", "++1", "1.0", "١"]
    {
        let text = format!("a\n{}\nb\nc", port);
        assert_eq!(parse_configuration(&text), Err(ConfigError::Port));
    }
}

#[test]
fn parse_checks_the_line_count_before_the_port() {
    assert_eq!(parse_configuration("a\nx\nb"), Err(ConfigError::LineCount));
}

#[test]
fn port_text_is_plain_decimal() {
    assert_eq!(port_text(0), "0");
    assert_eq!(port_text(7), "7");
    assert_eq!(port_text(10), "10");
    assert_eq!(port_text(1883), "1883");
    assert_eq!(port_text(65535), "65535");
    assert_eq!(port_text(40000), "40000");
}

#[test]
fn parse_port_reads_decimal() {
    assert_eq!(parse_port("1"), Some(1));
    assert_eq!(parse_port("1883"), Some(1883));
    assert_eq!(parse_port("65535"), Some(65535));
    assert_eq!(parse_port("+1883"), Some(1883));
    assert_eq!(parse_port("0001883"), Some(1883));
    assert_eq!(parse_port("00000000000000000000000000065535"), Some(65535));
}

#[test]
fn parse_port_refuses_what_is_no_port() {
    for text in ["", "0", "000", "+0", "65536", "70000", "655350", "4294967297", "-5", "+", "+-1",
        "1+", "12 ", "port", "１２"]
    {
        assert_eq!(parse_port(text), None);
    }
}

#[test]
fn every_port_reads_back() {
    for port in 1..=u16::MAX {
        assert_eq!(parse_port(&port_text(port)), Some(port));
    }
}

#[test]
fn parse_port_agrees_with_the_standard_library() {
    for text in ["1", "+1", "01", "65535", "65536", "", "+", "-1", "1 ", "a", "0"] {
        let expected = text.parse::<u16>().ok().filter(|port| *port >= 1);
        assert_eq!(parse_port(text), expected);
    }
}

#[test]
fn render_writes_four_lines() {
    let stored = config("127.0.0.1", 1883, "c", "T");
    assert_eq!(render_configuration(Some(&stored)), "127.0.0.1\n1883\nc\nT");
}

#[test]
fn render_of_nothing_is_empty() {
    assert_eq!(render_configuration(None), "");
    assert_eq!(get_configuration(&ConfigStore::new()), "");
}

#[test]
fn rendered_configuration_parses_back() {
    for stored in [config("127.0.0.1", 1883, "c", "T"), config("", 1, "", ""),
        config("broker", 65535, "MStarPlayer", "MStarPlayer")]
    {
        let text = render_configuration(Some(&stored));
        assert_eq!(parse_configuration(&text), Ok(Some(stored)));
    }
    assert_eq!(parse_configuration(&render_configuration(None)), Ok(None));
}

#[test]
fn editor_opens_with_defaults_when_unset() {
    let store = ConfigStore::new();
    assert_eq!(editor_values(&store), Configuration::default());
}

#[test]
fn editor_opens_with_what_is_in_force() {
    let mut store = ConfigStore::new();
    store.apply(config("broker", 1884, "me", "home"));
    assert_eq!(editor_values(&store), config("broker", 1884, "me", "home"));
}

#[test]
fn load_rejects_without_changing_anything() {
    let mut store = ConfigStore::new();
    let mut slot: ConnectionSlot<u32> = ConnectionSlot::new();
    store.apply(config("a", 1, "b", "c"));
    mstarplayer_mqtt_plugin::mqtt::attach(&mut slot, 7);

    let outcome = load_configuration(&mut store, &mut slot, "only one line");
    assert_eq!(outcome, LoadOutcome::Rejected { error: ConfigError::LineCount });
    assert_eq!(store.current(), Some(&config("a", 1, "b", "c")));
    assert_eq!(slot.session(), Some(&7));

    let outcome = load_configuration(&mut store, &mut slot, "a\nport\nb\nc");
    assert_eq!(outcome, LoadOutcome::Rejected { error: ConfigError::Port });
    assert_eq!(store.current(), Some(&config("a", 1, "b", "c")));
    assert_eq!(slot.session(), Some(&7));
}
