//! The configuration of the bridge: where the broker is, under which name
//! the bridge connects, and under which prefix it publishes and listens.
//!
//! A configuration travels as a block of four lines in a fixed order: server
//! address, port number, client identifier, topic prefix. The store holds at
//! most one configuration and only ever swaps it as a whole.

use vstd::prelude::*;
use crate::decimal::{decimal_text, lemma_decimal_text_reads_back, lemma_port_reads_back};
use crate::decimal::{is_digit, parse_port, port_of, port_text};
use crate::text::{free_of, join_with, lemma_split_of_join, split_limited, split_on, views_of};

verus! {

/// The character that separates the lines of the exchange format.
pub const LINE_BREAK: char = '\n';

/// The port on which brokers listen unless told otherwise.
pub const DEFAULT_PORT: u16 = 1883;

/// Everything needed to reach the broker and to address topics.
#[derive(Debug, PartialEq, Eq)]
pub struct Configuration {
    server: String,
    port: u16,
    client_identifier: String,
    topic_prefix: String,
}

/// The contents of a [`Configuration`]. In a configuration that exists the
/// port is at least 1.
pub struct ConfigurationView {
    pub server: Seq<char>,
    pub port: u16,
    pub client_identifier: Seq<char>,
    pub topic_prefix: Seq<char>,
}

impl View for Configuration {
    type V = ConfigurationView;

    closed spec fn view(&self) -> ConfigurationView {
        ConfigurationView {
            server: self.server@,
            port: self.port,
            client_identifier: self.client_identifier@,
            topic_prefix: self.topic_prefix@,
        }
    }
}

/// Why a block of text was not accepted as a configuration.
#[derive(Debug, Clone, Copy, PartialEq, Eq, Structural)]
pub enum ConfigError {
    /// The text is not empty and does not consist of exactly four lines.
    LineCount,
    /// The second line does not name a port between 1 and 65535.
    Port,
}

impl Configuration {
    #[verifier::type_invariant]
    spec fn port_in_range(&self) -> bool {
        self.port >= 1
    }

    /// A configuration from its four parts; none if `port` is 0.
    pub fn new(
        server: String,
        port: u16,
        client_identifier: String,
        topic_prefix: String,
    ) -> (config: Option<Configuration>)
        ensures
            config is Some <==> port >= 1,
            config matches Some(c) ==> c@ == (ConfigurationView {
                server: server@,
                port,
                client_identifier: client_identifier@,
                topic_prefix: topic_prefix@,
            }),
    {
        if port == 0 {
            None
        } else {
            Some(Configuration { server, port, client_identifier, topic_prefix })
        }
    }

    /// The broker's address.
    pub fn server(&self) -> (server: &str)
        ensures
            server@ == self@.server,
    {
        self.server.as_str()
    }

    /// The broker's port; never 0.
    pub fn port(&self) -> (port: u16)
        ensures
            port == self@.port,
            port >= 1,
    {
        proof {
            use_type_invariant(self);
        }
        self.port
    }

    /// The name under which the bridge connects.
    pub fn client_identifier(&self) -> (client_identifier: &str)
        ensures
            client_identifier@ == self@.client_identifier,
    {
        self.client_identifier.as_str()
    }

    /// The first segment of every topic of the bridge.
    pub fn topic_prefix(&self) -> (topic_prefix: &str)
        ensures
            topic_prefix@ == self@.topic_prefix,
    {
        self.topic_prefix.as_str()
    }

}

impl Clone for Configuration {
    fn clone(&self) -> (copy: Configuration)
        ensures
            copy@ == self@,
    {
        proof {
            use_type_invariant(self);
        }
        Configuration {
            server: self.server.clone(),
            port: self.port,
            client_identifier: self.client_identifier.clone(),
            topic_prefix: self.topic_prefix.clone(),
        }
    }
}

/// The configuration that is offered where none has been applied yet: a
/// broker on this machine, on the default port.
pub open spec fn default_configuration() -> ConfigurationView {
    ConfigurationView {
        server: "127.0.0.1"@,
        port: DEFAULT_PORT,
        client_identifier: "MStarPlayer"@,
        topic_prefix: "MStarPlayer"@,
    }
}

impl Default for Configuration {
    fn default() -> (config: Configuration)
        ensures
            config@ == default_configuration(),
    {
        Configuration {
            server: "127.0.0.1".to_owned(),
            port: DEFAULT_PORT,
            client_identifier: "MStarPlayer".to_owned(),
            topic_prefix: "MStarPlayer".to_owned(),
        }
    }
}

/// The four lines of a configuration, joined by line breaks.
pub open spec fn configuration_text(config: ConfigurationView) -> Seq<char> {
    config.server + seq![LINE_BREAK] + decimal_text(config.port as nat) + seq![LINE_BREAK]
        + config.client_identifier + seq![LINE_BREAK] + config.topic_prefix
}

/// How what is stored is written: nothing at all where nothing is stored.
pub open spec fn stored_text(stored: Option<ConfigurationView>) -> Seq<char> {
    match stored {
        Some(config) => configuration_text(config),
        None => Seq::empty(),
    }
}

/// What a block of text means.
///
/// An empty text means that there shall be no configuration. Any other text
/// must consist of exactly four lines, of which the second names a port; the
/// other three are taken as they stand, empty or not.
pub open spec fn parse_text(text: Seq<char>) -> Result<Option<ConfigurationView>, ConfigError> {
    let lines = split_on(text, LINE_BREAK);
    if text.len() == 0 {
        Ok(None)
    } else if lines.len() != 4 {
        Err(ConfigError::LineCount)
    } else {
        match port_of(lines[1]) {
            Some(port) => Ok(
                Some(
                    ConfigurationView {
                        server: lines[0],
                        port,
                        client_identifier: lines[2],
                        topic_prefix: lines[3],
                    },
                ),
            ),
            None => Err(ConfigError::Port),
        }
    }
}

/// Reads a block of text in the exchange format.
pub fn parse_configuration(text: &str) -> (parsed: Result<Option<Configuration>, ConfigError>)
    ensures
        match parsed {
            Ok(Some(config)) => parse_text(text@) == Ok::<Option<ConfigurationView>, ConfigError>(
                Some(config@),
            ),
            Ok(None) => parse_text(text@) == Ok::<Option<ConfigurationView>, ConfigError>(None),
            Err(error) => parse_text(text@) == Err::<Option<ConfigurationView>, ConfigError>(
                error,
            ),
        },
{
    if text.is_empty() {
        return Ok(None);
    }
    let lines = match split_limited(text, LINE_BREAK, 4) {
        Some(lines) => lines,
        None => {
            return Err(ConfigError::LineCount);
        },
    };
    proof {
        let views = views_of(lines@);
        assert(views.len() == lines@.len());
        assert(forall|i: int| 0 <= i < lines@.len() ==> views[i] == lines@[i]@);
    }
    if lines.len() != 4 {
        return Err(ConfigError::LineCount);
    }
    let port = match parse_port(lines[1].as_str()) {
        Some(port) => port,
        None => {
            return Err(ConfigError::Port);
        },
    };
    Ok(
        Some(
            Configuration {
                server: lines[0].clone(),
                port,
                client_identifier: lines[2].clone(),
                topic_prefix: lines[3].clone(),
            },
        ),
    )
}

/// Writes what is stored in the exchange format: four lines for a
/// configuration, the empty text for none.
pub fn render_configuration(stored: Option<&Configuration>) -> (text: String)
    ensures
        text@ == stored_text(
            match stored {
                Some(config) => Some(config@),
                None => None,
            },
        ),
{
    match stored {
        None => String::new(),
        Some(config) => {
            proof {
                reveal_strlit("\n");
                assert("\n"@ =~= seq![LINE_BREAK]);
            }
            let mut text = config.server.clone();
            text.append("\n");
            text.append(port_text(config.port).as_str());
            text.append("\n");
            text.append(config.client_identifier.as_str());
            text.append("\n");
            text.append(config.topic_prefix.as_str());
            text
        },
    }
}

/// What was written can be read: the text of a configuration whose server,
/// client identifier and topic prefix hold no line break parses to that very
/// configuration, and the text of "no configuration" parses to none.
pub proof fn lemma_parse_of_rendered(stored: Option<ConfigurationView>)
    requires
        stored matches Some(config) ==> {
            &&& config.port >= 1
            &&& free_of(config.server, LINE_BREAK)
            &&& free_of(config.client_identifier, LINE_BREAK)
            &&& free_of(config.topic_prefix, LINE_BREAK)
        },
    ensures
        parse_text(stored_text(stored)) == Ok::<Option<ConfigurationView>, ConfigError>(stored),
{
    match stored {
        None => {},
        Some(config) => {
            let port_line = decimal_text(config.port as nat);
            lemma_decimal_text_reads_back(config.port as nat);
            lemma_port_reads_back(config.port);
            assert(free_of(port_line, LINE_BREAK)) by {
                assert forall|i: int| 0 <= i < port_line.len() implies port_line[i]
                    != LINE_BREAK by {
                    assert(is_digit(port_line[i]));
                }
            }
            let lines = seq![
                config.server,
                port_line,
                config.client_identifier,
                config.topic_prefix,
            ];
            let three = lines.drop_last();
            let two = three.drop_last();
            let one = two.drop_last();
            assert(three =~= seq![config.server, port_line, config.client_identifier]);
            assert(two =~= seq![config.server, port_line]);
            assert(one =~= seq![config.server]);
            assert(join_with(one, LINE_BREAK) == config.server);
            assert(join_with(two, LINE_BREAK) == config.server + seq![LINE_BREAK] + port_line);
            assert(join_with(three, LINE_BREAK) == join_with(two, LINE_BREAK) + seq![LINE_BREAK]
                + config.client_identifier);
            assert(join_with(lines, LINE_BREAK) == join_with(three, LINE_BREAK) + seq![LINE_BREAK]
                + config.topic_prefix);
            assert(join_with(lines, LINE_BREAK) =~= configuration_text(config));
            lemma_split_of_join(lines, LINE_BREAK);
            assert(configuration_text(config).len() > 0);
        },
    }
}

/// Holds the configuration that is in force, if any.
#[derive(Debug)]
pub struct ConfigStore {
    current: Option<Configuration>,
}

impl View for ConfigStore {
    type V = Option<ConfigurationView>;

    closed spec fn view(&self) -> Option<ConfigurationView> {
        match self.current {
            Some(config) => Some(config@),
            None => None,
        }
    }
}

impl ConfigStore {
    /// A store in which nothing has been applied yet.
    pub fn new() -> (store: ConfigStore)
        ensures
            store@ is None,
    {
        ConfigStore { current: None }
    }

    /// Puts `config` in force in place of whatever was stored.
    pub fn apply(&mut self, config: Configuration)
        ensures
            final(self)@ == Some(config@),
    {
        self.current = Some(config);
    }

    /// The configuration in force, or none if nothing is.
    pub fn current(&self) -> (current: Option<&Configuration>)
        ensures
            match current {
                Some(config) => self@ == Some(config@),
                None => self@ is None,
            },
    {
        self.current.as_ref()
    }

    /// Goes back to having no configuration.
    pub fn clear(&mut self)
        ensures
            final(self)@ is None,
    {
        self.current = None;
    }
}

} // verus!
