//! The event router: from an inbound message to the command that the player
//! is to carry out.
//!
//! The router decides; it does not call the player. What it returns names at
//! most one command and the player it is meant for, and whoever owns the
//! player's callbacks carries it out.

use vstd::prelude::*;
use crate::config::{Configuration, ConfigurationView};
use crate::text::{free_of, holds, same_text};
use crate::topic::{control_topic, decode_control, decode_control_topic, lemma_decode_composed};
use crate::topic::{ControlMessageView, TopicError, SEPARATOR};

verus! {

/// The character that a player name must not hold, since the player takes
/// names as text that ends at the first such character.
pub const NUL: char = '\0';

/// What a player can be asked to do.
#[derive(Debug, Clone, Copy, PartialEq, Eq, Structural)]
pub enum Command {
    Play,
    Stop,
    Next,
    Previous,
}

/// The word that asks for `command`.
pub open spec fn word_of(command: Command) -> Seq<char> {
    match command {
        Command::Play => "play"@,
        Command::Stop => "stop"@,
        Command::Next => "next"@,
        Command::Previous => "previous"@,
    }
}

/// The command that `word` asks for, if it is one of the four words.
pub open spec fn command_of(word: Seq<char>) -> Option<Command> {
    if word == "play"@ {
        Some(Command::Play)
    } else if word == "stop"@ {
        Some(Command::Stop)
    } else if word == "next"@ {
        Some(Command::Next)
    } else if word == "previous"@ {
        Some(Command::Previous)
    } else {
        None
    }
}

/// One call of one of the player's four control callbacks.
#[derive(Debug, Clone, PartialEq, Eq)]
pub struct Invocation {
    /// Which callback.
    pub command: Command,
    /// The player name to hand to it.
    pub player_name: String,
}

/// The contents of an [`Invocation`].
pub struct InvocationView {
    pub command: Command,
    pub player_name: Seq<char>,
}

impl View for Invocation {
    type V = InvocationView;

    open spec fn view(&self) -> InvocationView {
        InvocationView { command: self.command, player_name: self.player_name@ }
    }
}

/// Why an inbound message leads to no call.
#[derive(Debug, Clone, Copy, PartialEq, Eq, Structural)]
pub enum Rejection {
    /// The topic is no control topic of this bridge.
    Topic(TopicError),
    /// No configuration is in force, so there is no prefix to hold the topic
    /// against.
    NotConfigured,
    /// The player name holds a NUL character.
    InvalidPlayerName,
    /// The command is none of the four known words.
    UnknownCommand,
}

impl Command {
    /// The word that asks for this command.
    pub fn word(self) -> (word: &'static str)
        ensures
            word@ == word_of(self),
    {
        match self {
            Command::Play => "play",
            Command::Stop => "stop",
            Command::Next => "next",
            Command::Previous => "previous",
        }
    }

    /// Reads a command word.
    pub fn parse(word: &str) -> (command: Option<Command>)
        ensures
            command == command_of(word@),
    {
        if same_text(word, "play") {
            Some(Command::Play)
        } else if same_text(word, "stop") {
            Some(Command::Stop)
        } else if same_text(word, "next") {
            Some(Command::Next)
        } else if same_text(word, "previous") {
            Some(Command::Previous)
        } else {
            None
        }
    }
}

/// Each command is asked for by its own word, and that word holds no `/`,
/// so it can stand as the last segment of a topic.
pub proof fn lemma_command_words(command: Command)
    ensures
        command_of(word_of(command)) == Some(command),
        free_of(word_of(command), SEPARATOR),
        free_of(word_of(command), NUL),
{
    reveal_strlit("play");
    reveal_strlit("stop");
    reveal_strlit("next");
    reveal_strlit("previous");
    assert("stop"@[0] != "play"@[0]);
    assert("next"@[0] != "play"@[0]);
    assert("next"@[0] != "stop"@[0]);
    assert("previous"@.len() != "play"@.len());
}

/// What a command for a player leads to.
pub open spec fn routed(player_name: Seq<char>, command: Seq<char>) -> Option<InvocationView> {
    match command_of(command) {
        Some(command) => Some(InvocationView { command, player_name }),
        None => None,
    }
}

/// Maps a command word to the callback that carries it out, for the player
/// named; an unknown word maps to nothing.
pub fn route(player_name: &str, command: &str) -> (invocation: Option<Invocation>)
    ensures
        match invocation {
            Some(invocation) => routed(player_name@, command@) == Some(invocation@),
            None => routed(player_name@, command@) is None,
        },
{
    match Command::parse(command) {
        Some(command) => Some(Invocation { command, player_name: player_name.to_owned() }),
        None => None,
    }
}

/// What an inbound message on `topic` leads to while `stored` is what the
/// configuration store holds.
///
/// The checks come in a fixed order and the first that fails decides: the
/// presence of a configuration, the topic (segments, prefix, scope), the
/// player name, the command.
pub open spec fn delivery(stored: Option<ConfigurationView>, topic: Seq<char>) -> Result<
    InvocationView,
    Rejection,
> {
    match stored {
        None => Err(Rejection::NotConfigured),
        Some(config) => match decode_control(topic, config.topic_prefix) {
            Err(error) => Err(Rejection::Topic(error)),
            Ok(message) => if !free_of(message.player_name, NUL) {
                Err(Rejection::InvalidPlayerName)
            } else {
                match routed(message.player_name, message.command) {
                    Some(invocation) => Ok(invocation),
                    None => Err(Rejection::UnknownCommand),
                }
            },
        },
    }
}

/// Validates an inbound message and decides which callback, if any, is to be
/// called for it.
pub fn handle_message(stored: Option<&Configuration>, topic: &str) -> (outcome: Result<
    Invocation,
    Rejection,
>)
    ensures
        match outcome {
            Ok(invocation) => delivery(
                match stored {
                    Some(config) => Some(config@),
                    None => None,
                },
                topic@,
            ) == Ok::<InvocationView, Rejection>(invocation@),
            Err(rejection) => delivery(
                match stored {
                    Some(config) => Some(config@),
                    None => None,
                },
                topic@,
            ) == Err::<InvocationView, Rejection>(rejection),
        },
{
    let config = match stored {
        Some(config) => config,
        None => {
            return Err(Rejection::NotConfigured);
        },
    };
    let message = match decode_control_topic(topic, config.topic_prefix()) {
        Ok(message) => message,
        Err(error) => {
            return Err(Rejection::Topic(error));
        },
    };
    if holds(message.player_name.as_str(), NUL) {
        return Err(Rejection::InvalidPlayerName);
    }
    match route(message.player_name.as_str(), message.command.as_str()) {
        Some(invocation) => Ok(invocation),
        None => Err(Rejection::UnknownCommand),
    }
}

/// A message that is rejected as a topic never reaches a callback, and a
/// message that reaches one was addressed to this bridge: it was composed of
/// the configured prefix, `control`, the player name handed to the callback
/// and the word of the command.
pub proof fn lemma_delivery_follows_decoding(stored: Option<ConfigurationView>, topic: Seq<char>)
    ensures
        stored matches Some(config) ==> (decode_control(topic, config.topic_prefix) is Err
            ==> delivery(stored, topic) is Err),
        delivery(stored, topic) matches Ok(invocation) ==> stored matches Some(config)
            && decode_control(topic, config.topic_prefix) == Ok::<ControlMessageView, TopicError>(
            ControlMessageView {
                player_name: invocation.player_name,
                command: word_of(invocation.command),
            },
        ),
{
    if delivery(stored, topic) is Ok {
        let config = stored->Some_0;
        let message = decode_control(topic, config.topic_prefix)->Ok_0;
        let command = command_of(message.command)->Some_0;
        lemma_command_words(command);
    }
}

/// A control topic composed for the configured prefix, a player name without
/// `/` and NUL, and the word of a command leads to exactly one call: that
/// command, for that player.
pub proof fn lemma_composed_command_is_delivered(
    config: ConfigurationView,
    player_name: Seq<char>,
    command: Command,
)
    requires
        free_of(config.topic_prefix, SEPARATOR),
        free_of(player_name, SEPARATOR),
        free_of(player_name, NUL),
    ensures
        delivery(
            Some(config),
            control_topic(config.topic_prefix, player_name, word_of(command)),
        ) == Ok::<InvocationView, Rejection>(InvocationView { command, player_name }),
{
    lemma_command_words(command);
    lemma_decode_composed(config.topic_prefix, player_name, word_of(command));
}

} // verus!
