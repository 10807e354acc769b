//! The core of a bridge between a media player and an MQTT broker.
//!
//! The player reports what it does, and the bridge publishes each report on
//! a monitor topic. The broker delivers messages on control topics, and the
//! bridge turns each into a command for the player. This crate holds the
//! rules of that bridge: the topic codec, the configuration and its text
//! format, the routing of commands, and the life cycle of the connection
//! and of its network loop. It opens no socket and starts no thread: every
//! function here decides what is to be done and leaves the doing to its
//! caller.

pub mod config;
pub mod decimal;
pub mod events;
pub mod mqtt;
pub mod network;
pub mod plugin;
pub mod router;
pub mod session;
pub mod text;
pub mod topic;
