//! The connection manager: the slot that holds the one live connection, and
//! the decisions of setting a connection up, tearing it down and publishing
//! through it.
//!
//! The manager does not open sockets or start threads. Whoever does hands it
//! a handle `H` that stands for a live connection, session and background
//! worker together, and gets the handle back when the connection is to end.
//! Holding both in one value is what keeps them together: there is never a
//! session without its worker, or a worker without its session. A handle
//! that is given back must be shut down before anything else is done with
//! the plan that it came with: signal the disconnect, then wait for the
//! worker to end.

use vstd::prelude::*;
use crate::config::{Configuration, ConfigurationView};
use crate::topic::{control_filter, control_filter_of, encode_monitor_topic, monitor_topic};

verus! {

/// How many requests may wait between the bridge and a session's worker.
pub const REQUEST_CAPACITY: usize = 10;

/// The delivery guarantee asked of the broker.
#[derive(Debug, Clone, Copy, PartialEq, Eq, Structural)]
pub enum QualityOfService {
    AtMostOnce,
    AtLeastOnce,
}

/// The place of the one connection that may be live at a time.
#[derive(Debug)]
pub struct ConnectionSlot<H> {
    live: Option<H>,
}

impl<H> View for ConnectionSlot<H> {
    type V = Option<H>;

    closed spec fn view(&self) -> Option<H> {
        self.live
    }
}

/// What is needed to open a session and to start its worker.
#[derive(Debug, Clone, PartialEq, Eq)]
pub struct ConnectRequest {
    /// The broker's address.
    pub server: String,
    /// The broker's port.
    pub port: u16,
    /// The name under which to connect.
    pub client_identifier: String,
    /// How many requests may wait for the worker.
    pub capacity: usize,
    /// What the worker subscribes to.
    pub filter: String,
    /// The guarantee asked for the subscription.
    pub quality: QualityOfService,
}

/// The contents of a [`ConnectRequest`].
pub struct ConnectRequestView {
    pub server: Seq<char>,
    pub port: u16,
    pub client_identifier: Seq<char>,
    pub capacity: usize,
    pub filter: Seq<char>,
    pub quality: QualityOfService,
}

impl View for ConnectRequest {
    type V = ConnectRequestView;

    open spec fn view(&self) -> ConnectRequestView {
        ConnectRequestView {
            server: self.server@,
            port: self.port,
            client_identifier: self.client_identifier@,
            capacity: self.capacity,
            filter: self.filter@,
            quality: self.quality,
        }
    }
}

/// What [`setup`] asks of its caller, in this order: shut down `release`,
/// then serve `connect` and [`attach`] the new connection.
#[derive(Debug, PartialEq, Eq)]
pub struct SetupPlan<H> {
    /// The connection that was live, if one was.
    pub release: Option<H>,
    /// The connection to open, if a configuration is in force.
    pub connect: Option<ConnectRequest>,
}

/// A message to hand to the broker.
#[derive(Debug, Clone, PartialEq, Eq)]
pub struct Publication {
    pub topic: String,
    pub payload: Vec<u8>,
    pub quality: QualityOfService,
    pub retain: bool,
}

/// The contents of a [`Publication`].
pub struct PublicationView {
    pub topic: Seq<char>,
    pub payload: Seq<u8>,
    pub quality: QualityOfService,
    pub retain: bool,
}

impl View for Publication {
    type V = PublicationView;

    open spec fn view(&self) -> PublicationView {
        PublicationView {
            topic: self.topic@,
            payload: self.payload@,
            quality: self.quality,
            retain: self.retain,
        }
    }
}

/// What became of an event that was to be published.
#[derive(Debug, PartialEq, Eq)]
pub enum PublishOutcome<'a, H> {
    /// No configuration is in force; nothing is sent.
    NotConfigured,
    /// No connection is live; the event is lost, not kept for later.
    NotConnected,
    /// Hand `publication` to `session`, without waiting for the broker.
    Send { session: &'a H, publication: Publication },
}

/// The request that opens a connection for `config`.
pub open spec fn request_for(config: ConfigurationView) -> ConnectRequestView {
    ConnectRequestView {
        server: config.server,
        port: config.port,
        client_identifier: config.client_identifier,
        capacity: REQUEST_CAPACITY,
        filter: control_filter_of(config.topic_prefix),
        quality: QualityOfService::AtMostOnce,
    }
}

/// The message that reports `event` of `player_name` under `config`:
/// delivered at least once, not retained.
pub open spec fn publication_for(
    config: ConfigurationView,
    player_name: Seq<char>,
    event: Seq<char>,
    payload: Seq<u8>,
) -> PublicationView {
    PublicationView {
        topic: monitor_topic(config.topic_prefix, player_name, event),
        payload,
        quality: QualityOfService::AtLeastOnce,
        retain: false,
    }
}

/// The slot and the handle given back after a teardown.
pub struct TornDown<H> {
    pub slot: Option<H>,
    pub released: Option<H>,
}

/// What a teardown does to a slot that holds `before`: the slot is left
/// empty and what it held is given back.
pub open spec fn torn_down<H>(before: Option<H>) -> TornDown<H> {
    TornDown { slot: None, released: before }
}

/// The slot and the handle given back after attaching a connection.
pub struct Attached<H> {
    pub slot: Option<H>,
    pub displaced: Option<H>,
}

/// What attaching `handle` does to a slot that holds `before`.
pub open spec fn attached<H>(before: Option<H>, handle: H) -> Attached<H> {
    Attached { slot: Some(handle), displaced: before }
}

impl<H> ConnectionSlot<H> {
    /// An empty slot.
    pub fn new() -> (slot: ConnectionSlot<H>)
        ensures
            slot@ is None,
    {
        ConnectionSlot { live: None }
    }

    /// Whether a connection is live.
    pub fn is_connected(&self) -> (connected: bool)
        ensures
            connected == (self@ is Some),
    {
        self.live.is_some()
    }

    /// The live connection, if there is one.
    pub fn session(&self) -> (session: Option<&H>)
        ensures
            match session {
                Some(handle) => self@ == Some(*handle),
                None => self@ is None,
            },
    {
        self.live.as_ref()
    }
}

/// Ends the connection, if one is live: empties the slot and gives back the
/// handle that it held, for the caller to shut down. With an empty slot this
/// does nothing and gives nothing back.
pub fn teardown<H>(slot: &mut ConnectionSlot<H>) -> (released: Option<H>)
    ensures
        final(slot)@ == torn_down(old(slot)@).slot,
        released == torn_down(old(slot)@).released,
{
    slot.live.take()
}

/// Plans a fresh connection. Whatever was live is torn down first, as by
/// [`teardown`]; then, if a configuration is in force, the plan asks for a
/// connection to its broker. The slot is left empty until the new
/// connection is attached.
pub fn setup<H>(slot: &mut ConnectionSlot<H>, stored: Option<&Configuration>) -> (plan: SetupPlan<
    H,
>)
    ensures
        final(slot)@ == torn_down(old(slot)@).slot,
        plan.release == torn_down(old(slot)@).released,
        match stored {
            Some(config) => plan.connect matches Some(request) && request@ == request_for(
                config@,
            ),
            None => plan.connect is None,
        },
{
    let release = teardown(slot);
    let connect = match stored {
        None => None,
        Some(config) => Some(
            ConnectRequest {
                server: config.server().to_owned(),
                port: config.port(),
                client_identifier: config.client_identifier().to_owned(),
                capacity: REQUEST_CAPACITY,
                filter: control_filter(config.topic_prefix()),
                quality: QualityOfService::AtMostOnce,
            },
        ),
    };
    SetupPlan { release, connect }
}

/// Puts a newly opened connection into the slot. Should the slot hold one
/// already, that one is given back for the caller to shut down; it is never
/// dropped in silence.
pub fn attach<H>(slot: &mut ConnectionSlot<H>, handle: H) -> (displaced: Option<H>)
    ensures
        final(slot)@ == attached(old(slot)@, handle).slot,
        displaced == attached(old(slot)@, handle).displaced,
{
    let displaced = slot.live.take();
    slot.live = Some(handle);
    displaced
}

/// Decides what becomes of `event` of `player_name` with `payload`: it is
/// sent only if a configuration is in force and a connection is live, and
/// then to the monitor topic of that player and event.
pub fn publish<'a, H>(
    stored: Option<&Configuration>,
    slot: &'a ConnectionSlot<H>,
    player_name: &str,
    event: &str,
    payload: Vec<u8>,
) -> (outcome: PublishOutcome<'a, H>)
    ensures
        match outcome {
            PublishOutcome::NotConfigured => stored is None,
            PublishOutcome::NotConnected => stored is Some && slot@ is None,
            PublishOutcome::Send { session, publication } => {
                &&& stored matches Some(config)
                &&& slot@ == Some(*session)
                &&& publication@ == publication_for(config@, player_name@, event@, payload@)
            },
        },
{
    let config = match stored {
        Some(config) => config,
        None => {
            return PublishOutcome::NotConfigured;
        },
    };
    let session = match slot.session() {
        Some(session) => session,
        None => {
            return PublishOutcome::NotConnected;
        },
    };
    let topic = encode_monitor_topic(config.topic_prefix(), player_name, event);
    PublishOutcome::Send {
        session,
        publication: Publication {
            topic,
            payload,
            quality: QualityOfService::AtLeastOnce,
            retain: false,
        },
    }
}

/// Tearing down twice is tearing down once: the second teardown finds the
/// slot empty, gives nothing back, so that no connection is shut down
/// twice, and leaves the slot as the first one left it.
pub proof fn lemma_teardown_idempotent<H>(before: Option<H>)
    ensures
        torn_down(torn_down(before).slot).slot == torn_down(before).slot,
        torn_down(torn_down(before).slot).released is None,
        torn_down(before).slot is None,
{
}

/// From an empty slot, attaching one connection after another never leaves
/// two of them live: the slot holds the newest one, and the one before it
/// is given back to be shut down. After a teardown, or the teardown that a
/// setup begins with, the next attach displaces nothing.
pub proof fn lemma_one_connection_at_a_time<H>(before: Option<H>, first: H, second: H)
    ensures
        attached(torn_down(before).slot, first).displaced is None,
        attached(torn_down(before).slot, first).slot == Some(first),
        attached(attached(torn_down(before).slot, first).slot, second).displaced == Some(first),
        attached(attached(torn_down(before).slot, first).slot, second).slot == Some(second),
{
}

} // verus!
