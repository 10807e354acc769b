//! The publish bridge: what each notification from the player is published
//! as.

use vstd::prelude::*;
use vstd::utf8::encode_utf8;
use crate::config::{Configuration, ConfigurationView};
use crate::mqtt::{publication_for, publish, ConnectionSlot, PublicationView, PublishOutcome};

verus! {

/// What the player tells the bridge.
#[derive(Debug, Clone, PartialEq, Eq)]
pub enum PlayerEvent {
    /// Playback started or stopped.
    PlayingStateChanged { is_playing: bool },
    /// The player moved on to the next entry.
    NextEntrySelected,
    /// The player moved back to the previous entry.
    PreviousEntrySelected,
    /// An entry of the playlist was selected.
    PlaylistEntrySelected,
    /// The duration of an entry of the playlist changed.
    PlaylistEntryDurationChanged,
    /// The name of an entry of the playlist changed.
    PlaylistEntryNameChanged,
    /// The volume of a track changed.
    TrackVolumeChanged,
    /// The playback position changed; `position` is the new position as
    /// decimal text.
    PositionChanged { position: String },
}

/// The contents of a [`PlayerEvent`].
pub enum PlayerEventView {
    PlayingStateChanged { is_playing: bool },
    NextEntrySelected,
    PreviousEntrySelected,
    PlaylistEntrySelected,
    PlaylistEntryDurationChanged,
    PlaylistEntryNameChanged,
    TrackVolumeChanged,
    PositionChanged { position: Seq<char> },
}

impl View for PlayerEvent {
    type V = PlayerEventView;

    open spec fn view(&self) -> PlayerEventView {
        match self {
            PlayerEvent::PlayingStateChanged { is_playing } => PlayerEventView::PlayingStateChanged {
                is_playing: *is_playing,
            },
            PlayerEvent::NextEntrySelected => PlayerEventView::NextEntrySelected,
            PlayerEvent::PreviousEntrySelected => PlayerEventView::PreviousEntrySelected,
            PlayerEvent::PlaylistEntrySelected => PlayerEventView::PlaylistEntrySelected,
            PlayerEvent::PlaylistEntryDurationChanged => {
                PlayerEventView::PlaylistEntryDurationChanged
            },
            PlayerEvent::PlaylistEntryNameChanged => PlayerEventView::PlaylistEntryNameChanged,
            PlayerEvent::TrackVolumeChanged => PlayerEventView::TrackVolumeChanged,
            PlayerEvent::PositionChanged { position } => PlayerEventView::PositionChanged {
                position: position@,
            },
        }
    }
}

/// The last topic segment and the payload under which an event is
/// published.
#[derive(Debug, Clone, PartialEq, Eq)]
pub struct Announcement {
    pub event: &'static str,
    pub payload: Vec<u8>,
}

/// The contents of an [`Announcement`].
pub struct AnnouncementView {
    pub event: Seq<char>,
    pub payload: Seq<u8>,
}

impl View for Announcement {
    type V = AnnouncementView;

    open spec fn view(&self) -> AnnouncementView {
        AnnouncementView { event: self.event@, payload: self.payload@ }
    }
}

/// How an event is announced, if it is announced at all.
///
/// Playback state, entry navigation and position are announced, the
/// position with its decimal text as payload and the others with an empty
/// payload. Changes to the playlist and to track volumes are not announced.
pub open spec fn announced(event: PlayerEventView) -> Option<AnnouncementView> {
    match event {
        PlayerEventView::PlayingStateChanged { is_playing } => Some(
            AnnouncementView {
                event: if is_playing {
                    "playing"@
                } else {
                    "stopped"@
                },
                payload: Seq::empty(),
            },
        ),
        PlayerEventView::NextEntrySelected => Some(
            AnnouncementView { event: "next"@, payload: Seq::empty() },
        ),
        PlayerEventView::PreviousEntrySelected => Some(
            AnnouncementView { event: "previous"@, payload: Seq::empty() },
        ),
        PlayerEventView::PositionChanged { position } => Some(
            AnnouncementView { event: "position"@, payload: encode_utf8(position) },
        ),
        PlayerEventView::PlaylistEntrySelected => None,
        PlayerEventView::PlaylistEntryDurationChanged => None,
        PlayerEventView::PlaylistEntryNameChanged => None,
        PlayerEventView::TrackVolumeChanged => None,
    }
}

/// What notifying the bridge of `event` of `player_name` leads to: nothing
/// for an event that is not announced, and otherwise what publishing its
/// announcement leads to.
pub open spec fn notified(
    stored: Option<ConfigurationView>,
    connected: bool,
    player_name: Seq<char>,
    event: PlayerEventView,
) -> Option<PublicationView> {
    match (announced(event), stored) {
        (Some(announcement), Some(config)) if connected => Some(
            publication_for(config, player_name, announcement.event, announcement.payload),
        ),
        _ => None,
    }
}

/// Chooses the event name and the payload for an event.
pub fn announcement(event: &PlayerEvent) -> (announcement: Option<Announcement>)
    ensures
        match announcement {
            Some(announcement) => announced(event@) == Some(announcement@),
            None => announced(event@) is None,
        },
{
    match event {
        PlayerEvent::PlayingStateChanged { is_playing } => Some(
            Announcement {
                event: if *is_playing {
                    "playing"
                } else {
                    "stopped"
                },
                payload: Vec::new(),
            },
        ),
        PlayerEvent::NextEntrySelected => Some(Announcement { event: "next", payload: Vec::new() }),
        PlayerEvent::PreviousEntrySelected => Some(
            Announcement { event: "previous", payload: Vec::new() },
        ),
        PlayerEvent::PositionChanged { position } => Some(
            Announcement { event: "position", payload: position.as_str().as_bytes_vec() },
        ),
        PlayerEvent::PlaylistEntrySelected => None,
        PlayerEvent::PlaylistEntryDurationChanged => None,
        PlayerEvent::PlaylistEntryNameChanged => None,
        PlayerEvent::TrackVolumeChanged => None,
    }
}

/// Decides what becomes of a notification from the player. The answer is
/// none for an event that is not announced, whatever the state of the
/// bridge; otherwise it is the outcome of publishing the announcement.
pub fn notify<'a, H>(
    stored: Option<&Configuration>,
    slot: &'a ConnectionSlot<H>,
    player_name: &str,
    event: &PlayerEvent,
) -> (outcome: Option<PublishOutcome<'a, H>>)
    ensures
        outcome is None <==> announced(event@) is None,
        match outcome {
            Some(PublishOutcome::NotConfigured) => stored is None,
            Some(PublishOutcome::NotConnected) => stored is Some && slot@ is None,
            Some(PublishOutcome::Send { session, publication }) => {
                &&& slot@ == Some(*session)
                &&& notified(
                    match stored {
                        Some(config) => Some(config@),
                        None => None,
                    },
                    slot@ is Some,
                    player_name@,
                    event@,
                ) == Some(publication@)
            },
            None => true,
        },
{
    match announcement(event) {
        None => None,
        Some(announcement) => Some(
            publish(stored, slot, player_name, announcement.event, announcement.payload),
        ),
    }
}

/// Nothing is published without a configuration, without a live connection,
/// or for an event that is not announced.
pub proof fn lemma_nothing_sent_when_idle(
    stored: Option<ConfigurationView>,
    connected: bool,
    player_name: Seq<char>,
    event: PlayerEventView,
)
    ensures
        stored is None || !connected || announced(event) is None ==> notified(
            stored,
            connected,
            player_name,
            event,
        ) is None,
{
}

} // verus!
