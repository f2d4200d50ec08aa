//! What the client asks a music backend to do, and what the backend reports back.
use vstd::prelude::*;

use crate::artwork::{key_view, ArtworkKey, ArtworkResult};
use crate::capabilities::{Capabilities, Capability};
use crate::domain::{
    Album, AlbumId, Artist, BackendAvailability, BackendSnapshot, PlaybackSnapshot, Playlist,
    PlaylistId, RecentlyPlayedEntry, Track, TrackId,
};

verus! {

#[derive(Clone, Debug, PartialEq, Eq)]
pub enum BackendCommand {
    /// Starts a new bounded authoritative library scan when no scan is active.
    RefreshLibrary,
    OpenPlayer,
    Play,
    Pause,
    Stop,
    PlayPause,
    PlayTrack(TrackId),
    PlayPlaylistTrack {
        playlist_id: PlaylistId,
        ordered_track_ids: Vec<TrackId>,
        selected_index: usize,
        complete: bool,
    },
    PlayPlaylist(PlaylistId),
    PlayAlbum { album_id: AlbumId, track_ids: Vec<TrackId> },
    LoadTrackArtwork { key: ArtworkKey, track_id: TrackId },
    LoadPlaylist(PlaylistId),
    RemovePlaylistTrack { playlist_id: PlaylistId, index: usize, expected_track_id: TrackId },
    Next,
    Previous,
    SeekBy(i64),
    SetVolume(u8),
    ToggleMute,
    ToggleShuffle,
    CycleRepeat,
    ToggleFavoriteCurrent,
    Enqueue(Box<Track>),
    RemoveQueueItem(usize),
    MoveQueueItem { from: usize, to: usize },
}

#[derive(Clone, Debug, PartialEq, Eq)]
pub enum BackendUpdate {
    LibraryRefreshStarted { availability: BackendAvailability, playback: PlaybackSnapshot },
    LibraryRefreshFailed { availability: BackendAvailability, playback: PlaybackSnapshot, message: String },
    Snapshot(BackendSnapshot),
    Playback { availability: BackendAvailability, playback: PlaybackSnapshot },
    Playlists { availability: BackendAvailability, playback: PlaybackSnapshot, playlists: Vec<Playlist> },
    LibraryBatch {
        availability: BackendAvailability,
        playback: PlaybackSnapshot,
        tracks: Vec<Track>,
        authoritative_tracks: Option<Vec<Track>>,
        loaded: usize,
        total: usize,
        complete: bool,
        artists: Vec<Artist>,
        albums: Vec<Album>,
        recently_added: Vec<Album>,
        recently_played: Vec<RecentlyPlayedEntry>,
    },
    PlaylistBatch {
        availability: BackendAvailability,
        playback: PlaybackSnapshot,
        playlist_id: PlaylistId,
        tracks: Vec<Track>,
        loaded: usize,
        total: usize,
        complete: bool,
    },
    PlaylistLoadFailed {
        availability: BackendAvailability,
        playback: PlaybackSnapshot,
        playlist_id: PlaylistId,
        message: String,
    },
    PlaylistTrackRemoved {
        availability: BackendAvailability,
        playback: PlaybackSnapshot,
        playlist_id: PlaylistId,
        index: usize,
        expected_track_id: TrackId,
    },
    Stopped { availability: BackendAvailability, playback: PlaybackSnapshot },
    PlaybackContextFailed { availability: BackendAvailability, playback: PlaybackSnapshot, message: String },
    Notice { availability: BackendAvailability, playback: PlaybackSnapshot, message: String },
    Artwork {
        availability: BackendAvailability,
        playback: PlaybackSnapshot,
        key: ArtworkKey,
        result: ArtworkResult,
    },
}

#[derive(Clone, Debug, PartialEq, Eq)]
pub enum BackendEvent {
    Ready { name: &'static str, capabilities: Capabilities, snapshot: BackendSnapshot },
    Update(BackendUpdate),
    Error(String),
}

#[derive(Clone, Debug, PartialEq, Eq)]
pub enum BackendError {
    Unsupported(Capability),
    EmptyQueue,
    TrackNotFound(TrackId),
    PlaylistNotFound(PlaylistId),
    AlbumNotFound(AlbumId),
    QueueIndex { index: usize, length: usize },
    OperationFailed(String),
}

/// The text of a backend error.
pub open spec fn spec_backend_error_message(e: BackendError) -> Seq<char> {
    match e {
        BackendError::Unsupported(c) => "backend does not support "@ + crate::capabilities::spec_capability_name(c),
        BackendError::EmptyQueue => "the playback queue is empty"@,
        BackendError::TrackNotFound(id) => "track '"@ + id@ + "' is not available in the playback queue"@,
        BackendError::PlaylistNotFound(id) => "playlist '"@ + id@ + "' is not available"@,
        BackendError::AlbumNotFound(id) => "album '"@ + id@ + "' is not available"@,
        BackendError::QueueIndex { index, length } => "queue index "@ + crate::text::spec_decimal(index as nat)
            + " is out of bounds for length "@ + crate::text::spec_decimal(length as nat),
        BackendError::OperationFailed(message) => message@,
    }
}

impl BackendError {
    /// The text of the error.
    pub fn message(&self) -> (r: String)
        ensures
            r@ == spec_backend_error_message(*self),
    {
        match self {
            BackendError::Unsupported(c) => {
                let mut s = "backend does not support ".to_owned();
                crate::text::push_text(&mut s, c.name());
                s
            },
            BackendError::EmptyQueue => "the playback queue is empty".to_owned(),
            BackendError::TrackNotFound(id) => {
                let mut s = "track '".to_owned();
                crate::text::push_text(&mut s, id.as_str());
                crate::text::push_text(&mut s, "' is not available in the playback queue");
                s
            },
            BackendError::PlaylistNotFound(id) => {
                let mut s = "playlist '".to_owned();
                crate::text::push_text(&mut s, id.as_str());
                crate::text::push_text(&mut s, "' is not available");
                s
            },
            BackendError::AlbumNotFound(id) => {
                let mut s = "album '".to_owned();
                crate::text::push_text(&mut s, id.as_str());
                crate::text::push_text(&mut s, "' is not available");
                s
            },
            BackendError::QueueIndex { index, length } => {
                let mut s = "queue index ".to_owned();
                crate::text::push_decimal(&mut s, *index as u64);
                crate::text::push_text(&mut s, " is out of bounds for length ");
                crate::text::push_decimal(&mut s, *length as u64);
                s
            },
            BackendError::OperationFailed(message) => message.clone(),
        }
    }
}

/// Scheduling class for work submitted to the single serialized backend worker.
#[derive(Clone, Copy, Debug, PartialEq, Eq, Structural)]
pub enum CommandPriority {
    Low,
    Normal,
    High,
    Interactive,
}

/// The scheduling class of a command: direct playback control is interactive, playlist
/// loads and removals are high, artwork is normal, and everything else is low.
pub open spec fn spec_command_priority(command: BackendCommand) -> CommandPriority {
    match command {
        BackendCommand::Play
        | BackendCommand::Pause
        | BackendCommand::Stop
        | BackendCommand::PlayPause
        | BackendCommand::PlayTrack(_)
        | BackendCommand::PlayPlaylistTrack { .. }
        | BackendCommand::PlayPlaylist(_)
        | BackendCommand::PlayAlbum { .. }
        | BackendCommand::Next
        | BackendCommand::Previous
        | BackendCommand::SeekBy(_)
        | BackendCommand::SetVolume(_)
        | BackendCommand::ToggleMute
        | BackendCommand::ToggleShuffle
        | BackendCommand::CycleRepeat => CommandPriority::Interactive,
        BackendCommand::LoadPlaylist(_) | BackendCommand::RemovePlaylistTrack { .. } => CommandPriority::High,
        BackendCommand::LoadTrackArtwork { .. } => CommandPriority::Normal,
        BackendCommand::RefreshLibrary
        | BackendCommand::OpenPlayer
        | BackendCommand::ToggleFavoriteCurrent
        | BackendCommand::Enqueue(_)
        | BackendCommand::RemoveQueueItem(_)
        | BackendCommand::MoveQueueItem { .. } => CommandPriority::Low,
    }
}

pub fn command_priority(command: &BackendCommand) -> (r: CommandPriority)
    ensures
        r == spec_command_priority(*command),
{
    match command {
        BackendCommand::Play
        | BackendCommand::Pause
        | BackendCommand::Stop
        | BackendCommand::PlayPause
        | BackendCommand::PlayTrack(_)
        | BackendCommand::PlayPlaylistTrack { .. }
        | BackendCommand::PlayPlaylist(_)
        | BackendCommand::PlayAlbum { .. }
        | BackendCommand::Next
        | BackendCommand::Previous
        | BackendCommand::SeekBy(_)
        | BackendCommand::SetVolume(_)
        | BackendCommand::ToggleMute
        | BackendCommand::ToggleShuffle
        | BackendCommand::CycleRepeat => CommandPriority::Interactive,
        BackendCommand::LoadPlaylist(_) | BackendCommand::RemovePlaylistTrack { .. } => CommandPriority::High,
        BackendCommand::LoadTrackArtwork { .. } => CommandPriority::Normal,
        BackendCommand::RefreshLibrary
        | BackendCommand::OpenPlayer
        | BackendCommand::ToggleFavoriteCurrent
        | BackendCommand::Enqueue(_)
        | BackendCommand::RemoveQueueItem(_)
        | BackendCommand::MoveQueueItem { .. } => CommandPriority::Low,
    }
}

/// Whether the command is a latency-sensitive direct user operation.
pub fn is_interactive_command(command: &BackendCommand) -> (r: bool)
    ensures
        r == (spec_command_priority(*command) == CommandPriority::Interactive),
{
    match command_priority(command) {
        CommandPriority::Interactive => true,
        _ => false,
    }
}

/// Two commands that the scheduler runs only once when both are waiting: library
/// refreshes, loads of the same playlist and artwork loads for the same key.
pub open spec fn coalesces(queued: BackendCommand, incoming: BackendCommand) -> bool {
    match (queued, incoming) {
        (BackendCommand::RefreshLibrary, BackendCommand::RefreshLibrary) => true,
        (BackendCommand::LoadPlaylist(a), BackendCommand::LoadPlaylist(b)) => a@ == b@,
        (BackendCommand::LoadTrackArtwork { key: a, .. }, BackendCommand::LoadTrackArtwork { key: b, .. }) => key_view(a)
            == key_view(b),
        _ => false,
    }
}

pub fn coalescible_with(queued: &BackendCommand, incoming: &BackendCommand) -> (r: bool)
    ensures
        r == coalesces(*queued, *incoming),
{
    match (queued, incoming) {
        (BackendCommand::RefreshLibrary, BackendCommand::RefreshLibrary) => true,
        (BackendCommand::LoadPlaylist(a), BackendCommand::LoadPlaylist(b)) => a.same(b),
        (BackendCommand::LoadTrackArtwork { key: a, .. }, BackendCommand::LoadTrackArtwork { key: b, .. }) => a.same(b),
        _ => false,
    }
}

} // verus!
