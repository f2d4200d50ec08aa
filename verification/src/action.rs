//! Inputs to the reducer and the work it asks for.
use vstd::prelude::*;

use crate::artwork::{Artwork, ArtworkKey};
use crate::backend::{BackendCommand, BackendEvent};
use crate::domain::TrackId;
use crate::state::Screen;

verus! {

/// Trusted: `Result::clone` clones whichever value the result holds.
pub assume_specification<T: Clone, E: Clone>[ <Result<T, E> as Clone>::clone ](value: &Result<T, E>) -> (r: Result<T, E>)
    ensures
        r is Ok <==> value is Ok,
        r matches Ok(b) ==> (*value matches Ok(a) && cloned(a, b)),
        r matches Err(b) ==> (*value matches Err(a) && cloned(a, b)),
;

#[derive(Clone, Debug, PartialEq, Eq)]
pub enum Action {
    Quit,
    InputClosed,
    RequestPlaylistTrackRemoval,
    ConfirmPlaylistTrackRemoval,
    OpenNowPlaying,
    RefreshLibrary,
    OpenPlayer,
    MoveUp,
    MoveDown,
    JumpToStart,
    JumpToEnd,
    JumpToPlayingTrack,
    PageUp,
    PageDown,
    FocusLeft,
    FocusRight,
    OpenSelected,
    PlaySelectedCollection,
    StartSearch,
    SearchInput(char),
    SearchBackspace,
    SubmitSearch,
    GoTo(Screen),
    Play,
    Pause,
    PlayPause,
    NextTrack,
    PreviousTrack,
    SeekBackward,
    SeekForward,
    VolumeDown,
    VolumeUp,
    ToggleMute,
    ToggleShuffle,
    CycleRepeat,
    ToggleFavorite,
    ToggleHelp,
    OpenActions,
    OpenCollectionSort,
    ToggleCollectionSortDirection,
    StartCollectionFilter,
    CollectionFilterInput(char),
    CollectionFilterBackspace,
    SubmitCollectionFilter,
    ClearCollectionFilter,
    Back,
    Resize { width: u16, height: u16 },
    Backend(Box<BackendEvent>),
    ArtworkConversionCompleted { key: ArtworkKey, source_fingerprint: u64, result: Result<Artwork, String> },
    RetryArtwork { key: ArtworkKey, track_id: TrackId },
}

#[derive(Clone, Debug, PartialEq, Eq)]
pub enum Command {
    Backend(BackendCommand),
    ConvertArtwork { key: ArtworkKey, source_fingerprint: u64, source: Artwork },
    RetryArtwork { key: ArtworkKey, track_id: TrackId },
}

/// A list holding one command.
pub fn single(c: Command) -> (r: Vec<Command>)
    ensures
        r@ == seq![c],
{
    let mut r: Vec<Command> = Vec::new();
    r.push(c);
    assert(r@ =~= seq![c]);
    r
}

} // verus!
