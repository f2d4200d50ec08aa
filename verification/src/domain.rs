//! The music domain: stable identities, tracks, playlists, albums, playback state and
//! the snapshots a backend publishes.
use vstd::prelude::*;

use crate::text::{chars_of, contains_all, contains_all_terms, join_space, normalize_search_text, opt_str, opt_text, push_char, push_text, spec_normalize, spec_words, split_words};

verus! {

/// A span of time in whole nanoseconds: at most `u64::MAX` seconds and 999,999,999
/// nanoseconds, the range of `std::time::Duration`.
#[derive(Clone, Copy, Debug, Default, PartialEq, Eq, PartialOrd, Ord, Hash)]
pub struct Duration {
    nanos: u128,
}

/// The most nanoseconds a duration holds.
pub open spec fn max_duration_nanos() -> nat {
    (u64::MAX as nat) * 1_000_000_000 + 999_999_999
}

/// The empty duration.
pub closed spec fn zero_duration() -> Duration {
    Duration { nanos: 0 }
}

/// The duration of whole seconds.
pub closed spec fn secs_duration(secs: u64) -> Duration {
    Duration { nanos: (secs * 1_000_000_000) as u128 }
}

/// The sum of two durations, or the longest duration when the sum is out of range.
pub closed spec fn sum_duration(a: Duration, b: Duration) -> Duration {
    if a.nanos + b.nanos > max_duration_nanos() {
        Duration { nanos: max_duration_nanos() as u128 }
    } else {
        Duration { nanos: (a.nanos + b.nanos) as u128 }
    }
}

/// What the named durations span.
pub proof fn lemma_duration_values(secs: u64, a: Duration, b: Duration)
    ensures
        zero_duration()@ == 0,
        secs_duration(secs)@ == secs * 1_000_000_000,
        sum_duration(a, b)@ == if a@ + b@ > max_duration_nanos() {
            max_duration_nanos()
        } else {
            (a@ + b@) as nat
        },
{
}

impl View for Duration {
    type V = nat;

    closed spec fn view(&self) -> nat {
        self.nanos as nat
    }
}

impl Duration {
    #[verifier::type_invariant]
    spec fn in_range(self) -> bool {
        self.nanos <= max_duration_nanos()
    }

    /// The empty duration.
    pub fn zero() -> (r: Duration)
        ensures
            r@ == 0,
            r == zero_duration(),
    {
        Duration { nanos: 0 }
    }

    /// Whole seconds.
    pub fn from_secs(secs: u64) -> (r: Duration)
        ensures
            r@ == secs * 1_000_000_000,
            r == secs_duration(secs),
    {
        Duration { nanos: (secs as u128) * 1_000_000_000 }
    }

    /// Whole milliseconds.
    pub fn from_millis(millis: u64) -> (r: Duration)
        ensures
            r@ == millis * 1_000_000,
    {
        Duration { nanos: (millis as u128) * 1_000_000 }
    }

    /// Whole nanoseconds.
    pub fn from_nanos(nanos: u64) -> (r: Duration)
        ensures
            r@ == nanos,
    {
        Duration { nanos: nanos as u128 }
    }

    /// The whole seconds it spans.
    pub fn as_secs(&self) -> (r: u64)
        ensures
            r == self@ / 1_000_000_000,
    {
        proof {
            use_type_invariant(self);
        }
        (self.nanos / 1_000_000_000) as u64
    }

    /// The whole milliseconds it spans.
    pub fn as_millis(&self) -> (r: u128)
        ensures
            r == self@ / 1_000_000,
    {
        self.nanos / 1_000_000
    }

    /// The whole nanoseconds it spans.
    pub fn as_nanos(&self) -> (r: u128)
        ensures
            r == self@,
    {
        self.nanos
    }

    /// Whether it spans no time.
    pub fn is_zero(&self) -> (r: bool)
        ensures
            r == (self@ == 0),
    {
        self.nanos == 0
    }

    /// Whether it spans at least as long as `other`.
    pub fn is_at_least(&self, other: &Duration) -> (r: bool)
        ensures
            r == (self@ >= other@),
    {
        self.nanos >= other.nanos
    }

    /// The sum, or the longest duration when the sum is out of range.
    pub fn saturating_add(self, other: Duration) -> (r: Duration)
        ensures
            r == sum_duration(self, other),
            r@ == if self@ + other@ > max_duration_nanos() {
                max_duration_nanos()
            } else {
                (self@ + other@) as nat
            },
    {
        proof {
            use_type_invariant(&self);
            use_type_invariant(&other);
        }
        let max: u128 = 18_446_744_073_709_551_615_999_999_999;
        if self.nanos > max - other.nanos {
            Duration { nanos: max }
        } else {
            Duration { nanos: self.nanos + other.nanos }
        }
    }

    /// The difference, or the empty duration when `other` is longer.
    pub fn saturating_sub(self, other: Duration) -> (r: Duration)
        ensures
            r@ == if self@ >= other@ {
                (self@ - other@) as nat
            } else {
                0
            },
    {
        proof {
            use_type_invariant(&self);
        }
        if self.nanos >= other.nanos {
            Duration { nanos: self.nanos - other.nanos }
        } else {
            Duration { nanos: 0 }
        }
    }
}

/// A stable track identity.
#[derive(Clone, Debug, PartialEq, Eq, Hash, PartialOrd, Ord)]
pub struct TrackId(String);

impl View for TrackId {
    type V = Seq<char>;

    closed spec fn view(&self) -> Seq<char> {
        self.0@
    }
}

impl TrackId {
    pub fn new(value: &str) -> (r: Self)
        ensures
            r@ == value@,
    {
        TrackId(value.to_owned())
    }

    pub fn as_str(&self) -> (r: &str)
        ensures
            r@ == self@,
    {
        self.0.as_str()
    }

    /// A copy with the same identity.
    pub fn duplicate(&self) -> (r: Self)
        ensures
            r == *self,
            r@ == self@,
    {
        TrackId(self.0.clone())
    }

    /// Whether both identities are the same.
    pub fn same(&self, other: &TrackId) -> (r: bool)
        ensures
            r == (self@ == other@),
    {
        self.0 == other.0
    }
}

/// A Music.app persistent identifier.
#[derive(Clone, Debug, PartialEq, Eq, Hash, PartialOrd, Ord)]
pub struct MusicAppPersistentId(String);

impl View for MusicAppPersistentId {
    type V = Seq<char>;

    closed spec fn view(&self) -> Seq<char> {
        self.0@
    }
}

/// The prefix of track identities derived from Music.app persistent identifiers.
pub open spec fn persistent_prefix() -> Seq<char> {
    seq!['m', 'u', 's', 'i', 'c', 'a', 'p', 'p', ':', 'p', 'e', 'r', 's', 'i', 's', 't', 'e', 'n', 't', ':']
}

/// The prefix of track identities derived from Music.app database identifiers.
pub open spec fn database_prefix() -> Seq<char> {
    seq!['m', 'u', 's', 'i', 'c', 'a', 'p', 'p', ':', 'd', 'a', 't', 'a', 'b', 'a', 's', 'e', ':']
}

impl MusicAppPersistentId {
    pub fn new(value: &str) -> (r: Self)
        ensures
            r@ == value@,
    {
        MusicAppPersistentId(value.to_owned())
    }

    /// The track identity `musicapp:persistent:<id>`.
    pub fn to_track_id(&self) -> (r: TrackId)
        ensures
            r@ == persistent_prefix() + self@,
    {
        let mut s = "musicapp:persistent:".to_owned();
        proof {
            reveal_strlit("musicapp:persistent:");
        }
        push_text(&mut s, self.0.as_str());
        assert(s@ =~= persistent_prefix() + self@);
        TrackId(s)
    }
}

/// A Music.app database identifier.
#[derive(Clone, Debug, PartialEq, Eq, Hash, PartialOrd, Ord)]
pub struct MusicAppDatabaseId(String);

impl View for MusicAppDatabaseId {
    type V = Seq<char>;

    closed spec fn view(&self) -> Seq<char> {
        self.0@
    }
}

impl MusicAppDatabaseId {
    pub fn new(value: &str) -> (r: Self)
        ensures
            r@ == value@,
    {
        MusicAppDatabaseId(value.to_owned())
    }

    /// The track identity `musicapp:database:<id>`.
    pub fn to_track_id(&self) -> (r: TrackId)
        ensures
            r@ == database_prefix() + self@,
    {
        let mut s = "musicapp:database:".to_owned();
        proof {
            reveal_strlit("musicapp:database:");
        }
        push_text(&mut s, self.0.as_str());
        assert(s@ =~= database_prefix() + self@);
        TrackId(s)
    }
}

/// A stable playlist identity.
#[derive(Clone, Debug, PartialEq, Eq, Hash, PartialOrd, Ord)]
pub struct PlaylistId(String);

impl View for PlaylistId {
    type V = Seq<char>;

    closed spec fn view(&self) -> Seq<char> {
        self.0@
    }
}

impl PlaylistId {
    pub fn new(value: &str) -> (r: Self)
        ensures
            r@ == value@,
    {
        PlaylistId(value.to_owned())
    }

    pub fn as_str(&self) -> (r: &str)
        ensures
            r@ == self@,
    {
        self.0.as_str()
    }

    pub fn duplicate(&self) -> (r: Self)
        ensures
            r == *self,
            r@ == self@,
    {
        PlaylistId(self.0.clone())
    }

    pub fn same(&self, other: &PlaylistId) -> (r: bool)
        ensures
            r == (self@ == other@),
    {
        self.0 == other.0
    }
}

/// A stable album identity.
#[derive(Clone, Debug, PartialEq, Eq, Hash, PartialOrd, Ord)]
pub struct AlbumId(String);

impl View for AlbumId {
    type V = Seq<char>;

    closed spec fn view(&self) -> Seq<char> {
        self.0@
    }
}

impl AlbumId {
    pub fn new(value: &str) -> (r: Self)
        ensures
            r@ == value@,
    {
        AlbumId(value.to_owned())
    }

    pub fn as_str(&self) -> (r: &str)
        ensures
            r@ == self@,
    {
        self.0.as_str()
    }

    pub fn duplicate(&self) -> (r: Self)
        ensures
            r == *self,
            r@ == self@,
    {
        AlbumId(self.0.clone())
    }

    pub fn same(&self, other: &AlbumId) -> (r: bool)
        ensures
            r == (self@ == other@),
    {
        self.0 == other.0
    }
}

/// A stable artist identity.
#[derive(Clone, Debug, PartialEq, Eq, Hash, PartialOrd, Ord)]
pub struct ArtistId(String);

impl View for ArtistId {
    type V = Seq<char>;

    closed spec fn view(&self) -> Seq<char> {
        self.0@
    }
}

impl ArtistId {
    pub fn new(value: &str) -> (r: Self)
        ensures
            r@ == value@,
    {
        ArtistId(value.to_owned())
    }

    pub fn as_str(&self) -> (r: &str)
        ensures
            r@ == self@,
    {
        self.0.as_str()
    }

    pub fn duplicate(&self) -> (r: Self)
        ensures
            r == *self,
            r@ == self@,
    {
        ArtistId(self.0.clone())
    }

    pub fn same(&self, other: &ArtistId) -> (r: bool)
        ensures
            r == (self@ == other@),
    {
        self.0 == other.0
    }
}

/// A radio station identity.
#[derive(Clone, Debug, PartialEq, Eq, Hash, PartialOrd, Ord)]
pub struct StationId(String);

impl View for StationId {
    type V = Seq<char>;

    closed spec fn view(&self) -> Seq<char> {
        self.0@
    }
}

impl StationId {
    pub fn new(value: &str) -> (r: Self)
        ensures
            r@ == value@,
    {
        StationId(value.to_owned())
    }

    /// A copy with the same identity.
    pub fn duplicate(&self) -> (r: Self)
        ensures
            r == *self,
    {
        StationId(self.0.clone())
    }
}

/// An entry identity within the playback queue.
#[derive(Clone, Debug, PartialEq, Eq, Hash, PartialOrd, Ord)]
pub struct QueueEntryId(String);

impl View for QueueEntryId {
    type V = Seq<char>;

    closed spec fn view(&self) -> Seq<char> {
        self.0@
    }
}

impl QueueEntryId {
    pub fn new(value: &str) -> (r: Self)
        ensures
            r@ == value@,
    {
        QueueEntryId(value.to_owned())
    }

    pub fn as_str(&self) -> (r: &str)
        ensures
            r@ == self@,
    {
        self.0.as_str()
    }

    /// A copy with the same identity.
    pub fn duplicate(&self) -> (r: Self)
        ensures
            r == *self,
    {
        QueueEntryId(self.0.clone())
    }
}

#[derive(Clone, Copy, Debug, Default, PartialEq, Eq, Structural)]
pub enum DataOrigin {
    #[default]
    Demo,
    LocalMusicApp,
}

#[derive(Clone, Debug, Default, PartialEq, Eq)]
pub struct TrackMetadata {
    pub origin: DataOrigin,
    pub album_artist: Option<String>,
    pub composer: Option<String>,
    pub genre: Option<String>,
    pub year: Option<u16>,
    pub track_number: Option<u16>,
    pub disc_number: Option<u16>,
    pub play_count: Option<u64>,
    pub skip_count: Option<u64>,
    pub date_added: Option<String>,
    pub last_played_date: Option<String>,
    pub last_skipped_date: Option<String>,
    pub modification_date: Option<String>,
    pub release_date: Option<String>,
    pub rating: Option<u8>,
    pub cloud_status: Option<String>,
    pub media_kind: Option<String>,
    pub enabled: bool,
}

impl TrackMetadata {
    /// Metadata with every optional field absent and the given origin and enabled flag.
    pub fn empty(origin: DataOrigin, enabled: bool) -> (r: Self)
        ensures
            r.origin == origin,
            r.enabled == enabled,
            r.album_artist is None,
            r.composer is None,
            r.genre is None,
            r.year is None,
            r.play_count is None,
            r.date_added is None,
            r.last_played_date is None,
    {
        TrackMetadata {
            origin,
            album_artist: None,
            composer: None,
            genre: None,
            year: None,
            track_number: None,
            disc_number: None,
            play_count: None,
            skip_count: None,
            date_added: None,
            last_played_date: None,
            last_skipped_date: None,
            modification_date: None,
            release_date: None,
            rating: None,
            cloud_status: None,
            media_kind: None,
            enabled,
        }
    }
}

#[derive(Clone, Debug, PartialEq, Eq)]
pub struct Track {
    pub id: TrackId,
    pub title: String,
    pub artist: String,
    pub album: String,
    pub duration: Duration,
    pub is_favorite: bool,
    pub metadata: TrackMetadata,
}

impl Track {
    /// A demo track that is enabled, not a favorite and has no optional metadata.
    pub fn new(id: &str, title: &str, artist: &str, album: &str, duration: Duration) -> (r: Self)
        ensures
            r.id@ == id@,
            r.title@ == title@,
            r.artist@ == artist@,
            r.album@ == album@,
            r.duration == duration,
            !r.is_favorite,
            r.metadata.enabled,
            r.metadata.origin == DataOrigin::Demo,
            r.metadata.album_artist is None,
            r.metadata.composer is None,
            r.metadata.genre is None,
            r.metadata.year is None,
            r.metadata.play_count is None,
            r.metadata.date_added is None,
            r.metadata.last_played_date is None,
    {
        Track {
            id: TrackId::new(id),
            title: title.to_owned(),
            artist: artist.to_owned(),
            album: album.to_owned(),
            duration,
            is_favorite: false,
            metadata: TrackMetadata::empty(DataOrigin::Demo, true),
        }
    }
}

impl TrackMetadata {
    /// A copy holding the same values.
    pub fn duplicate(&self) -> (r: Self)
        ensures
            r == *self,
    {
        TrackMetadata {
            origin: self.origin,
            album_artist: self.album_artist.clone(),
            composer: self.composer.clone(),
            genre: self.genre.clone(),
            year: self.year,
            track_number: self.track_number,
            disc_number: self.disc_number,
            play_count: self.play_count,
            skip_count: self.skip_count,
            date_added: self.date_added.clone(),
            last_played_date: self.last_played_date.clone(),
            last_skipped_date: self.last_skipped_date.clone(),
            modification_date: self.modification_date.clone(),
            release_date: self.release_date.clone(),
            rating: self.rating,
            cloud_status: self.cloud_status.clone(),
            media_kind: self.media_kind.clone(),
            enabled: self.enabled,
        }
    }
}

impl Track {
    /// A copy holding the same values.
    pub fn duplicate(&self) -> (r: Self)
        ensures
            r == *self,
    {
        Track {
            id: self.id.duplicate(),
            title: self.title.clone(),
            artist: self.artist.clone(),
            album: self.album.clone(),
            duration: self.duration,
            is_favorite: self.is_favorite,
            metadata: self.metadata.duplicate(),
        }
    }
}

/// The text a track is searched by: title, artist, album, album artist, composer and genre.
pub open spec fn track_search_parts(track: Track) -> Seq<Seq<char>> {
    seq![
        track.title@,
        track.artist@,
        track.album@,
        opt_text(track.metadata.album_artist),
        opt_text(track.metadata.composer),
        opt_text(track.metadata.genre),
    ]
}

/// The normalized search text of a track.
pub open spec fn track_search_text(track: Track) -> Seq<char> {
    spec_normalize(join_space(track_search_parts(track)))
}

/// Joins the six searchable fields of a track with spaces.
pub fn track_search_source(track: &Track) -> (r: String)
    ensures
        r@ == join_space(track_search_parts(*track)),
{
    let parts: [&str; 6] = [
        track.title.as_str(),
        track.artist.as_str(),
        track.album.as_str(),
        opt_str(&track.metadata.album_artist),
        opt_str(&track.metadata.composer),
        opt_str(&track.metadata.genre),
    ];
    assert(parts@.map_values(|p: &str| p@) =~= track_search_parts(*track));
    join_strs(&parts)
}

/// Joins string slices with single spaces.
pub fn join_strs(parts: &[&str]) -> (r: String)
    ensures
        r@ == join_space(parts@.map_values(|p: &str| p@)),
{
    let ghost ps = parts@.map_values(|p: &str| p@);
    let mut s = String::new();
    let mut i: usize = 0;
    while i < parts.len()
        invariant
            i <= parts@.len(),
            ps == parts@.map_values(|p: &str| p@),
            s@ == join_space(ps.subrange(0, i as int)),
        decreases parts.len() - i,
    {
        if i > 0 {
            push_char(&mut s, ' ');
        }
        push_text(&mut s, parts[i]);
        proof {
            let next = ps.subrange(0, i + 1);
            assert(next.drop_last() =~= ps.subrange(0, i as int));
            assert(next.last() == parts@[i as int]@);
            if i == 0 {
                assert(next.len() == 1);
                assert(join_space(ps.subrange(0, 0)) =~= Seq::<char>::empty());
                assert(s@ =~= join_space(next));
            } else {
                assert(s@ =~= join_space(next));
            }
        }
        i = i + 1;
    }
    assert(ps.subrange(0, parts@.len() as int) =~= ps);
    s
}

/// The words of a normalized query.
pub open spec fn query_terms(query: Seq<char>) -> Seq<Seq<char>> {
    spec_words(spec_normalize(query))
}

/// A track matches a query when its search text contains every term of the query.
pub open spec fn track_matches_query(track: Track, query: Seq<char>) -> bool {
    contains_all(track_search_text(track), query_terms(query))
}

/// The ids of the first `limit` tracks (in order) that match every term of `query`.
pub open spec fn spec_search_track_ids(tracks: Seq<Track>, query: Seq<char>, limit: nat) -> Seq<Seq<char>>
    decreases tracks.len(),
{
    if tracks.len() == 0 || limit == 0 || query_terms(query).len() == 0 {
        Seq::empty()
    } else if track_matches_query(tracks[0], query) {
        seq![tracks[0].id@] + spec_search_track_ids(tracks.drop_first(), query, (limit - 1) as nat)
    } else {
        spec_search_track_ids(tracks.drop_first(), query, limit)
    }
}

/// Normalized term list of a query, as character vectors.
pub fn query_term_chars(query: &str) -> (r: Vec<Vec<char>>)
    ensures
        r@.map_values(|t: Vec<char>| t@) == query_terms(query@),
{
    let normalized = normalize_search_text(query);
    let chars = chars_of(normalized.as_str());
    let words = split_words(&chars);
    assert(words@.map_values(|t: Vec<char>| t@) =~= query_terms(query@));
    words
}

/// Whether a track matches all of the given terms.
pub fn track_matches_terms(track: &Track, terms: &Vec<Vec<char>>) -> (r: bool)
    ensures
        r == contains_all(track_search_text(*track), terms@.map_values(|t: Vec<char>| t@)),
{
    let source = track_search_source(track);
    let normalized = normalize_search_text(source.as_str());
    let hay = chars_of(normalized.as_str());
    contains_all_terms(&hay, terms)
}

/// Finds up to `limit` tracks, in library order, whose title, artist, album, album artist,
/// composer and genre together contain every whitespace separated term of `query`
/// (case-insensitively). An empty query or a zero limit finds nothing.
pub fn search_track_ids(tracks: &[Track], query: &str, limit: usize) -> (r: Vec<TrackId>)
    ensures
        r@.map_values(|id: TrackId| id@) == spec_search_track_ids(tracks@, query@, limit as nat),
{
    let terms = query_term_chars(query);
    let mut result: Vec<TrackId> = Vec::new();
    if terms.len() == 0 || limit == 0 {
        assert(result@.map_values(|id: TrackId| id@) =~= Seq::<Seq<char>>::empty());
        return result;
    }
    let ghost q = query@;
    let mut i: usize = 0;
    assert(tracks@.subrange(0, tracks@.len() as int) =~= tracks@);
    assert(result@.map_values(|id: TrackId| id@) =~= Seq::<Seq<char>>::empty());
    assert(Seq::<Seq<char>>::empty() + spec_search_track_ids(tracks@, q, limit as nat) =~= spec_search_track_ids(tracks@, q, limit as nat));
    while i < tracks.len() && result.len() < limit
        invariant
            i <= tracks@.len(),
            result@.len() <= limit,
            terms@.map_values(|t: Vec<char>| t@) == query_terms(q),
            query_terms(q).len() > 0,
            limit > 0,
            q == query@,
            spec_search_track_ids(tracks@, q, limit as nat) == result@.map_values(|id: TrackId| id@)
                + spec_search_track_ids(tracks@.subrange(i as int, tracks@.len() as int), q, (limit - result@.len()) as nat),
        decreases tracks.len() - i,
    {
        let ghost rest = tracks@.subrange(i as int, tracks@.len() as int);
        assert(rest[0] == tracks@[i as int]);
        assert(rest.drop_first() =~= tracks@.subrange(i + 1, tracks@.len() as int));
        if track_matches_terms(&tracks[i], &terms) {
            let ghost before = result@.map_values(|id: TrackId| id@);
            result.push(tracks[i].id.duplicate());
            assert(result@.map_values(|id: TrackId| id@) =~= before + seq![tracks@[i as int].id@]);
        }
        i = i + 1;
    }
    proof {
        let rest = tracks@.subrange(i as int, tracks@.len() as int);
        if i == tracks@.len() {
            assert(rest.len() == 0);
        }
        assert(spec_search_track_ids(rest, q, (limit - result@.len()) as nat) =~= Seq::<Seq<char>>::empty());
        assert(result@.map_values(|id: TrackId| id@) + Seq::<Seq<char>>::empty() =~= result@.map_values(|id: TrackId| id@));
    }
    result
}

#[derive(Clone, Copy, Debug, Default, PartialEq, Eq, Structural)]
pub enum PlaylistKind {
    #[default]
    User,
    Smart,
    Folder,
    Subscription,
    Library,
    Unknown,
}

/// How much of a playlist's contents the client holds.
#[derive(Clone, Debug, Default, PartialEq, Eq)]
pub enum PlaylistLoadState {
    #[default]
    NotLoaded,
    Loading { loaded: usize, total: Option<usize> },
    PartiallyLoaded { loaded: usize, total: usize },
    Loaded { total: usize },
    Empty,
    Error(String),
}

impl PlaylistLoadState {
    /// A copy holding the same state.
    pub fn duplicate(&self) -> (r: Self)
        ensures
            r == *self,
    {
        match self {
            PlaylistLoadState::NotLoaded => PlaylistLoadState::NotLoaded,
            PlaylistLoadState::Loading { loaded, total } => PlaylistLoadState::Loading { loaded: *loaded, total: *total },
            PlaylistLoadState::PartiallyLoaded { loaded, total } => PlaylistLoadState::PartiallyLoaded { loaded: *loaded, total: *total },
            PlaylistLoadState::Loaded { total } => PlaylistLoadState::Loaded { total: *total },
            PlaylistLoadState::Empty => PlaylistLoadState::Empty,
            PlaylistLoadState::Error(m) => PlaylistLoadState::Error(m.clone()),
        }
    }

    /// Every track of the playlist is present.
    pub open spec fn spec_is_complete(&self) -> bool {
        self is Loaded || self is Empty
    }

    /// Opening the playlist should ask the backend for its contents.
    pub open spec fn spec_should_request_load(&self) -> bool {
        self is NotLoaded || self is Error
    }

    #[verifier::when_used_as_spec(spec_is_complete)]
    pub fn is_complete(&self) -> (r: bool)
        ensures
            r == self.spec_is_complete(),
    {
        matches!(self, PlaylistLoadState::Loaded { .. } | PlaylistLoadState::Empty)
    }

    #[verifier::when_used_as_spec(spec_should_request_load)]
    pub fn should_request_load(&self) -> (r: bool)
        ensures
            r == self.spec_should_request_load(),
    {
        matches!(self, PlaylistLoadState::NotLoaded | PlaylistLoadState::Error(_))
    }
}

#[derive(Clone, Debug, PartialEq, Eq)]
pub struct Playlist {
    pub id: PlaylistId,
    pub name: String,
    pub description: Option<String>,
    pub tracks: Vec<Track>,
    pub track_count: usize,
    pub contents_state: PlaylistLoadState,
    pub kind: PlaylistKind,
    pub parent_id: Option<PlaylistId>,
    pub origin: DataOrigin,
}

impl Playlist {
    /// A fully loaded demo playlist holding `tracks`.
    pub fn new(id: &str, name: &str, description: Option<String>, tracks: Vec<Track>) -> (r: Self)
        ensures
            r.id@ == id@,
            r.name@ == name@,
            r.description == description,
            r.tracks == tracks,
            r.track_count == tracks.len(),
            r.contents_state == (PlaylistLoadState::Loaded { total: tracks.len() }),
            r.kind == PlaylistKind::User,
            r.parent_id is None,
            r.origin == DataOrigin::Demo,
    {
        let track_count = tracks.len();
        Playlist {
            id: PlaylistId::new(id),
            name: name.to_owned(),
            description,
            tracks,
            track_count,
            contents_state: PlaylistLoadState::Loaded { total: track_count },
            kind: PlaylistKind::User,
            parent_id: None,
            origin: DataOrigin::Demo,
        }
    }

    /// A local Music.app playlist whose contents have not been requested yet.
    pub fn unloaded(
        id: &str,
        name: &str,
        description: Option<String>,
        kind: PlaylistKind,
        parent_id: Option<PlaylistId>,
    ) -> (r: Self)
        ensures
            r.id@ == id@,
            r.name@ == name@,
            r.description == description,
            r.tracks@.len() == 0,
            r.track_count == 0,
            r.contents_state == PlaylistLoadState::NotLoaded,
            r.kind == kind,
            r.parent_id == parent_id,
            r.origin == DataOrigin::LocalMusicApp,
    {
        Playlist {
            id: PlaylistId::new(id),
            name: name.to_owned(),
            description,
            tracks: Vec::new(),
            track_count: 0,
            contents_state: PlaylistLoadState::NotLoaded,
            kind,
            parent_id,
            origin: DataOrigin::LocalMusicApp,
        }
    }
}

#[derive(Clone, Debug, PartialEq, Eq)]
pub struct Album {
    pub id: AlbumId,
    pub title: String,
    pub artist: String,
    pub year: u16,
    pub added_date: String,
    pub tracks: Vec<Track>,
}

impl Album {
    pub fn new(id: &str, title: &str, artist: &str, year: u16, added_date: &str, tracks: Vec<Track>) -> (r: Self)
        ensures
            r.id@ == id@,
            r.title@ == title@,
            r.artist@ == artist@,
            r.year == year,
            r.added_date@ == added_date@,
            r.tracks == tracks,
    {
        Album {
            id: AlbumId::new(id),
            title: title.to_owned(),
            artist: artist.to_owned(),
            year,
            added_date: added_date.to_owned(),
            tracks,
        }
    }
}

#[derive(Clone, Debug, PartialEq, Eq)]
pub struct Artist {
    pub id: ArtistId,
    pub name: String,
    pub album_ids: Vec<AlbumId>,
    pub top_track_ids: Vec<TrackId>,
}

impl Artist {
    pub fn new(id: &str, name: &str, album_ids: Vec<AlbumId>, top_track_ids: Vec<TrackId>) -> (r: Self)
        ensures
            r.id@ == id@,
            r.name@ == name@,
            r.album_ids == album_ids,
            r.top_track_ids == top_track_ids,
    {
        Artist { id: ArtistId::new(id), name: name.to_owned(), album_ids, top_track_ids }
    }
}

#[derive(Clone, Debug, PartialEq, Eq)]
pub struct Station {
    pub id: StationId,
    pub name: String,
    pub description: String,
}

impl Station {
    pub fn new(id: &str, name: &str, description: &str) -> (r: Self)
        ensures
            r.id@ == id@,
            r.name@ == name@,
            r.description@ == description@,
    {
        Station { id: StationId::new(id), name: name.to_owned(), description: description.to_owned() }
    }
}

/// A track that was played, with the time it was last played.
#[derive(Clone, Debug, PartialEq, Eq)]
pub struct RecentlyPlayedEntry {
    pub track_id: TrackId,
    pub title: String,
    pub artist: String,
    pub play_count: Option<u64>,
    pub played_at: String,
}

#[derive(Clone, Copy, Debug, Default, PartialEq, Eq, Structural)]
pub enum PlaybackStatus {
    #[default]
    Stopped,
    Paused,
    Playing,
}

#[derive(Clone, Copy, Debug, Default, PartialEq, Eq, Structural)]
pub enum RepeatMode {
    #[default]
    Off,
    All,
    One,
}

impl RepeatMode {
    /// The mode after this one in the cycle Off, All, One, Off.
    pub open spec fn spec_next(self) -> RepeatMode {
        match self {
            RepeatMode::Off => RepeatMode::All,
            RepeatMode::All => RepeatMode::One,
            RepeatMode::One => RepeatMode::Off,
        }
    }

    #[verifier::when_used_as_spec(spec_next)]
    pub fn next(self) -> (r: RepeatMode)
        ensures
            r == self.spec_next(),
    {
        match self {
            RepeatMode::Off => RepeatMode::All,
            RepeatMode::All => RepeatMode::One,
            RepeatMode::One => RepeatMode::Off,
        }
    }
}

/// Cycling the repeat mode three times returns to where it started, and every mode
/// differs from the next one.
pub proof fn law_repeat_cycle(mode: RepeatMode)
    ensures
        mode.spec_next().spec_next().spec_next() == mode,
        mode.spec_next() != mode,
{
}

/// The collection that playback was started from, if the client started it.
#[derive(Clone, Debug, Default, PartialEq, Eq)]
pub enum PlaybackContext {
    #[default]
    NoContext,
    Album { album_id: AlbumId, ordered_track_ids: Vec<TrackId>, current_index: usize },
    Playlist {
        playlist_id: PlaylistId,
        ordered_track_ids: Vec<TrackId>,
        current_index: usize,
        current_source_index: usize,
        complete: bool,
    },
}

#[derive(Clone, Debug, PartialEq, Eq)]
pub struct PlaybackSnapshot {
    pub status: PlaybackStatus,
    pub current_entry_id: Option<QueueEntryId>,
    pub current_track: Option<Track>,
    pub position: Duration,
    pub volume: u8,
    pub muted: bool,
    pub shuffle: bool,
    pub repeat: RepeatMode,
    pub context: PlaybackContext,
}

impl PlaybackSnapshot {
    /// Stopped, nothing current, half volume, no shuffle or repeat and no context.
    pub fn initial() -> (r: Self)
        ensures
            r.status == PlaybackStatus::Stopped,
            r.position@ == 0,
            r.current_entry_id is None,
            r.current_track is None,
            r.volume == 50,
            !r.muted,
            !r.shuffle,
            r.repeat == RepeatMode::Off,
            r.context == PlaybackContext::NoContext,
    {
        PlaybackSnapshot {
            status: PlaybackStatus::Stopped,
            current_entry_id: None,
            current_track: None,
            position: Duration::zero(),
            volume: 50,
            muted: false,
            shuffle: false,
            repeat: RepeatMode::Off,
            context: PlaybackContext::NoContext,
        }
    }
}

impl Default for PlaybackSnapshot {
    fn default() -> (r: Self)
        ensures
            r.status == PlaybackStatus::Stopped,
            r.current_track is None,
            r.volume == 50,
            r.context == PlaybackContext::NoContext,
    {
        PlaybackSnapshot::initial()
    }
}

#[derive(Clone, Debug, PartialEq, Eq)]
pub struct QueueItem {
    pub id: QueueEntryId,
    pub track: Track,
}

impl QueueItem {
    pub fn new(id: &str, track: Track) -> (r: Self)
        ensures
            r.id@ == id@,
            r.track == track,
    {
        QueueItem { id: QueueEntryId::new(id), track }
    }
}

#[derive(Clone, Debug, Default, PartialEq, Eq)]
pub enum BackendAvailability {
    #[default]
    Available,
    NotRunning,
    Unavailable,
    PermissionDenied,
    Error(String),
}

#[derive(Clone, Debug, Default, PartialEq, Eq)]
pub enum CollectionLoadState {
    #[default]
    NotStarted,
    Loading { loaded: usize, total: usize },
    Cached { total: usize },
    Refreshing { loaded: usize, total: usize },
    Loaded { total: usize },
    Error(String),
}

#[derive(Clone, Debug, PartialEq, Eq)]
pub struct BackendSnapshot {
    pub availability: BackendAvailability,
    pub playback: PlaybackSnapshot,
    pub queue: Vec<QueueItem>,
    pub library: Vec<Track>,
    pub artists: Vec<Artist>,
    pub albums: Vec<Album>,
    pub recently_added: Vec<Album>,
    pub recently_played: Vec<RecentlyPlayedEntry>,
    pub stations: Vec<Station>,
    pub playlists: Vec<Playlist>,
    pub library_status: CollectionLoadState,
    pub playlist_status: CollectionLoadState,
}

impl Default for BackendSnapshot {
    fn default() -> (r: Self)
        ensures
            r.availability == BackendAvailability::Available,
            r.queue@.len() == 0,
            r.library@.len() == 0,
            r.artists@.len() == 0,
            r.albums@.len() == 0,
            r.playlists@.len() == 0,
            r.library_status == CollectionLoadState::NotStarted,
            r.playlist_status == CollectionLoadState::NotStarted,
    {
        BackendSnapshot {
            availability: BackendAvailability::Available,
            playback: PlaybackSnapshot::initial(),
            queue: Vec::new(),
            library: Vec::new(),
            artists: Vec::new(),
            albums: Vec::new(),
            recently_added: Vec::new(),
            recently_played: Vec::new(),
            stations: Vec::new(),
            playlists: Vec::new(),
            library_status: CollectionLoadState::NotStarted,
            playlist_status: CollectionLoadState::NotStarted,
        }
    }
}

} // verus!
