//! The JavaScript for Automation scripts that drive Music.app, built from typed requests.
//!
//! Every script shares one frame: a prefix of reading helpers, the running check, the
//! player state, the current track and a suffix that returns the result as JSON.  A
//! request adds its own operation and, for collection reads, a bounded batch reader.
//! Identifiers reach the script only as JSON string literals, never as raw text.
use vstd::prelude::*;

use crate::text::{push_decimal, push_signed_decimal, push_text, signed_decimal, spec_decimal};
use crate::local_library::hex_char;

verus! {

/// How a track is addressed in Music.app: by its persistent or its database identifier.
#[derive(Clone, Debug, Eq, PartialEq)]
pub enum TrackSelector {
    PersistentId(String),
    DatabaseId(String),
}

/// One query or command sent to Music.app.
#[derive(Clone, Debug, Eq, PartialEq)]
pub enum ScriptRequest {
    FullState,
    Poll,
    PollPlaylistTransition {
        playlist_persistent_id: String,
        expected: TrackSelector,
        target: TrackSelector,
        max_wait_ms: u64,
    },
    DiscoverPlaylists,
    LibraryBatch { start: usize, limit: usize, total: Option<usize> },
    PlaylistBatch {
        playlist_persistent_id: String,
        start: usize,
        limit: usize,
        total: Option<usize>,
    },
    OpenPlayer,
    Play,
    Pause,
    Stop,
    PlayPause,
    PlayTrack(TrackSelector),
    PlayTrackOnce(TrackSelector),
    LoadTrackArtwork { track: TrackSelector, max_bytes: usize },
    PlayPlaylistTrackOnce { playlist_persistent_id: String, track: TrackSelector },
    PlayPlaylist(String),
    RemovePlaylistTrack { playlist_persistent_id: String, index: usize, expected: TrackSelector },
    Next,
    Previous,
    SeekBy(i64),
    SetVolume(u8),
    ToggleShuffle,
    CycleRepeat,
}

/// How serde_json writes one character inside a JSON string: the quote, the backslash and
/// the control characters with short escapes get them, other characters below U+0020 are
/// written as `\u00` and two lowercase hexadecimal digits, everything else as it is.
pub open spec fn json_escape_char(c: char) -> Seq<char> {
    if c == '"' {
        seq!['\\', '"']
    } else if c == '\\' {
        seq!['\\', '\\']
    } else if c == '\u{8}' {
        seq!['\\', 'b']
    } else if c == '\t' {
        seq!['\\', 't']
    } else if c == '\n' {
        seq!['\\', 'n']
    } else if c == '\u{c}' {
        seq!['\\', 'f']
    } else if c == '\r' {
        seq!['\\', 'r']
    } else if (c as int) < 0x20 {
        seq!['\\', 'u', '0', '0', hex_char((c as int) / 16), hex_char((c as int) % 16)]
    } else {
        seq![c]
    }
}

/// The characters of a string, each escaped as `json_escape_char` says.
pub open spec fn json_escaped(s: Seq<char>) -> Seq<char>
    decreases s.len(),
{
    if s.len() == 0 {
        Seq::empty()
    } else {
        json_escaped(s.drop_last()) + json_escape_char(s.last())
    }
}

/// What `serde_json::to_string` writes for a string: its JSON string literal, the escaped
/// characters between double quotes.
pub open spec fn json_text(s: Seq<char>) -> Seq<char> {
    seq!['"'] + json_escaped(s) + seq!['"']
}

/// Trusted: `serde_json::to_string` on a string slice, which writes a JSON string literal
/// as `json_text` states (serde_json's `format_escaped_str` and its `ESCAPE` table).
/// Serializing a string into memory has no failing path in serde_json, so the error arm
/// never runs.
#[verifier::external_body]
pub(crate) fn js_string(value: &str) -> (r: String)
    ensures
        r@ == json_text(value@),
{
    match serde_json::to_string(value) {
        Ok(text) => text,
        Err(_) => String::new(),
    }
}

/// The Music.app property a selector reads.
pub open spec fn selector_property(s: TrackSelector) -> Seq<char> {
    match s {
        TrackSelector::PersistentId(_) => "persistentID"@,
        TrackSelector::DatabaseId(_) => "databaseID"@,
    }
}

/// The identifier a selector carries.
pub open spec fn selector_value(s: TrackSelector) -> Seq<char> {
    match s {
        TrackSelector::PersistentId(v) => v@,
        TrackSelector::DatabaseId(v) => v@,
    }
}

fn selector_parts(selector: &TrackSelector) -> (r: (&'static str, &str))
    ensures
        r.0@ == selector_property(*selector),
        r.1@ == selector_value(*selector),
{
    match selector {
        TrackSelector::PersistentId(value) => ("persistentID", value.as_str()),
        TrackSelector::DatabaseId(value) => ("databaseID", value.as_str()),
    }
}

/// A boolean as a JavaScript literal.
pub open spec fn bool_word(b: bool) -> Seq<char> {
    if b {
        "true"@
    } else {
        "false"@
    }
}

fn bool_text(b: bool) -> (r: &'static str)
    ensures
        r@ == bool_word(b),
{
    if b {
        "true"
    } else {
        "false"
    }
}

/// Whether the current track's favorite flag is read: every request but the polls.
pub open spec fn spec_includes_favorite(r: ScriptRequest) -> bool {
    !(r is Poll || r is PollPlaylistTransition)
}

/// The request's own statements: empty for pure reads, a player command otherwise.
pub open spec fn spec_operation(r: ScriptRequest) -> Seq<char> {
    match r {
        ScriptRequest::PollPlaylistTransition { playlist_persistent_id, expected, target, max_wait_ms } => "const transitionDeadline = Date.now() + "@ + spec_decimal(max_wait_ms as nat) + ";\nconst initialTransitionState = String(music.playerState());\nconst initialTransitionTrack = music.currentTrack;\nconst initialPersistentId = readIdentifier(() => initialTransitionTrack.persistentID());\nconst initialDatabaseId = readIdentifier(() => initialTransitionTrack.databaseID());\nconst initialMatches = "@ + bool_word(expected is PersistentId) + "\n? initialPersistentId === "@ + json_text(selector_value(expected)) + "\n: initialDatabaseId === "@ + json_text(selector_value(expected)) + ";\nif (initialMatches && initialTransitionState === 'playing') {\nwhile (Date.now() <= transitionDeadline && String(music.playerState()) === 'playing') {\ndelay(0.05);\n}\n}\nconst finalTransitionState = String(music.playerState());\nconst finalTransitionTrack = music.currentTrack;\nconst finalPersistentId = readIdentifier(() => finalTransitionTrack.persistentID());\nconst finalDatabaseId = readIdentifier(() => finalTransitionTrack.databaseID());\nconst finalHasIdentity = finalPersistentId !== null || finalDatabaseId !== null;\nconst finalMatches = !finalHasIdentity || ("@ + bool_word(expected is PersistentId) + "\n? finalPersistentId === "@ + json_text(selector_value(expected)) + "\n: finalDatabaseId === "@ + json_text(selector_value(expected)) + ");\nif (finalTransitionState === 'stopped' && finalMatches) {\nconst transitionPlaylists = music.playlists.whose({persistentID: "@ + json_text(playlist_persistent_id@) + "})();\nif (transitionPlaylists.length === 0) throw new Error('Playlist continuation source is no longer available');\nconst transitionTargets = transitionPlaylists[0].tracks.whose({"@ + selector_property(target) + ": "@ + json_text(selector_value(target)) + "})();\nif (transitionTargets.length === 0) throw new Error('Next playlist track is no longer available');\nmusic.play(transitionTargets[0], {once: true});\nresult.sessionAdvanced = true;\n}"@,
        ScriptRequest::PlayTrack(track) => "const selectedTracks = music.libraryPlaylists()[0].tracks.whose({"@ + selector_property(track) + ": "@ + json_text(selector_value(track)) + "})();\nif (selectedTracks.length === 0) throw new Error('Selected track is no longer available');\nmusic.play(selectedTracks[0]);"@,
        ScriptRequest::PlayTrackOnce(track) => "const selectedTracks = music.libraryPlaylists()[0].tracks.whose({"@ + selector_property(track) + ": "@ + json_text(selector_value(track)) + "})();\nif (selectedTracks.length === 0) throw new Error('Selected album track is no longer available');\nmusic.play(selectedTracks[0], {once: true});"@,
        ScriptRequest::LoadTrackArtwork { track, max_bytes } => "const artworkCandidates = [];\nconst artworkAttempts = [];\nconst artworkCurrent = safe(() => music.currentTrack());\nconst artworkCurrentId = artworkCurrent === null ? null : readIdentifier(() => artworkCurrent."@ + selector_property(track) + "());\nif (artworkCurrentId !== null && artworkCurrentId === "@ + json_text(selector_value(track)) + ") { artworkCandidates.push({ track: artworkCurrent, resolver: 'current_track' }); artworkAttempts.push('current_track:matched'); } else artworkAttempts.push('current_track:identity_mismatch');\nconst artworkLibraryTracks = safe(() => music.libraryPlaylists()[0].tracks.whose({"@ + selector_property(track) + ": "@ + json_text(selector_value(track)) + "})()) || [];\nif (artworkLibraryTracks.length > 0) { artworkCandidates.push({ track: artworkLibraryTracks[0], resolver: '"@ + selector_property(track) + "_library' }); artworkAttempts.push('"@ + selector_property(track) + "_library:matched'); } else artworkAttempts.push('"@ + selector_property(track) + "_library:not_found');\nlet artworkSawNoArtwork = false;\nlet artworkResolved = false;\nfor (const artworkCandidate of artworkCandidates) {\nconst artworkItems = safe(() => artworkCandidate.track.artworks()) || [];\nif (artworkItems.length === 0) { artworkSawNoArtwork = true; artworkAttempts.push(artworkCandidate.resolver + ':no_artwork'); continue; }\nconst descriptor = readText(() => artworkItems[0].rawData());\nconst match = descriptor === null ? null : /\\(\\$([0-9A-Fa-f]+)\\$\\)/.exec(descriptor);\nif (match === null) { artworkSawNoArtwork = true; artworkAttempts.push(artworkCandidate.resolver + ':unreadable'); continue; }\nconst encodedBytes = Math.floor(match[1].length / 2);\nresult.artwork = encodedBytes > "@ + spec_decimal(max_bytes as nat) + "\n? { tooLarge: true, encodedBytes, resolver: artworkCandidate.resolver, attempts: artworkAttempts }\n: { rawData: match[1], encodedBytes, resolver: artworkCandidate.resolver, attempts: artworkAttempts };\nartworkResolved = true;\nbreak;\n}\nif (!artworkResolved) result.artwork = artworkSawNoArtwork\n? { missing: true, attempts: artworkAttempts }\n: { transient: true, reason: 'requested artwork track could not be resolved from currentTrack or library', attempts: artworkAttempts };"@,
        ScriptRequest::PlayPlaylistTrackOnce { playlist_persistent_id, track } => "const selectedPlaylists = music.playlists.whose({persistentID: "@ + json_text(playlist_persistent_id@) + "})();\nif (selectedPlaylists.length === 0) throw new Error('Selected playlist is no longer available');\nconst selectedTracks = selectedPlaylists[0].tracks.whose({"@ + selector_property(track) + ": "@ + json_text(selector_value(track)) + "})();\nif (selectedTracks.length === 0) throw new Error('Selected track is no longer available in this playlist');\nmusic.play(selectedTracks[0], {once: true});"@,
        ScriptRequest::PlayPlaylist(persistent_id) => "const selectedPlaylists = music.playlists.whose({persistentID: "@ + json_text(persistent_id@) + "})();\nif (selectedPlaylists.length === 0) throw new Error('Selected playlist is no longer available');\nmusic.play(selectedPlaylists[0]);"@,
        ScriptRequest::RemovePlaylistTrack { playlist_persistent_id, index, expected } => "const editablePlaylists = music.userPlaylists.whose({persistentID: "@ + json_text(playlist_persistent_id@) + "})();\nif (editablePlaylists.length === 0) throw new Error('Editable user playlist is no longer available');\nconst editablePlaylist = editablePlaylists[0];\nif (Boolean(safe(() => editablePlaylist.smart()))) throw new Error('Smart playlists cannot be edited');\nconst editableTracks = editablePlaylist.tracks();\nif ("@ + spec_decimal(index as nat) + " >= editableTracks.length) throw new Error('Selected playlist entry is no longer available');\nconst editableTrack = editableTracks["@ + spec_decimal(index as nat) + "];\nif (readIdentifier(() => editableTrack."@ + selector_property(expected) + "()) !== "@ + json_text(selector_value(expected)) + ") throw new Error('Playlist changed; selected entry no longer matches');\nmusic.delete(editableTrack);"@,
        ScriptRequest::SeekBy(seconds) => "music.playerPosition = Math.max(0, Number(music.playerPosition()) + "@ + signed_decimal(seconds as int) + ");"@,
        ScriptRequest::SetVolume(volume) => "music.soundVolume = Math.max(0, Math.min(100, "@ + spec_decimal(volume as nat) + "));"@,
        ScriptRequest::OpenPlayer => "music.activate();"@,
        ScriptRequest::Play => "music.play();"@,
        ScriptRequest::Pause => "music.pause();"@,
        ScriptRequest::Stop => "music.stop();"@,
        ScriptRequest::PlayPause => "music.playpause();"@,
        ScriptRequest::Next => "music.nextTrack();"@,
        ScriptRequest::Previous => "music.previousTrack();"@,
        ScriptRequest::ToggleShuffle => "music.shuffleEnabled = !Boolean(music.shuffleEnabled());"@,
        ScriptRequest::CycleRepeat => "const currentRepeat = String(music.songRepeat());music.songRepeat = currentRepeat === 'off' ? 'all' : (currentRepeat === 'all' ? 'one' : 'off');"@,
        ScriptRequest::FullState => Seq::<char>::empty(),
        ScriptRequest::Poll => Seq::<char>::empty(),
        ScriptRequest::DiscoverPlaylists => Seq::<char>::empty(),
        ScriptRequest::LibraryBatch { .. } => Seq::<char>::empty(),
        ScriptRequest::PlaylistBatch { .. } => Seq::<char>::empty(),
    }
}

/// The batch total: the known count, or a script expression that reads it.
pub open spec fn batch_total_text(total: Option<usize>, fallback: Seq<char>) -> Seq<char> {
    match total {
        Some(t) => spec_decimal(t as nat),
        None => fallback,
    }
}

/// The collection reader a request appends: the playlist listing, or one bounded batch of
/// the library or of one playlist.
pub open spec fn spec_batch_text(r: ScriptRequest) -> Seq<char> {
    match r {
        ScriptRequest::DiscoverPlaylists => SCRIPT_PLAYLISTS@,
        ScriptRequest::LibraryBatch { start, limit, total } => SCRIPT_BATCH_HELPERS@ + "result.libraryBatch = readTrackBatch(music.libraryPlaylists()[0], "@
            + spec_decimal(start as nat) + ", "@ + spec_decimal(limit as nat) + ", "@
            + batch_total_text(total, "music.libraryPlaylists()[0].tracks().length"@) + ");\n"@,
        ScriptRequest::PlaylistBatch { playlist_persistent_id, start, limit, total } => SCRIPT_BATCH_HELPERS@
            + "const batchPlaylists = music.playlists.whose({persistentID: "@ + json_text(playlist_persistent_id@)
            + "})();\nif (batchPlaylists.length === 0) throw new Error('Selected playlist is no longer available');\n"@
            + "const playlistBatch = readTrackBatch(batchPlaylists[0], "@ + spec_decimal(start as nat) + ", "@
            + spec_decimal(limit as nat) + ", "@ + batch_total_text(total, "batchPlaylists[0].tracks().length"@)
            + ");\nplaylistBatch.playlistPersistentId = "@ + json_text(playlist_persistent_id@)
            + ";\nresult.playlistBatch = playlistBatch;\n"@,
        _ => Seq::<char>::empty(),
    }
}

/// The whole script for a request.  Opening the player runs its operation before the
/// running check, so that a stopped Music.app is launched; every other request checks
/// first and returns early when Music.app is not running.
pub open spec fn spec_script(r: ScriptRequest) -> Seq<char> {
    let head = if r is OpenPlayer {
        SCRIPT_PREFIX@ + spec_operation(r) + SCRIPT_RUNNING_CHECK@
    } else {
        SCRIPT_PREFIX@ + SCRIPT_RUNNING_CHECK@ + spec_operation(r)
    };
    head + SCRIPT_STATE@ + "const includeFavorite = "@ + bool_word(spec_includes_favorite(r))
        + ";\n"@ + SCRIPT_CURRENT_TRACK@ + spec_batch_text(r) + SCRIPT_SUFFIX@
}

impl ScriptRequest {
    fn includes_favorite(&self) -> (r: bool)
        ensures
            r == spec_includes_favorite(*self),
    {
        !matches!(self, ScriptRequest::Poll | ScriptRequest::PollPlaylistTransition { .. })
    }

    /// The request's own statements.
    pub fn operation(&self) -> (r: String)
        ensures
            r@ == spec_operation(*self),
    {
        match self {
            ScriptRequest::PollPlaylistTransition { playlist_persistent_id, expected, target, max_wait_ms } => {
                let playlist_persistent_id_json = js_string(playlist_persistent_id.as_str());
                let expected_value_json = js_string(selector_parts(expected).1);
                let target_value_json = js_string(selector_parts(target).1);
                let mut s = "const transitionDeadline = Date.now() + ".to_owned();
                push_decimal(&mut s, *max_wait_ms);
                push_text(&mut s, ";\nconst initialTransitionState = String(music.playerState());\nconst initialTransitionTrack = music.currentTrack;\nconst initialPersistentId = readIdentifier(() => initialTransitionTrack.persistentID());\nconst initialDatabaseId = readIdentifier(() => initialTransitionTrack.databaseID());\nconst initialMatches = ");
                push_text(&mut s, bool_text(matches!(expected, TrackSelector::PersistentId(_))));
                push_text(&mut s, "\n? initialPersistentId === ");
                push_text(&mut s, expected_value_json.as_str());
                push_text(&mut s, "\n: initialDatabaseId === ");
                push_text(&mut s, expected_value_json.as_str());
                push_text(&mut s, ";\nif (initialMatches && initialTransitionState === 'playing') {\nwhile (Date.now() <= transitionDeadline && String(music.playerState()) === 'playing') {\ndelay(0.05);\n}\n}\nconst finalTransitionState = String(music.playerState());\nconst finalTransitionTrack = music.currentTrack;\nconst finalPersistentId = readIdentifier(() => finalTransitionTrack.persistentID());\nconst finalDatabaseId = readIdentifier(() => finalTransitionTrack.databaseID());\nconst finalHasIdentity = finalPersistentId !== null || finalDatabaseId !== null;\nconst finalMatches = !finalHasIdentity || (");
                push_text(&mut s, bool_text(matches!(expected, TrackSelector::PersistentId(_))));
                push_text(&mut s, "\n? finalPersistentId === ");
                push_text(&mut s, expected_value_json.as_str());
                push_text(&mut s, "\n: finalDatabaseId === ");
                push_text(&mut s, expected_value_json.as_str());
                push_text(&mut s, ");\nif (finalTransitionState === 'stopped' && finalMatches) {\nconst transitionPlaylists = music.playlists.whose({persistentID: ");
                push_text(&mut s, playlist_persistent_id_json.as_str());
                push_text(&mut s, "})();\nif (transitionPlaylists.length === 0) throw new Error('Playlist continuation source is no longer available');\nconst transitionTargets = transitionPlaylists[0].tracks.whose({");
                push_text(&mut s, selector_parts(target).0);
                push_text(&mut s, ": ");
                push_text(&mut s, target_value_json.as_str());
                push_text(&mut s, "})();\nif (transitionTargets.length === 0) throw new Error('Next playlist track is no longer available');\nmusic.play(transitionTargets[0], {once: true});\nresult.sessionAdvanced = true;\n}");
                s
            },
            ScriptRequest::PlayTrack(track) => {
                let track_value_json = js_string(selector_parts(track).1);
                let mut s = "const selectedTracks = music.libraryPlaylists()[0].tracks.whose({".to_owned();
                push_text(&mut s, selector_parts(track).0);
                push_text(&mut s, ": ");
                push_text(&mut s, track_value_json.as_str());
                push_text(&mut s, "})();\nif (selectedTracks.length === 0) throw new Error('Selected track is no longer available');\nmusic.play(selectedTracks[0]);");
                s
            },
            ScriptRequest::PlayTrackOnce(track) => {
                let track_value_json = js_string(selector_parts(track).1);
                let mut s = "const selectedTracks = music.libraryPlaylists()[0].tracks.whose({".to_owned();
                push_text(&mut s, selector_parts(track).0);
                push_text(&mut s, ": ");
                push_text(&mut s, track_value_json.as_str());
                push_text(&mut s, "})();\nif (selectedTracks.length === 0) throw new Error('Selected album track is no longer available');\nmusic.play(selectedTracks[0], {once: true});");
                s
            },
            ScriptRequest::LoadTrackArtwork { track, max_bytes } => {
                let track_value_json = js_string(selector_parts(track).1);
                let mut s = "const artworkCandidates = [];\nconst artworkAttempts = [];\nconst artworkCurrent = safe(() => music.currentTrack());\nconst artworkCurrentId = artworkCurrent === null ? null : readIdentifier(() => artworkCurrent.".to_owned();
                push_text(&mut s, selector_parts(track).0);
                push_text(&mut s, "());\nif (artworkCurrentId !== null && artworkCurrentId === ");
                push_text(&mut s, track_value_json.as_str());
                push_text(&mut s, ") { artworkCandidates.push({ track: artworkCurrent, resolver: 'current_track' }); artworkAttempts.push('current_track:matched'); } else artworkAttempts.push('current_track:identity_mismatch');\nconst artworkLibraryTracks = safe(() => music.libraryPlaylists()[0].tracks.whose({");
                push_text(&mut s, selector_parts(track).0);
                push_text(&mut s, ": ");
                push_text(&mut s, track_value_json.as_str());
                push_text(&mut s, "})()) || [];\nif (artworkLibraryTracks.length > 0) { artworkCandidates.push({ track: artworkLibraryTracks[0], resolver: '");
                push_text(&mut s, selector_parts(track).0);
                push_text(&mut s, "_library' }); artworkAttempts.push('");
                push_text(&mut s, selector_parts(track).0);
                push_text(&mut s, "_library:matched'); } else artworkAttempts.push('");
                push_text(&mut s, selector_parts(track).0);
                push_text(&mut s, "_library:not_found');\nlet artworkSawNoArtwork = false;\nlet artworkResolved = false;\nfor (const artworkCandidate of artworkCandidates) {\nconst artworkItems = safe(() => artworkCandidate.track.artworks()) || [];\nif (artworkItems.length === 0) { artworkSawNoArtwork = true; artworkAttempts.push(artworkCandidate.resolver + ':no_artwork'); continue; }\nconst descriptor = readText(() => artworkItems[0].rawData());\nconst match = descriptor === null ? null : /\\(\\$([0-9A-Fa-f]+)\\$\\)/.exec(descriptor);\nif (match === null) { artworkSawNoArtwork = true; artworkAttempts.push(artworkCandidate.resolver + ':unreadable'); continue; }\nconst encodedBytes = Math.floor(match[1].length / 2);\nresult.artwork = encodedBytes > ");
                push_decimal(&mut s, *max_bytes as u64);
                push_text(&mut s, "\n? { tooLarge: true, encodedBytes, resolver: artworkCandidate.resolver, attempts: artworkAttempts }\n: { rawData: match[1], encodedBytes, resolver: artworkCandidate.resolver, attempts: artworkAttempts };\nartworkResolved = true;\nbreak;\n}\nif (!artworkResolved) result.artwork = artworkSawNoArtwork\n? { missing: true, attempts: artworkAttempts }\n: { transient: true, reason: 'requested artwork track could not be resolved from currentTrack or library', attempts: artworkAttempts };");
                s
            },
            ScriptRequest::PlayPlaylistTrackOnce { playlist_persistent_id, track } => {
                let playlist_persistent_id_json = js_string(playlist_persistent_id.as_str());
                let track_value_json = js_string(selector_parts(track).1);
                let mut s = "const selectedPlaylists = music.playlists.whose({persistentID: ".to_owned();
                push_text(&mut s, playlist_persistent_id_json.as_str());
                push_text(&mut s, "})();\nif (selectedPlaylists.length === 0) throw new Error('Selected playlist is no longer available');\nconst selectedTracks = selectedPlaylists[0].tracks.whose({");
                push_text(&mut s, selector_parts(track).0);
                push_text(&mut s, ": ");
                push_text(&mut s, track_value_json.as_str());
                push_text(&mut s, "})();\nif (selectedTracks.length === 0) throw new Error('Selected track is no longer available in this playlist');\nmusic.play(selectedTracks[0], {once: true});");
                s
            },
            ScriptRequest::PlayPlaylist(persistent_id) => {
                let persistent_id_json = js_string(persistent_id.as_str());
                let mut s = "const selectedPlaylists = music.playlists.whose({persistentID: ".to_owned();
                push_text(&mut s, persistent_id_json.as_str());
                push_text(&mut s, "})();\nif (selectedPlaylists.length === 0) throw new Error('Selected playlist is no longer available');\nmusic.play(selectedPlaylists[0]);");
                s
            },
            ScriptRequest::RemovePlaylistTrack { playlist_persistent_id, index, expected } => {
                let playlist_persistent_id_json = js_string(playlist_persistent_id.as_str());
                let expected_value_json = js_string(selector_parts(expected).1);
                let mut s = "const editablePlaylists = music.userPlaylists.whose({persistentID: ".to_owned();
                push_text(&mut s, playlist_persistent_id_json.as_str());
                push_text(&mut s, "})();\nif (editablePlaylists.length === 0) throw new Error('Editable user playlist is no longer available');\nconst editablePlaylist = editablePlaylists[0];\nif (Boolean(safe(() => editablePlaylist.smart()))) throw new Error('Smart playlists cannot be edited');\nconst editableTracks = editablePlaylist.tracks();\nif (");
                push_decimal(&mut s, *index as u64);
                push_text(&mut s, " >= editableTracks.length) throw new Error('Selected playlist entry is no longer available');\nconst editableTrack = editableTracks[");
                push_decimal(&mut s, *index as u64);
                push_text(&mut s, "];\nif (readIdentifier(() => editableTrack.");
                push_text(&mut s, selector_parts(expected).0);
                push_text(&mut s, "()) !== ");
                push_text(&mut s, expected_value_json.as_str());
                push_text(&mut s, ") throw new Error('Playlist changed; selected entry no longer matches');\nmusic.delete(editableTrack);");
                s
            },
            ScriptRequest::SeekBy(seconds) => {

                let mut s = "music.playerPosition = Math.max(0, Number(music.playerPosition()) + ".to_owned();
                push_signed_decimal(&mut s, *seconds);
                push_text(&mut s, ");");
                s
            },
            ScriptRequest::SetVolume(volume) => {

                let mut s = "music.soundVolume = Math.max(0, Math.min(100, ".to_owned();
                push_decimal(&mut s, *volume as u64);
                push_text(&mut s, "));");
                s
            },
            ScriptRequest::OpenPlayer => "music.activate();".to_owned(),
            ScriptRequest::Play => "music.play();".to_owned(),
            ScriptRequest::Pause => "music.pause();".to_owned(),
            ScriptRequest::Stop => "music.stop();".to_owned(),
            ScriptRequest::PlayPause => "music.playpause();".to_owned(),
            ScriptRequest::Next => "music.nextTrack();".to_owned(),
            ScriptRequest::Previous => "music.previousTrack();".to_owned(),
            ScriptRequest::ToggleShuffle => "music.shuffleEnabled = !Boolean(music.shuffleEnabled());".to_owned(),
            ScriptRequest::CycleRepeat => "const currentRepeat = String(music.songRepeat());music.songRepeat = currentRepeat === 'off' ? 'all' : (currentRepeat === 'all' ? 'one' : 'off');".to_owned(),
            ScriptRequest::FullState => String::new(),
            ScriptRequest::Poll => String::new(),
            ScriptRequest::DiscoverPlaylists => String::new(),
            ScriptRequest::LibraryBatch { .. } => String::new(),
            ScriptRequest::PlaylistBatch { .. } => String::new(),
        }
    }
}

fn batch_text(request: &ScriptRequest) -> (r: String)
    ensures
        r@ == spec_batch_text(*request),
{
    match request {
        ScriptRequest::DiscoverPlaylists => SCRIPT_PLAYLISTS.to_owned(),
        ScriptRequest::LibraryBatch { start, limit, total } => {
            let mut s = SCRIPT_BATCH_HELPERS.to_owned();
            push_text(&mut s, "result.libraryBatch = readTrackBatch(music.libraryPlaylists()[0], ");
            push_decimal(&mut s, *start as u64);
            push_text(&mut s, ", ");
            push_decimal(&mut s, *limit as u64);
            push_text(&mut s, ", ");
            match total {
                Some(t) => push_decimal(&mut s, *t as u64),
                None => push_text(&mut s, "music.libraryPlaylists()[0].tracks().length"),
            }
            push_text(&mut s, ");\n");
            s
        },
        ScriptRequest::PlaylistBatch { playlist_persistent_id, start, limit, total } => {
            let persistent_id = js_string(playlist_persistent_id.as_str());
            let mut s = SCRIPT_BATCH_HELPERS.to_owned();
            push_text(&mut s, "const batchPlaylists = music.playlists.whose({persistentID: ");
            push_text(&mut s, persistent_id.as_str());
            push_text(&mut s, "})();\nif (batchPlaylists.length === 0) throw new Error('Selected playlist is no longer available');\n");
            push_text(&mut s, "const playlistBatch = readTrackBatch(batchPlaylists[0], ");
            push_decimal(&mut s, *start as u64);
            push_text(&mut s, ", ");
            push_decimal(&mut s, *limit as u64);
            push_text(&mut s, ", ");
            match total {
                Some(t) => push_decimal(&mut s, *t as u64),
                None => push_text(&mut s, "batchPlaylists[0].tracks().length"),
            }
            push_text(&mut s, ");\nplaylistBatch.playlistPersistentId = ");
            push_text(&mut s, persistent_id.as_str());
            push_text(&mut s, ";\nresult.playlistBatch = playlistBatch;\n");
            s
        },
        _ => String::new(),
    }
}

/// The complete script for a request.
pub fn build_script(request: &ScriptRequest) -> (r: String)
    ensures
        r@ == spec_script(*request),
{
    let mut script = SCRIPT_PREFIX.to_owned();
    let operation = request.operation();
    if matches!(request, ScriptRequest::OpenPlayer) {
        push_text(&mut script, operation.as_str());
        push_text(&mut script, SCRIPT_RUNNING_CHECK);
    } else {
        push_text(&mut script, SCRIPT_RUNNING_CHECK);
        push_text(&mut script, operation.as_str());
    }
    push_text(&mut script, SCRIPT_STATE);
    push_text(&mut script, "const includeFavorite = ");
    push_text(&mut script, bool_text(request.includes_favorite()));
    push_text(&mut script, ";\n");
    push_text(&mut script, SCRIPT_CURRENT_TRACK);
    let batch = batch_text(request);
    push_text(&mut script, batch.as_str());
    push_text(&mut script, SCRIPT_SUFFIX);
    script
}

/// The opening of every script: the Music.app handle and the reading helpers.
pub const SCRIPT_PREFIX: &'static str = r#"(() => {
const music = Application("com.apple.Music");
const result = { running: false };
const safe = (read) => {
    try {
        const value = read();
        return value === undefined ? null : value;
    } catch (_) {
        return null;
    }
};
const readText = (read) => {
    const value = safe(read);
    if (value === null || value === undefined) return null;
    const text = String(value).trim();
    return text.length === 0 ? null : text;
};
const readIdentifier = (read) => {
    const text = readText(read);
    if (text === null) return null;
    const normalized = text.toLowerCase();
    return ["null", "undefined", "missing value", "0", "-1"].includes(normalized)
        ? null
        : text;
};
const errorInfo = (error) => ({
    number: Number.isFinite(error.errorNumber) ? error.errorNumber : null,
    message: String(error.message || error)
});
try {
"#;

/// Records whether Music.app runs and returns early when it does not.
pub const SCRIPT_RUNNING_CHECK: &'static str = r#"
    result.running = Boolean(music.running());
    if (!result.running) return JSON.stringify(result);
"#;

/// Reads the player state, position, volume, mute, shuffle and repeat.
pub const SCRIPT_STATE: &'static str = r#"
    result.state = String(music.playerState());
    result.position = Number(music.playerPosition());
    result.volume = Number(music.soundVolume());
    result.muted = Boolean(music.mute());
    result.shuffle = Boolean(music.shuffleEnabled());
    result.repeat = String(music.songRepeat());
"#;

/// Reads the identity and basic metadata of the current track.
pub const SCRIPT_CURRENT_TRACK: &'static str = r#"
    const track = music.currentTrack;
    const persistentId = readIdentifier(() => track.persistentID());
    const databaseId = readIdentifier(() => track.databaseID());
    const name = readText(() => track.name());
    const artist = readText(() => track.artist());
    const album = readText(() => track.album());
    const rawDuration = safe(() => Number(track.duration()));
    const duration = Number.isFinite(rawDuration) && rawDuration >= 0 ? rawDuration : null;
    const hasTrack = persistentId !== null || databaseId !== null || name !== null
        || artist !== null || album !== null || duration !== null;
    if (hasTrack) {
        result.track = {
            persistentId,
            databaseId,
            name,
            artist,
            album,
            duration,
            favorited: includeFavorite ? safe(() => Boolean(track.favorited())) : null
        };
    }
"#;

/// Lists the visible playlists with their kind, description and parent folder.
pub const SCRIPT_PLAYLISTS: &'static str = r#"
    const allPlaylistProperties = safe(() => music.playlists.properties()) || [];
    const userPlaylistProperties = safe(() => music.userPlaylists.properties()) || [];
    const userPlaylistDescriptions = safe(() => music.userPlaylists.description()) || [];
    const userPlaylistReferences = safe(() => music.userPlaylists()) || [];
    const userInfo = {};
    for (let index = 0; index < userPlaylistProperties.length; index += 1) {
        const properties = userPlaylistProperties[index] || {};
        const id = readIdentifier(() => properties.persistentID);
        if (id === null) continue;
        userInfo[id] = {
            smart: Boolean(properties.smart),
            description: readText(() => userPlaylistDescriptions[index]),
            parentPersistentId: readIdentifier(() => userPlaylistReferences[index].parent().persistentID())
        };
    }
    result.playlists = allPlaylistProperties
        .filter((properties) => properties && properties.visible !== false
            && String(properties.class) !== "libraryPlaylist")
        .map((properties) => {
            const id = readIdentifier(() => properties.persistentID);
            const details = id === null ? null : userInfo[id];
            return {
                persistentId: id,
                name: readText(() => properties.name) || "Untitled Playlist",
                description: details ? details.description : null,
                kind: readText(() => properties.class),
                smart: details ? details.smart : false,
                parentPersistentId: details ? details.parentPersistentId : null
            };
        })
        .filter((playlist) => playlist.persistentId !== null);
"#;

/// Reads one bounded slice of a track container through property arrays.
pub const SCRIPT_BATCH_HELPERS: &'static str = r#"
    const serializable = (value) => {
        if (value === null || value === undefined) return null;
        if (value instanceof Date) return value.toISOString();
        if (["string", "number", "boolean"].includes(typeof value)) return value;
        return String(value);
    };
    const readValues = (read, count) => {
        const values = safe(read);
        if (!Array.isArray(values)) return Array(count).fill(null);
        const normalized = values.map(serializable);
        while (normalized.length < count) normalized.push(null);
        return normalized;
    };
    const readSingleTrack = (track) => ({
        persistentId: serializable(safe(() => track.persistentID())),
        databaseId: serializable(safe(() => track.databaseID())),
        name: serializable(safe(() => track.name())),
        artist: serializable(safe(() => track.artist())),
        album: serializable(safe(() => track.album())),
        albumArtist: serializable(safe(() => track.albumArtist())),
        composer: serializable(safe(() => track.composer())),
        genre: serializable(safe(() => track.genre())),
        duration: serializable(safe(() => track.duration())),
        favorited: serializable(safe(() => track.favorited())),
        disliked: serializable(safe(() => track.disliked())),
        year: serializable(safe(() => track.year())),
        trackNumber: serializable(safe(() => track.trackNumber())),
        discNumber: serializable(safe(() => track.discNumber())),
        playedCount: serializable(safe(() => track.playedCount())),
        skippedCount: serializable(safe(() => track.skippedCount())),
        dateAdded: serializable(safe(() => track.dateAdded())),
        playedDate: serializable(safe(() => track.playedDate())),
        skippedDate: serializable(safe(() => track.skippedDate())),
        modificationDate: serializable(safe(() => track.modificationDate())),
        releaseDate: serializable(safe(() => track.releaseDate())),
        rating: serializable(safe(() => track.rating())),
        enabled: serializable(safe(() => track.enabled())),
        cloudStatus: serializable(safe(() => track.cloudStatus())),
        mediaKind: serializable(safe(() => track.class()))
    });
    const readTrackBatch = (container, start, limit, knownTotal) => {
        const total = Number(knownTotal);
        const count = Math.max(0, Math.min(limit, total - start));
        if (count === 0) return { start, total, tracks: [] };
        const tracks = container.tracks.slice(start, start + count);
        const fields = {
            persistentId: readValues(() => tracks.persistentID(), count),
            databaseId: readValues(() => tracks.databaseID(), count),
            name: readValues(() => tracks.name(), count),
            artist: readValues(() => tracks.artist(), count),
            album: readValues(() => tracks.album(), count),
            albumArtist: readValues(() => tracks.albumArtist(), count),
            composer: readValues(() => tracks.composer(), count),
            genre: readValues(() => tracks.genre(), count),
            duration: readValues(() => tracks.duration(), count),
            favorited: readValues(() => tracks.favorited(), count),
            disliked: readValues(() => tracks.disliked(), count),
            year: readValues(() => tracks.year(), count),
            trackNumber: readValues(() => tracks.trackNumber(), count),
            discNumber: readValues(() => tracks.discNumber(), count),
            playedCount: readValues(() => tracks.playedCount(), count),
            skippedCount: readValues(() => tracks.skippedCount(), count),
            dateAdded: readValues(() => tracks.dateAdded(), count),
            playedDate: readValues(() => tracks.playedDate(), count),
            skippedDate: readValues(() => tracks.skippedDate(), count),
            modificationDate: readValues(() => tracks.modificationDate(), count),
            releaseDate: readValues(() => tracks.releaseDate(), count),
            rating: readValues(() => tracks.rating(), count),
            enabled: readValues(() => tracks.enabled(), count),
            cloudStatus: readValues(() => tracks.cloudStatus(), count),
            mediaKind: readValues(() => tracks.class(), count)
        };
        const primaryUnavailable = fields.name.every((value) => value === null)
            && fields.persistentId.every((value) => value === null)
            && fields.databaseId.every((value) => value === null);
        if (primaryUnavailable) {
            // Some user playlists return concrete track references that reject property-array
            // selectors. Keep the fallback bounded so those Apple Events cannot monopolize the
            // backend worker; subsequent polls continue at the returned offset.
            const references = container.tracks();
            const fallbackCount = Math.min(count, 20);
            const records = references
                .slice(start, start + fallbackCount)
                .map(readSingleTrack);
            return { start, total, tracks: records };
        }
        const records = [];
        for (let index = 0; index < count; index += 1) {
            const record = {};
            Object.keys(fields).forEach((key) => { record[key] = fields[key][index]; });
            records.push(record);
        }
        return { start, total, tracks: records };
    };
"#;

/// Returns the result as JSON, recording a thrown error in it.
pub const SCRIPT_SUFFIX: &'static str = r#"
    return JSON.stringify(result);
} catch (error) {
    result.error = errorInfo(error);
    return JSON.stringify(result);
}
})();
"#;

} // verus!
