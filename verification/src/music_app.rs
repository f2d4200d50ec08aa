//! Music.app identities and the mapping of its raw records and failures into the domain.
//!
//! Tracks are addressed as `musicapp:persistent:<id>` or `musicapp:database:<id>` and
//! playlists as `musicapp:playlist:persistent:<id>`; the selectors recover the Music.app
//! property and value from those identities.  Music.app reports absent identifiers with
//! placeholder words, which never become identities.
use vstd::prelude::*;

use crate::backend::BackendError;
use crate::config::{join_path, opt_view, spec_join, spec_trim, trim_text};
use crate::domain::{
    database_prefix, persistent_prefix, BackendAvailability, Duration, PlaybackContext, PlaybackSnapshot,
    PlaybackStatus, Playlist, PlaylistId, PlaylistKind, RepeatMode, Track, TrackId,
};
use crate::local_library::{raw_track_to_domain, track_from_raw, RawTrack};
use crate::script::TrackSelector;
use crate::text::{
    has_prefix, lowercase, normalize_search_text, push_text, same_text, spec_lowercase, spec_normalize, starts_with_text,
};

verus! {

/// A playlist as Music.app lists it.
#[derive(Clone, Debug, PartialEq)]
pub struct RawPlaylist {
    pub persistent_id: String,
    pub name: String,
    pub description: Option<String>,
    pub kind: Option<String>,
    pub smart: bool,
    pub parent_persistent_id: Option<String>,
}

/// An error a script reported: the AppleScript error number, when there is one, and its text.
#[derive(Clone, Debug, PartialEq)]
pub struct RawScriptError {
    pub number: Option<i64>,
    pub message: String,
}

/// The prefix of playlist identities derived from Music.app persistent identifiers.
pub open spec fn playlist_prefix() -> Seq<char> {
    seq![
        'm', 'u', 's', 'i', 'c', 'a', 'p', 'p', ':', 'p', 'l', 'a', 'y', 'l', 'i', 's', 't',
        ':', 'p', 'e', 'r', 's', 'i', 's', 't', 'e', 'n', 't', ':'
    ]
}

/// The playlist identity of a Music.app persistent identifier.
pub fn playlist_id(persistent_id: &str) -> (r: PlaylistId)
    ensures
        r@ == playlist_prefix() + persistent_id@,
{
    let mut s = "musicapp:playlist:persistent:".to_owned();
    proof {
        reveal_strlit("musicapp:playlist:persistent:");
    }
    push_text(&mut s, persistent_id);
    assert(s@ =~= playlist_prefix() + persistent_id@);
    PlaylistId::new(s.as_str())
}

/// The Music.app property and value that address a track identity, when it has one.
pub open spec fn spec_track_selector(id: Seq<char>) -> Option<(Seq<char>, Seq<char>)> {
    if has_prefix(id, persistent_prefix()) {
        Some(("persistentID"@, id.skip(persistent_prefix().len() as int)))
    } else if has_prefix(id, database_prefix()) {
        Some(("databaseID"@, id.skip(database_prefix().len() as int)))
    } else {
        None
    }
}

/// The Music.app property and value that address a track, or `None` for an identity that
/// Music.app did not issue.
pub fn persistent_track_selector(id: &TrackId) -> (r: Option<(&'static str, &str)>)
    ensures
        match r {
            Some((p, v)) => spec_track_selector(id@) == Some((p@, v@)),
            None => spec_track_selector(id@) is None,
        },
{
    let text = id.as_str();
    proof {
        reveal_strlit("musicapp:persistent:");
        reveal_strlit("musicapp:database:");
        assert("musicapp:persistent:"@ =~= persistent_prefix());
        assert("musicapp:database:"@ =~= database_prefix());
    }
    if starts_with_text(text, "musicapp:persistent:") {
        let n = text.unicode_len();
        let value = text.substring_char(20, n);
        assert(value@ =~= id@.skip(20));
        Some(("persistentID", value))
    } else if starts_with_text(text, "musicapp:database:") {
        let n = text.unicode_len();
        let value = text.substring_char(18, n);
        assert(value@ =~= id@.skip(18));
        Some(("databaseID", value))
    } else {
        None
    }
}

/// The Music.app persistent identifier of a playlist identity, when it has one.
pub open spec fn spec_playlist_selector(id: Seq<char>) -> Option<Seq<char>> {
    if has_prefix(id, playlist_prefix()) {
        Some(id.skip(playlist_prefix().len() as int))
    } else {
        None
    }
}

/// The Music.app persistent identifier of a playlist, or `None` for a foreign identity.
pub fn persistent_playlist_selector(id: &PlaylistId) -> (r: Option<&str>)
    ensures
        match r {
            Some(v) => spec_playlist_selector(id@) == Some(v@),
            None => spec_playlist_selector(id@) is None,
        },
{
    let text = id.as_str();
    proof {
        reveal_strlit("musicapp:playlist:persistent:");
        assert("musicapp:playlist:persistent:"@ =~= playlist_prefix());
    }
    if starts_with_text(text, "musicapp:playlist:persistent:") {
        let n = text.unicode_len();
        let value = text.substring_char(29, n);
        assert(value@ =~= id@.skip(29));
        Some(value)
    } else {
        None
    }
}

/// The identifier a selector carries, and whether it is a persistent one.
pub open spec fn selector_view(s: TrackSelector) -> (bool, Seq<char>) {
    match s {
        TrackSelector::PersistentId(v) => (true, v@),
        TrackSelector::DatabaseId(v) => (false, v@),
    }
}

/// What addresses a track identity in Music.app, as `selector_view` shows it.
pub open spec fn spec_selector_view(id: Seq<char>) -> Option<(bool, Seq<char>)> {
    if has_prefix(id, persistent_prefix()) {
        Some((true, id.skip(persistent_prefix().len() as int)))
    } else if has_prefix(id, database_prefix()) {
        Some((false, id.skip(database_prefix().len() as int)))
    } else {
        None
    }
}

/// The selector that addresses a track, or `TrackNotFound` for an identity Music.app did
/// not issue.
pub fn track_selector(track_id: &TrackId) -> (r: Result<TrackSelector, BackendError>)
    ensures
        match r {
            Ok(s) => spec_selector_view(track_id@) == Some(selector_view(s)),
            Err(e) => spec_selector_view(track_id@) is None && e == BackendError::TrackNotFound(*track_id),
        },
{
    proof {
        reveal_strlit("persistentID");
        reveal_strlit("databaseID");
    }
    match persistent_track_selector(track_id) {
        None => Err(BackendError::TrackNotFound(track_id.duplicate())),
        Some((property, value)) => {
            assert(property@ == "persistentID"@ || property@ == "databaseID"@);
            assert("persistentID"@ != "databaseID"@) by {
                assert("persistentID"@.len() != "databaseID"@.len());
            }
            if same_text(property, "persistentID") {
                Ok(TrackSelector::PersistentId(value.to_owned()))
            } else {
                Ok(TrackSelector::DatabaseId(value.to_owned()))
            }
        },
    }
}

/// Whether two selectors address the same track the same way.
pub fn same_selector(a: &TrackSelector, b: &TrackSelector) -> (r: bool)
    ensures
        r == (selector_view(*a) == selector_view(*b)),
{
    match (a, b) {
        (TrackSelector::PersistentId(x), TrackSelector::PersistentId(y)) => same_text(x.as_str(), y.as_str()),
        (TrackSelector::DatabaseId(x), TrackSelector::DatabaseId(y)) => same_text(x.as_str(), y.as_str()),
        _ => false,
    }
}

/// A copy of a selector.
pub fn copy_selector(s: &TrackSelector) -> (r: TrackSelector)
    ensures
        selector_view(r) == selector_view(*s),
{
    match s {
        TrackSelector::PersistentId(v) => TrackSelector::PersistentId(v.clone()),
        TrackSelector::DatabaseId(v) => TrackSelector::DatabaseId(v.clone()),
    }
}

/// A character lowercased in the ASCII range only.
pub open spec fn ascii_lower(c: char) -> char {
    if 'A' <= c && c <= 'Z' {
        ((c as u32) + 32) as char
    } else {
        c
    }
}

/// Whether `s`, lowercased in the ASCII range, equals `word`.
pub open spec fn ascii_lower_equals(s: Seq<char>, word: Seq<char>) -> bool {
    s.len() == word.len() && forall|i: int| 0 <= i < s.len() ==> ascii_lower(#[trigger] s[i]) == word[i]
}

fn lower_matches(c: char, w: char) -> (r: bool)
    ensures
        r == (ascii_lower(c) == w),
{
    if 'A' <= c && c <= 'Z' {
        (c as u32) + 32 == (w as u32)
    } else {
        c == w
    }
}

fn lower_equals(s: &str, word: &str) -> (r: bool)
    ensures
        r == ascii_lower_equals(s@, word@),
{
    let n = s.unicode_len();
    if n != word.unicode_len() {
        return false;
    }
    let mut i: usize = 0;
    while i < n
        invariant
            n == s@.len(),
            n == word@.len(),
            i <= n,
            forall|k: int| 0 <= k < i ==> ascii_lower(#[trigger] s@[k]) == word@[k],
        decreases n - i,
    {
        if !lower_matches(s.get_char(i), word.get_char(i)) {
            return false;
        }
        i = i + 1;
    }
    true
}

/// The words Music.app uses for a missing identifier.
pub open spec fn is_placeholder(s: Seq<char>) -> bool {
    ascii_lower_equals(s, "null"@) || ascii_lower_equals(s, "undefined"@)
        || ascii_lower_equals(s, "missing value"@) || ascii_lower_equals(s, "0"@)
        || ascii_lower_equals(s, "-1"@)
}

/// The trimmed identifier, unless it is blank or a placeholder for a missing one.
pub open spec fn spec_normalize_identifier(value: Seq<char>) -> Option<Seq<char>> {
    let t = spec_trim(value);
    if t.len() == 0 || is_placeholder(t) {
        None
    } else {
        Some(t)
    }
}

/// The trimmed identifier Music.app reported, or `None` when it reported none.
pub fn normalize_identifier(value: &str) -> (r: Option<String>)
    ensures
        match r {
            Some(v) => spec_normalize_identifier(value@) == Some(v@),
            None => spec_normalize_identifier(value@) is None,
        },
{
    let trimmed = trim_text(value);
    let t = trimmed.as_str();
    if t.is_empty() || lower_equals(t, "null") || lower_equals(t, "undefined")
        || lower_equals(t, "missing value") || lower_equals(t, "0") || lower_equals(t, "-1")
    {
        None
    } else {
        Some(trimmed)
    }
}

/// A text value, unless it is blank.
pub open spec fn spec_nonempty(value: Option<String>) -> Option<String> {
    match value {
        Some(v) => if spec_trim(v@).len() > 0 {
            Some(v)
        } else {
            None
        },
        None => None,
    }
}

/// `value`, unless it is absent or blank.
pub fn nonempty(value: Option<String>) -> (r: Option<String>)
    ensures
        r == spec_nonempty(value),
{
    match value {
        Some(v) => {
            let trimmed = trim_text(v.as_str());
            if trimmed.as_str().is_empty() {
                None
            } else {
                Some(v)
            }
        },
        None => None,
    }
}

/// The kind of a playlist from the Music.app class name and its smart flag.
pub open spec fn spec_playlist_kind(kind: Option<String>, smart: bool) -> PlaylistKind {
    match kind {
        None => PlaylistKind::Unknown,
        Some(k) => {
            let n = spec_normalize(k@);
            if n == "folderplaylist"@ {
                PlaylistKind::Folder
            } else if n == "subscriptionplaylist"@ {
                PlaylistKind::Subscription
            } else if n == "libraryplaylist"@ {
                PlaylistKind::Library
            } else if n == "userplaylist"@ {
                if smart {
                    PlaylistKind::Smart
                } else {
                    PlaylistKind::User
                }
            } else {
                PlaylistKind::Unknown
            }
        },
    }
}

fn playlist_kind(kind: &Option<String>, smart: bool) -> (r: PlaylistKind)
    ensures
        r == spec_playlist_kind(*kind, smart),
{
    match kind {
        None => PlaylistKind::Unknown,
        Some(k) => {
            let normalized = normalize_search_text(k.as_str());
            let n = normalized.as_str();
            if same_text(n, "folderplaylist") {
                PlaylistKind::Folder
            } else if same_text(n, "subscriptionplaylist") {
                PlaylistKind::Subscription
            } else if same_text(n, "libraryplaylist") {
                PlaylistKind::Library
            } else if same_text(n, "userplaylist") {
                if smart {
                    PlaylistKind::Smart
                } else {
                    PlaylistKind::User
                }
            } else {
                PlaylistKind::Unknown
            }
        },
    }
}

/// The identities of an optional parent playlist.
pub open spec fn parent_view(parent: Option<PlaylistId>) -> Option<Seq<char>> {
    match parent {
        Some(p) => Some(p@),
        None => None,
    }
}

/// An unloaded local playlist for a Music.app listing entry.
pub fn raw_playlist_to_domain(raw: RawPlaylist) -> (r: Playlist)
    ensures
        r.id@ == playlist_prefix() + raw.persistent_id@,
        r.name@ == raw.name@,
        r.description == spec_nonempty(raw.description),
        r.kind == spec_playlist_kind(raw.kind, raw.smart),
        parent_view(r.parent_id) == (match raw.parent_persistent_id {
            Some(p) => Some(playlist_prefix() + p@),
            None => None::<Seq<char>>,
        }),
        r.tracks@.len() == 0,
        r.track_count == 0,
        r.contents_state == crate::domain::PlaylistLoadState::NotLoaded,
        r.origin == crate::domain::DataOrigin::LocalMusicApp,
{
    let kind = playlist_kind(&raw.kind, raw.smart);
    let id = playlist_id(raw.persistent_id.as_str());
    let parent = match &raw.parent_persistent_id {
        Some(p) => Some(playlist_id(p.as_str())),
        None => None,
    };
    let description = nonempty(raw.description);
    Playlist::unloaded(id.as_str(), raw.name.as_str(), description, kind, parent)
}

/// Read-only metadata for the local Music.app library cache.
#[derive(Clone, Debug, PartialEq, Eq)]
pub struct LocalCacheStatus {
    pub path: Option<String>,
    pub schema_version: Option<u32>,
    pub tracks: Option<usize>,
    pub playlists: Option<usize>,
    pub last_updated_unix_seconds: Option<u64>,
    pub readable: bool,
}

/// The outcome of explicitly removing only the persistent local metadata cache.
#[derive(Clone, Copy, Debug, PartialEq, Eq, Structural)]
pub enum LocalCacheClearResult {
    Removed,
    NotFound,
    Unavailable,
}

/// The schema version of the local library cache file.
pub const CACHE_SCHEMA_VERSION: u32 = 1;

/// The directory, under the cache root, that holds the local library cache.
pub const CACHE_DIRECTORY: &'static str = "apple-music-tui";

/// The file name of the local library cache.
pub const CACHE_FILENAME: &'static str = "musicapp-library-v1.json";

/// Where the local library cache lives: under `$XDG_CACHE_HOME` when that is an absolute
/// path, otherwise under the home directory's cache folder (`Library/Caches` on macOS,
/// `.cache` elsewhere); without either, there is no cache path.
pub open spec fn spec_cache_path(xdg_cache_home: Option<Seq<char>>, home: Option<Seq<char>>, is_macos: bool) -> Option<Seq<char>> {
    let root = match xdg_cache_home {
        Some(x) if x.len() > 0 && x[0] == '/' => Some(x),
        _ => match home {
            Some(h) if h.len() > 0 => Some(spec_join(h, if is_macos { "Library/Caches"@ } else { ".cache"@ })),
            _ => None,
        },
    };
    match root {
        Some(r) => Some(spec_join(spec_join(r, CACHE_DIRECTORY@), CACHE_FILENAME@)),
        None => None,
    }
}

/// The local library cache path from the values of `XDG_CACHE_HOME` and `HOME`.
pub fn cache_path_from(xdg_cache_home: Option<&str>, home: Option<&str>, is_macos: bool) -> (r: Option<String>)
    ensures
        match spec_cache_path(opt_view(xdg_cache_home), opt_view(home), is_macos) {
            Some(p) => r matches Some(s) && s@ == p,
            None => r is None,
        },
{
    let mut root: Option<String> = None;
    if let Some(x) = xdg_cache_home {
        if x.unicode_len() > 0 && x.get_char(0) == '/' {
            root = Some(x.to_owned());
        }
    }
    if root.is_none() {
        if let Some(h) = home {
            if h.unicode_len() > 0 {
                root = Some(join_path(h, if is_macos { "Library/Caches" } else { ".cache" }));
            }
        }
    }
    match root {
        Some(r) => {
            let dir = join_path(r.as_str(), CACHE_DIRECTORY);
            Some(join_path(dir.as_str(), CACHE_FILENAME))
        },
        None => None,
    }
}

/// Why a Music.app query failed.
#[derive(Clone, Debug, PartialEq, Eq)]
pub enum BackendFailure {
    NotRunning,
    Unavailable,
    PermissionDenied,
    Error(String),
}

/// Whether an error text reports that Automation access was refused.
pub open spec fn spec_permission_error(message: Seq<char>) -> bool {
    let lower = crate::text::spec_lowercase(message);
    crate::text::seq_contains(lower, "-1743"@) || crate::text::seq_contains(lower, "not authorized"@)
        || crate::text::seq_contains(lower, "not permitted"@)
}

/// Whether an error text reports that Automation access was refused.
pub fn contains_permission_error(message: &str) -> (r: bool)
    ensures
        r == spec_permission_error(message@),
{
    let lower = crate::text::lowercase(message);
    let hay = crate::text::chars_of(lower.as_str());
    let a = crate::text::chars_of("-1743");
    let b = crate::text::chars_of("not authorized");
    let c = crate::text::chars_of("not permitted");
    crate::text::contains_chars(&hay, &a) || crate::text::contains_chars(&hay, &b)
        || crate::text::contains_chars(&hay, &c)
}

/// Why running an automation script failed.
#[derive(Clone, Debug, PartialEq, Eq)]
pub enum AutomationError {
    /// Music.app automation exists only on macOS.
    UnsupportedPlatform,
    Spawn(String),
    Timeout,
    Failed { code: Option<i32>, stderr: String },
    InvalidUtf8,
    PickerResponse(String),
}

/// The exit status as it is shown: `Some(<code>)` or `None`.
pub open spec fn status_text(code: Option<i32>) -> Seq<char> {
    match code {
        Some(c) => "Some("@ + crate::text::signed_decimal(c as int) + ")"@,
        None => "None"@,
    }
}

/// The text of an automation error.
pub open spec fn spec_automation_message(e: AutomationError) -> Seq<char> {
    match e {
        AutomationError::UnsupportedPlatform => "Music.app requires macOS"@,
        AutomationError::Spawn(m) => "could not start osascript: "@ + m@,
        AutomationError::Timeout => "Music.app automation timed out"@,
        AutomationError::Failed { code, stderr } => "osascript failed with status "@ + status_text(code) + ": "@ + stderr@,
        AutomationError::InvalidUtf8 => "osascript returned non-UTF-8 output"@,
        AutomationError::PickerResponse(m) => "native file picker returned invalid data: "@ + m@,
    }
}

impl AutomationError {
    /// The text of the error.
    pub fn message(&self) -> (r: String)
        ensures
            r@ == spec_automation_message(*self),
    {
        match self {
            AutomationError::UnsupportedPlatform => "Music.app requires macOS".to_owned(),
            AutomationError::Spawn(m) => {
                let mut s = "could not start osascript: ".to_owned();
                push_text(&mut s, m.as_str());
                s
            },
            AutomationError::Timeout => "Music.app automation timed out".to_owned(),
            AutomationError::Failed { code, stderr } => {
                let mut s = "osascript failed with status ".to_owned();
                match code {
                    Some(c) => {
                        push_text(&mut s, "Some(");
                        crate::text::push_signed_decimal(&mut s, *c as i64);
                        push_text(&mut s, ")");
                    },
                    None => push_text(&mut s, "None"),
                }
                push_text(&mut s, ": ");
                push_text(&mut s, stderr.as_str());
                s
            },
            AutomationError::InvalidUtf8 => "osascript returned non-UTF-8 output".to_owned(),
            AutomationError::PickerResponse(m) => {
                let mut s = "native file picker returned invalid data: ".to_owned();
                push_text(&mut s, m.as_str());
                s
            },
        }
    }
}

/// Whether `r` classifies a failed automation run: refused Automation access, Music.app
/// not running (error -600 in the script's error output), unavailable off macOS, or any
/// other failure with its text.
pub open spec fn automation_classified(e: AutomationError, r: BackendFailure) -> bool {
    match e {
        AutomationError::UnsupportedPlatform => r == BackendFailure::Unavailable,
        AutomationError::Failed { stderr, .. } => if spec_permission_error(stderr@) {
            r == BackendFailure::PermissionDenied
        } else if crate::text::seq_contains(stderr@, "-600"@) {
            r == BackendFailure::NotRunning
        } else {
            r matches BackendFailure::Error(m) && m@ == spec_automation_message(e)
        },
        _ => r matches BackendFailure::Error(m) && m@ == spec_automation_message(e),
    }
}

/// Classifies a failed automation run.
pub fn classify_automation_error(error: &AutomationError) -> (r: BackendFailure)
    ensures
        automation_classified(*error, r),
{
    match error {
        AutomationError::UnsupportedPlatform => BackendFailure::Unavailable,
        AutomationError::Failed { stderr, .. } => {
            if contains_permission_error(stderr.as_str()) {
                BackendFailure::PermissionDenied
            } else {
                let hay = crate::text::chars_of(stderr.as_str());
                let code = crate::text::chars_of("-600");
                if crate::text::contains_chars(&hay, &code) {
                    BackendFailure::NotRunning
                } else {
                    BackendFailure::Error(error.message())
                }
            }
        },
        _ => BackendFailure::Error(error.message()),
    }
}

/// How a script error is classified: refused Automation access, Music.app not running
/// (error -600), or any other failure with its message.
pub open spec fn spec_classify_script_error(error: RawScriptError) -> BackendFailure {
    if error.number == Some(-1743i64) || spec_permission_error(error.message@) {
        BackendFailure::PermissionDenied
    } else if error.number == Some(-600i64) {
        BackendFailure::NotRunning
    } else {
        BackendFailure::Error(error.message)
    }
}

/// Classifies an error a script reported.
pub fn classify_script_error(error: &RawScriptError) -> (r: BackendFailure)
    ensures
        r == spec_classify_script_error(*error),
{
    let permission = match error.number {
        Some(n) => n == -1743,
        None => false,
    };
    if permission || contains_permission_error(error.message.as_str()) {
        BackendFailure::PermissionDenied
    } else if error.number == Some(-600i64) {
        BackendFailure::NotRunning
    } else {
        BackendFailure::Error(error.message.clone())
    }
}

/// The backend availability a failure leaves.
pub open spec fn spec_availability_for_failure(failure: BackendFailure) -> BackendAvailability {
    match failure {
        BackendFailure::NotRunning => BackendAvailability::NotRunning,
        BackendFailure::Unavailable => BackendAvailability::Unavailable,
        BackendFailure::PermissionDenied => BackendAvailability::PermissionDenied,
        BackendFailure::Error(message) => BackendAvailability::Error(message),
    }
}

/// The backend availability a failure leaves.
pub fn availability_for_failure(failure: BackendFailure) -> (r: BackendAvailability)
    ensures
        r == spec_availability_for_failure(failure),
{
    match failure {
        BackendFailure::NotRunning => BackendAvailability::NotRunning,
        BackendFailure::Unavailable => BackendAvailability::Unavailable,
        BackendFailure::PermissionDenied => BackendAvailability::PermissionDenied,
        BackendFailure::Error(message) => BackendAvailability::Error(message),
    }
}

/// The message shown for a failed playback or playlist operation.
pub open spec fn spec_failure_message(failure: BackendFailure) -> Seq<char> {
    match failure {
        BackendFailure::NotRunning => "Music.app is not running"@,
        BackendFailure::Unavailable => "Music.app is unavailable"@,
        BackendFailure::PermissionDenied => "macOS denied Automation access to Music.app"@,
        BackendFailure::Error(message) => message@,
    }
}

/// The message shown for a failed playback or playlist operation.
pub fn failure_message(failure: &BackendFailure) -> (r: String)
    ensures
        r@ == spec_failure_message(*failure),
{
    match failure {
        BackendFailure::NotRunning => "Music.app is not running".to_owned(),
        BackendFailure::Unavailable => "Music.app is unavailable".to_owned(),
        BackendFailure::PermissionDenied => "macOS denied Automation access to Music.app".to_owned(),
        BackendFailure::Error(message) => message.clone(),
    }
}

/// The message shown when a library refresh fails; other errors stay generic.
pub open spec fn spec_refresh_failure_message(failure: BackendFailure) -> Seq<char> {
    match failure {
        BackendFailure::NotRunning => "Music.app is not running"@,
        BackendFailure::Unavailable => "Music.app is unavailable"@,
        BackendFailure::PermissionDenied => "Automation access to Music.app was denied"@,
        BackendFailure::Error(_) => "Music.app could not refresh the library"@,
    }
}

/// The message shown when a library refresh fails.
pub fn refresh_failure_message(failure: &BackendFailure) -> (r: String)
    ensures
        r@ == spec_refresh_failure_message(*failure),
{
    match failure {
        BackendFailure::NotRunning => "Music.app is not running".to_owned(),
        BackendFailure::Unavailable => "Music.app is unavailable".to_owned(),
        BackendFailure::PermissionDenied => "Automation access to Music.app was denied".to_owned(),
        BackendFailure::Error(_) => "Music.app could not refresh the library".to_owned(),
    }
}

/// What Music.app reports of its player, with the numbers already converted: the volume
/// rounded and clamped to 0..=100 (0 where it reported none or no finite number) and the
/// position as a duration.
#[derive(Clone, Debug, PartialEq)]
pub struct RawPlayerState {
    pub running: bool,
    pub state: Option<String>,
    pub position: Duration,
    pub volume: u8,
    pub muted: Option<bool>,
    pub shuffle: Option<bool>,
    pub repeat_mode: Option<String>,
    pub track: Option<RawTrack>,
}

/// The player state word: trimmed and lowercased.
pub open spec fn player_state_word(state: Seq<char>) -> Seq<char> {
    spec_lowercase(spec_trim(state))
}

/// The playback status a reported player state means.
pub open spec fn status_of_state(state: Option<Seq<char>>) -> PlaybackStatus {
    match state {
        Some(s) => {
            let w = player_state_word(s);
            if w == "playing"@ || w == "fast forwarding"@ || w == "rewinding"@ {
                PlaybackStatus::Playing
            } else if w == "paused"@ {
                PlaybackStatus::Paused
            } else {
                PlaybackStatus::Stopped
            }
        },
        None => PlaybackStatus::Stopped,
    }
}

/// The problem with a reported player state, if Music.app reported none or an unknown one.
pub open spec fn state_problem(state: Option<Seq<char>>) -> Option<Seq<char>> {
    match state {
        Some(s) => {
            let w = player_state_word(s);
            if w == "playing"@ || w == "fast forwarding"@ || w == "rewinding"@ || w == "paused"@ || w == "stopped"@ {
                None
            } else {
                Some("unknown Music.app player state '"@ + w + "'"@)
            }
        },
        None => Some("Music.app response omitted player state"@),
    }
}

/// The repeat mode Music.app reports by name.
pub open spec fn repeat_of(mode: Option<Seq<char>>) -> RepeatMode {
    if mode == Some("one"@) {
        RepeatMode::One
    } else if mode == Some("all"@) {
        RepeatMode::All
    } else {
        RepeatMode::Off
    }
}

/// Whether `r` is what a reported player state means for availability and playback: a
/// player that is not running is `NotRunning` with the initial playback; otherwise the
/// state word decides status and availability, the track is the cached one or else the
/// reported one, and the remaining settings are taken as reported, absent flags off.
pub open spec fn playback_from_raw_state(raw: RawPlayerState, cached_track: Option<Track>, r: (BackendAvailability, PlaybackSnapshot)) -> bool {
    if !raw.running {
        &&& r.0 == BackendAvailability::NotRunning
        &&& r.1.status == PlaybackStatus::Stopped
        &&& r.1.current_entry_id is None
        &&& r.1.current_track is None
        &&& r.1.position@ == 0
        &&& r.1.volume == 50
        &&& !r.1.muted
        &&& !r.1.shuffle
        &&& r.1.repeat == RepeatMode::Off
        &&& r.1.context == PlaybackContext::NoContext
    } else {
        let state = opt_string_view(raw.state);
        &&& (match state_problem(state) {
            None => r.0 == BackendAvailability::Available,
            Some(m) => r.0 matches BackendAvailability::Error(e) && e@ == m,
        })
        &&& r.1.status == status_of_state(state)
        &&& r.1.current_entry_id is None
        &&& (match cached_track {
            Some(t) => r.1.current_track == Some(t),
            None => match raw.track {
                Some(rt) => r.1.current_track matches Some(t) && track_from_raw(rt, t),
                None => r.1.current_track is None,
            },
        })
        &&& r.1.position == raw.position
        &&& r.1.volume == raw.volume
        &&& r.1.muted == (match raw.muted { Some(m) => m, None => false })
        &&& r.1.shuffle == (match raw.shuffle { Some(m) => m, None => false })
        &&& r.1.repeat == repeat_of(opt_string_view(raw.repeat_mode))
        &&& r.1.context == PlaybackContext::NoContext
    }
}

/// The view of an optional string.
pub open spec fn opt_string_view(o: Option<String>) -> Option<Seq<char>> {
    match o {
        Some(s) => Some(s@),
        None => None,
    }
}

/// The availability and playback a reported player state means, as
/// `playback_from_raw_state` describes; `cached_track` is the track already known for the
/// reported one, if any.
pub fn playback_from_raw(raw: &RawPlayerState, cached_track: Option<Track>) -> (r: (BackendAvailability, PlaybackSnapshot))
    ensures
        playback_from_raw_state(*raw, cached_track, r),
{
    if !raw.running {
        return (BackendAvailability::NotRunning, PlaybackSnapshot::initial());
    }
    let current_track = match cached_track {
        Some(t) => Some(t),
        None => match &raw.track {
            Some(rt) => Some(raw_track_to_domain(rt.clone_raw())),
            None => None,
        },
    };
    proof {
        reveal_strlit("playing");
        reveal_strlit("fast forwarding");
        reveal_strlit("rewinding");
        reveal_strlit("paused");
        reveal_strlit("stopped");
        reveal_strlit("one");
        reveal_strlit("all");
    }
    let (status, availability) = match &raw.state {
        Some(state) => {
            let trimmed = trim_text(state.as_str());
            let word = lowercase(trimmed.as_str());
            let w = word.as_str();
            if same_text(w, "playing") || same_text(w, "fast forwarding") || same_text(w, "rewinding") {
                (PlaybackStatus::Playing, BackendAvailability::Available)
            } else if same_text(w, "paused") {
                (PlaybackStatus::Paused, BackendAvailability::Available)
            } else if same_text(w, "stopped") {
                (PlaybackStatus::Stopped, BackendAvailability::Available)
            } else {
                let mut message = "unknown Music.app player state '".to_owned();
                push_text(&mut message, w);
                push_text(&mut message, "'");
                proof {
                    reveal_strlit("unknown Music.app player state '");
                    reveal_strlit("'");
                }
                (PlaybackStatus::Stopped, BackendAvailability::Error(message))
            }
        },
        None => (PlaybackStatus::Stopped, BackendAvailability::Error("Music.app response omitted player state".to_owned())),
    };
    let repeat = match &raw.repeat_mode {
        Some(mode) => if same_text(mode.as_str(), "one") {
            RepeatMode::One
        } else if same_text(mode.as_str(), "all") {
            RepeatMode::All
        } else {
            RepeatMode::Off
        },
        None => RepeatMode::Off,
    };
    (
        availability,
        PlaybackSnapshot {
            status,
            current_entry_id: None,
            current_track,
            position: raw.position,
            volume: raw.volume,
            muted: match raw.muted {
                Some(m) => m,
                None => false,
            },
            shuffle: match raw.shuffle {
                Some(m) => m,
                None => false,
            },
            repeat,
            context: PlaybackContext::NoContext,
        },
    )
}

} // verus!
