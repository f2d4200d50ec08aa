//! The `doctor` report: named checks, each passing, warning or failing with a detail.
//!
//! The checks that read the machine (files, the Keychain, Music.app, the Apple API) are
//! made by the caller; the functions here decide what each observed outcome reports.
//! Warnings never count as failures, and no check detail repeats a secret or a raw
//! automation error.
use vstd::prelude::*;

use crate::backend::{spec_backend_error_message, BackendError};
use crate::config::{
    ascii_lowercase, expand_home, identifier_note, identifier_ok, opt_view, spec_config_message,
    spec_expand_home, spec_required, spec_trim, storefront_note, trim_text, validate_identifier,
    validate_storefront, ConfigError,
};
use crate::domain::BackendAvailability;
use crate::music_app::LocalCacheStatus;
use crate::text::{push_decimal, push_text, spec_decimal};

verus! {

/// The package version the report names.
pub const VERSION: &'static str = "0.1.0";

/// The outcome of one check.
#[derive(Clone, Copy, Debug, PartialEq, Eq, Structural)]
pub enum CheckStatus {
    Pass,
    Warning,
    Failure,
}

/// One named check and what it found.
#[derive(Clone, Debug, PartialEq, Eq)]
pub struct DoctorCheck {
    pub name: &'static str,
    pub status: CheckStatus,
    pub detail: String,
}

/// The checks of one `doctor` run, in the order they were made.
#[derive(Clone, Debug, PartialEq, Eq)]
pub struct DoctorReport {
    pub checks: Vec<DoctorCheck>,
}

/// A check as its name, status and detail text.
pub open spec fn check_view(c: DoctorCheck) -> (Seq<char>, CheckStatus, Seq<char>) {
    (c.name@, c.status, c.detail@)
}

/// The checks of a report as names, statuses and detail texts.
pub open spec fn checks_view(cs: Seq<DoctorCheck>) -> Seq<(Seq<char>, CheckStatus, Seq<char>)> {
    cs.map_values(|c: DoctorCheck| check_view(c))
}

/// Whether any check failed.
pub open spec fn spec_has_failures(cs: Seq<DoctorCheck>) -> bool {
    exists|i: int| 0 <= i < cs.len() && (#[trigger] cs[i]).status == CheckStatus::Failure
}

impl Default for DoctorReport {
    fn default() -> (r: Self)
        ensures
            r.checks@.len() == 0,
    {
        DoctorReport { checks: Vec::new() }
    }
}

impl DoctorReport {
    /// Records one more check.
    pub fn push(&mut self, name: &'static str, status: CheckStatus, detail: &str)
        ensures
            final(self).checks@.len() == old(self).checks@.len() + 1,
            final(self).checks@.take(old(self).checks@.len() as int) == old(self).checks@,
            check_view(final(self).checks@.last()) == (name@, status, detail@),
    {
        let ghost before = self.checks@;
        self.checks.push(DoctorCheck { name, status, detail: detail.to_owned() });
        assert(self.checks@.take(before.len() as int) =~= before);
    }

    /// Whether any check failed; warnings do not count.
    pub fn has_failures(&self) -> (r: bool)
        ensures
            r == spec_has_failures(self.checks@),
    {
        let mut i: usize = 0;
        while i < self.checks.len()
            invariant
                i <= self.checks@.len(),
                forall|k: int| 0 <= k < i ==> (#[trigger] self.checks@[k]).status != CheckStatus::Failure,
            decreases self.checks.len() - i,
        {
            if self.checks[i].status == CheckStatus::Failure {
                return true;
            }
            i = i + 1;
        }
        false
    }
}

/// The detail reported for any failed Music.app query.
pub open spec fn music_app_failure_detail() -> Seq<char> {
    "Music.app query failed; ensure Music.app is installed/running and Automation is allowed"@
}

/// The detail shown for a failed Music.app query; the automation error itself is not
/// shown.
pub fn safe_music_app_error(message: String) -> (r: String)
    ensures
        r@ == music_app_failure_detail(),
{
    "Music.app query failed; ensure Music.app is installed/running and Automation is allowed".to_owned()
}

/// Whether a report grew by exactly the given checks.
pub open spec fn appended(old: Seq<DoctorCheck>, new: Seq<DoctorCheck>, added: Seq<(Seq<char>, CheckStatus, Seq<char>)>) -> bool {
    &&& new.len() == old.len() + added.len()
    &&& new.take(old.len() as int) == old
    &&& checks_view(new.skip(old.len() as int)) == added
}

proof fn lemma_appended_push(
    a: Seq<DoctorCheck>,
    b: Seq<DoctorCheck>,
    c: Seq<DoctorCheck>,
    added: Seq<(Seq<char>, CheckStatus, Seq<char>)>,
    one: (Seq<char>, CheckStatus, Seq<char>),
)
    requires
        appended(a, b, added),
        c.len() == b.len() + 1,
        c.take(b.len() as int) == b,
        check_view(c.last()) == one,
    ensures
        appended(a, c, added.push(one)),
{
    assert(c.take(a.len() as int) =~= b.take(a.len() as int));
    assert(checks_view(c.skip(a.len() as int)) =~= checks_view(b.skip(a.len() as int)).push(one)) by {
        assert forall|i: int| 0 <= i < c.len() - a.len() implies #[trigger] checks_view(c.skip(a.len() as int))[i]
            == checks_view(b.skip(a.len() as int)).push(one)[i] by {
            if i < b.len() - a.len() {
                assert(c[a.len() + i] == b[a.len() + i]);
            }
        }
    }
}

/// The detail of the library cache check.
pub open spec fn cache_detail(cache: LocalCacheStatus) -> Seq<char> {
    let path = match cache.path {
        Some(p) => p@,
        None => "unavailable"@,
    };
    if cache.readable {
        let schema = match cache.schema_version {
            Some(v) => v as nat,
            None => 0,
        };
        let tracks = match cache.tracks {
            Some(v) => v as nat,
            None => 0,
        };
        let playlists = match cache.playlists {
            Some(v) => v as nat,
            None => 0,
        };
        let updated = match cache.last_updated_unix_seconds {
            Some(s) => "Unix "@ + spec_decimal(s as nat),
            None => "unknown"@,
        };
        path + "; schema "@ + spec_decimal(schema) + "; "@ + spec_decimal(tracks) + " tracks; "@
            + spec_decimal(playlists) + " playlists; updated "@ + updated
    } else {
        path + "; no readable local metadata cache"@
    }
}

fn cache_detail_text(cache: &LocalCacheStatus) -> (r: String)
    ensures
        r@ == cache_detail(*cache),
{
    let mut s = match &cache.path {
        Some(p) => p.clone(),
        None => "unavailable".to_owned(),
    };
    if cache.readable {
        push_text(&mut s, "; schema ");
        push_decimal(&mut s, match cache.schema_version {
            Some(v) => v as u64,
            None => 0,
        });
        push_text(&mut s, "; ");
        push_decimal(&mut s, match cache.tracks {
            Some(v) => v as u64,
            None => 0,
        });
        push_text(&mut s, " tracks; ");
        push_decimal(&mut s, match cache.playlists {
            Some(v) => v as u64,
            None => 0,
        });
        push_text(&mut s, " playlists; updated ");
        match cache.last_updated_unix_seconds {
            Some(seconds) => {
                push_text(&mut s, "Unix ");
                push_decimal(&mut s, seconds);
            },
            None => push_text(&mut s, "unknown"),
        }
    } else {
        push_text(&mut s, "; no readable local metadata cache");
    }
    s
}

/// The configuration path check: the path, or why it could not be determined.
pub open spec fn config_path_check(config_path: Result<String, String>) -> (Seq<char>, CheckStatus, Seq<char>) {
    match config_path {
        Ok(p) => ("Config path"@, CheckStatus::Pass, p@),
        Err(e) => ("Config path"@, CheckStatus::Failure, e@),
    }
}

/// The release and local path checks: the version, the local backend, the configuration
/// path (or why it is unknown), the library cache and where logs go.
pub open spec fn release_checks(version: Seq<char>, config_path: Result<String, String>, cache: LocalCacheStatus) -> Seq<(Seq<char>, CheckStatus, Seq<char>)> {
    seq![
        ("Version"@, CheckStatus::Pass, version + " (Cargo package version)"@),
        ("Local backend"@, CheckStatus::Pass, "Music.app is the primary local-only backend (--backend macos)"@),
        config_path_check(config_path),
        ("Library cache"@, if cache.readable { CheckStatus::Pass } else { CheckStatus::Warning }, cache_detail(cache)),
        ("Logging"@, CheckStatus::Pass, "stderr only; set RUST_LOG=apple_music_tui=debug for diagnostics"@),
    ]
}

/// Records the release and local path checks from what the caller found: the version, the
/// configuration path or the error text that explains why it is unknown, and the cache.
pub fn check_release_and_local_paths(
    report: &mut DoctorReport,
    version: &str,
    config_path: Result<String, String>,
    cache: &LocalCacheStatus,
)
    ensures
        appended(old(report).checks@, final(report).checks@, release_checks(version@, config_path, *cache)),
{
    let ghost start = report.checks@;
    proof {
        assert(checks_view(start.skip(start.len() as int)) =~= Seq::empty());
        assert(start.take(start.len() as int) =~= start);
    }
    let ghost mut added: Seq<(Seq<char>, CheckStatus, Seq<char>)> = Seq::empty();
    let mut version_text = version.to_owned();
    push_text(&mut version_text, " (Cargo package version)");
    let ghost b0 = report.checks@;
    report.push("Version", CheckStatus::Pass, version_text.as_str());
    proof {
        let one = ("Version"@, CheckStatus::Pass, version@ + " (Cargo package version)"@);
        lemma_appended_push(start, b0, report.checks@, added, one);
        added = added.push(one);
    }
    let ghost b1 = report.checks@;
    report.push("Local backend", CheckStatus::Pass, "Music.app is the primary local-only backend (--backend macos)");
    proof {
        let one = ("Local backend"@, CheckStatus::Pass, "Music.app is the primary local-only backend (--backend macos)"@);
        lemma_appended_push(start, b1, report.checks@, added, one);
        added = added.push(one);
    }
    let ghost b2 = report.checks@;
    match &config_path {
        Ok(path) => report.push("Config path", CheckStatus::Pass, path.as_str()),
        Err(error) => report.push("Config path", CheckStatus::Failure, error.as_str()),
    }
    proof {
        let one = config_path_check(config_path);
        lemma_appended_push(start, b2, report.checks@, added, one);
        added = added.push(one);
    }
    let detail = cache_detail_text(cache);
    let status = if cache.readable {
        CheckStatus::Pass
    } else {
        CheckStatus::Warning
    };
    let ghost b3 = report.checks@;
    report.push("Library cache", status, detail.as_str());
    proof {
        let one = ("Library cache"@, status, cache_detail(*cache));
        lemma_appended_push(start, b3, report.checks@, added, one);
        added = added.push(one);
    }
    let ghost b4 = report.checks@;
    report.push("Logging", CheckStatus::Pass, "stderr only; set RUST_LOG=apple_music_tui=debug for diagnostics");
    proof {
        let one = ("Logging"@, CheckStatus::Pass, "stderr only; set RUST_LOG=apple_music_tui=debug for diagnostics"@);
        lemma_appended_push(start, b4, report.checks@, added, one);
        added = added.push(one);
        assert(added =~= release_checks(version@, config_path, *cache));
    }
}

/// The Music.app check for what a snapshot of the local backend found.
pub open spec fn music_app_check(snapshot: Result<BackendAvailability, BackendError>) -> (Seq<char>, CheckStatus, Seq<char>) {
    match snapshot {
        Ok(BackendAvailability::Available) => ("Music.app / Automation"@, CheckStatus::Pass, "Music.app is reachable"@),
        Ok(BackendAvailability::NotRunning) => ("Music.app / Automation"@, CheckStatus::Warning, "Music.app is installed but not running"@),
        Ok(BackendAvailability::Unavailable) => ("Music.app / Automation"@, CheckStatus::Warning, "Music.app is unavailable"@),
        Ok(BackendAvailability::PermissionDenied) => ("Music.app / Automation"@, CheckStatus::Failure,
            "permission denied; enable Music under the launching app in Privacy & Security → Automation"@),
        Ok(BackendAvailability::Error(_)) => ("Music.app / Automation"@, CheckStatus::Failure, music_app_failure_detail()),
        Err(e) => ("Music.app / Automation"@, CheckStatus::Failure, spec_backend_error_message(e)),
    }
}

/// The platform check: macOS passes, anything else warns that local playback and the
/// Keychain are unavailable.
pub open spec fn platform_check(is_macos: bool) -> (Seq<char>, CheckStatus, Seq<char>) {
    if is_macos {
        ("Platform"@, CheckStatus::Pass, "macOS"@)
    } else {
        ("Platform"@, CheckStatus::Warning, "Music.app playback and Keychain authentication require macOS"@)
    }
}

/// Records the platform check and the Music.app check for what a snapshot of the local
/// backend returned.
pub fn check_platform_and_music_app(
    report: &mut DoctorReport,
    is_macos: bool,
    snapshot: Result<BackendAvailability, BackendError>,
)
    ensures
        appended(old(report).checks@, final(report).checks@, seq![platform_check(is_macos), music_app_check(snapshot)]),
{
    let ghost start = report.checks@;
    proof {
        assert(checks_view(start.skip(start.len() as int)) =~= Seq::empty());
        assert(start.take(start.len() as int) =~= start);
    }
    let ghost b0 = report.checks@;
    if is_macos {
        report.push("Platform", CheckStatus::Pass, "macOS");
    } else {
        report.push("Platform", CheckStatus::Warning, "Music.app playback and Keychain authentication require macOS");
    }
    proof {
        lemma_appended_push(start, b0, report.checks@, Seq::empty(), platform_check(is_macos));
    }
    let ghost b1 = report.checks@;
    let ghost expected = music_app_check(snapshot);
    let name = "Music.app / Automation";
    match snapshot {
        Ok(BackendAvailability::Available) => report.push(name, CheckStatus::Pass, "Music.app is reachable"),
        Ok(BackendAvailability::NotRunning) => report.push(name, CheckStatus::Warning, "Music.app is installed but not running"),
        Ok(BackendAvailability::Unavailable) => report.push(name, CheckStatus::Warning, "Music.app is unavailable"),
        Ok(BackendAvailability::PermissionDenied) => report.push(name, CheckStatus::Failure,
            "permission denied; enable Music under the launching app in Privacy & Security → Automation"),
        Ok(BackendAvailability::Error(message)) => {
            let detail = safe_music_app_error(message);
            report.push(name, CheckStatus::Failure, detail.as_str());
        },
        Err(error) => {
            let detail = error.message();
            report.push(name, CheckStatus::Failure, detail.as_str());
        },
    }
    proof {
        lemma_appended_push(start, b1, report.checks@, Seq::empty().push(platform_check(is_macos)), expected);
        assert(Seq::empty().push(platform_check(is_macos)).push(expected) =~= seq![platform_check(is_macos), music_app_check(snapshot)]);
    }
}

/// The check of one required identifier: configured when it validates, failing with the
/// validation error otherwise.
pub open spec fn identifier_check(name: Seq<char>, value: Option<Seq<char>>, field: &'static str) -> (Seq<char>, CheckStatus, Seq<char>) {
    match spec_required(value) {
        None => (name, CheckStatus::Failure, spec_config_message(ConfigError::MissingField(field))),
        Some(v) => if identifier_ok(v) {
            (name, CheckStatus::Pass, "configured"@)
        } else {
            (name, CheckStatus::Failure, "Apple configuration field '"@ + field@ + "' is invalid: "@ + identifier_note())
        },
    }
}

/// Records whether a required identifier validates.
pub fn check_identifier(report: &mut DoctorReport, name: &'static str, field: &'static str, value: Option<&str>)
    ensures
        appended(old(report).checks@, final(report).checks@, seq![identifier_check(name@, opt_view(value), field)]),
{
    let ghost start = report.checks@;
    proof {
        assert(checks_view(start.skip(start.len() as int)) =~= Seq::empty());
        assert(start.take(start.len() as int) =~= start);
    }
    let valid = validate_identifier(value, field);
    match &valid {
        Ok(_) => report.push(name, CheckStatus::Pass, "configured"),
        Err(error) => {
            let detail = error.message();
            report.push(name, CheckStatus::Failure, detail.as_str());
        },
    }
    proof {
        lemma_appended_push(start, start, report.checks@, Seq::empty(), identifier_check(name@, opt_view(value), field));
        assert(Seq::empty().push(identifier_check(name@, opt_view(value), field)) =~= seq![identifier_check(name@, opt_view(value), field)]);
    }
}

/// The storefront check: a configured storefront must be a valid country code; without
/// one, the account's storefront is detected after authorization.
pub open spec fn storefront_check(storefront: Option<Seq<char>>) -> (Seq<char>, CheckStatus, Seq<char>) {
    match storefront {
        Some(s) => {
            let v = spec_trim(s);
            if v.len() == 2 && forall|k: int| 0 <= k < v.len() ==> ascii_lowercase(#[trigger] v[k]) {
                ("Configured storefront"@, CheckStatus::Pass, "valid country code"@)
            } else {
                ("Configured storefront"@, CheckStatus::Failure, "Apple configuration field '"@ + "storefront"@ + "' is invalid: "@ + storefront_note())
            }
        },
        None => ("Configured storefront"@, CheckStatus::Warning, "not set; the account storefront will be detected after authorization"@),
    }
}

/// Records whether the configured storefront is valid.
pub fn check_storefront(report: &mut DoctorReport, storefront: Option<&str>)
    ensures
        appended(old(report).checks@, final(report).checks@, seq![storefront_check(opt_view(storefront))]),
{
    let ghost start = report.checks@;
    proof {
        assert(checks_view(start.skip(start.len() as int)) =~= Seq::empty());
        assert(start.take(start.len() as int) =~= start);
    }
    match storefront {
        Some(value) => match validate_storefront(value) {
            Ok(_) => report.push("Configured storefront", CheckStatus::Pass, "valid country code"),
            Err(error) => {
                let detail = error.message();
                report.push("Configured storefront", CheckStatus::Failure, detail.as_str());
            },
        },
        None => report.push("Configured storefront", CheckStatus::Warning,
            "not set; the account storefront will be detected after authorization"),
    }
    proof {
        lemma_appended_push(start, start, report.checks@, Seq::empty(), storefront_check(opt_view(storefront)));
        assert(Seq::empty().push(storefront_check(opt_view(storefront))) =~= seq![storefront_check(opt_view(storefront))]);
    }
}

/// The private key check: a blank or absent setting fails; a path whose home expansion is
/// unsupported fails; otherwise the outcome of reading the expanded path decides.
pub open spec fn private_key_check(configured: Option<Seq<char>>, home: Seq<char>, file_problem: Option<ConfigError>) -> (Seq<char>, CheckStatus, Seq<char>) {
    match configured {
        Some(c) => if spec_trim(c).len() == 0 {
            ("Private key"@, CheckStatus::Failure, "private_key is missing"@)
        } else {
            match spec_expand_home(c, home) {
                Err(p) => ("Private key"@, CheckStatus::Failure, "private key path uses unsupported home expansion: "@ + p),
                Ok(_) => match file_problem {
                    None => ("Private key"@, CheckStatus::Pass, "readable regular file"@),
                    Some(e) => ("Private key"@, CheckStatus::Failure, spec_config_message(e)),
                },
            }
        },
        None => ("Private key"@, CheckStatus::Failure, "private_key is missing"@),
    }
}

/// Records the private key check.  `file_problem` is what reading the expanded key path
/// found, when the caller read it and it was not a readable regular file.
pub fn check_private_key(report: &mut DoctorReport, configured: Option<&str>, home: &str, file_problem: Option<ConfigError>)
    ensures
        appended(old(report).checks@, final(report).checks@, seq![private_key_check(opt_view(configured), home@, file_problem)]),
{
    let ghost start = report.checks@;
    proof {
        assert(checks_view(start.skip(start.len() as int)) =~= Seq::empty());
        assert(start.take(start.len() as int) =~= start);
    }
    let value = match configured {
        Some(c) => {
            let trimmed = trim_text(c);
            if trimmed.as_str().is_empty() {
                None
            } else {
                Some(c)
            }
        },
        None => None,
    };
    match value {
        None => report.push("Private key", CheckStatus::Failure, "private_key is missing"),
        Some(c) => match expand_home(c, home) {
            Err(error) => {
                let detail = error.message();
                report.push("Private key", CheckStatus::Failure, detail.as_str());
            },
            Ok(_) => match &file_problem {
                None => report.push("Private key", CheckStatus::Pass, "readable regular file"),
                Some(error) => {
                    let detail = error.message();
                    report.push("Private key", CheckStatus::Failure, detail.as_str());
                },
            },
        },
    }
    proof {
        lemma_appended_push(start, start, report.checks@, Seq::empty(), private_key_check(opt_view(configured), home@, file_problem));
        assert(Seq::empty().push(private_key_check(opt_view(configured), home@, file_problem)) =~= seq![private_key_check(opt_view(configured), home@, file_problem)]);
    }
}

/// Records a single check.
fn record(report: &mut DoctorReport, name: &'static str, status: CheckStatus, detail: &str)
    ensures
        appended(old(report).checks@, final(report).checks@, seq![(name@, status, detail@)]),
{
    let ghost start = report.checks@;
    proof {
        assert(checks_view(start.skip(start.len() as int)) =~= Seq::empty());
        assert(start.take(start.len() as int) =~= start);
    }
    report.push(name, status, detail);
    proof {
        lemma_appended_push(start, start, report.checks@, Seq::empty(), (name@, status, detail@));
        assert(Seq::empty().push((name@, status, detail@)) =~= seq![(name@, status, detail@)]);
    }
}

/// The checks of the configuration file's location: an unknown location fails, a missing
/// file leaves authorization unchecked, and a present file passes.
pub open spec fn config_file_checks(config_path: Result<Seq<char>, Seq<char>>, is_file: bool) -> Seq<(Seq<char>, CheckStatus, Seq<char>)> {
    match config_path {
        Err(e) => seq![("Config path"@, CheckStatus::Failure, e)],
        Ok(path) => if is_file {
            seq![("Apple config"@, CheckStatus::Pass, "found at "@ + path)]
        } else {
            seq![
                ("Apple config"@, CheckStatus::Warning, "not found at "@ + path + "; local playback remains available"@),
                ("User authorization"@, CheckStatus::Warning, "not checked; create config, then run `apple-music-tui auth`"@),
            ]
        },
    }
}

/// The view of a result of strings.
pub open spec fn result_view(r: Result<String, String>) -> Result<Seq<char>, Seq<char>> {
    match r {
        Ok(v) => Ok(v@),
        Err(e) => Err(e@),
    }
}

/// Records where the configuration file is; the checks go on only when it is a file.
/// `is_file` is whether the path names a regular file.
pub fn check_config_file(report: &mut DoctorReport, config_path: &Result<String, String>, is_file: bool) -> (r: bool)
    ensures
        appended(old(report).checks@, final(report).checks@, config_file_checks(result_view(*config_path), is_file)),
        r == (config_path is Ok && is_file),
{
    match config_path {
        Err(e) => {
            record(report, "Config path", CheckStatus::Failure, e.as_str());
            false
        },
        Ok(path) => {
            if is_file {
                let mut detail = "found at ".to_owned();
                push_text(&mut detail, path.as_str());
                proof {
                    reveal_strlit("found at ");
                }
                record(report, "Apple config", CheckStatus::Pass, detail.as_str());
                true
            } else {
                let ghost start = report.checks@;
                let mut detail = "not found at ".to_owned();
                push_text(&mut detail, path.as_str());
                push_text(&mut detail, "; local playback remains available");
                proof {
                    reveal_strlit("not found at ");
                    reveal_strlit("; local playback remains available");
                }
                record(report, "Apple config", CheckStatus::Warning, detail.as_str());
                let ghost mid = report.checks@;
                report.push("User authorization", CheckStatus::Warning, "not checked; create config, then run `apple-music-tui auth`");
                proof {
                    let one = ("User authorization"@, CheckStatus::Warning, "not checked; create config, then run `apple-music-tui auth`"@);
                    lemma_appended_push(start, mid, report.checks@, seq![("Apple config"@, CheckStatus::Warning, detail@)], one);
                    assert(seq![("Apple config"@, CheckStatus::Warning, detail@)].push(one) =~= config_file_checks(result_view(*config_path), is_file));
                }
                false
            }
        },
    }
}

/// The checks of the loaded configuration: a syntax error fails and a missing `[apple]`
/// section warns.
pub open spec fn config_contents_checks(loaded: Result<bool, Seq<char>>) -> Seq<(Seq<char>, CheckStatus, Seq<char>)> {
    match loaded {
        Err(e) => seq![("Config syntax"@, CheckStatus::Failure, e)],
        Ok(false) => seq![("Apple configuration"@, CheckStatus::Warning, "[apple] section is missing"@)],
        Ok(true) => Seq::empty(),
    }
}

/// Records what loading the configuration found: `Ok` tells whether it has an `[apple]`
/// section.  The checks go on only when it has one.
pub fn check_config_contents(report: &mut DoctorReport, loaded: &Result<bool, String>) -> (r: bool)
    ensures
        appended(old(report).checks@, final(report).checks@, config_contents_checks(match *loaded { Ok(b) => Ok(b), Err(e) => Err(e@) })),
        r == (*loaded == Ok::<bool, String>(true)),
{
    match loaded {
        Err(e) => {
            record(report, "Config syntax", CheckStatus::Failure, e.as_str());
            false
        },
        Ok(false) => {
            record(report, "Apple configuration", CheckStatus::Warning, "[apple] section is missing");
            false
        },
        Ok(true) => {
            proof {
                let start = report.checks@;
                assert(checks_view(start.skip(start.len() as int)) =~= Seq::empty());
                assert(start.take(start.len() as int) =~= start);
            }
            true
        },
    }
}

/// A failed step records its error under `name`; a successful one records nothing.
pub open spec fn failure_checks(name: Seq<char>, outcome: Result<(), Seq<char>>) -> Seq<(Seq<char>, CheckStatus, Seq<char>)> {
    match outcome {
        Err(e) => seq![(name, CheckStatus::Failure, e)],
        Ok(_) => Seq::empty(),
    }
}

/// Records a step that can only fail, under `name`; the checks go on when it succeeded.
/// This covers finding the home directory, creating the Apple API client and validating
/// the developer configuration.
pub fn check_step(report: &mut DoctorReport, name: &'static str, outcome: &Result<(), String>) -> (r: bool)
    ensures
        appended(old(report).checks@, final(report).checks@, failure_checks(name@, match *outcome { Ok(u) => Ok(u), Err(e) => Err(e@) })),
        r == outcome is Ok,
{
    match outcome {
        Err(e) => {
            record(report, name, CheckStatus::Failure, e.as_str());
            false
        },
        Ok(_) => {
            proof {
                let start = report.checks@;
                assert(checks_view(start.skip(start.len() as int)) =~= Seq::empty());
                assert(start.take(start.len() as int) =~= start);
            }
            true
        },
    }
}

/// The check of signing a developer token.
pub open spec fn developer_token_check(signed: Result<(), Seq<char>>) -> (Seq<char>, CheckStatus, Seq<char>) {
    match signed {
        Ok(_) => ("Developer Token generation"@, CheckStatus::Pass, "ES256 signing succeeded"@),
        Err(e) => ("Developer Token generation"@, CheckStatus::Failure, e),
    }
}

/// Records whether a developer token could be signed; the checks go on when it could.
pub fn check_developer_token(report: &mut DoctorReport, signed: &Result<(), String>) -> (r: bool)
    ensures
        appended(old(report).checks@, final(report).checks@, seq![developer_token_check(match *signed { Ok(u) => Ok(u), Err(e) => Err(e@) })]),
        r == signed is Ok,
{
    match signed {
        Ok(_) => {
            record(report, "Developer Token generation", CheckStatus::Pass, "ES256 signing succeeded");
            true
        },
        Err(e) => {
            record(report, "Developer Token generation", CheckStatus::Failure, e.as_str());
            false
        },
    }
}

/// The check of the stored Music User Token.
pub open spec fn user_token_check(stored: Result<bool, Seq<char>>) -> (Seq<char>, CheckStatus, Seq<char>) {
    match stored {
        Ok(true) => ("Music User Token"@, CheckStatus::Pass, "present in macOS Keychain"@),
        Ok(false) => ("Music User Token"@, CheckStatus::Warning, "not found; run `apple-music-tui auth`"@),
        Err(e) => ("Music User Token"@, CheckStatus::Failure, e),
    }
}

/// Records whether the Keychain holds a Music User Token (`Ok(true)`); the checks go on
/// only when it does.
pub fn check_user_token(report: &mut DoctorReport, stored: &Result<bool, String>) -> (r: bool)
    ensures
        appended(old(report).checks@, final(report).checks@, seq![user_token_check(match *stored { Ok(b) => Ok(b), Err(e) => Err(e@) })]),
        r == (*stored == Ok::<bool, String>(true)),
{
    match stored {
        Ok(true) => {
            record(report, "Music User Token", CheckStatus::Pass, "present in macOS Keychain");
            true
        },
        Ok(false) => {
            record(report, "Music User Token", CheckStatus::Warning, "not found; run `apple-music-tui auth`");
            false
        },
        Err(e) => {
            record(report, "Music User Token", CheckStatus::Failure, e.as_str());
            false
        },
    }
}

/// The check of authenticating against the Apple Music API.
pub open spec fn api_check(verified: Result<Seq<char>, Seq<char>>) -> (Seq<char>, CheckStatus, Seq<char>) {
    match verified {
        Ok(storefront) => ("Apple API authentication"@, CheckStatus::Pass, "verified for storefront "@ + storefront),
        Err(e) => ("Apple API authentication"@, CheckStatus::Failure, e),
    }
}

/// Records the outcome of verifying both tokens with the Apple Music API: the account's
/// storefront, or the error.
pub fn check_api_verification(report: &mut DoctorReport, verified: &Result<String, String>)
    ensures
        appended(old(report).checks@, final(report).checks@, seq![api_check(result_view(*verified))]),
{
    match verified {
        Ok(storefront) => {
            let mut detail = "verified for storefront ".to_owned();
            push_text(&mut detail, storefront.as_str());
            proof {
                reveal_strlit("verified for storefront ");
            }
            record(report, "Apple API authentication", CheckStatus::Pass, detail.as_str());
        },
        Err(e) => record(report, "Apple API authentication", CheckStatus::Failure, e.as_str()),
    }
}

} // verus!
