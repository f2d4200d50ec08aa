//! Validation of the Apple Music section of the configuration file.
use vstd::prelude::*;

use crate::text::{char_is_whitespace, chars_of, has_prefix, push_text, spec_char_is_whitespace, string_from_chars};

verus! {

/// The directory of the configuration file under the configuration home.
pub const CONFIG_DIRECTORY: &'static str = "apple-music-tui";

/// The name of the configuration file.
pub const CONFIG_FILENAME: &'static str = "config.toml";

/// The configuration file.
#[derive(Clone, Debug, Default, PartialEq, Eq)]
pub struct AppConfig {
    pub apple: Option<AppleSettings>,
}

/// The Apple Music section of the configuration file, as written.
#[derive(Clone, Debug, Default, PartialEq, Eq)]
pub struct AppleSettings {
    pub team_id: Option<String>,
    pub key_id: Option<String>,
    pub private_key: Option<String>,
    pub storefront: Option<String>,
}

/// A validated Apple Music configuration.
#[derive(Clone, Debug, PartialEq, Eq)]
pub struct AppleConfig {
    pub team_id: String,
    pub key_id: String,
    pub private_key: String,
    pub storefront: Option<String>,
}

/// The developer identity and key location of the Apple Music section, validated.
#[derive(Clone, Debug, PartialEq, Eq)]
pub struct KeyLocation {
    pub team_id: String,
    pub key_id: String,
    pub private_key: String,
}

/// Why a configuration cannot be used.
#[derive(Clone, Debug, PartialEq, Eq)]
pub enum ConfigError {
    HomeDirectoryUnavailable,
    Read { path: String, message: String },
    Parse { path: String, message: String },
    MissingField(&'static str),
    InvalidField { field: &'static str, message: &'static str },
    UnsupportedHomeExpansion(String),
    PrivateKeyMissing(String),
    PrivateKeyUnreadable { path: String, message: String },
}

/// The text of a configuration error.
pub open spec fn spec_config_message(e: ConfigError) -> Seq<char> {
    match e {
        ConfigError::HomeDirectoryUnavailable => "could not determine the home directory for Apple Music configuration"@,
        ConfigError::Read { path, message } => "could not read configuration at "@ + path@ + ": "@ + message@,
        ConfigError::Parse { path, message } => "configuration at "@ + path@ + " is not valid TOML: "@ + message@,
        ConfigError::MissingField(field) => "Apple configuration field '"@ + field@ + "' is missing or empty"@,
        ConfigError::InvalidField { field, message } => "Apple configuration field '"@ + field@ + "' is invalid: "@ + message@,
        ConfigError::UnsupportedHomeExpansion(path) => "private key path uses unsupported home expansion: "@ + path@,
        ConfigError::PrivateKeyMissing(path) => "private key does not exist at "@ + path@,
        ConfigError::PrivateKeyUnreadable { path, message } => "private key is not a readable file at "@ + path@ + ": "@ + message@,
    }
}

impl ConfigError {
    /// The text of the error.
    pub fn message(&self) -> (r: String)
        ensures
            r@ == spec_config_message(*self),
    {
        match self {
            ConfigError::HomeDirectoryUnavailable => "could not determine the home directory for Apple Music configuration".to_owned(),
            ConfigError::Read { path, message } => {
                let mut s = "could not read configuration at ".to_owned();
                push_text(&mut s, path.as_str());
                push_text(&mut s, ": ");
                push_text(&mut s, message.as_str());
                s
            },
            ConfigError::Parse { path, message } => {
                let mut s = "configuration at ".to_owned();
                push_text(&mut s, path.as_str());
                push_text(&mut s, " is not valid TOML: ");
                push_text(&mut s, message.as_str());
                s
            },
            ConfigError::MissingField(field) => {
                let mut s = "Apple configuration field '".to_owned();
                push_text(&mut s, field);
                push_text(&mut s, "' is missing or empty");
                s
            },
            ConfigError::InvalidField { field, message } => {
                let mut s = "Apple configuration field '".to_owned();
                push_text(&mut s, field);
                push_text(&mut s, "' is invalid: ");
                push_text(&mut s, message);
                s
            },
            ConfigError::UnsupportedHomeExpansion(path) => {
                let mut s = "private key path uses unsupported home expansion: ".to_owned();
                push_text(&mut s, path.as_str());
                s
            },
            ConfigError::PrivateKeyMissing(path) => {
                let mut s = "private key does not exist at ".to_owned();
                push_text(&mut s, path.as_str());
                s
            },
            ConfigError::PrivateKeyUnreadable { path, message } => {
                let mut s = "private key is not a readable file at ".to_owned();
                push_text(&mut s, path.as_str());
                push_text(&mut s, ": ");
                push_text(&mut s, message.as_str());
                s
            },
        }
    }
}

/// `s` without leading whitespace.
pub open spec fn trim_start(s: Seq<char>) -> Seq<char>
    decreases s.len(),
{
    if s.len() > 0 && spec_char_is_whitespace(s[0]) {
        trim_start(s.drop_first())
    } else {
        s
    }
}

/// `s` without trailing whitespace.
pub open spec fn trim_end(s: Seq<char>) -> Seq<char>
    decreases s.len(),
{
    if s.len() > 0 && spec_char_is_whitespace(s.last()) {
        trim_end(s.drop_last())
    } else {
        s
    }
}

/// `s` without leading and trailing whitespace.
pub open spec fn spec_trim(s: Seq<char>) -> Seq<char> {
    trim_end(trim_start(s))
}

proof fn lemma_trim_start_skip(s: Seq<char>, i: int)
    requires
        0 <= i <= s.len(),
        forall|k: int| 0 <= k < i ==> spec_char_is_whitespace(#[trigger] s[k]),
    ensures
        trim_start(s) == trim_start(s.skip(i)),
    decreases i,
{
    if i > 0 {
        assert(s.drop_first().skip(i - 1) =~= s.skip(i));
        assert forall|k: int| 0 <= k < i - 1 implies spec_char_is_whitespace(#[trigger] s.drop_first()[k]) by {
            assert(s.drop_first()[k] == s[k + 1]);
        }
        lemma_trim_start_skip(s.drop_first(), i - 1);
    } else {
        assert(s.skip(0) =~= s);
    }
}

proof fn lemma_trim_end_take(s: Seq<char>, j: int)
    requires
        0 <= j <= s.len(),
        forall|k: int| j <= k < s.len() ==> spec_char_is_whitespace(#[trigger] s[k]),
    ensures
        trim_end(s) == trim_end(s.take(j)),
    decreases s.len() - j,
{
    if j < s.len() {
        assert(s.drop_last().take(j) =~= s.take(j));
        assert forall|k: int| j <= k < s.drop_last().len() implies spec_char_is_whitespace(#[trigger] s.drop_last()[k]) by {
            assert(s.drop_last()[k] == s[k]);
        }
        lemma_trim_end_take(s.drop_last(), j);
    } else {
        assert(s.take(j) =~= s);
    }
}

/// `value` without leading and trailing whitespace.
pub fn trim_text(value: &str) -> (r: String)
    ensures
        r@ == spec_trim(value@),
{
    let chars = chars_of(value);
    let mut i: usize = 0;
    while i < chars.len() && char_is_whitespace(chars[i])
        invariant
            i <= chars@.len(),
            forall|k: int| 0 <= k < i ==> spec_char_is_whitespace(#[trigger] chars@[k]),
        decreases chars.len() - i,
    {
        i = i + 1;
    }
    proof {
        lemma_trim_start_skip(chars@, i as int);
    }
    let ghost rest = chars@.skip(i as int);
    assert(trim_start(rest) == rest);
    let mut j: usize = chars.len();
    while j > i && char_is_whitespace(chars[j - 1])
        invariant
            i <= j <= chars@.len(),
            forall|k: int| j <= k < chars@.len() ==> spec_char_is_whitespace(#[trigger] chars@[k]),
        decreases j,
    {
        j = j - 1;
    }
    proof {
        assert forall|k: int| j - i <= k < rest.len() implies spec_char_is_whitespace(#[trigger] rest[k]) by {
            assert(rest[k] == chars@[k + i]);
        }
        lemma_trim_end_take(rest, j - i);
        let kept = rest.take(j - i);
        if kept.len() > 0 {
            assert(kept.last() == chars@[j - 1]);
        }
    }
    let mut out: Vec<char> = Vec::new();
    let mut k = i;
    while k < j
        invariant
            i <= k <= j <= chars@.len(),
            out@ == chars@.subrange(i as int, k as int),
        decreases j - k,
    {
        out.push(chars[k]);
        assert(out@ =~= chars@.subrange(i as int, k + 1));
        k = k + 1;
    }
    assert(out@ =~= rest.take(j - i));
    string_from_chars(&out)
}

/// The trimmed value of a required field, or which field is missing.
pub open spec fn spec_required(value: Option<Seq<char>>) -> Option<Seq<char>> {
    match value {
        Some(v) => if spec_trim(v).len() > 0 {
            Some(spec_trim(v))
        } else {
            None
        },
        None => None,
    }
}

/// The view of an optional string slice.
pub open spec fn opt_view(value: Option<&str>) -> Option<Seq<char>> {
    match value {
        Some(v) => Some(v@),
        None => None,
    }
}

/// The trimmed value of a required field; an absent or blank value is missing.
pub fn required(value: Option<&str>, field: &'static str) -> (r: Result<String, ConfigError>)
    ensures
        match spec_required(opt_view(value)) {
            Some(v) => r matches Ok(s) && s@ == v,
            None => r == Err::<String, ConfigError>(ConfigError::MissingField(field)),
        },
{
    match value {
        Some(v) => {
            let t = trim_text(v);
            if t.unicode_len() > 0 {
                Ok(t)
            } else {
                Err(ConfigError::MissingField(field))
            }
        },
        None => Err(ConfigError::MissingField(field)),
    }
}

/// Whether a character is an ASCII letter or digit.
pub open spec fn ascii_alphanumeric(c: char) -> bool {
    ('0' <= c && c <= '9') || ('a' <= c && c <= 'z') || ('A' <= c && c <= 'Z')
}

/// Whether a character is an ASCII lowercase letter.
pub open spec fn ascii_lowercase(c: char) -> bool {
    'a' <= c && c <= 'z'
}

/// The note for an identifier that is not one Apple Developer issues.
pub open spec fn identifier_note() -> Seq<char> {
    "expected the 10-character alphanumeric value from Apple Developer"@
}

/// The note for a storefront that is not a country code.
pub open spec fn storefront_note() -> Seq<char> {
    "expected a lowercase ISO 3166-1 alpha-2 code such as 'de'"@
}

fn all_chars(chars: &Vec<char>, lowercase_only: bool) -> (r: bool)
    ensures
        r == (forall|k: int| 0 <= k < chars@.len() ==> if lowercase_only {
            ascii_lowercase(#[trigger] chars@[k])
        } else {
            ascii_alphanumeric(chars@[k])
        }),
{
    let mut i: usize = 0;
    while i < chars.len()
        invariant
            i <= chars@.len(),
            forall|k: int| 0 <= k < i ==> if lowercase_only {
                ascii_lowercase(#[trigger] chars@[k])
            } else {
                ascii_alphanumeric(chars@[k])
            },
        decreases chars.len() - i,
    {
        let c = chars[i];
        let ok = if lowercase_only {
            'a' <= c && c <= 'z'
        } else {
            ('0' <= c && c <= '9') || ('a' <= c && c <= 'z') || ('A' <= c && c <= 'Z')
        };
        if !ok {
            return false;
        }
        i = i + 1;
    }
    true
}

/// A team or key identifier: present, and after trimming ten ASCII letters or digits.
pub fn validate_identifier(value: Option<&str>, field: &'static str) -> (r: Result<String, ConfigError>)
    ensures
        match spec_required(opt_view(value)) {
            None => r == Err::<String, ConfigError>(ConfigError::MissingField(field)),
            Some(v) => if v.len() == 10 && forall|k: int| 0 <= k < v.len() ==> ascii_alphanumeric(#[trigger] v[k]) {
                r matches Ok(s) && s@ == v
            } else {
                r matches Err(ConfigError::InvalidField { field: f, message: m }) && f == field && m@ == identifier_note()
            },
        },
{
    let v = match required(value, field) {
        Ok(v) => v,
        Err(e) => return Err(e),
    };
    let chars = chars_of(v.as_str());
    if chars.len() != 10 || !all_chars(&chars, false) {
        proof {
            reveal_strlit("expected the 10-character alphanumeric value from Apple Developer");
        }
        return Err(ConfigError::InvalidField {
            field,
            message: "expected the 10-character alphanumeric value from Apple Developer",
        });
    }
    Ok(v)
}

/// A storefront: after trimming, two ASCII lowercase letters.
pub fn validate_storefront(value: &str) -> (r: Result<String, ConfigError>)
    ensures
        ({
            let v = spec_trim(value@);
            if v.len() == 2 && forall|k: int| 0 <= k < v.len() ==> ascii_lowercase(#[trigger] v[k]) {
                r matches Ok(s) && s@ == v
            } else {
                r matches Err(ConfigError::InvalidField { field: f, message: m }) && f@ == "storefront"@ && m@
                    == storefront_note()
            }
        }),
{
    let v = trim_text(value);
    let chars = chars_of(v.as_str());
    if chars.len() != 2 || !all_chars(&chars, true) {
        proof {
            reveal_strlit("expected a lowercase ISO 3166-1 alpha-2 code such as 'de'");
            reveal_strlit("storefront");
        }
        return Err(ConfigError::InvalidField {
            field: "storefront",
            message: "expected a lowercase ISO 3166-1 alpha-2 code such as 'de'",
        });
    }
    Ok(v)
}

/// `relative` joined onto `base` as a path: an absolute `relative` stands alone, and one
/// separator is put between the two unless `base` is empty or already ends with one.
pub open spec fn spec_join(base: Seq<char>, relative: Seq<char>) -> Seq<char> {
    if relative.len() > 0 && relative[0] == '/' {
        relative
    } else if base.len() == 0 || base.last() == '/' {
        base + relative
    } else {
        base + seq!['/'] + relative
    }
}

/// A private key path with the current user's home expanded: `~` alone and `~/` are the
/// home directory; any other leading `~` names another user's home and is refused.
pub open spec fn spec_expand_home(path: Seq<char>, home: Seq<char>) -> Result<Seq<char>, Seq<char>> {
    if path == seq!['~'] {
        Ok(home)
    } else if has_prefix(path, seq!['~', '/']) {
        Ok(spec_join(home, path.skip(2)))
    } else if path.len() > 0 && path[0] == '~' {
        Err(path)
    } else {
        Ok(path)
    }
}

pub fn expand_home(path: &str, home: &str) -> (r: Result<String, ConfigError>)
    ensures
        match spec_expand_home(path@, home@) {
            Ok(p) => r matches Ok(s) && s@ == p,
            Err(p) => r matches Err(ConfigError::UnsupportedHomeExpansion(s)) && s@ == p,
        },
{
    let chars = chars_of(path);
    if chars.len() == 1 && chars[0] == '~' {
        assert(path@ =~= seq!['~']);
        return Ok(home.to_owned());
    }
    if chars.len() >= 2 && chars[0] == '~' && chars[1] == '/' {
        assert(path@.subrange(0, 2) =~= seq!['~', '/']);
        let mut rest: Vec<char> = Vec::new();
        let mut i: usize = 2;
        while i < chars.len()
            invariant
                2 <= i <= chars@.len(),
                rest@ == chars@.subrange(2, i as int),
            decreases chars.len() - i,
        {
            rest.push(chars[i]);
            assert(rest@ =~= chars@.subrange(2, i + 1));
            i = i + 1;
        }
        assert(rest@ =~= path@.skip(2));
        let relative = string_from_chars(&rest);
        return Ok(join_path(home, relative.as_str()));
    }
    if chars.len() >= 2 {
        assert(!(path@.subrange(0, 2) =~= seq!['~', '/']) ==> !has_prefix(path@, seq!['~', '/']));
        if chars[0] == '~' {
            assert(path@.subrange(0, 2)[1] != '/');
        }
    }
    if chars.len() > 0 && chars[0] == '~' {
        return Err(ConfigError::UnsupportedHomeExpansion(path.to_owned()));
    }
    Ok(path.to_owned())
}

/// Where the configuration file lives: under `$XDG_CONFIG_HOME` when that is an absolute
/// path, otherwise under `~/.config`; without either, the home directory is unknown.
pub open spec fn spec_config_path(xdg_config_home: Option<Seq<char>>, home: Option<Seq<char>>) -> Result<Seq<char>, ConfigError> {
    match xdg_config_home {
        Some(x) if x.len() > 0 && x[0] == '/' => Ok(spec_join(spec_join(x, CONFIG_DIRECTORY@), CONFIG_FILENAME@)),
        _ => match home {
            Some(h) if h.len() > 0 => Ok(spec_join(spec_join(spec_join(h, ".config"@), CONFIG_DIRECTORY@), CONFIG_FILENAME@)),
            _ => Err(ConfigError::HomeDirectoryUnavailable),
        },
    }
}

/// The configuration file path from the values of `XDG_CONFIG_HOME` and `HOME`.
pub fn config_path_from(xdg_config_home: Option<&str>, home: Option<&str>) -> (r: Result<String, ConfigError>)
    ensures
        match spec_config_path(opt_view(xdg_config_home), opt_view(home)) {
            Ok(p) => r matches Ok(s) && s@ == p,
            Err(e) => r == Err::<String, ConfigError>(e),
        },
{
    if let Some(x) = xdg_config_home {
        if x.unicode_len() > 0 && x.get_char(0) == '/' {
            let dir = join_path(x, CONFIG_DIRECTORY);
            return Ok(join_path(dir.as_str(), CONFIG_FILENAME));
        }
    }
    match home {
        Some(h) => {
            if h.unicode_len() > 0 {
                let config = join_path(h, ".config");
                let dir = join_path(config.as_str(), CONFIG_DIRECTORY);
                Ok(join_path(dir.as_str(), CONFIG_FILENAME))
            } else {
                Err(ConfigError::HomeDirectoryUnavailable)
            }
        },
        None => Err(ConfigError::HomeDirectoryUnavailable),
    }
}

/// Joins a relative path onto a base path.
pub fn join_path(base: &str, relative: &str) -> (r: String)
    ensures
        r@ == spec_join(base@, relative@),
{
    let rel = chars_of(relative);
    if rel.len() > 0 && rel[0] == '/' {
        return relative.to_owned();
    }
    let b = chars_of(base);
    let mut s = base.to_owned();
    if b.len() > 0 && b[b.len() - 1] != '/' {
        crate::text::push_char(&mut s, '/');
    }
    push_text(&mut s, relative);
    s
}

/// The view of an optional string.
pub open spec fn string_view(o: Option<String>) -> Option<Seq<char>> {
    match o {
        Some(s) => Some(s@),
        None => None,
    }
}

/// Whether a trimmed value is an identifier Apple Developer issues.
pub open spec fn identifier_ok(v: Seq<char>) -> bool {
    v.len() == 10 && forall|k: int| 0 <= k < v.len() ==> ascii_alphanumeric(#[trigger] v[k])
}

/// Whether `r` is what checking the identifier field `field` with value `value` gives,
/// when the check fails.
pub open spec fn identifier_error(value: Option<Seq<char>>, field: &'static str, e: ConfigError) -> bool {
    match spec_required(value) {
        None => e == ConfigError::MissingField(field),
        Some(v) => e matches ConfigError::InvalidField { field: f, message: m } && f == field && m@ == identifier_note(),
    }
}

/// Whether `r` is what validating the developer identity and key location gives: the team,
/// the key, then the key path are checked in that order, and the first failure is reported.
pub open spec fn located(settings: AppleSettings, home: Seq<char>, r: Result<KeyLocation, ConfigError>) -> bool {
    let team = spec_required(string_view(settings.team_id));
    let key = spec_required(string_view(settings.key_id));
    let path = spec_required(string_view(settings.private_key));
    if !(team matches Some(t) && identifier_ok(t)) {
        r matches Err(e) && identifier_error(string_view(settings.team_id), "team_id", e)
    } else if !(key matches Some(k) && identifier_ok(k)) {
        r matches Err(e) && identifier_error(string_view(settings.key_id), "key_id", e)
    } else if path is None {
        r == Err::<KeyLocation, ConfigError>(ConfigError::MissingField("private_key"))
    } else {
        match spec_expand_home(path.unwrap(), home) {
            Err(p) => r matches Err(ConfigError::UnsupportedHomeExpansion(s)) && s@ == p,
            Ok(p) => r matches Ok(l) && l.team_id@ == team.unwrap() && l.key_id@ == key.unwrap() && l.private_key@ == p,
        }
    }
}

impl AppleSettings {
    /// The developer identity and the expanded private key location (see `located`).
    pub fn key_location(&self, home: &str) -> (r: Result<KeyLocation, ConfigError>)
        ensures
            located(*self, home@, r),
    {
        proof {
            reveal_strlit("team_id");
            reveal_strlit("key_id");
        }
        let team_id = match validate_identifier(opt_deref(&self.team_id), "team_id") {
            Ok(v) => v,
            Err(e) => return Err(e),
        };
        let key_id = match validate_identifier(opt_deref(&self.key_id), "key_id") {
            Ok(v) => v,
            Err(e) => return Err(e),
        };
        let configured = match required(opt_deref(&self.private_key), "private_key") {
            Ok(v) => v,
            Err(e) => return Err(e),
        };
        let private_key = match expand_home(configured.as_str(), home) {
            Ok(p) => p,
            Err(e) => return Err(e),
        };
        Ok(KeyLocation { team_id, key_id, private_key })
    }

    /// The validated configuration once the key file at `location` was found readable:
    /// the storefront, when given, must be a lowercase country code.
    pub fn validate_with_key(&self, location: KeyLocation) -> (r: Result<AppleConfig, ConfigError>)
        ensures
            match self.storefront {
                None => r == Ok::<AppleConfig, ConfigError>(AppleConfig {
                    team_id: location.team_id,
                    key_id: location.key_id,
                    private_key: location.private_key,
                    storefront: None,
                }),
                Some(s) => {
                    let v = spec_trim(s@);
                    if v.len() == 2 && forall|k: int| 0 <= k < v.len() ==> ascii_lowercase(#[trigger] v[k]) {
                        r matches Ok(c) && (c.team_id == location.team_id && c.key_id == location.key_id && c.private_key
                            == location.private_key && (c.storefront matches Some(t) && t@ == v))
                    } else {
                        r matches Err(ConfigError::InvalidField { field: f, message: m }) && f@ == "storefront"@ && m@
                            == storefront_note()
                    }
                },
            },
    {
        let storefront = match &self.storefront {
            None => None,
            Some(s) => match validate_storefront(s.as_str()) {
                Ok(v) => Some(v),
                Err(e) => return Err(e),
            },
        };
        Ok(AppleConfig {
            team_id: location.team_id,
            key_id: location.key_id,
            private_key: location.private_key,
            storefront,
        })
    }
}

fn opt_deref(o: &Option<String>) -> (r: Option<&str>)
    ensures
        opt_view(r) == string_view(*o),
{
    match o {
        Some(s) => Some(s.as_str()),
        None => None,
    }
}

} // verus!
