//! Command line parsing.
use vstd::prelude::*;

use crate::text::{chars_of, has_prefix, push_text, same_text, starts_with_text, string_from_chars};

verus! {

#[derive(Clone, Copy, Debug, PartialEq, Eq, Structural)]
pub enum BackendChoice {
    Auto,
    Mock,
    Macos,
    Apple,
}

pub open spec fn spec_backend_label(b: BackendChoice) -> Seq<char> {
    match b {
        BackendChoice::Auto => "auto"@,
        BackendChoice::Mock => "mock"@,
        BackendChoice::Macos => "macos"@,
        BackendChoice::Apple => "apple"@,
    }
}

/// The backend a name on the command line selects.
pub open spec fn spec_backend_named(value: Seq<char>) -> Result<BackendChoice, Seq<char>> {
    if value == "auto"@ {
        Ok(BackendChoice::Auto)
    } else if value == "mock"@ {
        Ok(BackendChoice::Mock)
    } else if value == "macos"@ {
        Ok(BackendChoice::Macos)
    } else if value == "apple"@ {
        Ok(BackendChoice::Apple)
    } else {
        Err("unknown backend '"@ + value + "'; expected auto, mock, macos, or apple"@)
    }
}

/// A command line that cannot be used, with what is wrong with it.
#[derive(Clone, Debug, PartialEq, Eq)]
pub enum CliError {
    InvalidArguments(String),
}

impl CliError {
    /// The message shown for the error.
    pub fn message(&self) -> (r: &str)
        ensures
            r@ == match *self {
                CliError::InvalidArguments(m) => m@,
            },
    {
        match self {
            CliError::InvalidArguments(m) => m.as_str(),
        }
    }
}

impl BackendChoice {
    /// The name of the backend on the command line.
    pub fn label(self) -> (r: &'static str)
        ensures
            r@ == spec_backend_label(self),
    {
        match self {
            BackendChoice::Auto => "auto",
            BackendChoice::Mock => "mock",
            BackendChoice::Macos => "macos",
            BackendChoice::Apple => "apple",
        }
    }

    /// The backend a name selects.
    pub fn parse(value: &str) -> (r: Result<BackendChoice, CliError>)
        ensures
            match (r, spec_backend_named(value@)) {
                (Ok(b), Ok(c)) => b == c,
                (Err(CliError::InvalidArguments(m)), Err(e)) => m@ == e,
                _ => false,
            },
    {
        proof {
            reveal_strlit("auto");
            reveal_strlit("mock");
            reveal_strlit("macos");
            reveal_strlit("apple");
        }
        if same_text(value, "auto") {
            Ok(BackendChoice::Auto)
        } else if same_text(value, "mock") {
            Ok(BackendChoice::Mock)
        } else if same_text(value, "macos") {
            Ok(BackendChoice::Macos)
        } else if same_text(value, "apple") {
            Ok(BackendChoice::Apple)
        } else {
            let mut m = "unknown backend '".to_owned();
            push_text(&mut m, value);
            push_text(&mut m, "'; expected auto, mock, macos, or apple");
            Err(CliError::InvalidArguments(m))
        }
    }
}

#[derive(Clone, Copy, Debug, PartialEq, Eq, Structural)]
pub enum AuthCommand {
    Login,
    Status,
    Logout,
}

#[derive(Clone, Copy, Debug, PartialEq, Eq, Structural)]
pub enum CliAction {
    Run(BackendChoice),
    Auth(AuthCommand),
    Doctor,
    ConfigPath,
    Help,
    Version,
}

/// `s` without every leading repetition of `prefix`.
pub open spec fn strip_all(s: Seq<char>, prefix: Seq<char>) -> Seq<char>
    decreases s.len(),
{
    if prefix.len() > 0 && has_prefix(s, prefix) {
        strip_all(s.skip(prefix.len() as int), prefix)
    } else {
        s
    }
}

/// The outcome of the options from position `i` on, with `backend` chosen so far.
pub open spec fn spec_options(args: Seq<Seq<char>>, i: int, backend: BackendChoice) -> Result<CliAction, Seq<char>>
    decreases args.len() - i,
{
    if i < 0 || i >= args.len() {
        Ok(CliAction::Run(backend))
    } else {
        let a = args[i];
        if a == "-h"@ || a == "--help"@ {
            Ok(CliAction::Help)
        } else if a == "-V"@ || a == "--version"@ || a == "version"@ {
            Ok(CliAction::Version)
        } else if a == "--backend"@ {
            if i + 1 >= args.len() {
                Err("--backend requires a value"@)
            } else {
                match spec_backend_named(args[i + 1]) {
                    Ok(b) => spec_options(args, i + 2, b),
                    Err(e) => Err(e),
                }
            }
        } else if has_prefix(a, "--backend="@) {
            match spec_backend_named(strip_all(a, "--backend="@)) {
                Ok(b) => spec_options(args, i + 1, b),
                Err(e) => Err(e),
            }
        } else {
            Err("unknown argument '"@ + a + "'"@)
        }
    }
}

/// The action a command line asks for, or what is wrong with it.
pub open spec fn spec_parse(args: Seq<Seq<char>>) -> Result<CliAction, Seq<char>> {
    if args.len() > 0 && args[0] == "auth"@ {
        if args.len() == 1 {
            Ok(CliAction::Auth(AuthCommand::Login))
        } else {
            let command = if args[1] == "status"@ {
                Some(AuthCommand::Status)
            } else if args[1] == "logout"@ {
                Some(AuthCommand::Logout)
            } else {
                None
            };
            match command {
                None => Err("unknown auth command '"@ + args[1] + "'; expected status or logout"@),
                Some(c) => if args.len() > 2 {
                    Err("unexpected argument '"@ + args[2] + "' after auth command"@)
                } else {
                    Ok(CliAction::Auth(c))
                },
            }
        }
    } else if args.len() > 0 && (args[0] == "doctor"@ || args[0] == "config-path"@) {
        if args.len() > 1 {
            Err("unexpected argument '"@ + args[1] + "'"@)
        } else if args[0] == "doctor"@ {
            Ok(CliAction::Doctor)
        } else {
            Ok(CliAction::ConfigPath)
        }
    } else {
        spec_options(args, 0, BackendChoice::Auto)
    }
}

/// Whether a parse result is what `spec_parse` gives.
pub open spec fn parsed_as(r: Result<CliAction, CliError>, expected: Result<CliAction, Seq<char>>) -> bool {
    match (r, expected) {
        (Ok(a), Ok(b)) => a == b,
        (Err(CliError::InvalidArguments(m)), Err(e)) => m@ == e,
        _ => false,
    }
}

fn invalid(parts: &[&str]) -> (r: CliError)
    ensures
        r matches CliError::InvalidArguments(m) && m@ == crate::text::concat_all(parts@.map_values(|p: &str| p@)),
{
    let mut m = String::new();
    let mut i: usize = 0;
    while i < parts.len()
        invariant
            i <= parts@.len(),
            m@ == crate::text::concat_all(parts@.map_values(|p: &str| p@).take(i as int)),
        decreases parts.len() - i,
    {
        push_text(&mut m, parts[i]);
        assert(parts@.map_values(|p: &str| p@).take(i + 1).drop_last() =~= parts@.map_values(|p: &str| p@).take(i as int));
        i = i + 1;
    }
    assert(parts@.map_values(|p: &str| p@).take(parts@.len() as int) =~= parts@.map_values(|p: &str| p@));
    CliError::InvalidArguments(m)
}

fn strip_backend_prefix(value: &str) -> (r: String)
    ensures
        r@ == strip_all(value@, "--backend="@),
{
    proof {
        reveal_strlit("--backend=");
    }
    let prefix = chars_of("--backend=");
    let chars = chars_of(value);
    let mut start: usize = 0;
    assert(chars@.skip(0) =~= chars@);
    while prefix.len() <= chars.len() - start && crate::text::matches_at(&chars, &prefix, start)
        invariant
            prefix@ == "--backend="@,
            prefix@.len() == 10,
            chars@ == value@,
            start <= chars@.len(),
            strip_all(value@, "--backend="@) == strip_all(chars@.skip(start as int), "--backend="@),
        decreases chars@.len() - start,
    {
        let ghost rest = chars@.skip(start as int);
        assert(rest.subrange(0, 10) =~= chars@.subrange(start as int, start + 10));
        assert(rest.skip(10) =~= chars@.skip(start + 10));
        start = start + prefix.len();
    }
    let ghost rest = chars@.skip(start as int);
    if prefix.len() <= chars.len() - start {
        assert(rest.subrange(0, 10) =~= chars@.subrange(start as int, start + 10));
    }
    let mut out: Vec<char> = Vec::new();
    let mut i = start;
    while i < chars.len()
        invariant
            start <= i <= chars@.len(),
            out@ == chars@.subrange(start as int, i as int),
        decreases chars.len() - i,
    {
        out.push(chars[i]);
        assert(out@ =~= chars@.subrange(start as int, i + 1));
        i = i + 1;
    }
    assert(out@ =~= chars@.skip(start as int));
    string_from_chars(&out)
}

impl CliAction {
    /// The action the command line arguments (after the program name) ask for.
    pub fn parse_from(arguments: Vec<String>) -> (r: Result<CliAction, CliError>)
        ensures
            parsed_as(r, spec_parse(arguments@.map_values(|a: String| a@))),
    {
        let ghost args = arguments@.map_values(|a: String| a@);
        proof {
            reveal_strlit("auth");
            reveal_strlit("status");
            reveal_strlit("logout");
            reveal_strlit("doctor");
            reveal_strlit("config-path");
        }
        let n = arguments.len();
        if n > 0 && same_text(arguments[0].as_str(), "auth") {
            if n == 1 {
                return Ok(CliAction::Auth(AuthCommand::Login));
            }
            let command = if same_text(arguments[1].as_str(), "status") {
                AuthCommand::Status
            } else if same_text(arguments[1].as_str(), "logout") {
                AuthCommand::Logout
            } else {
                let parts: [&str; 3] = ["unknown auth command '", arguments[1].as_str(), "'; expected status or logout"];
                let e = invalid(&parts);
                assert(parts@.map_values(|p: &str| p@) =~= seq!["unknown auth command '"@, args[1], "'; expected status or logout"@]);
                proof {
                    crate::text::lemma_concat_three("unknown auth command '"@, args[1], "'; expected status or logout"@);
                }
                return Err(e);
            };
            if n > 2 {
                let parts: [&str; 3] = ["unexpected argument '", arguments[2].as_str(), "' after auth command"];
                let e = invalid(&parts);
                assert(parts@.map_values(|p: &str| p@) =~= seq!["unexpected argument '"@, args[2], "' after auth command"@]);
                proof {
                    crate::text::lemma_concat_three("unexpected argument '"@, args[2], "' after auth command"@);
                }
                return Err(e);
            }
            return Ok(CliAction::Auth(command));
        }
        if n > 0 && (same_text(arguments[0].as_str(), "doctor") || same_text(arguments[0].as_str(), "config-path")) {
            if n > 1 {
                let parts: [&str; 3] = ["unexpected argument '", arguments[1].as_str(), "'"];
                let e = invalid(&parts);
                assert(parts@.map_values(|p: &str| p@) =~= seq!["unexpected argument '"@, args[1], "'"@]);
                proof {
                    crate::text::lemma_concat_three("unexpected argument '"@, args[1], "'"@);
                }
                return Err(e);
            }
            if same_text(arguments[0].as_str(), "doctor") {
                return Ok(CliAction::Doctor);
            }
            return Ok(CliAction::ConfigPath);
        }
        parse_options(&arguments, 0, BackendChoice::Auto)
    }

    /// The usage text.
    pub fn help_text() -> (r: &'static str)
        ensures
            r@ == "apple-music-tui\n\nUSAGE:\n    apple-music-tui --backend <auto|mock|macos>\n    apple-music-tui auth [status|logout]\n    apple-music-tui doctor\n    apple-music-tui config-path\n\nOPTIONS:\n    --backend <auto|mock|macos|apple>\n    -h, --help\n    -V, --version\n\nOn macOS, auto selects the local Music.app playback backend.\nThe apple HTTP content backend is reserved for Milestone 4."@,
    {
        "apple-music-tui\n\nUSAGE:\n    apple-music-tui --backend <auto|mock|macos>\n    apple-music-tui auth [status|logout]\n    apple-music-tui doctor\n    apple-music-tui config-path\n\nOPTIONS:\n    --backend <auto|mock|macos|apple>\n    -h, --help\n    -V, --version\n\nOn macOS, auto selects the local Music.app playback backend.\nThe apple HTTP content backend is reserved for Milestone 4."
    }
}

fn parse_options(arguments: &Vec<String>, i: usize, backend: BackendChoice) -> (r: Result<CliAction, CliError>)
    requires
        i <= arguments@.len(),
    ensures
        parsed_as(r, spec_options(arguments@.map_values(|a: String| a@), i as int, backend)),
    decreases arguments@.len() - i,
{
    let ghost args = arguments@.map_values(|a: String| a@);
    proof {
        reveal_strlit("-h");
        reveal_strlit("--help");
        reveal_strlit("-V");
        reveal_strlit("--version");
        reveal_strlit("version");
        reveal_strlit("--backend");
        reveal_strlit("--backend=");
    }
    if i >= arguments.len() {
        return Ok(CliAction::Run(backend));
    }
    let a = arguments[i].as_str();
    assert(a@ == args[i as int]);
    if same_text(a, "-h") || same_text(a, "--help") {
        return Ok(CliAction::Help);
    }
    if same_text(a, "-V") || same_text(a, "--version") || same_text(a, "version") {
        return Ok(CliAction::Version);
    }
    if same_text(a, "--backend") {
        if i + 1 >= arguments.len() {
            return Err(CliError::InvalidArguments("--backend requires a value".to_owned()));
        }
        let value = arguments[i + 1].as_str();
        return match BackendChoice::parse(value) {
            Ok(b) => parse_options(arguments, i + 2, b),
            Err(e) => Err(e),
        };
    }
    if starts_with_text(a, "--backend=") {
        let value = strip_backend_prefix(a);
        return match BackendChoice::parse(value.as_str()) {
            Ok(b) => parse_options(arguments, i + 1, b),
            Err(e) => Err(e),
        };
    }
    let parts: [&str; 3] = ["unknown argument '", a, "'"];
    let e = invalid(&parts);
    assert(parts@.map_values(|p: &str| p@) =~= seq!["unknown argument '"@, args[i as int], "'"@]);
    proof {
        crate::text::lemma_concat_three("unknown argument '"@, args[i as int], "'"@);
    }
    Err(e)
}

} // verus!
