//! The loopback helper that receives the Music User Token from the browser.
//!
//! Only a `POST` to the exact callback path, addressed to the helper's own host, sent from
//! its own origin, carrying the session nonce and a JSON body of bounded size counts as the
//! callback; every other request is refused.
use vstd::prelude::*;

use crate::auth::SecretToken;
use crate::music_app::ascii_lower;
use crate::script::{js_string, json_text};
use crate::text::{replace_text, spec_replace};

verus! {

/// The largest Music User Token, and callback body, the helper accepts.
pub const MAX_TOKEN_SIZE: usize = 32768;

/// One HTTP request as the helper read it: header names are lowercased.
#[derive(Clone, Debug, PartialEq, Eq)]
pub struct HttpRequest {
    pub method: String,
    pub path: String,
    pub headers: Vec<(String, String)>,
    pub body: Vec<u8>,
}

/// The value of the first header with this name.
pub open spec fn header_value(headers: Seq<(String, String)>, name: Seq<char>) -> Option<Seq<char>>
    decreases headers.len(),
{
    if headers.len() == 0 {
        None
    } else if headers[0].0@ == name {
        Some(headers[0].1@)
    } else {
        header_value(headers.drop_first(), name)
    }
}

/// Whether two texts are equal when ASCII letters are compared without case.
pub open spec fn eq_ignore_ascii_case(a: Seq<char>, b: Seq<char>) -> bool {
    a.len() == b.len() && forall|i: int| 0 <= i < a.len() ==> ascii_lower(#[trigger] a[i]) == ascii_lower(b[i])
}

fn lower_code(c: char) -> (r: u32)
    ensures
        r == ascii_lower(c) as u32,
{
    if 'A' <= c && c <= 'Z' {
        (c as u32) + 32
    } else {
        c as u32
    }
}

/// Whether two texts are equal when ASCII letters are compared without case.
pub fn same_ignoring_ascii_case(a: &str, b: &str) -> (r: bool)
    ensures
        r == eq_ignore_ascii_case(a@, b@),
{
    let n = a.unicode_len();
    if n != b.unicode_len() {
        return false;
    }
    let mut i: usize = 0;
    while i < n
        invariant
            n == a@.len(),
            n == b@.len(),
            i <= n,
            forall|k: int| 0 <= k < i ==> ascii_lower(#[trigger] a@[k]) == ascii_lower(b@[k]),
        decreases n - i,
    {
        let x = a.get_char(i);
        let y = b.get_char(i);
        if lower_code(x) != lower_code(y) {
            proof {
                assert(ascii_lower(a@[i as int]) != ascii_lower(b@[i as int]));
            }
            return false;
        }
        proof {
            assert(ascii_lower(x) as u32 == ascii_lower(y) as u32);
        }
        i = i + 1;
    }
    true
}

impl HttpRequest {
    /// The value of the first header with this name.
    pub fn header(&self, name: &str) -> (r: Option<&str>)
        ensures
            match r {
                Some(v) => header_value(self.headers@, name@) == Some(v@),
                None => header_value(self.headers@, name@) is None,
            },
    {
        let mut i: usize = 0;
        assert(self.headers@.skip(0) =~= self.headers@);
        while i < self.headers.len()
            invariant
                i <= self.headers@.len(),
                header_value(self.headers@, name@) == header_value(self.headers@.skip(i as int), name@),
            decreases self.headers.len() - i,
        {
            proof {
                assert(self.headers@.skip(i as int).drop_first() =~= self.headers@.skip(i + 1));
                assert(self.headers@.skip(i as int)[0] == self.headers@[i as int]);
            }
            if crate::text::same_text(self.headers[i].0.as_str(), name) {
                return Some(self.headers[i].1.as_str());
            }
            i = i + 1;
        }
        proof {
            assert(self.headers@.skip(i as int).len() == 0);
        }
        None
    }
}

/// Whether a request is the expected callback.
pub open spec fn spec_valid_callback(
    request: HttpRequest,
    callback_path: Seq<char>,
    expected_host: Seq<char>,
    origin: Seq<char>,
    nonce: Seq<char>,
) -> bool {
    &&& request.method@ == "POST"@
    &&& request.path@ == callback_path
    &&& header_value(request.headers@, "host"@) == Some(expected_host)
    &&& header_value(request.headers@, "origin"@) == Some(origin)
    &&& header_value(request.headers@, "x-apple-music-tui-nonce"@) == Some(nonce)
    &&& match header_value(request.headers@, "content-type"@) {
        Some(v) => eq_ignore_ascii_case(v, "application/json"@),
        None => false,
    }
    &&& request.body@.len() <= MAX_TOKEN_SIZE
}

/// Whether a request is the expected callback: method, path, host, origin, nonce, content
/// type and body size all as the helper issued them.
pub fn is_valid_callback(
    request: &HttpRequest,
    callback_path: &str,
    expected_host: &str,
    origin: &str,
    nonce: &str,
) -> (r: bool)
    ensures
        r == spec_valid_callback(*request, callback_path@, expected_host@, origin@, nonce@),
{
    let matches_header = |name: &str, expected: &str| -> (b: bool)
        ensures
            b == (header_value(request.headers@, name@) == Some(expected@)),
        {
            match request.header(name) {
                Some(v) => crate::text::same_text(v, expected),
                None => false,
            }
        };
    let content_type_ok = match request.header("content-type") {
        Some(v) => same_ignoring_ascii_case(v, "application/json"),
        None => false,
    };
    crate::text::same_text(request.method.as_str(), "POST")
        && crate::text::same_text(request.path.as_str(), callback_path)
        && matches_header("host", expected_host)
        && matches_header("origin", origin)
        && matches_header("x-apple-music-tui-nonce", nonce)
        && content_type_ok
        && request.body.len() <= MAX_TOKEN_SIZE
}

/// The local page that asks MusicKit JS for authorization and posts the Music User Token
/// back to the helper; the placeholders are filled by `authorization_page`.
pub const AUTHORIZATION_HTML: &'static str = r#"<!doctype html>
<html lang="en">
<head>
  <meta charset="utf-8">
  <meta name="viewport" content="width=device-width,initial-scale=1">
  <meta name="referrer" content="no-referrer">
  <meta http-equiv="Content-Security-Policy" content="default-src 'none'; script-src 'self' https://js-cdn.music.apple.com 'unsafe-inline'; connect-src https: 'self'; frame-src https://*.apple.com; style-src 'unsafe-inline'; img-src data: https:; frame-ancestors 'none'">
  <title>apple-music-tui authorization</title>
  <style>body{font:16px system-ui;max-width:42rem;margin:4rem auto;padding:0 1rem;color:#202124}button{font:inherit;padding:.7rem 1rem}#status{margin-top:1rem}</style>
</head>
<body>
  <h1>Authorize apple-music-tui</h1>
  <p>This local page uses Apple's MusicKit JS consent screen. The resulting Music User Token is sent only to the loopback helper and stored in macOS Keychain.</p>
  <button id="authorize" type="button">Authorize Apple Music</button>
  <p id="status" role="status">Ready.</p>
  <script src="https://js-cdn.music.apple.com/musickit/v3/musickit.js"></script>
  <script>
    const developerToken = __DEVELOPER_TOKEN__;
    const callbackPath = __CALLBACK_PATH__;
    const nonce = __NONCE__;
    const status = document.getElementById('status');
    document.getElementById('authorize').addEventListener('click', async () => {
      try {
        status.textContent = 'Waiting for Apple Music authorization…';
        await MusicKit.configure({developerToken, app: {name: 'apple-music-tui', build: '0.1.0'}});
        const music = MusicKit.getInstance();
        const result = await music.authorize();
        const musicUserToken = result || music.musicUserToken;
        if (!musicUserToken) throw new Error('MusicKit returned no user token');
        const response = await fetch(callbackPath, {
          method: 'POST',
          headers: {'Content-Type': 'application/json', 'X-Apple-Music-TUI-Nonce': nonce},
          body: JSON.stringify({musicUserToken})
        });
        if (!response.ok) throw new Error('The local helper rejected the callback');
        status.textContent = 'Authorization complete. You may close this window.';
      } catch (_) {
        status.textContent = 'Authorization failed. Return to the terminal for guidance.';
        try {
          await fetch(callbackPath, {
            method: 'POST',
            headers: {'Content-Type': 'application/json', 'X-Apple-Music-TUI-Nonce': nonce},
            body: JSON.stringify({authorizationFailed: true})
          });
        } catch (_) {}
      }
    });
  </script>
</body>
</html>"#;

/// The authorization page: the template with the callback path, then the nonce, then the
/// developer token put in as JSON string literals, in that order.
pub open spec fn spec_authorization_page(template: Seq<char>, developer_token: Seq<char>, callback_path: Seq<char>, nonce: Seq<char>) -> Seq<char> {
    spec_replace(
        spec_replace(spec_replace(template, "__CALLBACK_PATH__"@, json_text(callback_path)), "__NONCE__"@, json_text(nonce)),
        "__DEVELOPER_TOKEN__"@,
        json_text(developer_token),
    )
}

/// The page served at the authorization path, as `spec_authorization_page` says of
/// `AUTHORIZATION_HTML`.
pub fn authorization_page(developer_token: &SecretToken, callback_path: &str, nonce: &str) -> (r: String)
    ensures
        r@ == spec_authorization_page(AUTHORIZATION_HTML@, developer_token@, callback_path@, nonce@),
{
    let token_json = js_string(developer_token.expose());
    let callback_json = js_string(callback_path);
    let nonce_json = js_string(nonce);
    proof {
        reveal_strlit("__CALLBACK_PATH__");
        reveal_strlit("__NONCE__");
        reveal_strlit("__DEVELOPER_TOKEN__");
    }
    let page = replace_text(AUTHORIZATION_HTML, "__CALLBACK_PATH__", callback_json.as_str());
    let page = replace_text(page.as_str(), "__NONCE__", nonce_json.as_str());
    replace_text(page.as_str(), "__DEVELOPER_TOKEN__", token_json.as_str())
}

} // verus!
