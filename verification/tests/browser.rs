use apple_music_tui::auth::SecretToken;
use apple_music_tui::browser::{
    authorization_page, is_valid_callback, same_ignoring_ascii_case, HttpRequest, AUTHORIZATION_HTML,
};

fn callback_request() -> HttpRequest {
    HttpRequest {
        method: "POST".to_owned(),
        path: "/callback/nonce".to_owned(),
        headers: vec![
            ("host".to_owned(), "127.0.0.1:4321".to_owned()),
            ("origin".to_owned(), "http://127.0.0.1:4321".to_owned()),
            ("x-apple-music-tui-nonce".to_owned(), "nonce".to_owned()),
            ("content-type".to_owned(), "application/json".to_owned()),
        ],
        body: br#"{"musicUserToken":"test"}"#.to_vec(),
    }
}

#[test]
fn callback_requires_exact_origin_host_path_and_nonce() {
    let mut request = callback_request();
    assert!(is_valid_callback(
        &request,
        "/callback/nonce",
        "127.0.0.1:4321",
        "http://127.0.0.1:4321",
        "nonce"
    ));

    request.headers[1].1 = "http://attacker.invalid".to_owned();
    assert!(!is_valid_callback(
        &request,
        "/callback/nonce",
        "127.0.0.1:4321",
        "http://127.0.0.1:4321",
        "nonce"
    ));
}

#[test]
fn callback_content_type_ignores_ascii_case_but_nothing_else_does() {
    let mut request = callback_request();
    request.headers[3].1 = "Application/JSON".to_owned();
    assert!(is_valid_callback(&request, "/callback/nonce", "127.0.0.1:4321", "http://127.0.0.1:4321", "nonce"));
    request.method = "GET".to_owned();
    assert!(!is_valid_callback(&request, "/callback/nonce", "127.0.0.1:4321", "http://127.0.0.1:4321", "nonce"));
    let mut request = callback_request();
    request.headers.remove(2);
    assert!(!is_valid_callback(&request, "/callback/nonce", "127.0.0.1:4321", "http://127.0.0.1:4321", "nonce"));
    let mut request = callback_request();
    request.body = vec![b'x'; 32 * 1024 + 1];
    assert!(!is_valid_callback(&request, "/callback/nonce", "127.0.0.1:4321", "http://127.0.0.1:4321", "nonce"));
    assert!(same_ignoring_ascii_case("Content-TYPE", "content-type"));
    assert!(!same_ignoring_ascii_case("content-type ", "content-type"));
}

#[test]
fn the_first_header_with_a_name_wins() {
    let mut request = callback_request();
    request.headers.insert(0, ("origin".to_owned(), "http://attacker.invalid".to_owned()));
    assert_eq!(request.header("origin"), Some("http://attacker.invalid"));
    assert_eq!(request.header("missing"), None);
    assert!(!is_valid_callback(&request, "/callback/nonce", "127.0.0.1:4321", "http://127.0.0.1:4321", "nonce"));
}

#[test]
fn helper_page_does_not_use_browser_persistence() {
    let page = authorization_page(
        &SecretToken::new("test-token".to_owned()),
        "/callback/nonce",
        "nonce",
    );
    assert!(!page.contains("localStorage"));
    assert!(page.contains("MusicKit.getInstance"));
    assert!(page.contains("X-Apple-Music-TUI-Nonce"));
}

#[test]
fn authorization_page_fills_each_placeholder_with_a_json_string() {
    let page = authorization_page(
        &SecretToken::new("tok\"en".to_owned()),
        "/callback/abc",
        "abc",
    );
    assert!(page.contains("const developerToken = \"tok\\\"en\";"));
    assert!(page.contains("const callbackPath = \"/callback/abc\";"));
    assert!(page.contains("const nonce = \"abc\";"));
    assert!(!page.contains("__DEVELOPER_TOKEN__"));
    assert!(!page.contains("__CALLBACK_PATH__"));
    assert!(!page.contains("__NONCE__"));
    assert_eq!(
        page.len(),
        AUTHORIZATION_HTML.len() - "__DEVELOPER_TOKEN__".len() - "__CALLBACK_PATH__".len() - "__NONCE__".len()
            + "\"tok\\\"en\"".len() + "\"/callback/abc\"".len() + "\"abc\"".len()
    );
}

#[test]
fn a_placeholder_inside_an_earlier_value_is_filled_too() {
    let page = authorization_page(&SecretToken::new("t".to_owned()), "__NONCE__", "n");
    assert!(page.contains("const callbackPath = \"\"n\"\";"));
}

#[test]
fn control_characters_are_written_as_unicode_escapes() {
    let page = authorization_page(&SecretToken::new("a\u{1}b\tc".to_owned()), "/callback/x", "x");
    assert!(page.contains("const developerToken = \"a\\u0001b\\tc\";"));
}
