use comfyfy::spotify_client_auth::{extract_code, interpret_exchange, parse_exchange_body};
use comfyfy::{
    AuthError, BootstrapStep, ClientConfig, ExchangeRequest, PlaybackCall, SpotifyClientAuth,
    TokenGrant, TokenStep,
};

fn config() -> ClientConfig {
    ClientConfig::new(Some("id1".to_string()), Some("sec1".to_string())).unwrap()
}

fn pairs(req: &ExchangeRequest) -> Vec<(&str, &str)> {
    req.params.iter().map(|(k, v)| (k.as_str(), v.as_str())).collect()
}

fn auth(expires_at: u64) -> SpotifyClientAuth {
    SpotifyClientAuth {
        access_token: "tok0".to_string(),
        refresh_token: "sec0".to_string(),
        expires_at,
    }
}

fn grant(access: &str, expires_in: u64, refresh: Option<&str>) -> TokenGrant {
    TokenGrant {
        access_token: access.to_string(),
        expires_in,
        refresh_token: refresh.map(|s| s.to_string()),
    }
}

#[test]
fn bootstrap_without_stored_secret_logs_in() {
    assert!(matches!(SpotifyClientAuth::bootstrap(&config(), None), BootstrapStep::Login));
}

#[test]
fn bootstrap_with_empty_or_blank_secret_logs_in() {
    assert!(matches!(SpotifyClientAuth::bootstrap(&config(), Some("")), BootstrapStep::Login));
    assert!(matches!(SpotifyClientAuth::bootstrap(&config(), Some("  \n")), BootstrapStep::Login));
}

#[test]
fn bootstrap_with_stored_secret_refreshes() {
    match SpotifyClientAuth::bootstrap(&config(), Some("abc123")) {
        BootstrapStep::Refresh(req, secret) => {
            assert_eq!(secret, "abc123");
            assert_eq!(
                pairs(&req),
                vec![
                    ("grant_type", "refresh_token"),
                    ("refresh_token", "abc123"),
                    ("client_id", "id1"),
                    ("client_secret", "sec1"),
                ]
            );
        }
        BootstrapStep::Login => panic!("stored secret must not lead to login"),
    }
}

#[test]
fn bootstrap_trims_stored_secret() {
    match SpotifyClientAuth::bootstrap(&config(), Some("  abc123\n")) {
        BootstrapStep::Refresh(req, secret) => {
            assert_eq!(secret, "abc123");
            assert_eq!(pairs(&req)[1], ("refresh_token", "abc123"));
        }
        BootstrapStep::Login => panic!("stored secret must not lead to login"),
    }
}

#[test]
fn code_exchange_form() {
    let req = SpotifyClientAuth::code_exchange(&config(), "xyz");
    assert_eq!(
        pairs(&req),
        vec![
            ("grant_type", "authorization_code"),
            ("code", "xyz"),
            ("redirect_uri", "http://localhost:8888/"),
            ("client_id", "id1"),
            ("client_secret", "sec1"),
            ("scope", "user-read-currently-playing user-read-playback-state user-modify-playback-state"),
        ]
    );
}

#[test]
fn missing_config_is_reported() {
    assert!(matches!(ClientConfig::new(None, Some("s".to_string())), Err(AuthError::MissingConfig)));
    assert!(matches!(ClientConfig::new(Some("i".to_string()), None), Err(AuthError::MissingConfig)));
}

#[test]
fn token_is_cached_before_deadline() {
    match auth(100).get_token(&config(), 99) {
        TokenStep::Ready(t) => assert_eq!(t, "tok0"),
        TokenStep::Refresh(_) => panic!("valid token must not refresh"),
    }
}

#[test]
fn token_refreshes_at_and_after_deadline() {
    for now in [100u64, 250] {
        match auth(100).get_token(&config(), now) {
            TokenStep::Refresh(req) => assert_eq!(pairs(&req)[1], ("refresh_token", "sec0")),
            TokenStep::Ready(_) => panic!("expired token must refresh"),
        }
    }
}

#[test]
fn refresh_moves_deadline_later() {
    let mut a = auth(100);
    a.apply_refresh(grant("tok1", 3600, None), 120);
    assert_eq!(a.expires_at, 3720);
    assert!(a.expires_at > 100);
    assert_eq!(a.access_token, "tok1");
}

#[test]
fn refresh_without_new_secret_keeps_old() {
    let mut a = auth(100);
    a.apply_refresh(grant("tok1", 60, None), 100);
    assert_eq!(a.refresh_token, "sec0");
}

#[test]
fn refresh_with_new_secret_replaces_old() {
    let mut a = auth(100);
    a.apply_refresh(grant("tok1", 60, Some("sec2")), 100);
    assert_eq!(a.refresh_token, "sec2");
}

#[test]
fn new_takes_grant_secret_or_prior() {
    let a = SpotifyClientAuth::new(grant("t", 10, Some("g")), Some("p".to_string()), 5).unwrap();
    assert_eq!((a.access_token.as_str(), a.refresh_token.as_str(), a.expires_at), ("t", "g", 15));
    let b = SpotifyClientAuth::new(grant("t", 10, None), Some("p".to_string()), 5).unwrap();
    assert_eq!(b.refresh_token, "p");
    assert!(matches!(
        SpotifyClientAuth::new(grant("t", 10, None), None, 5),
        Err(AuthError::MalformedResponse)
    ));
}

#[test]
fn exchange_body_with_all_fields() {
    let body = r#"{"access_token":"AT","token_type":"Bearer","expires_in":3600,"refresh_token":"RT"}"#;
    let g = parse_exchange_body(body).unwrap();
    assert_eq!(g.access_token, "AT");
    assert_eq!(g.expires_in, 3600);
    assert_eq!(g.refresh_token.as_deref(), Some("RT"));
}

#[test]
fn exchange_body_without_secret() {
    let body = r#"{"access_token":"AT","expires_in":60}"#;
    let g = parse_exchange_body(body).unwrap();
    assert_eq!(g.refresh_token, None);
}

#[test]
fn exchange_body_missing_fields_is_malformed() {
    assert!(matches!(parse_exchange_body(r#"{"expires_in":60}"#), Err(AuthError::MalformedResponse)));
    assert!(matches!(parse_exchange_body(r#"{"access_token":"AT"}"#), Err(AuthError::MalformedResponse)));
    assert!(matches!(parse_exchange_body("not json"), Err(AuthError::MalformedResponse)));
}

#[test]
fn interpret_exchange_requires_token_and_lifetime() {
    assert!(matches!(interpret_exchange(None, Some(1), None), Err(AuthError::MalformedResponse)));
    assert!(matches!(interpret_exchange(Some("a".to_string()), None, None), Err(AuthError::MalformedResponse)));
    let g = interpret_exchange(Some("a".to_string()), Some(5), Some("r".to_string())).unwrap();
    assert_eq!((g.access_token.as_str(), g.expires_in, g.refresh_token.as_deref()), ("a", 5, Some("r")));
}

#[test]
fn code_is_extracted_from_request_line() {
    let req = b"GET /?code=AQB12-x_y HTTP/1.1\r\nHost: localhost:8888\r\n\r\n";
    assert_eq!(extract_code(req), Some(b"AQB12-x_y".to_vec()));
}

#[test]
fn code_runs_to_end_without_space() {
    assert_eq!(extract_code(b"GET /?state=1&code=abc"), Some(b"abc".to_vec()));
}

#[test]
fn request_without_code_gives_none() {
    assert_eq!(extract_code(b"GET /favicon.ico HTTP/1.1\r\n"), None);
    assert_eq!(extract_code(b""), None);
}

#[test]
fn authorization_url_names_client_and_scopes() {
    assert_eq!(
        SpotifyClientAuth::authorization_url(&config()),
        "https://accounts.spotify.com/authorize?client_id=id1&response_type=code&redirect_uri=http://localhost:8888/&scope=user-read-currently-playing user-read-playback-state user-modify-playback-state"
    );
}

#[test]
fn current_playing_is_read_from_body() {
    let body = r#"{"item":{"name":"Song A","album":{"name":"Album A"},"artists":[{"name":"Artist A"},{"name":"B"}]}}"#;
    let t = SpotifyClientAuth::get_current_playing(200, body).unwrap();
    assert_eq!((t.song.as_str(), t.album.as_str(), t.artists.as_str()), ("Song A", "Album A", "Artist A"));
}

#[test]
fn current_playing_defaults_and_absence() {
    let t = SpotifyClientAuth::get_current_playing(200, r#"{"item":{}}"#).unwrap();
    assert_eq!((t.song.as_str(), t.album.as_str(), t.artists.as_str()), ("Unknown Song", "Unknown Album", "Unknown Artist"));
    assert!(SpotifyClientAuth::get_current_playing(204, "").is_none());
    assert!(SpotifyClientAuth::get_current_playing(200, r#"{"is_playing":false}"#).is_none());
}

#[test]
fn playback_calls() {
    assert_eq!(SpotifyClientAuth::playback_toggle(true), PlaybackCall::Pause);
    assert_eq!(SpotifyClientAuth::playback_toggle(false), PlaybackCall::Resume);
    assert_eq!(SpotifyClientAuth::pause(r#"{"is_playing":true,"device":{}}"#), Some(PlaybackCall::Pause));
    assert_eq!(SpotifyClientAuth::pause(r#"{"is_playing":false}"#), Some(PlaybackCall::Resume));
    assert_eq!(SpotifyClientAuth::pause(r#"{"device":{}}"#), None);
    assert_eq!(SpotifyClientAuth::skip_back().url(), "https://api.spotify.com/v1/me/player/previous");
    assert_eq!(SpotifyClientAuth::skip_forward().url(), "https://api.spotify.com/v1/me/player/next");
    assert_eq!(PlaybackCall::Resume.url(), "https://api.spotify.com/v1/me/player/play");
}
