use soundcloud_rs::builder::ClientBuilder;
use soundcloud_rs::config::{RetryConfig, RetryState};
use soundcloud_rs::error::Error;
use soundcloud_rs::identifier::{
    playlist_path, playlist_reposters_path, track_path, track_related_path, user_followers_path,
    user_path, user_playlists_path, user_tracks_path, Identifier,
};
use soundcloud_rs::request::{http_error, is_success_status, request_url, ProxyState};
use soundcloud_rs::text::{
    contains_text, int_to_text, trim_end_matches_char, trim_start_matches_char,
    u16_to_text,
};

#[test]
fn builder_defaults() {
    let b = ClientBuilder::new();
    assert_eq!(b.retry_config().max_retries, 3);
    assert!(b.retry_config().retry_on_401);
    assert!(b.client_id().is_none());
    assert!(b.proxy_url().is_none());
    let d = ClientBuilder::default();
    assert_eq!(d.retry_config().max_retries, 3);
}

#[test]
fn builder_setters_touch_only_their_setting() {
    let b = ClientBuilder::new()
        .with_proxy("http://127.0.0.1:8080")
        .with_max_retries(5)
        .with_retry_on_401(false)
        .with_client_id("abc".to_string());
    assert_eq!(b.retry_config().max_retries, 5);
    assert!(!b.retry_config().retry_on_401);
    assert_eq!(b.client_id().as_deref(), Some("abc"));
    assert_eq!(b.proxy_url().as_deref(), Some("http://127.0.0.1:8080"));
}

#[test]
fn retry_only_on_unauthorized_within_budget() {
    let config = RetryConfig { max_retries: 2, retry_on_401: true };
    let unauthorized = Error::with_status(401, "HTTP 401: ".to_string());
    let mut state = RetryState::new();
    assert!(state.on_error(&config, &unauthorized));
    assert!(state.on_error(&config, &unauthorized));
    assert!(!state.on_error(&config, &unauthorized));
    assert_eq!(state.retries, 2);

    let mut state = RetryState::new();
    let not_found = Error::with_status(404, "HTTP 404: ".to_string());
    assert!(!state.on_error(&config, &not_found));
    assert!(!state.on_error(&config, &Error::new("network down")));
    assert_eq!(state.retries, 0);
}

#[test]
fn retry_disabled_never_retries() {
    let config = RetryConfig { max_retries: 10, retry_on_401: false };
    let unauthorized = Error::with_status(401, "HTTP 401: ".to_string());
    let mut state = RetryState::new();
    assert!(!state.on_error(&config, &unauthorized));
    assert_eq!(state.retries, 0);
}

#[test]
fn attempts_bounded_by_budget_plus_one() {
    let config = RetryConfig::default();
    let unauthorized = Error::with_status(401, "HTTP 401: ".to_string());
    let mut state = RetryState::new();
    let mut attempts = 1;
    while state.on_error(&config, &unauthorized) {
        attempts += 1;
    }
    assert_eq!(attempts, 4);
}

#[test]
fn error_status_and_message() {
    let e = Error::new("Client ID not found");
    assert!(!e.is_status(401));
    assert_eq!(e.to_string(), "Client ID not found");
    let e = http_error(404, "Not Found");
    assert!(e.is_status(404));
    assert_eq!(e.status, Some(404));
    assert_eq!(e.to_string(), "HTTP 404: Not Found");
    assert_eq!(http_error(500, "").message, "HTTP 500: ");
}

#[test]
fn success_statuses() {
    assert!(!is_success_status(199));
    assert!(is_success_status(200));
    assert!(is_success_status(204));
    assert!(is_success_status(299));
    assert!(!is_success_status(300));
    assert!(!is_success_status(401));
}

#[test]
fn decimal_text() {
    assert_eq!(int_to_text(0), "0");
    assert_eq!(int_to_text(123456789), "123456789");
    assert_eq!(int_to_text(-42), "-42");
    assert_eq!(int_to_text(i64::MIN), "-9223372036854775808");
    assert_eq!(int_to_text(i64::MAX), "9223372036854775807");
    assert_eq!(u16_to_text(401), "401");
    assert_eq!(u16_to_text(65535), "65535");
}

#[test]
fn substring_search() {
    assert!(contains_text("https://a-v2.sndcdn.com/assets/1.js", "sndcdn.com"));
    assert!(!contains_text("https://example.com/app.js", "sndcdn.com"));
    assert!(contains_text("abc", ""));
    assert!(!contains_text("ab", "abc"));
    assert!(contains_text("sndcdn.com", "sndcdn.com"));
}

#[test]
fn trimming() {
    assert_eq!(trim_end_matches_char("https://api/ //", '/'), "https://api/ ");
    assert_eq!(trim_end_matches_char("///", '/'), "");
    assert_eq!(trim_start_matches_char("//tracks/1", '/'), "tracks/1");
    assert_eq!(trim_start_matches_char("tracks", '/'), "tracks");
}

#[test]
fn request_urls() {
    assert_eq!(request_url("https://api-v2.soundcloud.com", Some("tracks/1")), "https://api-v2.soundcloud.com/tracks/1");
    assert_eq!(request_url("https://api-v2.soundcloud.com/", Some("/tracks/1")), "https://api-v2.soundcloud.com/tracks/1");
    assert_eq!(request_url("https://api-v2.soundcloud.com//", Some("//resolve")), "https://api-v2.soundcloud.com/resolve");
    assert_eq!(request_url("https://cf-media.sndcdn.com/x?y=1/", None), "https://cf-media.sndcdn.com/x?y=1/");
}

#[test]
fn seam_slashes_do_not_matter() {
    let a = request_url("https://h", Some("p"));
    assert_eq!(request_url("https://h/", Some("p")), a);
    assert_eq!(request_url("https://h", Some("/p")), a);
}

#[test]
fn proxy_refresh() {
    let mut state = ProxyState::new(&Some("http://a:1".to_string()));
    assert!(!state.needs_rebuild(&Some("http://a:1".to_string())));
    let desired = Some("socks5://b:2".to_string());
    assert!(state.needs_rebuild(&desired));
    state.record_rebuild(desired.clone(), false);
    assert_eq!(state.active.as_deref(), Some("http://a:1"));
    assert!(state.needs_rebuild(&desired));
    state.record_rebuild(desired.clone(), true);
    assert_eq!(state.active.as_deref(), Some("socks5://b:2"));
    assert!(!state.needs_rebuild(&desired));
    assert!(state.needs_rebuild(&None));
    let none = ProxyState::new(&None);
    assert!(!none.needs_rebuild(&None));
}

#[test]
fn identifier_text_and_paths() {
    let id = Identifier::Id(123456789);
    assert_eq!(id.to_string(), "123456789");
    let urn = Identifier::Urn("soundcloud:tracks:42".to_string());
    assert_eq!(urn.to_string(), "soundcloud:tracks:42");
    assert_eq!(track_path(&id), "tracks/123456789");
    assert_eq!(track_related_path(&id), "tracks/123456789/related");
    assert_eq!(playlist_path(&urn), "playlists/soundcloud:tracks:42");
    assert_eq!(playlist_reposters_path(&Identifier::Id(-7)), "playlists/-7/reposters");
}

#[test]
fn user_paths() {
    let id = Identifier::Id(42);
    assert_eq!(user_path(&id), "users/42");
    assert_eq!(user_tracks_path(&id), "users/42/tracks");
    assert_eq!(user_playlists_path(&id), "users/42/playlists");
    assert_eq!(user_followers_path(&Identifier::Urn("soundcloud:users:7".to_string())), "users/soundcloud:users:7/followers");
}
