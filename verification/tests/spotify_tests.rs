use happye_bot::spotify::client::{queue_url, search_url, spotify_redirect_uri, SpotifyClient};
use happye_bot::spotify::models::{
    SpotifyArtist, SpotifyToken, SpotifyTrack, SpotifyTrackResults,
};

fn sample_track() -> SpotifyTrack {
    SpotifyTrack {
        id: "track1".to_string(),
        name: "Song A".to_string(),
        duration_ms: 123456,
        artists: vec![
            SpotifyArtist { id: "a1".to_string(), name: "Artist B".to_string() },
            SpotifyArtist { id: "a2".to_string(), name: "Artist C".to_string() },
        ],
    }
}

fn sample_spotify_token() -> SpotifyToken {
    SpotifyToken {
        access_token: "SECRET-REDACTED".to_string(),
        token_type: "Bearer".to_string(),
        expires_in: 3600,
        scope: None,
        refresh_token: Some("SECRET-REDACTED".to_string()),
        created_at: Some(1000),
    }
}

#[test]
fn display_name_joins_name_and_first_artist() {
    assert_eq!(sample_track().display_name(), "Song A - Artist B");
}

#[test]
fn first_item_takes_the_head_of_the_page() {
    let empty = SpotifyTrackResults::default();
    assert!(empty.first_item().is_none());
    assert_eq!(empty.total, 0);

    let page = SpotifyTrackResults { total: 2, items: vec![sample_track(), sample_track()] };
    let first = page.first_item().expect("non-empty page has a first item");
    assert_eq!(first.id, "track1");
    assert_eq!(first.display_name(), "Song A - Artist B");
}

#[test]
fn refresh_is_lazy_and_exact_at_the_boundary() {
    let client = SpotifyClient::from_persisted(
        "id".to_string(),
        "sec".to_string(),
        sample_spotify_token(),
    );
    // created_at 1000 + expires_in 3600 = 4600.
    assert!(!client.needs_refresh(4599));
    assert!(client.needs_refresh(4600));
    assert!(client.needs_refresh(4601));
}

#[test]
fn unstamped_token_always_needs_refresh() {
    let mut t = sample_spotify_token();
    t.created_at = None;
    let client = SpotifyClient::from_persisted("id".to_string(), "sec".to_string(), t);
    assert!(client.needs_refresh(i64::MIN));
}

#[test]
fn exchange_restamps_creation_time() {
    let client = SpotifyClient::from_exchange(
        "id".to_string(),
        "sec".to_string(),
        sample_spotify_token(),
        777,
    );
    assert_eq!(client.token.as_ref().unwrap().created_at, Some(777));
}

#[test]
fn failed_refresh_keeps_the_stale_token() {
    let mut client = SpotifyClient::from_persisted(
        "id".to_string(),
        "sec".to_string(),
        sample_spotify_token(),
    );
    client.absorb_refresh_result(None, 9999);
    assert_eq!(client.token.as_ref().unwrap().created_at, Some(1000));

    let mut fresh = sample_spotify_token();
    fresh.access_token = "SECRET-REDACTED".to_string();
    client.absorb_refresh_result(Some(fresh), 9999);
    assert_eq!(client.token.as_ref().unwrap().created_at, Some(9999));
}

#[test]
fn request_urls_are_exact() {
    assert_eq!(
        search_url("nome da musica"),
        "https://api.spotify.com/v1/search?q=nome da musica&type=track"
    );
    assert_eq!(
        queue_url(&sample_track()),
        "https://api.spotify.com/v1/me/player/queue?uri=spotify:track:track1"
    );
    assert_eq!(spotify_redirect_uri(42069), "http://localhost:42069/spotify-auth");

    let client = SpotifyClient::from_persisted(
        "id".to_string(),
        "sec".to_string(),
        sample_spotify_token(),
    );
    assert_eq!(
        client.refresh_url(),
        format!(
            "https://accounts.spotify.com/api/token?grant_type=refresh_token&client_id=id&refresh_token={}",
            sample_spotify_token().refresh_token.unwrap()
        )
    );
}
