//! Tests for the search-hit selection logic and the configuration.

use songbeam::config::ProgramConfig;
use songbeam::querying::ResolverError;
use songbeam::querying::SearchHit;
use songbeam::querying::select_song_details;
use songbeam::song::Song;
use songbeam::song::Verse;

fn full_hit() -> SearchHit {
    SearchHit {
        is_song: true,
        url: Some("https://example.org/song".to_string()),
        artist_names: Some("Artist".to_string()),
        title: Some("Title".to_string()),
    }
}

#[test]
fn missing_hit_list_is_not_found() {
    let r = select_song_details(&None);
    match r {
        Err(ResolverError::NotFound) => {}
        other => panic!("expected NotFound, got {:?}", other),
    }
    assert_eq!(ResolverError::NotFound.message(), "Song not found");
}

#[test]
fn empty_hit_list_yields_empty_details() {
    let r = select_song_details(&Some(Vec::new()));
    assert_eq!(r.unwrap(), (String::new(), String::new(), String::new()));
}

#[test]
fn first_song_hit_yields_its_details() {
    let r = select_song_details(&Some(vec![full_hit()]));
    let (url, author, title) = r.unwrap();
    assert_eq!(url, "https://example.org/song");
    assert_eq!(author, "Artist");
    assert_eq!(title, "Title");
}

#[test]
fn only_the_first_hit_is_read() {
    let mut second = full_hit();
    second.url = Some("https://example.org/other".to_string());
    let first = SearchHit { is_song: false, ..full_hit() };
    let r = select_song_details(&Some(vec![first, second]));
    assert_eq!(r.unwrap(), (String::new(), String::new(), String::new()));
}

#[test]
fn non_string_url_is_a_parse_failure() {
    let mut hit = full_hit();
    hit.url = None;
    let r = select_song_details(&Some(vec![hit]));
    match r {
        Err(ResolverError::Parse(m)) => assert_eq!(m, "Failed to parse url to string"),
        other => panic!("expected Parse, got {:?}", other),
    }
}

#[test]
fn non_string_artist_names_is_a_parse_failure() {
    let mut hit = full_hit();
    hit.artist_names = None;
    let r = select_song_details(&Some(vec![hit]));
    match r {
        Err(ResolverError::Parse(m)) => assert_eq!(m, "Failed to parse artist_names to string"),
        other => panic!("expected Parse, got {:?}", other),
    }
}

#[test]
fn non_string_title_is_a_parse_failure() {
    let mut hit = full_hit();
    hit.title = None;
    let r = select_song_details(&Some(vec![hit]));
    match r {
        Err(ResolverError::Parse(m)) => assert_eq!(m, "Failed to parse title to string"),
        other => panic!("expected Parse, got {:?}", other),
    }
}

#[test]
fn transport_failures_surface_their_message() {
    assert_eq!(
        ResolverError::Transport("connection reset".to_string()).message(),
        "connection reset"
    );
}

#[test]
fn missing_token_is_a_configuration_failure() {
    let config = ProgramConfig::default();
    assert!(config.require_genius_token().is_err());
    assert_eq!(config.genius_token_or_empty(), "");
    let err = config.require_genius_token().unwrap_err();
    assert_eq!(err.message(), "No Genius API token");
}

#[test]
fn stored_token_is_returned() {
    let mut config = ProgramConfig::default();
    config.set_genius_token("SECRET-REDACTED".to_string());
    assert_eq!(config.require_genius_token().unwrap(), "SECRET-REDACTED");
    assert_eq!(config.genius_token_or_empty(), "SECRET-REDACTED");
}

#[test]
fn font_size_falls_back_to_default_when_unset() {
    let mut config = ProgramConfig::default();
    config.normalize_font_size();
    assert_eq!(config.font_size, "2.5rem");
    config.set_font_size("3rem".to_string());
    config.normalize_font_size();
    assert_eq!(config.font_size, "3rem");
}

#[test]
fn a_song_without_verses_gains_a_placeholder_verse() {
    let mut song = Song::new("T", "A", Vec::new());
    song.ensure_has_verse();
    assert_eq!(song.num_verses(), 1);
    assert!(song.verses[0].is_empty());
    let mut full = Song::new("T", "A", vec![Verse::new(vec!["x".to_string()])]);
    full.ensure_has_verse();
    assert_eq!(full.verses[0].lines, vec!["x".to_string()]);
}
