use comfyfy::display::{banner_column, fit_to_width, now_playing_line};
use comfyfy::{DisplayCache, SpotifyClientAuth, SpotifyCurrentPlaying, Tui};

fn track(song: &str, artist: &str) -> Option<SpotifyCurrentPlaying> {
    Some(SpotifyCurrentPlaying { artists: artist.to_string(), album: "X".to_string(), song: song.to_string() })
}

fn tui() -> Tui {
    Tui::new(SpotifyClientAuth { access_token: "t".to_string(), refresh_token: "r".to_string(), expires_at: 0 })
}

#[test]
fn track_change_at_same_width_redraws_once() {
    let mut t = tui();
    assert!(t.render_current_playing(&track("Song A", "Artist A"), 80).is_some());
    let mut redraws = 0;
    if t.render_current_playing(&track("Song B", "Artist B"), 80).is_some() {
        redraws += 1;
    }
    if t.render_current_playing(&track("Song B", "Artist B"), 80).is_some() {
        redraws += 1;
    }
    assert_eq!(redraws, 1);
    assert_eq!(t.cache.last_track.as_deref(), Some("Song B - Artist B"));
    assert_eq!(t.cache.last_width, 80);
}

#[test]
fn width_change_with_same_track_redraws() {
    let mut t = tui();
    assert!(t.render_current_playing(&track("Song A", "Artist A"), 80).is_some());
    let b = t.render_current_playing(&track("Song A", "Artist A"), 40).unwrap();
    assert_eq!(b.width, 40);
    assert_eq!(t.cache.last_width, 40);
}

#[test]
fn unchanged_line_and_width_is_suppressed() {
    let mut c = DisplayCache::new();
    assert!(c.observe("Song A - Artist A", 80));
    assert!(!c.observe("Song A - Artist A", 80));
    assert!(c.observe("Song A - Artist A", 81));
    assert!(c.observe("Song C - Artist A", 81));
}

#[test]
fn forgotten_line_redraws() {
    let mut c = DisplayCache::new();
    assert!(c.observe("x", 10));
    c.forget();
    assert_eq!(c.last_track, None);
    assert!(c.observe("x", 10));
}

#[test]
fn line_formats() {
    assert_eq!(now_playing_line(&track("Song A", "Artist A")), "Song A - Artist A");
    assert_eq!(now_playing_line(&None), "No song playing");
}

#[test]
fn line_is_cut_with_ellipsis() {
    assert_eq!(fit_to_width("Song A - Artist A", 80), "Song A - Artist A");
    assert_eq!(fit_to_width("Song A - Artist A", 12), "Song A ...");
    assert_eq!(fit_to_width("abcdefghij", 12), "abcdefghij");
    assert_eq!(fit_to_width("abcdefghijk", 12), "abcdefg...");
    assert_eq!(fit_to_width("abcdef", 4), "..");
    assert_eq!(fit_to_width("abcdef", 1), "");
}

#[test]
fn banner_is_centred() {
    assert_eq!(banner_column(80, 17), 1 + (78 - 17) / 2);
    assert_eq!(banner_column(20, 18), 1);
    assert_eq!(banner_column(0, 3), 1);
}

#[test]
fn banner_holds_fitted_centred_text() {
    let mut t = tui();
    let b = t.render_current_playing(&track("Song A", "Artist A"), 12).unwrap();
    assert_eq!(b.text, "Song A ...");
    assert_eq!(b.column, 1);
    let b = t.render_current_playing(&None, 40).unwrap();
    assert_eq!(b.text, "No song playing");
    assert_eq!(b.column, 1 + (38 - 15) / 2);
}
