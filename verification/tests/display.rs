use termusic::mpris::{SongMpris, Status};
use termusic::player::{Config, Player, Track};
use termusic::progress::{Model, Progress};
use termusic::source::Source;
use termusic::strutil::{
    duration_formatted_short, truncate_chars, u64_to_padded2, u64_to_string,
};

fn model_with_song(duration: Option<u64>) -> Model {
    let config = Config { volume: 50, speed: 10, gapless: false };
    let mut player = Player::new(&config);
    player.play(
        Track {
            id: 1,
            duration,
            source: Some(Source::new(vec![1, 2, 3], 44100, 2, true).unwrap()),
        },
        None,
    );
    Model {
        player,
        current_song: Some(SongMpris {
            title: Some("Morning".to_string()),
            artist: Some("Someone".to_string()),
            album: None,
        }),
        status: None,
        time_pos: 0,
        config,
        progress: Progress::new(),
    }
}

#[test]
fn u64_to_string_renders_decimal() {
    assert_eq!(u64_to_string(0), "0");
    assert_eq!(u64_to_string(7), "7");
    assert_eq!(u64_to_string(42), "42");
    assert_eq!(u64_to_string(1000), "1000");
    assert_eq!(u64_to_string(u64::MAX), "18446744073709551615");
}

#[test]
fn u64_to_padded2_pads_single_digits() {
    assert_eq!(u64_to_padded2(0), "00");
    assert_eq!(u64_to_padded2(9), "09");
    assert_eq!(u64_to_padded2(10), "10");
    assert_eq!(u64_to_padded2(59), "59");
}

#[test]
fn duration_formats_as_minutes_and_seconds() {
    assert_eq!(duration_formatted_short(0), "0:00");
    assert_eq!(duration_formatted_short(5), "0:05");
    assert_eq!(duration_formatted_short(65), "1:05");
    assert_eq!(duration_formatted_short(600), "10:00");
    assert_eq!(duration_formatted_short(3725), "62:05");
}

#[test]
fn truncate_chars_cuts_long_names() {
    assert_eq!(truncate_chars("short", 20), "short");
    assert_eq!(truncate_chars("abcdefghijklmnopqrstuvwxyz", 20), "abcdefghijklmnopqrst");
    assert_eq!(truncate_chars("", 20), "");
}

#[test]
fn progress_title_names_artist_title_and_volume() {
    let mut m = model_with_song(Some(10));
    m.progress_update_title();
    assert_eq!(m.progress.title, "Playing: Someone - Morning | Volume: 50");
}

#[test]
fn progress_title_truncates_and_substitutes_defaults() {
    let mut m = model_with_song(Some(10));
    m.current_song = Some(SongMpris {
        title: None,
        artist: Some("An Incredibly Long Artist Name".to_string()),
        album: None,
    });
    m.progress_update_title();
    assert_eq!(
        m.progress.title,
        "Playing: An Incredibly Long A - Unknown Title | Volume: 50"
    );
}

#[test]
fn progress_title_stays_without_a_song() {
    let mut m = model_with_song(Some(10));
    m.current_song = None;
    m.progress_update_title();
    assert_eq!(m.progress.title, "Playing");
}

#[test]
fn progress_reload_resets_the_bar_and_recomposes_the_title() {
    let mut m = model_with_song(Some(10));
    m.progress.percent = 55;
    m.progress.text = "1:00    -    2:00".to_string();
    m.progress_reload();
    assert_eq!(m.progress.percent, 0);
    assert_eq!(m.progress.label, "Song Name");
    assert_eq!(m.progress.text, "");
    assert_eq!(m.progress.title, "Playing: Someone - Morning | Volume: 50");
}

#[test]
fn progress_update_shows_position_and_clock_text() {
    let mut m = model_with_song(Some(10));
    m.player.tick(3);
    m.progress_update();
    assert_eq!(m.time_pos, 3);
    assert_eq!(m.progress.percent, 30);
    assert_eq!(m.progress.text, "0:03    -    0:10");
    assert_eq!(m.status, None);
}

#[test]
fn progress_update_ignores_a_zero_duration() {
    let mut m = model_with_song(Some(0));
    m.player.tick(3);
    m.progress_update();
    assert_eq!(m.time_pos, 0);
    assert_eq!(m.progress.percent, 0);
    assert_eq!(m.status, None);
}

#[test]
fn progress_update_stops_the_transport_at_completion() {
    let mut m = model_with_song(Some(10));
    m.player.tick(10);
    m.progress_update();
    assert_eq!(m.status, Some(Status::Stopped));
    assert_eq!(m.time_pos, 0, "only the status moves at completion");
}

#[test]
fn progress_update_uses_fallback_duration_when_unknown() {
    let mut m = model_with_song(None);
    m.player.tick(4);
    m.progress_update();
    assert_eq!(m.time_pos, 4);
    assert_eq!(m.progress.percent, 0);
    assert_eq!(m.progress.text, "0:04    -    1:39");
}
