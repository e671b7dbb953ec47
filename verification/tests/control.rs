use termusic::mpris::{
    mpris_handler, parse_u64, position_reply_value, shuffle_reply_enabled, CommandChannelError,
    DbusMpris, HandlerAction, MetaInfo, PlayerCommand, SongMpris, Status,
};
use termusic::player::{Config, Player, Track};
use termusic::progress::{Model, Progress};
use termusic::source::Source;

fn model() -> Model {
    let config = Config { volume: 70, speed: 10, gapless: false };
    Model {
        player: Player::new(&config),
        current_song: None,
        status: None,
        time_pos: 0,
        config,
        progress: Progress::new(),
    }
}

fn model_with_song() -> Model {
    let mut m = model();
    m.current_song = Some(SongMpris {
        title: Some("A Song".to_string()),
        artist: Some("An Artist".to_string()),
        album: None,
    });
    m.player.play(
        Track {
            id: 1,
            duration: Some(60),
            source: Some(Source::new(vec![1, 2, 3], 44100, 2, true).unwrap()),
        },
        None,
    );
    m
}

#[test]
fn inbox_polls_in_arrival_order() {
    let mut bus = DbusMpris::new();
    bus.deliver(PlayerCommand::Play);
    bus.deliver(PlayerCommand::Pause);
    assert_eq!(bus.next(), Ok(PlayerCommand::Play));
    assert_eq!(bus.next(), Ok(PlayerCommand::Pause));
    assert_eq!(bus.next(), Err(CommandChannelError::Empty));
}

#[test]
fn inbox_reports_disconnect_once_drained() {
    let mut bus = DbusMpris::init();
    bus.deliver(PlayerCommand::Stop);
    bus.disconnect();
    assert_eq!(bus.next(), Ok(PlayerCommand::Stop));
    assert_eq!(bus.next(), Err(CommandChannelError::Disconnected));
}

#[test]
fn next_and_previous_stop_the_transport() {
    let mut m = model_with_song();
    let r = mpris_handler(PlayerCommand::Next, &mut m);
    assert!(matches!(r, HandlerAction::Handled));
    assert_eq!(m.status, Some(Status::Stopped));
    m.status = None;
    mpris_handler(PlayerCommand::Previous, &mut m);
    assert_eq!(m.status, Some(Status::Stopped));
}

#[test]
fn pause_play_and_playpause_toggle() {
    let mut m = model_with_song();
    mpris_handler(PlayerCommand::Pause, &mut m);
    assert!(m.player.is_paused());
    mpris_handler(PlayerCommand::Play, &mut m);
    assert!(!m.player.is_paused());
    mpris_handler(PlayerCommand::PlayPause, &mut m);
    assert!(m.player.is_paused());
    assert_eq!(m.status, Some(Status::Paused));
    mpris_handler(PlayerCommand::PlayPause, &mut m);
    assert!(!m.player.is_paused());
    assert_eq!(m.status, Some(Status::Running));
}

#[test]
fn seek_command_steps_the_position() {
    let mut m = model_with_song();
    m.player.tick(9);
    mpris_handler(PlayerCommand::Seek(1), &mut m);
    assert_eq!(m.player.elapsed(), 14);
    mpris_handler(PlayerCommand::Seek(-1), &mut m);
    assert_eq!(m.player.elapsed(), 9);
}

#[test]
fn load_command_asks_the_embedding_to_open_the_resource() {
    let mut m = model();
    let r = mpris_handler(PlayerCommand::Load("http://radio".to_string()), &mut m);
    match r {
        HandlerAction::LoadRequest(uri) => assert_eq!(uri, "http://radio"),
        _ => panic!("expected a load request"),
    }
}

#[test]
fn position_command_is_accepted_and_ignored() {
    let mut m = model_with_song();
    let r = mpris_handler(PlayerCommand::Position(1, 5000), &mut m);
    assert!(matches!(r, HandlerAction::Handled));
    assert_eq!(m.player.elapsed(), 0);
}

fn reply_text(m: &mut Model, info: MetaInfo) -> String {
    match mpris_handler(PlayerCommand::Metadata(info), m) {
        HandlerAction::ReplyText(t) => t,
        _ => panic!("expected a textual reply"),
    }
}

#[test]
fn metadata_replies_are_the_documented_texts() {
    let mut m = model_with_song();
    assert_eq!(reply_text(&mut m, MetaInfo::LoopStatus), "None");
    assert_eq!(reply_text(&mut m, MetaInfo::Shuffle), "false");
    assert_eq!(reply_text(&mut m, MetaInfo::Volume), "75");
}

#[test]
fn metadata_status_follows_song_and_pause_flag() {
    let mut m = model();
    assert_eq!(reply_text(&mut m, MetaInfo::Status), "Stopped");
    let mut m2 = model_with_song();
    assert_eq!(reply_text(&mut m2, MetaInfo::Status), "Playing");
    m2.player.pause();
    assert_eq!(reply_text(&mut m2, MetaInfo::Status), "Paused");
}

#[test]
fn metadata_position_reports_elapsed_in_decimal() {
    let mut m = model_with_song();
    m.player.tick(42);
    assert_eq!(reply_text(&mut m, MetaInfo::Position), "42");
}

#[test]
fn metadata_info_fills_defaults() {
    let mut m = model();
    match mpris_handler(PlayerCommand::Metadata(MetaInfo::Info), &mut m) {
        HandlerAction::ReplySong(s) => {
            assert_eq!(s.title.as_deref(), Some("No current song"));
            assert_eq!(s.artist.as_deref(), Some(""));
            assert_eq!(s.album.as_deref(), Some(""));
        },
        _ => panic!("expected a song reply"),
    }
    let mut m2 = model_with_song();
    match mpris_handler(PlayerCommand::Metadata(MetaInfo::Info), &mut m2) {
        HandlerAction::ReplySong(s) => {
            assert_eq!(s.title.as_deref(), Some("A Song"));
            assert_eq!(s.artist.as_deref(), Some("An Artist"));
            assert_eq!(s.album.as_deref(), Some(""));
        },
        _ => panic!("expected a song reply"),
    }
}

#[test]
fn parse_u64_accepts_exactly_fitting_digit_runs() {
    assert_eq!(parse_u64("0"), Some(0));
    assert_eq!(parse_u64("42"), Some(42));
    assert_eq!(parse_u64("007"), Some(7));
    assert_eq!(parse_u64("18446744073709551615"), Some(u64::MAX));
    assert_eq!(parse_u64("18446744073709551616"), None);
    assert_eq!(parse_u64(""), None);
    assert_eq!(parse_u64("12a"), None);
    assert_eq!(parse_u64("-5"), None);
    assert_eq!(parse_u64(" 5"), None);
}

#[test]
fn position_reply_scales_to_the_wire_unit() {
    assert_eq!(position_reply_value("5"), 5000);
    assert_eq!(position_reply_value("0"), 0);
    assert_eq!(position_reply_value("nonsense"), 0);
    assert_eq!(position_reply_value("9223372036854775807"), i64::MAX);
}

#[test]
fn shuffle_reply_reads_only_the_exact_word() {
    assert!(shuffle_reply_enabled("true"));
    assert!(!shuffle_reply_enabled("false"));
    assert!(!shuffle_reply_enabled("tru"));
    assert!(!shuffle_reply_enabled("truee"));
    assert!(!shuffle_reply_enabled("True"));
    assert!(!shuffle_reply_enabled(""));
}
