use termusic::player::{Config, Player, Track, UNKNOWN_DURATION};
use termusic::source::Source;

fn config() -> Config {
    Config { volume: 70, speed: 10, gapless: false }
}

fn track(id: u64, duration: Option<u64>, samples: Vec<i64>) -> Track {
    Track { id, duration, source: Some(Source::new(samples, 44100, 2, true).unwrap()) }
}

fn bad_track(id: u64, duration: Option<u64>) -> Track {
    Track { id, duration, source: None }
}

#[test]
fn new_player_takes_configured_settings() {
    let p = Player::new(&config());
    assert_eq!(p.volume(), 70);
    assert_eq!(p.speed(), 10);
    assert_eq!(p.elapsed(), 0);
    assert_eq!(p.duration(), None);
    assert!(!p.is_paused());
}

#[test]
fn set_volume_then_volume_returns_clamped_value() {
    let mut p = Player::new(&config());
    p.set_volume(55);
    assert_eq!(p.volume(), 55);
    p.set_volume(120);
    assert_eq!(p.volume(), 100);
    p.set_volume(-10);
    assert_eq!(p.volume(), 0);
}

#[test]
fn volume_steps_clamp_at_both_ends() {
    let mut p = Player::new(&config());
    p.set_volume(98);
    p.volume_up();
    assert_eq!(p.volume(), 100);
    p.set_volume(3);
    p.volume_down();
    assert_eq!(p.volume(), 0);
    p.set_volume(50);
    p.volume_up();
    assert_eq!(p.volume(), 55);
    p.volume_down();
    assert_eq!(p.volume(), 50);
}

#[test]
fn set_speed_stores_unclamped_but_steps_stay_bounded() {
    let mut p = Player::new(&config());
    p.set_speed(17);
    assert_eq!(p.speed(), 17);
    p.set_speed(50);
    assert_eq!(p.speed(), 50);
    p.speed_up();
    assert_eq!(p.speed(), 30);
    p.speed_up();
    assert_eq!(p.speed(), 30);
    p.set_speed(2);
    p.speed_down();
    assert_eq!(p.speed(), 1);
    p.speed_down();
    assert_eq!(p.speed(), 1);
}

#[test]
fn play_loads_track_and_records_duration() {
    let mut p = Player::new(&config());
    p.play(track(1, Some(10), vec![1, 2, 3]), None);
    assert_eq!(p.duration(), Some(10));
    assert_eq!(p.elapsed(), 0);
    assert_eq!(p.sink.queue.pull(3), vec![1, 2, 3]);
}

#[test]
fn play_gapless_hop_keeps_queue_draining() {
    // A continuous stream: current and next carry the same identity, and
    // each hop hands the player the freshly decoded continuation as `next`.
    let mut p = Player::new(&config());
    p.play(track(7, None, vec![1, 2]), Some(track(7, None, vec![3, 4])));
    p.tick(4);
    // Current equals the remembered next: no stop, the continuation is
    // appended behind what is still draining.
    p.play(track(7, None, vec![5, 6]), Some(track(7, None, vec![7, 8])));
    assert_eq!(p.elapsed(), 4, "a gapless hop must not restart playback");
    assert_eq!(p.sink.queue.pull(4), vec![1, 2, 7, 8]);
}

#[test]
fn play_different_track_is_a_disruptive_switch() {
    let mut p = Player::new(&config());
    p.play(track(1, Some(10), vec![1, 2]), Some(track(2, Some(8), vec![3, 4])));
    p.tick(4);
    // Track 9 is not the remembered next: the queue is discarded first.
    p.play(track(9, Some(7), vec![5, 6]), None);
    assert_eq!(p.elapsed(), 0);
    assert_eq!(p.duration(), Some(7));
    assert_eq!(p.sink.queue.pull(3), vec![5, 6, 0]);
}

#[test]
fn decode_failure_is_skipped_and_engine_stays_usable() {
    let mut p = Player::new(&config());
    p.play(bad_track(1, Some(10)), None);
    assert_eq!(p.sink.queue.pull(2), vec![0, 0]);
    // A later request for a decodable track still works without a restart.
    p.play(track(2, Some(5), vec![8, 9]), None);
    assert_eq!(p.duration(), Some(5));
    assert_eq!(p.sink.queue.pull(2), vec![8, 9]);
}

#[test]
fn seek_forward_clamps_to_duration_minus_step() {
    let mut p = Player::new(&config());
    p.play(track(1, Some(10), vec![1, 2, 3]), None);
    p.tick(3);
    assert_eq!(p.elapsed(), 3);
    p.seek_fw();
    // Target 8 lies past duration - 5, so the step caps at 5.
    assert_eq!(p.elapsed(), 5);
    p.seek_fw();
    assert_eq!(p.elapsed(), 5, "repeated forward seeks converge at the cap");
}

#[test]
fn seek_forward_steps_when_room_remains() {
    let mut p = Player::new(&config());
    p.play(track(1, Some(60), vec![1]), None);
    p.tick(3);
    p.seek_fw();
    assert_eq!(p.elapsed(), 8);
    p.seek_fw();
    assert_eq!(p.elapsed(), 13);
}

#[test]
fn seek_forward_without_duration_is_a_no_op() {
    let mut p = Player::new(&config());
    p.play(track(1, None, vec![1]), None);
    p.tick(3);
    p.seek_fw();
    assert_eq!(p.elapsed(), 3);
}

#[test]
fn seek_backward_never_goes_below_zero() {
    let mut p = Player::new(&config());
    p.play(track(1, Some(60), vec![1]), None);
    p.tick(3);
    p.seek_bw();
    assert_eq!(p.elapsed(), 0);
    p.seek_bw();
    assert_eq!(p.elapsed(), 0);
    p.tick(12);
    p.seek_bw();
    assert_eq!(p.elapsed(), 7);
}

#[test]
fn seek_dispatches_on_sign() {
    let mut p = Player::new(&config());
    p.play(track(1, Some(60), vec![1]), None);
    p.tick(9);
    assert!(p.seek(1).is_ok());
    assert_eq!(p.elapsed(), 14);
    assert!(p.seek(-1).is_ok());
    assert_eq!(p.elapsed(), 9);
}

#[test]
fn progress_percent_stays_in_range() {
    let mut p = Player::new(&config());
    // Unknown duration: zero percent and the fallback total.
    let (percent, pos, dur) = p.get_progress();
    assert_eq!((percent, pos, dur), (0, 0, UNKNOWN_DURATION));
    // Normal case.
    p.play(track(1, Some(10), vec![1]), None);
    p.tick(3);
    assert_eq!(p.get_progress(), (30, 3, 10));
    // Elapsed past the reported duration: capped at one hundred.
    p.tick(100);
    let (percent2, _, _) = p.get_progress();
    assert_eq!(percent2, 100);
}

#[test]
fn progress_with_zero_duration_is_still_in_range() {
    let mut p = Player::new(&config());
    p.play(track(1, Some(0), vec![1]), None);
    let (percent, _, dur) = p.get_progress();
    assert_eq!(dur, 0);
    assert!(percent <= 100);
}

#[test]
fn pause_freezes_elapsed_and_resume_continues() {
    let mut p = Player::new(&config());
    p.play(track(1, Some(60), vec![1]), None);
    p.tick(3);
    p.pause();
    assert!(p.is_paused());
    p.tick(50);
    assert_eq!(p.elapsed(), 3);
    p.resume();
    assert!(!p.is_paused());
    p.tick(2);
    assert_eq!(p.elapsed(), 5);
}

#[test]
fn stop_discards_queue_and_keeps_settings() {
    let mut p = Player::new(&config());
    p.set_volume(40);
    p.play(track(1, Some(10), vec![1, 2]), None);
    p.tick(3);
    p.stop();
    assert_eq!(p.elapsed(), 0);
    assert_eq!(p.volume(), 40);
    assert_eq!(p.sink.queue.pull(2), vec![0, 0]);
}

#[test]
fn add_and_play_behaves_like_play() {
    let mut p = Player::new(&config());
    p.add_and_play(track(3, Some(9), vec![4, 5]), None);
    assert_eq!(p.duration(), Some(9));
    assert_eq!(p.sink.queue.pull(2), vec![4, 5]);
}

#[test]
fn speed_scales_time_progression() {
    let mut p = Player::new(&config());
    p.play(track(1, Some(60), vec![1]), None);
    p.set_speed(20);
    p.tick(3);
    assert_eq!(p.elapsed(), 6);
    p.set_speed(5);
    p.tick(4);
    assert_eq!(p.elapsed(), 8);
}
