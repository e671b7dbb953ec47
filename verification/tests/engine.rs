use termusic::conversions::{mono_to_stereo, normalize_i16, normalize_u8, resample, stereo_to_mono};
use termusic::mixer::{mix_all, mix_streams};
use termusic::queue::SourcesQueue;
use termusic::sink::Sink;
use termusic::source::Source;
use termusic::AMP_MAX;

fn src(samples: Vec<i64>) -> Source {
    Source::new(samples, 44100, 2, true).unwrap()
}

#[test]
fn source_new_validates_rate() {
    assert!(Source::new(vec![1, 2], 0, 2, true).is_err());
}

#[test]
fn source_new_validates_channels() {
    assert!(Source::new(vec![1, 2], 44100, 0, true).is_err());
    assert!(Source::new(vec![1, 2], 44100, 3, true).is_err());
    assert!(Source::new(vec![1, 2], 44100, 1, true).is_ok());
    assert!(Source::new(vec![1, 2], 44100, 2, true).is_ok());
}

#[test]
fn source_new_validates_amplitude() {
    assert!(Source::new(vec![AMP_MAX + 1], 44100, 2, true).is_err());
    assert!(Source::new(vec![-AMP_MAX - 1], 44100, 2, true).is_err());
    assert!(Source::new(vec![AMP_MAX, -AMP_MAX], 44100, 2, true).is_ok());
}

#[test]
fn silence_is_zeros() {
    let s = Source::silence(4, 44100, 2).unwrap();
    assert_eq!(s.samples, vec![0, 0, 0, 0]);
}

#[test]
fn empty_source_has_no_samples() {
    assert_eq!(Source::empty().samples.len(), 0);
}

#[test]
fn mono_to_stereo_duplicates() {
    assert_eq!(mono_to_stereo(&vec![1, -2, 3]), vec![1, 1, -2, -2, 3, 3]);
}

#[test]
fn stereo_to_mono_averages() {
    assert_eq!(stereo_to_mono(&vec![2, 4, 10, 20]), vec![3, 15]);
}

#[test]
fn stereo_to_mono_rounds_toward_negative_infinity() {
    // (-1 + -2) = -3, halved with floor rounding gives -2.
    assert_eq!(stereo_to_mono(&vec![-1, -2, 3, 4]), vec![-2, 3]);
}

#[test]
fn normalize_i16_clips_only_the_lowest_value() {
    assert_eq!(normalize_i16(&vec![0, 100, -100, i16::MAX, i16::MIN]), vec![
        0,
        100,
        -100,
        AMP_MAX,
        -AMP_MAX
    ]);
}

#[test]
fn normalize_u8_recentres_and_scales() {
    assert_eq!(normalize_u8(&vec![128, 129, 127, 255, 0]), vec![0, 256, -256, 32512, -AMP_MAX]);
}

#[test]
fn resample_scales_the_frame_count_by_the_rate_ratio() {
    // Doubling the rate repeats each frame; halving drops every other one.
    assert_eq!(resample(&vec![1, 2, 3], 1, 2), vec![1, 1, 2, 2, 3, 3]);
    assert_eq!(resample(&vec![1, 2, 3, 4], 2, 1), vec![1, 3]);
    assert_eq!(resample(&vec![1, 2, 3], 5, 5), vec![1, 2, 3]);
    assert_eq!(resample(&Vec::new(), 2, 3), Vec::<i64>::new());
}

#[test]
fn queue_pull_concatenates_appended_sources() {
    let mut q = SourcesQueue::new();
    q.append(src(vec![1, 2, 3]));
    q.append(src(vec![4, 5]));
    assert_eq!(q.pull(4), vec![1, 2, 3, 4]);
    assert_eq!(q.pull(3), vec![5, 0, 0]);
}

#[test]
fn queue_gapless_boundary_has_no_silent_frame() {
    // Track B appended while track A still drains: A runs out exactly at a
    // pull boundary and B's first real frame follows immediately.
    let mut q = SourcesQueue::new();
    q.append(src(vec![7, 8]));
    assert_eq!(q.pull(2), vec![7, 8]);
    q.append(src(vec![9, 10]));
    assert_eq!(q.pull(2), vec![9, 10]);

    let mut q2 = SourcesQueue::new();
    q2.append(src(vec![7, 8]));
    q2.append(src(vec![9, 10]));
    assert_eq!(q2.pull(4), vec![7, 8, 9, 10]);
}

#[test]
fn queue_clear_then_pull_is_silence() {
    let mut q = SourcesQueue::new();
    q.append(src(vec![1, 2, 3]));
    q.clear();
    assert!(q.is_empty());
    assert_eq!(q.pull(3), vec![0, 0, 0]);
}

#[test]
fn queue_append_after_clear_resumes_real_frames() {
    let mut q = SourcesQueue::new();
    q.append(src(vec![1]));
    q.clear();
    assert_eq!(q.pull(2), vec![0, 0]);
    q.append(src(vec![5]));
    assert_eq!(q.pull(2), vec![5, 0]);
}

#[test]
fn mixing_sums_and_clamps() {
    // clamp(x + y) at the same frame index.
    assert_eq!(mix_streams(&vec![100], &vec![200]), vec![300]);
    assert_eq!(mix_streams(&vec![30000], &vec![30000]), vec![AMP_MAX]);
    assert_eq!(mix_streams(&vec![-30000], &vec![-30000]), vec![-AMP_MAX]);
}

#[test]
fn mixing_exhausted_input_contributes_zero() {
    assert_eq!(mix_streams(&vec![10], &vec![20, 30]), vec![30, 30]);
    assert_eq!(mix_streams(&vec![], &vec![5, 6]), vec![5, 6]);
}

#[test]
fn mix_all_sums_every_stream() {
    let streams = vec![vec![1, 2], vec![10], vec![100, 200, 300]];
    assert_eq!(mix_all(&streams), vec![111, 202, 300]);
    assert_eq!(mix_all(&Vec::new()), Vec::<i64>::new());
}

#[test]
fn sink_pull_applies_volume_gain() {
    let mut sink = Sink::new(false);
    sink.set_volume(50);
    sink.append(src(vec![100, -101, 7]));
    assert_eq!(sink.pull(3), vec![50, -50, 3]);
}

#[test]
fn sink_paused_pull_is_silence_and_keeps_queue() {
    let mut sink = Sink::new(false);
    sink.append(src(vec![1, 2]));
    sink.pause();
    assert_eq!(sink.pull(2), vec![0, 0]);
    assert!(sink.is_paused());
    sink.play();
    assert_eq!(sink.pull(2), vec![1, 2]);
}

#[test]
fn sink_stop_empties_queue_and_restarts_elapsed() {
    let mut sink = Sink::new(false);
    sink.append(src(vec![1, 2]));
    sink.advance(4);
    assert_eq!(sink.elapsed(), 4);
    sink.stop();
    assert_eq!(sink.elapsed(), 0);
    assert_eq!(sink.pull(2), vec![0, 0]);
}

#[test]
fn sink_advance_scales_with_speed_and_freezes_when_paused() {
    let mut sink = Sink::new(false);
    sink.advance(3);
    assert_eq!(sink.elapsed(), 3);
    sink.set_speed(20);
    sink.advance(3);
    assert_eq!(sink.elapsed(), 9);
    sink.pause();
    sink.advance(100);
    assert_eq!(sink.elapsed(), 9);
}

#[test]
fn sink_seek_needs_a_seekable_source() {
    let mut sink = Sink::new(false);
    assert!(sink.seek(5).is_err());
    sink.append(Source::new(vec![1, 2], 44100, 2, false).unwrap());
    assert!(sink.seek(5).is_err());
    assert_eq!(sink.elapsed(), 0);
    sink.stop();
    sink.append(src(vec![1, 2]));
    assert!(sink.seek(5).is_ok());
    assert_eq!(sink.elapsed(), 5);
}
