use vid_data_train_crop::geometry::NormPoint;
use vid_data_train_crop::playback::PlayState;
use vid_data_train_crop::session::{Key, Session};

const SECOND: i64 = 1_000_000;

fn video_10s() -> Session {
    let mut s = Session::new();
    s.load_video(Some(30_000), 300, Some(1920), Some(1080), String::new());
    s
}

#[test]
fn new_session_has_one_empty_range() {
    let s = Session::new();
    assert_eq!(s.ranges().len(), 1);
    assert_eq!(s.current_range_index(), 0);
    assert_eq!(s.ranges()[0].start_time, 0);
    assert_eq!(s.ranges()[0].end_time, 0);
    assert_eq!(s.fps_millis(), 30_000);
    assert_eq!(s.frame_size(), (1920, 1080));
    assert_eq!(s.play_state(), PlayState::NotPlaying);
}

#[test]
fn pause_play_toggles() {
    let mut s = video_10s();
    s.pause_play();
    assert_eq!(s.play_state(), PlayState::Playing);
    assert!(s.is_playing());
    s.pause_play();
    assert_eq!(s.play_state(), PlayState::NotPlaying);
    s.play_range();
    assert_eq!(s.play_state(), PlayState::PlayingUntil(10 * SECOND));
    s.pause_play();
    assert_eq!(s.play_state(), PlayState::NotPlaying);
}

#[test]
fn range_times_stay_within_media() {
    let mut s = video_10s();
    s.prev_frame();
    assert!(s.current_time() < 0);
    s.set_start();
    assert_eq!(s.ranges()[0].start_time, 0);
    s.set_time(20 * SECOND);
    assert_eq!(s.current_time(), 10 * SECOND);
    for _ in 0..3 {
        s.next_frame();
    }
    assert!(s.current_time() > 10 * SECOND);
    s.set_start();
    assert_eq!(s.ranges()[0].start_time, 10 * SECOND);
    assert_eq!(s.ranges()[0].end_time, 10 * SECOND);
    s.set_time(4 * SECOND);
    s.set_end();
    assert_eq!(s.ranges()[0].start_time, 4 * SECOND);
    assert_eq!(s.ranges()[0].end_time, 4 * SECOND);
}

#[test]
fn add_range_starts_at_current_time() {
    let mut s = video_10s();
    s.set_time(3 * SECOND);
    s.add_range();
    assert_eq!(s.ranges().len(), 2);
    assert_eq!(s.current_range_index(), 1);
    assert_eq!(s.ranges()[1].start_time, 3 * SECOND);
    assert_eq!(s.ranges()[1].end_time, 10 * SECOND);
    assert!(s.ranges()[1].crop.is_none());
    assert!(s.ranges()[1].note.is_empty());
}

#[test]
fn add_range_on_image_is_at_zero() {
    let mut s = Session::new();
    s.load_image(10, 10, String::new());
    s.add_range();
    assert_eq!(s.ranges()[1].start_time, 0);
    assert_eq!(s.ranges()[1].end_time, 0);
}

#[test]
fn removing_ranges_keeps_list_non_empty() {
    let mut s = video_10s();
    s.add_range();
    s.add_range();
    assert_eq!(s.current_range_index(), 2);
    s.remove_range(2);
    assert_eq!(s.ranges().len(), 2);
    assert_eq!(s.current_range_index(), 1);
    s.remove_range(0);
    assert_eq!(s.current_range_index(), 0);
    s.set_note("x".to_string());
    s.remove_range(0);
    assert_eq!(s.ranges().len(), 1);
    assert_eq!(s.current_range_index(), 0);
    assert_eq!(s.ranges()[0].start_time, 0);
    assert_eq!(s.ranges()[0].end_time, 10 * SECOND);
    assert!(s.ranges()[0].note.is_empty());
    s.remove_range(5);
    assert_eq!(s.ranges().len(), 1);
}

#[test]
fn select_range_ignores_bad_index() {
    let mut s = video_10s();
    s.add_range();
    s.select_range(0);
    assert_eq!(s.current_range_index(), 0);
    s.select_range(7);
    assert_eq!(s.current_range_index(), 0);
}

#[test]
fn loading_resets_to_one_range() {
    let mut s = video_10s();
    s.add_range();
    s.add_range();
    s.set_time(2 * SECOND);
    s.load_video(None, 90, None, None, "n".to_string());
    assert_eq!(s.ranges().len(), 1);
    assert_eq!(s.current_range_index(), 0);
    assert_eq!(s.current_time(), 0);
    assert_eq!(s.fps_millis(), 30_000);
    assert_eq!(s.duration(), 3 * SECOND);
    assert_eq!(s.frame_size(), (1920, 1080));
    assert_eq!(s.ranges()[0].note, "n");
    s.add_range();
    s.load_image(800, 600, String::new());
    assert_eq!(s.ranges().len(), 1);
    assert!(s.is_image());
    assert_eq!(s.fps_millis(), 1_000);
    assert_eq!(s.duration(), 0);
    assert_eq!(s.frame_size(), (800, 600));
}

#[test]
fn zero_fps_falls_back_to_thirty() {
    let mut s = Session::new();
    s.load_video(Some(0), 60, Some(10), Some(10), String::new());
    assert_eq!(s.fps_millis(), 30_000);
    assert_eq!(s.duration(), 2 * SECOND);
    s.load_video(Some(25_000), 100, Some(10), Some(10), String::new());
    assert_eq!(s.duration(), 4 * SECOND);
}

#[test]
fn drag_crop_is_clamped_and_ordered() {
    let mut s = video_10s();
    s.drag_to(Some(NormPoint { x: 5, y: 5 }));
    assert!(s.current_range().crop.is_none());
    s.begin_drag(Some(NormPoint { x: 1_200_000, y: 700_000 }));
    s.drag_to(Some(NormPoint { x: 300_000, y: -50 }));
    let c = s.current_range().crop.unwrap();
    assert_eq!((c.min_x, c.min_y, c.max_x, c.max_y), (300_000, 0, 1_000_000, 700_000));
    s.drag_to(None);
    assert_eq!(s.current_range().crop, Some(c));
    s.clear_crop();
    assert!(s.current_range().crop.is_none());
}

#[test]
fn play_until_stops_after_end() {
    let mut s = video_10s();
    s.set_time(SECOND);
    s.set_start();
    s.set_time(2 * SECOND);
    s.set_end();
    s.play_range();
    assert_eq!(s.current_time(), SECOND);
    assert_eq!(s.play_state(), PlayState::PlayingUntil(2 * SECOND));
    assert!(s.tick(500_000));
    assert_eq!(s.play_state(), PlayState::PlayingUntil(2 * SECOND));
    assert!(s.tick(500_000));
    assert_eq!(s.current_time(), 2 * SECOND);
    assert_eq!(s.play_state(), PlayState::PlayingUntil(2 * SECOND));
    assert!(s.tick(1));
    assert_eq!(s.play_state(), PlayState::NotPlaying);
    assert!(!s.tick(1_000));
    assert_eq!(s.current_time(), 2 * SECOND + 1);
}

#[test]
fn playback_stops_at_end_of_media() {
    let mut s = video_10s();
    s.set_time(9 * SECOND);
    s.pause_play();
    assert!(s.tick(999_999));
    assert!(s.is_playing());
    assert!(s.tick(1));
    assert_eq!(s.current_time(), 10 * SECOND);
    assert!(!s.is_playing());
}

#[test]
fn image_does_not_play() {
    let mut s = Session::new();
    s.load_image(10, 10, String::new());
    s.pause_play();
    assert!(!s.tick(1_000));
    assert_eq!(s.current_time(), 0);
}

#[test]
fn frame_number_follows_time() {
    let mut s = video_10s();
    assert_eq!(s.frame_number(), 0);
    s.next_frame();
    assert_eq!(s.current_time(), 33_334);
    assert_eq!(s.frame_number(), 1);
    s.set_time(SECOND);
    assert_eq!(s.frame_number(), 30);
    s.set_time(0);
    s.prev_frame();
    assert_eq!(s.current_time(), -33_333);
    assert_eq!(s.frame_number(), -1);
}

#[test]
fn frame_text_round_trips() {
    let mut s = video_10s();
    assert!(s.apply_frame_text("45"));
    assert_eq!(s.current_time(), 1_500_000);
    assert_eq!(s.frame_number(), 45);
    assert!(s.apply_frame_text("7"));
    assert_eq!(s.frame_number(), 7);
    assert!(s.apply_frame_text("-3"));
    assert_eq!(s.current_time(), 0);
    assert!(s.apply_frame_text("100000"));
    assert_eq!(s.current_time(), 10 * SECOND);
    assert!(!s.apply_frame_text("12a"));
    assert!(!s.apply_frame_text(" 12"));
    assert_eq!(s.current_time(), 10 * SECOND);
}

#[test]
fn submitted_frame_text_is_trimmed() {
    let mut s = video_10s();
    assert!(s.submit_frame_text("  42 \n"));
    assert_eq!(s.frame_number(), 42);
    assert!(!s.submit_frame_text("  "));
    assert_eq!(s.frame_number(), 42);
}

#[test]
fn ntsc_frames_round_trip() {
    let mut s = Session::new();
    s.load_video(Some(29_970), 100_000, None, None, String::new());
    for n in [0, 1, 2, 29, 30, 1001, 99_999] {
        assert!(s.apply_frame_text(&n.to_string()));
        assert_eq!(s.frame_number(), n as i64);
    }
}

#[test]
fn keys_drive_the_session() {
    let mut s = video_10s();
    assert!(!s.handle_key(Key::Space, false));
    assert!(s.is_playing());
    assert!(!s.handle_key(Key::Space, false));
    assert!(s.handle_key(Key::Right, false));
    assert_eq!(s.frame_number(), 1);
    assert!(s.handle_key(Key::Left, false));
    assert_eq!(s.current_time(), 1);
    assert_eq!(s.frame_number(), 0);
    s.set_time(2 * SECOND);
    s.handle_key(Key::I, false);
    s.set_time(4 * SECOND);
    s.handle_key(Key::O, false);
    assert_eq!(s.ranges()[0].start_time, 2 * SECOND);
    assert_eq!(s.ranges()[0].end_time, 4 * SECOND);
    s.handle_key(Key::R, false);
    assert_eq!(s.current_time(), 2 * SECOND);
    assert_eq!(s.play_state(), PlayState::PlayingUntil(4 * SECOND));
}

#[test]
fn keys_are_inhibited_while_typing_or_on_images() {
    let mut s = video_10s();
    assert!(!s.handle_key(Key::Right, true));
    assert!(!s.handle_key(Key::Space, true));
    assert_eq!(s.current_time(), 0);
    assert!(!s.is_playing());
    s.load_image(10, 10, String::new());
    assert!(!s.handle_key(Key::Space, false));
    assert!(!s.is_playing());
}

#[test]
fn range_label_frames() {
    let mut s = video_10s();
    s.set_time(1_500_000);
    s.set_start();
    s.set_time(2_520_000);
    s.set_end();
    // 1.5 s * 30 = 45, 2.52 s * 30 = 75.6 -> 76, 1.02 s * 16 = 16.32 -> 16
    assert_eq!(s.range_frames(0), (45, 76, 16));
}
