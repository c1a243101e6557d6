use vid_data_train_crop::export::{ExportOutcome, ExportRun, ExportStep};
use vid_data_train_crop::geometry::NormPoint;
use vid_data_train_crop::session::Session;

const SECOND: i64 = 1_000_000;

fn video(frames: u64, w: u32, h: u32, note: &str) -> Session {
    let mut s = Session::new();
    s.load_video(Some(30_000), frames, Some(w), Some(h), note.to_string());
    s
}

fn drag(s: &mut Session, a: (i64, i64), b: (i64, i64)) {
    s.begin_drag(Some(NormPoint { x: a.0, y: a.1 }));
    s.drag_to(Some(NormPoint { x: b.0, y: b.1 }));
}

fn args(step: &ExportStep) -> Vec<&str> {
    step.args.iter().map(|a| a.as_str()).collect()
}

#[test]
fn single_video_no_crop_one_range() {
    let mut s = video(300, 1920, 1080, "");
    assert_eq!(s.duration(), 10 * SECOND);
    s.set_time(5 * SECOND);
    s.set_end();
    let steps = s.export_steps("clip.mp4", "clip", "mp4", "out");
    assert_eq!(steps.len(), 1);
    assert_eq!(steps[0].output, "out/clip.mp4");
    assert_eq!(steps[0].note_file, None);
    assert_eq!(
        args(&steps[0]),
        vec![
            "-y", "-ss", "0", "-to", "5", "-i", "clip.mp4", "-vf", "fps=16", "-c:v", "libx264",
            "-preset", "ultrafast", "out/clip.mp4"
        ]
    );
}

#[test]
fn single_video_crop_and_note() {
    let mut s = video(300, 1920, 1080, "");
    s.set_note("hello".to_string());
    drag(&mut s, (250_000, 100_000), (750_000, 900_000));
    let steps = s.export_steps("clip.mp4", "clip", "mp4", "out");
    assert_eq!(steps.len(), 1);
    assert_eq!(steps[0].note_file.as_deref(), Some("out/clip.txt"));
    assert_eq!(steps[0].note, "hello");
    let a = args(&steps[0]);
    let vf = a.iter().position(|x| *x == "-vf").unwrap();
    assert_eq!(a[vf + 1], "fps=16,crop=960:864:480:108");
}

#[test]
fn two_ranges_odd_width_crop() {
    let mut s = video(300, 1281, 720, "");
    s.set_time(SECOND);
    s.set_end();
    s.set_time(2 * SECOND);
    s.add_range();
    s.set_time(3 * SECOND);
    s.set_end();
    drag(&mut s, (0, 0), (1_000_000, 1_000_000));
    let steps = s.export_steps("clip.mp4", "clip", "mp4", "out");
    assert_eq!(steps.len(), 2);
    assert_eq!(steps[0].output, "out/clip_range0.mp4");
    assert_eq!(steps[1].output, "out/clip_range1.mp4");
    assert_eq!(
        args(&steps[0]),
        vec![
            "-y", "-ss", "0", "-to", "1", "-i", "clip.mp4", "-vf", "fps=16", "-c:v", "libx264",
            "-preset", "ultrafast", "out/clip_range0.mp4"
        ]
    );
    assert_eq!(
        args(&steps[1]),
        vec![
            "-y", "-ss", "2", "-to", "3", "-i", "clip.mp4", "-vf", "fps=16,crop=1280:720:0:0",
            "-c:v", "libx264", "-preset", "ultrafast", "out/clip_range1.mp4"
        ]
    );
}

#[test]
fn still_image_crop() {
    let mut s = Session::new();
    s.load_image(800, 600, String::new());
    drag(&mut s, (0, 0), (500_000, 500_000));
    let steps = s.export_steps("pic.png", "pic", "png", "out");
    assert_eq!(steps.len(), 1);
    assert_eq!(
        args(&steps[0]),
        vec!["-y", "-i", "pic.png", "-vf", "crop=400:300:0:0", "out/pic.png"]
    );
}

#[test]
fn still_image_keeps_extension_in_lower_case() {
    let mut s = Session::new();
    s.load_image(640, 480, String::new());
    let steps = s.export_steps("in/PIC.JPG", "PIC", "JPG", "out/");
    assert_eq!(args(&steps[0]), vec!["-y", "-i", "in/PIC.JPG", "out/PIC.jpg"]);
}

#[test]
fn export_failure_stops_the_run() {
    let mut run = ExportRun::new(3);
    assert_eq!(run.next_job(), Some(0));
    run.record(ExportOutcome::Exited(Some(0)));
    assert_eq!(run.next_job(), Some(1));
    run.record(ExportOutcome::Exited(Some(1)));
    assert_eq!(run.next_job(), None);
    let err = run.error().unwrap();
    assert_eq!(err, "FFmpeg failed on range 1 with exit code: Some(1)");
    assert!(err.contains("range 1"));
}

#[test]
fn export_run_all_succeed() {
    let mut run = ExportRun::new(2);
    run.record(ExportOutcome::Exited(Some(0)));
    run.record(ExportOutcome::Exited(Some(0)));
    assert_eq!(run.next_job(), None);
    assert_eq!(run.error(), None);
}

#[test]
fn export_failure_by_signal_and_spawn() {
    let mut run = ExportRun::new(2);
    run.record(ExportOutcome::Exited(None));
    assert_eq!(
        run.error().unwrap(),
        "FFmpeg failed on range 0 with exit code: None"
    );
    let mut run = ExportRun::new(2);
    run.record(ExportOutcome::Exited(Some(0)));
    run.record(ExportOutcome::Exited(Some(-2)));
    assert_eq!(
        run.error().unwrap(),
        "FFmpeg failed on range 1 with exit code: Some(-2)"
    );
    let mut run = ExportRun::new(1);
    run.record(ExportOutcome::SpawnFailed("not found".to_string()));
    assert_eq!(run.error().unwrap(), "Failed to start FFmpeg: not found");
    assert_eq!(run.next_job(), None);
}

#[test]
fn sidecar_note_round_trip() {
    let s = video(300, 1920, 1080, "abc");
    assert_eq!(s.ranges().len(), 1);
    assert_eq!(s.ranges()[0].note, "abc");
    let steps = s.export_steps("foo.mp4", "foo", "mp4", "out");
    assert_eq!(steps[0].note_file.as_deref(), Some("out/foo.txt"));
    assert_eq!(steps[0].note, "abc");
}

#[test]
fn fractional_times_are_written_in_seconds() {
    let mut s = video(300, 1920, 1080, "");
    s.set_time(2_500_000);
    s.set_start();
    s.set_time(3_000_001);
    s.set_end();
    let steps = s.export_steps("clip.mp4", "clip", "mp4", "");
    let a = args(&steps[0]);
    assert_eq!(&a[1..5], &["-ss", "2.5", "-to", "3.000001"]);
    assert_eq!(*a.last().unwrap(), "clip.mp4");
}
