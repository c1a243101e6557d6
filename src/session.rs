use crate::geometry::{clamp, crop_from_drag, drag_crop_spec, NormPoint, NormRect};
use crate::playback::{
    clamp_time, duration_of, floor_div, frame_at, frame_period, frame_period_down,
    frame_period_exec, frame_start, lemma_frame_at_bounds, lemma_frame_start_bounds, play_after_tick,
    round_ratio, saturate, saturate_i128, toggled, PlayState, DEFAULT_FPS, FPS_LIMIT, FRAME_SCALE,
    IMAGE_FPS, MAX_DURATION,
};
use crate::text::{parse_i32, parsed_i32};
use vstd::prelude::*;

verus! {

/// Frame size assumed when the decoder reports none.
pub const DEFAULT_FRAME_WIDTH: u32 = 1920;

pub const DEFAULT_FRAME_HEIGHT: u32 = 1080;

/// A keyboard shortcut of the display.
#[derive(Clone, Copy, PartialEq, Eq, Structural, Debug)]
pub enum Key {
    /// Toggle playback.
    Space,
    /// Mark the current range's start.
    I,
    /// Mark the current range's end.
    O,
    /// Play the current range.
    R,
    /// Step one frame back.
    Left,
    /// Step one frame forward.
    Right,
}

/// One annotation: a time interval of the media, in microseconds, an optional
/// crop and a free-text note.
pub struct Range {
    pub start_time: i64,
    pub end_time: i64,
    pub crop: Option<NormRect>,
    pub note: String,
}

impl Range {
    /// `0 <= start_time <= end_time <= duration`, and the crop is well formed.
    pub open spec fn wf(&self, duration: int) -> bool {
        &&& 0 <= self.start_time <= self.end_time <= duration
        &&& (self.crop matches Some(c) ==> c.wf())
    }

    /// The range that covers the whole media, with no crop and an empty note.
    pub open spec fn is_whole(&self, duration: int) -> bool {
        &&& self.start_time == 0
        &&& self.end_time == duration
        &&& self.crop is None
        &&& self.note@ == Seq::<char>::empty()
    }
}

/// What a session holds, as mathematical values.
pub struct SessionView {
    pub is_image: bool,
    /// Current time, in microseconds; stepping may leave it outside the media.
    pub time: int,
    /// Duration of the media, in microseconds.
    pub duration: int,
    /// Native frame rate, in frames per thousand seconds.
    pub fps: int,
    pub play: PlayState,
    pub ranges: Seq<Range>,
    /// Index of the current range.
    pub current: int,
    /// Where the pointer went down for the current drag.
    pub anchor: Option<NormPoint>,
    /// Intrinsic frame size that export crops are computed against.
    pub frame_width: int,
    pub frame_height: int,
}

impl SessionView {
    pub open spec fn wf(&self) -> bool {
        &&& 1 <= self.fps <= FPS_LIMIT
        &&& 0 <= self.duration <= MAX_DURATION
        &&& i64::MIN <= self.time <= i64::MAX
        &&& (self.is_image ==> self.duration == 0 && self.fps == IMAGE_FPS)
        &&& self.ranges.len() >= 1
        &&& 0 <= self.current < self.ranges.len()
        &&& forall|i: int| 0 <= i < self.ranges.len() ==> (#[trigger] self.ranges[i]).wf(self.duration)
    }

    pub open spec fn is_playing(&self) -> bool {
        !(self.play is NotPlaying)
    }

    pub open spec fn current_range(&self) -> Range {
        self.ranges[self.current]
    }
}

/// The frame numbers shown beside a range: its first and last frame at the
/// native rate, and its length in frames at the export rate of 16 per second,
/// each rounded half up.
pub open spec fn range_frames_spec(r: Range, fps: int) -> (int, int, int) {
    (
        round_ratio(r.start_time * fps, FRAME_SCALE as int),
        round_ratio(r.end_time * fps, FRAME_SCALE as int),
        round_ratio((r.end_time - r.start_time) * 16, 1_000_000),
    )
}


/// The session after marking the current range's start at the current time
/// (clamped into the media); the end moves up to the start when it lay before.
pub open spec fn set_start_spec(v: SessionView) -> SessionView {
    let r = v.current_range();
    let s = clamp(v.time, 0, v.duration);
    SessionView {
        ranges: v.ranges.update(
            v.current,
            Range {
                start_time: s as i64,
                end_time: if r.end_time < s {
                    s as i64
                } else {
                    r.end_time
                },
                ..r
            },
        ),
        ..v
    }
}

/// The session after marking the current range's end at the current time
/// (clamped into the media); the start moves down to the end when it lay after.
pub open spec fn set_end_spec(v: SessionView) -> SessionView {
    let r = v.current_range();
    let e = clamp(v.time, 0, v.duration);
    SessionView {
        ranges: v.ranges.update(
            v.current,
            Range {
                end_time: e as i64,
                start_time: if r.start_time > e {
                    e as i64
                } else {
                    r.start_time
                },
                ..r
            },
        ),
        ..v
    }
}

/// The session after asking to play the current range: back to its start,
/// playing until its end.
pub open spec fn play_range_spec(v: SessionView) -> SessionView {
    SessionView {
        time: v.current_range().start_time as int,
        play: PlayState::PlayingUntil(v.current_range().end_time),
        ..v
    }
}

/// The session after the current range's crop was set to `c`.
pub open spec fn set_crop_spec(v: SessionView, c: Option<NormRect>) -> SessionView {
    SessionView {
        ranges: v.ranges.update(v.current, Range { crop: c, ..v.current_range() }),
        ..v
    }
}

/// The session after a key press on the display; `typing` says that a text
/// field holds the keyboard. Shortcuts act only on a video and only when
/// nobody is typing.
pub open spec fn key_spec(v: SessionView, key: Key, typing: bool) -> SessionView {
    if typing || v.is_image {
        v
    } else {
        match key {
            Key::Space => SessionView { play: toggled(v.play), ..v },
            Key::I => set_start_spec(v),
            Key::O => set_end_spec(v),
            Key::R => play_range_spec(v),
            Key::Left => SessionView { time: saturate(v.time - frame_period_down(v.fps)), ..v },
            Key::Right => SessionView { time: saturate(v.time + frame_period(v.fps)), ..v },
        }
    }
}

/// Whether a key press changes the frame to show: a frame step on a video
/// while nobody is typing.
pub open spec fn key_refreshes(v: SessionView, key: Key, typing: bool) -> bool {
    !typing && !v.is_image && (key == Key::Left || key == Key::Right)
}

/// The frame rate used for a video whose decoder reported `fps`: 30 frames
/// per second when it reported none or zero, at most `FPS_LIMIT`.
pub open spec fn video_fps(fps: Option<u64>) -> int {
    match fps {
        Some(f) => if f == 0 {
            DEFAULT_FPS as int
        } else if f > FPS_LIMIT {
            FPS_LIMIT as int
        } else {
            f as int
        },
        None => DEFAULT_FPS as int,
    }
}

/// The annotation and playback state of the file being worked on.
pub struct Session {
    is_image: bool,
    time: i64,
    duration: i64,
    fps: u64,
    play: PlayState,
    ranges: Vec<Range>,
    current: usize,
    anchor: Option<NormPoint>,
    frame_width: u32,
    frame_height: u32,
}

impl View for Session {
    type V = SessionView;

    closed spec fn view(&self) -> SessionView {
        SessionView {
            is_image: self.is_image,
            time: self.time as int,
            duration: self.duration as int,
            fps: self.fps as int,
            play: self.play,
            ranges: self.ranges@,
            current: self.current as int,
            anchor: self.anchor,
            frame_width: self.frame_width as int,
            frame_height: self.frame_height as int,
        }
    }
}

fn whole_range(duration: i64) -> (r: Range)
    ensures
        r.is_whole(duration as int),
{
    Range { start_time: 0, end_time: duration, crop: None, note: String::new() }
}

impl Session {
    pub open spec fn inv(&self) -> bool {
        self@.wf()
    }

    /// A session with no media: one empty range, 30 frames per second.
    pub fn new() -> (s: Session)
        ensures
            s.inv(),
            !s@.is_image,
            s@.time == 0,
            s@.duration == 0,
            s@.fps == DEFAULT_FPS,
            s@.play == PlayState::NotPlaying,
            s@.ranges.len() == 1,
            s@.ranges[0].is_whole(0),
            s@.current == 0,
            s@.anchor is None,
            s@.frame_width == DEFAULT_FRAME_WIDTH,
            s@.frame_height == DEFAULT_FRAME_HEIGHT,
    {
        let mut ranges: Vec<Range> = Vec::new();
        ranges.push(whole_range(0));
        Session {
            is_image: false,
            time: 0,
            duration: 0,
            fps: DEFAULT_FPS,
            play: PlayState::NotPlaying,
            ranges,
            current: 0,
            anchor: None,
            frame_width: DEFAULT_FRAME_WIDTH,
            frame_height: DEFAULT_FRAME_HEIGHT,
        }
    }

    pub fn is_image(&self) -> (r: bool)
        ensures
            r == self@.is_image,
    {
        self.is_image
    }

    /// Current time, in microseconds.
    pub fn current_time(&self) -> (r: i64)
        ensures
            r == self@.time,
    {
        self.time
    }

    /// Duration of the media, in microseconds.
    pub fn duration(&self) -> (r: i64)
        ensures
            r == self@.duration,
    {
        self.duration
    }

    /// Native frame rate, in frames per thousand seconds.
    pub fn fps_millis(&self) -> (r: u64)
        ensures
            r == self@.fps,
    {
        self.fps
    }

    pub fn play_state(&self) -> (r: PlayState)
        ensures
            r == self@.play,
    {
        self.play
    }

    pub fn ranges(&self) -> (r: &Vec<Range>)
        ensures
            r@ == self@.ranges,
    {
        &self.ranges
    }

    pub fn current_range_index(&self) -> (r: usize)
        ensures
            r == self@.current,
    {
        self.current
    }

    pub fn current_range(&self) -> (r: &Range)
        requires
            self.inv(),
        ensures
            *r == self@.current_range(),
    {
        &self.ranges[self.current]
    }

    /// The intrinsic frame size, width then height, that export crops use.
    pub fn frame_size(&self) -> (r: (u32, u32))
        ensures
            r.0 == self@.frame_width,
            r.1 == self@.frame_height,
    {
        (self.frame_width, self.frame_height)
    }

    pub fn drag_anchor(&self) -> (r: Option<NormPoint>)
        ensures
            r == self@.anchor,
    {
        self.anchor
    }

    pub fn is_playing(&self) -> (r: bool)
        ensures
            r == self@.is_playing(),
    {
        match self.play {
            PlayState::NotPlaying => false,
            _ => true,
        }
    }

    /// Toggles playback: from not playing to playing, from either playing
    /// state to not playing.
    pub fn pause_play(&mut self)
        requires
            old(self).inv(),
        ensures
            final(self)@ == (SessionView { play: toggled(old(self)@.play), ..old(self)@ }),
            final(self).inv(),
    {
        self.play = match self.play {
            PlayState::NotPlaying => PlayState::Playing,
            PlayState::Playing => PlayState::NotPlaying,
            PlayState::PlayingUntil(_) => PlayState::NotPlaying,
        };
    }

    /// Marks the current range's start at the current time.
    pub fn set_start(&mut self)
        requires
            old(self).inv(),
        ensures
            final(self)@ == set_start_spec(old(self)@),
            final(self).inv(),
    {
        let s = clamp_time(self.time, self.duration);
        let cur = self.current;
        let end = self.ranges[cur].end_time;
        self.ranges[cur].start_time = s;
        if end < s {
            self.ranges[cur].end_time = s;
        }
        proof {
            assert(self@.ranges =~= set_start_spec(old(self)@).ranges);
            assert(self@ =~= set_start_spec(old(self)@));
            assert forall|i: int| 0 <= i < self@.ranges.len() implies (
            #[trigger] self@.ranges[i]).wf(self@.duration) by {
                assert(old(self)@.ranges[i].wf(self@.duration));
            }
        }
    }

    /// Marks the current range's end at the current time.
    pub fn set_end(&mut self)
        requires
            old(self).inv(),
        ensures
            final(self)@ == set_end_spec(old(self)@),
            final(self).inv(),
    {
        let e = clamp_time(self.time, self.duration);
        let cur = self.current;
        let start = self.ranges[cur].start_time;
        self.ranges[cur].end_time = e;
        if start > e {
            self.ranges[cur].start_time = e;
        }
        proof {
            assert(self@.ranges =~= set_end_spec(old(self)@).ranges);
            assert(self@ =~= set_end_spec(old(self)@));
            assert forall|i: int| 0 <= i < self@.ranges.len() implies (
            #[trigger] self@.ranges[i]).wf(self@.duration) by {
                assert(old(self)@.ranges[i].wf(self@.duration));
            }
        }
    }

    /// Plays the current range: back to its start, playing until its end.
    pub fn play_range(&mut self)
        requires
            old(self).inv(),
        ensures
            final(self)@ == play_range_spec(old(self)@),
            final(self).inv(),
    {
        let cur = self.current;
        self.time = self.ranges[cur].start_time;
        self.play = PlayState::PlayingUntil(self.ranges[cur].end_time);
    }

    fn set_crop(&mut self, c: Option<NormRect>)
        requires
            old(self).inv(),
            c matches Some(r) ==> r.wf(),
        ensures
            final(self)@ == set_crop_spec(old(self)@, c),
            final(self).inv(),
    {
        let cur = self.current;
        self.ranges[cur].crop = c;
        proof {
            assert(self@.ranges =~= set_crop_spec(old(self)@, c).ranges);
            assert(self@ =~= set_crop_spec(old(self)@, c));
            assert forall|i: int| 0 <= i < self@.ranges.len() implies (
            #[trigger] self@.ranges[i]).wf(self@.duration) by {
                assert(old(self)@.ranges[i].wf(self@.duration));
            }
        }
    }

    /// Removes the current range's crop.
    pub fn clear_crop(&mut self)
        requires
            old(self).inv(),
        ensures
            final(self)@ == set_crop_spec(old(self)@, None),
            final(self).inv(),
    {
        self.set_crop(None);
    }

    /// Records where the pointer went down at the start of a drag over the
    /// display, in normalized media coordinates (none when the pointer
    /// position is unknown).
    pub fn begin_drag(&mut self, at: Option<NormPoint>)
        requires
            old(self).inv(),
        ensures
            final(self)@ == (SessionView { anchor: at, ..old(self)@ }),
            final(self).inv(),
    {
        self.anchor = at;
    }

    /// Follows a drag to `at`: when both the anchor and `at` are known, the
    /// current range's crop becomes the rectangle they span, clamped into the
    /// frame; otherwise nothing changes.
    pub fn drag_to(&mut self, at: Option<NormPoint>)
        requires
            old(self).inv(),
        ensures
            final(self)@ == (match (old(self)@.anchor, at) {
                (Some(a), Some(b)) => set_crop_spec(old(self)@, Some(drag_crop_spec(a, b))),
                _ => old(self)@,
            }),
            final(self).inv(),
    {
        if let Some(a) = self.anchor {
            if let Some(b) = at {
                let c = crop_from_drag(a, b);
                self.set_crop(Some(c));
            }
        }
    }

    /// Replaces the current range's note.
    pub fn set_note(&mut self, note: String)
        requires
            old(self).inv(),
        ensures
            final(self)@ == (SessionView {
                ranges: old(self)@.ranges.update(
                    old(self)@.current,
                    Range { note: note, ..old(self)@.current_range() },
                ),
                ..old(self)@
            }),
            final(self).inv(),
    {
        let cur = self.current;
        self.ranges[cur].note = note;
        proof {
            assert(self@.ranges =~= old(self)@.ranges.update(
                old(self)@.current,
                Range { note: note, ..old(self)@.current_range() },
            ));
            assert forall|i: int| 0 <= i < self@.ranges.len() implies (
            #[trigger] self@.ranges[i]).wf(self@.duration) by {
                assert(old(self)@.ranges[i].wf(self@.duration));
            }
        }
    }

    /// Makes range `i` the current one; an index past the list changes nothing.
    pub fn select_range(&mut self, i: usize)
        requires
            old(self).inv(),
        ensures
            i < old(self)@.ranges.len() ==> final(self)@ == (SessionView {
                current: i as int,
                ..old(self)@
            }),
            i >= old(self)@.ranges.len() ==> final(self)@ == old(self)@,
            final(self).inv(),
    {
        if i < self.ranges.len() {
            self.current = i;
        }
    }

    /// Appends a range from the current time (clamped into the media) to the
    /// end of the media, with no crop and an empty note, and makes it current.
    pub fn add_range(&mut self)
        requires
            old(self).inv(),
        ensures
            final(self)@.ranges.len() == old(self)@.ranges.len() + 1,
            final(self)@.ranges.drop_last() == old(self)@.ranges,
            final(self)@.ranges.last().start_time == clamp(old(self)@.time, 0, old(self)@.duration),
            final(self)@.ranges.last().end_time == old(self)@.duration,
            final(self)@.ranges.last().crop is None,
            final(self)@.ranges.last().note@ == Seq::<char>::empty(),
            final(self)@ == (SessionView {
                ranges: final(self)@.ranges,
                current: old(self)@.ranges.len() as int,
                ..old(self)@
            }),
            final(self).inv(),
    {
        let start = clamp_time(self.time, self.duration);
        self.ranges.push(Range { start_time: start, end_time: self.duration, crop: None, note: String::new() });
        self.current = self.ranges.len() - 1;
        proof {
            assert(self@.ranges.drop_last() =~= old(self)@.ranges);
            assert forall|i: int| 0 <= i < self@.ranges.len() implies (
            #[trigger] self@.ranges[i]).wf(self@.duration) by {
                if i < old(self)@.ranges.len() {
                    assert(old(self)@.ranges[i].wf(self@.duration));
                }
            }
        }
    }

    /// Deletes range `i`. A list left empty gets one range over the whole
    /// media; the current index is clamped into the list. An index past the
    /// list changes nothing.
    pub fn remove_range(&mut self, i: usize)
        requires
            old(self).inv(),
        ensures
            i >= old(self)@.ranges.len() ==> final(self)@ == old(self)@,
            i < old(self)@.ranges.len() && old(self)@.ranges.len() > 1 ==> final(self)@.ranges
                == old(self)@.ranges.remove(i as int),
            i < old(self)@.ranges.len() && old(self)@.ranges.len() == 1 ==> final(self)@.ranges.len()
                == 1 && final(self)@.ranges[0].is_whole(old(self)@.duration),
            i < old(self)@.ranges.len() ==> final(self)@ == (SessionView {
                ranges: final(self)@.ranges,
                current: clamp(old(self)@.current, 0, final(self)@.ranges.len() - 1),
                ..old(self)@
            }),
            final(self).inv(),
    {
        if i >= self.ranges.len() {
            return;
        }
        let _ = self.ranges.remove(i);
        if self.ranges.len() == 0 {
            self.ranges.push(whole_range(self.duration));
        }
        if self.current > self.ranges.len() - 1 {
            self.current = self.ranges.len() - 1;
        }
        proof {
            assert forall|j: int| 0 <= j < self@.ranges.len() implies (
            #[trigger] self@.ranges[j]).wf(self@.duration) by {
                if old(self)@.ranges.len() > 1 {
                    if j < i {
                        assert(self@.ranges[j] == old(self)@.ranges[j]);
                        assert(old(self)@.ranges[j].wf(self@.duration));
                    } else {
                        assert(self@.ranges[j] == old(self)@.ranges[j + 1]);
                        assert(old(self)@.ranges[j + 1].wf(self@.duration));
                    }
                }
            }
        }
    }

    /// Reacts to a key press on the display; `typing` says that a text field
    /// holds the keyboard. Returns whether the frame is to be refreshed.
    pub fn handle_key(&mut self, key: Key, typing: bool) -> (refresh: bool)
        requires
            old(self).inv(),
        ensures
            final(self)@ == key_spec(old(self)@, key, typing),
            refresh == key_refreshes(old(self)@, key, typing),
            final(self).inv(),
    {
        if typing || self.is_image {
            return false;
        }
        match key {
            Key::Space => {
                self.pause_play();
                false
            },
            Key::I => {
                self.set_start();
                false
            },
            Key::O => {
                self.set_end();
                false
            },
            Key::R => {
                self.play_range();
                false
            },
            Key::Left => {
                self.prev_frame();
                true
            },
            Key::Right => {
                self.next_frame();
                true
            },
        }
    }

    /// Loads a video whose decoder reported frame rate `fps` (frames per
    /// thousand seconds), `frames` frames and the given frame size. The time
    /// goes back to zero and the ranges become one range over the whole video
    /// carrying `note`; a size the decoder did not report is taken as 1920 by
    /// 1080.
    pub fn load_video(
        &mut self,
        fps: Option<u64>,
        frames: u64,
        width: Option<u32>,
        height: Option<u32>,
        note: String,
    )
        requires
            old(self).inv(),
        ensures
            final(self)@.ranges.len() == 1,
            final(self)@.ranges[0].start_time == 0,
            final(self)@.ranges[0].end_time == duration_of(frames as int, video_fps(fps)),
            final(self)@.ranges[0].crop is None,
            final(self)@.ranges[0].note == note,
            final(self)@ == (SessionView {
                is_image: false,
                time: 0,
                duration: duration_of(frames as int, video_fps(fps)),
                fps: video_fps(fps),
                ranges: final(self)@.ranges,
                current: 0,
                frame_width: match width {
                    Some(w) => w as int,
                    None => DEFAULT_FRAME_WIDTH as int,
                },
                frame_height: match height {
                    Some(h) => h as int,
                    None => DEFAULT_FRAME_HEIGHT as int,
                },
                ..old(self)@
            }),
            final(self).inv(),
    {
        let f: u64 = match fps {
            Some(f) => if f == 0 {
                DEFAULT_FPS
            } else if f > FPS_LIMIT {
                FPS_LIMIT
            } else {
                f
            },
            None => DEFAULT_FPS,
        };
        let q: u128 = (frames as u128) * (FRAME_SCALE as u128) / (f as u128);
        let duration: i64 = if q > MAX_DURATION as u128 {
            MAX_DURATION
        } else {
            q as i64
        };
        let mut ranges: Vec<Range> = Vec::new();
        ranges.push(Range { start_time: 0, end_time: duration, crop: None, note });
        self.is_image = false;
        self.fps = f;
        self.duration = duration;
        self.time = 0;
        self.ranges = ranges;
        self.current = 0;
        self.frame_width = match width {
            Some(w) => w,
            None => DEFAULT_FRAME_WIDTH,
        };
        self.frame_height = match height {
            Some(h) => h,
            None => DEFAULT_FRAME_HEIGHT,
        };
    }

    /// Loads a still image of the given size. It has one frame per second and
    /// no duration; the time goes back to zero and the ranges become one range
    /// at zero carrying `note`.
    pub fn load_image(&mut self, width: u32, height: u32, note: String)
        requires
            old(self).inv(),
        ensures
            final(self)@.ranges.len() == 1,
            final(self)@.ranges[0].start_time == 0,
            final(self)@.ranges[0].end_time == 0,
            final(self)@.ranges[0].crop is None,
            final(self)@.ranges[0].note == note,
            final(self)@ == (SessionView {
                is_image: true,
                time: 0,
                duration: 0,
                fps: IMAGE_FPS as int,
                ranges: final(self)@.ranges,
                current: 0,
                frame_width: width as int,
                frame_height: height as int,
                ..old(self)@
            }),
            final(self).inv(),
    {
        let mut ranges: Vec<Range> = Vec::new();
        ranges.push(Range { start_time: 0, end_time: 0, crop: None, note });
        self.is_image = true;
        self.fps = IMAGE_FPS;
        self.duration = 0;
        self.time = 0;
        self.ranges = ranges;
        self.current = 0;
        self.frame_width = width;
        self.frame_height = height;
    }

    /// The index of the frame at the current time, `floor(time * fps)`: what
    /// the frame-number field shows while it is not being edited, and the frame
    /// that the decoder is asked for.
    pub fn frame_number(&self) -> (r: i64)
        requires
            self.inv(),
        ensures
            r == frame_at(self@.time, self@.fps),
    {
        let t = self.time as i128;
        let f = self.fps as i128;
        assert(-0x8000_0000_0000_0000 * FPS_LIMIT <= t * f <= 0x7fff_ffff_ffff_ffff * FPS_LIMIT)
            by (nonlinear_arith)
            requires
                -0x8000_0000_0000_0000 <= t <= 0x7fff_ffff_ffff_ffff,
                1 <= f <= FPS_LIMIT,
        ;
        let q = floor_div(t * f, FRAME_SCALE);
        proof {
            lemma_frame_at_bounds(t as int, f as int);
        }
        q as i64
    }

    /// Steps the current time one frame period (rounded down) back, saturating at the range of
    /// `i64`; the time is not clamped to the media here.
    pub fn prev_frame(&mut self)
        requires
            old(self).inv(),
        ensures
            final(self)@ == (SessionView {
                time: saturate(old(self)@.time - frame_period_down(old(self)@.fps)),
                ..old(self)@
            }),
            final(self).inv(),
    {
        let step = (FRAME_SCALE / self.fps as i128) as i64;
        self.time = saturate_i128(self.time as i128 - step as i128);
    }

    /// Steps the current time one frame period (rounded up) forward, saturating at the range
    /// of `i64`; the time is not clamped to the media here.
    pub fn next_frame(&mut self)
        requires
            old(self).inv(),
        ensures
            final(self)@ == (SessionView {
                time: saturate(old(self)@.time + frame_period(old(self)@.fps)),
                ..old(self)@
            }),
            final(self).inv(),
    {
        let step = frame_period_exec(self.fps);
        self.time = saturate_i128(self.time as i128 + step as i128);
    }

    /// Sets the current time, clamped into the media.
    pub fn set_time(&mut self, t: i64)
        requires
            old(self).inv(),
        ensures
            final(self)@ == (SessionView {
                time: clamp(t as int, 0, old(self)@.duration),
                ..old(self)@
            }),
            final(self).inv(),
    {
        self.time = clamp_time(t, self.duration);
    }

    /// Moves to the first microsecond of frame `n`, clamped into the media.
    pub fn seek_frame(&mut self, n: i32)
        requires
            old(self).inv(),
        ensures
            final(self)@ == (SessionView {
                time: clamp(frame_start(n as int, old(self)@.fps), 0, old(self)@.duration),
                ..old(self)@
            }),
            final(self).inv(),
    {
        let f = self.fps as i128;
        let a = (n as i128) * FRAME_SCALE;
        let q = floor_div(a, f);
        proof {
            vstd::arithmetic::div_mod::lemma_fundamental_div_mod(a as int, f as int);
            assert(-0x8000_0000 * FRAME_SCALE <= a <= 0x8000_0000 * FRAME_SCALE);
            assert(-0x8000_0000 * FRAME_SCALE - 1 <= q <= 0x8000_0000 * FRAME_SCALE) by (nonlinear_arith)
                requires
                    a == f * q + (a as int) % (f as int),
                    0 <= (a as int) % (f as int) < f,
                    1 <= f,
                    -0x8000_0000 * FRAME_SCALE <= a <= 0x8000_0000 * FRAME_SCALE,
            ;
            assert(-0x8000_0000 * FRAME_SCALE * FPS_LIMIT - FPS_LIMIT <= q * f <= 0x8000_0000 * FRAME_SCALE * FPS_LIMIT) by (nonlinear_arith)
                requires
                    -0x8000_0000 * FRAME_SCALE - 1 <= q <= 0x8000_0000 * FRAME_SCALE,
                    1 <= f <= FPS_LIMIT,
            ;
        }
        let t: i128 = if a - q * f == 0 {
            q
        } else {
            q + 1
        };
        proof {
            assert(a - q * f == (a as int) % (f as int)) by (nonlinear_arith)
                requires
                    a == f * q + (a as int) % (f as int),
            ;
            lemma_frame_start_bounds(n as int, f as int);
        }
        self.time = clamp_time(t as i64, self.duration);
    }

    /// Applies the text of the frame-number field, already trimmed: when it
    /// reads as an `i32` frame number, moves to that frame and returns true;
    /// otherwise keeps the time and returns false.
    pub fn apply_frame_text(&mut self, t: &str) -> (moved: bool)
        requires
            old(self).inv(),
        ensures
            moved == parsed_i32(t@) is Some,
            final(self)@ == (match parsed_i32(t@) {
                Some(n) => SessionView {
                    time: clamp(frame_start(n as int, old(self)@.fps), 0, old(self)@.duration),
                    ..old(self)@
                },
                None => old(self)@,
            }),
            final(self).inv(),
    {
        match parse_i32(t) {
            Some(n) => {
                self.seek_frame(n);
                true
            },
            None => false,
        }
    }

    /// Applies the text of the frame-number field once it loses focus with
    /// Enter: the text without surrounding white space goes to
    /// `apply_frame_text`.
    pub fn submit_frame_text(&mut self, text: &str) -> (moved: bool)
        requires
            old(self).inv(),
        ensures
            moved == parsed_i32(trimmed(text@)) is Some,
            final(self)@ == (match parsed_i32(trimmed(text@)) {
                Some(n) => SessionView {
                    time: clamp(frame_start(n as int, old(self)@.fps), 0, old(self)@.duration),
                    ..old(self)@
                },
                None => old(self)@,
            }),
            final(self).inv(),
    {
        let t = trim(text);
        self.apply_frame_text(t)
    }

    /// Advances playback by `elapsed` microseconds of wall time. When playing a
    /// video, the time moves on (saturating), playback stops once the time has
    /// passed a play-until deadline or reached the end, and the result is true:
    /// the frame is to be refreshed and another tick scheduled. Otherwise
    /// nothing changes and the result is false.
    pub fn tick(&mut self, elapsed: u64) -> (refresh: bool)
        requires
            old(self).inv(),
        ensures
            refresh == (old(self)@.is_playing() && !old(self)@.is_image),
            refresh ==> final(self)@ == (SessionView {
                time: saturate(old(self)@.time + elapsed),
                play: play_after_tick(
                    old(self)@.play,
                    saturate(old(self)@.time + elapsed),
                    old(self)@.duration,
                ),
                ..old(self)@
            }),
            !refresh ==> final(self)@ == old(self)@,
            final(self).inv(),
    {
        if !self.is_playing() || self.is_image {
            return false;
        }
        self.time = saturate_i128(self.time as i128 + elapsed as i128);
        if let PlayState::PlayingUntil(d) = self.play {
            if d < self.time {
                self.play = PlayState::NotPlaying;
            }
        }
        if self.time >= self.duration {
            self.play = PlayState::NotPlaying;
        }
        true
    }

    /// The frame numbers shown beside range `i`: first and last frame at the
    /// native rate, and its length in frames at 16 per second.
    pub fn range_frames(&self, i: usize) -> (r: (i64, i64, i64))
        requires
            self.inv(),
            i < self@.ranges.len(),
        ensures
            r.0 == range_frames_spec(self@.ranges[i as int], self@.fps).0,
            r.1 == range_frames_spec(self@.ranges[i as int], self@.fps).1,
            r.2 == range_frames_spec(self@.ranges[i as int], self@.fps).2,
    {
        let r = &self.ranges[i];
        assert(r.wf(self@.duration));
        let f = self.fps as i128;
        let s = r.start_time as i128;
        let e = r.end_time as i128;
        assert(0 <= s * f <= e * f <= MAX_DURATION * FPS_LIMIT) by (nonlinear_arith)
            requires
                0 <= s <= e <= MAX_DURATION,
                1 <= f <= FPS_LIMIT,
        ;
        let a = (2 * (s * f) + FRAME_SCALE) / (2 * FRAME_SCALE);
        let b = (2 * (e * f) + FRAME_SCALE) / (2 * FRAME_SCALE);
        let c = (2 * ((e - s) * 16) + 1_000_000) / 2_000_000;
        assert(a <= MAX_DURATION) by (nonlinear_arith)
            requires
                a == (2 * (s * f) + FRAME_SCALE) / (2 * FRAME_SCALE),
                0 <= s * f <= MAX_DURATION * FPS_LIMIT,
        ;
        assert(b <= MAX_DURATION) by (nonlinear_arith)
            requires
                b == (2 * (e * f) + FRAME_SCALE) / (2 * FRAME_SCALE),
                0 <= e * f <= MAX_DURATION * FPS_LIMIT,
        ;
        (a as i64, b as i64, c as i64)
    }
}

/// Relies on `str::trim`: the result is what `trimmed` names, a function of
/// the characters alone.
#[verifier::external_body]
fn trim(s: &str) -> (r: &str)
    ensures
        r@ == trimmed(s@),
{
    s.trim()
}

/// `s` without leading and trailing white space, as `str::trim` removes it.
pub uninterp spec fn trimmed(s: Seq<char>) -> Seq<char>;


/// Every range of a well-formed session lies within the media, starts no
/// later than it ends, and carries a crop inside the frame, if any.
pub proof fn lemma_ranges_within_media(v: SessionView, i: int)
    requires
        v.wf(),
        0 <= i < v.ranges.len(),
    ensures
        0 <= v.ranges[i].start_time <= v.ranges[i].end_time <= v.duration,
        v.ranges[i].crop matches Some(c) ==> 0 <= c.min_x <= c.max_x <= crate::geometry::NORM_ONE
            && 0 <= c.min_y <= c.max_y <= crate::geometry::NORM_ONE,
        0 <= v.current < v.ranges.len(),
{
    assert(v.ranges[i].wf(v.duration));
}

/// Playing a range of a video and then ticking: the first tick that takes
/// the time past the range's end stops playback, and a tick that stays
/// within the range and before the end of the media keeps playing until the
/// range's end.
pub proof fn lemma_play_until(v: SessionView, elapsed: u64)
    requires
        v.wf(),
        !v.is_image,
    ensures
        ({
            let p = play_range_spec(v);
            let t = saturate(p.time + elapsed);
            let e = v.current_range().end_time as int;
            &&& p.play == PlayState::PlayingUntil(e as i64)
            &&& p.time == v.current_range().start_time
            &&& (t > e ==> play_after_tick(p.play, t, p.duration) == PlayState::NotPlaying)
            &&& (t <= e && t < p.duration ==> play_after_tick(p.play, t, p.duration)
                == PlayState::PlayingUntil(e as i64))
        }),
{
}

} // verus!
