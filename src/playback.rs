use crate::geometry::clamp;
use vstd::prelude::*;

verus! {

/// Largest media duration, in microseconds (about 31 years).
pub const MAX_DURATION: i64 = 1_000_000_000_000_000;

/// Largest frame rate, in frames per thousand seconds (a million frames per second).
pub const FPS_LIMIT: u64 = 1_000_000_000;

/// Frame rate assumed when the decoder reports none: 30 frames per second.
pub const DEFAULT_FPS: u64 = 30_000;

/// Frame rate of a still image: one frame per second.
pub const IMAGE_FPS: u64 = 1_000;

/// Microseconds times frames per thousand seconds, per frame.
pub const FRAME_SCALE: i128 = 1_000_000_000;

/// Playback state.
#[derive(Clone, Copy, PartialEq, Eq, Structural, Debug)]
pub enum PlayState {
    NotPlaying,
    Playing,
    /// Playing until the time passes the deadline, in microseconds.
    PlayingUntil(i64),
}

/// `v` clamped into the range of `i64`.
pub open spec fn saturate(v: int) -> int {
    clamp(v, i64::MIN as int, i64::MAX as int)
}

/// The index of the frame shown at time `t`: `floor(t * fps)`, with `t` in
/// microseconds and `fps` in frames per thousand seconds.
pub open spec fn frame_at(t: int, fps: int) -> int {
    (t * fps) / (FRAME_SCALE as int)
}

/// The first microsecond at which frame `n` is shown: `n / fps` rounded up.
pub open spec fn frame_start(n: int, fps: int) -> int {
    let a = n * FRAME_SCALE;
    if a % fps == 0 {
        a / fps
    } else {
        a / fps + 1
    }
}

/// One frame period, in microseconds, rounded up: a step forward by it
/// always reaches the next frame.
pub open spec fn frame_period(fps: int) -> int {
    frame_start(1, fps)
}

/// One frame period, in microseconds, rounded down: a step back by it from
/// the start of a frame reaches the previous frame and no further.
pub open spec fn frame_period_down(fps: int) -> int {
    (FRAME_SCALE as int) / fps
}

/// A duration of `frames` frames at `fps`, in microseconds rounded down and
/// capped at `MAX_DURATION`.
pub open spec fn duration_of(frames: int, fps: int) -> int {
    if (frames * FRAME_SCALE) / fps > MAX_DURATION {
        MAX_DURATION as int
    } else {
        (frames * FRAME_SCALE) / fps
    }
}

/// The play state after toggling playback.
pub open spec fn toggled(p: PlayState) -> PlayState {
    match p {
        PlayState::NotPlaying => PlayState::Playing,
        _ => PlayState::NotPlaying,
    }
}

/// The play state after a tick that brought the time to `t`.
pub open spec fn play_after_tick(p: PlayState, t: int, duration: int) -> PlayState {
    if t >= duration {
        PlayState::NotPlaying
    } else if p matches PlayState::PlayingUntil(d) && d < t {
        PlayState::NotPlaying
    } else {
        p
    }
}

/// `x` rounded half up to a whole number, where `x = num / den` and `den > 0`.
pub open spec fn round_ratio(num: int, den: int) -> int {
    (2 * num + den) / (2 * den)
}

pub(crate) fn clamp_time(t: i64, duration: i64) -> (r: i64)
    requires
        0 <= duration,
    ensures
        r == clamp(t as int, 0, duration as int),
{
    if t < 0 {
        0
    } else if t > duration {
        duration
    } else {
        t
    }
}

pub(crate) fn saturate_i128(v: i128) -> (r: i64)
    ensures
        r == saturate(v as int),
{
    if v < i64::MIN as i128 {
        i64::MIN
    } else if v > i64::MAX as i128 {
        i64::MAX
    } else {
        v as i64
    }
}

/// `a / d` rounded down, for `d > 0`.
pub(crate) fn floor_div(a: i128, d: i128) -> (q: i128)
    requires
        0 < d,
        -0x7fff_ffff_ffff_ffff_ffff_ffff_ffff_fff0 <= a <= 0x7fff_ffff_ffff_ffff_ffff_ffff_ffff_fff0,
    ensures
        q == a / d,
{
    if a >= 0 {
        a / d
    } else {
        let m: i128 = -a;
        let q = m / d;
        let r = m % d;
        proof {
            vstd::arithmetic::div_mod::lemma_fundamental_div_mod(m as int, d as int);
            if r == 0 {
                assert(a == (-q) * d + 0) by (nonlinear_arith)
                    requires
                        m == d * q + r,
                        r == 0,
                        a == -m,
                ;
                vstd::arithmetic::div_mod::lemma_fundamental_div_mod_converse(a as int, d as int, -q, 0);
            } else {
                assert(a == (-q - 1) * d + (d - r)) by (nonlinear_arith)
                    requires
                        m == d * q + r,
                        a == -m,
                ;
                vstd::arithmetic::div_mod::lemma_fundamental_div_mod_converse(
                    a as int,
                    d as int,
                    -q - 1,
                    d - r,
                );
            }
        }
        if r == 0 {
            -q
        } else {
            -q - 1
        }
    }
}

pub(crate) fn frame_period_exec(fps: u64) -> (r: i64)
    requires
        1 <= fps <= FPS_LIMIT,
    ensures
        r == frame_period(fps as int),
        1 <= r <= FRAME_SCALE,
{
    let f = fps as i128;
    let q = FRAME_SCALE / f;
    let r = FRAME_SCALE % f;
    proof {
        assert(1 * FRAME_SCALE == FRAME_SCALE);
        assert(1 <= q <= FRAME_SCALE) by (nonlinear_arith)
            requires
                q == FRAME_SCALE / f,
                1 <= f <= FPS_LIMIT,
        ;
    }
    if r == 0 {
        q as i64
    } else {
        proof {
            assert(q < FRAME_SCALE) by (nonlinear_arith)
                requires
                    q == FRAME_SCALE / f,
                    r == FRAME_SCALE % f,
                    r != 0,
                    1 <= f,
            ;
        }
        (q + 1) as i64
    }
}

pub(crate) proof fn lemma_frame_at_bounds(t: int, f: int)
    requires
        i64::MIN <= t <= i64::MAX,
        1 <= f <= FPS_LIMIT,
    ensures
        i64::MIN <= frame_at(t, f) <= i64::MAX,
{
    let a = t * f;
    let q = a / (FRAME_SCALE as int);
    vstd::arithmetic::div_mod::lemma_fundamental_div_mod(a, FRAME_SCALE as int);
    if t >= 0 {
        assert(0 <= a <= t * FRAME_SCALE) by (nonlinear_arith)
            requires
                a == t * f,
                0 <= t,
                1 <= f <= FPS_LIMIT,
        ;
        assert(0 <= q <= t) by (nonlinear_arith)
            requires
                a == FRAME_SCALE * q + a % (FRAME_SCALE as int),
                0 <= a % (FRAME_SCALE as int) < FRAME_SCALE,
                0 <= a <= t * FRAME_SCALE,
        ;
    } else {
        assert(t * FRAME_SCALE <= a < 0) by (nonlinear_arith)
            requires
                a == t * f,
                t < 0,
                1 <= f <= FPS_LIMIT,
        ;
        assert(t <= q < 0) by (nonlinear_arith)
            requires
                a == FRAME_SCALE * q + a % (FRAME_SCALE as int),
                0 <= a % (FRAME_SCALE as int) < FRAME_SCALE,
                t * FRAME_SCALE <= a < 0,
        ;
    }
}

pub(crate) proof fn lemma_frame_start_bounds(n: int, f: int)
    requires
        i32::MIN <= n <= i32::MAX,
        1 <= f <= FPS_LIMIT,
    ensures
        -0x8000_0000 * FRAME_SCALE <= frame_start(n, f) <= 0x8000_0000 * FRAME_SCALE,
{
    let a = n * FRAME_SCALE;
    let q = a / f;
    vstd::arithmetic::div_mod::lemma_fundamental_div_mod(a, f);
    if n >= 0 {
        assert(0 <= q <= a) by (nonlinear_arith)
            requires
                a == f * q + a % f,
                0 <= a % f < f,
                0 <= a,
                1 <= f,
        ;
    } else {
        assert(a <= q < 0) by (nonlinear_arith)
            requires
                a == f * q + a % f,
                0 <= a % f < f,
                a < 0,
                1 <= f,
        ;
    }
}

/// Seeking to frame `n` lands on a time at which frame `n` is shown.
pub proof fn lemma_frame_start_round_trip(n: int, fps: int)
    requires
        1 <= fps <= FPS_LIMIT,
    ensures
        frame_at(frame_start(n, fps), fps) == n,
{
    let a = n * FRAME_SCALE;
    let q = a / fps;
    let r = a % fps;
    vstd::arithmetic::div_mod::lemma_fundamental_div_mod(a, fps);
    let t = frame_start(n, fps);
    if r == 0 {
        assert(t * fps == a) by (nonlinear_arith)
            requires
                a == fps * q + r,
                r == 0,
                t == q,
        ;
    } else {
        assert(a < t * fps < a + fps) by (nonlinear_arith)
            requires
                a == fps * q + r,
                0 < r < fps,
                t == q + 1,
        ;
    }
    assert(n * FRAME_SCALE <= t * fps < n * FRAME_SCALE + FRAME_SCALE);
    vstd::arithmetic::div_mod::lemma_fundamental_div_mod_converse(
        t * fps,
        FRAME_SCALE as int,
        n,
        t * fps - n * FRAME_SCALE,
    );
}

} // verus!
