use crate::geometry::{min, NormRect, NORM_ONE};
use crate::media::{image_extension, image_extension_spec};
use crate::session::{Range, Session};
use crate::text::{
    decimal, push_decimal, push_seconds, push_signed_decimal, seconds_text, signed_decimal,
};
use vstd::prelude::*;
use vstd::string::*;

verus! {

/// `v` with its lowest bit cleared: the even number at or below it.
pub open spec fn round_down_even(v: int) -> int {
    v - v % 2
}

pub open spec fn abs(v: int) -> int {
    if v < 0 {
        -v
    } else {
        v
    }
}

/// A crop in media pixels: extent, then offset of the top-left corner.
#[derive(Clone, Copy, PartialEq, Eq, Structural, Debug)]
pub struct PixelCrop {
    pub width: i64,
    pub height: i64,
    pub x: i64,
    pub y: i64,
}

/// The pixel crop of `c` over a `w` by `h` frame: extents rounded down to an
/// even number of pixels, offsets rounded down.
pub open spec fn pixel_crop_spec(c: NormRect, w: int, h: int) -> PixelCrop {
    PixelCrop {
        width: round_down_even((abs(c.max_x - c.min_x) * w) / (NORM_ONE as int)) as i64,
        height: round_down_even((abs(c.max_y - c.min_y) * h) / (NORM_ONE as int)) as i64,
        x: ((min(c.min_x as int, c.max_x as int) * w) / (NORM_ONE as int)) as i64,
        y: ((min(c.min_y as int, c.max_y as int) * h) / (NORM_ONE as int)) as i64,
    }
}

fn scale_to_pixels(n: i64, size: u32) -> (r: i64)
    requires
        0 <= n <= NORM_ONE,
    ensures
        r == (n * size) / (NORM_ONE as int),
        0 <= r <= size,
{
    assert(0 <= n * size <= NORM_ONE * size) by (nonlinear_arith)
        requires
            0 <= n <= NORM_ONE,
            0 <= size,
    ;
    let p: i64 = n * (size as i64);
    let q = p / NORM_ONE;
    assert(q <= size) by (nonlinear_arith)
        requires
            q == p / NORM_ONE,
            0 <= p <= NORM_ONE * size,
    ;
    q
}

/// The pixel crop of `c` over a `w` by `h` frame.
pub fn pixel_crop(c: &NormRect, w: u32, h: u32) -> (p: PixelCrop)
    requires
        c.wf(),
    ensures
        p == pixel_crop_spec(*c, w as int, h as int),
        p.width % 2 == 0,
        p.height % 2 == 0,
        0 <= p.width <= w,
        0 <= p.height <= h,
        0 <= p.x <= w,
        0 <= p.y <= h,
{
    let cw = scale_to_pixels(c.max_x - c.min_x, w);
    let ch = scale_to_pixels(c.max_y - c.min_y, h);
    PixelCrop {
        width: cw - cw % 2,
        height: ch - ch % 2,
        x: scale_to_pixels(c.min_x, w),
        y: scale_to_pixels(c.min_y, h),
    }
}

/// The crop filter, `crop=width:height:x:y`.
pub open spec fn crop_filter_text(p: PixelCrop) -> Seq<char> {
    "crop="@ + decimal(p.width as nat) + ":"@ + decimal(p.height as nat) + ":"@ + decimal(
        p.x as nat,
    ) + ":"@ + decimal(p.y as nat)
}

/// The video filter chain: resampling to 16 frames per second for a video,
/// then the crop when there is one; none for an uncropped image.
pub open spec fn filter_chain(is_image: bool, crop: Option<PixelCrop>) -> Option<Seq<char>> {
    match crop {
        Some(p) => if is_image {
            Some(crop_filter_text(p))
        } else {
            Some("fps=16"@ + ","@ + crop_filter_text(p))
        },
        None => if is_image {
            None
        } else {
            Some("fps=16"@)
        },
    }
}

/// The transcoder's arguments for exporting range `r` of `input` to
/// `output`, with crops computed over a `w` by `h` frame.
pub open spec fn transcoder_args(
    r: Range,
    is_image: bool,
    input: Seq<char>,
    output: Seq<char>,
    w: int,
    h: int,
) -> Seq<Seq<char>> {
    let timing = if is_image {
        Seq::<Seq<char>>::empty()
    } else {
        seq![
            "-ss"@,
            seconds_text(r.start_time as nat),
            "-to"@,
            seconds_text(r.end_time as nat),
        ]
    };
    let crop = match r.crop {
        Some(c) => Some(pixel_crop_spec(c, w, h)),
        None => None,
    };
    let filters = match filter_chain(is_image, crop) {
        Some(f) => seq!["-vf"@, f],
        None => Seq::<Seq<char>>::empty(),
    };
    let codec = if is_image {
        Seq::<Seq<char>>::empty()
    } else {
        seq!["-c:v"@, "libx264"@, "-preset"@, "ultrafast"@]
    };
    seq!["-y"@] + timing + seq!["-i"@, input] + filters + codec + seq![output]
}

/// The views of a list of strings.
pub open spec fn texts(v: Seq<String>) -> Seq<Seq<char>> {
    v.map_values(|s: String| s@)
}

fn crop_filter_string(p: PixelCrop) -> (r: String)
    requires
        p.width >= 0,
        p.height >= 0,
        p.x >= 0,
        p.y >= 0,
    ensures
        r@ == crop_filter_text(p),
{
    let mut s = String::from_str("crop=");
    push_decimal(&mut s, p.width as u64);
    s.append(":");
    push_decimal(&mut s, p.height as u64);
    s.append(":");
    push_decimal(&mut s, p.x as u64);
    s.append(":");
    push_decimal(&mut s, p.y as u64);
    s
}

fn filter_chain_string(is_image: bool, crop: Option<PixelCrop>) -> (r: Option<String>)
    requires
        crop matches Some(p) ==> p.width >= 0 && p.height >= 0 && p.x >= 0 && p.y >= 0,
    ensures
        r matches Some(s) ==> filter_chain(is_image, crop) == Some(s@),
        r is None ==> filter_chain(is_image, crop) is None,
{
    match crop {
        Some(p) => {
            let c = crop_filter_string(p);
            if is_image {
                Some(c)
            } else {
                let mut s = String::from_str("fps=16");
                s.append(",");
                s.append(c.as_str());
                Some(s)
            }
        },
        None => if is_image {
            None
        } else {
            Some(String::from_str("fps=16"))
        },
    }
}

fn push_text(v: &mut Vec<String>, s: String)
    ensures
        texts(final(v)@) == texts(old(v)@).push(s@),
{
    v.push(s);
    assert(texts(final(v)@) =~= texts(old(v)@).push(s@));
}

fn push_str_text(v: &mut Vec<String>, s: &str)
    ensures
        texts(final(v)@) == texts(old(v)@).push(s@),
{
    push_text(v, String::from_str(s));
}

fn seconds_string_of(t: i64) -> (r: String)
    requires
        t >= 0,
    ensures
        r@ == seconds_text(t as nat),
{
    let mut s = String::new();
    push_seconds(&mut s, t as u64);
    assert(s@ =~= seconds_text(t as nat));
    s
}

/// The transcoder's arguments for exporting range `r` of `input` to `output`.
pub fn transcoder_args_vec(
    r: &Range,
    is_image: bool,
    input: &str,
    output: &str,
    w: u32,
    h: u32,
) -> (args: Vec<String>)
    requires
        r.wf(r.end_time as int),
    ensures
        texts(args@) == transcoder_args(*r, is_image, input@, output@, w as int, h as int),
{
    let mut v: Vec<String> = Vec::new();
    let ghost mut want: Seq<Seq<char>> = seq!["-y"@];
    push_str_text(&mut v, "-y");
    assert(texts(v@) =~= want);
    if !is_image {
        push_str_text(&mut v, "-ss");
        push_text(&mut v, seconds_string_of(r.start_time));
        push_str_text(&mut v, "-to");
        push_text(&mut v, seconds_string_of(r.end_time));
    }
    push_str_text(&mut v, "-i");
    push_str_text(&mut v, input);
    let crop = match r.crop {
        Some(c) => Some(pixel_crop(&c, w, h)),
        None => None,
    };
    match filter_chain_string(is_image, crop) {
        Some(f) => {
            push_str_text(&mut v, "-vf");
            push_text(&mut v, f);
        },
        None => {},
    }
    if !is_image {
        push_str_text(&mut v, "-c:v");
        push_str_text(&mut v, "libx264");
        push_str_text(&mut v, "-preset");
        push_str_text(&mut v, "ultrafast");
    }
    push_str_text(&mut v, output);
    assert(texts(v@) =~= transcoder_args(*r, is_image, input@, output@, w as int, h as int));
    v
}

/// The name, without extension, of the files exported for range `i` of `n`:
/// the stem alone when there is one range, else `{stem}_range{i}`.
pub open spec fn output_base(stem: Seq<char>, i: int, n: int) -> Seq<char> {
    if n > 1 {
        stem + "_range"@ + decimal(i as nat)
    } else {
        stem
    }
}

/// `name` inside directory `dir`.
pub open spec fn join_path(dir: Seq<char>, name: Seq<char>) -> Seq<char> {
    if dir.len() == 0 {
        name
    } else if dir.last() == '/' {
        dir + name
    } else {
        dir + "/"@ + name
    }
}

/// The extension of an exported file: the input's own, in lower case, for a
/// still image; `mp4` for a video.
pub open spec fn output_extension(ext: Seq<char>) -> Seq<char> {
    match image_extension_spec(ext) {
        Some(e) => e,
        None => "mp4"@,
    }
}

/// What exporting one range takes: the note to write beside it, if any, and
/// the transcoder's arguments.
pub struct ExportStep {
    /// Where the note goes; none when the note is empty.
    pub note_file: Option<String>,
    pub note: String,
    /// The exported media file.
    pub output: String,
    pub args: Vec<String>,
}

/// `st` is the export step of range `r`, the `i`-th of `n`, of the file
/// `input` with stem `stem` and extension `ext`, into directory `out_dir`,
/// with crops computed over a `w` by `h` frame.
pub open spec fn is_export_step(
    st: ExportStep,
    r: Range,
    i: int,
    n: int,
    input: Seq<char>,
    stem: Seq<char>,
    ext: Seq<char>,
    out_dir: Seq<char>,
    w: int,
    h: int,
) -> bool {
    let base = output_base(stem, i, n);
    let output = join_path(out_dir, base + "."@ + output_extension(ext));
    &&& st.note == r.note
    &&& (r.note@.len() == 0 ==> st.note_file is None)
    &&& (r.note@.len() > 0 ==> (st.note_file matches Some(f) && f@ == join_path(
        out_dir,
        base + ".txt"@,
    )))
    &&& st.output@ == output
    &&& texts(st.args@) == transcoder_args(
        r,
        image_extension_spec(ext) is Some,
        input,
        output,
        w,
        h,
    )
}

fn output_base_string(stem: &str, i: usize, n: usize) -> (r: String)
    ensures
        r@ == output_base(stem@, i as int, n as int),
{
    let mut s = String::from_str(stem);
    if n > 1 {
        s.append("_range");
        push_decimal(&mut s, i as u64);
    }
    s
}

fn join_path_string(dir: &str, name: &str) -> (r: String)
    ensures
        r@ == join_path(dir@, name@),
{
    let n = dir.unicode_len();
    if n == 0 {
        return String::from_str(name);
    }
    let mut s = String::from_str(dir);
    if dir.get_char(n - 1) != '/' {
        s.append("/");
    }
    s.append(name);
    s
}

fn file_name_string(base: &String, ext: &str) -> (r: String)
    ensures
        r@ == base@ + "."@ + ext@,
{
    let mut s = base.clone();
    s.append(".");
    s.append(ext);
    s
}

impl Session {
    /// The export steps of every range, in list order, for the loaded file
    /// `input` with stem `stem` and extension `ext`, into directory `out_dir`.
    /// Whether the file is a still image follows from its extension; crops
    /// are computed over the session's frame size.
    pub fn export_steps(&self, input: &str, stem: &str, ext: &str, out_dir: &str) -> (steps: Vec<
        ExportStep,
    >)
        requires
            self.inv(),
        ensures
            steps@.len() == self@.ranges.len(),
            forall|i: int|
                0 <= i < steps@.len() ==> is_export_step(
                    #[trigger] steps@[i],
                    self@.ranges[i],
                    i,
                    self@.ranges.len() as int,
                    input@,
                    stem@,
                    ext@,
                    out_dir@,
                    self@.frame_width,
                    self@.frame_height,
                ),
    {
        let ranges = self.ranges();
        let n = ranges.len();
        let (w, h) = self.frame_size();
        let image_ext = image_extension(ext);
        let is_image = image_ext.is_some();
        let out_ext: &str = match image_ext {
            Some(e) => e,
            None => "mp4",
        };
        let mut steps: Vec<ExportStep> = Vec::new();
        let mut i: usize = 0;
        while i < n
            invariant
                self.inv(),
                ranges@ == self@.ranges,
                n == ranges@.len(),
                w == self@.frame_width,
                h == self@.frame_height,
                is_image == (image_extension_spec(ext@) is Some),
                out_ext@ == output_extension(ext@),
                i <= n,
                steps@.len() == i,
                forall|j: int|
                    0 <= j < i ==> is_export_step(
                        #[trigger] steps@[j],
                        self@.ranges[j],
                        j,
                        n as int,
                        input@,
                        stem@,
                        ext@,
                        out_dir@,
                        w as int,
                        h as int,
                    ),
            decreases n - i,
        {
            let r = &ranges[i];
            assert(r.wf(self@.duration));
            let base = output_base_string(stem, i, n);
            let output_name = file_name_string(&base, out_ext);
            let output = join_path_string(out_dir, output_name.as_str());
            let args = transcoder_args_vec(r, is_image, input, output.as_str(), w, h);
            let note_file = if r.note.as_str().unicode_len() == 0 {
                None
            } else {
                let mut note_name = base.clone();
                note_name.append(".txt");
                Some(join_path_string(out_dir, note_name.as_str()))
            };
            steps.push(ExportStep { note_file, note: r.note.clone(), output, args });
            i = i + 1;
        }
        steps
    }
}

/// How a transcoder invocation ended: with an exit code (none when a signal
/// ended it), or without starting, for the given reason.
pub enum ExportOutcome {
    Exited(Option<i32>),
    SpawnFailed(String),
}

/// An invocation succeeded when the transcoder exited with code zero.
pub open spec fn outcome_succeeded(o: ExportOutcome) -> bool {
    o matches ExportOutcome::Exited(Some(c)) && c == 0
}

/// An exit code as the error message shows it: `Some(code)` or `None`.
pub open spec fn exit_code_text(code: Option<i32>) -> Seq<char> {
    match code {
        Some(c) => "Some("@ + signed_decimal(c as int) + ")"@,
        None => "None"@,
    }
}

/// The error recorded when the invocation for range `i` ended as `o`.
pub open spec fn failure_message(i: int, o: ExportOutcome) -> Seq<char> {
    match o {
        ExportOutcome::Exited(code) => "FFmpeg failed on range "@ + decimal(i as nat)
            + " with exit code: "@ + exit_code_text(code),
        ExportOutcome::SpawnFailed(reason) => "Failed to start FFmpeg: "@ + reason@,
    }
}

/// Whether the transcoder run ended as `o` succeeded.
pub fn succeeded(o: &ExportOutcome) -> (r: bool)
    ensures
        r == outcome_succeeded(*o),
{
    match o {
        ExportOutcome::Exited(Some(c)) => *c == 0,
        _ => false,
    }
}

/// The error recorded when the invocation for range `i` ended as `o`.
pub fn failure_message_string(i: usize, o: &ExportOutcome) -> (r: String)
    ensures
        r@ == failure_message(i as int, *o),
{
    match o {
        ExportOutcome::Exited(code) => {
            let mut s = String::from_str("FFmpeg failed on range ");
            push_decimal(&mut s, i as u64);
            s.append(" with exit code: ");
            match code {
                Some(c) => {
                    s.append("Some(");
                    push_signed_decimal(&mut s, *c as i64);
                    s.append(")");
                },
                None => {
                    s.append("None");
                },
            }
            s
        },
        ExportOutcome::SpawnFailed(reason) => {
            let mut s = String::from_str("Failed to start FFmpeg: ");
            s.append(reason.as_str());
            s
        },
    }
}

/// The progress of one export job over its ranges, in list order, stopping
/// at the first failure.
pub struct ExportRun {
    total: usize,
    next: usize,
    error: Option<String>,
}

pub struct ExportRunView {
    /// Number of ranges to export.
    pub total: int,
    /// Index of the range exported next, or the one that failed.
    pub next: int,
    /// The failure that stopped the job, if any.
    pub error: Option<Seq<char>>,
}

impl ExportRunView {
    pub open spec fn wf(&self) -> bool {
        0 <= self.next <= self.total
    }

    /// The range to export next: none once every range is done or one failed.
    pub open spec fn next_job(&self) -> Option<int> {
        if self.error is None && self.next < self.total {
            Some(self.next)
        } else {
            None
        }
    }

    /// The progress after the invocation for the next range ended as `o`.
    pub open spec fn record(&self, o: ExportOutcome) -> ExportRunView {
        if outcome_succeeded(o) {
            ExportRunView { next: self.next + 1, ..*self }
        } else {
            ExportRunView { error: Some(failure_message(self.next, o)), ..*self }
        }
    }
}

impl View for ExportRun {
    type V = ExportRunView;

    closed spec fn view(&self) -> ExportRunView {
        ExportRunView {
            total: self.total as int,
            next: self.next as int,
            error: match self.error {
                Some(e) => Some(e@),
                None => None,
            },
        }
    }
}

impl ExportRun {
    /// A job over `total` ranges that has not started.
    pub fn new(total: usize) -> (r: ExportRun)
        ensures
            r@ == (ExportRunView { total: total as int, next: 0, error: None }),
            r@.wf(),
    {
        ExportRun { total, next: 0, error: None }
    }

    /// The index of the range to export next, if any.
    pub fn next_job(&self) -> (r: Option<usize>)
        ensures
            r matches Some(i) ==> self@.next_job() == Some(i as int),
            r is None ==> self@.next_job() is None,
    {
        if self.error.is_none() && self.next < self.total {
            Some(self.next)
        } else {
            None
        }
    }

    /// Records how the invocation for the range that `next_job` gave ended.
    pub fn record(&mut self, o: ExportOutcome)
        requires
            old(self)@.wf(),
            old(self)@.next_job() is Some,
        ensures
            final(self)@ == old(self)@.record(o),
            final(self)@.wf(),
    {
        if succeeded(&o) {
            self.next = self.next + 1;
        } else {
            self.error = Some(failure_message_string(self.next, &o));
        }
    }

    /// The failure that stopped the job, if any.
    pub fn error(&self) -> (r: Option<String>)
        ensures
            r matches Some(e) ==> self@.error == Some(e@),
            r is None ==> self@.error is None,
    {
        match &self.error {
            Some(e) => Some(e.clone()),
            None => None,
        }
    }
}

} // verus!
