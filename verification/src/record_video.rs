//! The decisions of the `record-video` command: checking its parameters,
//! locating ffmpeg, and the command line that ffmpeg is started with.

use vstd::prelude::*;
use vstd::string::StringExecFns;

use base64::Engine;

use crate::json::{lookup, opt_string_view, ArgValue, JsonObject};
use crate::text::{
    chars_of, copy_range, decimal, string_of, strings_view, trim, trim_chars, u64_to_string,
};

verus! {

/// Parameters for the record-video command.
#[derive(Debug, Clone)]
pub struct RecordVideoParams {
    pub output: String,
    pub duration_secs: u64,
    pub fps: u32,
    pub quality: u32,
    pub max_width: Option<u32>,
    pub max_height: Option<u32>,
}

/// Why a recording is refused or failed.
#[derive(Debug, Clone, Copy, PartialEq, Eq, Structural)]
pub enum RecordVideoError {
    /// The duration is zero seconds.
    ZeroDuration,
    /// The frame rate is outside `1..=1000`.
    FpsOutOfRange,
    /// The JPEG quality is outside `1..=100`.
    QualityOutOfRange,
    /// No ffmpeg executable was found.
    FfmpegNotFound,
}

/// The first refusal that `params` meet, in the order duration, frame rate,
/// quality, or `None` when the parameters are valid.
pub open spec fn params_problem(duration_secs: u64, fps: u32, quality: u32) -> Option<
    RecordVideoError,
> {
    if duration_secs == 0 {
        Some(RecordVideoError::ZeroDuration)
    } else if !(1 <= fps <= 1000) {
        Some(RecordVideoError::FpsOutOfRange)
    } else if !(1 <= quality <= 100) {
        Some(RecordVideoError::QualityOutOfRange)
    } else {
        None
    }
}

/// Checks the parameters before anything is started.
pub fn validate_record_video_params(params: &RecordVideoParams) -> (r: Result<(), RecordVideoError>)
    ensures
        match params_problem(params.duration_secs, params.fps, params.quality) {
            Some(e) => r == Err::<(), RecordVideoError>(e),
            None => r is Ok,
        },
{
    if params.duration_secs == 0 {
        return Err(RecordVideoError::ZeroDuration);
    }
    if !(1 <= params.fps && params.fps <= 1000) {
        return Err(RecordVideoError::FpsOutOfRange);
    }
    if !(1 <= params.quality && params.quality <= 100) {
        return Err(RecordVideoError::QualityOutOfRange);
    }
    Ok(())
}

/// The text of an error, as the command reports it.
pub open spec fn record_error_message(e: RecordVideoError) -> Seq<char> {
    match e {
        RecordVideoError::ZeroDuration => "duration must be greater than 0 seconds"@,
        RecordVideoError::FpsOutOfRange => "fps must be between 1 and 1000"@,
        RecordVideoError::QualityOutOfRange => "quality must be between 1 and 100"@,
        RecordVideoError::FfmpegNotFound =>
            "ffmpeg not found in PATH. Install it to use record-video:\n  macOS:  brew install ffmpeg\n  Ubuntu: sudo apt install ffmpeg\n  Other:  https://ffmpeg.org/download.html"@,
    }
}

impl RecordVideoError {
    /// The text of the error.
    pub fn message(&self) -> (m: String)
        ensures
            m@ == record_error_message(*self),
    {
        match self {
            RecordVideoError::ZeroDuration => String::from_str(
                "duration must be greater than 0 seconds",
            ),
            RecordVideoError::FpsOutOfRange => String::from_str("fps must be between 1 and 1000"),
            RecordVideoError::QualityOutOfRange => String::from_str(
                "quality must be between 1 and 100",
            ),
            RecordVideoError::FfmpegNotFound => String::from_str(
                "ffmpeg not found in PATH. Install it to use record-video:\n  macOS:  brew install ffmpeg\n  Ubuntu: sudo apt install ffmpeg\n  Other:  https://ffmpeg.org/download.html",
            ),
        }
    }
}

/// The path of ffmpeg that a `PATH` lookup found, or the error that tells
/// how to install it.
pub fn find_ffmpeg(found: Option<String>) -> (r: Result<String, RecordVideoError>)
    ensures
        match found {
            Some(p) => r matches Ok(q) && q@ == p@,
            None => r == Err::<String, RecordVideoError>(RecordVideoError::FfmpegNotFound),
        },
{
    match found {
        Some(path) => Ok(path),
        None => Err(RecordVideoError::FfmpegNotFound),
    }
}

/// How many characters `s` has before its first newline.
pub open spec fn line_end(s: Seq<char>) -> nat
    decreases s.len(),
{
    if s.len() > 0 && s[0] != '\n' {
        1 + line_end(s.drop_first())
    } else {
        0
    }
}

/// How many characters `s` has after its last newline.
pub open spec fn tail_len(s: Seq<char>) -> nat
    decreases s.len(),
{
    if s.len() > 0 && s.last() != '\n' {
        1 + tail_len(s.drop_last())
    } else {
        0
    }
}

/// `s` without one carriage return at its end.
pub open spec fn strip_cr(s: Seq<char>) -> Seq<char> {
    if s.len() > 0 && s.last() == '\r' {
        s.drop_last()
    } else {
        s
    }
}

/// The first line of a non-empty text (`str::lines().next()`).
pub open spec fn first_line(s: Seq<char>) -> Seq<char> {
    if line_end(s) == s.len() {
        s
    } else {
        strip_cr(s.subrange(0, line_end(s) as int))
    }
}

/// The last line of a text (`str::lines().last()`), `None` for an empty text.
pub open spec fn last_line(s: Seq<char>) -> Option<Seq<char>> {
    if s.len() == 0 {
        None
    } else if s.last() == '\n' {
        let t = s.drop_last();
        Some(strip_cr(t.subrange(t.len() - tail_len(t), t.len() as int)))
    } else {
        Some(s.subrange(s.len() - tail_len(s), s.len() as int))
    }
}

/// The length of the first line of `v` (characters before the first newline).
fn find_line_end(v: &Vec<char>) -> (i: usize)
    ensures
        i == line_end(v@),
        i <= v@.len(),
{
    let n = v.len();
    let mut i: usize = 0;
    assert(v@.subrange(0, n as int) =~= v@);
    while i < n && v[i] != '\n'
        invariant
            n == v@.len(),
            i <= n,
            line_end(v@) == i + line_end(v@.subrange(i as int, n as int)),
        decreases n - i,
    {
        proof {
            let sub = v@.subrange(i as int, n as int);
            assert(sub.drop_first() =~= v@.subrange(i + 1, n as int));
            assert(sub[0] == v@[i as int]);
        }
        i = i + 1;
    }
    proof {
        let sub = v@.subrange(i as int, n as int);
        if i < n {
            assert(sub[0] == v@[i as int]);
        }
    }
    i
}

/// The number of characters of `v[..to]` after its last newline.
fn find_tail_len(v: &Vec<char>, to: usize) -> (k: usize)
    requires
        to <= v@.len(),
    ensures
        k == tail_len(v@.subrange(0, to as int)),
        k <= to,
{
    let mut j: usize = to;
    while j > 0 && v[j - 1] != '\n'
        invariant
            to <= v@.len(),
            j <= to,
            tail_len(v@.subrange(0, to as int)) == (to - j) + tail_len(v@.subrange(0, j as int)),
        decreases j,
    {
        proof {
            let sub = v@.subrange(0, j as int);
            assert(sub.drop_last() =~= v@.subrange(0, j - 1));
            assert(sub.last() == v@[j - 1]);
        }
        j = j - 1;
    }
    proof {
        let sub = v@.subrange(0, j as int);
        if j > 0 {
            assert(sub.last() == v@[j - 1]);
        }
    }
    to - j
}

fn strip_cr_range(v: &Vec<char>, from: usize, to: usize) -> (s: String)
    requires
        from <= to <= v@.len(),
    ensures
        s@ == strip_cr(v@.subrange(from as int, to as int)),
{
    let ghost t = v@.subrange(from as int, to as int);
    if to > from && v[to - 1] == '\r' {
        assert(t.last() == v@[to - 1]);
        assert(t.drop_last() =~= v@.subrange(from as int, to - 1));
        string_of(&copy_range(v, from, to - 1))
    } else {
        proof {
            if to > from {
                assert(t.last() == v@[to - 1]);
            }
        }
        string_of(&copy_range(v, from, to))
    }
}

/// The path that `which ffmpeg` printed: its trimmed output's first line, or
/// `None` when the output is blank.
pub fn path_from_which_output(stdout: &str) -> (r: Option<String>)
    ensures
        match r {
            Some(p) => trim(stdout@).len() > 0 && p@ == first_line(trim(stdout@)),
            None => trim(stdout@).len() == 0,
        },
{
    let raw = chars_of(stdout);
    let path = trim_chars(&raw);
    if path.len() == 0 {
        return None;
    }
    let e = find_line_end(&path);
    if e == path.len() {
        Some(string_of(&path))
    } else {
        Some(strip_cr_range(&path, 0, e))
    }
}

/// The last line of `text` (`str::lines().last()`).
pub fn last_line_of(text: &str) -> (r: Option<String>)
    ensures
        match r {
            Some(l) => last_line(text@) == Some(l@),
            None => last_line(text@) is None,
        },
{
    let v = chars_of(text);
    let n = v.len();
    if n == 0 {
        return None;
    }
    if v[n - 1] == '\n' {
        let k = find_tail_len(&v, n - 1);
        assert(v@.drop_last() =~= v@.subrange(0, n - 1));
        assert(v@.subrange(0, n - 1).subrange((n - 1 - k) as int, (n - 1) as int) =~= v@.subrange(
            (n - 1 - k) as int,
            (n - 1) as int,
        ));
        Some(strip_cr_range(&v, n - 1 - k, n - 1))
    } else {
        let k = find_tail_len(&v, n);
        assert(v@.subrange(0, n as int) =~= v@);
        Some(string_of(&copy_range(&v, n - k, n)))
    }
}

/// The arguments ffmpeg is started with: JPEG images on standard input at
/// `fps` frames per second, encoded to a web-friendly H.264 MP4 at `output`.
pub open spec fn ffmpeg_args_spec(fps: u32, output: Seq<char>) -> Seq<Seq<char>> {
    seq![
        "-y"@,
        "-f"@,
        "image2pipe"@,
        "-framerate"@,
        decimal(fps as nat),
        "-vcodec"@,
        "mjpeg"@,
        "-i"@,
        "-"@,
        "-c:v"@,
        "libx264"@,
        "-pix_fmt"@,
        "yuv420p"@,
        "-preset"@,
        "fast"@,
        "-movflags"@,
        "+faststart"@,
        output,
    ]
}

/// The arguments that ffmpeg is started with for `params`.
pub fn ffmpeg_args(params: &RecordVideoParams) -> (v: Vec<String>)
    ensures
        strings_view(v@) == ffmpeg_args_spec(params.fps, params.output@),
{
    let mut v: Vec<String> = Vec::new();
    v.push(String::from_str("-y"));
    v.push(String::from_str("-f"));
    v.push(String::from_str("image2pipe"));
    v.push(String::from_str("-framerate"));
    v.push(u64_to_string(params.fps as u64));
    v.push(String::from_str("-vcodec"));
    v.push(String::from_str("mjpeg"));
    v.push(String::from_str("-i"));
    v.push(String::from_str("-"));
    v.push(String::from_str("-c:v"));
    v.push(String::from_str("libx264"));
    v.push(String::from_str("-pix_fmt"));
    v.push(String::from_str("yuv420p"));
    v.push(String::from_str("-preset"));
    v.push(String::from_str("fast"));
    v.push(String::from_str("-movflags"));
    v.push(String::from_str("+faststart"));
    v.push(params.output.clone());
    assert(strings_view(v@) =~= ffmpeg_args_spec(params.fps, params.output@));
    v
}

/// The parameters of `Page.startScreencast`: JPEG frames at the requested
/// quality, every frame, capped in size when a maximum is given.
pub open spec fn screencast_params_spec(quality: u32, max_width: Option<u32>, max_height: Option<u32>) -> Seq<(Seq<char>, ArgValue<Seq<char>>)> {
    let base = seq![
        ("format"@, ArgValue::Text("jpeg"@)),
        ("quality"@, ArgValue::Number(quality as u64)),
        ("everyNthFrame"@, ArgValue::Number(1)),
    ];
    let with_width = match max_width {
        Some(w) => base.push(("maxWidth"@, ArgValue::Number(w as u64))),
        None => base,
    };
    match max_height {
        Some(h) => with_width.push(("maxHeight"@, ArgValue::Number(h as u64))),
        None => with_width,
    }
}

/// The parameters that the screencast is started with for `params`.
pub fn screencast_params(params: &RecordVideoParams) -> (o: JsonObject)
    ensures
        o@ == screencast_params_spec(params.quality, params.max_width, params.max_height),
{
    let mut o = JsonObject::new();
    o.push(String::from_str("format"), ArgValue::Text(String::from_str("jpeg")));
    o.push(String::from_str("quality"), ArgValue::Number(params.quality as u64));
    o.push(String::from_str("everyNthFrame"), ArgValue::Number(1));
    match params.max_width {
        Some(w) => o.push(String::from_str("maxWidth"), ArgValue::Number(w as u64)),
        None => {},
    }
    match params.max_height {
        Some(h) => o.push(String::from_str("maxHeight"), ArgValue::Number(h as u64)),
        None => {},
    }
    o
}

/// The screencast starts with JPEG frames (`format`), at the recording's
/// `quality`, sending every frame (`everyNthFrame` 1), with `maxWidth` present
/// exactly when a maximum width is given and then equal to it, and likewise
/// `maxHeight` for the maximum height.
pub proof fn lemma_screencast_params_fields(quality: u32, max_width: Option<u32>, max_height: Option<u32>)
    ensures
        lookup(screencast_params_spec(quality, max_width, max_height), "format"@) == ArgValue::Text("jpeg"@),
        lookup(screencast_params_spec(quality, max_width, max_height), "quality"@) == ArgValue::<
            Seq<char>,
        >::Number(quality as u64),
        lookup(screencast_params_spec(quality, max_width, max_height), "everyNthFrame"@) == ArgValue::<
            Seq<char>,
        >::Number(1),
        max_width matches Some(w) ==> lookup(screencast_params_spec(quality, max_width, max_height), "maxWidth"@)
            == ArgValue::<Seq<char>>::Number(w as u64),
        max_width is None ==> lookup(screencast_params_spec(quality, max_width, max_height), "maxWidth"@)
            == ArgValue::<Seq<char>>::Null,
        max_height matches Some(h) ==> lookup(screencast_params_spec(quality, max_width, max_height), "maxHeight"@)
            == ArgValue::<Seq<char>>::Number(h as u64),
        max_height is None ==> lookup(screencast_params_spec(quality, max_width, max_height), "maxHeight"@)
            == ArgValue::<Seq<char>>::Null,
{
    reveal_strlit("format");
    reveal_strlit("quality");
    reveal_strlit("everyNthFrame");
    reveal_strlit("maxWidth");
    reveal_strlit("maxHeight");
    reveal_strlit("jpeg");
    reveal_with_fuel(crate::json::lookup, 6);
    let p = screencast_params_spec(quality, max_width, max_height);
    let a = ("format"@, ArgValue::Text("jpeg"@));
    let b = ("quality"@, ArgValue::<Seq<char>>::Number(quality as u64));
    let n = ("everyNthFrame"@, ArgValue::<Seq<char>>::Number(1));
    assert(p[0] == a && p[1] == b && p[2] == n);
    let t1 = p.drop_first();
    let t2 = t1.drop_first();
    let t3 = t2.drop_first();
    assert(t1[0] == b && t2[0] == n);
    assert(t1.len() == p.len() - 1 && t2.len() == p.len() - 2 && t3.len() == p.len() - 3);
    assert("format"@.len() == 6 && "quality"@.len() == 7 && "everyNthFrame"@.len() == 13);
    assert("maxWidth"@.len() == 8 && "maxHeight"@.len() == 9);
    if p.len() > 3 {
        assert(t3[0] == p[3]);
        let t4 = t3.drop_first();
        assert(t4.len() == p.len() - 4);
        if p.len() > 4 {
            assert(t4[0] == p[4]);
            assert(t4.drop_first().len() == 0);
        }
    }
}

/// A recording goes ahead exactly when it lasts at least a second, runs at 1
/// to 1000 frames per second and asks for a JPEG quality of 1 to 100; a bad
/// duration is reported before a bad frame rate, and that before a bad
/// quality.
pub proof fn lemma_params_checked_in_order(duration_secs: u64, fps: u32, quality: u32)
    ensures
        params_problem(duration_secs, fps, quality) is None <==> (duration_secs > 0 && 1 <= fps <= 1000 && 1
            <= quality <= 100),
        duration_secs == 0 ==> params_problem(duration_secs, fps, quality) == Some(
            RecordVideoError::ZeroDuration,
        ),
        duration_secs > 0 && (fps < 1 || fps > 1000) ==> params_problem(duration_secs, fps, quality) == Some(
            RecordVideoError::FpsOutOfRange,
        ),
        duration_secs > 0 && 1 <= fps <= 1000 && (quality < 1 || quality > 100) ==> params_problem(
            duration_secs,
            fps,
            quality,
        ) == Some(RecordVideoError::QualityOutOfRange),
{
}

/// The capture waits at most one frame interval at a time and never past the
/// end of the recording: it waits the whole interval, or exactly until the
/// end when that comes first, and stops once the recording time is up.
pub proof fn lemma_read_timeout_bounded(elapsed_ns: u128, duration_secs: u64, frame_interval_ms: u64)
    ensures
        read_timeout_ns(elapsed_ns, duration_secs, frame_interval_ms) is None <==> elapsed_ns >= duration_secs
            * 1_000_000_000,
        read_timeout_ns(elapsed_ns, duration_secs, frame_interval_ms) matches Some(t) ==> t <= frame_interval_ms
            * 1_000_000 && elapsed_ns + t <= duration_secs * 1_000_000_000 && (t == frame_interval_ms * 1_000_000
            || elapsed_ns + t == duration_secs * 1_000_000_000),
{
}

/// ffmpeg overwrites the output, reads JPEG frames from its standard input
/// at the recording's frame rate, and writes the video to the output path,
/// which comes last.
pub proof fn lemma_ffmpeg_reads_frames_from_stdin(fps: u32, output: Seq<char>)
    ensures
        ffmpeg_args_spec(fps, output).len() == 18,
        ffmpeg_args_spec(fps, output)[0] == "-y"@,
        ffmpeg_args_spec(fps, output)[1] == "-f"@ && ffmpeg_args_spec(fps, output)[2] == "image2pipe"@,
        ffmpeg_args_spec(fps, output)[3] == "-framerate"@ && ffmpeg_args_spec(fps, output)[4] == decimal(
            fps as nat,
        ),
        ffmpeg_args_spec(fps, output)[5] == "-vcodec"@ && ffmpeg_args_spec(fps, output)[6] == "mjpeg"@,
        ffmpeg_args_spec(fps, output)[7] == "-i"@ && ffmpeg_args_spec(fps, output)[8] == "-"@,
        ffmpeg_args_spec(fps, output)[17] == output,
{
}

proof fn lemma_tail_len(s: Seq<char>)
    ensures
        tail_len(s) <= s.len(),
        forall|i: int| s.len() - tail_len(s) <= i < s.len() ==> s[i] != '\n',
        tail_len(s) < s.len() ==> s[s.len() - tail_len(s) - 1] == '\n',
    decreases s.len(),
{
    if s.len() > 0 && s.last() != '\n' {
        let d = s.drop_last();
        lemma_tail_len(d);
        assert forall|i: int| s.len() - tail_len(s) <= i < s.len() implies s[i] != '\n' by {
            if i < s.len() - 1 {
                assert(s[i] == d[i]);
            }
        }
        if tail_len(s) < s.len() {
            assert(s[s.len() - tail_len(s) - 1] == d[d.len() - tail_len(d) - 1]);
        }
    }
}

proof fn lemma_line_end(s: Seq<char>)
    ensures
        line_end(s) <= s.len(),
        forall|i: int| 0 <= i < line_end(s) ==> s[i] != '\n',
        line_end(s) < s.len() ==> s[line_end(s) as int] == '\n',
    decreases s.len(),
{
    if s.len() > 0 && s[0] != '\n' {
        let d = s.drop_first();
        lemma_line_end(d);
        assert forall|i: int| 0 <= i < line_end(s) implies s[i] != '\n' by {
            if i > 0 {
                assert(s[i] == d[i - 1]);
            }
        }
        if line_end(s) < s.len() {
            assert(s[line_end(s) as int] == d[line_end(d) as int]);
        }
    }
}

/// The last line of a text is the text after its last line break, without
/// the break that ends the text (`\n` or `\r\n`): it holds no line break, and
/// the text is the part `before` it, which is empty or ends with `\n`, then
/// the line, then the break `after` it, which is empty, `\n` or `\r\n` (the
/// line then not ending with `\r`). An empty text has no last line.
pub proof fn lemma_last_line_is_the_last_line(s: Seq<char>) -> (parts: (Seq<char>, Seq<char>))
    ensures
        last_line(s) is None <==> s.len() == 0,
        last_line(s) matches Some(l) ==> (forall|i: int| 0 <= i < l.len() ==> l[i] != '\n') && s == parts.0
            + l + parts.1 && (parts.0.len() == 0 || parts.0.last() == '\n') && (parts.1.len() == 0 || parts.1
            == seq!['\n'] || parts.1 == seq!['\r', '\n']) && (parts.1 == seq!['\n'] ==> !(l.len() > 0
            && l.last() == '\r')),
{
    if s.len() == 0 {
        (Seq::empty(), Seq::empty())
    } else if s.last() != '\n' {
        lemma_tail_len(s);
        let k = tail_len(s);
        let l = s.subrange(s.len() - k, s.len() as int);
        let p = s.subrange(0, s.len() - k);
        let e = Seq::<char>::empty();
        assert(s =~= p + l + e);
        if p.len() > 0 {
            assert(p.last() == s[s.len() - k - 1]);
        }
        assert(forall|i: int| 0 <= i < l.len() ==> l[i] == s[s.len() - k + i]);
        assert(e != seq!['\n']) by {
            assert(e.len() != seq!['\n'].len());
        }
        (p, e)
    } else {
        let t = s.drop_last();
        lemma_tail_len(t);
        let k = tail_len(t);
        let u = t.subrange(t.len() - k, t.len() as int);
        let p = t.subrange(0, t.len() - k);
        assert(forall|i: int| 0 <= i < u.len() ==> u[i] == t[t.len() - k + i]);
        if p.len() > 0 {
            assert(p.last() == t[t.len() - k - 1]);
        }
        if u.len() > 0 && u.last() == '\r' {
            let l = u.drop_last();
            let e = seq!['\r', '\n'];
            assert(s =~= p + l + e);
            assert(forall|i: int| 0 <= i < l.len() ==> l[i] == u[i]);
            assert(e != seq!['\n']) by {
                assert(e.len() != seq!['\n'].len());
            }
            (p, e)
        } else {
            let e = seq!['\n'];
            assert(s =~= p + u + e);
            (p, e)
        }
    }
}

/// The first line of a non-empty text is the text before its first line
/// break, without a `\r` ending it: it holds no line break, and the text is
/// the line, then the break `after` it (`\n` or `\r\n`, the line then not
/// ending with `\r`), then the `rest`; or the whole text, with no break.
pub proof fn lemma_first_line_is_the_first_line(s: Seq<char>) -> (parts: (Seq<char>, Seq<char>))
    requires
        s.len() > 0,
    ensures
        forall|i: int| 0 <= i < first_line(s).len() ==> first_line(s)[i] != '\n',
        s == first_line(s) + parts.0 + parts.1,
        (parts.0.len() == 0 && parts.1.len() == 0) || parts.0 == seq!['\n'] || parts.0 == seq!['\r', '\n'],
        parts.0 == seq!['\n'] ==> !(first_line(s).len() > 0 && first_line(s).last() == '\r'),
{
    lemma_line_end(s);
    let k = line_end(s);
    let l = first_line(s);
    if k == s.len() {
        let e = Seq::<char>::empty();
        let r = Seq::<char>::empty();
        assert(s =~= l + e + r);
        (e, r)
    } else {
        let u = s.subrange(0, k as int);
        let r = s.subrange(k as int + 1, s.len() as int);
        assert(forall|i: int| 0 <= i < u.len() ==> u[i] == s[i]);
        if u.len() > 0 && u.last() == '\r' {
            let e = seq!['\r', '\n'];
            assert(l == u.drop_last());
            assert(s =~= l + e + r);
            assert(forall|i: int| 0 <= i < l.len() ==> l[i] == u[i]);
            assert(e != seq!['\n']) by {
                assert(e.len() != seq!['\n'].len());
            }
            (e, r)
        } else {
            let e = seq!['\n'];
            assert(l == u);
            assert(s =~= l + e + r);
            (e, r)
        }
    }
}

/// The bytes that the standard Base64 alphabet (with padding) decodes `text`
/// to, or `None` when `text` is not valid Base64.
pub uninterp spec fn base64_standard_decode(text: Seq<char>) -> Option<Seq<u8>>;

/// Calls `base64::engine::general_purpose::STANDARD.decode` on the bytes of
/// `text`; the contract claims that the result is a function of `text`,
/// named `base64_standard_decode`, and nothing of its bytes.
#[verifier::external_body]
fn base64_decode(text: &str) -> (r: Option<Vec<u8>>)
    ensures
        match r {
            Some(v) => base64_standard_decode(text@) == Some(v@),
            None => base64_standard_decode(text@) is None,
        },
{
    match base64::engine::general_purpose::STANDARD.decode(text) {
        Ok(bytes) => Some(bytes),
        Err(_) => None,
    }
}

/// A message read from the browser while recording, as far as the recorder
/// looks at it.
#[derive(Debug, Clone)]
pub struct ScreencastMessage {
    /// The `method` field, if it is a string.
    pub method: Option<String>,
    /// Whether the message has a `params` field.
    pub has_params: bool,
    /// `params.sessionId`, if it is an integer.
    pub session_id: Option<i64>,
    /// `params.data`, if it is a string.
    pub data: Option<String>,
}

/// The recorder's state between messages.
#[derive(Debug, Clone)]
pub struct RecorderState {
    pub frames_written: u64,
    /// When the last frame was kept, in milliseconds since the start.
    pub last_emit_ms: Option<u64>,
    /// What stopped the capture early, if anything.
    pub capture_error: Option<String>,
}

pub open spec fn is_frame_method(m: Option<String>) -> bool {
    m matches Some(s) && s@ == "Page.screencastFrame"@
}

/// The recorder's state before the first message.
pub fn new_recorder() -> (s: RecorderState)
    ensures
        s.frames_written == 0,
        s.last_emit_ms is None,
        s.capture_error is None,
{
    RecorderState { frames_written: 0, last_emit_ms: None, capture_error: None }
}

/// Whether `msg` is a screencast frame with parameters.
pub open spec fn is_frame(msg: ScreencastMessage) -> bool {
    is_frame_method(msg.method) && msg.has_params
}

/// The screencast session id with which a message is acknowledged: every
/// screencast frame is, with its `sessionId` or else 0; other messages are
/// not (`None`), and the recorder skips them.
pub fn frame_ack_session(msg: &ScreencastMessage) -> (r: Option<i64>)
    ensures
        is_frame(*msg) ==> r == Some(
            match msg.session_id {
                Some(i) => i,
                None => 0i64,
            },
        ),
        !is_frame(*msg) ==> r is None,
{
    let frame = match &msg.method {
        Some(m) => crate::text::str_eq(m.as_str(), "Page.screencastFrame"),
        None => false,
    };
    if !frame || !msg.has_params {
        return None;
    }
    match msg.session_id {
        Some(i) => Some(i),
        None => Some(0),
    }
}

/// What the recorder keeps of an acknowledged frame that arrives `now_ms`
/// after the start: the frame is kept when it is the first or `rate_allows`
/// (the frame-rate limit lets it through); a kept frame is written when its
/// data decodes as Base64, and the result is the JPEG image to write.
pub fn take_frame(state: &mut RecorderState, msg: &ScreencastMessage, now_ms: u64, rate_allows: bool) -> (r: Option<Vec<u8>>)
    requires
        is_frame(*msg),
    ensures
        ({
            let kept = old(state).last_emit_ms is None || rate_allows;
            &&& final(state).frames_written == old(state).frames_written
            &&& final(state).capture_error == old(state).capture_error
            &&& final(state).last_emit_ms == if kept {
                Some(now_ms)
            } else {
                old(state).last_emit_ms
            }
            &&& match r {
                Some(bytes) => kept && (msg.data matches Some(t) && base64_standard_decode(t@) == Some(bytes@)),
                None => !(kept && (msg.data matches Some(t) && base64_standard_decode(t@) is Some)),
            }
        }),
{
    match state.last_emit_ms {
        Some(_) => {
            if !rate_allows {
                return None;
            }
        },
        None => {},
    }
    state.last_emit_ms = Some(now_ms);
    match &msg.data {
        Some(text) => base64_decode(text.as_str()),
        None => None,
    }
}

/// After a frame was handed to ffmpeg: count it, or, when writing failed,
/// remember why and stop capturing (the result is whether to go on).
pub fn on_frame_written(state: &mut RecorderState, write_error: Option<String>) -> (go_on: bool)
    requires
        old(state).frames_written < u64::MAX,
    ensures
        final(state).last_emit_ms == old(state).last_emit_ms,
        go_on == write_error is None,
        match write_error {
            None => final(state).frames_written == old(state).frames_written + 1
                && final(state).capture_error == old(state).capture_error,
            Some(e) => {
                &&& final(state).frames_written == old(state).frames_written
                &&& final(state).capture_error matches Some(m)
                &&& m@ == "Failed to write frame to ffmpeg: "@ + e@
            },
        },
{
    match write_error {
        None => {
            state.frames_written = state.frames_written + 1;
            true
        },
        Some(e) => {
            let mut m = String::from_str("Failed to write frame to ffmpeg: ");
            m.append(e.as_str());
            state.capture_error = Some(m);
            false
        },
    }
}

/// After reading from the browser failed: remember why; capturing stops.
pub fn on_read_error(state: &mut RecorderState, error: &str)
    ensures
        final(state).frames_written == old(state).frames_written,
        final(state).last_emit_ms == old(state).last_emit_ms,
        final(state).capture_error matches Some(m) && m@ == "WebSocket error during recording: "@
            + error@,
{
    let mut m = String::from_str("WebSocket error during recording: ");
    m.append(error);
    state.capture_error = Some(m);
}

/// When nothing was captured, the error that ends the recording (the capture
/// error if there was one); `None` when frames were written and ffmpeg is to
/// finish the video.
pub fn no_frames_error(state: &RecorderState) -> (r: Option<String>)
    ensures
        state.frames_written > 0 ==> r is None,
        state.frames_written == 0 ==> (r matches Some(m) && match state.capture_error {
            Some(e) => m@ == e@,
            None => m@
                == "No frames captured during recording — the page may not be visible or screencast may not be supported"@,
        }),
{
    if state.frames_written > 0 {
        return None;
    }
    match &state.capture_error {
        Some(e) => Some(e.clone()),
        None => Some(
            String::from_str(
                "No frames captured during recording — the page may not be visible or screencast may not be supported",
            ),
        ),
    }
}

/// How ffmpeg ended; `S` is the string type.
#[derive(Debug, Clone)]
pub enum FfmpegExit<S> {
    /// Waiting for ffmpeg failed; holds the reason.
    WaitFailed(S),
    /// ffmpeg exited with this status text and standard error.
    Exited { success: bool, status: S, stderr: S },
}

/// The summary of a saved video.
pub open spec fn saved_message(output: Seq<char>, frames: u64, duration_secs: u64, file_size: u64) -> Seq<char> {
    "Video saved to "@ + output + " ("@ + decimal(frames as nat) + " frames, "@ + decimal(
        duration_secs as nat,
    ) + "s, "@ + decimal(file_size as nat) + " bytes)"@
}

/// Why a recording failed once ffmpeg ended: ffmpeg's failure first, then
/// an early stop of the capture; `None` when the video was saved.
pub fn recording_error(state: &RecorderState, ffmpeg: &FfmpegExit<String>) -> (r: Option<String>)
    ensures
        match *ffmpeg {
            FfmpegExit::WaitFailed(e) => r matches Some(m) && m@ == "Failed to wait for ffmpeg: "@ + e@,
            FfmpegExit::Exited { success, status, stderr } => if !success {
                r matches Some(m) && m@ == "ffmpeg exited with status "@ + status@ + ": "@ + match last_line(stderr@) {
                    Some(l) => l,
                    None => "unknown error"@,
                }
            } else {
                match state.capture_error {
                    Some(e) => r matches Some(m) && m@ == e@,
                    None => r is None,
                }
            },
        },
{
    match ffmpeg {
        FfmpegExit::WaitFailed(e) => {
            let mut m = String::from_str("Failed to wait for ffmpeg: ");
            m.append(e.as_str());
            Some(m)
        },
        FfmpegExit::Exited { success, status, stderr } => {
            if !*success {
                let mut m = String::from_str("ffmpeg exited with status ");
                m.append(status.as_str());
                m.append(": ");
                match last_line_of(stderr.as_str()) {
                    Some(l) => m.append(l.as_str()),
                    None => m.append("unknown error"),
                }
                return Some(m);
            }
            match &state.capture_error {
                Some(e) => Some(e.clone()),
                None => None,
            }
        },
    }
}

/// The summary of a saved video of `frames` frames and `duration_secs`
/// seconds, `file_size` bytes long, at `output`.
pub fn saved_summary(output: &str, frames: u64, duration_secs: u64, file_size: u64) -> (m: String)
    ensures
        m@ == saved_message(output@, frames, duration_secs, file_size),
{
    let mut m = String::from_str("Video saved to ");
    m.append(output);
    m.append(" (");
    let f = u64_to_string(frames);
    m.append(f.as_str());
    m.append(" frames, ");
    let secs = u64_to_string(duration_secs);
    m.append(secs.as_str());
    m.append("s, ");
    let size = u64_to_string(file_size);
    m.append(size.as_str());
    m.append(" bytes)");
    m
}

/// The read timeout of the capture, in nanoseconds, when `elapsed_ns` have
/// passed of a recording of `duration_secs` seconds: `None` once the recording
/// time is up, else the time left but at most one frame interval.
pub open spec fn read_timeout_ns(elapsed_ns: u128, duration_secs: u64, frame_interval_ms: u64) -> Option<nat> {
    let duration_ns = duration_secs * 1_000_000_000;
    let interval_ns = frame_interval_ms * 1_000_000;
    if elapsed_ns >= duration_ns {
        None
    } else if duration_ns - elapsed_ns < interval_ns {
        Some((duration_ns - elapsed_ns) as nat)
    } else {
        Some(interval_ns as nat)
    }
}

/// How long the capture waits for the next message, as whole seconds and
/// the nanoseconds beyond them (`Duration::new`'s arguments), when
/// `elapsed_ns` have passed of a recording of `duration_secs` seconds; `None`
/// once the recording time is up.
pub fn next_read_timeout(elapsed_ns: u128, duration_secs: u64, frame_interval_ms: u64) -> (r: Option<(u64, u32)>)
    ensures
        match read_timeout_ns(elapsed_ns, duration_secs, frame_interval_ms) {
            None => r is None,
            Some(t) => r matches Some(p) && p.1 < 1_000_000_000 && p.0 * 1_000_000_000 + p.1 == t,
        },
{
    let duration_ns: u128 = (duration_secs as u128) * 1_000_000_000;
    let interval_ns: u128 = (frame_interval_ms as u128) * 1_000_000;
    if elapsed_ns >= duration_ns {
        return None;
    }
    let t: u128 = if duration_ns - elapsed_ns < interval_ns {
        duration_ns - elapsed_ns
    } else {
        interval_ns
    };
    let secs: u128 = t / 1_000_000_000;
    let nanos: u128 = t % 1_000_000_000;
    assert(secs <= u64::MAX) by {
        assert(t <= duration_ns || t <= interval_ns);
    }
    assert(secs * 1_000_000_000 + nanos == t);
    Some((secs as u64, nanos as u32))
}

impl View for FfmpegExit<String> {
    type V = FfmpegExit<Seq<char>>;

    open spec fn view(&self) -> FfmpegExit<Seq<char>> {
        match self {
            FfmpegExit::WaitFailed(e) => FfmpegExit::WaitFailed(e@),
            FfmpegExit::Exited { success, status, stderr } => FfmpegExit::Exited {
                success: *success,
                status: status@,
                stderr: stderr@,
            },
        }
    }
}

/// The error that ends a recording without frames: the capture error if
/// there was one; `None` when frames were written.
pub open spec fn no_frames_spec(frames: u64, capture_error: Option<Seq<char>>) -> Option<Seq<char>> {
    if frames > 0 {
        None
    } else {
        match capture_error {
            Some(e) => Some(e),
            None => Some(
                "No frames captured during recording — the page may not be visible or screencast may not be supported"@,
            ),
        }
    }
}

/// Why a recording failed once ffmpeg ended, `None` when the video was saved.
pub open spec fn ffmpeg_failure(capture_error: Option<Seq<char>>, exit: FfmpegExit<Seq<char>>) -> Option<Seq<char>> {
    match exit {
        FfmpegExit::WaitFailed(e) => Some("Failed to wait for ffmpeg: "@ + e),
        FfmpegExit::Exited { success, status, stderr } => if !success {
            Some(
                "ffmpeg exited with status "@ + status + ": "@ + match last_line(stderr) {
                    Some(l) => l,
                    None => "unknown error"@,
                },
            )
        } else {
            capture_error
        },
    }
}

/// Where a recording stands.
#[derive(Debug, Clone, Copy, PartialEq, Eq, Structural)]
pub enum RecordStage {
    /// The parameters are checked.
    Checking,
    /// ffmpeg is looked up in `PATH`.
    LookingUp,
    /// The screencast is started.
    Starting,
    /// ffmpeg is started.
    Spawning,
    /// ffmpeg's standard input is taken.
    Opening,
    /// Frames are captured until the time is up or capturing fails.
    Capturing,
    /// The screencast is stopped and ffmpeg's input closed.
    Stopping,
    /// ffmpeg finishes the video.
    Waiting,
    /// The video's size is read.
    Sizing,
    /// The recording is over.
    Done,
}

/// What a recording meets; `S` is the string type.
#[derive(Debug, Clone)]
pub enum RecordEvent<S> {
    /// The recording begins.
    Begin,
    /// Looking ffmpeg up found this path, or none.
    FfmpegLookedUp(Option<S>),
    /// The screencast started.
    ScreencastStarted,
    /// Starting the screencast failed for this reason.
    ScreencastFailed(S),
    /// ffmpeg started.
    FfmpegSpawned,
    /// Starting ffmpeg failed for this reason.
    SpawnFailed(S),
    /// Whether ffmpeg's standard input could be taken.
    StdinOpened(bool),
    /// The capture loop ended.
    CaptureEnded,
    /// The screencast was stopped (whatever the browser answered).
    ScreencastStopped,
    /// ffmpeg ended.
    FfmpegEnded(FfmpegExit<S>),
    /// The video file is this many bytes long.
    FileSized(u64),
}

/// What a recording does next; `S` is the string type.
#[derive(Debug, Clone)]
pub enum RecordAction<S> {
    LookUpFfmpeg,
    StartScreencast,
    SpawnFfmpeg,
    OpenStdin,
    /// Capture frames until the time is up or capturing fails.
    Capture,
    /// Stop the screencast, then close ffmpeg's input.
    StopScreencastAndCloseInput,
    WaitForFfmpeg,
    ReadFileSize,
    /// End with this error.
    Fail(S),
    /// Stop the screencast, then end with this error.
    StopScreencastAndFail(S),
    /// Kill ffmpeg and wait for it, then end with this error.
    KillFfmpegAndFail(S),
    /// End with this summary.
    Succeed(S),
}

impl View for RecordEvent<String> {
    type V = RecordEvent<Seq<char>>;

    open spec fn view(&self) -> RecordEvent<Seq<char>> {
        match self {
            RecordEvent::Begin => RecordEvent::Begin,
            RecordEvent::FfmpegLookedUp(p) => RecordEvent::FfmpegLookedUp(opt_string_view(*p)),
            RecordEvent::ScreencastStarted => RecordEvent::ScreencastStarted,
            RecordEvent::ScreencastFailed(e) => RecordEvent::ScreencastFailed(e@),
            RecordEvent::FfmpegSpawned => RecordEvent::FfmpegSpawned,
            RecordEvent::SpawnFailed(e) => RecordEvent::SpawnFailed(e@),
            RecordEvent::StdinOpened(b) => RecordEvent::StdinOpened(*b),
            RecordEvent::CaptureEnded => RecordEvent::CaptureEnded,
            RecordEvent::ScreencastStopped => RecordEvent::ScreencastStopped,
            RecordEvent::FfmpegEnded(x) => RecordEvent::FfmpegEnded(x@),
            RecordEvent::FileSized(n) => RecordEvent::FileSized(*n),
        }
    }
}

impl View for RecordAction<String> {
    type V = RecordAction<Seq<char>>;

    open spec fn view(&self) -> RecordAction<Seq<char>> {
        match self {
            RecordAction::LookUpFfmpeg => RecordAction::LookUpFfmpeg,
            RecordAction::StartScreencast => RecordAction::StartScreencast,
            RecordAction::SpawnFfmpeg => RecordAction::SpawnFfmpeg,
            RecordAction::OpenStdin => RecordAction::OpenStdin,
            RecordAction::Capture => RecordAction::Capture,
            RecordAction::StopScreencastAndCloseInput => RecordAction::StopScreencastAndCloseInput,
            RecordAction::WaitForFfmpeg => RecordAction::WaitForFfmpeg,
            RecordAction::ReadFileSize => RecordAction::ReadFileSize,
            RecordAction::Fail(m) => RecordAction::Fail(m@),
            RecordAction::StopScreencastAndFail(m) => RecordAction::StopScreencastAndFail(m@),
            RecordAction::KillFfmpegAndFail(m) => RecordAction::KillFfmpegAndFail(m@),
            RecordAction::Succeed(m) => RecordAction::Succeed(m@),
        }
    }
}

/// Whether `event` can follow `stage`.
pub open spec fn record_event_fits(stage: RecordStage, event: RecordEvent<Seq<char>>) -> bool {
    match stage {
        RecordStage::Checking => event is Begin,
        RecordStage::LookingUp => event is FfmpegLookedUp,
        RecordStage::Starting => event is ScreencastStarted || event is ScreencastFailed,
        RecordStage::Spawning => event is FfmpegSpawned || event is SpawnFailed,
        RecordStage::Opening => event is StdinOpened,
        RecordStage::Capturing => event is CaptureEnded,
        RecordStage::Stopping => event is ScreencastStopped,
        RecordStage::Waiting => event is FfmpegEnded,
        RecordStage::Sizing => event is FileSized,
        RecordStage::Done => false,
    }
}

/// How far a recording has come; every step moves it on.
pub open spec fn record_rank(stage: RecordStage) -> nat {
    match stage {
        RecordStage::Checking => 0,
        RecordStage::LookingUp => 1,
        RecordStage::Starting => 2,
        RecordStage::Spawning => 3,
        RecordStage::Opening => 4,
        RecordStage::Capturing => 5,
        RecordStage::Stopping => 6,
        RecordStage::Waiting => 7,
        RecordStage::Sizing => 8,
        RecordStage::Done => 9,
    }
}

/// One step of a recording of `params` whose capture has reached `state`:
/// the parameters are checked before ffmpeg is looked up; the screencast
/// starts before ffmpeg, and is stopped when ffmpeg cannot start; after the
/// capture, the screencast is stopped once, and then a recording without
/// frames kills ffmpeg, while one with frames waits for ffmpeg, reports its
/// failure or the capture's, and otherwise sums the video up.
pub open spec fn record_step_spec(
    stage: RecordStage,
    event: RecordEvent<Seq<char>>,
    output: Seq<char>,
    duration_secs: u64,
    fps: u32,
    quality: u32,
    frames: u64,
    capture_error: Option<Seq<char>>,
) -> (RecordStage, RecordAction<Seq<char>>) {
    match (stage, event) {
        (RecordStage::Checking, RecordEvent::Begin) => match params_problem(duration_secs, fps, quality) {
            Some(e) => (RecordStage::Done, RecordAction::Fail(record_error_message(e))),
            None => (RecordStage::LookingUp, RecordAction::LookUpFfmpeg),
        },
        (RecordStage::LookingUp, RecordEvent::FfmpegLookedUp(found)) => match found {
            Some(_) => (RecordStage::Starting, RecordAction::StartScreencast),
            None => (
                RecordStage::Done,
                RecordAction::Fail(record_error_message(RecordVideoError::FfmpegNotFound)),
            ),
        },
        (RecordStage::Starting, RecordEvent::ScreencastStarted) => (
            RecordStage::Spawning,
            RecordAction::SpawnFfmpeg,
        ),
        (RecordStage::Starting, RecordEvent::ScreencastFailed(e)) => (
            RecordStage::Done,
            RecordAction::Fail(e),
        ),
        (RecordStage::Spawning, RecordEvent::FfmpegSpawned) => (
            RecordStage::Opening,
            RecordAction::OpenStdin,
        ),
        (RecordStage::Spawning, RecordEvent::SpawnFailed(e)) => (
            RecordStage::Done,
            RecordAction::StopScreencastAndFail("Failed to start ffmpeg: "@ + e),
        ),
        (RecordStage::Opening, RecordEvent::StdinOpened(opened)) => if opened {
            (RecordStage::Capturing, RecordAction::Capture)
        } else {
            (RecordStage::Done, RecordAction::Fail("Failed to open ffmpeg stdin"@))
        },
        (RecordStage::Capturing, RecordEvent::CaptureEnded) => (
            RecordStage::Stopping,
            RecordAction::StopScreencastAndCloseInput,
        ),
        (RecordStage::Stopping, RecordEvent::ScreencastStopped) => match no_frames_spec(
            frames,
            capture_error,
        ) {
            Some(m) => (RecordStage::Done, RecordAction::KillFfmpegAndFail(m)),
            None => (RecordStage::Waiting, RecordAction::WaitForFfmpeg),
        },
        (RecordStage::Waiting, RecordEvent::FfmpegEnded(x)) => match ffmpeg_failure(capture_error, x) {
            Some(m) => (RecordStage::Done, RecordAction::Fail(m)),
            None => (RecordStage::Sizing, RecordAction::ReadFileSize),
        },
        (RecordStage::Sizing, RecordEvent::FileSized(n)) => (
            RecordStage::Done,
            RecordAction::Succeed(saved_message(output, frames, duration_secs, n)),
        ),
        _ => (RecordStage::Done, RecordAction::Fail(Seq::empty())),
    }
}

/// One step of recording `params`, whose capture has reached `state`.
pub fn record_step(
    stage: RecordStage,
    event: &RecordEvent<String>,
    params: &RecordVideoParams,
    state: &RecorderState,
) -> (r: (RecordStage, RecordAction<String>))
    requires
        record_event_fits(stage, event@),
    ensures
        (r.0, r.1@) == record_step_spec(
            stage,
            event@,
            params.output@,
            params.duration_secs,
            params.fps,
            params.quality,
            state.frames_written,
            opt_string_view(state.capture_error),
        ),
        record_rank(r.0) > record_rank(stage),
{
    match stage {
        RecordStage::Checking => match validate_record_video_params(params) {
            Err(e) => (RecordStage::Done, RecordAction::Fail(e.message())),
            Ok(()) => (RecordStage::LookingUp, RecordAction::LookUpFfmpeg),
        },
        RecordStage::LookingUp => match event {
            RecordEvent::FfmpegLookedUp(Some(_)) => (RecordStage::Starting, RecordAction::StartScreencast),
            _ => (RecordStage::Done, RecordAction::Fail(RecordVideoError::FfmpegNotFound.message())),
        },
        RecordStage::Starting => match event {
            RecordEvent::ScreencastFailed(e) => (RecordStage::Done, RecordAction::Fail(e.clone())),
            _ => (RecordStage::Spawning, RecordAction::SpawnFfmpeg),
        },
        RecordStage::Spawning => match event {
            RecordEvent::SpawnFailed(e) => {
                let mut m = String::from_str("Failed to start ffmpeg: ");
                m.append(e.as_str());
                (RecordStage::Done, RecordAction::StopScreencastAndFail(m))
            },
            _ => (RecordStage::Opening, RecordAction::OpenStdin),
        },
        RecordStage::Opening => match event {
            RecordEvent::StdinOpened(true) => (RecordStage::Capturing, RecordAction::Capture),
            _ => (RecordStage::Done, RecordAction::Fail(String::from_str("Failed to open ffmpeg stdin"))),
        },
        RecordStage::Capturing => (RecordStage::Stopping, RecordAction::StopScreencastAndCloseInput),
        RecordStage::Stopping => match no_frames_error(state) {
            Some(m) => (RecordStage::Done, RecordAction::KillFfmpegAndFail(m)),
            None => (RecordStage::Waiting, RecordAction::WaitForFfmpeg),
        },
        RecordStage::Waiting => match event {
            RecordEvent::FfmpegEnded(x) => match recording_error(state, x) {
                Some(m) => (RecordStage::Done, RecordAction::Fail(m)),
                None => (RecordStage::Sizing, RecordAction::ReadFileSize),
            },
            _ => (RecordStage::Done, RecordAction::Fail(String::new())),
        },
        RecordStage::Sizing => match event {
            RecordEvent::FileSized(n) => (
                RecordStage::Done,
                RecordAction::Succeed(
                    saved_summary(params.output.as_str(), state.frames_written, params.duration_secs, *n),
                ),
            ),
            _ => (RecordStage::Done, RecordAction::Fail(String::new())),
        },
        RecordStage::Done => (RecordStage::Done, RecordAction::Fail(String::new())),
    }
}


/// The order of a recording: bad parameters end it before ffmpeg is looked
/// up; without ffmpeg nothing starts; the screencast starts before ffmpeg and
/// is stopped when ffmpeg cannot start; the screencast is stopped after the
/// capture and at no other step of a recording that got that far; without a
/// frame, ffmpeg is killed rather than waited for; a summary comes only once
/// the video's size is known.
pub proof fn lemma_recording_order(
    stage: RecordStage,
    event: RecordEvent<Seq<char>>,
    output: Seq<char>,
    duration_secs: u64,
    fps: u32,
    quality: u32,
    frames: u64,
    capture_error: Option<Seq<char>>,
)
    requires
        record_event_fits(stage, event),
    ensures
        ({
            let (next, action) = record_step_spec(
                stage,
                event,
                output,
                duration_secs,
                fps,
                quality,
                frames,
                capture_error,
            );
            &&& stage == RecordStage::Checking ==> (action is LookUpFfmpeg <==> (duration_secs > 0 && 1 <= fps
                <= 1000 && 1 <= quality <= 100))
            &&& stage == RecordStage::Checking ==> (action is LookUpFfmpeg || (action is Fail && next
                == RecordStage::Done))
            &&& event == RecordEvent::<Seq<char>>::FfmpegLookedUp(None) ==> (action is Fail && next
                == RecordStage::Done)
            &&& action is StartScreencast ==> stage == RecordStage::LookingUp
            &&& action is SpawnFfmpeg ==> stage == RecordStage::Starting && event is ScreencastStarted
            &&& (event matches RecordEvent::SpawnFailed(e) ==> action == RecordAction::StopScreencastAndFail(
                "Failed to start ffmpeg: "@ + e,
            ))
            &&& action is StopScreencastAndCloseInput <==> stage == RecordStage::Capturing
            &&& action is StopScreencastAndFail ==> stage == RecordStage::Spawning
            &&& stage == RecordStage::Stopping ==> (frames == 0 ==> action is KillFfmpegAndFail) && (frames
                > 0 ==> action is WaitForFfmpeg)
            &&& action is Succeed ==> stage == RecordStage::Sizing && event is FileSized
        }),
{
}

} // verus!
