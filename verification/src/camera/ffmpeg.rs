use crate::camera::device::{input_spec, opt_str, resolve_input_spec, Platform, SetupError, SetupFault};
use crate::frame::frame::{rgb_frame_len, saturating_product};
use crate::text::{
    decimal, join_first, lines_of, occurs_in, push_decimal, str_contains, str_eq, strings_chars,
    joined, text_lines, trimmed_starts_with, leading_white_space,
};
use vstd::prelude::*;

verus! {

/// What a capture session is asked to produce.
pub struct CaptureConfig<'a> {
    pub width: u32,
    pub height: u32,
    pub fps: u32,
    pub pix_fmt: &'a str,
    pub device: Option<String>,
}

/// Whether to go on reading frames after one has been handled.
#[derive(Clone, Copy, Debug, PartialEq, Eq, Structural)]
pub enum CaptureLoopControl {
    Continue,
    Stop,
}

/// How a capture session ended: how many frames it delivered, and whether the user stopped it.
#[derive(Clone, Copy, Debug, PartialEq, Eq, Structural)]
pub struct CaptureSessionOutcome {
    pub frames: u64,
    pub stopped_by_user: bool,
}

/// What happened to the last read of a capture session: a frame was read and handled with
/// the given answer, its handler failed, the stream ended, or the read failed.
#[derive(Clone, Copy, Debug, PartialEq, Eq, Structural)]
pub enum SessionEvent {
    Handled(CaptureLoopControl),
    HandlerFailed,
    EndOfStream,
    ReadFailed,
}

/// What a capture session does next: read another frame, end with an outcome, or end with
/// the error; `stop_ffmpeg` says whether ffmpeg is killed before it is waited for.
#[derive(Clone, Copy, Debug, PartialEq, Eq, Structural)]
pub enum SessionStep {
    ReadNext { frames: u64 },
    Finish { outcome: CaptureSessionOutcome, stop_ffmpeg: bool },
    Abort { stop_ffmpeg: bool },
}

/// The step after `event`, when the session has delivered `frames` frames before it.
pub open spec fn next_session_step(frames: u64, event: SessionEvent) -> SessionStep {
    match event {
        SessionEvent::Handled(CaptureLoopControl::Continue) => SessionStep::ReadNext { frames: (frames + 1) as u64 },
        SessionEvent::Handled(CaptureLoopControl::Stop) => SessionStep::Finish {
            outcome: CaptureSessionOutcome { frames: (frames + 1) as u64, stopped_by_user: true },
            stop_ffmpeg: true,
        },
        SessionEvent::HandlerFailed => SessionStep::Abort { stop_ffmpeg: false },
        SessionEvent::EndOfStream => SessionStep::Finish {
            outcome: CaptureSessionOutcome { frames, stopped_by_user: false },
            stop_ffmpeg: false,
        },
        SessionEvent::ReadFailed => SessionStep::Abort { stop_ffmpeg: true },
    }
}

/// Decides what a capture session does after a read: a handled frame is counted; the user's
/// stop ends the session, stopping ffmpeg; the end of the stream ends it as it is; a failed
/// read stops ffmpeg and ends with the error; a failed handler ends with its error at once.
pub fn session_step(frames: u64, event: SessionEvent) -> (r: SessionStep)
    requires
        event is Handled ==> frames < u64::MAX,
    ensures
        r == next_session_step(frames, event),
{
    match event {
        SessionEvent::Handled(CaptureLoopControl::Continue) => SessionStep::ReadNext { frames: frames + 1 },
        SessionEvent::Handled(CaptureLoopControl::Stop) => SessionStep::Finish {
            outcome: CaptureSessionOutcome { frames: frames + 1, stopped_by_user: true },
            stop_ffmpeg: true,
        },
        SessionEvent::HandlerFailed => SessionStep::Abort { stop_ffmpeg: false },
        SessionEvent::EndOfStream => SessionStep::Finish {
            outcome: CaptureSessionOutcome { frames, stopped_by_user: false },
            stop_ffmpeg: false,
        },
        SessionEvent::ReadFailed => SessionStep::Abort { stop_ffmpeg: true },
    }
}

/// The message for a pixel format the renderer cannot read.
pub open spec fn pix_fmt_message(pix_fmt: Seq<char>) -> Seq<char> {
    "Unsupported pix_fmt '"@ + pix_fmt + "'. Current renderer expects rgb24."@
}

/// The byte size of one frame: only `rgb24` frames are read, three bytes a pixel.
pub open spec fn frame_bytes(width: u32, height: u32, pix_fmt: Seq<char>) -> Result<int, SetupFault> {
    if pix_fmt != "rgb24"@ {
        Err(SetupFault::InvalidInput(pix_fmt_message(pix_fmt)))
    } else {
        Ok(rgb_frame_len(width, height))
    }
}

/// The byte size of one frame of the session.
pub fn frame_size(config: &CaptureConfig<'_>) -> (r: Result<usize, SetupError>)
    ensures
        match frame_bytes(config.width, config.height, config.pix_fmt@) {
            Ok(n) => r matches Ok(m) && m == n,
            Err(f) => r matches Err(e) && e@ == f,
        },
{
    if !str_eq(config.pix_fmt, "rgb24") {
        let mut m = String::from_str("Unsupported pix_fmt '");
        m.append(config.pix_fmt);
        m.append("'. Current renderer expects rgb24.");
        proof {
            assert(m@ =~= pix_fmt_message(config.pix_fmt@));
        }
        return Err(SetupError::InvalidInput(m));
    }
    Ok(saturating_product(saturating_product(config.width as usize, config.height as usize), 3))
}

/// The decimal text of `n`.
pub fn decimal_string(n: u64) -> (s: String)
    ensures
        s@ == decimal(n as nat),
{
    let mut s = String::new();
    push_decimal(&mut s, n);
    s
}

/// `width` and `height` written as `WxH`.
pub open spec fn size_text(width: u32, height: u32) -> Seq<char> {
    decimal(width as nat) + seq!['x'] + decimal(height as nat)
}

/// The ffmpeg arguments that open the camera on `platform`.
pub open spec fn input_args_for(
    platform: Platform,
    width: u32,
    height: u32,
    fps: u32,
    device: Option<Seq<char>>,
) -> Result<Seq<Seq<char>>, SetupFault> {
    match input_spec(platform, device) {
        Err(f) => Err(f),
        Ok(spec) => {
            let tail = seq![
                "-framerate"@,
                decimal(fps as nat),
                "-video_size"@,
                size_text(width, height),
                "-i"@,
                spec,
            ];
            match platform {
                Platform::MacOs => Ok(
                    seq!["-f"@, "avfoundation"@, "-pixel_format"@, "nv12"@] + tail,
                ),
                Platform::Linux => Ok(seq!["-f"@, "v4l2"@] + tail),
                _ => Ok(seq!["-f"@, "dshow"@] + tail),
            }
        },
    }
}

fn push_str_arg(args: &mut Vec<String>, a: &str)
    ensures
        strings_chars(final(args)@) == strings_chars(old(args)@).push(a@),
{
    args.push(a.to_owned());
    assert(strings_chars(args@) =~= strings_chars(old(args)@).push(a@));
}

fn push_arg(args: &mut Vec<String>, a: String)
    ensures
        strings_chars(final(args)@) == strings_chars(old(args)@).push(a@),
{
    let ghost v = a@;
    args.push(a);
    assert(strings_chars(args@) =~= strings_chars(old(args)@).push(v));
}

/// The ffmpeg arguments that open the camera.
pub fn input_args(platform: Platform, config: &CaptureConfig<'_>) -> (r: Result<Vec<String>, SetupError>)
    ensures
        match input_args_for(platform, config.width, config.height, config.fps, opt_chars_of(config.device)) {
            Ok(a) => r matches Ok(v) && strings_chars(v@) == a,
            Err(f) => r matches Err(e) && e@ == f,
        },
{
    let device = match &config.device {
        Some(d) => Some(d.as_str()),
        None => None,
    };
    assert(opt_str(device) == opt_chars_of(config.device));
    let spec = match resolve_input_spec(platform, device) {
        Ok(s) => s,
        Err(e) => {
            return Err(e);
        },
    };
    let mut args: Vec<String> = Vec::new();
    match platform {
        Platform::MacOs => {
            push_str_arg(&mut args, "-f");
            push_str_arg(&mut args, "avfoundation");
            push_str_arg(&mut args, "-pixel_format");
            push_str_arg(&mut args, "nv12");
        },
        Platform::Linux => {
            push_str_arg(&mut args, "-f");
            push_str_arg(&mut args, "v4l2");
        },
        _ => {
            push_str_arg(&mut args, "-f");
            push_str_arg(&mut args, "dshow");
        },
    }
    let ghost head = strings_chars(args@);
    push_str_arg(&mut args, "-framerate");
    push_arg(&mut args, decimal_string(config.fps as u64));
    push_str_arg(&mut args, "-video_size");
    let mut size = decimal_string(config.width as u64);
    size.append("x");
    push_decimal(&mut size, config.height as u64);
    proof {
        reveal_strlit("x");
        assert(size@ =~= size_text(config.width, config.height));
    }
    push_arg(&mut args, size);
    push_str_arg(&mut args, "-i");
    push_arg(&mut args, spec);
    proof {
        let a = input_args_for(platform, config.width, config.height, config.fps, opt_chars_of(config.device));
        assert(strings_chars(args@) =~= a->Ok_0);
    }
    Ok(args)
}

/// The characters of an optional string.
pub open spec fn opt_chars_of(o: Option<String>) -> Option<Seq<char>> {
    match o {
        Some(s) => Some(s@),
        None => None,
    }
}

/// The ffmpeg arguments that write raw frames of `pix_fmt` at `fps` to standard output.
pub open spec fn output_args_for(pix_fmt: Seq<char>, fps: u32) -> Seq<Seq<char>> {
    seq![
        "-vf"@,
        "fps="@ + decimal(fps as nat),
        "-r"@,
        decimal(fps as nat),
        "-pix_fmt"@,
        pix_fmt,
        "-f"@,
        "rawvideo"@,
        "-"@,
    ]
}

/// The ffmpeg arguments that write raw frames to standard output.
pub fn output_args(pix_fmt: &str, fps: u32) -> (r: Vec<String>)
    ensures
        strings_chars(r@) == output_args_for(pix_fmt@, fps),
{
    let mut args: Vec<String> = Vec::new();
    push_str_arg(&mut args, "-vf");
    let mut rate = String::from_str("fps=");
    push_decimal(&mut rate, fps as u64);
    push_arg(&mut args, rate);
    push_str_arg(&mut args, "-r");
    push_arg(&mut args, decimal_string(fps as u64));
    push_str_arg(&mut args, "-pix_fmt");
    push_str_arg(&mut args, pix_fmt);
    push_str_arg(&mut args, "-f");
    push_str_arg(&mut args, "rawvideo");
    push_str_arg(&mut args, "-");
    assert(strings_chars(args@) =~= output_args_for(pix_fmt@, fps));
    args
}

fn append_args(args: &mut Vec<String>, more: Vec<String>)
    ensures
        strings_chars(final(args)@) == strings_chars(old(args)@) + strings_chars(more@),
{
    let mut i: usize = 0;
    while i < more.len()
        invariant
            i <= more@.len(),
            strings_chars(args@) == strings_chars(old(args)@) + strings_chars(more@).take(i as int),
        decreases more@.len() - i,
    {
        let ghost before = strings_chars(args@);
        args.push(more[i].clone());
        assert(strings_chars(args@) =~= before.push(more@[i as int]@));
        assert(strings_chars(more@).take(i + 1) =~= strings_chars(more@).take(i as int).push(
            more@[i as int]@,
        ));
        i = i + 1;
    }
    assert(strings_chars(more@).take(i as int) =~= strings_chars(more@));
}

/// The full ffmpeg command line of a capture session.
pub open spec fn capture_args_for(platform: Platform, config: CaptureConfig) -> Result<Seq<Seq<char>>, SetupFault> {
    match input_args_for(platform, config.width, config.height, config.fps, opt_chars_of(config.device)) {
        Err(f) => Err(f),
        Ok(input) => Ok(
            seq!["-loglevel"@, "error"@, "-nostdin"@] + input + output_args_for(
                config.pix_fmt@,
                config.fps,
            ),
        ),
    }
}

/// The ffmpeg command line of a capture session: quiet logging, no console input, the camera
/// input, and raw frames on standard output.
pub fn capture_args(platform: Platform, config: &CaptureConfig<'_>) -> (r: Result<Vec<String>, SetupError>)
    ensures
        match capture_args_for(platform, *config) {
            Ok(a) => r matches Ok(v) && strings_chars(v@) == a,
            Err(f) => r matches Err(e) && e@ == f,
        },
{
    let mut args: Vec<String> = Vec::new();
    push_str_arg(&mut args, "-loglevel");
    push_str_arg(&mut args, "error");
    push_str_arg(&mut args, "-nostdin");
    let input = match input_args(platform, config) {
        Ok(a) => a,
        Err(e) => {
            return Err(e);
        },
    };
    append_args(&mut args, input);
    append_args(&mut args, output_args(config.pix_fmt, config.fps));
    Ok(args)
}

/// The capture command line opens with the quiet options, names the camera input with `-i`
/// right before the output options, and ends with the raw-frame output on standard output
/// (`-`): every input option comes before every output option.
pub proof fn law_capture_args_order(platform: Platform, config: CaptureConfig)
    requires
        capture_args_for(platform, config) is Ok,
    ensures
        ({
            let a = capture_args_for(platform, config)->Ok_0;
            let n = a.len() as int;
            let dev = input_spec(platform, opt_chars_of(config.device))->Ok_0;
            &&& input_spec(platform, opt_chars_of(config.device)) is Ok
            &&& n >= 20
            &&& a[0] == "-loglevel"@ && a[1] == "error"@ && a[2] == "-nostdin"@
            &&& a[3] == "-f"@
            &&& a[n - 11] == "-i"@ && a[n - 10] == dev
            &&& a[n - 9] == "-vf"@ && a[n - 8] == "fps="@ + decimal(config.fps as nat)
            &&& a[n - 7] == "-r"@ && a[n - 6] == decimal(config.fps as nat)
            &&& a[n - 5] == "-pix_fmt"@ && a[n - 4] == config.pix_fmt@
            &&& a[n - 3] == "-f"@ && a[n - 2] == "rawvideo"@
            &&& a[n - 1] == "-"@
            &&& a.contains("-framerate"@)
            &&& a.contains("-video_size"@)
        }),
{
    let a = capture_args_for(platform, config)->Ok_0;
    let input = input_args_for(platform, config.width, config.height, config.fps, opt_chars_of(config.device))->Ok_0;
    let out = output_args_for(config.pix_fmt@, config.fps);
    let q = seq!["-loglevel"@, "error"@, "-nostdin"@];
    assert(a == q + input + out);
    let li = input.len() as int;
    assert(li >= 8);
    assert(input[li - 2] == "-i"@);
    assert(input[0] == "-f"@);
    let n = a.len() as int;
    assert(n == 3 + li + 9);
    assert(a[n - 11] == input[li - 2]);
    assert(a[n - 10] == input[li - 1]);
    assert(a[3] == input[0]);
    assert(input[li - 6] == "-framerate"@);
    assert(input[li - 4] == "-video_size"@);
    assert(a[3 + li - 6] == "-framerate"@);
    assert(a[3 + li - 4] == "-video_size"@);
}

/// The ffmpeg command line that checks the camera by reading one frame and discarding it.
pub open spec fn preflight_args_for(platform: Platform, config: CaptureConfig) -> Result<Seq<Seq<char>>, SetupFault> {
    match input_args_for(platform, config.width, config.height, config.fps, opt_chars_of(config.device)) {
        Err(f) => Err(f),
        Ok(input) => Ok(
            seq!["-hide_banner"@, "-loglevel"@, "error"@, "-nostdin"@] + input + seq![
                "-frames:v"@,
                "1"@,
                "-f"@,
                "null"@,
                "-"@,
            ],
        ),
    }
}

/// The ffmpeg command line that checks the camera before capture starts.
pub fn preflight_args(platform: Platform, config: &CaptureConfig<'_>) -> (r: Result<Vec<String>, SetupError>)
    ensures
        match preflight_args_for(platform, *config) {
            Ok(a) => r matches Ok(v) && strings_chars(v@) == a,
            Err(f) => r matches Err(e) && e@ == f,
        },
{
    let mut args: Vec<String> = Vec::new();
    push_str_arg(&mut args, "-hide_banner");
    push_str_arg(&mut args, "-loglevel");
    push_str_arg(&mut args, "error");
    push_str_arg(&mut args, "-nostdin");
    let input = match input_args(platform, config) {
        Ok(a) => a,
        Err(e) => {
            return Err(e);
        },
    };
    append_args(&mut args, input);
    let ghost before = strings_chars(args@);
    push_str_arg(&mut args, "-frames:v");
    push_str_arg(&mut args, "1");
    push_str_arg(&mut args, "-f");
    push_str_arg(&mut args, "null");
    push_str_arg(&mut args, "-");
    assert(strings_chars(args@) =~= before + seq!["-frames:v"@, "1"@, "-f"@, "null"@, "-"@]);
    Ok(args)
}


/// The ffmpeg command line that lists cameras (formats of one device, on Linux); none on a
/// platform without camera support.
pub open spec fn list_devices_args_for(platform: Platform, device_hint: Option<Seq<char>>) -> Option<Seq<Seq<char>>> {
    match platform {
        Platform::MacOs => Some(
            seq!["-hide_banner"@, "-f"@, "avfoundation"@, "-list_devices"@, "true"@, "-i"@, ""@],
        ),
        Platform::Windows => Some(
            seq!["-hide_banner"@, "-f"@, "dshow"@, "-list_devices"@, "true"@, "-i"@, "dummy"@],
        ),
        Platform::Linux => Some(
            seq![
                "-hide_banner"@,
                "-f"@,
                "v4l2"@,
                "-list_formats"@,
                "all"@,
                "-i"@,
                match device_hint {
                    Some(d) => d,
                    None => "/dev/video0"@,
                },
            ],
        ),
        Platform::Other => None,
    }
}

/// The ffmpeg command line that lists cameras.
pub fn list_devices_args(platform: Platform, device_hint: Option<&str>) -> (r: Option<Vec<String>>)
    ensures
        match list_devices_args_for(platform, opt_str(device_hint)) {
            Some(a) => r matches Some(v) && strings_chars(v@) == a,
            None => r is None,
        },
{
    let mut args: Vec<String> = Vec::new();
    match platform {
        Platform::MacOs => {
            push_str_arg(&mut args, "-hide_banner");
            push_str_arg(&mut args, "-f");
            push_str_arg(&mut args, "avfoundation");
            push_str_arg(&mut args, "-list_devices");
            push_str_arg(&mut args, "true");
            push_str_arg(&mut args, "-i");
            push_str_arg(&mut args, "");
        },
        Platform::Windows => {
            push_str_arg(&mut args, "-hide_banner");
            push_str_arg(&mut args, "-f");
            push_str_arg(&mut args, "dshow");
            push_str_arg(&mut args, "-list_devices");
            push_str_arg(&mut args, "true");
            push_str_arg(&mut args, "-i");
            push_str_arg(&mut args, "dummy");
        },
        Platform::Linux => {
            push_str_arg(&mut args, "-hide_banner");
            push_str_arg(&mut args, "-f");
            push_str_arg(&mut args, "v4l2");
            push_str_arg(&mut args, "-list_formats");
            push_str_arg(&mut args, "all");
            push_str_arg(&mut args, "-i");
            push_arg(&mut args, crate::camera::device::listing_target(device_hint));
        },
        Platform::Other => {
            return None;
        },
    }
    assert(strings_chars(args@) =~= list_devices_args_for(platform, opt_str(device_hint))->Some_0);
    Some(args)
}

/// Whether a line of ffmpeg's device listing names a camera on `platform`.
pub open spec fn is_device_line(platform: Platform, line: Seq<char>) -> bool {
    match platform {
        Platform::MacOs => occurs_in(line, "AVFoundation indev"@),
        Platform::Windows => {
            ||| occurs_in(line, "dshow"@)
            ||| occurs_in(line, "DirectShow"@)
            ||| ({
                let t = line.skip(leading_white_space(line) as int);
                t.len() > 0 && t[0] == '"'
            })
        },
        _ => true,
    }
}

/// Whether a line of ffmpeg's device listing names a camera.
pub fn device_line(platform: Platform, line: &str) -> (r: bool)
    ensures
        r == is_device_line(platform, line@),
{
    match platform {
        Platform::MacOs => str_contains(line, "AVFoundation indev"),
        Platform::Windows => str_contains(line, "dshow") || str_contains(line, "DirectShow")
            || trimmed_starts_with(line, '"'),
        _ => true,
    }
}

/// The lines among `lines` that name a camera, in order.
pub open spec fn device_lines_of(platform: Platform, lines: Seq<Seq<char>>) -> Seq<Seq<char>>
    decreases lines.len(),
{
    if lines.len() == 0 {
        Seq::empty()
    } else {
        let rest = device_lines_of(platform, lines.drop_last());
        if is_device_line(platform, lines.last()) {
            rest.push(lines.last())
        } else {
            rest
        }
    }
}

/// The lines of ffmpeg's device listing that name a camera, in order.
pub fn device_lines(platform: Platform, stderr: &str) -> (r: Vec<String>)
    ensures
        strings_chars(r@) == device_lines_of(platform, text_lines(stderr@)),
{
    let lines = lines_of(stderr);
    let ghost all = strings_chars(lines@);
    let mut out: Vec<String> = Vec::new();
    let mut i: usize = 0;
    while i < lines.len()
        invariant
            all == strings_chars(lines@),
            i <= lines@.len(),
            strings_chars(out@) == device_lines_of(platform, all.take(i as int)),
        decreases lines@.len() - i,
    {
        assert(all.take(i + 1).drop_last() =~= all.take(i as int));
        assert(all.take(i + 1).last() == lines@[i as int]@);
        if device_line(platform, lines[i].as_str()) {
            push_arg(&mut out, lines[i].clone());
        }
        i = i + 1;
    }
    assert(all.take(i as int) =~= all);
    out
}

/// The lower-case form of a text, as `str::to_lowercase` computes it.
pub uninterp spec fn lowercase_of(s: Seq<char>) -> Seq<char>;

/// Calls `str::to_lowercase`; its result is named `lowercase_of` of the text's characters,
/// and nothing more is claimed of it (the Unicode case mapping is not written out here).
#[verifier::external_body]
fn to_lowercase(s: &str) -> (r: String)
    ensures
        r@ == lowercase_of(s@),
{
    s.to_lowercase()
}

/// Whether `lower` reads like an ffmpeg complaint that the size or rate is not supported.
pub open spec fn mode_refused(lower: Seq<char>) -> bool {
    occurs_in(lower, "not supported by the device"@) || occurs_in(lower, "selected video size"@)
}

/// Whether `lower` reads like a camera permission problem.
pub open spec fn permission_refused(lower: Seq<char>) -> bool {
    ||| occurs_in(lower, "permission denied"@)
    ||| occurs_in(lower, "operation not permitted"@)
    ||| occurs_in(lower, "not authorized"@)
    ||| occurs_in(lower, "cannot be accessed"@)
}

/// Whether `lower` reads like a camera that cannot be found.
pub open spec fn device_missing(lower: Seq<char>) -> bool {
    ||| occurs_in(lower, "no such file or directory"@)
    ||| occurs_in(lower, "error opening input file"@)
    ||| occurs_in(lower, "could not find video device"@)
    ||| occurs_in(lower, "device not found"@)
}

/// The first `n` items of `s`, or all of them when there are fewer.
pub open spec fn first_items<T>(s: Seq<T>, n: int) -> Seq<T> {
    if n < s.len() {
        s.take(n)
    } else {
        s
    }
}

/// The message for a failed camera check, given ffmpeg's error text and its lower-case form.
pub open spec fn preflight_message(
    platform: Platform,
    stderr: Seq<char>,
    lower: Seq<char>,
    width: u32,
    height: u32,
    fps: u32,
) -> Seq<char> {
    if mode_refused(lower) {
        "Unsupported camera mode "@ + size_text(width, height) + " @ "@ + decimal(fps as nat)
            + "fps. Use --list-devices and choose a supported mode or device."@
    } else if permission_refused(lower) {
        if platform == Platform::MacOs {
            "Camera permission missing. Enable camera access for your terminal app in System Settings -> Privacy & Security -> Camera."@
        } else {
            "Camera permission missing or denied for selected device. Check OS camera privacy settings and device access permissions."@
        }
    } else if device_missing(lower) {
        "Camera device could not be opened. Verify --device / CAMGLYPH_DEVICE and run --list-devices to discover valid inputs."@
    } else {
        "Camera preflight failed: "@ + joined(first_items(text_lines(stderr), 4), " | "@)
    }
}

/// The message for a failed camera check, from ffmpeg's error text `stderr` and its
/// lower-case form `lower`.
pub fn classify_lowered(platform: Platform, stderr: &str, lower: &str, width: u32, height: u32, fps: u32) -> (r: String)
    ensures
        r@ == preflight_message(platform, stderr@, lower@, width, height, fps),
{
    if str_contains(lower, "not supported by the device") || str_contains(lower, "selected video size") {
        let mut m = String::from_str("Unsupported camera mode ");
        push_decimal(&mut m, width as u64);
        m.append("x");
        push_decimal(&mut m, height as u64);
        m.append(" @ ");
        push_decimal(&mut m, fps as u64);
        m.append("fps. Use --list-devices and choose a supported mode or device.");
        proof {
            reveal_strlit("x");
            assert(m@ =~= preflight_message(platform, stderr@, lower@, width, height, fps));
        }
        return m;
    }
    if str_contains(lower, "permission denied") || str_contains(lower, "operation not permitted")
        || str_contains(lower, "not authorized") || str_contains(lower, "cannot be accessed") {
        if platform == Platform::MacOs {
            return String::from_str(
                "Camera permission missing. Enable camera access for your terminal app in System Settings -> Privacy & Security -> Camera.",
            );
        }
        return String::from_str(
            "Camera permission missing or denied for selected device. Check OS camera privacy settings and device access permissions.",
        );
    }
    if str_contains(lower, "no such file or directory") || str_contains(lower, "error opening input file")
        || str_contains(lower, "could not find video device") || str_contains(lower, "device not found") {
        return String::from_str(
            "Camera device could not be opened. Verify --device / CAMGLYPH_DEVICE and run --list-devices to discover valid inputs.",
        );
    }
    let lines = lines_of(stderr);
    let preview = join_first(&lines, 4, " | ");
    let ghost all = strings_chars(lines@);
    assert(all.take(all.len() as int) =~= all);
    assert(preview@ == joined(first_items(text_lines(stderr@), 4), " | "@));
    let mut m = String::from_str("Camera preflight failed: ");
    m.append(preview.as_str());
    m
}

/// The message for a failed camera check, from ffmpeg's error text.
pub fn classify_preflight_error(platform: Platform, stderr: &str, width: u32, height: u32, fps: u32) -> (r: String)
    ensures
        r@ == preflight_message(platform, stderr@, lowercase_of(stderr@), width, height, fps),
{
    let lower = to_lowercase(stderr);
    classify_lowered(platform, stderr, lower.as_str(), width, height, fps)
}

} // verus!
