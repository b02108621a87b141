use crate::ascii::color::{label_of, mode_label, next_mode, ColorMode};
use crate::ascii::ramp::{next_name, next_ramp_name};
use crate::camera::ffmpeg::CaptureSessionOutcome;
use crate::ascii::ramp::{is_valid, valid_ramp_name};
use crate::config::{is_config_error, Config};
use crate::error::AppError;
use crate::terminal::input::Control;
use crate::text::{decimal, push_decimal};
use vstd::prelude::*;

verus! {

/// The settings that the user changes while the program runs, apart from gamma and contrast
/// (those are floating-point values and are adjusted by the caller).
pub struct ViewState {
    pub quit: bool,
    pub show_metrics: bool,
    pub show_footer: bool,
    pub mirror: bool,
    pub color_mode: ColorMode,
    pub ramp_name: String,
}

/// The run-time settings as plain values.
pub struct ViewModel {
    pub quit: bool,
    pub show_metrics: bool,
    pub show_footer: bool,
    pub mirror: bool,
    pub color_mode: ColorMode,
    pub ramp_name: Seq<char>,
}

impl View for ViewState {
    type V = ViewModel;

    open spec fn view(&self) -> ViewModel {
        ViewModel {
            quit: self.quit,
            show_metrics: self.show_metrics,
            show_footer: self.show_footer,
            mirror: self.mirror,
            color_mode: self.color_mode,
            ramp_name: self.ramp_name@,
        }
    }
}

impl ViewState {
    /// The run-time settings at start: as configured, with the footer shown, not mirrored,
    /// not quitting.
    pub fn from_config(config: &Config) -> (s: ViewState)
        ensures
            s@ == (ViewModel {
                quit: false,
                show_metrics: config.show_metrics,
                show_footer: true,
                mirror: false,
                color_mode: config.color_mode,
                ramp_name: config.ramp_name@,
            }),
    {
        ViewState {
            quit: false,
            show_metrics: config.show_metrics,
            show_footer: true,
            mirror: false,
            color_mode: config.color_mode,
            ramp_name: config.ramp_name.clone(),
        }
    }
}

/// The run-time settings after a control.
pub open spec fn after_control(s: ViewModel, control: Control) -> ViewModel {
    match control {
        Control::Quit => ViewModel { quit: true, ..s },
        Control::ToggleColorMode => ViewModel { color_mode: next_mode(s.color_mode), ..s },
        Control::ToggleRamp => ViewModel { ramp_name: next_ramp_name(s.ramp_name), ..s },
        Control::ToggleMetrics => ViewModel { show_metrics: !s.show_metrics, ..s },
        Control::ToggleFooter => ViewModel { show_footer: !s.show_footer, ..s },
        Control::ToggleMirror => ViewModel { mirror: !s.mirror, ..s },
        _ => s,
    }
}

/// Applies a control to the run-time settings; the gamma and contrast controls change none of them.
pub fn apply_control(state: &mut ViewState, control: Control)
    ensures
        final(state)@ == after_control(old(state)@, control),
{
    match control {
        Control::Quit => state.quit = true,
        Control::ToggleColorMode => state.color_mode = state.color_mode.next(),
        Control::ToggleRamp => state.ramp_name = String::from_str(next_name(state.ramp_name.as_str())),
        Control::ToggleMetrics => state.show_metrics = !state.show_metrics,
        Control::ToggleFooter => state.show_footer = !state.show_footer,
        Control::ToggleMirror => state.mirror = !state.mirror,
        _ => {},
    }
}

/// Quitting is final; toggling the metrics, the footer or the mirror twice, or cycling the
/// color mode three times, changes nothing.
pub proof fn law_controls_cycle(s: ViewModel, c: Control)
    ensures
        s.quit ==> after_control(s, c).quit,
        after_control(after_control(s, Control::ToggleMetrics), Control::ToggleMetrics) == s,
        after_control(after_control(s, Control::ToggleFooter), Control::ToggleFooter) == s,
        after_control(after_control(s, Control::ToggleMirror), Control::ToggleMirror) == s,
        after_control(
            after_control(after_control(s, Control::ToggleColorMode), Control::ToggleColorMode),
            Control::ToggleColorMode,
        ) == s,
{
}

/// What the program does after a capture session ends.
#[derive(Clone, Copy, Debug, PartialEq, Eq, Structural)]
pub enum SessionFollowUp {
    /// The user asked to stop.
    Finish,
    /// Too many sessions in a row delivered no frame.
    GiveUp { failures: u32 },
    /// Start a new session after waiting `backoff_ms`.
    Retry { failures: u32, backoff_ms: u64 },
}

/// `2` to the power `n`.
pub open spec fn two_to(n: nat) -> nat
    decreases n,
{
    if n == 0 {
        1
    } else {
        2 * two_to((n - 1) as nat)
    }
}

/// The wait before the next session after `failures` failed sessions in a row: the base
/// doubled once per failure after the first, at most five times, saturating at `u64::MAX`.
pub open spec fn backoff_for(failures: u32, base: u64) -> int {
    let exp: nat = if failures <= 1 {
        0
    } else if failures - 1 > 5 {
        5
    } else {
        (failures - 1) as nat
    };
    let wait = base * two_to(exp);
    if wait > u64::MAX {
        u64::MAX as int
    } else {
        wait
    }
}

/// What follows a session: stop when the user asked; count a session without frames as a
/// failure and give up once the failures in a row exceed `max_failures`; otherwise retry.
pub open spec fn follow_up(
    failures: u32,
    outcome: CaptureSessionOutcome,
    quit: bool,
    max_failures: u32,
    backoff_base_ms: u64,
) -> SessionFollowUp {
    if quit || outcome.stopped_by_user {
        SessionFollowUp::Finish
    } else {
        let f: u32 = if outcome.frames == 0 {
            (failures + 1) as u32
        } else {
            0
        };
        if outcome.frames == 0 && f > max_failures {
            SessionFollowUp::GiveUp { failures: f }
        } else {
            SessionFollowUp::Retry { failures: f, backoff_ms: backoff_for(f, backoff_base_ms) as u64 }
        }
    }
}

/// Decides what follows a capture session.
pub fn after_session(
    consecutive_failures: u32,
    outcome: CaptureSessionOutcome,
    quit: bool,
    max_failures: u32,
    backoff_base_ms: u64,
) -> (r: SessionFollowUp)
    requires
        !(quit || outcome.stopped_by_user) && outcome.frames == 0 ==> consecutive_failures < u32::MAX,
    ensures
        r == follow_up(consecutive_failures, outcome, quit, max_failures, backoff_base_ms),
{
    if quit || outcome.stopped_by_user {
        return SessionFollowUp::Finish;
    }
    let mut failures = consecutive_failures;
    if outcome.frames == 0 {
        failures = failures + 1;
        if failures > max_failures {
            return SessionFollowUp::GiveUp { failures };
        }
    } else {
        failures = 0;
    }
    let exp: u32 = if failures <= 1 {
        0
    } else if failures - 1 > 5 {
        5
    } else {
        failures - 1
    };
    let factor: u64 = match exp {
        0 => 1,
        1 => 2,
        2 => 4,
        3 => 8,
        4 => 16,
        _ => 32,
    };
    proof {
        reveal_with_fuel(two_to, 6);
        assert(factor == two_to(exp as nat));
    }
    let backoff_ms = match backoff_base_ms.checked_mul(factor) {
        Some(v) => v,
        None => u64::MAX,
    };
    SessionFollowUp::Retry { failures, backoff_ms }
}

/// The message shown when the program gives up.
pub open spec fn give_up_message(failures: u32) -> Seq<char> {
    "Capture failed "@ + decimal(failures as nat) + " times in a row; stopping."@
}

/// The message shown when the program gives up after `failures` failed sessions.
pub fn give_up_text(failures: u32) -> (m: String)
    ensures
        m@ == give_up_message(failures),
{
    let mut m = String::from_str("Capture failed ");
    push_decimal(&mut m, failures as u64);
    m.append(" times in a row; stopping.");
    m
}

/// The restart policy: a session with frames resets the failure count and waits the base
/// backoff; a session without frames adds one failure; the program gives up exactly when the
/// failures in a row exceed the threshold; the wait never falls as failures grow and is at most
/// 32 times the base.
pub proof fn law_restart_policy(failures: u32, outcome: CaptureSessionOutcome, max_failures: u32, base: u64)
    requires
        !outcome.stopped_by_user,
        outcome.frames == 0 ==> failures < u32::MAX,
    ensures
        outcome.frames > 0 ==> follow_up(failures, outcome, false, max_failures, base)
            == (SessionFollowUp::Retry { failures: 0, backoff_ms: base }),
        outcome.frames == 0 ==> (follow_up(failures, outcome, false, max_failures, base) is GiveUp
            <==> failures + 1 > max_failures),
        outcome.frames == 0 && failures + 1 <= max_failures ==> follow_up(
            failures,
            outcome,
            false,
            max_failures,
            base,
        ) == (SessionFollowUp::Retry {
            failures: (failures + 1) as u32,
            backoff_ms: backoff_for((failures + 1) as u32, base) as u64,
        }),
        backoff_for(failures, base) <= 32 * base,
        failures < u32::MAX ==> backoff_for(failures, base) <= backoff_for((failures + 1) as u32, base),
{
    reveal_with_fuel(two_to, 6);
    assert(two_to(0) == 1);
    let e1: nat = if failures <= 1 {
        0
    } else if failures - 1 > 5 {
        5
    } else {
        (failures - 1) as nat
    };
    assert(two_to(e1) <= 32);
    assert(base * two_to(e1) <= 32 * base) by (nonlinear_arith)
        requires
            two_to(e1) <= 32,
    ;
    if failures < u32::MAX {
        let f2 = (failures + 1) as u32;
        let e2: nat = if f2 <= 1 {
            0
        } else if f2 - 1 > 5 {
            5
        } else {
            (f2 - 1) as nat
        };
        assert(two_to(e1) <= two_to(e2));
        assert(base * two_to(e1) <= base * two_to(e2)) by (nonlinear_arith)
            requires
                two_to(e1) <= two_to(e2),
        ;
    }
}


/// A terminal dimension held to a cap, where a cap of 0 means no cap.
pub open spec fn capped(size: u16, cap: u16) -> u16 {
    if cap > 0 && cap < size {
        cap
    } else {
        size
    }
}

/// The terminal area that frames are drawn into: the terminal size held to `--max-cols`
/// and `--max-rows`, where 0 means the whole terminal.
pub fn render_area(term_width: u16, term_height: u16, max_cols: u16, max_rows: u16) -> (r: (u16, u16))
    ensures
        r == (capped(term_width, max_cols), capped(term_height, max_rows)),
{
    let w = if max_cols > 0 && max_cols < term_width {
        max_cols
    } else {
        term_width
    };
    let h = if max_rows > 0 && max_rows < term_height {
        max_rows
    } else {
        term_height
    };
    (w, h)
}


/// The grid that covers a terminal area: all its columns, and all its lines but the last,
/// which holds the status line; at least one of each.
pub open spec fn grid_area(width: u16, height: u16) -> (u16, u16) {
    let w: u16 = if width < 1 {
        1
    } else {
        width
    };
    let h: u16 = if height <= 1 {
        1
    } else {
        (height - 1) as u16
    };
    (w, h)
}

/// The grid that covers a terminal area of `width` by `height` cells.
pub fn frame_area(width: u16, height: u16) -> (r: (u16, u16))
    ensures
        r == grid_area(width, height),
{
    let w = if width < 1 {
        1
    } else {
        width
    };
    let h = if height <= 1 {
        1
    } else {
        height - 1
    };
    (w, h)
}

/// The message for a ramp name that names no ramp.
pub open spec fn unknown_ramp_message(name: Seq<char>) -> Seq<char> {
    "Unknown ramp '"@ + name + "'. Valid values: standard, detailed"@
}

/// Refuses a ramp name that names no ramp, before anything is started.
pub fn validate_ramp(ramp_name: &str) -> (r: Result<(), AppError>)
    ensures
        valid_ramp_name(ramp_name@) ==> r is Ok,
        !valid_ramp_name(ramp_name@) ==> (r matches Err(e) && is_config_error(e, unknown_ramp_message(ramp_name@))),
{
    if is_valid(ramp_name) {
        return Ok(());
    }
    let mut m = String::from_str("Unknown ramp '");
    m.append(ramp_name);
    m.append("'. Valid values: standard, detailed");
    proof {
        assert(m@ =~= unknown_ramp_message(ramp_name@));
    }
    Err(AppError::Config(m))
}


/// The status line under the frame: nothing when the footer is hidden; the shortcuts with the
/// color mode, ramp, gamma and contrast; or, with metrics shown, the frame counters and timing
/// first. `gamma`, `contrast`, `fps` and `frame_ms` are the texts of those values as shown.
pub open spec fn status_text(
    v: ViewModel,
    gamma: Seq<char>,
    contrast: Seq<char>,
    frame_idx: u64,
    total_frames: u64,
    fps: Seq<char>,
    frame_ms: Seq<char>,
) -> Seq<char> {
    if !v.show_footer {
        Seq::empty()
    } else if !v.show_metrics {
        "q:quit c:color("@ + label_of(v.color_mode) + ") r:ramp("@ + v.ramp_name + ") +/-:gamma("@
            + gamma + ") []:contrast("@ + contrast + ") m:metrics"@
    } else {
        "frame:"@ + decimal(frame_idx as nat) + " total:"@ + decimal(total_frames as nat) + " fps:"@
            + fps + " frame_ms:"@ + frame_ms + " color:"@ + label_of(v.color_mode) + " ramp:"@
            + v.ramp_name + " gamma:"@ + gamma + " contrast:"@ + contrast
            + " | q:quit c:color r:ramp +/-:gamma []:contrast m:metrics"@
    }
}

/// The status line under the frame.
pub fn status_line(
    view: &ViewState,
    gamma_text: &str,
    contrast_text: &str,
    frame_idx: u64,
    total_frames: u64,
    fps_text: &str,
    frame_ms_text: &str,
) -> (s: String)
    ensures
        s@ == status_text(
            view@,
            gamma_text@,
            contrast_text@,
            frame_idx,
            total_frames,
            fps_text@,
            frame_ms_text@,
        ),
{
    if !view.show_footer {
        return String::new();
    }
    let label = mode_label(view.color_mode);
    if !view.show_metrics {
        let mut s = String::from_str("q:quit c:color(");
        s.append(label);
        s.append(") r:ramp(");
        s.append(view.ramp_name.as_str());
        s.append(") +/-:gamma(");
        s.append(gamma_text);
        s.append(") []:contrast(");
        s.append(contrast_text);
        s.append(") m:metrics");
        return s;
    }
    let mut s = String::from_str("frame:");
    push_decimal(&mut s, frame_idx);
    s.append(" total:");
    push_decimal(&mut s, total_frames);
    s.append(" fps:");
    s.append(fps_text);
    s.append(" frame_ms:");
    s.append(frame_ms_text);
    s.append(" color:");
    s.append(label);
    s.append(" ramp:");
    s.append(view.ramp_name.as_str());
    s.append(" gamma:");
    s.append(gamma_text);
    s.append(" contrast:");
    s.append(contrast_text);
    s.append(" | q:quit c:color r:ramp +/-:gamma []:contrast m:metrics");
    s
}


/// `h` hides a shown footer, leaving no status line, and shows a hidden one again; with the
/// footer shown, `m` switches between the shortcut line and the metrics line.
pub proof fn law_footer_controls(
    v: ViewModel,
    gamma: Seq<char>,
    contrast: Seq<char>,
    frame_idx: u64,
    total_frames: u64,
    fps: Seq<char>,
    frame_ms: Seq<char>,
)
    ensures
        v.show_footer ==> status_text(after_control(v, Control::ToggleFooter), gamma, contrast, frame_idx, total_frames, fps, frame_ms)
            == Seq::<char>::empty(),
        !v.show_footer ==> status_text(after_control(v, Control::ToggleFooter), gamma, contrast, frame_idx, total_frames, fps, frame_ms)
            .len() > 0,
        v.show_footer ==> (status_text(after_control(v, Control::ToggleMetrics), gamma, contrast, frame_idx, total_frames, fps, frame_ms)
            == status_text(
            ViewModel { show_metrics: !v.show_metrics, ..v },
            gamma,
            contrast,
            frame_idx,
            total_frames,
            fps,
            frame_ms,
        )),
{
    reveal_strlit("q:quit c:color(");
    reveal_strlit("frame:");
}

} // verus!
