use camgylph::ascii::color::ColorMode;
use camgylph::camera::ffmpeg::{session_step, CaptureLoopControl, CaptureSessionOutcome, SessionEvent, SessionStep};
use camgylph::runtime::{
    after_session, apply_control, frame_area, give_up_text, render_area, status_line, validate_ramp, SessionFollowUp,
    ViewState,
};
use camgylph::terminal::input::Control;

fn outcome(frames: u64, stopped_by_user: bool) -> CaptureSessionOutcome {
    CaptureSessionOutcome { frames, stopped_by_user }
}

#[test]
fn user_stop_finishes() {
    assert_eq!(after_session(3, outcome(10, true), false, 5, 500), SessionFollowUp::Finish);
    assert_eq!(after_session(3, outcome(0, false), true, 5, 500), SessionFollowUp::Finish);
}

#[test]
fn frames_reset_failures() {
    assert_eq!(
        after_session(4, outcome(7, false), false, 5, 500),
        SessionFollowUp::Retry { failures: 0, backoff_ms: 500 }
    );
}

#[test]
fn failures_back_off_exponentially_up_to_32x() {
    let expect = [(0u32, 500u64), (1, 1000), (2, 2000), (3, 4000), (4, 8000), (5, 16000), (6, 16000)];
    for (before, wait) in expect {
        assert_eq!(
            after_session(before, outcome(0, false), false, 100, 500),
            SessionFollowUp::Retry { failures: before + 1, backoff_ms: wait }
        );
    }
    assert_eq!(
        after_session(1, outcome(0, false), false, 100, u64::MAX),
        SessionFollowUp::Retry { failures: 2, backoff_ms: u64::MAX }
    );
}

#[test]
fn gives_up_past_threshold() {
    assert_eq!(
        after_session(4, outcome(0, false), false, 5, 500),
        SessionFollowUp::Retry { failures: 5, backoff_ms: 8000 }
    );
    assert_eq!(after_session(5, outcome(0, false), false, 5, 500), SessionFollowUp::GiveUp { failures: 6 });
    assert_eq!(give_up_text(6), "Capture failed 6 times in a row; stopping.");
}

#[test]
fn controls_change_view_state() {
    let mut s = ViewState {
        quit: false,
        show_metrics: false,
        show_footer: true,
        mirror: false,
        color_mode: ColorMode::Truecolor,
        ramp_name: "standard".to_string(),
    };
    apply_control(&mut s, Control::ToggleColorMode);
    assert_eq!(s.color_mode, ColorMode::Ansi256);
    apply_control(&mut s, Control::ToggleRamp);
    assert_eq!(s.ramp_name, "detailed");
    apply_control(&mut s, Control::ToggleRamp);
    assert_eq!(s.ramp_name, "standard");
    apply_control(&mut s, Control::ToggleMetrics);
    assert!(s.show_metrics);
    apply_control(&mut s, Control::IncreaseGamma);
    assert!(s.show_metrics && !s.quit);
    apply_control(&mut s, Control::ToggleFooter);
    assert!(!s.show_footer);
    apply_control(&mut s, Control::ToggleMirror);
    assert!(s.mirror);
    apply_control(&mut s, Control::Quit);
    assert!(s.quit);
    apply_control(&mut s, Control::ToggleMetrics);
    assert!(s.quit);
}

#[test]
fn terminal_areas() {
    assert_eq!(render_area(200, 50, 0, 0), (200, 50));
    assert_eq!(render_area(200, 50, 120, 40), (120, 40));
    assert_eq!(render_area(100, 30, 120, 40), (100, 30));
    assert_eq!(frame_area(120, 40), (120, 39));
    assert_eq!(frame_area(0, 1), (1, 1));
}

#[test]
fn ramp_names_are_checked() {
    assert!(validate_ramp("standard").is_ok());
    assert!(validate_ramp("detailed").is_ok());
    match validate_ramp("fancy") {
        Err(e) => assert_eq!(e.message(), "Unknown ramp 'fancy'. Valid values: standard, detailed"),
        Ok(()) => panic!("expected an error"),
    }
}

fn view(show_footer: bool, show_metrics: bool) -> ViewState {
    ViewState {
        quit: false,
        show_metrics,
        show_footer,
        mirror: false,
        color_mode: ColorMode::Ansi256,
        ramp_name: "standard".to_string(),
    }
}

#[test]
fn status_lines() {
    assert_eq!(status_line(&view(false, true), "1.0", "1.0", 3, 4, "30.0", "2.50"), "");
    assert_eq!(
        status_line(&view(true, false), "1.2", "0.8", 3, 4, "30.0", "2.50"),
        "q:quit c:color(ansi256) r:ramp(standard) +/-:gamma(1.2) []:contrast(0.8) m:metrics"
    );
    assert_eq!(
        status_line(&view(true, true), "1.0", "1.0", 12, 340, "29.5", "3.25"),
        "frame:12 total:340 fps:29.5 frame_ms:3.25 color:ansi256 ramp:standard gamma:1.0 contrast:1.0 | q:quit c:color r:ramp +/-:gamma []:contrast m:metrics"
    );
}

#[test]
fn session_steps() {
    assert_eq!(
        session_step(4, SessionEvent::Handled(CaptureLoopControl::Continue)),
        SessionStep::ReadNext { frames: 5 }
    );
    assert_eq!(
        session_step(4, SessionEvent::Handled(CaptureLoopControl::Stop)),
        SessionStep::Finish { outcome: outcome(5, true), stop_ffmpeg: true }
    );
    assert_eq!(
        session_step(4, SessionEvent::EndOfStream),
        SessionStep::Finish { outcome: outcome(4, false), stop_ffmpeg: false }
    );
    assert_eq!(session_step(4, SessionEvent::ReadFailed), SessionStep::Abort { stop_ffmpeg: true });
    assert_eq!(session_step(4, SessionEvent::HandlerFailed), SessionStep::Abort { stop_ffmpeg: false });
}
