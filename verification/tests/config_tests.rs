use camgylph::ascii::color::ColorMode;
use camgylph::config::{float_text_of, ArgReadings, Config, FloatReading};
use camgylph::error::AppError;

/// How a text reads as an `f32`, as the program classifies it.
fn reading(text: &str) -> FloatReading {
    match text.parse::<f32>() {
        Err(_) => FloatReading::Invalid,
        Ok(v) if v <= 0.0 => FloatReading::AtMostZero,
        Ok(_) => FloatReading::Accepted,
    }
}

fn try_parse_with_env(args: &[&str], env_device: Option<&str>) -> Result<Config, AppError> {
    let args: Vec<String> = args.iter().map(|s| s.to_string()).collect();
    let readings: Vec<ArgReadings> = args
        .iter()
        .map(|a| ArgReadings { whole: reading(a), inline: reading(&float_text_of(a)) })
        .collect();
    Config::from_args(&args, &readings, env_device.map(|d| d.to_string()))
}

fn try_parse(args: &[&str]) -> Result<Config, AppError> {
    try_parse_with_env(args, None)
}

fn parse(args: &[&str]) -> Config {
    try_parse(args).expect("valid args")
}

fn error_text(args: &[&str]) -> String {
    match try_parse(args) {
        Err(e) => e.message(),
        Ok(_) => panic!("expected an error"),
    }
}

#[test]
fn release_mode_applies_expected_defaults() {
    let cfg = parse(&["--release-mode"]);
    assert!(cfg.release_mode);
    assert_eq!(cfg.color_mode, ColorMode::Ansi256);
    assert_eq!(cfg.ramp_name, "standard");
    assert!(!cfg.show_metrics);
    assert_eq!(cfg.render_fps, 60);
    assert_eq!(cfg.max_cols, 0);
    assert_eq!(cfg.max_rows, 0);
    assert_eq!(cfg.fps, 30);
}

#[test]
fn explicit_overrides_win_even_after_release_mode() {
    let cfg = parse(&[
        "--release-mode",
        "--truecolor",
        "--ramp",
        "detailed",
        "--show-metrics",
        "--render-fps",
        "48",
        "--max-cols",
        "100",
        "--max-rows",
        "30",
    ]);

    assert!(cfg.release_mode);
    assert_eq!(cfg.color_mode, ColorMode::Truecolor);
    assert_eq!(cfg.ramp_name, "detailed");
    assert!(cfg.show_metrics);
    assert_eq!(cfg.render_fps, 48);
    assert_eq!(cfg.max_cols, 100);
    assert_eq!(cfg.max_rows, 30);
}

#[test]
fn explicit_overrides_win_even_before_release_mode() {
    let cfg = parse(&[
        "--truecolor",
        "--ramp=detailed",
        "--show-metrics",
        "--render-fps=48",
        "--max-cols=100",
        "--max-rows=30",
        "--release-mode",
    ]);

    assert!(cfg.release_mode);
    assert_eq!(cfg.color_mode, ColorMode::Truecolor);
    assert_eq!(cfg.ramp_name, "detailed");
    assert!(cfg.show_metrics);
    assert_eq!(cfg.render_fps, 48);
    assert_eq!(cfg.max_cols, 100);
    assert_eq!(cfg.max_rows, 30);
}

#[test]
fn defaults_without_arguments() {
    let cfg = parse(&[]);
    assert_eq!(cfg.width, 640);
    assert_eq!(cfg.height, 480);
    assert_eq!(cfg.fps, 30);
    assert_eq!(cfg.pix_fmt, "rgb24");
    assert_eq!(cfg.device, None);
    assert!(!cfg.list_devices);
    assert_eq!(cfg.color_mode, ColorMode::Ansi256);
    assert_eq!(cfg.ramp_name, "standard");
    assert!(!cfg.show_metrics);
    assert_eq!(cfg.gamma_text, "1.0");
    assert_eq!(cfg.contrast_text, "1.0");
    assert_eq!(cfg.render_fps, 30);
    assert_eq!(cfg.log_metrics_ms, 0);
    assert_eq!(cfg.max_cols, 0);
    assert_eq!(cfg.max_rows, 0);
    assert_eq!(cfg.max_consecutive_failures, 5);
    assert_eq!(cfg.backoff_base_ms, 500);
    assert!(!cfg.release_mode);
    assert!(!cfg.show_help);
}

#[test]
fn environment_device_is_overridden_by_flag() {
    let cfg = try_parse_with_env(&[], Some("cam0")).expect("valid args");
    assert_eq!(cfg.device.as_deref(), Some("cam0"));
    let cfg = try_parse_with_env(&["--device", "cam1"], Some("cam0")).expect("valid args");
    assert_eq!(cfg.device.as_deref(), Some("cam1"));
    let cfg = try_parse_with_env(&["--device=cam2"], Some("cam0")).expect("valid args");
    assert_eq!(cfg.device.as_deref(), Some("cam2"));
}

#[test]
fn fast_preset_sets_performance_values() {
    let cfg = parse(&["--fast"]);
    assert_eq!(cfg.color_mode, ColorMode::Ansi256);
    assert_eq!(cfg.render_fps, 20);
    assert_eq!(cfg.max_cols, 120);
    assert_eq!(cfg.max_rows, 40);
    assert!(!cfg.release_mode);
    let cfg = parse(&["--fast", "--release-mode"]);
    assert_eq!(cfg.render_fps, 60);
    assert_eq!(cfg.max_cols, 0);
    let cfg = parse(&["--no-color", "--fast", "--hide-metrics"]);
    assert_eq!(cfg.color_mode, ColorMode::NoColor);
    assert!(!cfg.show_metrics);
}

#[test]
fn preset_position_does_not_matter() {
    let a = parse(&["--width", "320", "--release-mode", "--truecolor", "--max-cols=7"]);
    let b = parse(&["--release-mode", "--width", "320", "--truecolor", "--max-cols=7"]);
    assert_eq!(a.width, b.width);
    assert_eq!(a.color_mode, b.color_mode);
    assert_eq!(a.max_cols, b.max_cols);
    assert_eq!(a.render_fps, b.render_fps);
    assert_eq!(a.max_cols, 7);
}

#[test]
fn value_flags_in_both_forms() {
    let cfg = parse(&[
        "--width", "320", "--height=240", "--fps", "15", "--pix-fmt=rgb24", "--log-metrics-ms", "1000",
        "--max-failures=9", "--backoff-ms", "+250", "--gamma", "2.5", "--contrast=0.5", "--list-devices", "-h",
    ]);
    assert_eq!(cfg.width, 320);
    assert_eq!(cfg.height, 240);
    assert_eq!(cfg.fps, 15);
    assert_eq!(cfg.log_metrics_ms, 1000);
    assert_eq!(cfg.max_consecutive_failures, 9);
    assert_eq!(cfg.backoff_base_ms, 250);
    assert_eq!(cfg.gamma_text, "2.5");
    assert_eq!(cfg.contrast_text, "0.5");
    assert!(cfg.list_devices);
    assert!(cfg.show_help);
}

#[test]
fn refuses_bad_arguments_with_messages() {
    assert_eq!(error_text(&["--width"]), "Missing value for --width");
    assert_eq!(error_text(&["--width", "abc"]), "Invalid value for --width: abc");
    assert_eq!(error_text(&["--max-cols=70000"]), "Invalid value for --max-cols: 70000");
    assert_eq!(error_text(&["--fps", "-1"]), "Invalid value for --fps: -1");
    assert_eq!(error_text(&["--bogus"]), "Unknown argument: --bogus. Use --help for usage.");
    assert_eq!(error_text(&["--gamma", "x"]), "Invalid value for --gamma: x");
    assert_eq!(error_text(&["--contrast=y"]), "Invalid value for --contrast: y");
    assert_eq!(error_text(&["--width", "0"]), "Width and height must be greater than zero.");
    assert_eq!(error_text(&["--fps=0"]), "FPS must be greater than zero.");
    assert_eq!(error_text(&["--gamma", "0"]), "--gamma must be positive (for example, 1.0).");
    assert_eq!(error_text(&["--contrast=-2"]), "--contrast must be positive (for example, 1.0).");
}

#[test]
fn first_error_in_order_wins() {
    assert_eq!(error_text(&["--gamma", "x", "--width", "y"]), "Invalid value for --gamma: x");
    assert_eq!(error_text(&["--width", "0", "--bogus"]), "Unknown argument: --bogus. Use --help for usage.");
}

#[test]
fn float_text_strips_flag_prefix() {
    assert_eq!(float_text_of("--gamma=1.5"), "1.5");
    assert_eq!(float_text_of("--contrast=2"), "2");
    assert_eq!(float_text_of("1.25"), "1.25");
    assert_eq!(float_text_of("--width=3"), "--width=3");
}

#[test]
fn config_error_message_is_its_text() {
    let e = AppError::Config("bad".to_string());
    assert_eq!(e.message(), "bad");
    let io = AppError::from(std::io::Error::other("disk gone"));
    assert_eq!(io.message(), "disk gone");
}

#[test]
fn float_value_must_be_a_float_as_a_whole() {
    assert_eq!(error_text(&["--gamma", "--gamma=2"]), "Invalid value for --gamma: --gamma=2");
    assert_eq!(error_text(&["--contrast", "--gamma=2"]), "Invalid value for --contrast: --gamma=2");
    assert_eq!(error_text(&["--gamma=--gamma=2"]), "Invalid value for --gamma: --gamma=2");
    assert_eq!(parse(&["--gamma", "2"]).gamma_text, "2");
    assert_eq!(parse(&["--gamma=2"]).gamma_text, "2");
}

#[test]
fn joined_and_separate_value_forms_agree() {
    for (flag, value) in [("--width", "320"), ("--gamma", "0.5"), ("--ramp", "detailed"), ("--fps", "x"), ("--contrast", "-1")] {
        let joined = format!("{flag}={value}");
        let a = try_parse(&["--fast", flag, value, "--show-metrics"]);
        let b = try_parse(&["--fast", &joined, "--show-metrics"]);
        match (a, b) {
            (Ok(x), Ok(y)) => {
                assert_eq!(x.width, y.width);
                assert_eq!(x.gamma_text, y.gamma_text);
                assert_eq!(x.ramp_name, y.ramp_name);
            }
            (Err(x), Err(y)) => assert_eq!(x.message(), y.message()),
            _ => panic!("forms disagree for {flag}"),
        }
    }
}
