use camgylph::ascii::color::{mode_label, push_fg_escape, ColorMode};
use camgylph::ascii::ramp::{by_name, is_valid, next_name, DETAILED_NAME, STANDARD_NAME};

#[test]
fn color_modes_cycle() {
    assert_eq!(ColorMode::Truecolor.next(), ColorMode::Ansi256);
    assert_eq!(ColorMode::Ansi256.next(), ColorMode::NoColor);
    assert_eq!(ColorMode::NoColor.next(), ColorMode::Truecolor);
    let m = ColorMode::Ansi256;
    assert_eq!(m.next().next().next(), m);
}

#[test]
fn mode_labels() {
    assert_eq!(mode_label(ColorMode::Truecolor), "truecolor");
    assert_eq!(mode_label(ColorMode::Ansi256), "ansi256");
    assert_eq!(mode_label(ColorMode::NoColor), "none");
}

fn escape(mode: ColorMode, r: u8, g: u8, b: u8) -> String {
    let mut out = String::from("x");
    push_fg_escape(&mut out, mode, r, g, b);
    out
}

#[test]
fn truecolor_escape_writes_decimal_channels() {
    assert_eq!(escape(ColorMode::Truecolor, 1, 20, 255), "x\x1b[38;2;1;20;255m");
    assert_eq!(escape(ColorMode::Truecolor, 0, 0, 0), "x\x1b[38;2;0;0;0m");
}

#[test]
fn ansi256_escape_uses_cube_and_gray_ramp() {
    assert_eq!(escape(ColorMode::Ansi256, 255, 0, 0), "x\x1b[38;5;196m");
    assert_eq!(escape(ColorMode::Ansi256, 0, 0, 255), "x\x1b[38;5;21m");
    assert_eq!(escape(ColorMode::Ansi256, 0, 0, 0), "x\x1b[38;5;16m");
    assert_eq!(escape(ColorMode::Ansi256, 255, 255, 255), "x\x1b[38;5;231m");
    assert_eq!(escape(ColorMode::Ansi256, 8, 8, 8), "x\x1b[38;5;232m");
    assert_eq!(escape(ColorMode::Ansi256, 128, 128, 128), "x\x1b[38;5;244m");
    assert_eq!(escape(ColorMode::Ansi256, 247, 247, 247), "x\x1b[38;5;255m");
    assert_eq!(escape(ColorMode::Ansi256, 100, 150, 200), "x\x1b[38;5;67m");
}

#[test]
fn no_color_escape_is_empty() {
    assert_eq!(escape(ColorMode::NoColor, 1, 2, 3), "x");
}

#[test]
fn ramp_names() {
    assert!(is_valid("standard"));
    assert!(is_valid("detailed"));
    assert!(!is_valid("fancy"));
    assert_eq!(STANDARD_NAME, "standard");
    assert_eq!(DETAILED_NAME, "detailed");
    assert_eq!(next_name("standard"), "detailed");
    assert_eq!(next_name("detailed"), "standard");
    assert_eq!(next_name("fancy"), "standard");
}

#[test]
fn ramps_by_name() {
    assert_eq!(by_name("standard"), b" .:-=+*#%@");
    assert_eq!(by_name("fancy"), b" .:-=+*#%@");
    let detailed = by_name("detailed");
    assert_eq!(detailed.len(), 68);
    assert_eq!(detailed[0], b' ');
    assert_eq!(detailed[67], b'$');
}
