use camgylph::ascii::color::ColorMode;
use camgylph::ascii::mapper::{AsciiCell, AsciiFrame};
use camgylph::terminal::input::{control_for_key, controls_for_keys, Control, KeyInput, KeyPhase};
use camgylph::terminal::renderer::{build_row, build_rows, TerminalRenderer};

fn cell(glyph: u8, r: u8, g: u8, b: u8) -> AsciiCell {
    AsciiCell { glyph, r, g, b }
}

#[test]
fn plain_row_is_just_glyphs() {
    let cells = [cell(b'a', 1, 2, 3), cell(b'b', 4, 5, 6)];
    assert_eq!(build_row(&cells, ColorMode::NoColor), "ab");
}

#[test]
fn colored_row_escapes_only_on_color_change() {
    let cells = [cell(b'a', 1, 2, 3), cell(b'b', 1, 2, 3), cell(b'c', 9, 9, 9)];
    assert_eq!(
        build_row(&cells, ColorMode::Truecolor),
        "\x1b[38;2;1;2;3mab\x1b[38;2;9;9;9mc\x1b[0m"
    );
    assert_eq!(build_row(&cells[..0], ColorMode::Ansi256), "\x1b[0m");
}

#[test]
fn rows_follow_frame_layout() {
    let frame = AsciiFrame {
        width: 2,
        height: 2,
        cells: vec![cell(b'1', 0, 0, 0), cell(b'2', 0, 0, 0), cell(b'3', 0, 0, 0), cell(b'4', 0, 0, 0)],
    };
    assert_eq!(frame.row(1).len(), 2);
    assert_eq!(frame.row(1)[0].glyph, b'3');
    let rows = build_rows(&frame, ColorMode::NoColor);
    assert_eq!(rows, vec!["12".to_string(), "34".to_string()]);
}

#[test]
fn renderer_clears_then_redraws_only_changes() {
    let mut frame = AsciiFrame {
        width: 2,
        height: 2,
        cells: vec![cell(b'a', 0, 0, 0), cell(b'b', 0, 0, 0), cell(b'c', 0, 0, 0), cell(b'd', 0, 0, 0)],
    };
    let mut renderer = TerminalRenderer::new();
    let first = renderer.render(&frame, ColorMode::NoColor, "status");
    assert_eq!(
        first,
        "\x1b[2J\x1b[1;1Hab\x1b[0m\x1b[K\x1b[2;1Hcd\x1b[0m\x1b[K\x1b[3;1Hstatus\x1b[K"
    );
    let second = renderer.render(&frame, ColorMode::NoColor, "s2");
    assert_eq!(second, "\x1b[3;1Hs2\x1b[K");
    frame.cells[3].glyph = b'z';
    let third = renderer.render(&frame, ColorMode::NoColor, "s3");
    assert_eq!(third, "\x1b[2;1Hcz\x1b[0m\x1b[K\x1b[3;1Hs3\x1b[K");
    assert_eq!(renderer.finish(), "\x1b[0m");
}

#[test]
fn renderer_clears_on_resize() {
    let small = AsciiFrame { width: 1, height: 1, cells: vec![cell(b'x', 0, 0, 0)] };
    let wide = AsciiFrame { width: 2, height: 1, cells: vec![cell(b'x', 0, 0, 0), cell(b'y', 0, 0, 0)] };
    let mut renderer = TerminalRenderer::new();
    let _ = renderer.render(&small, ColorMode::NoColor, "");
    let out = renderer.render(&wide, ColorMode::NoColor, "");
    assert!(out.starts_with("\x1b[2J"));
    assert!(out.contains("xy"));
}

#[test]
fn keys_map_to_controls() {
    assert_eq!(control_for_key(KeyPhase::Press, KeyInput::Esc), Some(Control::Quit));
    assert_eq!(control_for_key(KeyPhase::Press, KeyInput::Char('Q')), Some(Control::Quit));
    assert_eq!(control_for_key(KeyPhase::Repeat, KeyInput::Char('c')), Some(Control::ToggleColorMode));
    assert_eq!(control_for_key(KeyPhase::Press, KeyInput::Char('R')), Some(Control::ToggleRamp));
    assert_eq!(control_for_key(KeyPhase::Press, KeyInput::Char('m')), Some(Control::ToggleMetrics));
    assert_eq!(control_for_key(KeyPhase::Press, KeyInput::Char('=')), Some(Control::IncreaseGamma));
    assert_eq!(control_for_key(KeyPhase::Press, KeyInput::Char('+')), Some(Control::IncreaseGamma));
    assert_eq!(control_for_key(KeyPhase::Press, KeyInput::Char('-')), Some(Control::DecreaseGamma));
    assert_eq!(control_for_key(KeyPhase::Press, KeyInput::Char(']')), Some(Control::IncreaseContrast));
    assert_eq!(control_for_key(KeyPhase::Press, KeyInput::Char('[')), Some(Control::DecreaseContrast));
    assert_eq!(control_for_key(KeyPhase::Press, KeyInput::Char('h')), Some(Control::ToggleFooter));
    assert_eq!(control_for_key(KeyPhase::Repeat, KeyInput::Char('v')), Some(Control::ToggleMirror));
    assert_eq!(control_for_key(KeyPhase::Press, KeyInput::Char('H')), None);
    assert_eq!(control_for_key(KeyPhase::Press, KeyInput::Char('V')), None);
    assert_eq!(control_for_key(KeyPhase::Press, KeyInput::Char('x')), None);
    assert_eq!(control_for_key(KeyPhase::Release, KeyInput::Char('q')), None);
    assert_eq!(control_for_key(KeyPhase::Press, KeyInput::Other), None);
}

#[test]
fn key_runs_keep_order() {
    let events = vec![
        (KeyPhase::Press, KeyInput::Char('c')),
        (KeyPhase::Release, KeyInput::Char('c')),
        (KeyPhase::Press, KeyInput::Char('z')),
        (KeyPhase::Press, KeyInput::Esc),
    ];
    assert_eq!(controls_for_keys(&events), vec![Control::ToggleColorMode, Control::Quit]);
}
