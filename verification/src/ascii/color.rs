use crate::text::{decimal, push_decimal};
use vstd::prelude::*;

verus! {

/// How a cell's color is written to the terminal.
#[derive(Clone, Copy, Debug, PartialEq, Eq, Structural)]
pub enum ColorMode {
    Truecolor,
    Ansi256,
    NoColor,
}

/// The mode that follows `mode` when the user cycles color modes.
pub open spec fn next_mode(mode: ColorMode) -> ColorMode {
    match mode {
        ColorMode::Truecolor => ColorMode::Ansi256,
        ColorMode::Ansi256 => ColorMode::NoColor,
        ColorMode::NoColor => ColorMode::Truecolor,
    }
}

impl ColorMode {
    /// The next mode in the cycle truecolor, ansi256, none.
    pub fn next(self) -> (r: Self)
        ensures
            r == next_mode(self),
    {
        match self {
            Self::Truecolor => Self::Ansi256,
            Self::Ansi256 => Self::NoColor,
            Self::NoColor => Self::Truecolor,
        }
    }
}

/// Cycling three times through the color modes comes back to the start.
pub proof fn law_color_cycle_has_period_three(mode: ColorMode)
    ensures
        next_mode(next_mode(next_mode(mode))) == mode,
        next_mode(mode) != mode,
{
}

/// The label shown for a mode.
pub open spec fn label_of(mode: ColorMode) -> Seq<char> {
    match mode {
        ColorMode::Truecolor => "truecolor"@,
        ColorMode::Ansi256 => "ansi256"@,
        ColorMode::NoColor => "none"@,
    }
}

/// The label shown for a mode in the status line.
pub fn mode_label(mode: ColorMode) -> (r: &'static str)
    ensures
        r@ == label_of(mode),
{
    match mode {
        ColorMode::Truecolor => "truecolor",
        ColorMode::Ansi256 => "ansi256",
        ColorMode::NoColor => "none",
    }
}

/// Whether the 256-color index of a pixel is defined: the gray ramp overflows its byte for 248.
pub open spec fn ansi256_defined(r: u8, g: u8, b: u8) -> bool {
    !(r == g && g == b && r == 248)
}

/// The index in the 256-color palette chosen for a pixel: the gray ramp for grays, the 6x6x6 cube otherwise.
pub open spec fn ansi256_index(r: u8, g: u8, b: u8) -> int {
    if r == g && g == b {
        if r < 8 {
            16
        } else if r > 248 {
            231
        } else {
            232 + (r - 8) / 10
        }
    } else {
        16 + 36 * (r * 5 / 255) + 6 * (g * 5 / 255) + b * 5 / 255
    }
}

/// The palette index for a pixel in 256-color mode.
fn rgb_to_ansi256(r: u8, g: u8, b: u8) -> (idx: u8)
    requires
        ansi256_defined(r, g, b),
    ensures
        idx == ansi256_index(r, g, b),
{
    if r == g && g == b {
        if r < 8 {
            return 16;
        }
        if r > 248 {
            return 231;
        }
        return 232 + ((r as u16 - 8) / 10) as u8;
    }
    let r6 = (r as u16 * 5 / 255) as u8;
    let g6 = (g as u16 * 5 / 255) as u8;
    let b6 = (b as u16 * 5 / 255) as u8;
    16 + 36 * r6 + 6 * g6 + b6
}

/// The 256-color index of every pixel lies in the colored part of the palette, 16 to 255;
/// grays go to the gray ramp or to the cube's black and white corners.
pub proof fn law_ansi256_index_range(r: u8, g: u8, b: u8)
    requires
        ansi256_defined(r, g, b),
    ensures
        16 <= ansi256_index(r, g, b) <= 255,
        (r == g && g == b) ==> (ansi256_index(r, g, b) == 16 || ansi256_index(r, g, b) == 231
            || 232 <= ansi256_index(r, g, b) <= 255),
        !(r == g && g == b) ==> ansi256_index(r, g, b) <= 231,
{
}

/// The foreground escape sequence written before a cell of the given color.
pub open spec fn fg_escape(mode: ColorMode, r: u8, g: u8, b: u8) -> Seq<char> {
    match mode {
        ColorMode::Truecolor => seq!['\x1b', '[', '3', '8', ';', '2', ';'] + decimal(r as nat) + seq![';']
            + decimal(g as nat) + seq![';'] + decimal(b as nat) + seq!['m'],
        ColorMode::Ansi256 => seq!['\x1b', '[', '3', '8', ';', '5', ';'] + decimal(
            ansi256_index(r, g, b) as nat,
        ) + seq!['m'],
        ColorMode::NoColor => Seq::empty(),
    }
}

/// Whether a color can be written in a mode.
pub open spec fn color_writable(mode: ColorMode, r: u8, g: u8, b: u8) -> bool {
    mode == ColorMode::Ansi256 ==> ansi256_defined(r, g, b)
}

/// Appends the foreground escape sequence for a color to `out`.
pub fn push_fg_escape(out: &mut String, mode: ColorMode, r: u8, g: u8, b: u8)
    requires
        color_writable(mode, r, g, b),
    ensures
        final(out)@ == old(out)@ + fg_escape(mode, r, g, b),
{
    match mode {
        ColorMode::Truecolor => {
            let prefix = "\x1b[38;2;";
            proof {
                reveal_strlit("\x1b[38;2;");
            }
            out.append(prefix);
            push_decimal(out, r as u64);
            out.append(";");
            push_decimal(out, g as u64);
            out.append(";");
            push_decimal(out, b as u64);
            out.append("m");
            proof {
                reveal_strlit(";");
                reveal_strlit("m");
                assert(final(out)@ =~= old(out)@ + fg_escape(mode, r, g, b));
            }
        },
        ColorMode::Ansi256 => {
            let idx = rgb_to_ansi256(r, g, b);
            out.append("\x1b[38;5;");
            push_decimal(out, idx as u64);
            out.append("m");
            proof {
                reveal_strlit("\x1b[38;5;");
                reveal_strlit("m");
                assert(final(out)@ =~= old(out)@ + fg_escape(mode, r, g, b));
            }
        },
        ColorMode::NoColor => {
            assert(old(out)@ + fg_escape(mode, r, g, b) =~= old(out)@);
        },
    }
}

} // verus!
