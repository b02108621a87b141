use crate::ascii::color::ColorMode;
use crate::error::AppError;
use crate::text::{has_prefix, parse_unsigned, str_eq, str_strip_prefix, unsigned_value};
use vstd::prelude::*;

verus! {

/// How the text given for `--gamma` or `--contrast` reads as an `f32`: not a float at all,
/// a value that is `<= 0.0`, or any other value (NaN and the infinities included).
#[derive(Clone, Copy, Debug, PartialEq, Eq, Structural)]
pub enum FloatReading {
    Invalid,
    AtMostZero,
    Accepted,
}

/// How an argument reads as an `f32`: `whole` is the reading of the whole argument, used when
/// it is the value that follows `--gamma` or `--contrast`; `inline` is the reading of its
/// `float_text` (the text after `--gamma=` or `--contrast=`), used for those `flag=value` forms.
#[derive(Clone, Copy, Debug, PartialEq, Eq, Structural)]
pub struct ArgReadings {
    pub whole: FloatReading,
    pub inline: FloatReading,
}

/// The program's settings. `gamma_text` and `contrast_text` hold the text of the `f32`
/// values as given (`"1.0"` by default); they always read as a float.
pub struct Config {
    pub width: u32,
    pub height: u32,
    pub fps: u32,
    pub pix_fmt: String,
    pub device: Option<String>,
    pub list_devices: bool,
    pub color_mode: ColorMode,
    pub ramp_name: String,
    pub show_metrics: bool,
    pub gamma_text: String,
    pub contrast_text: String,
    pub render_fps: u32,
    pub log_metrics_ms: u64,
    pub max_cols: u16,
    pub max_rows: u16,
    pub max_consecutive_failures: u32,
    pub backoff_base_ms: u64,
    pub release_mode: bool,
    pub show_help: bool,
}

/// The settings as plain values.
pub struct ConfigModel {
    pub width: u32,
    pub height: u32,
    pub fps: u32,
    pub pix_fmt: Seq<char>,
    pub device: Option<Seq<char>>,
    pub list_devices: bool,
    pub color_mode: ColorMode,
    pub ramp_name: Seq<char>,
    pub show_metrics: bool,
    pub gamma_text: Seq<char>,
    pub contrast_text: Seq<char>,
    pub render_fps: u32,
    pub log_metrics_ms: u64,
    pub max_cols: u16,
    pub max_rows: u16,
    pub max_consecutive_failures: u32,
    pub backoff_base_ms: u64,
    pub release_mode: bool,
    pub show_help: bool,
}

/// The characters of an optional string.
pub open spec fn opt_chars(o: Option<String>) -> Option<Seq<char>> {
    match o {
        Some(s) => Some(s@),
        None => None,
    }
}

impl View for Config {
    type V = ConfigModel;

    open spec fn view(&self) -> ConfigModel {
        ConfigModel {
            width: self.width,
            height: self.height,
            fps: self.fps,
            pix_fmt: self.pix_fmt@,
            device: opt_chars(self.device),
            list_devices: self.list_devices,
            color_mode: self.color_mode,
            ramp_name: self.ramp_name@,
            show_metrics: self.show_metrics,
            gamma_text: self.gamma_text@,
            contrast_text: self.contrast_text@,
            render_fps: self.render_fps,
            log_metrics_ms: self.log_metrics_ms,
            max_cols: self.max_cols,
            max_rows: self.max_rows,
            max_consecutive_failures: self.max_consecutive_failures,
            backoff_base_ms: self.backoff_base_ms,
            release_mode: self.release_mode,
            show_help: self.show_help,
        }
    }
}

/// The settings before any argument is read; `device` comes from the environment.
pub open spec fn default_model(device: Option<Seq<char>>) -> ConfigModel {
    ConfigModel {
        width: 640,
        height: 480,
        fps: 30,
        pix_fmt: "rgb24"@,
        device: device,
        list_devices: false,
        color_mode: ColorMode::Ansi256,
        ramp_name: "standard"@,
        show_metrics: false,
        gamma_text: "1.0"@,
        contrast_text: "1.0"@,
        render_fps: 30,
        log_metrics_ms: 0,
        max_cols: 0,
        max_rows: 0,
        max_consecutive_failures: 5,
        backoff_base_ms: 500,
        release_mode: false,
        show_help: false,
    }
}

/// What `--fast` sets: 256 colors, the standard ramp, no metrics, 20 FPS, a 120x40 cap.
pub open spec fn fast_model(c: ConfigModel) -> ConfigModel {
    ConfigModel {
        color_mode: ColorMode::Ansi256,
        ramp_name: "standard"@,
        show_metrics: false,
        render_fps: 20,
        max_cols: 120,
        max_rows: 40,
        ..c
    }
}

/// What `--release-mode` sets: 256 colors, the standard ramp, no metrics, 60 FPS, the full terminal.
pub open spec fn release_model(c: ConfigModel) -> ConfigModel {
    ConfigModel {
        color_mode: ColorMode::Ansi256,
        ramp_name: "standard"@,
        show_metrics: false,
        render_fps: 60,
        max_cols: 0,
        max_rows: 0,
        ..c
    }
}

/// The settings given explicitly on the command line, which win over the presets.
pub struct ExplicitOverrides {
    pub color_mode: Option<ColorMode>,
    pub ramp_name: Option<String>,
    pub show_metrics: Option<bool>,
    pub render_fps: Option<u32>,
    pub max_cols: Option<u16>,
    pub max_rows: Option<u16>,
}

/// The explicit settings as plain values.
pub struct ExplicitModel {
    pub color_mode: Option<ColorMode>,
    pub ramp_name: Option<Seq<char>>,
    pub show_metrics: Option<bool>,
    pub render_fps: Option<u32>,
    pub max_cols: Option<u16>,
    pub max_rows: Option<u16>,
}

impl View for ExplicitOverrides {
    type V = ExplicitModel;

    open spec fn view(&self) -> ExplicitModel {
        ExplicitModel {
            color_mode: self.color_mode,
            ramp_name: opt_chars(self.ramp_name),
            show_metrics: self.show_metrics,
            render_fps: self.render_fps,
            max_cols: self.max_cols,
            max_rows: self.max_rows,
        }
    }
}

/// No explicit setting.
pub open spec fn no_explicit() -> ExplicitModel {
    ExplicitModel {
        color_mode: None,
        ramp_name: None,
        show_metrics: None,
        render_fps: None,
        max_cols: None,
        max_rows: None,
    }
}

/// The settings with every explicit one put back over them.
pub open spec fn overridden(c: ConfigModel, e: ExplicitModel) -> ConfigModel {
    ConfigModel {
        color_mode: match e.color_mode {
            Some(m) => m,
            None => c.color_mode,
        },
        ramp_name: match e.ramp_name {
            Some(r) => r,
            None => c.ramp_name,
        },
        show_metrics: match e.show_metrics {
            Some(b) => b,
            None => c.show_metrics,
        },
        render_fps: match e.render_fps {
            Some(n) => n,
            None => c.render_fps,
        },
        max_cols: match e.max_cols {
            Some(n) => n,
            None => c.max_cols,
        },
        max_rows: match e.max_rows {
            Some(n) => n,
            None => c.max_rows,
        },
        ..c
    }
}

/// Where the reading of the command line stands after some arguments.
pub struct ScanModel {
    pub cfg: ConfigModel,
    pub explicit: ExplicitModel,
    pub fast: bool,
    pub release: bool,
    pub gamma_reading: FloatReading,
    pub contrast_reading: FloatReading,
}

/// Before the first argument.
pub open spec fn initial_scan(device: Option<Seq<char>>) -> ScanModel {
    ScanModel {
        cfg: default_model(device),
        explicit: no_explicit(),
        fast: false,
        release: false,
        gamma_reading: FloatReading::Accepted,
        contrast_reading: FloatReading::Accepted,
    }
}

/// Why an argument was refused.
pub enum ArgFault {
    Missing(Seq<char>),
    Invalid(Seq<char>, Seq<char>),
    Unknown(Seq<char>),
}

/// The message for a refused argument.
pub open spec fn fault_message(f: ArgFault) -> Seq<char> {
    match f {
        ArgFault::Missing(flag) => "Missing value for "@ + flag,
        ArgFault::Invalid(flag, raw) => "Invalid value for "@ + flag + ": "@ + raw,
        ArgFault::Unknown(arg) => "Unknown argument: "@ + arg + ". Use --help for usage."@,
    }
}

/// The flags that take no value.
pub open spec fn is_plain_flag(a: Seq<char>) -> bool {
    ||| a == "-h"@
    ||| a == "--help"@
    ||| a == "--list-devices"@
    ||| a == "--show-metrics"@
    ||| a == "--hide-metrics"@
    ||| a == "--fast"@
    ||| a == "--release-mode"@
    ||| a == "--no-color"@
    ||| a == "--ansi256"@
    ||| a == "--truecolor"@
}

/// The flags that take a value, as the next argument or after `=`.
pub open spec fn is_value_flag(a: Seq<char>) -> bool {
    ||| a == "--device"@
    ||| a == "--width"@
    ||| a == "--height"@
    ||| a == "--fps"@
    ||| a == "--pix-fmt"@
    ||| a == "--ramp"@
    ||| a == "--gamma"@
    ||| a == "--contrast"@
    ||| a == "--render-fps"@
    ||| a == "--log-metrics-ms"@
    ||| a == "--max-cols"@
    ||| a == "--max-rows"@
    ||| a == "--max-failures"@
    ||| a == "--backoff-ms"@
}

/// The effect of a flag that takes no value.
pub open spec fn plain_step(a: Seq<char>, st: ScanModel) -> ScanModel {
    if a == "-h"@ || a == "--help"@ {
        ScanModel { cfg: ConfigModel { show_help: true, ..st.cfg }, ..st }
    } else if a == "--list-devices"@ {
        ScanModel { cfg: ConfigModel { list_devices: true, ..st.cfg }, ..st }
    } else if a == "--show-metrics"@ {
        ScanModel {
            cfg: ConfigModel { show_metrics: true, ..st.cfg },
            explicit: ExplicitModel { show_metrics: Some(true), ..st.explicit },
            ..st
        }
    } else if a == "--hide-metrics"@ {
        ScanModel {
            cfg: ConfigModel { show_metrics: false, ..st.cfg },
            explicit: ExplicitModel { show_metrics: Some(false), ..st.explicit },
            ..st
        }
    } else if a == "--fast"@ {
        ScanModel { fast: true, ..st }
    } else if a == "--release-mode"@ {
        ScanModel { release: true, ..st }
    } else {
        let m = if a == "--no-color"@ {
            ColorMode::NoColor
        } else if a == "--ansi256"@ {
            ColorMode::Ansi256
        } else {
            ColorMode::Truecolor
        };
        ScanModel {
            cfg: ConfigModel { color_mode: m, ..st.cfg },
            explicit: ExplicitModel { color_mode: Some(m), ..st.explicit },
            ..st
        }
    }
}

/// The number written in `v` for `flag`, or the refusal of `v`.
pub open spec fn number_for(flag: Seq<char>, v: Seq<char>, max: nat) -> Result<nat, ArgFault> {
    match unsigned_value(v, max) {
        Some(n) => Ok(n),
        None => Err(ArgFault::Invalid(flag, v)),
    }
}

/// The effect of a flag given the value `v`; `reading` is how `v` reads as a float.
pub open spec fn value_step(flag: Seq<char>, v: Seq<char>, reading: FloatReading, st: ScanModel) -> Result<ScanModel, ArgFault> {
    if flag == "--device"@ {
        Ok(ScanModel { cfg: ConfigModel { device: Some(v), ..st.cfg }, ..st })
    } else if flag == "--width"@ {
        match number_for(flag, v, u32::MAX as nat) {
            Ok(n) => Ok(ScanModel { cfg: ConfigModel { width: n as u32, ..st.cfg }, ..st }),
            Err(f) => Err(f),
        }
    } else if flag == "--height"@ {
        match number_for(flag, v, u32::MAX as nat) {
            Ok(n) => Ok(ScanModel { cfg: ConfigModel { height: n as u32, ..st.cfg }, ..st }),
            Err(f) => Err(f),
        }
    } else if flag == "--fps"@ {
        match number_for(flag, v, u32::MAX as nat) {
            Ok(n) => Ok(ScanModel { cfg: ConfigModel { fps: n as u32, ..st.cfg }, ..st }),
            Err(f) => Err(f),
        }
    } else if flag == "--pix-fmt"@ {
        Ok(ScanModel { cfg: ConfigModel { pix_fmt: v, ..st.cfg }, ..st })
    } else if flag == "--ramp"@ {
        Ok(
            ScanModel {
                cfg: ConfigModel { ramp_name: v, ..st.cfg },
                explicit: ExplicitModel { ramp_name: Some(v), ..st.explicit },
                ..st
            },
        )
    } else if flag == "--gamma"@ {
        if reading == FloatReading::Invalid {
            Err(ArgFault::Invalid(flag, v))
        } else {
            Ok(ScanModel { cfg: ConfigModel { gamma_text: v, ..st.cfg }, gamma_reading: reading, ..st })
        }
    } else if flag == "--contrast"@ {
        if reading == FloatReading::Invalid {
            Err(ArgFault::Invalid(flag, v))
        } else {
            Ok(
                ScanModel {
                    cfg: ConfigModel { contrast_text: v, ..st.cfg },
                    contrast_reading: reading,
                    ..st
                },
            )
        }
    } else if flag == "--render-fps"@ {
        match number_for(flag, v, u32::MAX as nat) {
            Ok(n) => Ok(
                ScanModel {
                    cfg: ConfigModel { render_fps: n as u32, ..st.cfg },
                    explicit: ExplicitModel { render_fps: Some(n as u32), ..st.explicit },
                    ..st
                },
            ),
            Err(f) => Err(f),
        }
    } else if flag == "--log-metrics-ms"@ {
        match number_for(flag, v, u64::MAX as nat) {
            Ok(n) => Ok(ScanModel { cfg: ConfigModel { log_metrics_ms: n as u64, ..st.cfg }, ..st }),
            Err(f) => Err(f),
        }
    } else if flag == "--max-cols"@ {
        match number_for(flag, v, u16::MAX as nat) {
            Ok(n) => Ok(
                ScanModel {
                    cfg: ConfigModel { max_cols: n as u16, ..st.cfg },
                    explicit: ExplicitModel { max_cols: Some(n as u16), ..st.explicit },
                    ..st
                },
            ),
            Err(f) => Err(f),
        }
    } else if flag == "--max-rows"@ {
        match number_for(flag, v, u16::MAX as nat) {
            Ok(n) => Ok(
                ScanModel {
                    cfg: ConfigModel { max_rows: n as u16, ..st.cfg },
                    explicit: ExplicitModel { max_rows: Some(n as u16), ..st.explicit },
                    ..st
                },
            ),
            Err(f) => Err(f),
        }
    } else if flag == "--max-failures"@ {
        match number_for(flag, v, u32::MAX as nat) {
            Ok(n) => Ok(
                ScanModel { cfg: ConfigModel { max_consecutive_failures: n as u32, ..st.cfg }, ..st },
            ),
            Err(f) => Err(f),
        }
    } else {
        match number_for(flag, v, u64::MAX as nat) {
            Ok(n) => Ok(ScanModel { cfg: ConfigModel { backoff_base_ms: n as u64, ..st.cfg }, ..st }),
            Err(f) => Err(f),
        }
    }
}

/// The flag whose `flag=value` form begins `a`, tried in the order the flags are listed,
/// with the text after the `=`.
pub open spec fn prefixed_flag(a: Seq<char>) -> Option<(Seq<char>, Seq<char>)> {
    if has_prefix(a, "--device="@) {
        Some(("--device"@, a.skip("--device="@.len() as int)))
    } else if has_prefix(a, "--width="@) {
        Some(("--width"@, a.skip("--width="@.len() as int)))
    } else if has_prefix(a, "--height="@) {
        Some(("--height"@, a.skip("--height="@.len() as int)))
    } else if has_prefix(a, "--fps="@) {
        Some(("--fps"@, a.skip("--fps="@.len() as int)))
    } else if has_prefix(a, "--pix-fmt="@) {
        Some(("--pix-fmt"@, a.skip("--pix-fmt="@.len() as int)))
    } else if has_prefix(a, "--ramp="@) {
        Some(("--ramp"@, a.skip("--ramp="@.len() as int)))
    } else if has_prefix(a, "--gamma="@) {
        Some(("--gamma"@, a.skip("--gamma="@.len() as int)))
    } else if has_prefix(a, "--contrast="@) {
        Some(("--contrast"@, a.skip("--contrast="@.len() as int)))
    } else if has_prefix(a, "--render-fps="@) {
        Some(("--render-fps"@, a.skip("--render-fps="@.len() as int)))
    } else if has_prefix(a, "--log-metrics-ms="@) {
        Some(("--log-metrics-ms"@, a.skip("--log-metrics-ms="@.len() as int)))
    } else if has_prefix(a, "--max-cols="@) {
        Some(("--max-cols"@, a.skip("--max-cols="@.len() as int)))
    } else if has_prefix(a, "--max-rows="@) {
        Some(("--max-rows"@, a.skip("--max-rows="@.len() as int)))
    } else if has_prefix(a, "--max-failures="@) {
        Some(("--max-failures"@, a.skip("--max-failures="@.len() as int)))
    } else if has_prefix(a, "--backoff-ms="@) {
        Some(("--backoff-ms"@, a.skip("--backoff-ms="@.len() as int)))
    } else {
        None
    }
}

/// The effect of one argument that is neither a plain nor a value flag.
pub open spec fn prefixed_step(a: Seq<char>, reading: FloatReading, st: ScanModel) -> Result<ScanModel, ArgFault> {
    match prefixed_flag(a) {
        Some((flag, v)) => value_step(flag, v, reading, st),
        None => Err(ArgFault::Unknown(a)),
    }
}

/// The effect of the first argument, and how many arguments it uses.
pub open spec fn scan_step(args: Seq<Seq<char>>, readings: Seq<ArgReadings>, st: ScanModel) -> Result<(ScanModel, nat), ArgFault> {
    let a = args[0];
    if is_plain_flag(a) {
        Ok((plain_step(a, st), 1))
    } else if is_value_flag(a) {
        if args.len() < 2 {
            Err(ArgFault::Missing(a))
        } else {
            match value_step(a, args[1], readings[1].whole, st) {
                Ok(s) => Ok((s, 2)),
                Err(f) => Err(f),
            }
        }
    } else {
        match prefixed_step(a, readings[0].inline, st) {
            Ok(s) => Ok((s, 1)),
            Err(f) => Err(f),
        }
    }
}

/// Reads the arguments in order, starting from `st`.
pub open spec fn scan(args: Seq<Seq<char>>, readings: Seq<ArgReadings>, st: ScanModel) -> Result<ScanModel, ArgFault>
    decreases args.len(),
{
    if args.len() == 0 {
        Ok(st)
    } else {
        match scan_step(args, readings, st) {
            Err(f) => Err(f),
            Ok((s, k)) => if 1 <= k <= args.len() {
                scan(args.skip(k as int), readings.skip(k as int), s)
            } else {
                Ok(s)
            },
        }
    }
}

/// The settings after the presets and the explicit flags are applied, before validation.
pub open spec fn settled(st: ScanModel) -> ConfigModel {
    let c1 = if st.fast {
        fast_model(st.cfg)
    } else {
        st.cfg
    };
    let c2 = if st.release {
        ConfigModel { release_mode: true, ..release_model(c1) }
    } else {
        c1
    };
    overridden(c2, st.explicit)
}

/// The settings once all arguments are read, or the message that refuses them.
pub open spec fn finished(st: ScanModel) -> Result<ConfigModel, Seq<char>> {
    let c = settled(st);
    if c.width == 0 || c.height == 0 {
        Err("Width and height must be greater than zero."@)
    } else if c.fps == 0 {
        Err("FPS must be greater than zero."@)
    } else if st.gamma_reading == FloatReading::AtMostZero {
        Err("--gamma must be positive (for example, 1.0)."@)
    } else if st.contrast_reading == FloatReading::AtMostZero {
        Err("--contrast must be positive (for example, 1.0)."@)
    } else {
        Ok(c)
    }
}

/// The settings that a command line gives, or the message that refuses it.
pub open spec fn command_line(args: Seq<Seq<char>>, readings: Seq<ArgReadings>, env_device: Option<Seq<char>>) -> Result<ConfigModel, Seq<char>> {
    match scan(args, readings, initial_scan(env_device)) {
        Err(f) => Err(fault_message(f)),
        Ok(st) => finished(st),
    }
}

/// The text of an argument that has to read as a float when it is the value of
/// `--gamma` or `--contrast`: what follows `--gamma=` or `--contrast=`, else the whole argument.
pub open spec fn float_text(a: Seq<char>) -> Seq<char> {
    if has_prefix(a, "--gamma="@) {
        a.skip("--gamma="@.len() as int)
    } else if has_prefix(a, "--contrast="@) {
        a.skip("--contrast="@.len() as int)
    } else {
        a
    }
}

/// The characters of each argument.
pub open spec fn arg_chars(args: Seq<String>) -> Seq<Seq<char>> {
    args.map_values(|s: String| s@)
}


impl Config {
    /// The settings before any argument is read, with the camera device taken from the environment.
    pub fn defaults(device: Option<String>) -> (c: Config)
        ensures
            c@ == default_model(opt_chars(device)),
    {
        Config {
            width: 640,
            height: 480,
            fps: 30,
            pix_fmt: String::from_str("rgb24"),
            device: device,
            list_devices: false,
            color_mode: ColorMode::Ansi256,
            ramp_name: String::from_str("standard"),
            show_metrics: false,
            gamma_text: String::from_str("1.0"),
            contrast_text: String::from_str("1.0"),
            render_fps: 30,
            log_metrics_ms: 0,
            max_cols: 0,
            max_rows: 0,
            max_consecutive_failures: 5,
            backoff_base_ms: 500,
            release_mode: false,
            show_help: false,
        }
    }
}

impl ExplicitOverrides {
    /// No explicit setting.
    pub fn none() -> (e: ExplicitOverrides)
        ensures
            e@ == no_explicit(),
    {
        ExplicitOverrides {
            color_mode: None,
            ramp_name: None,
            show_metrics: None,
            render_fps: None,
            max_cols: None,
            max_rows: None,
        }
    }
}

/// Applies the `--fast` preset.
pub fn apply_fast_preset(cfg: &mut Config)
    ensures
        final(cfg)@ == fast_model(old(cfg)@),
{
    cfg.color_mode = ColorMode::Ansi256;
    cfg.ramp_name = String::from_str("standard");
    cfg.show_metrics = false;
    cfg.render_fps = 20;
    cfg.max_cols = 120;
    cfg.max_rows = 40;
}

/// Applies the `--release-mode` preset.
pub fn apply_release_mode_preset(cfg: &mut Config)
    ensures
        final(cfg)@ == release_model(old(cfg)@),
{
    cfg.color_mode = ColorMode::Ansi256;
    cfg.ramp_name = String::from_str("standard");
    cfg.show_metrics = false;
    cfg.render_fps = 60;
    cfg.max_cols = 0;
    cfg.max_rows = 0;
}

/// Puts every explicit setting back over the settings.
pub fn apply_explicit_overrides(cfg: &mut Config, explicit: &ExplicitOverrides)
    ensures
        final(cfg)@ == overridden(old(cfg)@, explicit@),
{
    if let Some(color_mode) = explicit.color_mode {
        cfg.color_mode = color_mode;
    }
    if let Some(ramp_name) = &explicit.ramp_name {
        cfg.ramp_name = ramp_name.clone();
    }
    if let Some(show_metrics) = explicit.show_metrics {
        cfg.show_metrics = show_metrics;
    }
    if let Some(render_fps) = explicit.render_fps {
        cfg.render_fps = render_fps;
    }
    if let Some(max_cols) = explicit.max_cols {
        cfg.max_cols = max_cols;
    }
    if let Some(max_rows) = explicit.max_rows {
        cfg.max_rows = max_rows;
    }
}

/// Whether `e` is a configuration error with the message `msg`.
pub open spec fn is_config_error(e: AppError, msg: Seq<char>) -> bool {
    e matches AppError::Config(m) && m@ == msg
}

fn fault_error_missing(flag: &str) -> (e: AppError)
    ensures
        is_config_error(e, fault_message(ArgFault::Missing(flag@))),
{
    let mut m = String::from_str("Missing value for ");
    m.append(flag);
    AppError::Config(m)
}

fn fault_error_invalid(flag: &str, raw: &str) -> (e: AppError)
    ensures
        is_config_error(e, fault_message(ArgFault::Invalid(flag@, raw@))),
{
    let mut m = String::from_str("Invalid value for ");
    m.append(flag);
    m.append(": ");
    m.append(raw);
    proof {
        assert(m@ =~= fault_message(ArgFault::Invalid(flag@, raw@)));
    }
    AppError::Config(m)
}

fn fault_error_unknown(arg: &str) -> (e: AppError)
    ensures
        is_config_error(e, fault_message(ArgFault::Unknown(arg@))),
{
    let mut m = String::from_str("Unknown argument: ");
    m.append(arg);
    m.append(". Use --help for usage.");
    proof {
        assert(m@ =~= fault_message(ArgFault::Unknown(arg@)));
    }
    AppError::Config(m)
}

/// The argument after the flag at `i`, or the error that it is missing.
pub fn next_value(args: &Vec<String>, i: usize, flag: &str) -> (r: Result<String, AppError>)
    requires
        i < args@.len(),
    ensures
        i + 1 < args@.len() ==> (r matches Ok(v) && v@ == args@[i + 1]@),
        i + 1 >= args@.len() ==> (r matches Err(e) && is_config_error(e, fault_message(ArgFault::Missing(flag@)))),
{
    if args.len() - i > 1 {
        Ok(args[i + 1].clone())
    } else {
        Err(fault_error_missing(flag))
    }
}

/// Reads the value of a `u32` flag.
pub fn parse_u32(raw: String, flag: &str) -> (r: Result<u32, AppError>)
    ensures
        match number_for(flag@, raw@, u32::MAX as nat) {
            Ok(n) => r == Ok::<u32, AppError>(n as u32),
            Err(f) => r matches Err(e) && is_config_error(e, fault_message(f)),
        },
{
    match parse_unsigned(raw.as_str(), u32::MAX as u64) {
        Some(v) => Ok(v as u32),
        None => Err(fault_error_invalid(flag, raw.as_str())),
    }
}

/// Reads the value of a `u64` flag.
pub fn parse_u64(raw: String, flag: &str) -> (r: Result<u64, AppError>)
    ensures
        match number_for(flag@, raw@, u64::MAX as nat) {
            Ok(n) => r == Ok::<u64, AppError>(n as u64),
            Err(f) => r matches Err(e) && is_config_error(e, fault_message(f)),
        },
{
    match parse_unsigned(raw.as_str(), u64::MAX) {
        Some(v) => Ok(v),
        None => Err(fault_error_invalid(flag, raw.as_str())),
    }
}

/// Reads the value of a `u16` flag.
pub fn parse_u16(raw: String, flag: &str) -> (r: Result<u16, AppError>)
    ensures
        match number_for(flag@, raw@, u16::MAX as nat) {
            Ok(n) => r == Ok::<u16, AppError>(n as u16),
            Err(f) => r matches Err(e) && is_config_error(e, fault_message(f)),
        },
{
    match parse_unsigned(raw.as_str(), u16::MAX as u64) {
        Some(v) => Ok(v as u16),
        None => Err(fault_error_invalid(flag, raw.as_str())),
    }
}

/// The reading of the command line part way through.
pub struct ScanState {
    pub cfg: Config,
    pub explicit: ExplicitOverrides,
    pub fast: bool,
    pub release: bool,
    pub gamma_reading: FloatReading,
    pub contrast_reading: FloatReading,
}

impl View for ScanState {
    type V = ScanModel;

    open spec fn view(&self) -> ScanModel {
        ScanModel {
            cfg: self.cfg@,
            explicit: self.explicit@,
            fast: self.fast,
            release: self.release,
            gamma_reading: self.gamma_reading,
            contrast_reading: self.contrast_reading,
        }
    }
}

fn is_plain(a: &str) -> (r: bool)
    ensures
        r == is_plain_flag(a@),
{
    str_eq(a, "-h") || str_eq(a, "--help") || str_eq(a, "--list-devices") || str_eq(
        a,
        "--show-metrics",
    ) || str_eq(a, "--hide-metrics") || str_eq(a, "--fast") || str_eq(a, "--release-mode")
        || str_eq(a, "--no-color") || str_eq(a, "--ansi256") || str_eq(a, "--truecolor")
}

fn is_value(a: &str) -> (r: bool)
    ensures
        r == is_value_flag(a@),
{
    str_eq(a, "--device") || str_eq(a, "--width") || str_eq(a, "--height") || str_eq(a, "--fps")
        || str_eq(a, "--pix-fmt") || str_eq(a, "--ramp") || str_eq(a, "--gamma") || str_eq(
        a,
        "--contrast",
    ) || str_eq(a, "--render-fps") || str_eq(a, "--log-metrics-ms") || str_eq(a, "--max-cols")
        || str_eq(a, "--max-rows") || str_eq(a, "--max-failures") || str_eq(a, "--backoff-ms")
}

fn apply_plain(a: &str, st: &mut ScanState)
    requires
        is_plain_flag(a@),
    ensures
        final(st)@ == plain_step(a@, old(st)@),
{
    if str_eq(a, "-h") || str_eq(a, "--help") {
        st.cfg.show_help = true;
    } else if str_eq(a, "--list-devices") {
        st.cfg.list_devices = true;
    } else if str_eq(a, "--show-metrics") {
        st.cfg.show_metrics = true;
        st.explicit.show_metrics = Some(true);
    } else if str_eq(a, "--hide-metrics") {
        st.cfg.show_metrics = false;
        st.explicit.show_metrics = Some(false);
    } else if str_eq(a, "--fast") {
        st.fast = true;
    } else if str_eq(a, "--release-mode") {
        st.release = true;
    } else {
        let m = if str_eq(a, "--no-color") {
            ColorMode::NoColor
        } else if str_eq(a, "--ansi256") {
            ColorMode::Ansi256
        } else {
            ColorMode::Truecolor
        };
        st.cfg.color_mode = m;
        st.explicit.color_mode = Some(m);
    }
}

fn apply_value(flag: &str, v: String, reading: FloatReading, st: &mut ScanState) -> (r: Result<(), AppError>)
    ensures
        match value_step(flag@, v@, reading, old(st)@) {
            Ok(s) => r is Ok && final(st)@ == s,
            Err(f) => r matches Err(e) && is_config_error(e, fault_message(f)),
        },
{
    if str_eq(flag, "--device") {
        st.cfg.device = Some(v);
    } else if str_eq(flag, "--width") {
        st.cfg.width = parse_u32(v, flag)?;
    } else if str_eq(flag, "--height") {
        st.cfg.height = parse_u32(v, flag)?;
    } else if str_eq(flag, "--fps") {
        st.cfg.fps = parse_u32(v, flag)?;
    } else if str_eq(flag, "--pix-fmt") {
        st.cfg.pix_fmt = v;
    } else if str_eq(flag, "--ramp") {
        st.explicit.ramp_name = Some(v.clone());
        st.cfg.ramp_name = v;
    } else if str_eq(flag, "--gamma") {
        if reading == FloatReading::Invalid {
            return Err(fault_error_invalid(flag, v.as_str()));
        }
        st.cfg.gamma_text = v;
        st.gamma_reading = reading;
    } else if str_eq(flag, "--contrast") {
        if reading == FloatReading::Invalid {
            return Err(fault_error_invalid(flag, v.as_str()));
        }
        st.cfg.contrast_text = v;
        st.contrast_reading = reading;
    } else if str_eq(flag, "--render-fps") {
        let n = parse_u32(v, flag)?;
        st.cfg.render_fps = n;
        st.explicit.render_fps = Some(n);
    } else if str_eq(flag, "--log-metrics-ms") {
        st.cfg.log_metrics_ms = parse_u64(v, flag)?;
    } else if str_eq(flag, "--max-cols") {
        let n = parse_u16(v, flag)?;
        st.cfg.max_cols = n;
        st.explicit.max_cols = Some(n);
    } else if str_eq(flag, "--max-rows") {
        let n = parse_u16(v, flag)?;
        st.cfg.max_rows = n;
        st.explicit.max_rows = Some(n);
    } else if str_eq(flag, "--max-failures") {
        st.cfg.max_consecutive_failures = parse_u32(v, flag)?;
    } else {
        st.cfg.backoff_base_ms = parse_u64(v, flag)?;
    }
    Ok(())
}

/// The flag whose `flag=` form begins `a`, with the text after the `=`.
fn split_prefixed(a: &str) -> (r: Option<(&'static str, String)>)
    ensures
        match prefixed_flag(a@) {
            Some((flag, v)) => r matches Some((f, w)) && f@ == flag && w@ == v,
            None => r is None,
        },
{
    if let Some(v) = str_strip_prefix(a, "--device=") {
        return Some(("--device", v));
    }
    if let Some(v) = str_strip_prefix(a, "--width=") {
        return Some(("--width", v));
    }
    if let Some(v) = str_strip_prefix(a, "--height=") {
        return Some(("--height", v));
    }
    if let Some(v) = str_strip_prefix(a, "--fps=") {
        return Some(("--fps", v));
    }
    if let Some(v) = str_strip_prefix(a, "--pix-fmt=") {
        return Some(("--pix-fmt", v));
    }
    if let Some(v) = str_strip_prefix(a, "--ramp=") {
        return Some(("--ramp", v));
    }
    if let Some(v) = str_strip_prefix(a, "--gamma=") {
        return Some(("--gamma", v));
    }
    if let Some(v) = str_strip_prefix(a, "--contrast=") {
        return Some(("--contrast", v));
    }
    if let Some(v) = str_strip_prefix(a, "--render-fps=") {
        return Some(("--render-fps", v));
    }
    if let Some(v) = str_strip_prefix(a, "--log-metrics-ms=") {
        return Some(("--log-metrics-ms", v));
    }
    if let Some(v) = str_strip_prefix(a, "--max-cols=") {
        return Some(("--max-cols", v));
    }
    if let Some(v) = str_strip_prefix(a, "--max-rows=") {
        return Some(("--max-rows", v));
    }
    if let Some(v) = str_strip_prefix(a, "--max-failures=") {
        return Some(("--max-failures", v));
    }
    if let Some(v) = str_strip_prefix(a, "--backoff-ms=") {
        return Some(("--backoff-ms", v));
    }
    None
}

fn apply_prefixed(a: &str, reading: FloatReading, st: &mut ScanState) -> (r: Result<(), AppError>)
    ensures
        match prefixed_step(a@, reading, old(st)@) {
            Ok(s) => r is Ok && final(st)@ == s,
            Err(f) => r matches Err(e) && is_config_error(e, fault_message(f)),
        },
{
    match split_prefixed(a) {
        Some((flag, v)) => apply_value(flag, v, reading, st),
        None => Err(fault_error_unknown(a)),
    }
}


/// Reads the argument at `i`: what it changes, and how many arguments it uses.
fn scan_one(args: &Vec<String>, readings: &Vec<ArgReadings>, i: usize, st: &mut ScanState) -> (r: Result<usize, AppError>)
    requires
        i < args@.len(),
        readings@.len() == args@.len(),
    ensures
        match scan_step(arg_chars(args@).skip(i as int), readings@.skip(i as int), old(st)@) {
            Ok((s, k)) => r == Ok::<usize, AppError>(k as usize) && final(st)@ == s,
            Err(f) => r matches Err(e) && is_config_error(e, fault_message(f)),
        },
{
    let n = args.len();
    let arg = args[i].as_str();
    let ghost rest = arg_chars(args@).skip(i as int);
    assert(rest[0] == arg@);
    if is_plain(arg) {
        apply_plain(arg, st);
        Ok(1)
    } else if is_value(arg) {
        match next_value(args, i, arg) {
            Err(e) => Err(e),
            Ok(v) => {
                assert(rest[1] == v@);
                assert(readings@.skip(i as int)[1] == readings@[i + 1]);
                match apply_value(arg, v, readings[i + 1].whole, st) {
                    Err(e) => Err(e),
                    Ok(()) => Ok(2),
                }
            },
        }
    } else {
        assert(readings@.skip(i as int)[0] == readings@[i as int]);
        match apply_prefixed(arg, readings[i].inline, st) {
            Err(e) => Err(e),
            Ok(()) => Ok(1),
        }
    }
}

/// Applies the presets and the explicit flags, then checks the settings.
fn finish(st: ScanState) -> (r: Result<Config, AppError>)
    ensures
        match finished(st@) {
            Ok(c) => r matches Ok(cfg) && cfg@ == c,
            Err(m) => r matches Err(e) && is_config_error(e, m),
        },
{
    let mut cfg = st.cfg;
    if st.fast {
        apply_fast_preset(&mut cfg);
    }
    if st.release {
        apply_release_mode_preset(&mut cfg);
        cfg.release_mode = true;
    }
    apply_explicit_overrides(&mut cfg, &st.explicit);
    assert(cfg@ == settled(st@));
    if cfg.width == 0 || cfg.height == 0 {
        return Err(AppError::Config(String::from_str("Width and height must be greater than zero.")));
    }
    if cfg.fps == 0 {
        return Err(AppError::Config(String::from_str("FPS must be greater than zero.")));
    }
    if st.gamma_reading == FloatReading::AtMostZero {
        return Err(AppError::Config(String::from_str("--gamma must be positive (for example, 1.0).")));
    }
    if st.contrast_reading == FloatReading::AtMostZero {
        return Err(
            AppError::Config(String::from_str("--contrast must be positive (for example, 1.0).")),
        );
    }
    Ok(cfg)
}

impl Config {
    /// Reads the command line `args` (program name excluded). `readings[i].whole` is how
    /// `args[i]` reads as an `f32`, and `readings[i].inline` how `float_text_of(args[i])` does; `env_device` is the camera device named by
    /// the environment, which `--device` overrides.
    pub fn from_args(args: &Vec<String>, readings: &Vec<ArgReadings>, env_device: Option<String>) -> (r: Result<Config, AppError>)
        requires
            readings@.len() == args@.len(),
        ensures
            match command_line(arg_chars(args@), readings@, opt_chars(env_device)) {
                Ok(c) => r matches Ok(cfg) && cfg@ == c,
                Err(m) => r matches Err(e) && is_config_error(e, m),
            },
    {
        let ghost dev = opt_chars(env_device);
        let mut st = ScanState {
            cfg: Config::defaults(env_device),
            explicit: ExplicitOverrides::none(),
            fast: false,
            release: false,
            gamma_reading: FloatReading::Accepted,
            contrast_reading: FloatReading::Accepted,
        };
        let ghost all = arg_chars(args@);
        assert(all.skip(0) =~= all);
        assert(readings@.skip(0) =~= readings@);
        let mut i: usize = 0;
        while i < args.len()
            invariant
                all == arg_chars(args@),
                dev == opt_chars(env_device),
                all.len() == args@.len(),
                i <= args@.len(),
                readings@.len() == args@.len(),
                scan(all.skip(i as int), readings@.skip(i as int), st@) == scan(all, readings@, initial_scan(dev)),
            decreases args@.len() - i,
        {
            let ghost before = st@;
            match scan_one(args, readings, i, &mut st) {
                Err(e) => {
                    proof {
                        assert(all.skip(i as int).len() > 0);
                        assert(scan_step(all.skip(i as int), readings@.skip(i as int), before) is Err);
                        assert(scan(all.skip(i as int), readings@.skip(i as int), before) is Err);
                    }
                    return Err(e);
                },
                Ok(k) => {
                    proof {
                        assert(all.skip(i as int).skip(k as int) =~= all.skip(i + k));
                        assert(readings@.skip(i as int).skip(k as int) =~= readings@.skip(i + k));
                    }
                    i = i + k;
                },
            }
        }
        assert(all.skip(i as int).len() == 0);
        finish(st)
    }
}

/// The text of an argument that the caller reads as an `f32` for `from_args`: what follows
/// `--gamma=` or `--contrast=`, else the whole argument.
pub fn float_text_of(arg: &str) -> (r: String)
    ensures
        r@ == float_text(arg@),
{
    if let Some(v) = str_strip_prefix(arg, "--gamma=") {
        return v;
    }
    if let Some(v) = str_strip_prefix(arg, "--contrast=") {
        return v;
    }
    arg.to_owned()
}


/// Whether `p` is one of the two presets.
pub open spec fn is_preset_flag(p: Seq<char>) -> bool {
    p == "--release-mode"@ || p == "--fast"@
}

/// The reading state with the preset `p` switched on.
pub open spec fn with_preset(st: ScanModel, p: Seq<char>) -> ScanModel {
    if p == "--release-mode"@ {
        ScanModel { release: true, ..st }
    } else {
        ScanModel { fast: true, ..st }
    }
}

/// A reading result with the preset `p` switched on.
pub open spec fn result_with_preset(r: Result<ScanModel, ArgFault>, p: Seq<char>) -> Result<ScanModel, ArgFault> {
    match r {
        Ok(s) => Ok(with_preset(s, p)),
        Err(f) => Err(f),
    }
}

proof fn lemma_plain_keeps_preset(a: Seq<char>, st: ScanModel, p: Seq<char>)
    requires
        is_preset_flag(p),
    ensures
        plain_step(a, with_preset(st, p)) == with_preset(plain_step(a, st), p),
{
}

proof fn lemma_value_keeps_preset(flag: Seq<char>, v: Seq<char>, reading: FloatReading, st: ScanModel, p: Seq<char>)
    requires
        is_preset_flag(p),
    ensures
        value_step(flag, v, reading, with_preset(st, p)) == result_with_preset(value_step(flag, v, reading, st), p),
{
    if flag == "--device"@ {
    } else if flag == "--width"@ {
    } else if flag == "--height"@ {
    } else if flag == "--fps"@ {
    } else if flag == "--pix-fmt"@ {
    } else if flag == "--ramp"@ {
    } else if flag == "--gamma"@ {
    } else if flag == "--contrast"@ {
    } else if flag == "--render-fps"@ {
    } else if flag == "--log-metrics-ms"@ {
    } else if flag == "--max-cols"@ {
    } else if flag == "--max-rows"@ {
    } else if flag == "--max-failures"@ {
    } else {
    }
}


proof fn lemma_step_keeps_preset(args: Seq<Seq<char>>, readings: Seq<ArgReadings>, st: ScanModel, p: Seq<char>)
    requires
        args.len() > 0,
        is_preset_flag(p),
    ensures
        scan_step(args, readings, with_preset(st, p)) == match scan_step(args, readings, st) {
            Ok((s, k)) => Ok::<(ScanModel, nat), ArgFault>((with_preset(s, p), k)),
            Err(f) => Err(f),
        },
{
    let a = args[0];
    if is_plain_flag(a) {
        lemma_plain_keeps_preset(a, st, p);
    } else if is_value_flag(a) {
        if args.len() >= 2 {
            lemma_value_keeps_preset(a, args[1], readings[1].whole, st, p);
        }
    } else {
        match prefixed_flag(a) {
            Some((flag, v)) => lemma_value_keeps_preset(flag, v, readings[0].inline, st, p),
            None => {},
        }
    }
}

proof fn lemma_scan_keeps_preset(args: Seq<Seq<char>>, readings: Seq<ArgReadings>, st: ScanModel, p: Seq<char>)
    requires
        is_preset_flag(p),
    ensures
        scan(args, readings, with_preset(st, p)) == result_with_preset(scan(args, readings, st), p),
    decreases args.len(),
{
    if args.len() > 0 {
        lemma_step_keeps_preset(args, readings, st, p);
        match scan_step(args, readings, st) {
            Ok((s, k)) => {
                if 1 <= k <= args.len() {
                    lemma_scan_keeps_preset(args.skip(k as int), readings.skip(k as int), s, p);
                }
            },
            Err(f) => {},
        }
    }
}

/// Whether reading `args` ends on a flag whose value is missing.
pub open spec fn ends_waiting_for_value(args: Seq<Seq<char>>, readings: Seq<ArgReadings>, st: ScanModel) -> bool {
    scan(args, readings, st) matches Err(ArgFault::Missing(_))
}

proof fn lemma_scan_concat(
    a: Seq<Seq<char>>,
    ra: Seq<ArgReadings>,
    b: Seq<Seq<char>>,
    rb: Seq<ArgReadings>,
    st: ScanModel,
)
    requires
        ra.len() == a.len(),
        !ends_waiting_for_value(a, ra, st),
    ensures
        scan(a + b, ra + rb, st) == match scan(a, ra, st) {
            Ok(s) => scan(b, rb, s),
            Err(f) => Err(f),
        },
    decreases a.len(),
{
    if a.len() == 0 {
        assert(a + b =~= b);
        assert(ra + rb =~= rb);
    } else {
        assert((a + b)[0] == a[0]);
        assert((ra + rb)[0] == ra[0]);
        if a.len() >= 2 {
            assert((a + b)[1] == a[1]);
            assert((ra + rb)[1] == ra[1]);
        }
        match scan_step(a, ra, st) {
            Ok((s, k)) => {
                assert(scan_step(a + b, ra + rb, st) == scan_step(a, ra, st));
                assert((a + b).skip(k as int) =~= a.skip(k as int) + b);
                assert((ra + rb).skip(k as int) =~= ra.skip(k as int) + rb);
                lemma_scan_concat(a.skip(k as int), ra.skip(k as int), b, rb, s);
            },
            Err(f) => {
                assert(scan_step(a + b, ra + rb, st) == scan_step(a, ra, st));
            },
        }
    }
}

/// A preset flag has the same effect wherever it stands among the arguments: moving
/// `--release-mode` or `--fast` to the front leaves the outcome unchanged, so the flags given
/// explicitly win over the preset whether they come before it or after it. The one exception
/// is a preset that stands where a flag before it expects its value.
pub proof fn law_preset_position_is_irrelevant(
    a: Seq<Seq<char>>,
    ra: Seq<ArgReadings>,
    p: Seq<char>,
    rp: ArgReadings,
    b: Seq<Seq<char>>,
    rb: Seq<ArgReadings>,
    env_device: Option<Seq<char>>,
)
    requires
        is_preset_flag(p),
        ra.len() == a.len(),
        rb.len() == b.len(),
        !ends_waiting_for_value(a, ra, initial_scan(env_device)),
    ensures
        command_line(a + seq![p] + b, ra + seq![rp] + rb, env_device) == command_line(
            seq![p] + a + b,
            seq![rp] + ra + rb,
            env_device,
        ),
{
    reveal_strlit("-h");
    reveal_strlit("--help");
    reveal_strlit("--list-devices");
    reveal_strlit("--show-metrics");
    reveal_strlit("--hide-metrics");
    reveal_strlit("--fast");
    reveal_strlit("--release-mode");
    assert(is_plain_flag(p));
    lemma_differ_at("--release-mode"@, "-h"@, 1);
    lemma_differ_at("--release-mode"@, "--help"@, 2);
    lemma_differ_at("--release-mode"@, "--list-devices"@, 2);
    lemma_differ_at("--release-mode"@, "--show-metrics"@, 2);
    lemma_differ_at("--release-mode"@, "--hide-metrics"@, 2);
    lemma_differ_at("--release-mode"@, "--fast"@, 2);
    lemma_differ_at("--fast"@, "-h"@, 1);
    lemma_differ_at("--fast"@, "--help"@, 2);
    lemma_differ_at("--fast"@, "--list-devices"@, 2);
    lemma_differ_at("--fast"@, "--show-metrics"@, 2);
    lemma_differ_at("--fast"@, "--hide-metrics"@, 2);
    assert(forall|s: ScanModel| plain_step(p, s) == with_preset(s, p));
    let st0 = initial_scan(env_device);
    let pb = seq![p] + b;
    let rpb = seq![rp] + rb;
    assert(a + seq![p] + b =~= a + pb);
    assert(ra + seq![rp] + rb =~= ra + rpb);
    lemma_scan_concat(a, ra, pb, rpb, st0);
    // Reading `p` first, then the rest.
    assert(pb[0] == p);
    assert(pb.skip(1) =~= b);
    assert(rpb.skip(1) =~= rb);
    assert forall|s: ScanModel| scan(pb, rpb, s) == scan(b, rb, with_preset(s, p)) by {
        assert(scan_step(pb, rpb, s) == Ok::<(ScanModel, nat), ArgFault>((with_preset(s, p), 1)));
    }
    let front = seq![p] + a + b;
    let rfront = seq![rp] + ra + rb;
    assert(front[0] == p);
    assert(front.skip(1) =~= a + b);
    assert(rfront.skip(1) =~= ra + rb);
    assert(scan_step(front, rfront, st0) == Ok::<(ScanModel, nat), ArgFault>((with_preset(st0, p), 1)));
    assert(scan(front, rfront, st0) == scan(a + b, ra + rb, with_preset(st0, p)));
    lemma_scan_keeps_preset(a, ra, st0, p);
    lemma_scan_concat(a, ra, b, rb, with_preset(st0, p));
    match scan(a, ra, st0) {
        Ok(s) => {
            lemma_scan_keeps_preset(b, rb, s, p);
        },
        Err(f) => {},
    }
}


/// Two texts that differ at index `k` are different.
proof fn lemma_differ_at(x: Seq<char>, y: Seq<char>, k: int)
    requires
        0 <= k < x.len(),
        k < y.len(),
        x[k] != y[k],
    ensures
        x != y,
{
}

/// Whether a text holds no `=`.
pub open spec fn free_of_eq_sign(t: Seq<char>) -> bool {
    forall|j: int| 0 <= j < t.len() ==> t[j] != '='
}

/// No flag name holds `=`, and each `flag=` prefix is its flag followed by `=`.
proof fn lemma_flag_names()
    ensures
        free_of_eq_sign("-h"@),
        free_of_eq_sign("--help"@),
        free_of_eq_sign("--list-devices"@),
        free_of_eq_sign("--show-metrics"@),
        free_of_eq_sign("--hide-metrics"@),
        free_of_eq_sign("--fast"@),
        free_of_eq_sign("--release-mode"@),
        free_of_eq_sign("--no-color"@),
        free_of_eq_sign("--ansi256"@),
        free_of_eq_sign("--truecolor"@),
        free_of_eq_sign("--device"@),
        free_of_eq_sign("--width"@),
        free_of_eq_sign("--height"@),
        free_of_eq_sign("--fps"@),
        free_of_eq_sign("--pix-fmt"@),
        free_of_eq_sign("--ramp"@),
        free_of_eq_sign("--gamma"@),
        free_of_eq_sign("--contrast"@),
        free_of_eq_sign("--render-fps"@),
        free_of_eq_sign("--log-metrics-ms"@),
        free_of_eq_sign("--max-cols"@),
        free_of_eq_sign("--max-rows"@),
        free_of_eq_sign("--max-failures"@),
        free_of_eq_sign("--backoff-ms"@),
        "--device="@ == "--device"@ + seq!['='],
        "--width="@ == "--width"@ + seq!['='],
        "--height="@ == "--height"@ + seq!['='],
        "--fps="@ == "--fps"@ + seq!['='],
        "--pix-fmt="@ == "--pix-fmt"@ + seq!['='],
        "--ramp="@ == "--ramp"@ + seq!['='],
        "--gamma="@ == "--gamma"@ + seq!['='],
        "--contrast="@ == "--contrast"@ + seq!['='],
        "--render-fps="@ == "--render-fps"@ + seq!['='],
        "--log-metrics-ms="@ == "--log-metrics-ms"@ + seq!['='],
        "--max-cols="@ == "--max-cols"@ + seq!['='],
        "--max-rows="@ == "--max-rows"@ + seq!['='],
        "--max-failures="@ == "--max-failures"@ + seq!['='],
        "--backoff-ms="@ == "--backoff-ms"@ + seq!['='],
{
    reveal_strlit("-h");
    reveal_strlit("--help");
    reveal_strlit("--list-devices");
    reveal_strlit("--show-metrics");
    reveal_strlit("--hide-metrics");
    reveal_strlit("--fast");
    reveal_strlit("--release-mode");
    reveal_strlit("--no-color");
    reveal_strlit("--ansi256");
    reveal_strlit("--truecolor");
    reveal_strlit("--device");
    reveal_strlit("--width");
    reveal_strlit("--height");
    reveal_strlit("--fps");
    reveal_strlit("--pix-fmt");
    reveal_strlit("--ramp");
    reveal_strlit("--gamma");
    reveal_strlit("--contrast");
    reveal_strlit("--render-fps");
    reveal_strlit("--log-metrics-ms");
    reveal_strlit("--max-cols");
    reveal_strlit("--max-rows");
    reveal_strlit("--max-failures");
    reveal_strlit("--backoff-ms");
    reveal_strlit("--device=");
    reveal_strlit("--width=");
    reveal_strlit("--height=");
    reveal_strlit("--fps=");
    reveal_strlit("--pix-fmt=");
    reveal_strlit("--ramp=");
    reveal_strlit("--gamma=");
    reveal_strlit("--contrast=");
    reveal_strlit("--render-fps=");
    reveal_strlit("--log-metrics-ms=");
    reveal_strlit("--max-cols=");
    reveal_strlit("--max-rows=");
    reveal_strlit("--max-failures=");
    reveal_strlit("--backoff-ms=");
    assert("--device="@ =~= "--device"@ + seq!['=']);
    assert("--width="@ =~= "--width"@ + seq!['=']);
    assert("--height="@ =~= "--height"@ + seq!['=']);
    assert("--fps="@ =~= "--fps"@ + seq!['=']);
    assert("--pix-fmt="@ =~= "--pix-fmt"@ + seq!['=']);
    assert("--ramp="@ =~= "--ramp"@ + seq!['=']);
    assert("--gamma="@ =~= "--gamma"@ + seq!['=']);
    assert("--contrast="@ =~= "--contrast"@ + seq!['=']);
    assert("--render-fps="@ =~= "--render-fps"@ + seq!['=']);
    assert("--log-metrics-ms="@ =~= "--log-metrics-ms"@ + seq!['=']);
    assert("--max-cols="@ =~= "--max-cols"@ + seq!['=']);
    assert("--max-rows="@ =~= "--max-rows"@ + seq!['=']);
    assert("--max-failures="@ =~= "--max-failures"@ + seq!['=']);
    assert("--backoff-ms="@ =~= "--backoff-ms"@ + seq!['=']);
}

/// A value flag is no plain flag.
proof fn lemma_value_flag_not_plain(f: Seq<char>)
    requires
        is_value_flag(f),
    ensures
        !is_plain_flag(f),
{
    reveal_strlit("-h");
    reveal_strlit("--help");
    reveal_strlit("--list-devices");
    reveal_strlit("--show-metrics");
    reveal_strlit("--hide-metrics");
    reveal_strlit("--fast");
    reveal_strlit("--release-mode");
    reveal_strlit("--no-color");
    reveal_strlit("--ansi256");
    reveal_strlit("--truecolor");
    reveal_strlit("--device");
    reveal_strlit("--width");
    reveal_strlit("--height");
    reveal_strlit("--fps");
    reveal_strlit("--pix-fmt");
    reveal_strlit("--ramp");
    reveal_strlit("--gamma");
    reveal_strlit("--contrast");
    reveal_strlit("--render-fps");
    reveal_strlit("--log-metrics-ms");
    reveal_strlit("--max-cols");
    reveal_strlit("--max-rows");
    reveal_strlit("--max-failures");
    reveal_strlit("--backoff-ms");
    if f == "--device"@ {
        lemma_differ_at(f, "-h"@, 1);
        lemma_differ_at(f, "--help"@, 2);
        lemma_differ_at(f, "--list-devices"@, 2);
        lemma_differ_at(f, "--show-metrics"@, 2);
        lemma_differ_at(f, "--hide-metrics"@, 2);
        lemma_differ_at(f, "--fast"@, 2);
        lemma_differ_at(f, "--release-mode"@, 2);
        lemma_differ_at(f, "--no-color"@, 2);
        lemma_differ_at(f, "--ansi256"@, 2);
        lemma_differ_at(f, "--truecolor"@, 2);
    } else if f == "--width"@ {
        lemma_differ_at(f, "-h"@, 1);
        lemma_differ_at(f, "--help"@, 2);
        lemma_differ_at(f, "--list-devices"@, 2);
        lemma_differ_at(f, "--show-metrics"@, 2);
        lemma_differ_at(f, "--hide-metrics"@, 2);
        lemma_differ_at(f, "--fast"@, 2);
        lemma_differ_at(f, "--release-mode"@, 2);
        lemma_differ_at(f, "--no-color"@, 2);
        lemma_differ_at(f, "--ansi256"@, 2);
        lemma_differ_at(f, "--truecolor"@, 2);
    } else if f == "--height"@ {
        lemma_differ_at(f, "-h"@, 1);
        lemma_differ_at(f, "--help"@, 4);
        lemma_differ_at(f, "--list-devices"@, 2);
        lemma_differ_at(f, "--show-metrics"@, 2);
        lemma_differ_at(f, "--hide-metrics"@, 3);
        lemma_differ_at(f, "--fast"@, 2);
        lemma_differ_at(f, "--release-mode"@, 2);
        lemma_differ_at(f, "--no-color"@, 2);
        lemma_differ_at(f, "--ansi256"@, 2);
        lemma_differ_at(f, "--truecolor"@, 2);
    } else if f == "--fps"@ {
        lemma_differ_at(f, "-h"@, 1);
        lemma_differ_at(f, "--help"@, 2);
        lemma_differ_at(f, "--list-devices"@, 2);
        lemma_differ_at(f, "--show-metrics"@, 2);
        lemma_differ_at(f, "--hide-metrics"@, 2);
        lemma_differ_at(f, "--fast"@, 3);
        lemma_differ_at(f, "--release-mode"@, 2);
        lemma_differ_at(f, "--no-color"@, 2);
        lemma_differ_at(f, "--ansi256"@, 2);
        lemma_differ_at(f, "--truecolor"@, 2);
    } else if f == "--pix-fmt"@ {
        lemma_differ_at(f, "-h"@, 1);
        lemma_differ_at(f, "--help"@, 2);
        lemma_differ_at(f, "--list-devices"@, 2);
        lemma_differ_at(f, "--show-metrics"@, 2);
        lemma_differ_at(f, "--hide-metrics"@, 2);
        lemma_differ_at(f, "--fast"@, 2);
        lemma_differ_at(f, "--release-mode"@, 2);
        lemma_differ_at(f, "--no-color"@, 2);
        lemma_differ_at(f, "--ansi256"@, 2);
        lemma_differ_at(f, "--truecolor"@, 2);
    } else if f == "--ramp"@ {
        lemma_differ_at(f, "-h"@, 1);
        lemma_differ_at(f, "--help"@, 2);
        lemma_differ_at(f, "--list-devices"@, 2);
        lemma_differ_at(f, "--show-metrics"@, 2);
        lemma_differ_at(f, "--hide-metrics"@, 2);
        lemma_differ_at(f, "--fast"@, 2);
        lemma_differ_at(f, "--release-mode"@, 3);
        lemma_differ_at(f, "--no-color"@, 2);
        lemma_differ_at(f, "--ansi256"@, 2);
        lemma_differ_at(f, "--truecolor"@, 2);
    } else if f == "--gamma"@ {
        lemma_differ_at(f, "-h"@, 1);
        lemma_differ_at(f, "--help"@, 2);
        lemma_differ_at(f, "--list-devices"@, 2);
        lemma_differ_at(f, "--show-metrics"@, 2);
        lemma_differ_at(f, "--hide-metrics"@, 2);
        lemma_differ_at(f, "--fast"@, 2);
        lemma_differ_at(f, "--release-mode"@, 2);
        lemma_differ_at(f, "--no-color"@, 2);
        lemma_differ_at(f, "--ansi256"@, 2);
        lemma_differ_at(f, "--truecolor"@, 2);
    } else if f == "--contrast"@ {
        lemma_differ_at(f, "-h"@, 1);
        lemma_differ_at(f, "--help"@, 2);
        lemma_differ_at(f, "--list-devices"@, 2);
        lemma_differ_at(f, "--show-metrics"@, 2);
        lemma_differ_at(f, "--hide-metrics"@, 2);
        lemma_differ_at(f, "--fast"@, 2);
        lemma_differ_at(f, "--release-mode"@, 2);
        lemma_differ_at(f, "--no-color"@, 2);
        lemma_differ_at(f, "--ansi256"@, 2);
        lemma_differ_at(f, "--truecolor"@, 2);
    } else if f == "--render-fps"@ {
        lemma_differ_at(f, "-h"@, 1);
        lemma_differ_at(f, "--help"@, 2);
        lemma_differ_at(f, "--list-devices"@, 2);
        lemma_differ_at(f, "--show-metrics"@, 2);
        lemma_differ_at(f, "--hide-metrics"@, 2);
        lemma_differ_at(f, "--fast"@, 2);
        lemma_differ_at(f, "--release-mode"@, 4);
        lemma_differ_at(f, "--no-color"@, 2);
        lemma_differ_at(f, "--ansi256"@, 2);
        lemma_differ_at(f, "--truecolor"@, 2);
    } else if f == "--log-metrics-ms"@ {
        lemma_differ_at(f, "-h"@, 1);
        lemma_differ_at(f, "--help"@, 2);
        lemma_differ_at(f, "--list-devices"@, 3);
        lemma_differ_at(f, "--show-metrics"@, 2);
        lemma_differ_at(f, "--hide-metrics"@, 2);
        lemma_differ_at(f, "--fast"@, 2);
        lemma_differ_at(f, "--release-mode"@, 2);
        lemma_differ_at(f, "--no-color"@, 2);
        lemma_differ_at(f, "--ansi256"@, 2);
        lemma_differ_at(f, "--truecolor"@, 2);
    } else if f == "--max-cols"@ {
        lemma_differ_at(f, "-h"@, 1);
        lemma_differ_at(f, "--help"@, 2);
        lemma_differ_at(f, "--list-devices"@, 2);
        lemma_differ_at(f, "--show-metrics"@, 2);
        lemma_differ_at(f, "--hide-metrics"@, 2);
        lemma_differ_at(f, "--fast"@, 2);
        lemma_differ_at(f, "--release-mode"@, 2);
        lemma_differ_at(f, "--no-color"@, 2);
        lemma_differ_at(f, "--ansi256"@, 2);
        lemma_differ_at(f, "--truecolor"@, 2);
    } else if f == "--max-rows"@ {
        lemma_differ_at(f, "-h"@, 1);
        lemma_differ_at(f, "--help"@, 2);
        lemma_differ_at(f, "--list-devices"@, 2);
        lemma_differ_at(f, "--show-metrics"@, 2);
        lemma_differ_at(f, "--hide-metrics"@, 2);
        lemma_differ_at(f, "--fast"@, 2);
        lemma_differ_at(f, "--release-mode"@, 2);
        lemma_differ_at(f, "--no-color"@, 2);
        lemma_differ_at(f, "--ansi256"@, 2);
        lemma_differ_at(f, "--truecolor"@, 2);
    } else if f == "--max-failures"@ {
        lemma_differ_at(f, "-h"@, 1);
        lemma_differ_at(f, "--help"@, 2);
        lemma_differ_at(f, "--list-devices"@, 2);
        lemma_differ_at(f, "--show-metrics"@, 2);
        lemma_differ_at(f, "--hide-metrics"@, 2);
        lemma_differ_at(f, "--fast"@, 2);
        lemma_differ_at(f, "--release-mode"@, 2);
        lemma_differ_at(f, "--no-color"@, 2);
        lemma_differ_at(f, "--ansi256"@, 2);
        lemma_differ_at(f, "--truecolor"@, 2);
    } else if f == "--backoff-ms"@ {
        lemma_differ_at(f, "-h"@, 1);
        lemma_differ_at(f, "--help"@, 2);
        lemma_differ_at(f, "--list-devices"@, 2);
        lemma_differ_at(f, "--show-metrics"@, 2);
        lemma_differ_at(f, "--hide-metrics"@, 2);
        lemma_differ_at(f, "--fast"@, 2);
        lemma_differ_at(f, "--release-mode"@, 2);
        lemma_differ_at(f, "--no-color"@, 2);
        lemma_differ_at(f, "--ansi256"@, 2);
        lemma_differ_at(f, "--truecolor"@, 2);
    }
}

/// A text with `=` at index `n` is none of the texts free of `=`.
proof fn lemma_eq_sign_differs(t: Seq<char>, n: int, name: Seq<char>)
    requires
        0 <= n < t.len(),
        t[n] == '=',
        free_of_eq_sign(name),
    ensures
        t != name,
{
}

/// If `f=v` begins with `g=`, where neither flag name holds `=`, then `g` is `f` and the rest is `v`.
proof fn lemma_prefix_names_flag(f: Seq<char>, v: Seq<char>, g: Seq<char>)
    requires
        free_of_eq_sign(f),
        free_of_eq_sign(g),
        has_prefix(f + seq!['='] + v, g + seq!['=']),
    ensures
        g == f,
        (f + seq!['='] + v).skip(g.len() + 1 as int) == v,
{
    let t = f + seq!['='] + v;
    let p = g + seq!['='];
    assert(t.take(p.len() as int)[g.len() as int] == p[g.len() as int]);
    if g.len() < f.len() {
        assert(t[g.len() as int] == f[g.len() as int]);
    } else if g.len() > f.len() {
        assert(t.take(p.len() as int)[f.len() as int] == g[f.len() as int]);
    }
    assert forall|j: int| 0 <= j < f.len() implies g[j] == f[j] by {
        assert(t.take(p.len() as int)[j] == p[j]);
    }
    assert(g =~= f);
    assert(t.skip(g.len() + 1 as int) =~= v);
}

/// A value flag followed by `=` and a value: it is neither a plain nor a value flag, and its
/// `flag=` form resolves to that flag and that value.
proof fn lemma_joined_flag(f: Seq<char>, v: Seq<char>)
    requires
        is_value_flag(f),
    ensures
        !is_plain_flag(f),
        !is_plain_flag(f + seq!['='] + v),
        !is_value_flag(f + seq!['='] + v),
        prefixed_flag(f + seq!['='] + v) == Some((f, v)),
{
    lemma_flag_names();
    lemma_value_flag_not_plain(f);
    let t = f + seq!['='] + v;
    let n = f.len() as int;
    assert(t[n] == '=');
    assert(free_of_eq_sign(f));
    assert forall|name: Seq<char>| free_of_eq_sign(name) implies t != name by {
        lemma_eq_sign_differs(t, n, name);
    }
    assert forall|g: Seq<char>|
        free_of_eq_sign(g) && #[trigger] has_prefix(t, g + seq!['=']) implies g == f && t.skip(
            g.len() + 1 as int,
        ) == v by {
        lemma_prefix_names_flag(f, v, g);
    }
    assert(t.take(n + 1) =~= f + seq!['=']);
    assert(has_prefix(t, f + seq!['=']));
}

/// The float text of `--gamma=v` or `--contrast=v` is `v`: so, with readings computed from
/// the float texts, the `inline` reading of the joined argument is the `whole` reading of `v`.
pub proof fn law_float_text_of_joined(v: Seq<char>)
    ensures
        float_text("--gamma"@ + seq!['='] + v) == v,
        float_text("--contrast"@ + seq!['='] + v) == v,
{
    lemma_flag_names();
    reveal_strlit("--gamma");
    reveal_strlit("--contrast");
    let g = "--gamma"@ + seq!['='] + v;
    let c = "--contrast"@ + seq!['='] + v;
    assert(g.take("--gamma"@.len() + 1 as int) =~= "--gamma"@ + seq!['=']);
    assert(g.skip("--gamma"@.len() + 1 as int) =~= v);
    assert(c.take("--contrast"@.len() + 1 as int) =~= "--contrast"@ + seq!['=']);
    assert(c.skip("--contrast"@.len() + 1 as int) =~= v);
    if has_prefix(c, "--gamma"@ + seq!['=']) {
        lemma_prefix_names_flag("--contrast"@, v, "--gamma"@);
        lemma_differ_at("--contrast"@, "--gamma"@, 2);
    }
}

/// A value flag may be given as `flag value` or as `flag=value`, with the same outcome:
/// the two command lines give the same settings or the same refusal. For `--gamma` and
/// `--contrast` the `flag=value` argument's `inline` reading is the reading of the value;
/// for the other flags no reading matters. This holds wherever the flag is read as a flag, that is, unless it
/// stands where a flag before it expects its value.
pub proof fn law_joined_value_form(
    a: Seq<Seq<char>>,
    ra: Seq<ArgReadings>,
    f: Seq<char>,
    v: Seq<char>,
    rf: ArgReadings,
    rv: ArgReadings,
    rj: ArgReadings,
    b: Seq<Seq<char>>,
    rb: Seq<ArgReadings>,
    env_device: Option<Seq<char>>,
)
    requires
        is_value_flag(f),
        ra.len() == a.len(),
        rb.len() == b.len(),
        (f == "--gamma"@ || f == "--contrast"@) ==> rj.inline == rv.whole,
        !ends_waiting_for_value(a, ra, initial_scan(env_device)),
    ensures
        command_line(a + seq![f, v] + b, ra + seq![rf, rv] + rb, env_device) == command_line(
            a + seq![f + seq!['='] + v] + b,
            ra + seq![rj] + rb,
            env_device,
        ),
{
    let j = f + seq!['='] + v;
    let pair = seq![f, v] + b;
    let rpair = seq![rf, rv] + rb;
    let one = seq![j] + b;
    let rone = seq![rj] + rb;
    assert(a + seq![f, v] + b =~= a + pair);
    assert(ra + seq![rf, rv] + rb =~= ra + rpair);
    assert(a + seq![j] + b =~= a + one);
    assert(ra + seq![rj] + rb =~= ra + rone);
    lemma_scan_concat(a, ra, pair, rpair, initial_scan(env_device));
    lemma_scan_concat(a, ra, one, rone, initial_scan(env_device));
    match scan(a, ra, initial_scan(env_device)) {
        Ok(s) => lemma_joined_form_step(f, v, rf, rv, rj, b, rb, s),
        Err(_) => {},
    }
}

proof fn lemma_joined_form_step(
    f: Seq<char>,
    v: Seq<char>,
    rf: ArgReadings,
    rv: ArgReadings,
    rj: ArgReadings,
    b: Seq<Seq<char>>,
    rb: Seq<ArgReadings>,
    s: ScanModel,
)
    requires
        is_value_flag(f),
        (f == "--gamma"@ || f == "--contrast"@) ==> rj.inline == rv.whole,
    ensures
        scan(seq![f, v] + b, seq![rf, rv] + rb, s) == scan(
            seq![f + seq!['='] + v] + b,
            seq![rj] + rb,
            s,
        ),
{
    lemma_joined_flag(f, v);
    let j = f + seq!['='] + v;
    let pair = seq![f, v] + b;
    let rpair = seq![rf, rv] + rb;
    let one = seq![j] + b;
    let rone = seq![rj] + rb;
    assert(pair[0] == f && pair[1] == v && rpair[1] == rv);
    assert(one[0] == j && rone[0] == rj);
    assert(pair.skip(2) =~= b);
    assert(rpair.skip(2) =~= rb);
    assert(one.skip(1) =~= b);
    assert(rone.skip(1) =~= rb);
    assert(value_step(f, v, rj.inline, s) == value_step(f, v, rv.whole, s));
    assert(prefixed_step(j, rj.inline, s) == value_step(f, v, rv.whole, s));
}

/// Each color flag sets its own mode: `--no-color` no color, `--ansi256` 256 colors,
/// `--truecolor` true color. A command line that ends with a color flag, read as a flag, has
/// that flag's mode whatever came before it (presets included), when it is accepted.
pub proof fn law_color_flag_sets_mode(
    a: Seq<Seq<char>>,
    ra: Seq<ArgReadings>,
    flag: Seq<char>,
    rflag: ArgReadings,
    env_device: Option<Seq<char>>,
)
    requires
        flag == "--no-color"@ || flag == "--ansi256"@ || flag == "--truecolor"@,
        ra.len() == a.len(),
        !ends_waiting_for_value(a, ra, initial_scan(env_device)),
    ensures
        command_line(a + seq![flag], ra + seq![rflag], env_device) matches Ok(c) ==> c.color_mode
            == (if flag == "--no-color"@ {
            ColorMode::NoColor
        } else if flag == "--ansi256"@ {
            ColorMode::Ansi256
        } else {
            ColorMode::Truecolor
        }),
        scan(a, ra, initial_scan(env_device)) is Ok ==> scan(a + seq![flag], ra + seq![rflag], initial_scan(env_device)) is Ok,
{
    reveal_strlit("-h");
    reveal_strlit("--help");
    reveal_strlit("--list-devices");
    reveal_strlit("--show-metrics");
    reveal_strlit("--hide-metrics");
    reveal_strlit("--fast");
    reveal_strlit("--release-mode");
    reveal_strlit("--no-color");
    reveal_strlit("--ansi256");
    reveal_strlit("--truecolor");
    if flag == "--no-color"@ {
        lemma_differ_at(flag, "-h"@, 1);
        lemma_differ_at(flag, "--help"@, 2);
        lemma_differ_at(flag, "--list-devices"@, 2);
        lemma_differ_at(flag, "--show-metrics"@, 2);
        lemma_differ_at(flag, "--hide-metrics"@, 2);
        lemma_differ_at(flag, "--fast"@, 2);
        lemma_differ_at(flag, "--release-mode"@, 2);
    } else if flag == "--ansi256"@ {
        lemma_differ_at(flag, "-h"@, 1);
        lemma_differ_at(flag, "--help"@, 2);
        lemma_differ_at(flag, "--list-devices"@, 2);
        lemma_differ_at(flag, "--show-metrics"@, 2);
        lemma_differ_at(flag, "--hide-metrics"@, 2);
        lemma_differ_at(flag, "--fast"@, 2);
        lemma_differ_at(flag, "--release-mode"@, 2);
        lemma_differ_at(flag, "--no-color"@, 2);
    } else if flag == "--truecolor"@ {
        lemma_differ_at(flag, "-h"@, 1);
        lemma_differ_at(flag, "--help"@, 2);
        lemma_differ_at(flag, "--list-devices"@, 2);
        lemma_differ_at(flag, "--show-metrics"@, 2);
        lemma_differ_at(flag, "--hide-metrics"@, 2);
        lemma_differ_at(flag, "--fast"@, 2);
        lemma_differ_at(flag, "--release-mode"@, 2);
        lemma_differ_at(flag, "--no-color"@, 2);
        lemma_differ_at(flag, "--ansi256"@, 2);
    }
    let st0 = initial_scan(env_device);
    lemma_scan_concat(a, ra, seq![flag], seq![rflag], st0);
    assert(is_plain_flag(flag));
    assert forall|s: ScanModel| scan(seq![flag], seq![rflag], s) == Ok::<ScanModel, ArgFault>(plain_step(flag, s)) by {
        assert(seq![flag][0] == flag);
        assert(scan_step(seq![flag], seq![rflag], s) == Ok::<(ScanModel, nat), ArgFault>((plain_step(flag, s), 1)));
        assert(seq![flag].skip(1) =~= Seq::<Seq<char>>::empty());
        assert(seq![rflag].skip(1) =~= Seq::<ArgReadings>::empty());
        assert(scan(Seq::<Seq<char>>::empty(), Seq::<ArgReadings>::empty(), plain_step(flag, s)) == Ok::<ScanModel, ArgFault>(plain_step(flag, s)));
    }
}

/// The flags given explicitly decide their settings, whatever preset is also given.
pub proof fn law_explicit_flags_win(args: Seq<Seq<char>>, readings: Seq<ArgReadings>, env_device: Option<Seq<char>>)
    requires
        scan(args, readings, initial_scan(env_device)) is Ok,
        command_line(args, readings, env_device) is Ok,
    ensures
        ({
            let e = scan(args, readings, initial_scan(env_device))->Ok_0.explicit;
            let c = command_line(args, readings, env_device)->Ok_0;
            &&& (e.color_mode matches Some(m) ==> c.color_mode == m)
            &&& (e.ramp_name matches Some(r) ==> c.ramp_name == r)
            &&& (e.show_metrics matches Some(b) ==> c.show_metrics == b)
            &&& (e.render_fps matches Some(n) ==> c.render_fps == n)
            &&& (e.max_cols matches Some(n) ==> c.max_cols == n)
            &&& (e.max_rows matches Some(n) ==> c.max_rows == n)
        }),
{
}

/// With a preset given, every setting that the preset covers and that no flag gives
/// explicitly takes the preset's value; `--release-mode` wins over `--fast`.
pub proof fn law_presets_set_their_values(args: Seq<Seq<char>>, readings: Seq<ArgReadings>, env_device: Option<Seq<char>>)
    requires
        scan(args, readings, initial_scan(env_device)) is Ok,
        command_line(args, readings, env_device) is Ok,
    ensures
        ({
            let st = scan(args, readings, initial_scan(env_device))->Ok_0;
            let c = command_line(args, readings, env_device)->Ok_0;
            &&& c.release_mode == (st.release || st.cfg.release_mode)
            &&& (st.release ==> {
                &&& (st.explicit.color_mode is None ==> c.color_mode == ColorMode::Ansi256)
                &&& (st.explicit.ramp_name is None ==> c.ramp_name == "standard"@)
                &&& (st.explicit.show_metrics is None ==> !c.show_metrics)
                &&& (st.explicit.render_fps is None ==> c.render_fps == 60)
                &&& (st.explicit.max_cols is None ==> c.max_cols == 0)
                &&& (st.explicit.max_rows is None ==> c.max_rows == 0)
            })
            &&& (st.fast && !st.release ==> {
                &&& (st.explicit.color_mode is None ==> c.color_mode == ColorMode::Ansi256)
                &&& (st.explicit.ramp_name is None ==> c.ramp_name == "standard"@)
                &&& (st.explicit.show_metrics is None ==> !c.show_metrics)
                &&& (st.explicit.render_fps is None ==> c.render_fps == 20)
                &&& (st.explicit.max_cols is None ==> c.max_cols == 120)
                &&& (st.explicit.max_rows is None ==> c.max_rows == 40)
            })
        }),
{
}

} // verus!
