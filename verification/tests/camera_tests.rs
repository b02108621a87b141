use camgylph::camera::device::{listing_target, resolve_input_spec, Platform, SetupError};
use camgylph::camera::ffmpeg::{
    capture_args, classify_lowered, classify_preflight_error, device_lines, frame_size, input_args,
    list_devices_args, output_args, preflight_args, CaptureConfig,
};
use camgylph::text::{lines_of, parse_unsigned};

fn config(device: Option<&str>, pix_fmt: &'static str) -> CaptureConfig<'static> {
    CaptureConfig { width: 640, height: 480, fps: 30, pix_fmt, device: device.map(|d| d.to_string()) }
}

#[test]
fn input_spec_per_platform() {
    assert_eq!(resolve_input_spec(Platform::MacOs, None).unwrap(), "0:none");
    assert_eq!(resolve_input_spec(Platform::MacOs, Some("1:none")).unwrap(), "1:none");
    assert_eq!(resolve_input_spec(Platform::Linux, None).unwrap(), "/dev/video0");
    assert_eq!(resolve_input_spec(Platform::Windows, Some("Cam")).unwrap(), "video=Cam");
    assert_eq!(resolve_input_spec(Platform::Windows, Some("video=Cam")).unwrap(), "video=Cam");
    match resolve_input_spec(Platform::Windows, None) {
        Err(SetupError::InvalidInput(m)) => {
            assert_eq!(m, "Windows needs --device \"Integrated Camera\" (or CAMGLYPH_DEVICE)")
        }
        _ => panic!("expected invalid input"),
    }
    match resolve_input_spec(Platform::Other, None) {
        Err(e) => assert_eq!(e.message(), "Unsupported OS"),
        _ => panic!("expected unsupported"),
    }
    assert_eq!(listing_target(None), "/dev/video0");
    assert_eq!(listing_target(Some("/dev/video2")), "/dev/video2");
}

#[test]
fn frame_size_only_for_rgb24() {
    assert_eq!(frame_size(&config(None, "rgb24")).unwrap(), 640 * 480 * 3);
    match frame_size(&config(None, "nv12")) {
        Err(SetupError::InvalidInput(m)) => {
            assert_eq!(m, "Unsupported pix_fmt 'nv12'. Current renderer expects rgb24.")
        }
        _ => panic!("expected invalid input"),
    }
}

#[test]
fn ffmpeg_command_lines() {
    let cfg = config(Some("/dev/video1"), "rgb24");
    assert_eq!(
        input_args(Platform::Linux, &cfg).unwrap(),
        vec!["-f", "v4l2", "-framerate", "30", "-video_size", "640x480", "-i", "/dev/video1"]
    );
    assert_eq!(
        input_args(Platform::MacOs, &config(None, "rgb24")).unwrap(),
        vec!["-f", "avfoundation", "-pixel_format", "nv12", "-framerate", "30", "-video_size", "640x480", "-i", "0:none"]
    );
    assert_eq!(
        output_args("rgb24", 30),
        vec!["-vf", "fps=30", "-r", "30", "-pix_fmt", "rgb24", "-f", "rawvideo", "-"]
    );
    let full = capture_args(Platform::Linux, &cfg).unwrap();
    assert_eq!(&full[..3], &["-loglevel", "error", "-nostdin"]);
    assert_eq!(full.len(), 3 + 8 + 9);
    let pre = preflight_args(Platform::Linux, &cfg).unwrap();
    assert_eq!(&pre[..4], &["-hide_banner", "-loglevel", "error", "-nostdin"]);
    assert_eq!(&pre[pre.len() - 5..], &["-frames:v", "1", "-f", "null", "-"]);
    assert!(capture_args(Platform::Windows, &config(None, "rgb24")).is_err());
    assert_eq!(
        list_devices_args(Platform::Windows, None).unwrap(),
        vec!["-hide_banner", "-f", "dshow", "-list_devices", "true", "-i", "dummy"]
    );
    assert_eq!(list_devices_args(Platform::Linux, Some("/dev/video3")).unwrap()[6], "/dev/video3");
    assert!(list_devices_args(Platform::Other, None).is_none());
}

#[test]
fn device_listing_filters_lines() {
    let text = "[AVFoundation indev @ 0x1] devices:\r\nnoise\n[AVFoundation indev @ 0x1] [0] Camera\n";
    assert_eq!(
        device_lines(Platform::MacOs, text),
        vec!["[AVFoundation indev @ 0x1] devices:", "[AVFoundation indev @ 0x1] [0] Camera"]
    );
    let win = "[dshow @ 1] DirectShow video devices\n  \"Integrated Camera\" (video)\nother\n";
    assert_eq!(
        device_lines(Platform::Windows, win),
        vec!["[dshow @ 1] DirectShow video devices", "  \"Integrated Camera\" (video)"]
    );
    assert!(device_lines(Platform::MacOs, "nothing here").is_empty());
}

#[test]
fn lines_split_like_std() {
    for text in ["", "a", "a\n", "a\r\nb", "a\n\nb\r", "\n", "x\ry\n"] {
        let expected: Vec<String> = text.lines().map(|l| l.to_string()).collect();
        assert_eq!(lines_of(text), expected, "text {:?}", text);
    }
}

#[test]
fn preflight_messages() {
    assert_eq!(
        classify_preflight_error(Platform::Linux, "Selected video size is Not Supported", 640, 480, 30),
        "Unsupported camera mode 640x480 @ 30fps. Use --list-devices and choose a supported mode or device."
    );
    assert_eq!(
        classify_preflight_error(Platform::MacOs, "Permission Denied", 1, 1, 1),
        "Camera permission missing. Enable camera access for your terminal app in System Settings -> Privacy & Security -> Camera."
    );
    assert_eq!(
        classify_preflight_error(Platform::Linux, "operation not permitted", 1, 1, 1),
        "Camera permission missing or denied for selected device. Check OS camera privacy settings and device access permissions."
    );
    assert_eq!(
        classify_preflight_error(Platform::Linux, "/dev/video9: No such file or directory", 1, 1, 1),
        "Camera device could not be opened. Verify --device / CAMGLYPH_DEVICE and run --list-devices to discover valid inputs."
    );
    assert_eq!(
        classify_preflight_error(Platform::Linux, "one\ntwo\nthree\nfour\nfive", 1, 1, 1),
        "Camera preflight failed: one | two | three | four"
    );
    assert_eq!(classify_preflight_error(Platform::Linux, "", 1, 1, 1), "Camera preflight failed: ");
    assert_eq!(
        classify_lowered(Platform::Linux, "ORIGINAL", "device not found", 1, 1, 1),
        "Camera device could not be opened. Verify --device / CAMGLYPH_DEVICE and run --list-devices to discover valid inputs."
    );
    assert_eq!(
        classify_lowered(Platform::Linux, "Keep Case", "keep case", 1, 1, 1),
        "Camera preflight failed: Keep Case"
    );
}

#[test]
fn unsigned_parsing_follows_std() {
    for text in ["0", "42", "+7", "007", "", "+", "-1", "12a", " 1", "4294967295", "4294967296", "99999999999999999999999"] {
        let expected = text.parse::<u32>().ok().map(|v| v as u64);
        assert_eq!(parse_unsigned(text, u32::MAX as u64), expected, "text {:?}", text);
    }
    assert_eq!(parse_unsigned("65535", u16::MAX as u64), Some(65535));
    assert_eq!(parse_unsigned("65536", u16::MAX as u64), None);
    assert_eq!(parse_unsigned("18446744073709551615", u64::MAX), Some(u64::MAX));
}
