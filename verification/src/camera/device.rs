use crate::text::{has_prefix, str_has_prefix};
use vstd::prelude::*;

verus! {

/// The operating system the program runs on, which decides how the camera is reached.
#[derive(Clone, Copy, Debug, PartialEq, Eq, Structural)]
pub enum Platform {
    MacOs,
    Linux,
    Windows,
    Other,
}

/// Why the camera input could not be set up: a bad input from the user, or an
/// unsupported platform or format. Each carries the message shown to the user.
#[derive(Debug)]
pub enum SetupError {
    InvalidInput(String),
    Unsupported(String),
}

/// A setup error as plain values.
pub enum SetupFault {
    InvalidInput(Seq<char>),
    Unsupported(Seq<char>),
}

impl View for SetupError {
    type V = SetupFault;

    open spec fn view(&self) -> SetupFault {
        match self {
            SetupError::InvalidInput(m) => SetupFault::InvalidInput(m@),
            SetupError::Unsupported(m) => SetupFault::Unsupported(m@),
        }
    }
}

impl SetupError {
    /// The message shown to the user.
    pub fn message(&self) -> (m: String)
        ensures
            m@ == match self@ {
                SetupFault::InvalidInput(t) => t,
                SetupFault::Unsupported(t) => t,
            },
    {
        match self {
            SetupError::InvalidInput(m) => m.clone(),
            SetupError::Unsupported(m) => m.clone(),
        }
    }
}

/// The message for a platform that has no camera input.
pub open spec fn unsupported_os_message() -> Seq<char> {
    "Unsupported OS"@
}

/// The ffmpeg input for the camera: the given device or the platform's default camera;
/// on Windows a device is needed and is named as a `video=` input.
pub open spec fn input_spec(platform: Platform, device: Option<Seq<char>>) -> Result<Seq<char>, SetupFault> {
    match platform {
        Platform::MacOs => Ok(
            match device {
                Some(d) => d,
                None => "0:none"@,
            },
        ),
        Platform::Linux => Ok(
            match device {
                Some(d) => d,
                None => "/dev/video0"@,
            },
        ),
        Platform::Windows => match device {
            None => Err(
                SetupFault::InvalidInput(
                    "Windows needs --device \"Integrated Camera\" (or CAMGLYPH_DEVICE)"@,
                ),
            ),
            Some(raw) => if has_prefix(raw, "video="@) {
                Ok(raw)
            } else {
                Ok("video="@ + raw)
            },
        },
        Platform::Other => Err(SetupFault::Unsupported(unsupported_os_message())),
    }
}

/// The characters of an optional string slice.
pub open spec fn opt_str(o: Option<&str>) -> Option<Seq<char>> {
    match o {
        Some(s) => Some(s@),
        None => None,
    }
}

/// The ffmpeg input for the camera on `platform`.
pub fn resolve_input_spec(platform: Platform, device: Option<&str>) -> (r: Result<String, SetupError>)
    ensures
        match input_spec(platform, opt_str(device)) {
            Ok(s) => r matches Ok(t) && t@ == s,
            Err(f) => r matches Err(e) && e@ == f,
        },
{
    match platform {
        Platform::MacOs => match device {
            Some(d) => Ok(d.to_owned()),
            None => Ok(String::from_str("0:none")),
        },
        Platform::Linux => match device {
            Some(d) => Ok(d.to_owned()),
            None => Ok(String::from_str("/dev/video0")),
        },
        Platform::Windows => match device {
            None => Err(
                SetupError::InvalidInput(
                    String::from_str("Windows needs --device \"Integrated Camera\" (or CAMGLYPH_DEVICE)"),
                ),
            ),
            Some(raw) => {
                if str_has_prefix(raw, "video=") {
                    Ok(raw.to_owned())
                } else {
                    let mut s = String::from_str("video=");
                    s.append(raw);
                    Ok(s)
                }
            },
        },
        Platform::Other => Err(SetupError::Unsupported(String::from_str("Unsupported OS"))),
    }
}

/// The Linux device whose formats are listed: the given one or the default camera.
pub fn listing_target(device: Option<&str>) -> (r: String)
    ensures
        r@ == match device {
            Some(d) => d@,
            None => "/dev/video0"@,
        },
{
    match device {
        Some(d) => d.to_owned(),
        None => String::from_str("/dev/video0"),
    }
}

} // verus!
