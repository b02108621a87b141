use vstd::prelude::*;

verus! {

/// `std::io::Error`, carried through the library without looking inside.
#[verifier::external_type_specification]
#[verifier::external_body]
pub struct ExIoError(std::io::Error);

/// Why the program stopped: an I/O failure, or a configuration it cannot run with.
#[derive(Debug)]
pub enum AppError {
    Io(std::io::Error),
    Config(String),
}

impl From<std::io::Error> for AppError {
    fn from(value: std::io::Error) -> (r: Self) {
        AppError::Io(value)
    }
}

impl vstd::std_specs::convert::FromSpecImpl<std::io::Error> for AppError {
    open spec fn obeys_from_spec() -> bool {
        true
    }

    open spec fn from_spec(v: std::io::Error) -> Self {
        AppError::Io(v)
    }
}

impl AppError {
    /// The text shown to the user: the I/O error's own text, or the configuration message.
    pub fn message(&self) -> (r: String)
        ensures
            match self {
                AppError::Config(msg) => r@ == msg@,
                AppError::Io(err) => vstd::string::to_string_from_display_ensures(err, r),
            },
    {
        match self {
            AppError::Io(err) => err.to_string(),
            AppError::Config(msg) => msg.clone(),
        }
    }
}

} // verus!
