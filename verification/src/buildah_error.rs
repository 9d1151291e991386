//! The error type shared by all operations.

use vstd::prelude::*;
use vstd::std_specs::convert::FromSpecImpl;

verus! {

/// `std::string::FromUtf8Error`, carried through as an opaque value.
#[verifier::external_type_specification]
#[verifier::external_body]
pub struct ExFromUtf8Error(std::string::FromUtf8Error);

/// `std::io::Error`, carried through as an opaque value.
#[verifier::external_type_specification]
#[verifier::external_body]
pub struct ExIoError(std::io::Error);

/// Custom top-level error.
#[derive(Debug)]
pub enum BuildahError {
    /// A failure that is none of the others. No operation of this library
    /// gives it; it is there for what is built on top.
    Unknown(String),
    /// A reference that names no image. References are not looked at here,
    /// so a bad one shows as [`BuildahError::Buildah`], from the tool.
    InvalidImage(String),
    /// The tool ran and reported a failure; the payload is its message.
    Buildah(String),
    /// Output of the tool was not valid UTF-8.
    InvalidUTF8Output(std::string::FromUtf8Error),
    /// The tool could not be started at all.
    IoError(std::io::Error),
}

/// What an error says, as contracts read it. The error that std made for
/// bytes that are not UTF-8 is left out: nothing is known of it but that it
/// was made.
pub enum ErrorView {
    Unknown(Seq<char>),
    InvalidImage(Seq<char>),
    Buildah(Seq<char>),
    InvalidUTF8Output,
    IoError(std::io::Error),
}

impl View for BuildahError {
    type V = ErrorView;

    open spec fn view(&self) -> ErrorView {
        match *self {
            BuildahError::Unknown(message) => ErrorView::Unknown(message@),
            BuildahError::InvalidImage(message) => ErrorView::InvalidImage(message@),
            BuildahError::Buildah(message) => ErrorView::Buildah(message@),
            BuildahError::InvalidUTF8Output(_) => ErrorView::InvalidUTF8Output,
            BuildahError::IoError(error) => ErrorView::IoError(error),
        }
    }
}

impl From<std::string::FromUtf8Error> for BuildahError {
    fn from(error: std::string::FromUtf8Error) -> (r: Self) {
        BuildahError::InvalidUTF8Output(error)
    }
}

impl FromSpecImpl<std::string::FromUtf8Error> for BuildahError {
    open spec fn obeys_from_spec() -> bool {
        true
    }

    open spec fn from_spec(error: std::string::FromUtf8Error) -> Self {
        BuildahError::InvalidUTF8Output(error)
    }
}

impl From<std::io::Error> for BuildahError {
    fn from(error: std::io::Error) -> (r: Self) {
        BuildahError::IoError(error)
    }
}

impl FromSpecImpl<std::io::Error> for BuildahError {
    open spec fn obeys_from_spec() -> bool {
        true
    }

    open spec fn from_spec(error: std::io::Error) -> Self {
        BuildahError::IoError(error)
    }
}

} // verus!
