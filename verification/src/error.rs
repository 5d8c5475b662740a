//! Error kinds shared by every component, and their mathematical views.

use vstd::prelude::*;
use vstd::string::*;

use crate::codec::{render_int, write_int};

verus! {

/// A failure reported by, or on behalf of, an input backend.
#[derive(Debug, Clone, PartialEq, Eq)]
pub enum PlatformError {
    Windows(String),
    MacOS(String),
    Linux(String),
    UnsupportedOperation(String),
}

/// What a [`PlatformError`] holds, with its text as a sequence of characters.
pub enum PlatformErrorView {
    Windows(Seq<char>),
    MacOS(Seq<char>),
    Linux(Seq<char>),
    UnsupportedOperation(Seq<char>),
}

impl View for PlatformError {
    type V = PlatformErrorView;

    open spec fn view(&self) -> PlatformErrorView {
        match *self {
            PlatformError::Windows(s) => PlatformErrorView::Windows(s@),
            PlatformError::MacOS(s) => PlatformErrorView::MacOS(s@),
            PlatformError::Linux(s) => PlatformErrorView::Linux(s@),
            PlatformError::UnsupportedOperation(s) => PlatformErrorView::UnsupportedOperation(s@),
        }
    }
}

/// Every way an automation operation can fail.
///
/// `FailsafeTriggered` asks the caller to abandon the whole automation run;
/// every other kind reports that one operation failed.
#[derive(Debug, Clone, PartialEq, Eq)]
pub enum MoverError {
    PlatformNotSupported(String),
    InvalidCoordinates(i32, i32),
    InvalidMouseButton(String),
    ScreenCaptureFailed(String),
    ImageNotFound(String),
    FailsafeTriggered(String),
    PlatformError(PlatformError),
    IoError(String),
    Other(String),
}

/// What a [`MoverError`] holds, with its text as sequences of characters.
pub enum MoverErrorView {
    PlatformNotSupported(Seq<char>),
    InvalidCoordinates(i32, i32),
    InvalidMouseButton(Seq<char>),
    ScreenCaptureFailed(Seq<char>),
    ImageNotFound(Seq<char>),
    FailsafeTriggered(Seq<char>),
    PlatformError(PlatformErrorView),
    IoError(Seq<char>),
    Other(Seq<char>),
}

impl View for MoverError {
    type V = MoverErrorView;

    open spec fn view(&self) -> MoverErrorView {
        match *self {
            MoverError::PlatformNotSupported(s) => MoverErrorView::PlatformNotSupported(s@),
            MoverError::InvalidCoordinates(x, y) => MoverErrorView::InvalidCoordinates(x, y),
            MoverError::InvalidMouseButton(s) => MoverErrorView::InvalidMouseButton(s@),
            MoverError::ScreenCaptureFailed(s) => MoverErrorView::ScreenCaptureFailed(s@),
            MoverError::ImageNotFound(s) => MoverErrorView::ImageNotFound(s@),
            MoverError::FailsafeTriggered(s) => MoverErrorView::FailsafeTriggered(s@),
            MoverError::PlatformError(e) => MoverErrorView::PlatformError(e@),
            MoverError::IoError(s) => MoverErrorView::IoError(s@),
            MoverError::Other(s) => MoverErrorView::Other(s@),
        }
    }
}

/// The result of an automation operation.
pub type MoverResult<T> = Result<T, MoverError>;

/// The result of an automation operation with the error taken by its view.
pub type Outcome<T> = Result<T, MoverErrorView>;

/// A result with its error replaced by the error's view.
pub open spec fn outcome<T>(r: MoverResult<T>) -> Outcome<T> {
    match r {
        Ok(v) => Ok(v),
        Err(e) => Err(e@),
    }
}

/// The view of the error that reports an operation the backend cannot perform.
pub open spec fn unsupported(message: Seq<char>) -> MoverErrorView {
    MoverErrorView::PlatformError(PlatformErrorView::UnsupportedOperation(message))
}

/// The text of a wrapped backend failure: what was attempted, a colon and a
/// space, then what the backend said.
pub open spec fn wrapped_text(context: Seq<char>, native: Seq<char>) -> Seq<char> {
    context + ": "@ + native
}

impl PlatformErrorView {
    /// The message of the error: what kind of failure it is, then its text.
    pub open spec fn message(self) -> Seq<char> {
        match self {
            PlatformErrorView::Windows(s) => "Windows API error: "@ + s,
            PlatformErrorView::MacOS(s) => "macOS Core Graphics error: "@ + s,
            PlatformErrorView::Linux(s) => "Linux X11 error: "@ + s,
            PlatformErrorView::UnsupportedOperation(s) => "Unsupported operation: "@ + s,
        }
    }
}

impl MoverErrorView {
    /// The message of the error: what kind of failure it is, then its text.
    pub open spec fn message(self) -> Seq<char> {
        match self {
            MoverErrorView::PlatformNotSupported(s) => "Platform not supported: "@ + s,
            MoverErrorView::InvalidCoordinates(x, y) => "Invalid coordinates: ("@ + render_int(
                x as int,
            ) + ", "@ + render_int(y as int) + ")"@,
            MoverErrorView::InvalidMouseButton(s) => "Invalid mouse button: "@ + s,
            MoverErrorView::ScreenCaptureFailed(s) => "Screen capture failed: "@ + s,
            MoverErrorView::ImageNotFound(s) => "Image not found: "@ + s,
            MoverErrorView::FailsafeTriggered(s) => "Failsafe triggered: "@ + s,
            MoverErrorView::PlatformError(e) => "Platform error: "@ + e.message(),
            MoverErrorView::IoError(s) => "IO error: "@ + s,
            MoverErrorView::Other(s) => "Other error: "@ + s,
        }
    }
}

impl PlatformError {
    /// The message of the error, as it is shown to users.
    pub fn message(&self) -> (text: String)
        ensures
            text@ == self@.message(),
    {
        match self {
            PlatformError::Windows(s) => String::from_str("Windows API error: ").concat(
                s.as_str(),
            ),
            PlatformError::MacOS(s) => String::from_str("macOS Core Graphics error: ").concat(
                s.as_str(),
            ),
            PlatformError::Linux(s) => String::from_str("Linux X11 error: ").concat(s.as_str()),
            PlatformError::UnsupportedOperation(s) => String::from_str(
                "Unsupported operation: ",
            ).concat(s.as_str()),
        }
    }
}

impl MoverError {
    /// The message of the error, as it is shown to users.
    pub fn message(&self) -> (text: String)
        ensures
            text@ == self@.message(),
    {
        match self {
            MoverError::PlatformNotSupported(s) => String::from_str(
                "Platform not supported: ",
            ).concat(s.as_str()),
            MoverError::InvalidCoordinates(x, y) => {
                let mut text = String::from_str("Invalid coordinates: (");
                write_int(&mut text, *x as i64);
                text.append(", ");
                write_int(&mut text, *y as i64);
                text.append(")");
                text
            },
            MoverError::InvalidMouseButton(s) => String::from_str("Invalid mouse button: ").concat(
                s.as_str(),
            ),
            MoverError::ScreenCaptureFailed(s) => String::from_str(
                "Screen capture failed: ",
            ).concat(s.as_str()),
            MoverError::ImageNotFound(s) => String::from_str("Image not found: ").concat(
                s.as_str(),
            ),
            MoverError::FailsafeTriggered(s) => String::from_str("Failsafe triggered: ").concat(
                s.as_str(),
            ),
            MoverError::PlatformError(e) => {
                let inner = e.message();
                String::from_str("Platform error: ").concat(inner.as_str())
            },
            MoverError::IoError(s) => String::from_str("IO error: ").concat(s.as_str()),
            MoverError::Other(s) => String::from_str("Other error: ").concat(s.as_str()),
        }
    }

    /// The error for an operation that the backend cannot perform.
    pub fn unsupported_operation(message: String) -> (e: MoverError)
        ensures
            e@ == unsupported(message@),
    {
        MoverError::PlatformError(PlatformError::UnsupportedOperation(message))
    }

    /// Wraps what a backend said about a failed operation, keeping its words
    /// after the description of what was attempted.
    pub fn backend_failure(context: &str, native: &str) -> (e: MoverError)
        ensures
            e@ == unsupported(wrapped_text(context@, native@)),
    {
        let mut message = String::from_str(context);
        message.append(": ");
        message.append(native);
        MoverError::unsupported_operation(message)
    }
}

impl From<String> for MoverError {
    fn from(s: String) -> (e: MoverError) {
        MoverError::Other(s)
    }
}

impl vstd::std_specs::convert::FromSpecImpl<String> for MoverError {
    open spec fn obeys_from_spec() -> bool {
        true
    }

    open spec fn from_spec(s: String) -> MoverError {
        MoverError::Other(s)
    }
}

impl<'a> From<&'a str> for MoverError {
    fn from(s: &'a str) -> (e: MoverError)
        ensures
            e@ == MoverErrorView::Other(s@),
    {
        MoverError::Other(String::from_str(s))
    }
}

impl<'a> vstd::std_specs::convert::FromSpecImpl<&'a str> for MoverError {
    open spec fn obeys_from_spec() -> bool {
        false
    }

    open spec fn from_spec(s: &'a str) -> MoverError {
        arbitrary()
    }
}

impl From<PlatformError> for MoverError {
    fn from(e: PlatformError) -> (r: MoverError) {
        MoverError::PlatformError(e)
    }
}

impl vstd::std_specs::convert::FromSpecImpl<PlatformError> for MoverError {
    open spec fn obeys_from_spec() -> bool {
        true
    }

    open spec fn from_spec(e: PlatformError) -> MoverError {
        MoverError::PlatformError(e)
    }
}

} // verus!
