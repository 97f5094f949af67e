//! The errors that the backend reports.

use vstd::prelude::*;

verus! {

/// What went wrong, as callers tell it apart.
#[derive(Debug, Clone, Copy, PartialEq, Eq, Structural)]
pub enum ErrorCode {
    BackgroundUnavailable,
    PermissionDenied,
    InvalidTarget,
    CaptureFailed,
    WindowNotFound,
    InvalidKey,
    AxUnsupported,
}

impl ErrorCode {
    /// The name under which a code is reported.
    pub open spec fn name(self) -> Seq<char> {
        match self {
            ErrorCode::BackgroundUnavailable => "BackgroundUnavailable"@,
            ErrorCode::PermissionDenied => "PermissionDenied"@,
            ErrorCode::InvalidTarget => "InvalidTarget"@,
            ErrorCode::CaptureFailed => "CaptureFailed"@,
            ErrorCode::WindowNotFound => "WindowNotFound"@,
            ErrorCode::InvalidKey => "InvalidKey"@,
            ErrorCode::AxUnsupported => "AxUnsupported"@,
        }
    }

    /// The name under which the code is reported.
    pub fn as_str(&self) -> (res: &'static str)
        ensures
            res@ == self.name(),
    {
        match self {
            ErrorCode::BackgroundUnavailable => "BackgroundUnavailable",
            ErrorCode::PermissionDenied => "PermissionDenied",
            ErrorCode::InvalidTarget => "InvalidTarget",
            ErrorCode::CaptureFailed => "CaptureFailed",
            ErrorCode::WindowNotFound => "WindowNotFound",
            ErrorCode::InvalidKey => "InvalidKey",
            ErrorCode::AxUnsupported => "AxUnsupported",
        }
    }
}

/// An error: a code, and a message for people.
#[derive(Debug)]
pub struct DesktopError {
    pub code: ErrorCode,
    pub message: String,
}

/// What a [`DesktopError`] says.
pub struct ErrorView {
    pub code: ErrorCode,
    pub message: Seq<char>,
}

impl View for DesktopError {
    type V = ErrorView;

    open spec fn view(&self) -> ErrorView {
        ErrorView { code: self.code, message: self.message@ }
    }
}

impl Clone for DesktopError {
    fn clone(&self) -> (res: Self)
        ensures
            res == *self,
    {
        DesktopError { code: self.code, message: self.message.clone() }
    }
}

/// The result of an operation of the backend.
pub type CoreResult<T> = Result<T, DesktopError>;

impl DesktopError {
    /// An error with the given code and message.
    pub fn new(code: ErrorCode, message: String) -> (res: Self)
        ensures
            res@ == (ErrorView { code, message: message@ }),
    {
        DesktopError { code, message }
    }

    /// The error for what needs the accessibility bus, where there is none.
    pub fn ax_unsupported() -> (res: Self)
        ensures
            res@ == ax_missing(),
    {
        DesktopError::new(
            ErrorCode::AxUnsupported,
            "accessibility is not supported on this desktop".to_owned(),
        )
    }
}

/// The error for what needs the accessibility bus, where there is none.
pub open spec fn ax_missing() -> ErrorView {
    ErrorView {
        code: ErrorCode::AxUnsupported,
        message: "accessibility is not supported on this desktop"@,
    }
}

/// Every code is reported under its own name.
pub proof fn law_code_names(code: ErrorCode)
    ensures
        match code {
            ErrorCode::BackgroundUnavailable => code.name() == "BackgroundUnavailable"@,
            ErrorCode::PermissionDenied => code.name() == "PermissionDenied"@,
            ErrorCode::InvalidTarget => code.name() == "InvalidTarget"@,
            ErrorCode::CaptureFailed => code.name() == "CaptureFailed"@,
            ErrorCode::WindowNotFound => code.name() == "WindowNotFound"@,
            ErrorCode::InvalidKey => code.name() == "InvalidKey"@,
            ErrorCode::AxUnsupported => code.name() == "AxUnsupported"@,
        },
{
}

/// An error says its code and its message.
pub proof fn law_error_says_code_and_message(err: DesktopError)
    ensures
        err@.code == err.code,
        err@.message == err.message@,
        ax_missing().code == ErrorCode::AxUnsupported,
        ax_missing().message == "accessibility is not supported on this desktop"@,
{
}

} // verus!
