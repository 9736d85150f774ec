//! The error type shared by every part of the control surface.

use vstd::prelude::*;

verus! {

/// What went wrong, each with a human-facing detail.
#[derive(Debug, PartialEq, Eq)]
pub enum WlError {
    /// The user configuration cannot be used.
    Config(String),
    /// The daemon cannot be reached.
    DaemonDown(String),
    /// The daemon or the system refused access.
    Denied(String),
    /// The daemon answered something this client does not understand.
    Protocol(String),
    /// The daemon did not answer in time.
    Timeout(String),
    /// A nixling daemon reported a failure.
    Nixling(String),
    /// A d2b daemon reported a failure.
    D2b(String),
    /// An input or output operation failed.
    Io(String),
}

/// The mathematical form of [`WlError`].
#[verifier::ext_equal]
pub enum WlErrorView {
    Config(Seq<char>),
    DaemonDown(Seq<char>),
    Denied(Seq<char>),
    Protocol(Seq<char>),
    Timeout(Seq<char>),
    Nixling(Seq<char>),
    D2b(Seq<char>),
    Io(Seq<char>),
}

impl View for WlError {
    type V = WlErrorView;

    open spec fn view(&self) -> WlErrorView {
        match self {
            WlError::Config(text) => WlErrorView::Config(text@),
            WlError::DaemonDown(text) => WlErrorView::DaemonDown(text@),
            WlError::Denied(text) => WlErrorView::Denied(text@),
            WlError::Protocol(text) => WlErrorView::Protocol(text@),
            WlError::Timeout(text) => WlErrorView::Timeout(text@),
            WlError::Nixling(text) => WlErrorView::Nixling(text@),
            WlError::D2b(text) => WlErrorView::D2b(text@),
            WlError::Io(text) => WlErrorView::Io(text@),
        }
    }
}

impl Clone for WlError {
    fn clone(&self) -> (copy: Self)
        ensures
            copy@ == self@,
    {
        match self {
            WlError::Config(text) => WlError::Config(text.clone()),
            WlError::DaemonDown(text) => WlError::DaemonDown(text.clone()),
            WlError::Denied(text) => WlError::Denied(text.clone()),
            WlError::Protocol(text) => WlError::Protocol(text.clone()),
            WlError::Timeout(text) => WlError::Timeout(text.clone()),
            WlError::Nixling(text) => WlError::Nixling(text.clone()),
            WlError::D2b(text) => WlError::D2b(text.clone()),
            WlError::Io(text) => WlError::Io(text.clone()),
        }
    }
}

/// The result of a fallible operation of the control surface.
pub type WlResult<T> = Result<T, WlError>;

/// The view of a fallible result.
pub open spec fn result_view<T: View>(result: WlResult<T>) -> Result<T::V, WlErrorView> {
    match result {
        Ok(value) => Ok(value@),
        Err(error) => Err(error@),
    }
}

/// The one-line description of an error.
pub open spec fn error_text(error: WlErrorView) -> Seq<char> {
    match error {
        WlErrorView::Config(text) => "configuration error: "@ + text,
        WlErrorView::DaemonDown(text) => "daemon unreachable: "@ + text,
        WlErrorView::Denied(text) => "access denied: "@ + text,
        WlErrorView::Protocol(text) => "protocol error: "@ + text,
        WlErrorView::Timeout(text) => "timed out: "@ + text,
        WlErrorView::Nixling(text) => text,
        WlErrorView::D2b(text) => text,
        WlErrorView::Io(text) => "i/o error: "@ + text,
    }
}

impl WlError {
    /// The one-line description of the error.
    pub fn to_text(&self) -> (text: String)
        ensures
            text@ == error_text(self@),
    {
        match self {
            WlError::Config(text) => "configuration error: ".to_owned().concat(text.as_str()),
            WlError::DaemonDown(text) => "daemon unreachable: ".to_owned().concat(text.as_str()),
            WlError::Denied(text) => "access denied: ".to_owned().concat(text.as_str()),
            WlError::Protocol(text) => "protocol error: ".to_owned().concat(text.as_str()),
            WlError::Timeout(text) => "timed out: ".to_owned().concat(text.as_str()),
            WlError::Nixling(text) => text.clone(),
            WlError::D2b(text) => text.clone(),
            WlError::Io(text) => "i/o error: ".to_owned().concat(text.as_str()),
        }
    }
}

} // verus!
