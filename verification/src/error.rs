//! What capture can fail with.

use vstd::prelude::*;
use vstd::string::*;

verus! {

/// A failure of enumeration, of opening a capturer, or of one capture.
///
/// `WouldBlock` is no fault: the screen did not change within the timeout
/// and the caller polls again. Every other variant is a hard failure.
#[derive(Debug, PartialEq, Eq)]
pub enum CaptureError {
    /// Every capture method was tried and none worked; `last` is what the
    /// last one failed with.
    NoCaptureMethod { last: String },
    /// There is no display to capture.
    NotFound,
    /// The backend of a display could not be opened.
    OpenFailed { reason: String },
    /// No new frame yet.
    WouldBlock,
    /// The backend reported an error while capturing.
    CaptureFailed { reason: String },
    /// The backend handed over pixels in a layout or of a size that cannot
    /// be taken.
    InvalidData,
}

/// A capture error with its texts as sequences.
pub enum CaptureErrorView {
    NoCaptureMethod { last: Seq<char> },
    NotFound,
    OpenFailed { reason: Seq<char> },
    WouldBlock,
    CaptureFailed { reason: Seq<char> },
    InvalidData,
}

impl View for CaptureError {
    type V = CaptureErrorView;

    open spec fn view(&self) -> CaptureErrorView {
        match *self {
            CaptureError::NoCaptureMethod { last } => CaptureErrorView::NoCaptureMethod {
                last: last@,
            },
            CaptureError::NotFound => CaptureErrorView::NotFound,
            CaptureError::OpenFailed { reason } => CaptureErrorView::OpenFailed {
                reason: reason@,
            },
            CaptureError::WouldBlock => CaptureErrorView::WouldBlock,
            CaptureError::CaptureFailed { reason } => CaptureErrorView::CaptureFailed {
                reason: reason@,
            },
            CaptureError::InvalidData => CaptureErrorView::InvalidData,
        }
    }
}

impl CaptureErrorView {
    /// The text of the error.
    pub open spec fn message(self) -> Seq<char> {
        match self {
            CaptureErrorView::NoCaptureMethod { last } => "All capture methods failed: "@ + last,
            CaptureErrorView::NotFound => "No display found"@,
            CaptureErrorView::OpenFailed { reason } => reason,
            CaptureErrorView::WouldBlock => "No new frame yet"@,
            CaptureErrorView::CaptureFailed { reason } => reason,
            CaptureErrorView::InvalidData => "Invalid data"@,
        }
    }
}

impl CaptureError {
    /// Whether the caller should simply poll again.
    pub fn is_would_block(&self) -> (transient: bool)
        ensures
            transient == (self@ is WouldBlock),
    {
        match self {
            CaptureError::WouldBlock => true,
            _ => false,
        }
    }

    /// The text of the error, as it is handed to whoever reports it.
    pub fn message(&self) -> (text: String)
        ensures
            text@ == self@.message(),
    {
        match self {
            CaptureError::NoCaptureMethod { last } => {
                String::from_str("All capture methods failed: ").concat(last.as_str())
            },
            CaptureError::NotFound => String::from_str("No display found"),
            CaptureError::OpenFailed { reason } => reason.clone(),
            CaptureError::WouldBlock => String::from_str("No new frame yet"),
            CaptureError::CaptureFailed { reason } => reason.clone(),
            CaptureError::InvalidData => String::from_str("Invalid data"),
        }
    }
}

} // verus!
