//! A capture session on one display.
//!
//! A capturer owns the recorder that its display's backend opened. For each
//! frame it polls the recorder once and normalizes what came back: pixels in
//! a layout it knows become a frame, the word that nothing is new becomes
//! `WouldBlock`, and everything else is a failure.

use core::time::Duration;
use vstd::prelude::*;
use crate::display::{Display, DisplayView};
use crate::error::{CaptureError, CaptureErrorView};
use crate::pixel::{frame_len, Frame, FrameView, Pixfmt, PixelProvider, PixelProviderView};

verus! {

/// `Duration::as_millis` of std: the whole milliseconds that a duration
/// holds. Nothing is claimed of the number.
pub assume_specification[ Duration::as_millis ](duration: &Duration) -> (millis: u128);

/// The pollable object that a backend opens for one target.
pub trait Recorder {
    /// Waits up to `timeout_ms` milliseconds for new pixels and hands them
    /// over, or `PixelProvider::NONE` where there are none, or the text of
    /// what went wrong.
    fn capture(&mut self, timeout_ms: u64) -> Result<PixelProvider, String>;
}

/// The timeout that a recorder is polled with, for a timeout of `millis`
/// whole milliseconds: the same number where it fits 64 bits, and its low
/// 64 bits where it does not.
pub fn poll_timeout(millis: u128) -> (timeout_ms: u64)
    ensures
        timeout_ms == millis % 0x1_0000_0000_0000_0000,
{
    (millis % 0x1_0000_0000_0000_0000) as u64
}

/// What a poll gave, as a value.
pub open spec fn polled_view(polled: Result<PixelProvider, String>) -> Result<
    PixelProviderView,
    Seq<char>,
> {
    match polled {
        Ok(provider) => Ok(provider@),
        Err(text) => Err(text@),
    }
}

/// The outcome of a capture, as a value.
pub open spec fn outcome_view(outcome: Result<Frame, CaptureError>) -> Result<
    FrameView,
    CaptureErrorView,
> {
    match outcome {
        Ok(frame) => Ok(frame@),
        Err(error) => Err(error@),
    }
}

/// The frame over `data`, if `data` is as long as the size asks for.
pub open spec fn framed(format: Pixfmt, width: usize, height: usize, data: Seq<u8>) -> Result<
    FrameView,
    CaptureErrorView,
> {
    if data.len() == frame_len(width as int, height as int) {
        Ok(FrameView { format, width, height, data })
    } else {
        Err(CaptureErrorView::InvalidData)
    }
}

/// The outcome of a capture for each thing a poll can give.
///
/// Pixels in blue, green, red order become a `BGRA` frame and pixels in red,
/// green, blue order an `RGBA` frame, both with their bytes as they are and
/// both only if the buffer is as long as width, height and four bytes per
/// pixel ask for. No new data is `WouldBlock`. A layout of three bytes per
/// pixel is invalid data, and an error of the backend is a failure that
/// carries the backend's text.
pub open spec fn normalized(polled: Result<PixelProviderView, Seq<char>>) -> Result<
    FrameView,
    CaptureErrorView,
> {
    match polled {
        Ok(PixelProviderView::BGR0(width, height, bytes)) => framed(
            Pixfmt::BGRA,
            width,
            height,
            bytes,
        ),
        Ok(PixelProviderView::RGB0(width, height, bytes)) => framed(
            Pixfmt::RGBA,
            width,
            height,
            bytes,
        ),
        Ok(PixelProviderView::NONE) => Err(CaptureErrorView::WouldBlock),
        Ok(PixelProviderView::RGB(..)) => Err(CaptureErrorView::InvalidData),
        Err(text) => Err(CaptureErrorView::CaptureFailed { reason: text }),
    }
}

/// Turns what a poll gave into the outcome of the capture.
pub fn normalize(polled: Result<PixelProvider, String>) -> (outcome: Result<Frame, CaptureError>)
    ensures
        outcome_view(outcome) == normalized(polled_view(polled)),
        outcome matches Ok(frame) ==> frame@.well_formed(),
{
    match polled {
        Ok(PixelProvider::BGR0(width, height, bytes)) => match Frame::new(
            Pixfmt::BGRA,
            width,
            height,
            bytes,
        ) {
            Some(frame) => Ok(frame),
            None => Err(CaptureError::InvalidData),
        },
        Ok(PixelProvider::RGB0(width, height, bytes)) => match Frame::new(
            Pixfmt::RGBA,
            width,
            height,
            bytes,
        ) {
            Some(frame) => Ok(frame),
            None => Err(CaptureError::InvalidData),
        },
        Ok(PixelProvider::NONE) => Err(CaptureError::WouldBlock),
        Ok(PixelProvider::RGB(..)) => Err(CaptureError::InvalidData),
        Err(text) => Err(CaptureError::CaptureFailed { reason: text }),
    }
}

/// A live capture session bound to one display. It alone holds its
/// recorder, from the day it is opened until it is dropped.
pub struct Capturer<R: Recorder> {
    display: Display,
    recorder: R,
}

impl<R: Recorder> Capturer<R> {
    /// The display this capturer is bound to.
    pub closed spec fn display(&self) -> DisplayView {
        self.display@
    }

    /// The recorder this capturer owns.
    pub closed spec fn recorder(&self) -> R {
        self.recorder
    }

    /// Binds a capturer to `display`, given what opening the display's
    /// backend in capture mode gave: the recorder, or the text of why it
    /// could not be opened.
    pub fn new(display: Display, opened: Result<R, String>) -> (capturer: Result<
        Capturer<R>,
        CaptureError,
    >)
        ensures
            match opened {
                Ok(recorder) => capturer matches Ok(session) && session.display() == display@
                    && session.recorder() == recorder,
                Err(text) => capturer matches Err(error) && error@ == (
                CaptureErrorView::OpenFailed { reason: text@ }),
            },
    {
        match opened {
            Ok(recorder) => Ok(Capturer { display, recorder }),
            Err(text) => Err(CaptureError::OpenFailed { reason: text }),
        }
    }

    pub fn width(&self) -> (width: usize)
        ensures
            width == self.display().width,
    {
        self.display.width()
    }

    pub fn height(&self) -> (height: usize)
        ensures
            height == self.display().height,
    {
        self.display.height()
    }

    /// Polls the recorder once, with `poll_timeout` of the whole
    /// milliseconds of `timeout`, and normalizes what it gave.
    ///
    /// What the recorder gives is its own business, so all that is promised
    /// is what holds of every answer: the outcome is what `normalized`
    /// gives for some poll, a frame that comes back is complete, and the
    /// capturer stays bound to its display.
    pub fn frame(&mut self, timeout: Duration) -> (outcome: Result<Frame, CaptureError>)
        ensures
            exists|polled: Result<PixelProviderView, Seq<char>>|
                outcome_view(outcome) == #[trigger] normalized(polled),
            outcome matches Ok(frame) ==> frame@.well_formed(),
            final(self).display() == old(self).display(),
    {
        let timeout_ms = poll_timeout(timeout.as_millis());
        let polled = self.recorder.capture(timeout_ms);
        let outcome = normalize(polled);
        assert(outcome_view(outcome) == normalized(polled_view(polled)));
        outcome
    }
}

/// No data, no error: a poll that brings nothing new is answered with
/// `WouldBlock`, and since the outcome of a capture rests on the poll alone,
/// it is so for every poll of a recorder that never has new data, however
/// many there are.
pub proof fn lemma_no_data_is_would_block(polls: Seq<Result<PixelProviderView, Seq<char>>>)
    requires
        forall|i: int| 0 <= i < polls.len() ==> polls[i] == Ok::<PixelProviderView, Seq<char>>(
            PixelProviderView::NONE,
        ),
    ensures
        forall|i: int|
            0 <= i < polls.len() ==> #[trigger] normalized(polls[i]) == Err::<
                FrameView,
                CaptureErrorView,
            >(CaptureErrorView::WouldBlock),
{
}

/// A frame is never partial: whatever a poll gave, a frame that comes out
/// of it has a buffer of exactly width times height times four bytes.
pub proof fn lemma_frames_are_complete(polled: Result<PixelProviderView, Seq<char>>)
    ensures
        normalized(polled) matches Ok(frame) ==> frame.well_formed(),
{
}

} // verus!
