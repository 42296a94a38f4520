//! Capture from a graphics device node or the raw framebuffer.
//!
//! The device is read elsewhere. What is here is what the device is known
//! as, how many bytes one picture of it takes, and how those bytes, which
//! lie in memory red byte first, become pixels in blue, green, red order.

use vstd::prelude::*;
use vstd::string::*;
use crate::pixel::{argb_to_bgr0, bgr0_of_argb, checked_frame_len, frame_len, PixelProvider};

verus! {

/// The four-character code of the layout the device memory is read in:
/// eight bits each of alpha, red, green and blue.
pub const DRM_FORMAT_ARGB8888: u32 = 0x34325241;

/// One whole screen behind a device node.
#[derive(Debug, PartialEq, Eq)]
pub struct DrmCapturable {
    pub path: String,
    pub width: usize,
    pub height: usize,
    pub format: u32,
}

impl DrmCapturable {
    /// The screen behind the node at `path`, `width` by `height` pixels as
    /// the device reported them.
    pub fn new(path: &str, width: usize, height: usize) -> (capturable: DrmCapturable)
        ensures
            capturable.path@ == path@,
            capturable.width == width,
            capturable.height == height,
            capturable.format == DRM_FORMAT_ARGB8888,
    {
        DrmCapturable { path: String::from_str(path), width, height, format: DRM_FORMAT_ARGB8888 }
    }

    /// The name the screen goes by: the node's path behind a fixed prefix.
    pub open spec fn name_spec(path: Seq<char>) -> Seq<char> {
        "DRM: "@ + path
    }

    pub fn name(&self) -> (name: String)
        ensures
            name@ == Self::name_spec(self.path@),
    {
        String::from_str("DRM: ").concat(self.path.as_str())
    }

    /// Nothing has to be done before input is taken.
    pub fn before_input(&mut self)
        ensures
            *final(self) == *old(self),
    {
    }

    /// The recorder for this screen. The cursor is never part of what a
    /// device node holds, so `capture_cursor` changes nothing.
    pub fn recorder(&self, capture_cursor: bool) -> (recorder: DrmRecorder)
        ensures
            recorder.width() == self.width,
            recorder.height() == self.height,
    {
        DrmRecorder::new(
            DrmCapturable {
                path: self.path.clone(),
                width: self.width,
                height: self.height,
                format: self.format,
            },
        )
    }
}

/// Turns what was read from the device into what a recorder hands over.
#[derive(Debug, PartialEq, Eq)]
pub struct DrmRecorder {
    capturable: DrmCapturable,
}

impl DrmRecorder {
    pub closed spec fn width(&self) -> usize {
        self.capturable.width
    }

    pub closed spec fn height(&self) -> usize {
        self.capturable.height
    }

    pub fn new(capturable: DrmCapturable) -> (recorder: DrmRecorder)
        ensures
            recorder.width() == capturable.width,
            recorder.height() == capturable.height,
    {
        DrmRecorder { capturable }
    }

    /// How many bytes one picture takes, or `None` where the screen is too
    /// large for any buffer.
    pub fn frame_len(&self) -> (len: Option<usize>)
        ensures
            len is Some <==> frame_len(self.width() as int, self.height() as int) <= usize::MAX,
            len matches Some(n) ==> n == frame_len(self.width() as int, self.height() as int),
    {
        checked_frame_len(self.capturable.width, self.capturable.height)
    }

    /// What the recorder hands over for one read of the device.
    ///
    /// A read that failed is passed on with its text. Bytes that were read
    /// are taken only if there are exactly as many as one picture takes;
    /// they are then converted in one pass and handed over in blue, green,
    /// red order with the screen's size.
    pub fn capture(&self, raw: Result<Vec<u8>, String>) -> (polled: Result<PixelProvider, String>)
        ensures
            match raw {
                Err(text) => polled == Err::<PixelProvider, String>(text),
                Ok(bytes) => if bytes@.len() == frame_len(
                    self.width() as int,
                    self.height() as int,
                ) {
                    polled matches Ok(PixelProvider::BGR0(width, height, pixels)) && width
                        == self.width() && height == self.height() && pixels@ == bgr0_of_argb(
                        bytes@,
                    )
                } else {
                    polled matches Err(text) && text@ == "Invalid data"@
                },
            },
    {
        match raw {
            Err(text) => Err(text),
            Ok(bytes) => {
                let given = bytes.len();
                match checked_frame_len(self.capturable.width, self.capturable.height) {
                    Some(len) => if given == len {
                        assert(len % 4 == 0) by (nonlinear_arith)
                            requires
                                len == self.capturable.width * self.capturable.height * 4,
                        ;
                        let pixels = argb_to_bgr0(&bytes);
                        Ok(
                            PixelProvider::BGR0(
                                self.capturable.width,
                                self.capturable.height,
                                pixels,
                            ),
                        )
                    } else {
                        Err(String::from_str("Invalid data"))
                    },
                    None => Err(String::from_str("Invalid data")),
                }
            },
        }
    }
}

} // verus!
