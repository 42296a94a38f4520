//! Pixel layouts, what a recorder hands over, and the frames handed on.

use vstd::prelude::*;

verus! {

/// Number of bytes that one pixel occupies in every layout a frame can have.
pub const BYTES_PER_PIXEL: usize = 4;

/// Byte length of a `width` by `height` buffer at four bytes per pixel.
pub open spec fn frame_len(width: int, height: int) -> int {
    width * height * 4
}

/// Computes `frame_len`, or `None` where it does not fit in `usize`.
pub fn checked_frame_len(width: usize, height: usize) -> (len: Option<usize>)
    ensures
        0 <= frame_len(width as int, height as int),
        len is Some <==> frame_len(width as int, height as int) <= usize::MAX,
        len matches Some(n) ==> n == frame_len(width as int, height as int),
{
    assert(0 <= width * height * 4) by (nonlinear_arith);
    match width.checked_mul(height) {
        Some(pixels) => pixels.checked_mul(BYTES_PER_PIXEL),
        None => {
            assert(width * height * 4 > usize::MAX) by (nonlinear_arith)
                requires
                    width * height > usize::MAX,
            ;
            None
        },
    }
}

/// The canonical layouts. Both hold four bytes per pixel, the fourth unused.
#[allow(non_camel_case_types)]
#[derive(Clone, Copy, Debug, PartialEq, Eq, Structural)]
pub enum Pixfmt {
    /// Blue, green, red, unused.
    BGRA,
    /// Red, green, blue, unused.
    RGBA,
}

/// What a recorder hands over for one poll: pixels in the layout it
/// natively has, with width and height, or the word that nothing is new.
#[derive(Debug, PartialEq, Eq)]
pub enum PixelProvider {
    /// Three bytes per pixel: red, green, blue.
    RGB(usize, usize, Vec<u8>),
    /// Four bytes per pixel: red, green, blue, unused.
    RGB0(usize, usize, Vec<u8>),
    /// Four bytes per pixel: blue, green, red, unused.
    BGR0(usize, usize, Vec<u8>),
    /// No new frame.
    NONE,
}

/// What a recorder hands over, with the pixels as a sequence.
pub enum PixelProviderView {
    RGB(usize, usize, Seq<u8>),
    RGB0(usize, usize, Seq<u8>),
    BGR0(usize, usize, Seq<u8>),
    NONE,
}

impl View for PixelProvider {
    type V = PixelProviderView;

    open spec fn view(&self) -> PixelProviderView {
        match *self {
            PixelProvider::RGB(width, height, bytes) => PixelProviderView::RGB(
                width,
                height,
                bytes@,
            ),
            PixelProvider::RGB0(width, height, bytes) => PixelProviderView::RGB0(
                width,
                height,
                bytes@,
            ),
            PixelProvider::BGR0(width, height, bytes) => PixelProviderView::BGR0(
                width,
                height,
                bytes@,
            ),
            PixelProvider::NONE => PixelProviderView::NONE,
        }
    }
}

/// A frame as a value: layout, size and bytes.
pub struct FrameView {
    pub format: Pixfmt,
    pub width: usize,
    pub height: usize,
    pub data: Seq<u8>,
}

impl FrameView {
    /// The buffer is as long as the size and the layout say.
    pub open spec fn well_formed(self) -> bool {
        self.data.len() == frame_len(self.width as int, self.height as int)
    }
}

/// One captured picture in a canonical layout. Its buffer is always as long
/// as its size says: there are no partial frames.
#[derive(Debug, PartialEq, Eq)]
pub struct Frame {
    format: Pixfmt,
    width: usize,
    height: usize,
    data: Vec<u8>,
}

impl View for Frame {
    type V = FrameView;

    closed spec fn view(&self) -> FrameView {
        FrameView { format: self.format, width: self.width, height: self.height, data: self.data@ }
    }
}

impl Frame {
    #[verifier::type_invariant]
    spec fn complete(self) -> bool {
        self.data@.len() == frame_len(self.width as int, self.height as int)
    }

    /// A frame over `data`, or `None` where `data` is not as long as
    /// `width`, `height` and four bytes per pixel ask for.
    pub fn new(format: Pixfmt, width: usize, height: usize, data: Vec<u8>) -> (frame: Option<Frame>)
        ensures
            frame matches Some(f) ==> f@ == (FrameView { format, width, height, data: data@ })
                && f@.well_formed(),
            frame is Some <==> data@.len() == frame_len(width as int, height as int),
    {
        let given = data.len();
        match checked_frame_len(width, height) {
            Some(len) => if given == len {
                Some(Frame { format, width, height, data })
            } else {
                None
            },
            None => None,
        }
    }

    pub fn format(&self) -> (format: Pixfmt)
        ensures
            format == self@.format,
    {
        self.format
    }

    pub fn width(&self) -> (width: usize)
        ensures
            width == self@.width,
    {
        self.width
    }

    pub fn height(&self) -> (height: usize)
        ensures
            height == self@.height,
    {
        self.height
    }

    /// The pixels, row by row, four bytes each.
    pub fn data(&self) -> (data: &Vec<u8>)
        ensures
            data@ == self@.data,
            data@.len() == frame_len(self@.width as int, self@.height as int),
    {
        proof {
            use_type_invariant(self);
        }
        &self.data
    }

    /// Gives up the frame for its pixels.
    pub fn into_data(self) -> (data: Vec<u8>)
        ensures
            data@ == self@.data,
    {
        self.data
    }
}

/// The bytes of a buffer in blue, green, red, unused order that holds the
/// pixels of `argb`, a buffer whose pixels are stored red byte first and
/// blue byte third: within each pixel the first and third byte change
/// places, the second stays, and the fourth is zero.
pub open spec fn bgr0_of_argb(argb: Seq<u8>) -> Seq<u8> {
    Seq::new(
        argb.len(),
        |k: int|
            if k % 4 == 0 {
                argb[k + 2]
            } else if k % 4 == 1 {
                argb[k]
            } else if k % 4 == 2 {
                argb[k - 2]
            } else {
                0u8
            },
    )
}

/// The swap rule, pixel by pixel: in the converted buffer every pixel has
/// the source pixel's third byte first, its second byte second, its first
/// byte third, and zero last.
pub proof fn lemma_swap_rule(argb: Seq<u8>, i: int)
    requires
        0 <= i,
        i * 4 + 4 <= argb.len(),
    ensures
        bgr0_of_argb(argb).len() == argb.len(),
        bgr0_of_argb(argb)[i * 4] == argb[i * 4 + 2],
        bgr0_of_argb(argb)[i * 4 + 1] == argb[i * 4 + 1],
        bgr0_of_argb(argb)[i * 4 + 2] == argb[i * 4],
        bgr0_of_argb(argb)[i * 4 + 3] == 0,
{
}

/// Converts a buffer of whole four-byte pixels in one pass.
pub fn argb_to_bgr0(argb: &Vec<u8>) -> (bgr0: Vec<u8>)
    requires
        argb@.len() % 4 == 0,
    ensures
        bgr0@ == bgr0_of_argb(argb@),
{
    let len = argb.len();
    let mut bgr0: Vec<u8> = Vec::with_capacity(len);
    let mut at: usize = 0;
    while at < len
        invariant
            len == argb@.len(),
            len % 4 == 0,
            at % 4 == 0,
            at <= len,
            bgr0@ == bgr0_of_argb(argb@).take(at as int),
        decreases len - at,
    {
        bgr0.push(argb[at + 2]);
        bgr0.push(argb[at + 1]);
        bgr0.push(argb[at]);
        bgr0.push(0);
        assert(bgr0@ =~= bgr0_of_argb(argb@).take(at + 4));
        at = at + 4;
    }
    assert(bgr0_of_argb(argb@).take(len as int) =~= bgr0_of_argb(argb@));
    bgr0
}

} // verus!
