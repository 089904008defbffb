//! Decoded album artwork, held as plain pixel data.

use vstd::prelude::*;

verus! {

/// How the bytes of a pixel buffer are laid out.
#[derive(Clone, Copy, Debug, PartialEq, Eq, Structural)]
pub enum PixelFormat {
    /// One byte per pixel.
    Grayscale,
    /// Three bytes per pixel, in RGB order.
    Rgb,
    /// Four bytes per pixel, in RGBA order, with separate alpha.
    RgbaSeparate,
    /// Four bytes per pixel, in RGBA order, with premultiplied alpha.
    RgbaPremul,
}

impl PixelFormat {
    /// The number of bytes one pixel takes in this format.
    pub open spec fn pixel_bytes(self) -> nat {
        match self {
            PixelFormat::Grayscale => 1,
            PixelFormat::Rgb => 3,
            PixelFormat::RgbaSeparate => 4,
            PixelFormat::RgbaPremul => 4,
        }
    }

    /// The number of bytes one pixel takes in this format.
    pub fn bytes_per_pixel(&self) -> (n: usize)
        ensures
            n == self.pixel_bytes(),
    {
        match self {
            PixelFormat::Grayscale => 1,
            PixelFormat::Rgb => 3,
            PixelFormat::RgbaSeparate => 4,
            PixelFormat::RgbaPremul => 4,
        }
    }
}

/// The mathematical content of an [`Artwork`].
pub struct ArtworkView {
    pub pixels: Seq<u8>,
    pub format: PixelFormat,
    pub width: nat,
    pub height: nat,
}

impl ArtworkView {
    /// The buffer holds exactly one pixel of the format for each position.
    pub open spec fn well_formed(self) -> bool {
        self.pixels.len() == self.width * self.height * self.format.pixel_bytes()
    }

    /// The picture without pixels, which stands for "no artwork".
    pub open spec fn empty() -> ArtworkView {
        ArtworkView {
            pixels: Seq::empty(),
            format: PixelFormat::RgbaSeparate,
            width: 0,
            height: 0,
        }
    }
}

/// A picture: a pixel buffer with its dimensions and format.
///
/// Every value holds exactly `width * height` pixels, so a buffer handed on to
/// a drawing layer always has the length that its dimensions announce.
#[derive(Debug)]
pub struct Artwork {
    pixels: Vec<u8>,
    format: PixelFormat,
    width: usize,
    height: usize,
}

impl View for Artwork {
    type V = ArtworkView;

    closed spec fn view(&self) -> ArtworkView {
        ArtworkView {
            pixels: self.pixels@,
            format: self.format,
            width: self.width as nat,
            height: self.height as nat,
        }
    }
}

impl Clone for Artwork {
    fn clone(&self) -> (art: Artwork)
        ensures
            art@ == self@,
    {
        proof {
            use_type_invariant(self);
        }
        let pixels: Vec<u8> = self.pixels.clone();
        assert(pixels@ =~= self.pixels@);
        Artwork { pixels, format: self.format, width: self.width, height: self.height }
    }
}

impl Artwork {
    #[verifier::type_invariant]
    spec fn sized(self) -> bool {
        self.pixels@.len() == self.width * self.height * self.format.pixel_bytes()
    }

    /// The picture without pixels.
    pub fn empty() -> (art: Artwork)
        ensures
            art@ == ArtworkView::empty(),
    {
        Artwork { pixels: Vec::new(), format: PixelFormat::RgbaSeparate, width: 0, height: 0 }
    }

    /// A picture from raw pixel data, or `None` when the buffer does not hold
    /// exactly `width * height` pixels of the format.
    pub fn from_raw(pixels: Vec<u8>, format: PixelFormat, width: usize, height: usize) -> (art: Option<
        Artwork,
    >)
        ensures
            art is Some <==> pixels@.len() == width * height * format.pixel_bytes(),
            art matches Some(a) ==> a@ == (ArtworkView {
                pixels: pixels@,
                format,
                width: width as nat,
                height: height as nat,
            }),
    {
        let len: usize = pixels.len();
        let bpp: usize = format.bytes_per_pixel();
        if width == 0 || height == 0 {
            assert(width * height * format.pixel_bytes() == 0) by (nonlinear_arith)
                requires
                    width == 0 || height == 0,
            ;
            if len == 0 {
                Some(Artwork { pixels, format, width, height })
            } else {
                None
            }
        } else {
            // Both factors are at least one, so a product that overflows is
            // larger than any buffer.
            match width.checked_mul(height) {
                None => {
                    assert(width * height * format.pixel_bytes() > len) by (nonlinear_arith)
                        requires
                            width * height > usize::MAX,
                            format.pixel_bytes() >= 1,
                            len <= usize::MAX,
                    ;
                    None
                },
                Some(area) => match area.checked_mul(bpp) {
                    None => None,
                    Some(total) => {
                        if total == len {
                            Some(Artwork { pixels, format, width, height })
                        } else {
                            None
                        }
                    },
                },
            }
        }
    }

    /// The raw pixel data, row by row. Its length is the one that the
    /// dimensions and the format announce.
    pub fn raw_pixels(&self) -> (pixels: &Vec<u8>)
        ensures
            pixels@ == self@.pixels,
            self@.well_formed(),
    {
        proof {
            use_type_invariant(self);
        }
        &self.pixels
    }

    /// The pixel format of the buffer.
    pub fn format(&self) -> (format: PixelFormat)
        ensures
            format == self@.format,
    {
        self.format
    }

    /// The width in pixels.
    pub fn width(&self) -> (width: usize)
        ensures
            width == self@.width,
    {
        self.width
    }

    /// The height in pixels.
    pub fn height(&self) -> (height: usize)
        ensures
            height == self@.height,
    {
        self.height
    }

    /// Whether the picture has no pixels.
    pub fn is_empty(&self) -> (empty: bool)
        ensures
            empty == (self@.pixels.len() == 0),
    {
        self.pixels.len() == 0
    }
}

/// How the attempt to obtain the artwork of a track ended.
#[derive(Clone, Debug)]
pub enum ArtFetch {
    /// No request was made.
    Skipped,
    /// The request could not be sent, or its body could not be read.
    Unreachable,
    /// The server answered with a status other than success.
    Refused,
    /// The body arrived but is no picture.
    Undecodable,
    /// The body decoded to this picture.
    Decoded(Artwork),
}

impl ArtFetch {
    /// The picture that the attempt yields: the decoded one, and the empty
    /// picture for every way of failing.
    pub open spec fn picture(self) -> ArtworkView {
        match self {
            ArtFetch::Decoded(art) => art@,
            _ => ArtworkView::empty(),
        }
    }

    /// The picture that the attempt yields.
    pub fn into_artwork(self) -> (art: Artwork)
        ensures
            art@ == self.picture(),
    {
        match self {
            ArtFetch::Decoded(art) => art,
            _ => Artwork::empty(),
        }
    }
}

} // verus!
