//! Decoded pictures: the pixels of a JPEG image as three 8-bit channels.

use vstd::prelude::*;
use crate::error::RollError;

verus! {

/// A picture as numbers: its size and its bytes, row by row.
pub ghost struct Bitmap {
    pub width: nat,
    pub height: nat,
    pub pixels: Seq<u8>,
}

impl Bitmap {
    /// The bytes are exactly three for each pixel.
    pub open spec fn is_rgb8(self) -> bool {
        self.pixels.len() == 3 * (self.width * self.height)
    }
}

/// What a decoder hands out: a size and bytes, with nothing known of how they fit.
#[derive(Debug, PartialEq, Eq)]
pub struct RawImage {
    pub width: u32,
    pub height: u32,
    pub pixels: Vec<u8>,
}

impl View for RawImage {
    type V = Bitmap;

    open spec fn view(&self) -> Bitmap {
        Bitmap { width: self.width as nat, height: self.height as nat, pixels: self.pixels@ }
    }
}

/// A picture of three 8-bit channels whose bytes fit its size.
#[derive(Debug, PartialEq, Eq)]
pub struct DecodedImage {
    width: u32,
    height: u32,
    pixels: Vec<u8>,
}

impl View for DecodedImage {
    type V = Bitmap;

    closed spec fn view(&self) -> Bitmap {
        Bitmap { width: self.width as nat, height: self.height as nat, pixels: self.pixels@ }
    }
}

impl DecodedImage {
    #[verifier::type_invariant]
    spec fn fits(&self) -> bool {
        self@.is_rgb8()
    }

    /// Accepts `raw` as a picture of three 8-bit channels, if its bytes fit its size.
    pub fn new(raw: RawImage) -> (image: Option<DecodedImage>)
        ensures
            match image {
                Some(img) => raw@.is_rgb8() && img@ == raw@,
                None => !raw@.is_rgb8(),
            },
    {
        let len: usize = raw.pixels.len();
        let width: u64 = raw.width as u64;
        let height: u64 = raw.height as u64;
        assert(width * height <= 0xffff_ffff * 0xffff_ffff) by (nonlinear_arith)
            requires
                0 <= width <= 0xffff_ffff,
                0 <= height <= 0xffff_ffff,
        ;
        if len % 3 == 0 && (len / 3) as u64 == width * height {
            Some(DecodedImage { width: raw.width, height: raw.height, pixels: raw.pixels })
        } else {
            None
        }
    }

    /// The number of pixels in a row.
    pub fn width(&self) -> (w: u32)
        ensures
            w == self@.width,
    {
        self.width
    }

    /// The number of rows.
    pub fn height(&self) -> (h: u32)
        ensures
            h == self@.height,
    {
        self.height
    }

    /// The bytes, three for each pixel.
    pub fn pixels(&self) -> (bytes: &Vec<u8>)
        ensures
            bytes@ == self@.pixels,
            self@.is_rgb8(),
    {
        proof {
            use_type_invariant(self);
        }
        &self.pixels
    }
}

/// `image::ImageError`, the decoder's reason for refusing bytes.
#[verifier::external_type_specification]
#[verifier::external_body]
pub struct ExImageError(image::ImageError);

/// Calls `image::load_from_memory_with_format` for the JPEG format, and
/// `DynamicImage::as_rgb8` on what it decoded. A picture of another layout
/// comes back as `Ok(None)`.
///
/// Nothing is claimed of what comes back: the decoder picks its arithmetic by
/// the processor that it runs on, so the same bytes need not give the same
/// pixels everywhere.
#[verifier::external_body]
fn decode_jpeg(data: &[u8]) -> Result<Option<RawImage>, image::ImageError> {
    let picture = image::load_from_memory_with_format(data, image::ImageFormat::Jpeg)?;
    Ok(picture.as_rgb8().map(|rgb| RawImage {
        width: rgb.width(),
        height: rgb.height(),
        pixels: rgb.as_raw().clone(),
    }))
}

/// What becomes of a decoder's output: the picture, where there is one and its
/// bytes fit its size, and the failure `Decode` otherwise.
pub open spec fn accepted(decoded: Option<Bitmap>) -> Result<Bitmap, RollError> {
    match decoded {
        Some(bitmap) => if bitmap.is_rgb8() {
            Ok(bitmap)
        } else {
            Err(RollError::Decode)
        },
        None => Err(RollError::Decode),
    }
}

/// Accepts a decoder's output as a picture, or refuses it with `Decode`.
pub fn accept_decoded(decoded: Option<RawImage>) -> (picture: Result<DecodedImage, RollError>)
    ensures
        match picture {
            Ok(image) => decoded matches Some(raw) && accepted(Some(raw@)) == Ok::<
                Bitmap,
                RollError,
            >(image@),
            Err(e) => e == RollError::Decode && (decoded matches Some(raw) ==> !raw@.is_rgb8()),
        },
{
    match decoded {
        Some(raw) => match DecodedImage::new(raw) {
            Some(image) => Ok(image),
            None => Err(RollError::Decode),
        },
        None => Err(RollError::Decode),
    }
}

/// Decodes the bytes of an image as JPEG. Whatever the decoder makes of them,
/// a picture that is handed out has three bytes for each pixel, and the only
/// failure is `Decode`: for bytes that the decoder refuses, for a picture
/// that has not three 8-bit channels, and for bytes that do not fit the size.
pub fn decode_image(data: &[u8]) -> (decoded: Result<DecodedImage, RollError>)
    ensures
        match decoded {
            Ok(image) => image@.is_rgb8(),
            Err(e) => e == RollError::Decode,
        },
{
    match decode_jpeg(data) {
        Ok(found) => accept_decoded(found),
        Err(_) => Err(RollError::Decode),
    }
}

} // verus!
