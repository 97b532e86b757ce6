//! The placeholder image: what the render loop draws until the first frame
//! arrives.
//!
//! The image is bundled with the program in an encoded form and decoded once,
//! at startup, by the `image` crate. Nothing is taken on trust from that
//! decoder: what it hands back is checked before it becomes a
//! [`PlaceholderImage`].

use vstd::prelude::*;

verus! {

/// What the decoder made of the encoded bytes.
#[derive(Debug, PartialEq, Eq)]
pub enum Decoded {
    /// An image stored as 8-bit RGBA, with its pixel bytes in row order.
    Rgba8 { width: u32, height: u32, data: Vec<u8> },
    /// An image in some other pixel layout.
    OtherLayout,
    /// The bytes are no image that the decoder can read.
    Unreadable,
}

/// Why the bundled bytes give no placeholder.
#[derive(Debug, Clone, Copy, PartialEq, Eq, Structural)]
pub enum PlaceholderError {
    /// The bytes are no image that the decoder can read.
    Unreadable,
    /// The image is not stored as 8-bit RGBA.
    NotRgba8,
    /// The pixel bytes do not fill the image's width and height.
    SizeMismatch,
}

/// The number of bytes of an 8-bit RGBA image: four for each pixel.
pub open spec fn rgba8_len(width: u32, height: u32) -> int {
    4 * width * height
}

/// An 8-bit RGBA image as a value: its size and its pixel bytes, four to a
/// pixel, row after row.
pub struct Raster {
    pub width: u32,
    pub height: u32,
    pub data: Seq<u8>,
}

impl Raster {
    /// The pixel bytes fill the width and height exactly.
    pub open spec fn wf(self) -> bool {
        self.data.len() == rgba8_len(self.width, self.height)
    }
}

/// What a decoder's outcome is worth: an 8-bit RGBA image whose bytes fill
/// its size is the placeholder, anything else is an error.
pub open spec fn checked(decoded: Decoded) -> Result<Raster, PlaceholderError> {
    match decoded {
        Decoded::Rgba8 { width, height, data } => if data@.len() == rgba8_len(width, height) {
            Ok(Raster { width, height, data: data@ })
        } else {
            Err(PlaceholderError::SizeMismatch)
        },
        Decoded::OtherLayout => Err(PlaceholderError::NotRgba8),
        Decoded::Unreadable => Err(PlaceholderError::Unreadable),
    }
}

/// A decoded 8-bit RGBA image whose pixel bytes fill its width and height
/// exactly.
pub struct PlaceholderImage {
    width: u32,
    height: u32,
    data: Vec<u8>,
}

/// Decodes `bytes` with `image::load_from_memory` and reads the outcome off
/// with `DynamicImage::as_rgba8`, `width` and `height`.
///
/// Trusted, and nothing is claimed of the outcome: the decoder goes by the
/// bytes and by the decoding hooks registered in the process.
#[verifier::external_body]
fn decode_image(bytes: &[u8]) -> Decoded {
    match image::load_from_memory(bytes) {
        Ok(picture) => match picture.as_rgba8() {
            Some(pixels) => Decoded::Rgba8 {
                width: picture.width(),
                height: picture.height(),
                data: pixels.to_vec(),
            },
            None => Decoded::OtherLayout,
        },
        Err(_) => Decoded::Unreadable,
    }
}

impl View for PlaceholderImage {
    type V = Raster;

    closed spec fn view(&self) -> Raster {
        Raster { width: self.width, height: self.height, data: self.data@ }
    }
}

impl PlaceholderImage {
    #[verifier::type_invariant]
    spec fn inv(self) -> bool {
        self.data@.len() == rgba8_len(self.width, self.height)
    }

    /// Checks what the decoder handed back and makes the placeholder of it.
    pub fn from_decoded(decoded: Decoded) -> (result: Result<PlaceholderImage, PlaceholderError>)
        ensures
            match result {
                Ok(image) => checked(decoded) == Ok::<Raster, PlaceholderError>(image@),
                Err(error) => checked(decoded) == Err::<Raster, PlaceholderError>(error),
            },
            result matches Ok(image) ==> image@.wf(),
    {
        match decoded {
            Decoded::Rgba8 { width, height, data } => {
                assert(4 * (width as u128) * (height as u128) <= u128::MAX) by (nonlinear_arith)
                    requires
                        width <= u32::MAX,
                        height <= u32::MAX,
                ;
                let expected: u128 = 4 * (width as u128) * (height as u128);
                if data.len() as u128 == expected {
                    Ok(PlaceholderImage { width, height, data })
                } else {
                    Err(PlaceholderError::SizeMismatch)
                }
            },
            Decoded::OtherLayout => Err(PlaceholderError::NotRgba8),
            Decoded::Unreadable => Err(PlaceholderError::Unreadable),
        }
    }

    /// Decodes the bundled image. Whatever the decoder makes of `bytes`, an
    /// image that comes back is 8-bit RGBA and its bytes fill its size.
    pub fn decode(bytes: &[u8]) -> (result: Result<PlaceholderImage, PlaceholderError>)
        ensures
            result matches Ok(image) ==> image@.wf(),
    {
        Self::from_decoded(decode_image(bytes))
    }

    /// Width in pixels.
    pub fn width(&self) -> (width: u32)
        ensures
            width == self@.width,
    {
        self.width
    }

    /// Height in pixels.
    pub fn height(&self) -> (height: u32)
        ensures
            height == self@.height,
    {
        self.height
    }

    /// The pixel bytes, four to a pixel, row after row.
    pub fn data(&self) -> (data: &Vec<u8>)
        ensures
            data@ == self@.data,
            self@.wf(),
    {
        proof {
            use_type_invariant(self);
        }
        &self.data
    }
}

} // verus!
