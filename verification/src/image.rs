//! Images, held in the encoded form of the QOI lossless codec.

use crate::bytes::outcome;
use qoi::Error;
use vstd::prelude::*;

verus! {

/// The codec takes at most this many pixels.
pub const PIXELS_MAX: u32 = 400_000_000;

/// Why the codec refused a buffer.
#[derive(Clone, Copy, Debug, PartialEq, Eq)]
pub enum CodecError {
    /// The encoded bytes do not start with the codec's magic.
    InvalidMagic,
    /// The number of channels is neither 3 nor 4.
    InvalidChannels,
    /// The colour space byte is neither 0 nor 1.
    InvalidColorSpace,
    /// No pixel, or more than [`PIXELS_MAX`] pixels.
    InvalidImageDimensions,
    /// The buffer is not a whole number of bytes per pixel.
    InvalidImageLength,
    /// The codec's output buffer was too small.
    OutputBufferTooSmall,
    /// The encoded bytes end before the image does.
    UnexpectedBufferEnd,
    /// The encoded bytes do not end with the codec's end marker.
    InvalidPadding,
    /// An input or output error inside the codec.
    Io,
}

/// An image: its dimensions and its encoded bytes. Decoding happens on
/// demand.
#[derive(Debug, PartialEq, Eq)]
pub struct Image {
    width: u32,
    height: u32,
    data: Vec<u8>,
}

/// The mathematical value of an [`Image`].
pub struct ImageView {
    pub width: u32,
    pub height: u32,
    pub data: Seq<u8>,
}

impl View for Image {
    type V = ImageView;

    closed spec fn view(&self) -> ImageView {
        ImageView { width: self.width, height: self.height, data: self.data@ }
    }
}

/// The bytes that `qoi::encode_to_vec` returns for a raw buffer that it
/// accepts.
pub uninterp spec fn qoi_encoded(raw: Seq<u8>, width: u32, height: u32) -> Seq<u8>;

/// What `qoi::decode_to_vec` returns for encoded bytes: the raw channel
/// bytes, or the error.
pub uninterp spec fn qoi_decoded(data: Seq<u8>) -> Result<Seq<u8>, CodecError>;

/// Why the codec refuses a raw buffer of `len` bytes for a `width` by
/// `height` image, `None` where it accepts it: the image has between one and
/// [`PIXELS_MAX`] pixels and the buffer holds 3 or 4 bytes for each.
pub open spec fn raw_fault(width: u32, height: u32, len: nat) -> Option<CodecError> {
    let pixels = width * height;
    if pixels == 0 || pixels > PIXELS_MAX {
        Some(CodecError::InvalidImageDimensions)
    } else if len % (pixels as nat) != 0 {
        Some(CodecError::InvalidImageLength)
    } else if len != 3 * pixels && len != 4 * pixels {
        Some(CodecError::InvalidChannels)
    } else {
        None
    }
}

/// Calls `qoi::encode_to_vec`. Trusted: the codec refuses a buffer exactly as
/// [`raw_fault`] says, with that error; the bytes that it returns otherwise
/// are a function of its arguments, and, as the crate documents for the
/// pair, `qoi::decode_to_vec` gives the raw buffer back from them.
#[verifier::external_body]
fn qoi_encode(raw: &[u8], width: u32, height: u32) -> (r: Result<Vec<u8>, CodecError>)
    ensures
        match r {
            Ok(data) => {
                &&& raw_fault(width, height, raw@.len()) is None
                &&& data@ == qoi_encoded(raw@, width, height)
                &&& qoi_decoded(data@) == Ok::<Seq<u8>, CodecError>(raw@)
            },
            Err(e) => raw_fault(width, height, raw@.len()) == Some(e),
        },
{
    match qoi::encode_to_vec(raw, width, height) {
        Ok(data) => Ok(data),
        Err(Error::InvalidMagic { .. }) => Err(CodecError::InvalidMagic),
        Err(Error::InvalidChannels { .. }) => Err(CodecError::InvalidChannels),
        Err(Error::InvalidColorSpace { .. }) => Err(CodecError::InvalidColorSpace),
        Err(Error::InvalidImageDimensions { .. }) => Err(CodecError::InvalidImageDimensions),
        Err(Error::InvalidImageLength { .. }) => Err(CodecError::InvalidImageLength),
        Err(Error::OutputBufferTooSmall { .. }) => Err(CodecError::OutputBufferTooSmall),
        Err(Error::UnexpectedBufferEnd) => Err(CodecError::UnexpectedBufferEnd),
        Err(Error::InvalidPadding) => Err(CodecError::InvalidPadding),
        Err(Error::IoError(_)) => Err(CodecError::Io),
    }
}

/// Calls `qoi::decode_to_vec` and keeps the raw channel bytes. Trusted: the
/// result is a function of the encoded bytes.
#[verifier::external_body]
fn qoi_decode(data: &[u8]) -> (r: Result<Vec<u8>, CodecError>)
    ensures
        outcome(r) == qoi_decoded(data@),
{
    match qoi::decode_to_vec(data) {
        Ok((_, raw)) => Ok(raw),
        Err(Error::InvalidMagic { .. }) => Err(CodecError::InvalidMagic),
        Err(Error::InvalidChannels { .. }) => Err(CodecError::InvalidChannels),
        Err(Error::InvalidColorSpace { .. }) => Err(CodecError::InvalidColorSpace),
        Err(Error::InvalidImageDimensions { .. }) => Err(CodecError::InvalidImageDimensions),
        Err(Error::InvalidImageLength { .. }) => Err(CodecError::InvalidImageLength),
        Err(Error::OutputBufferTooSmall { .. }) => Err(CodecError::OutputBufferTooSmall),
        Err(Error::UnexpectedBufferEnd) => Err(CodecError::UnexpectedBufferEnd),
        Err(Error::InvalidPadding) => Err(CodecError::InvalidPadding),
        Err(Error::IoError(_)) => Err(CodecError::Io),
    }
}

impl Image {
    /// Encodes a raw buffer: row after row, 3 (red, green, blue) or 4 (and
    /// alpha) bytes for each pixel. Decoding the image gives the buffer back.
    pub fn from_raw(width: u32, height: u32, data: &[u8]) -> (r: Result<Image, CodecError>)
        ensures
            match r {
                Ok(image) => {
                    &&& raw_fault(width, height, data@.len()) is None
                    &&& image@ == (ImageView {
                        width,
                        height,
                        data: qoi_encoded(data@, width, height),
                    })
                    &&& qoi_decoded(image@.data) == Ok::<Seq<u8>, CodecError>(data@)
                },
                Err(e) => raw_fault(width, height, data@.len()) == Some(e),
            },
    {
        match qoi_encode(data, width, height) {
            Ok(data) => Ok(Image::new(width, height, data)),
            Err(e) => Err(e),
        }
    }

    /// An image of bytes that are already encoded.
    pub fn new(width: u32, height: u32, data: Vec<u8>) -> (image: Image)
        ensures
            image@ == (ImageView { width, height, data: data@ }),
    {
        Image { width, height, data }
    }

    pub fn width(&self) -> (width: u32)
        ensures
            width == self@.width,
    {
        self.width
    }

    pub fn height(&self) -> (height: u32)
        ensures
            height == self@.height,
    {
        self.height
    }

    /// The encoded bytes.
    pub fn data(&self) -> (data: &[u8])
        ensures
            data@ == self@.data,
    {
        self.data.as_slice()
    }

    /// The raw channel bytes. How many channels there are is said by the
    /// encoded bytes.
    pub fn decode(&self) -> (r: Result<Vec<u8>, CodecError>)
        ensures
            outcome(r) == qoi_decoded(self@.data),
    {
        qoi_decode(self.data.as_slice())
    }
}

} // verus!
