//! Decoded frame types and the pluggable H.264 decoder interface.

use vstd::prelude::*;

verus! {

/// A decoded RGBA frame (4 bytes per pixel, row-major, top to bottom).
#[derive(Clone, Debug)]
pub struct DecodedFrame {
    pub data: Vec<u8>,
    pub width: u32,
    pub height: u32,
}

/// A decoded planar YUV 4:2:0 frame. Planes are tightly packed: `y` holds
/// `width * height` bytes and `u`/`v` each hold `chroma_width(width) *
/// chroma_height(height)` bytes. Dimensions are macroblock aligned and may
/// exceed the destination rectangle.
#[derive(Clone, Debug)]
pub struct Yuv420Frame {
    pub y: Vec<u8>,
    pub u: Vec<u8>,
    pub v: Vec<u8>,
    pub width: u32,
    pub height: u32,
}

/// Half of `n`, rounded up.
pub open spec fn half_up(n: int) -> int {
    (n + 1) / 2
}

impl Yuv420Frame {
    /// Chroma plane width for a `width`-pixel luma plane.
    pub fn chroma_width(width: u32) -> (r: u32)
        ensures
            r == half_up(width as int),
    {
        width / 2 + width % 2
    }

    /// Chroma plane height for a `height`-pixel luma plane.
    pub fn chroma_height(height: u32) -> (r: u32)
        ensures
            r == half_up(height as int),
    {
        height / 2 + height % 2
    }
}

/// Why a decoder failed: a context message and, optionally, the message of
/// the underlying error.
#[derive(Debug, Clone)]
pub struct DecoderError {
    context: String,
    source: Option<String>,
}

impl DecoderError {
    pub closed spec fn spec_context(&self) -> Seq<char> {
        self.context@
    }

    pub closed spec fn spec_source(&self) -> Option<Seq<char>> {
        match self.source {
            Some(s) => Some(s@),
            None => None,
        }
    }

    /// An error with a context message and the message of its source error.
    pub fn new(context: String, source: String) -> (r: DecoderError)
        ensures
            r.spec_context() == context@,
            r.spec_source() == Some(source@),
    {
        DecoderError { context, source: Some(source) }
    }

    /// An error with only a context message.
    pub fn msg(context: String) -> (r: DecoderError)
        ensures
            r.spec_context() == context@,
            r.spec_source() is None,
    {
        DecoderError { context, source: None }
    }

    /// The context message.
    pub fn context(&self) -> (r: &String)
        ensures
            r@ == self.spec_context(),
    {
        &self.context
    }

    /// The message of the source error, if there is one.
    pub fn source_message(&self) -> (r: Option<&String>)
        ensures
            match r {
                Some(s) => self.spec_source() == Some(s@),
                None => self.spec_source() is None,
            },
    {
        match &self.source {
            Some(s) => Some(s),
            None => None,
        }
    }
}

/// An H.264 decoder that consumers plug into the graphics pipeline. Input is
/// AVC format (4-byte big-endian length before each NAL unit).
pub trait H264Decoder {
    /// Decodes NAL units into an RGBA frame.
    fn decode(&mut self, data: &[u8]) -> Result<DecodedFrame, DecoderError>;

    /// Decodes NAL units into a planar YUV 4:2:0 frame; decoders that only
    /// produce RGBA keep this default, which reports the lack of support.
    fn decode_yuv(&mut self, data: &[u8]) -> (r: Result<Yuv420Frame, DecoderError>)
        default_ensures
            r matches Err(e) && e.spec_context() == "YUV 4:2:0 decode not supported by this decoder"@
                && e.spec_source() is None,
    {
        Err(DecoderError::msg(String::from_str("YUV 4:2:0 decode not supported by this decoder")))
    }

    /// Drops any decoder state (called on a graphics reset).
    fn reset(&mut self) {
    }
}

} // verus!
