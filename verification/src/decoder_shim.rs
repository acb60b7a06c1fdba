//! The consumer-facing abstractions: what a decoded picture offers and what a
//! video decoder reports about itself.

use vstd::prelude::*;

verus! {

/// A decoded picture as a mathematical value.
pub struct FrameView {
    pub width: nat,
    pub height: nat,
    /// Row-major pixels, four bytes each, with no padding between rows.
    pub rgba: Seq<u8>,
    /// Nanoseconds since the picture before this one.
    pub nanos_from_prev: nat,
}

impl FrameView {
    /// The pixel bytes cover the picture exactly.
    pub open spec fn packed(self) -> bool {
        self.rgba.len() == self.width * self.height * 4
    }
}

/// A decoded picture in packed RGBA.
pub trait Frame {
    /// The picture as a mathematical value: what the accessors report.
    open spec fn picture(&self) -> FrameView {
        arbitrary()
    }

    fn width(&self) -> (w: usize)
        ensures
            w == self.picture().width,
    ;

    fn height(&self) -> (h: usize)
        ensures
            h == self.picture().height,
    ;

    /// The pixel bytes: exactly `width * height * 4` of them.
    fn rgba_buff(&self) -> (buf: &[u8])
        ensures
            buf@ == self.picture().rgba,
            buf@.len() == self.picture().width * self.picture().height * 4,
    ;

    fn nanos_from_prev(&self) -> (nanos: u64)
        ensures
            nanos == self.picture().nanos_from_prev,
    ;
}

/// The codec that a decoder negotiated for its video stream.
#[derive(Debug, PartialEq, Eq)]
pub struct Codec {
    pub name: String,
}

impl View for Codec {
    type V = Seq<char>;

    open spec fn view(&self) -> Seq<char> {
        self.name@
    }
}

/// What a consumer may ask of a decoder besides pictures.
pub trait VideoDecoder {
    /// Width of the picture that the codec decoded last.
    fn video_width(&self) -> usize;

    /// Height of the picture that the codec decoded last.
    fn video_height(&self) -> usize;

    /// The path or URL of the container as the backend resolved it.
    fn source(&self) -> &str;

    /// The codec bound to the selected video stream.
    fn codec(&self) -> Codec;
}

} // verus!
