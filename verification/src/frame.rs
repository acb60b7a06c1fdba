//! The picture that the pipeline hands to its consumer.

use crate::decoder_shim::{Frame, FrameView};
use vstd::prelude::*;

verus! {

/// The text with which [`FfmpegFrame::new`] rejects a buffer of the wrong size.
pub open spec fn size_mismatch_text() -> Seq<char> {
    "pixel buffer does not hold width * height * 4 bytes"@
}

/// A converted picture that owns its pixel bytes.
#[derive(Debug, PartialEq, Eq)]
pub struct FfmpegFrame {
    width: usize,
    height: usize,
    data: Vec<u8>,
    nanos_from_prev: u64,
}

impl View for FfmpegFrame {
    type V = FrameView;

    closed spec fn view(&self) -> FrameView {
        FrameView {
            width: self.width as nat,
            height: self.height as nat,
            rgba: self.data@,
            nanos_from_prev: self.nanos_from_prev as nat,
        }
    }
}

impl FfmpegFrame {
    #[verifier::type_invariant]
    spec fn packed(self) -> bool {
        self.data@.len() == self.width * self.height * 4
    }

    /// Wraps a pixel buffer. The buffer is accepted exactly when it holds
    /// four bytes for each of the `width * height` pixels.
    pub fn new(width: usize, height: usize, data: Vec<u8>, nanos_from_prev: u64) -> (res: Result<
        FfmpegFrame,
        String,
    >)
        ensures
            res is Ok <==> data@.len() == width * height * 4,
            res matches Ok(frame) ==> frame@ == (FrameView {
                width: width as nat,
                height: height as nat,
                rgba: data@,
                nanos_from_prev: nanos_from_prev as nat,
            }),
            res matches Err(text) ==> text@ == size_mismatch_text(),
    {
        assert(width * height * 4 >= width * height >= 0) by (nonlinear_arith);
        let bytes = match width.checked_mul(height) {
            Some(pixels) => pixels.checked_mul(4),
            None => None,
        };
        let len = data.len();
        let fits = match bytes {
            Some(b) => len == b,
            None => false,
        };
        assert(fits <==> data@.len() == width * height * 4);
        if fits {
            Ok(FfmpegFrame { width, height, data, nanos_from_prev })
        } else {
            Err("pixel buffer does not hold width * height * 4 bytes".to_string())
        }
    }
}

impl Frame for FfmpegFrame {
    open spec fn picture(&self) -> FrameView {
        self@
    }

    fn width(&self) -> (w: usize) {
        self.width
    }

    fn height(&self) -> (h: usize) {
        self.height
    }

    fn rgba_buff(&self) -> (buf: &[u8]) {
        proof {
            use_type_invariant(self);
        }
        self.data.as_slice()
    }

    fn nanos_from_prev(&self) -> (nanos: u64) {
        self.nanos_from_prev
    }
}

} // verus!
