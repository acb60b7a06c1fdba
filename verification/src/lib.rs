//! The decision core of a video player's decode pipeline.
//!
//! A media container is opened, its first video stream is bound to a codec,
//! and packets are pushed through the codec until a picture comes out, which
//! is handed on as packed RGBA bytes. The native backend that touches the
//! container and the codec lives outside this crate: the crate decides, step
//! by step, what the backend has to do next and what its answers mean.
//!
//! - [`decoder`] holds the decoder itself, a state machine, and the function
//!   that defines its every step;
//! - [`event`] holds what is said between the decoder and the backend;
//! - [`stream`] selects the video stream, and [`frame`] holds the picture
//!   that a consumer gets;
//! - [`decoder_shim`] holds what a consumer sees of frames and decoders;
//! - [`error`] and [`text`] name failures and put them into words;
//! - [`laws`] and [`pulls`] prove what holds over whole conversations.

pub mod decoder;
pub mod decoder_shim;
pub mod error;
pub mod event;
pub mod frame;
pub mod laws;
pub mod pulls;
pub mod stream;
pub mod text;
