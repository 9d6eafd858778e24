//! Group-of-pictures driver for AV1 encoding with a recording entropy coder.
//!
//! * [`encoder`]: the plain data of a frame under way, and the operations that
//!   an AV1 codec supplies.
//! * [`phasm_stego`]: the driver, which encodes a group of pictures (GOP).
//! * [`phasm_stego_lookahead`]: the refinement pass over a window of frames.
//! * [`calls`]: which calls a run makes of the codec.
//! * [`laws`]: what holds of every run of the driver.
//! * [`version`]: the version of this package.
//! * [`text`]: decimal text.
pub mod calls;
pub mod encoder;
pub mod laws;
pub mod phasm_stego;
pub mod phasm_stego_lookahead;
pub mod text;
pub mod version;
