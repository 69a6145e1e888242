//! The core of `prtsc`, a screen capture and recording tool built on the XDG
//! Desktop Portal.
//!
//! - [`cli`]: which tasks the program performs, and how it ends;
//! - [`mcp`]: what the MCP server says of itself and answers;
//! - [`format`]: negotiating the pixel format of a stream;
//! - [`pixels`]: raw frames, and packing their rows;
//! - [`nal`] and [`access_unit`]: what an encoded frame contributes to a
//!   recording;
//! - [`codec`], [`container`] and [`clock`]: the encoder, the muxer and the
//!   clock;
//! - [`model`], [`effects`] and [`recording`]: what a recording is, what the
//!   operations do to it, and the recorder.

pub mod access_unit;
pub mod cli;
pub mod clock;
pub mod codec;
pub mod container;
pub mod effects;
pub mod format;
pub mod mcp;
pub mod model;
pub mod nal;
pub mod pixels;
pub mod recording;
