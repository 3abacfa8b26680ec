//! Glitch art by byte bending: randomized, configurable transformations of a
//! byte buffer.
//!
//! - [`mutations2`] holds the catalog of mutations, each a transform of a
//!   window of bytes with a contract that says what it may do to the window.
//! - [`driver`] applies a list of mutations to a buffer, in order, placing a
//!   random window for every local mutation.
//! - [`config`] reads a configuration document and resolves the parameters of
//!   the mutations, with defaults and random ranges and choices.
//! - [`output`] decides how the buffer is handled between outputs and what
//!   the output files are called.
//! - [`preconvert`] converts the source to another image format first, where
//!   that is asked for.
//! - [`random`] and [`text`] hold the random draws and the text helpers the
//!   others use.

pub mod config;
pub mod driver;
pub mod mutations2;
pub mod output;
pub mod preconvert;
pub mod random;
pub mod text;
