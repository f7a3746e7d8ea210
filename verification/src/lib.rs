//! The core of a Pixelflut server.
//!
//! Pixelflut is a line protocol for drawing on a shared canvas: `PX <x> <y>
//! <color>` sets a pixel, `PX <x> <y>` asks for one, `SIZE` asks for the size
//! of the canvas and `HELP` for the usage text. This crate holds what a
//! server decides and computes, and leaves sockets, tasks, locks and clocks
//! to the program around it:
//!
//! - [`text`] cuts a line into words, and [`number`] reads and writes the
//!   numbers of the protocol;
//! - [`pixel`] has pixels, coordinates and colors, as values and as text;
//! - [`command`] reads the command of a line;
//! - [`connection`] says what a connection does for a line, and what it
//!   writes back;
//! - [`aggregator`] collects the pixels to draw into batches;
//! - [`grid`] has the canvas that an embedder supplies, and draws a batch
//!   on it.
//!
//! Every function is verified against its contract, and the laws of the
//! protocol are proof functions beside the functions they speak of: what is
//! written reads back as itself, and every pixel that was submitted is drawn
//! once, in the order of submission.

pub mod aggregator;
pub mod command;
pub mod connection;
pub mod grid;
pub mod number;
pub mod pixel;
pub mod text;
