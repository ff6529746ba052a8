//! Core logic of a network-controllable LED strip controller.
//!
//! A client submits a desired color over TCP; the firmware fills the whole
//! strip with that color. This crate holds the logic of that pipeline:
//! classifying and parsing requests into color commands, the bounded FIFO
//! channel that carries commands from the network side to the hardware side,
//! the connectivity supervisor's reconnect state machine, and the
//! construction of solid frames for the strip. All socket, radio and strip
//! hardware access lives outside this crate and exchanges plain values with
//! it.

pub mod channel;
pub mod color;
pub mod frame;
pub mod http;
pub mod listener;
pub mod parse;
pub mod supervisor;
