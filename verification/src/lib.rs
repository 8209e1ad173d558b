//! Playback actor for a library of audio beats.
//!
//! The crate models the core of a desktop audio player: a single worker
//! owns the output device and a queue of pending sources, and callers on
//! arbitrary threads reach it only through a FIFO command mailbox. The
//! worker's reaction to every command is a verified state machine
//! (`worker`, with its laws in `laws`); the mailbox and facade post
//! commands over a real channel; the physical device work — decoding
//! files, driving the output stream — is left to the embedding program,
//! which interprets the `DeviceOp` values the worker emits.

pub mod command;
pub mod facade;
pub mod laws;
pub mod mailbox;
pub mod state;
pub mod worker;
