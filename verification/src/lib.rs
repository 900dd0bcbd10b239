//! A verified core for a network-controllable audio playback service.
//!
//! A remote caller issues commands (play a file, loop a file, pause, resume,
//! stop); a single playback controller owns the one audio output sink and
//! applies the commands strictly in arrival order.  This crate holds the
//! verified pieces: the command model, the FIFO command queue, the
//! controller's state machine, an abstract model of the output sink that the
//! state machine is proved to track, and the decision logic of the request
//! boundary.  The surrounding process (HTTP routes, the worker thread, the
//! audio device itself) lives outside the library and only exchanges plain
//! values with it.

pub mod api;
pub mod channel;
pub mod command;
pub mod controller;
pub mod sink;
