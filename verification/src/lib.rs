//! Core of an interactive job dashboard: a bounded FIFO log buffer for
//! process output, an immutable menu tree with index-based navigation, a
//! modal line-editor prompt, and the controller that routes key events
//! between them. Terminal drawing and process I/O live outside this crate;
//! this library computes the state transitions and the per-frame render data.
pub mod input;
pub mod job;
pub mod key;
pub mod logbuf;
pub mod menu;
pub mod model;
pub mod prompt;
pub mod util;
