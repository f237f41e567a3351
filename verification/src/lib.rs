//! Core of a terminal-session player: an append-only store of parsed
//! screen frames, a time-driven playback scheduler, an event coalescer,
//! an input translator, and the pure view state of the presenter.

pub mod cmd;
pub mod display;
pub mod event;
pub mod frames;
pub mod ingest;
pub mod input;
pub mod text;
pub mod timer;
pub mod vt;
