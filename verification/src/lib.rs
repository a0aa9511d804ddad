//! A terminal clock whose digits are assembled out of falling tetromino
//! pieces.
//!
//! The crate contains the piece physics and digit-animation engine: the
//! tetromino geometry catalog, the per-tick collision and descent simulation,
//! the piece lifecycle state machine, and the sequencer that decides which
//! pieces spawn, in what order, to build or retire a digit glyph. Drawing and
//! occupancy testing happen on an in-memory pixel surface provided by the
//! `pixel_loop` crate; presenting that surface on a terminal, keyboard input
//! and the time source live outside this crate.

pub mod board;
pub mod color;
pub mod digitboard;
pub mod digits;
pub mod geometry;
pub mod layout;
pub mod surface;
pub mod timefmt;
