//! Core of a grid-drawing toy: overflow-checked numeric conversions, a
//! generic rectangle with intersection, a pixel-to-box grid mapping, and a
//! marked-box store.  The surrounding GUI plumbing lives outside this crate
//! and talks to it through plain values.

pub mod basic_types;
pub mod convert;
pub mod event_handler;
pub mod grid;
pub mod labyrinth;
pub mod marked;
pub mod rectangle;
