//! Exchange of particle-physics event records with a columnar event store
//! and with a generic vertex/particle interchange record.
//!
//! Floating-point quantities are carried as their IEEE-754 bit patterns
//! (`u32` for single precision, `u64` for double precision), so that every
//! value passes through this library unchanged, bit for bit.
use vstd::prelude::*;

pub mod conv;
pub mod event;
pub mod reader;
pub mod writer;

pub use crate::event::Event;
pub use crate::reader::Reader;
pub use crate::writer::Writer;
