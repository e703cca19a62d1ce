//! A fixed-capacity pool of slots for values of one type, for programs that
//! cannot or do not want to use a heap.
//!
//! A rack owns a fixed number of slots. Adding a value occupies the lowest
//! free slot and hands out a [`Unit`], the one handle through which the value
//! is read, changed and finally released. Every operation is stated over the
//! rack's model: the sequence of its slots' contents, `None` for a free slot.

pub mod data_array;
pub mod error;
pub mod laws;
pub mod model;
pub mod rack;
pub mod slot;

pub use error::AddUnitError;
pub use rack::{
    FixedRack, Rack, Rack1, Rack1024, Rack128, Rack16, Rack2, Rack256, Rack32, Rack4, Rack512,
    Rack64, Rack8, Unit,
};
pub use slot::Slot;
