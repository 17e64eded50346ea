//! A verified Game of Life engine: a dense, fixed-size, double-buffered grid
//! that advances generation by generation and reports, per step, exactly the
//! cells whose state changed.

pub mod model;
pub mod universe;
pub mod laws;

pub use universe::Cell;
pub use universe::Universe;
