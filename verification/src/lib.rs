//! A vector of a fixed number of elements, the number being part of its type:
//! built from an array, read and written by position, added and subtracted
//! position by position, compared, copied, and turned into text.

pub mod arithmetic;
pub mod render;
pub mod vector;

pub use render::FormatError;
pub use vector::OutOfRange;
pub use vector::Vector;
