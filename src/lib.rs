//! A fixed-capacity, zero-initialised array with bounds-checked access.

pub mod allocator;
pub mod array;
pub mod element;
pub mod error;
pub mod laws;

pub use allocator::allocate;
pub use array::{Array, ArrayIter};
pub use element::Element;
pub use error::{ArrayError, ErrorKind};
