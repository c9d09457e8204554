//! The same fixed-size vectors and matrices as [`crate::neural_networks::heap_arrays`].
pub use crate::neural_networks::heap_arrays::{HeapMatrix, HeapVector};
