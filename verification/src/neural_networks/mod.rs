//! The integer-exact building blocks of the evaluation networks: fixed-size
//! vectors and matrices, the layer interfaces, and the layout of the input.
pub mod data_structures;
pub mod heap_arrays;

use vstd::prelude::*;
use crate::neural_networks::heap_arrays::HeapVector;

verus! {

/// A layer that maps `INPUTS` values to the values of its `NEURONS` neurons.
pub trait Layer<T, const INPUTS: usize, const NEURONS: usize> {
    fn apply(&self, input: &HeapVector<T, INPUTS>) -> HeapVector<T, NEURONS>;
}

/// A layer that remembers its activations and derivatives for training.
pub trait TrainableLayer<T, const INPUTS: usize, const NEURONS: usize> {
    fn apply(&mut self, input: &HeapVector<T, INPUTS>) -> HeapVector<T, NEURONS>;

    fn average_from_count(&mut self, count: usize);

    fn activations(&self) -> &HeapVector<T, NEURONS>;

    fn derivatives(&self) -> &HeapVector<T, NEURONS>;

    fn clear(&mut self);
}

/// The activation functions a layer can use.
#[derive(Debug, Copy, Clone, Eq, PartialEq)]
pub enum ActivationFunction {
    ClippedRelu,
    Sigmoid,
    ScaledTranslatedSigmoid,
    Relu,
    Tanh,
    Linear,
}

/// The index of the input neuron for a piece of kind `piece` (0 to 5) and
/// colour `color` (0 for white, 1 for black) on square `square` (0 to 63):
/// `square + 64 * piece + 384 * color`, so that the 768 inputs are distinct.
pub fn input_index(square: usize, piece: usize, color: usize) -> (i: usize)
    requires
        square < 64,
        piece < 6,
        color < 2,
    ensures
        i == square + 64 * piece + 384 * color,
        i < 768,
{
    square + 64 * piece + 64 * 6 * color
}

/// Different squares, kinds or colours have different input neurons.
pub proof fn law_input_index_distinct(s1: usize, p1: usize, c1: usize, s2: usize, p2: usize, c2: usize)
    requires
        s1 < 64,
        p1 < 6,
        c1 < 2,
        s2 < 64,
        p2 < 6,
        c2 < 2,
        s1 != s2 || p1 != p2 || c1 != c2,
    ensures
        s1 + 64 * p1 + 384 * c1 != s2 + 64 * p2 + 384 * c2,
{
}

} // verus!
