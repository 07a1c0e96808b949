//! Conversion of a fixed-size array of pairs into [`Params`].

use vstd::prelude::*;

use super::ConversionError;
use super::Params;
use super::array_into_vec;
use super::pairs_iter::PairsIter;

verus! {

/// A fixed-size array of (key, serializable value) pairs, wrapped for a
/// single conversion into [`Params`].
pub struct PairsArray<V, const N: usize>(pub [(String, V); N]);

impl<V: serde::Serialize, const N: usize> PairsArray<V, N> {
    /// Converts the wrapped array into a container, all or nothing.
    ///
    /// Identical to the sized-sequence conversion, for a source held as a
    /// fixed-size array: the array is walked in its literal order, every value
    /// goes through the generic dynamic-value encoder, and the first value
    /// the encoder rejects has its error returned at once, with no container
    /// produced and no later value encoded. An empty array always succeeds.
    pub fn into_params(self) -> (r: Result<Params, ConversionError>)
        ensures
            self.0@.len() == 0 ==> r is Ok,
            r is Ok ==> r->Ok_0@.len() == self.0@.len(),
            r is Ok ==> forall|i: int|
                0 <= i < self.0@.len() ==> (#[trigger] r->Ok_0@[i]).0 == self.0@[i].0,
    {
        PairsIter(array_into_vec(self.0)).into_params()
    }
}

} // verus!
