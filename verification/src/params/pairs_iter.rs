//! Conversion of a sized sequence of pairs into [`Params`].

use vstd::prelude::*;

use super::ConversionError;
use super::Params;
use super::converted_pairs;

verus! {

/// A sized sequence of (key, serializable value) pairs, wrapped for a single
/// conversion into [`Params`].
pub struct PairsIter<V>(pub Vec<(String, V)>);

impl<V: serde::Serialize> PairsIter<V> {
    /// Converts the wrapped pairs into a container, all or nothing.
    ///
    /// Every value goes through the generic dynamic-value encoder, in the
    /// order supplied; the first value the encoder rejects has its error
    /// returned at once — no later value is encoded — and no container is
    /// produced. On success the container holds one pair per source pair,
    /// with the keys unchanged and in the order supplied. A source without
    /// pairs gives the encoder nothing to reject, so it always succeeds.
    pub fn into_params(self) -> (r: Result<Params, ConversionError>)
        ensures
            self.0@.len() == 0 ==> r is Ok,
            r is Ok ==> r->Ok_0@.len() == self.0@.len(),
            r is Ok ==> forall|i: int|
                0 <= i < self.0@.len() ==> (#[trigger] r->Ok_0@[i]).0 == self.0@[i].0,
    {
        let n = self.0.len();
        let mut outcomes: Vec<(String, Result<ijson::IValue, serde_json::Error>)> =
            Vec::with_capacity(n);
        for p in it: self.0.into_iter()
            invariant
                it.seq() == self.0@,
                outcomes@.len() == it.index(),
                forall|j: int|
                    0 <= j < it.index() ==> (#[trigger] outcomes@[j]).0 == self.0@[j].0
                        && outcomes@[j].1 is Ok,
        {
            let (key, value) = p;
            match ijson::to_value(value) {
                Ok(converted) => outcomes.push((key, Ok(converted))),
                Err(e) => {
                    return Err(ConversionError(e));
                },
            }
        }
        let r = Params::from_conversions(outcomes);
        proof {
            if r is Ok {
                assert(r->Ok_0@ == converted_pairs(outcomes@));
            }
        }
        r
    }
}

} // verus!
