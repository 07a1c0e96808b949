//! An ordered, insertion-stable key/value parameter container for building
//! the parameters of a named remote-call method.
//!
//! Callers supply parameters in whatever shape they hold them — an unordered
//! string map, a fixed-size array of pairs, a sized sequence of pairs — and
//! each shape is normalized into a single [`Params`] value: an ordered
//! sequence of (name, dynamic value) pairs that preserves the order the
//! source supplied, keeps duplicate keys, and can later be emitted as a
//! map-shaped structure in exactly that order.

use vstd::prelude::*;

pub mod params;

pub use params::ConversionError;
pub use params::Pair;
pub use params::Params;
pub use params::pairs_array::PairsArray;
pub use params::pairs_iter::PairsIter;

verus! {

/// A named remote-call method together with its parameters. Pure composition:
/// it stores the two fields and does nothing else.
#[derive(Debug)]
pub struct Method {
    pub name: String,
    pub params: Params,
}

impl Method {
    /// Pairs a method name with an already-built parameter container.
    pub fn new(name: String, params: Params) -> (m: Method)
        ensures
            m.name == name,
            m.params == params,
    {
        Method { name, params }
    }
}

} // verus!
