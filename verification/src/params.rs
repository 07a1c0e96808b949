//! The ordered parameter container and its construction paths.

use std::collections::HashMap;
use vstd::prelude::*;

pub mod encode;
pub mod pairs_array;
pub mod pairs_iter;

pub use encode::string_value;

verus! {

/// One parameter entry: a key and its dynamic value. Keys need not be unique;
/// duplicate keys are legal and both occurrences are kept.
pub type Pair = (String, ijson::IValue);

/// A single value failed to convert into a dynamic value. It carries the
/// encoder's own error unchanged; no other failure exists in this library.
#[derive(Debug)]
pub struct ConversionError(pub serde_json::Error);

/// An ordered, insertion-stable sequence of parameter pairs.
///
/// Pairs stand in the order they were inserted or supplied by the source
/// collection; nothing is sorted, deduplicated, or dropped.
#[derive(Debug, PartialEq)]
pub struct Params(pub Vec<Pair>);

impl View for Params {
    type V = Seq<Pair>;

    open spec fn view(&self) -> Seq<Pair> {
        self.0@
    }
}

impl Params {
    /// Creates an empty container of length zero.
    pub fn new() -> (r: Params)
        ensures
            r@ == Seq::<Pair>::empty(),
    {
        Params(Vec::new())
    }

    /// Appends one pair at the end. Never fails; the length grows by exactly
    /// one and every earlier pair keeps its place.
    pub fn insert(&mut self, key: String, value: ijson::IValue)
        ensures
            final(self)@ == old(self)@.push((key, value)),
            final(self)@.len() == old(self)@.len() + 1,
    {
        self.0.push((key, value));
    }

    /// The number of pairs currently held.
    pub fn len(&self) -> (n: usize)
        ensures
            n == self@.len(),
    {
        self.0.len()
    }

    /// Consumes the container and hands out its pairs, in container order.
    pub fn into_pairs(self) -> (r: Vec<Pair>)
        ensures
            r@ == self@,
    {
        self.0
    }

    /// The pairs by reference, in container order.
    pub fn pairs(&self) -> (r: &Vec<Pair>)
        ensures
            r@ == self@,
    {
        &self.0
    }

    /// The pairs by mutable reference, in container order; a caller may
    /// rewrite entries in place, and the container afterwards holds exactly
    /// what the caller left behind.
    pub fn pairs_mut(&mut self) -> (r: &mut Vec<Pair>)
        ensures
            *r == old(self).0,
            final(self).0 == *final(r),
    {
        &mut self.0
    }

    /// Builds a container from per-pair conversion outcomes, all or nothing.
    ///
    /// Exactly when every outcome is a success, the result is a container
    /// holding the converted pairs in the order supplied. Otherwise the first
    /// failing outcome's error is returned and no container — not even a
    /// partial one — is produced.
    pub fn from_conversions(results: Vec<(String, Result<ijson::IValue, serde_json::Error>)>) -> (r:
        Result<Params, ConversionError>)
        ensures
            r is Ok <==> all_ok(results@),
            r is Ok ==> r->Ok_0@ == converted_pairs(results@),
            r is Err ==> exists|i: int|
                0 <= i < results@.len() && (#[trigger] results@[i].1) is Err && r->Err_0.0
                    == results@[i].1->Err_0 && (forall|j: int|
                    0 <= j < i ==> (#[trigger] results@[j].1) is Ok),
    {
        let n = results.len();
        let mut out: Vec<Pair> = Vec::with_capacity(n);
        for p in it: results.into_iter()
            invariant
                it.seq() == results@,
                out@.len() == it.index(),
                forall|j: int|
                    0 <= j < it.index() ==> (#[trigger] results@[j].1) is Ok && out@[j] == (
                    results@[j].0,
                    results@[j].1->Ok_0,
                ),
        {
            let (key, outcome) = p;
            match outcome {
                Ok(value) => out.push((key, value)),
                Err(e) => {
                    return Err(ConversionError(e));
                },
            }
        }
        proof {
            assert(out@ =~= converted_pairs(results@));
        }
        Ok(Params(out))
    }
    /// Builds a container from a fixed-size array of already-converted pairs,
    /// in the array's own order. Values are dynamic values already, so this
    /// path cannot fail.
    pub fn from_array<const N: usize>(pairs: [Pair; N]) -> (r: Params)
        ensures
            r@ == pairs@,
    {
        Params(array_into_vec(pairs))
    }

    /// Builds a container from string key/value pairs, in the order supplied.
    ///
    /// This path cannot fail: every value becomes the string-typed dynamic
    /// value holding exactly the characters of the source string.
    pub fn from_string_pairs(pairs: Vec<(String, String)>) -> (r: Params)
        ensures
            r@.len() == pairs@.len(),
            forall|i: int|
                0 <= i < pairs@.len() ==> #[trigger] r@[i] == (
                    pairs@[i].0,
                    string_value(pairs@[i].1@),
                ),
    {
        let n = pairs.len();
        let mut out: Vec<Pair> = Vec::with_capacity(n);
        for p in it: pairs.into_iter()
            invariant
                it.seq() == pairs@,
                out@.len() == it.index(),
                forall|j: int|
                    0 <= j < it.index() ==> #[trigger] out@[j] == (
                        pairs@[j].0,
                        string_value(pairs@[j].1@),
                    ),
        {
            let (key, value) = p;
            out.push((key, encode::ivalue_from_string(value)));
        }
        Params(out)
    }

    /// Builds a container from an unordered string map.
    ///
    /// The result holds exactly one pair per source entry — no entry lost, no
    /// entry duplicated — with each value as the string-typed dynamic value of
    /// the source string. The source has no defined order, so the order of
    /// the result is unspecified.
    pub fn from_map(map: HashMap<String, String>) -> (r: Params)
        ensures
            r@.len() == map@.dom().len(),
            forall|i: int|
                0 <= i < r@.len() ==> map@.contains_key((#[trigger] r@[i]).0) && r@[i].1
                    == string_value(map@[r@[i].0]@),
            forall|i: int, j: int| 0 <= i < j < r@.len() ==> r@[i].0@ != r@[j].0@,
            forall|k: String| #[trigger]
                map@.contains_key(k) ==> exists|i: int| 0 <= i < r@.len() && r@[i].0 == k,
    {
        let entries = map_into_pairs(map);
        let n = entries.len();
        let mut out: Vec<Pair> = Vec::with_capacity(n);
        for p in it: entries.into_iter()
            invariant
                it.seq() == entries@,
                out@.len() == it.index(),
                forall|j: int|
                    0 <= j < it.index() ==> #[trigger] out@[j] == (
                        entries@[j].0,
                        string_value(entries@[j].1@),
                    ),
        {
            let (key, value) = p;
            out.push((key, encode::ivalue_from_string(value)));
        }
        proof {
            assert forall|k: String| map@.contains_key(k) implies exists|i: int|
                0 <= i < out@.len() && out@[i].0 == k by {
                let i = choose|i: int| 0 <= i < entries@.len() && entries@[i].0 == k;
                assert(out@[i] == (entries@[i].0, string_value(entries@[i].1@)));
            }
        }
        Params(out)
    }
}

/// Relies on std's `Vec::from` for arrays: it allocates a vector and moves the
/// array's items into it, keeping their order.
#[verifier::external_body]
pub(crate) fn array_into_vec<T, const N: usize>(arr: [T; N]) -> (r: Vec<T>)
    ensures
        r@ == arr@,
{
    Vec::from(arr)
}

/// Relies on std's `HashMap::into_iter`: the map's entries are handed out
/// exactly once each, in an unspecified order. Stated of every outcome: the
/// vector holds one pair per map entry, its keys pairwise distinct, and every
/// key of the map among them.
#[verifier::external_body]
fn map_into_pairs(map: HashMap<String, String>) -> (r: Vec<(String, String)>)
    ensures
        r@.len() == map@.dom().len(),
        forall|i: int| 0 <= i < r@.len() ==> map@.contains_pair((#[trigger] r@[i]).0, r@[i].1),
        forall|i: int, j: int| 0 <= i < j < r@.len() ==> r@[i].0@ != r@[j].0@,
        forall|k: String| #[trigger]
            map@.contains_key(k) ==> exists|i: int| 0 <= i < r@.len() && r@[i].0 == k,
{
    map.into_iter().collect()
}

/// Every conversion outcome in `results` is a success.
pub open spec fn all_ok(results: Seq<(String, Result<ijson::IValue, serde_json::Error>)>) -> bool {
    forall|i: int| 0 <= i < results.len() ==> (#[trigger] results[i].1) is Ok
}

/// The pairs that a sequence of successful conversion outcomes yields, each
/// key beside its converted value, in the order supplied.
pub open spec fn converted_pairs(
    results: Seq<(String, Result<ijson::IValue, serde_json::Error>)>,
) -> Seq<Pair> {
    results.map_values(|p: (String, Result<ijson::IValue, serde_json::Error>)| (p.0, p.1->Ok_0))
}

/// Order preservation: a construction from conversion outcomes keeps every
/// key and its converted value at the source position.
pub proof fn lemma_converted_pairs_preserve_order(
    results: Seq<(String, Result<ijson::IValue, serde_json::Error>)>,
)
    ensures
        converted_pairs(results).len() == results.len(),
        forall|i: int|
            0 <= i < results.len() ==> #[trigger] converted_pairs(results)[i] == (
                results[i].0,
                results[i].1->Ok_0,
            ),
{
}

/// Length invariant: appending one pair grows the pair sequence by exactly
/// one, whatever the pair.
pub proof fn lemma_push_increments_len(pairs: Seq<Pair>, key: String, value: ijson::IValue)
    ensures
        pairs.push((key, value)).len() == pairs.len() + 1,
{
}

/// Atomic failure: a single failed conversion outcome denies the whole
/// sequence, so a construction from it returns an error and no container.
pub proof fn lemma_atomic_failure(
    results: Seq<(String, Result<ijson::IValue, serde_json::Error>)>,
    i: int,
)
    requires
        0 <= i < results.len(),
        results[i].1 is Err,
    ensures
        !all_ok(results),
{
    assert(!((results[i].1) is Ok));
}

} // verus!
