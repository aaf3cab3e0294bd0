//! The distance-metric resolver.

use vstd::prelude::*;

use crate::errors::Error;

verus! {

/// The distance metrics a vector index can be trained with.
#[derive(Clone, Copy, Debug, PartialEq, Eq)]
pub enum DistanceType {
    L2,
    Cosine,
    Dot,
    Hamming,
}

/// The metric named by `s`, if any.
///
/// Matching is case-sensitive: the recognized names are exactly the four
/// lower-case tokens `"l2"`, `"cosine"`, `"dot"` and `"hamming"`; every
/// other string (the empty string, other casings, surrounding whitespace)
/// names no metric.
pub open spec fn distance_type_of(s: Seq<char>) -> Option<DistanceType> {
    if s == "l2"@ {
        Some(DistanceType::L2)
    } else if s == "cosine"@ {
        Some(DistanceType::Cosine)
    } else if s == "dot"@ {
        Some(DistanceType::Dot)
    } else if s == "hamming"@ {
        Some(DistanceType::Hamming)
    } else {
        None
    }
}

/// Parse a user-supplied distance-metric name into the closed enumeration.
///
/// Returns the matching metric for each of the four recognized names and
/// fails for every other string, carrying the offending name verbatim.
pub fn resolve_distance_type(name: &str) -> (r: Result<DistanceType, Error>)
    ensures
        match distance_type_of(name@) {
            Some(dt) => r == Ok::<DistanceType, Error>(dt),
            None => (r matches Err(e) && e matches Error::InvalidDistanceType { name: n }
                && n@ == name@),
        },
{
    let owned = name.to_owned();
    if owned == String::from_str("l2") {
        Ok(DistanceType::L2)
    } else if owned == String::from_str("cosine") {
        Ok(DistanceType::Cosine)
    } else if owned == String::from_str("dot") {
        Ok(DistanceType::Dot)
    } else if owned == String::from_str("hamming") {
        Ok(DistanceType::Hamming)
    } else {
        Err(Error::InvalidDistanceType { name: owned })
    }
}

/// Law: the resolver's name set is exactly the four documented tokens.
///
/// Each of `"l2"`, `"cosine"`, `"dot"` and `"hamming"` resolves to its
/// metric, and a string resolves at all exactly when it is one of those
/// four; in particular the empty string and names differing only by case
/// resolve to nothing.
pub proof fn lemma_distance_type_names()
    ensures
        distance_type_of("l2"@) == Some(DistanceType::L2),
        distance_type_of("cosine"@) == Some(DistanceType::Cosine),
        distance_type_of("dot"@) == Some(DistanceType::Dot),
        distance_type_of("hamming"@) == Some(DistanceType::Hamming),
        forall|s: Seq<char>|
            #[trigger] distance_type_of(s) is Some <==> (s == "l2"@ || s == "cosine"@
                || s == "dot"@ || s == "hamming"@),
{
    reveal_strlit("l2");
    reveal_strlit("cosine");
    reveal_strlit("dot");
    reveal_strlit("hamming");
    assert("l2"@.len() == 2);
    assert("cosine"@.len() == 6);
    assert("dot"@.len() == 3);
    assert("hamming"@.len() == 7);
}

} // verus!
