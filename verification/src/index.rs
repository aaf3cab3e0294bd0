//! The single-use index description: one factory per index kind, and the
//! consume-once cell that hands the finished variant to the builder.

use vstd::prelude::*;

use crate::distance::DistanceType;
use crate::distance::distance_type_of;
use crate::distance::resolve_distance_type;
use crate::errors::Error;
use crate::language::Language;
use crate::language::language_of;
use crate::language::resolve_language;
use crate::params::DEFAULT_MAX_ITERATIONS;
use crate::params::DEFAULT_NUM_BITS;
use crate::params::DEFAULT_SAMPLE_RATE;
use crate::params::FtsParams;
use crate::params::IvfFlatParams;
use crate::params::IvfHnswPqParams;
use crate::params::IvfHnswSqParams;
use crate::params::IvfPqParams;

verus! {

/// One fully-resolved index description: exactly one kind, with that kind's
/// parameter record and nothing of any other kind's.
#[derive(Clone, Debug, PartialEq, Eq)]
pub enum IndexVariant {
    IvfPq(IvfPqParams),
    IvfFlat(IvfFlatParams),
    IvfHnswPq(IvfHnswPqParams),
    IvfHnswSq(IvfHnswSqParams),
    BTree,
    Bitmap,
    LabelList,
    Fts(FtsParams),
}

/// A single-use cell around an [`IndexVariant`].
///
/// Its view is `Some(v)` while the cell still holds its variant `v` and
/// `None` once it has been consumed. Every factory returns a holding cell;
/// only [`Index::consume`] moves it to the consumed state, and no operation
/// ever moves it back.
pub struct Index {
    held: Option<IndexVariant>,
}

impl View for Index {
    type V = Option<IndexVariant>;

    closed spec fn view(&self) -> Option<IndexVariant> {
        self.held
    }
}

/// The metric an optional distance-type argument resolves to: the default
/// metric when absent, and whatever the name resolves to when present.
pub open spec fn resolved_distance(o: Option<String>) -> Option<DistanceType> {
    match o {
        Option::None => Some(DistanceType::L2),
        Option::Some(s) => distance_type_of(s@),
    }
}

/// The language field an optional language argument resolves to: the outer
/// option is whether resolution succeeds, the inner one the field itself
/// (a full-text index need not have a language configured).
pub open spec fn resolved_language(o: Option<String>) -> Option<Option<Language>> {
    match o {
        Option::None => Some(None::<Language>),
        Option::Some(s) => match language_of(s@) {
            Option::Some(l) => Some(Some(l)),
            Option::None => None,
        },
    }
}

impl Index {
    /// Take the held variant out of the cell.
    ///
    /// The first call on a holding cell returns the variant and leaves the
    /// cell consumed; every call on a consumed cell fails and leaves it
    /// consumed. The consumed state is terminal, so one description can
    /// authorize at most one build request.
    pub fn consume(&mut self) -> (r: Result<IndexVariant, Error>)
        ensures
            final(self)@ is None,
            old(self)@ matches Some(v) ==> r == Ok::<IndexVariant, Error>(v),
            old(self)@ is None ==> r == Err::<IndexVariant, Error>(Error::AlreadyConsumed),
    {
        match self.held.take() {
            Some(v) => Ok(v),
            None => Err(Error::AlreadyConsumed),
        }
    }

    /// Describe an inverted-file index with product quantization.
    ///
    /// Succeeds exactly when the distance-type name, if supplied, is
    /// recognized; the cell then holds an `IvfPq` record carrying every
    /// supplied value unchanged and the documented default for every
    /// omitted one. Numeric ranges are not validated here.
    pub fn ivf_pq(
        distance_type: Option<String>,
        num_partitions: Option<u32>,
        num_sub_vectors: Option<u32>,
        num_bits: Option<u32>,
        max_iterations: Option<u32>,
        sample_rate: Option<u32>,
    ) -> (r: Result<Index, Error>)
        ensures
            r is Ok <==> resolved_distance(distance_type) is Some,
            r matches Ok(ix) ==> {
                &&& resolved_distance(distance_type) matches Some(dt)
                &&& ix@ == Some(IndexVariant::IvfPq(IvfPqParams {
                    distance_type: dt,
                    num_partitions: num_partitions,
                    num_sub_vectors: num_sub_vectors,
                    num_bits: num_bits.unwrap_or(DEFAULT_NUM_BITS),
                    max_iterations: max_iterations.unwrap_or(DEFAULT_MAX_ITERATIONS),
                    sample_rate: sample_rate.unwrap_or(DEFAULT_SAMPLE_RATE),
                }))
            },
            r matches Err(e) ==> {
                &&& distance_type matches Some(s)
                &&& distance_type_of(s@) is None
                &&& e matches Error::InvalidDistanceType { name }
                &&& name@ == s@
            },
    {
        let dt = match distance_type {
            Option::Some(s) => match resolve_distance_type(s.as_str()) {
                Ok(d) => d,
                Err(e) => {
                    return Err(e);
                },
            },
            Option::None => DistanceType::L2,
        };
        Ok(Index {
            held: Some(IndexVariant::IvfPq(IvfPqParams {
                distance_type: dt,
                num_partitions: num_partitions,
                num_sub_vectors: num_sub_vectors,
                num_bits: num_bits.unwrap_or(DEFAULT_NUM_BITS),
                max_iterations: max_iterations.unwrap_or(DEFAULT_MAX_ITERATIONS),
                sample_rate: sample_rate.unwrap_or(DEFAULT_SAMPLE_RATE),
            })),
        })
    }

    /// Describe an inverted-file index over uncompressed vectors.
    ///
    /// Succeeds exactly when the distance-type name, if supplied, is
    /// recognized; the cell then holds an `IvfFlat` record carrying every
    /// supplied value unchanged and the documented default for every
    /// omitted one. Numeric ranges are not validated here.
    pub fn ivf_flat(
        distance_type: Option<String>,
        num_partitions: Option<u32>,
        max_iterations: Option<u32>,
        sample_rate: Option<u32>,
    ) -> (r: Result<Index, Error>)
        ensures
            r is Ok <==> resolved_distance(distance_type) is Some,
            r matches Ok(ix) ==> {
                &&& resolved_distance(distance_type) matches Some(dt)
                &&& ix@ == Some(IndexVariant::IvfFlat(IvfFlatParams {
                    distance_type: dt,
                    num_partitions: num_partitions,
                    max_iterations: max_iterations.unwrap_or(DEFAULT_MAX_ITERATIONS),
                    sample_rate: sample_rate.unwrap_or(DEFAULT_SAMPLE_RATE),
                }))
            },
            r matches Err(e) ==> {
                &&& distance_type matches Some(s)
                &&& distance_type_of(s@) is None
                &&& e matches Error::InvalidDistanceType { name }
                &&& name@ == s@
            },
    {
        let dt = match distance_type {
            Option::Some(s) => match resolve_distance_type(s.as_str()) {
                Ok(d) => d,
                Err(e) => {
                    return Err(e);
                },
            },
            Option::None => DistanceType::L2,
        };
        Ok(Index {
            held: Some(IndexVariant::IvfFlat(IvfFlatParams {
                distance_type: dt,
                num_partitions: num_partitions,
                max_iterations: max_iterations.unwrap_or(DEFAULT_MAX_ITERATIONS),
                sample_rate: sample_rate.unwrap_or(DEFAULT_SAMPLE_RATE),
            })),
        })
    }

    /// Describe an inverted-file index searched through a hierarchical
    /// navigable small-world graph, with product quantization.
    ///
    /// Succeeds exactly when the distance-type name, if supplied, is
    /// recognized; the cell then holds an `IvfHnswPq` record carrying every
    /// supplied value unchanged and the documented default for every
    /// omitted one. Numeric ranges are not validated here.
    pub fn hnsw_pq(
        distance_type: Option<String>,
        num_partitions: Option<u32>,
        num_sub_vectors: Option<u32>,
        max_iterations: Option<u32>,
        sample_rate: Option<u32>,
        m: Option<u32>,
        ef_construction: Option<u32>,
    ) -> (r: Result<Index, Error>)
        ensures
            r is Ok <==> resolved_distance(distance_type) is Some,
            r matches Ok(ix) ==> {
                &&& resolved_distance(distance_type) matches Some(dt)
                &&& ix@ == Some(IndexVariant::IvfHnswPq(IvfHnswPqParams {
                    distance_type: dt,
                    num_partitions: num_partitions,
                    num_sub_vectors: num_sub_vectors,
                    max_iterations: max_iterations.unwrap_or(DEFAULT_MAX_ITERATIONS),
                    sample_rate: sample_rate.unwrap_or(DEFAULT_SAMPLE_RATE),
                    num_edges: m,
                    ef_construction: ef_construction,
                }))
            },
            r matches Err(e) ==> {
                &&& distance_type matches Some(s)
                &&& distance_type_of(s@) is None
                &&& e matches Error::InvalidDistanceType { name }
                &&& name@ == s@
            },
    {
        let dt = match distance_type {
            Option::Some(s) => match resolve_distance_type(s.as_str()) {
                Ok(d) => d,
                Err(e) => {
                    return Err(e);
                },
            },
            Option::None => DistanceType::L2,
        };
        Ok(Index {
            held: Some(IndexVariant::IvfHnswPq(IvfHnswPqParams {
                distance_type: dt,
                num_partitions: num_partitions,
                num_sub_vectors: num_sub_vectors,
                max_iterations: max_iterations.unwrap_or(DEFAULT_MAX_ITERATIONS),
                sample_rate: sample_rate.unwrap_or(DEFAULT_SAMPLE_RATE),
                num_edges: m,
                ef_construction: ef_construction,
            })),
        })
    }

    /// Describe an inverted-file index searched through a hierarchical
    /// navigable small-world graph, with scalar quantization.
    ///
    /// Succeeds exactly when the distance-type name, if supplied, is
    /// recognized; the cell then holds an `IvfHnswSq` record carrying every
    /// supplied value unchanged and the documented default for every
    /// omitted one. Numeric ranges are not validated here.
    pub fn hnsw_sq(
        distance_type: Option<String>,
        num_partitions: Option<u32>,
        max_iterations: Option<u32>,
        sample_rate: Option<u32>,
        m: Option<u32>,
        ef_construction: Option<u32>,
    ) -> (r: Result<Index, Error>)
        ensures
            r is Ok <==> resolved_distance(distance_type) is Some,
            r matches Ok(ix) ==> {
                &&& resolved_distance(distance_type) matches Some(dt)
                &&& ix@ == Some(IndexVariant::IvfHnswSq(IvfHnswSqParams {
                    distance_type: dt,
                    num_partitions: num_partitions,
                    max_iterations: max_iterations.unwrap_or(DEFAULT_MAX_ITERATIONS),
                    sample_rate: sample_rate.unwrap_or(DEFAULT_SAMPLE_RATE),
                    num_edges: m,
                    ef_construction: ef_construction,
                }))
            },
            r matches Err(e) ==> {
                &&& distance_type matches Some(s)
                &&& distance_type_of(s@) is None
                &&& e matches Error::InvalidDistanceType { name }
                &&& name@ == s@
            },
    {
        let dt = match distance_type {
            Option::Some(s) => match resolve_distance_type(s.as_str()) {
                Ok(d) => d,
                Err(e) => {
                    return Err(e);
                },
            },
            Option::None => DistanceType::L2,
        };
        Ok(Index {
            held: Some(IndexVariant::IvfHnswSq(IvfHnswSqParams {
                distance_type: dt,
                num_partitions: num_partitions,
                max_iterations: max_iterations.unwrap_or(DEFAULT_MAX_ITERATIONS),
                sample_rate: sample_rate.unwrap_or(DEFAULT_SAMPLE_RATE),
                num_edges: m,
                ef_construction: ef_construction,
            })),
        })
    }

    /// Describe an ordered scalar index. It has no tunables and the
    /// factory cannot fail.
    pub fn btree() -> (r: Index)
        ensures
            r@ == Some(IndexVariant::BTree),
    {
        Index { held: Some(IndexVariant::BTree) }
    }

    /// Describe a scalar membership index. It has no tunables and the
    /// factory cannot fail.
    pub fn bitmap() -> (r: Index)
        ensures
            r@ == Some(IndexVariant::Bitmap),
    {
        Index { held: Some(IndexVariant::Bitmap) }
    }

    /// Describe a multi-label membership index. It has no tunables and the
    /// factory cannot fail.
    pub fn label_list() -> (r: Index)
        ensures
            r@ == Some(IndexVariant::LabelList),
    {
        Index { held: Some(IndexVariant::LabelList) }
    }

    /// Describe a full-text index over tokenized text.
    ///
    /// Succeeds exactly when the language name, if supplied, is in the
    /// supported set; the cell then holds an `Fts` record carrying every
    /// supplied value unchanged and the documented default for every
    /// omitted one.
    pub fn fts(
        with_position: Option<bool>,
        base_tokenizer: Option<String>,
        language: Option<String>,
        max_token_length: Option<u32>,
        lower_case: Option<bool>,
        stem: Option<bool>,
        remove_stop_words: Option<bool>,
        ascii_folding: Option<bool>,
        ngram_min_length: Option<u32>,
        ngram_max_length: Option<u32>,
        prefix_only: Option<bool>,
    ) -> (r: Result<Index, Error>)
        ensures
            r is Ok <==> resolved_language(language) is Some,
            r matches Ok(ix) ==> {
                &&& resolved_language(language) matches Some(lang)
                &&& ix@ matches Some(IndexVariant::Fts(p))
                &&& p.with_position == with_position.unwrap_or(false)
                &&& p.base_tokenizer@ == (match base_tokenizer {
                    Option::Some(t) => t@,
                    Option::None => "default"@,
                })
                &&& p.language == lang
                &&& p.max_token_length == max_token_length
                &&& p.lower_case == lower_case.unwrap_or(true)
                &&& p.stem == stem.unwrap_or(false)
                &&& p.remove_stop_words == remove_stop_words.unwrap_or(false)
                &&& p.ascii_folding == ascii_folding.unwrap_or(false)
                &&& p.ngram_min_length == ngram_min_length
                &&& p.ngram_max_length == ngram_max_length
                &&& p.prefix_only == prefix_only.unwrap_or(false)
            },
            r matches Err(e) ==> {
                &&& language matches Some(s)
                &&& language_of(s@) is None
                &&& e matches Error::InvalidLanguage { name }
                &&& name@ == s@
            },
    {
        let lang = match language {
            Option::Some(s) => match resolve_language(s.as_str()) {
                Ok(l) => Some(l),
                Err(e) => {
                    return Err(e);
                },
            },
            Option::None => None,
        };
        let tokenizer = match base_tokenizer {
            Option::Some(t) => t,
            Option::None => String::from_str("default"),
        };
        Ok(Index {
            held: Some(IndexVariant::Fts(FtsParams {
                with_position: with_position.unwrap_or(false),
                base_tokenizer: tokenizer,
                language: lang,
                max_token_length: max_token_length,
                lower_case: lower_case.unwrap_or(true),
                stem: stem.unwrap_or(false),
                remove_stop_words: remove_stop_words.unwrap_or(false),
                ascii_folding: ascii_folding.unwrap_or(false),
                ngram_min_length: ngram_min_length,
                ngram_max_length: ngram_max_length,
                prefix_only: prefix_only.unwrap_or(false),
            })),
        })
    }
}

} // verus!
